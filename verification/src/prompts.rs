//! Interactive setup's prompts: what is asked, how an answer is read, and
//! how a calendar is picked from the discovered ones.
use crate::exports::{lowercased, to_lowercase, DiscoveredCalendar};
use crate::numtext::{decimal, decimal_string};
use crate::text::{append_str, chars_of, owned, str_eq, string_from_chars, trim, trim_chars};
use vstd::prelude::*;

verus! {

// ---------------------------------------------------------------- text prompts
/// A text prompt: the label, the current value in brackets when there is
/// one, and a colon.
pub open spec fn text_prompt(label: Seq<char>, current: Option<Seq<char>>) -> Seq<char> {
    match current {
        Some(c) => if c.len() > 0 {
            label + " ["@ + c + "]: "@
        } else {
            label + ": "@
        },
        None => label + ": "@,
    }
}

pub open spec fn opt_str(v: Option<&str>) -> Option<Seq<char>> {
    match v {
        Some(s) => Some(s@),
        None => None,
    }
}

pub fn text_prompt_label(label: &str, current: Option<&str>) -> (r: String)
    ensures
        r@ == text_prompt(label@, opt_str(current)),
{
    let mut out = owned(label);
    let shown = match current {
        Some(c) => chars_of(c).len() > 0,
        None => false,
    };
    if shown {
        match current {
            Some(c) => {
                append_str(&mut out, " [");
                append_str(&mut out, c);
                append_str(&mut out, "]: ");
            },
            None => {},
        }
    } else {
        append_str(&mut out, ": ");
    }
    out
}

/// A typed answer: trimmed, or the current value (else nothing) when blank.
pub open spec fn text_answer(line: Seq<char>, current: Option<Seq<char>>) -> Seq<char> {
    if trim(line).len() == 0 {
        match current {
            Some(c) => c,
            None => Seq::empty(),
        }
    } else {
        trim(line)
    }
}

pub fn text_prompt_answer(line: &str, current: Option<&str>) -> (r: String)
    ensures
        r@ == text_answer(line@, opt_str(current)),
{
    let cs = chars_of(line);
    let t = trim_chars(&cs);
    if t.len() == 0 {
        match current {
            Some(c) => owned(c),
            None => String::new(),
        }
    } else {
        string_from_chars(t.as_slice())
    }
}

/// A secret prompt says whether blank keeps the stored secret or skips it.
pub open spec fn secret_prompt(label: Seq<char>, has_existing: bool) -> Seq<char> {
    label + if has_existing {
        " [stored; leave blank to keep]: "@
    } else {
        " [leave blank to skip]: "@
    }
}

pub fn secret_prompt_label(label: &str, has_existing: bool) -> (r: String)
    ensures
        r@ == secret_prompt(label@, has_existing),
{
    let mut out = owned(label);
    append_str(
        &mut out,
        if has_existing {
            " [stored; leave blank to keep]: "
        } else {
            " [leave blank to skip]: "
        },
    );
    out
}

// ---------------------------------------------------------------- yes or no
pub open spec fn yes_no_prompt(label: Seq<char>, default: bool) -> Seq<char> {
    label + if default {
        " [Y/n]: "@
    } else {
        " [y/N]: "@
    }
}

pub fn yes_no_prompt_label(label: &str, default: bool) -> (r: String)
    ensures
        r@ == yes_no_prompt(label@, default),
{
    let mut out = owned(label);
    append_str(
        &mut out,
        if default {
            " [Y/n]: "
        } else {
            " [y/N]: "
        },
    );
    out
}

/// A yes/no answer: blank keeps the default; `y`, `yes`, `true` or `1`
/// in any case is yes; anything else is no.
pub open spec fn yes_no_answer(line: Seq<char>, default: bool) -> bool {
    let v = lowercased(trim(line));
    if v.len() == 0 {
        default
    } else {
        v == "y"@ || v == "yes"@ || v == "true"@ || v == "1"@
    }
}

pub fn read_yes_no(line: &str, default: bool) -> (r: bool)
    ensures
        r == yes_no_answer(line@, default),
{
    let cs = chars_of(line);
    let t = trim_chars(&cs);
    let trimmed = string_from_chars(t.as_slice());
    let v = to_lowercase(trimmed.as_str());
    let vc = chars_of(v.as_str());
    if vc.len() == 0 {
        default
    } else {
        str_eq(v.as_str(), "y") || str_eq(v.as_str(), "yes") || str_eq(v.as_str(), "true") || str_eq(
            v.as_str(),
            "1",
        )
    }
}

// ---------------------------------------------------------------- numbers
pub open spec fn is_digit(c: char) -> bool {
    '0' <= c <= '9'
}

pub open spec fn all_digits(s: Seq<char>) -> bool {
    forall|i: int| 0 <= i < s.len() ==> is_digit(#[trigger] s[i])
}

/// The value of a string of decimal digits.
pub open spec fn digits_value(s: Seq<char>) -> nat
    decreases s.len(),
{
    if s.len() == 0 {
        0
    } else {
        digits_value(s.drop_last()) * 10 + ((s.last() as u32) - 48) as nat
    }
}

/// `usize`'s `from_str`: an optional plus sign and at least one ASCII digit,
/// the value within `usize`.
pub open spec fn parsed_usize(s: Seq<char>) -> Option<usize> {
    let d = if s.len() > 0 && s[0] == '+' {
        s.drop_first()
    } else {
        s
    };
    if d.len() == 0 || !all_digits(d) || digits_value(d) > usize::MAX {
        None
    } else {
        Some(digits_value(d) as usize)
    }
}

proof fn lemma_digits_value_grows(s: Seq<char>, k: int)
    requires
        0 <= k <= s.len(),
        all_digits(s),
    ensures
        digits_value(s.take(k)) <= digits_value(s),
    decreases s.len() - k,
{
    if k < s.len() {
        let t = s.take(k + 1);
        assert(t.drop_last() =~= s.take(k));
        lemma_digits_value_grows(s, k + 1);
    } else {
        assert(s.take(k) =~= s);
    }
}

pub fn parse_usize(text: &str) -> (r: Option<usize>)
    ensures
        r == parsed_usize(text@),
{
    let cs = chars_of(text);
    let start: usize = if cs.len() > 0 && cs[0] == '+' {
        1
    } else {
        0
    };
    let ghost d = if text@.len() > 0 && text@[0] == '+' {
        text@.drop_first()
    } else {
        text@
    };
    assert(d =~= cs@.skip(start as int));
    if start == cs.len() {
        return None;
    }
    let mut value: usize = 0;
    let mut i = start;
    while i < cs.len()
        invariant
            start <= i <= cs@.len(),
            cs@ == text@,
            d == (if text@.len() > 0 && text@[0] == '+' {
                text@.drop_first()
            } else {
                text@
            }),
            d =~= cs@.skip(start as int),
            forall|k: int| start <= k < i ==> is_digit(#[trigger] cs@[k]),
            value == digits_value(cs@.subrange(start as int, i as int)),
        decreases cs@.len() - i,
    {
        let c = cs[i];
        if !('0' <= c && c <= '9') {
            proof {
                assert(d[i - start] == c);
            }
            return None;
        }
        let digit = (c as u32 - 48) as usize;
        proof {
            assert(cs@.subrange(start as int, i + 1).drop_last() =~= cs@.subrange(start as int, i as int));
            assert(cs@.subrange(start as int, i + 1).last() == c);
        }
        let next = match value.checked_mul(10) {
            Some(v) => v.checked_add(digit),
            None => None,
        };
        match next {
            Some(v) => {
                value = v;
            },
            None => {
                proof {
                    let p = cs@.subrange(start as int, i + 1);
                    assert(p.last() == c);
                    assert(digits_value(p) > usize::MAX);
                    if all_digits(d) {
                        assert(d.take(i + 1 - start) =~= p);
                        lemma_digits_value_grows(d, i + 1 - start);
                    }
                }
                return None;
            },
        }
        i = i + 1;
    }
    proof {
        assert(cs@.subrange(start as int, cs@.len() as int) =~= d);
        assert forall|k: int| 0 <= k < d.len() implies is_digit(#[trigger] d[k]) by {
            assert(d[k] == cs@[k + start]);
        }
    }
    Some(value)
}

// ---------------------------------------------------------------- calendar choice
pub open spec fn choice_line(index: nat, c: DiscoveredCalendar) -> Seq<char> {
    "  "@ + decimal(index) + ": "@ + c.name@ + (if c.writable {
        ""@
    } else {
        " [read-only]"@
    }) + " ("@ + c.id@ + ")"@
}

/// The calendars offered for a choice, numbered from zero.
pub open spec fn choice_lines_text(label: Seq<char>, calendars: Seq<DiscoveredCalendar>) -> Seq<Seq<char>> {
    seq![label + "s:"@] + Seq::new(calendars.len(), |i: int| choice_line(i as nat, calendars[i]))
}

pub fn calendar_choice_lines(label: &str, calendars: &Vec<DiscoveredCalendar>) -> (r: Vec<String>)
    ensures
        r@.map_values(|s: String| s@) == choice_lines_text(label@, calendars@),
{
    let mut head = owned(label);
    append_str(&mut head, "s:");
    let mut out: Vec<String> = vec![head];
    let mut i: usize = 0;
    while i < calendars.len()
        invariant
            i <= calendars@.len(),
            out@.len() == i + 1,
            out@[0]@ == label@ + "s:"@,
            forall|k: int| 1 <= k <= i ==> #[trigger] out@[k]@ == choice_line((k - 1) as nat, calendars@[k - 1]),
        decreases calendars@.len() - i,
    {
        let c = &calendars[i];
        let mut line = owned("  ");
        let n = decimal_string(i as u64);
        append_str(&mut line, n.as_str());
        append_str(&mut line, ": ");
        append_str(&mut line, c.name.as_str());
        if !c.writable {
            append_str(&mut line, " [read-only]");
        } else {
            append_str(&mut line, "");
        }
        append_str(&mut line, " (");
        append_str(&mut line, c.id.as_str());
        append_str(&mut line, ")");
        out.push(line);
        i = i + 1;
    }
    assert(out@.map_values(|s: String| s@) =~= choice_lines_text(label@, calendars@));
    out
}

/// The chosen calendar's id: the answer must read as an index into the
/// list; `None` asks again.
pub open spec fn chosen_calendar(answer: Seq<char>, calendars: Seq<DiscoveredCalendar>) -> Option<Seq<char>> {
    match parsed_usize(answer) {
        Some(i) => if i < calendars.len() {
            Some(calendars[i as int].id@)
        } else {
            None
        },
        None => None,
    }
}

pub fn calendar_choice(answer: &str, calendars: &Vec<DiscoveredCalendar>) -> (r: Option<String>)
    ensures
        match r {
            Some(id) => chosen_calendar(answer@, calendars@) == Some(id@),
            None => chosen_calendar(answer@, calendars@) is None,
        },
{
    match parse_usize(answer) {
        Some(i) => if i < calendars.len() {
            Some(calendars[i].id.clone())
        } else {
            None
        },
        None => None,
    }
}

} // verus!
