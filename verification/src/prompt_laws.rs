//! Laws of interactive setup's prompts and listings: a printed index reads
//! back as the same calendar, and discovered calendars come out in order.
use crate::exports::{calendar_before, insert_calendar, sorted_calendars, DiscoveredCalendar};
use crate::numtext::{decimal, digit_char};
use crate::prompts::{all_digits, chosen_calendar, digits_value, is_digit, parsed_usize};
use crate::store::provider_text;
use crate::exports::lowercased;
use crate::text::seq_lt;
use vstd::prelude::*;

verus! {

proof fn lemma_digit_char(d: nat)
    requires
        d < 10,
    ensures
        is_digit(digit_char(d)),
        ((digit_char(d) as u32) - 48) as nat == d,
{
    assert((48 + d) as u32 == 48 + d);
    vstd::utf8::char_u32_cast(digit_char(d), (digit_char(d) as u32));
    assert(((48 + d) as u32) as char == digit_char(d));
}

proof fn lemma_decimal_digits(n: nat)
    ensures
        all_digits(decimal(n)),
        digits_value(decimal(n)) == n,
        decimal(n).len() > 0,
    decreases n,
{
    if n < 10 {
        lemma_digit_char(n);
        assert(decimal(n) =~= seq![digit_char(n)]);
        assert(decimal(n).drop_last() =~= Seq::<char>::empty());
        assert(digits_value(Seq::<char>::empty()) == 0);
        assert(digits_value(decimal(n)) == digits_value(decimal(n).drop_last()) * 10 + ((decimal(n).last() as u32)
            - 48) as nat);
    } else {
        lemma_decimal_digits(n / 10);
        lemma_digit_char(n % 10);
        let s = decimal(n);
        assert(s.drop_last() =~= decimal(n / 10));
        assert(s.last() == digit_char(n % 10));
        assert(digits_value(s) == digits_value(s.drop_last()) * 10 + ((s.last() as u32) - 48) as nat);
        assert((n / 10) * 10 + n % 10 == n) by (nonlinear_arith);
        assert(digits_value(s.drop_last()) == n / 10);
        assert forall|i: int| 0 <= i < s.len() implies is_digit(#[trigger] s[i]) by {
            if i < s.len() - 1 {
                assert(s[i] == decimal(n / 10)[i]);
            }
        }
    }
}

/// A decimal number reads back as itself.
pub proof fn law_decimal_reads_back(n: usize)
    ensures
        parsed_usize(decimal(n as nat)) == Some(n),
{
    lemma_decimal_digits(n as nat);
    let s = decimal(n as nat);
    assert(is_digit(s[0]));
}

/// Answering with the index a calendar was listed under chooses that
/// calendar.
pub proof fn law_listed_index_is_chosen(calendars: Seq<DiscoveredCalendar>, i: usize)
    requires
        i < calendars.len(),
    ensures
        chosen_calendar(decimal(i as nat), calendars) == Some(calendars[i as int].id@),
{
    law_decimal_reads_back(i);
}

// ---------------------------------------------------------------- listing order
proof fn lemma_text_order_irreflexive(a: Seq<char>)
    ensures
        !seq_lt(a, a),
    decreases a.len(),
{
    if a.len() > 0 {
        lemma_text_order_irreflexive(a.drop_first());
    }
}

proof fn lemma_text_order_transitive(a: Seq<char>, b: Seq<char>, c: Seq<char>)
    requires
        seq_lt(a, b),
        seq_lt(b, c),
    ensures
        seq_lt(a, c),
    decreases a.len(),
{
    if a.len() > 0 && b.len() > 0 && c.len() > 0 {
        if a[0] == b[0] && b[0] == c[0] {
            lemma_text_order_transitive(a.drop_first(), b.drop_first(), c.drop_first());
        }
    }
}

proof fn lemma_text_order_total(a: Seq<char>, b: Seq<char>)
    requires
        a != b,
    ensures
        seq_lt(a, b) || seq_lt(b, a),
    decreases a.len(),
{
    if a.len() == 0 && b.len() == 0 {
        assert(a =~= b);
    } else if a.len() > 0 && b.len() > 0 {
        if a[0] == b[0] {
            if a.drop_first() == b.drop_first() {
                assert(a.drop_first().len() == a.len() - 1);
                assert(b.drop_first().len() == b.len() - 1);
                assert(a =~= b) by {
                    assert forall|i: int| 0 <= i < a.len() implies a[i] == b[i] by {
                        if i > 0 {
                            assert(a[i] == a.drop_first()[i - 1]);
                            assert(b[i] == b.drop_first()[i - 1]);
                        }
                    }
                }
            }
            lemma_text_order_total(a.drop_first(), b.drop_first());
        } else {
            vstd::utf8::char_u32_cast(a[0], a[0] as u32);
            vstd::utf8::char_u32_cast(b[0], b[0] as u32);
        }
    }
}

/// Everything the text order says of three texts.
proof fn lemma_order_of_three(a: Seq<char>, b: Seq<char>, c: Seq<char>)
    ensures
        !seq_lt(a, a) && !seq_lt(b, b) && !seq_lt(c, c),
        a != b ==> seq_lt(a, b) || seq_lt(b, a),
        b != c ==> seq_lt(b, c) || seq_lt(c, b),
        a != c ==> seq_lt(a, c) || seq_lt(c, a),
        seq_lt(a, b) && seq_lt(b, c) ==> seq_lt(a, c),
        seq_lt(a, c) && seq_lt(c, b) ==> seq_lt(a, b),
        seq_lt(b, a) && seq_lt(a, c) ==> seq_lt(b, c),
        seq_lt(b, c) && seq_lt(c, a) ==> seq_lt(b, a),
        seq_lt(c, a) && seq_lt(a, b) ==> seq_lt(c, b),
        seq_lt(c, b) && seq_lt(b, a) ==> seq_lt(c, a),
{
    lemma_text_order_irreflexive(a);
    lemma_text_order_irreflexive(b);
    lemma_text_order_irreflexive(c);
    if a != b {
        lemma_text_order_total(a, b);
    }
    if b != c {
        lemma_text_order_total(b, c);
    }
    if a != c {
        lemma_text_order_total(a, c);
    }
    if seq_lt(a, b) && seq_lt(b, c) {
        lemma_text_order_transitive(a, b, c);
    }
    if seq_lt(a, c) && seq_lt(c, b) {
        lemma_text_order_transitive(a, c, b);
    }
    if seq_lt(b, a) && seq_lt(a, c) {
        lemma_text_order_transitive(b, a, c);
    }
    if seq_lt(b, c) && seq_lt(c, a) {
        lemma_text_order_transitive(b, c, a);
    }
    if seq_lt(c, a) && seq_lt(a, b) {
        lemma_text_order_transitive(c, a, b);
    }
    if seq_lt(c, b) && seq_lt(b, a) {
        lemma_text_order_transitive(c, b, a);
    }
}

/// The listing order is a strict weak order: not-before is transitive.
proof fn lemma_not_before_transitive(a: DiscoveredCalendar, b: DiscoveredCalendar, c: DiscoveredCalendar)
    requires
        !calendar_before(a, b),
        !calendar_before(b, c),
    ensures
        !calendar_before(a, c),
{
    lemma_order_of_three(provider_text(a.provider), provider_text(b.provider), provider_text(c.provider));
    lemma_order_of_three(lowercased(a.name@), lowercased(b.name@), lowercased(c.name@));
    lemma_order_of_three(a.id@, b.id@, c.id@);
}

pub open spec fn in_listing_order(s: Seq<DiscoveredCalendar>) -> bool {
    forall|i: int, j: int| 0 <= i < j < s.len() ==> !calendar_before(#[trigger] s[j], #[trigger] s[i])
}

proof fn lemma_insert_keeps_order(s: Seq<DiscoveredCalendar>, x: DiscoveredCalendar)
    requires
        in_listing_order(s),
    ensures
        in_listing_order(insert_calendar(s, x)),
        insert_calendar(s, x).len() == s.len() + 1,
        forall|k: int| 0 <= k < insert_calendar(s, x).len() ==> (#[trigger] insert_calendar(s, x)[k] == x || s.contains(
            insert_calendar(s, x)[k],
        )),
    decreases s.len(),
{
    if s.len() == 0 {
    } else if calendar_before(x, s[0]) {
        let r = seq![x] + s;
        assert forall|i: int, j: int| 0 <= i < j < r.len() implies !calendar_before(#[trigger] r[j], #[trigger] r[i]) by {
            if i == 0 {
                lemma_strict_asymmetric(x, s[0]);
                lemma_strict_asymmetric(s[0], s[0]);
                if j > 1 {
                    assert(!calendar_before(s[j - 1], s[0]));
                }
                lemma_not_before_transitive(s[j - 1], s[0], x);
                assert(r[j] == s[j - 1]);
            } else {
                assert(r[i] == s[i - 1] && r[j] == s[j - 1]);
            }
        }
        assert forall|k: int| 0 <= k < r.len() implies (#[trigger] r[k] == x || s.contains(r[k])) by {
            if k > 0 {
                assert(r[k] == s[k - 1]);
            }
        }
    } else {
        let t = s.drop_first();
        assert(in_listing_order(t)) by {
            assert forall|i: int, j: int| 0 <= i < j < t.len() implies !calendar_before(#[trigger] t[j], #[trigger] t[i]) by {
                assert(t[i] == s[i + 1] && t[j] == s[j + 1]);
            }
        }
        lemma_insert_keeps_order(t, x);
        let u = insert_calendar(t, x);
        let r = seq![s[0]] + u;
        assert(r == insert_calendar(s, x));
        assert forall|k: int| 0 <= k < r.len() implies (#[trigger] r[k] == x || s.contains(r[k])) by {
            if k > 0 {
                assert(r[k] == u[k - 1]);
                if u[k - 1] != x {
                    let w = choose|w: int| 0 <= w < t.len() && t[w] == u[k - 1];
                    assert(s[w + 1] == t[w]);
                }
            } else {
                assert(s[0] == r[0]);
            }
        }
        assert forall|i: int, j: int| 0 <= i < j < r.len() implies !calendar_before(#[trigger] r[j], #[trigger] r[i]) by {
            if i == 0 {
                assert(r[j] == u[j - 1]);
                if u[j - 1] != x {
                    let w = choose|w: int| 0 <= w < t.len() && t[w] == u[j - 1];
                    assert(s[w + 1] == t[w]);
                    assert(!calendar_before(s[w + 1], s[0]));
                }
            } else {
                assert(r[i] == u[i - 1] && r[j] == u[j - 1]);
            }
        }
    }
}

proof fn lemma_strict_asymmetric(a: DiscoveredCalendar, b: DiscoveredCalendar)
    ensures
        !(calendar_before(a, b) && calendar_before(b, a)),
{
    lemma_order_of_three(provider_text(a.provider), provider_text(b.provider), provider_text(b.provider));
    lemma_order_of_three(lowercased(a.name@), lowercased(b.name@), lowercased(b.name@));
    lemma_order_of_three(a.id@, b.id@, b.id@);
}

/// Discovered calendars are listed in order: by provider, then lower-cased
/// name, then id; no calendar is listed after one it precedes.
pub proof fn law_discovered_calendars_are_ordered(rows: Seq<DiscoveredCalendar>)
    ensures
        in_listing_order(sorted_calendars(rows)),
        sorted_calendars(rows).len() == rows.len(),
    decreases rows.len(),
{
    if rows.len() > 0 {
        law_discovered_calendars_are_ordered(rows.drop_last());
        lemma_insert_keeps_order(sorted_calendars(rows.drop_last()), rows.last());
    }
}

} // verus!
