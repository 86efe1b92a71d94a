//! The content hash by which the planner tells whether an event changed.
//!
//! The hash covers only what both providers carry: the normalised title,
//! description and location, the status, the start and end as instants or
//! dates, and the recurrence rule with its exception dates and recurrence id.
//! These are written as compact JSON with keys in byte order, encoded as
//! UTF-8, digested with SHA-256 and written as lower-case hex.
use crate::event::{CalendarDate, CanonicalEvent, EventDateTime, EventStatus, EventView, Instant, RecurrenceView};
use crate::text::{
    append_str, chars_of, is_unicode_whitespace, replace_all, replace_chars, seq_lt,
    str_lt, string_from_chars, trim, trim_chars,
};
use vstd::prelude::*;
use vstd::utf8::*;

verus! {

// ---------------------------------------------------------------- JSON strings
/// How `serde_json` writes one character inside a string literal: the quote
/// and the backslash behind a backslash; backspace, form feed, line feed,
/// carriage return and tab as `\b`, `\f`, `\n`, `\r`, `\t`; any other
/// character below U+0020 as `\u00` and two lower-case hex digits; every
/// other character as it is.
pub open spec fn json_escaped_char(c: char) -> Seq<char> {
    if c == '"' {
        seq!['\\', '"']
    } else if c == '\\' {
        seq!['\\', '\\']
    } else if c as u32 == 8 {
        seq!['\\', 'b']
    } else if c as u32 == 12 {
        seq!['\\', 'f']
    } else if c as u32 == 10 {
        seq!['\\', 'n']
    } else if c as u32 == 13 {
        seq!['\\', 'r']
    } else if c as u32 == 9 {
        seq!['\\', 't']
    } else if (c as u32) < 32 {
        seq!['\\', 'u', '0', '0', hex_digit(((c as u32) / 16) as u8), hex_digit(((c as u32) % 16) as u8)]
    } else {
        seq![c]
    }
}

/// The characters of a string, each escaped as `serde_json` writes it.
pub open spec fn json_escaped(s: Seq<char>) -> Seq<char>
    decreases s.len(),
{
    if s.len() == 0 {
        Seq::<char>::empty()
    } else {
        json_escaped(s.drop_last()) + json_escaped_char(s.last())
    }
}

/// What `serde_json::to_string` writes for a string: the JSON string literal,
/// the escaped characters between double quotes.
pub open spec fn json_string_literal(s: Seq<char>) -> Seq<char> {
    seq!['"'] + json_escaped(s) + seq!['"']
}

// ---------------------------------------------------------------- trusted
/// SHA-256 of a byte sequence (`sha2::Sha256::digest`).
pub uninterp spec fn sha256_digest(data: Seq<u8>) -> Seq<u8>;

/// chrono's `to_rfc3339_opts(SecondsFormat::Millis, true)` of the UTC instant
/// with these seconds and nanoseconds, or `None` where
/// `DateTime::from_timestamp` rejects them.
pub uninterp spec fn instant_rfc3339_millis(seconds: i64, nanos: u32) -> Option<Seq<char>>;

/// chrono's `format("%Y-%m-%d")` of the date, or `None` where
/// `NaiveDate::from_ymd_opt` rejects it.
pub uninterp spec fn calendar_date_text(year: i32, month: u32, day: u32) -> Option<Seq<char>>;

/// `serde_json::to_string` on a string slice: the string between double
/// quotes, escaped by serde_json's table (`format_escaped_str`). Serialising a
/// `str` into the in-memory buffer of `to_string` cannot fail, so the error
/// arm is never taken.
#[verifier::external_body]
fn json_quote(s: &str) -> (r: String)
    ensures
        r@ == json_string_literal(s@),
{
    match serde_json::to_string(s) {
        Ok(text) => text,
        Err(_) => String::new(),
    }
}

/// `sha2::Sha256::digest`; its output is 32 bytes (`OutputSize` is `U32`).
#[verifier::external_body]
pub(crate) fn sha256(data: &[u8]) -> (r: Vec<u8>)
    ensures
        r@ == sha256_digest(data@),
        r@.len() == 32,
{
    <sha2::Sha256 as sha2::Digest>::digest(data).to_vec()
}

/// `DateTime::from_timestamp` followed by `to_rfc3339_opts(Millis, true)`.
#[verifier::external_body]
fn instant_text(value: &Instant) -> (r: Option<String>)
    ensures
        match r {
            Some(s) => instant_rfc3339_millis(value.seconds, value.nanos) == Some(s@),
            None => instant_rfc3339_millis(value.seconds, value.nanos) is None,
        },
{
    chrono::DateTime::from_timestamp(value.seconds, value.nanos).map(
        |d| d.to_rfc3339_opts(chrono::SecondsFormat::Millis, true),
    )
}

/// `NaiveDate::from_ymd_opt` followed by `format("%Y-%m-%d")`.
#[verifier::external_body]
pub(crate) fn date_text(value: &CalendarDate) -> (r: Option<String>)
    ensures
        match r {
            Some(s) => calendar_date_text(value.year, value.month, value.day) == Some(s@),
            None => calendar_date_text(value.year, value.month, value.day) is None,
        },
{
    chrono::NaiveDate::from_ymd_opt(value.year, value.month, value.day).map(
        |d| d.format("%Y-%m-%d").to_string(),
    )
}

// ---------------------------------------------------------------- text
pub open spec fn opt_text(v: Option<Seq<char>>) -> Seq<char> {
    match v {
        Some(s) => s,
        None => Seq::<char>::empty(),
    }
}

/// Text as the hash compares it: CRLF folded to LF, then trimmed; absent text
/// is empty.
pub open spec fn normalized_text(v: Option<Seq<char>>) -> Seq<char> {
    match v {
        Some(s) => trim(replace_all(s, "\r\n"@, "\n"@)),
        None => Seq::<char>::empty(),
    }
}

/// Location as the hash compares it: normalised text in which the two
/// characters `\n` also stand for a line feed.
pub open spec fn normalized_location(v: Option<Seq<char>>) -> Seq<char> {
    replace_all(normalized_text(v), "\\n"@, "\n"@)
}

pub open spec fn opt_view(v: Option<String>) -> Option<Seq<char>> {
    match v {
        Some(s) => Some(s@),
        None => None,
    }
}

pub fn normalize_text(v: Option<&String>) -> (r: String)
    ensures
        r@ == normalized_text(match v {
            Some(s) => Some(s@),
            None => None,
        }),
{
    match v {
        Some(s) => {
            let c = chars_of(s.as_str());
            let pat = chars_of("\r\n");
            let rep = chars_of("\n");
            proof {
                reveal_strlit("\r\n");
            }
            let folded = replace_chars(&c, &pat, &rep);
            let trimmed = trim_chars(&folded);
            string_from_chars(trimmed.as_slice())
        },
        None => String::new(),
    }
}

pub fn normalize_location(v: Option<&String>) -> (r: String)
    ensures
        r@ == normalized_location(match v {
            Some(s) => Some(s@),
            None => None,
        }),
{
    let t = normalize_text(v);
    let c = chars_of(t.as_str());
    let pat = chars_of("\\n");
    let rep = chars_of("\n");
    proof {
        reveal_strlit("\\n");
    }
    let r = replace_chars(&c, &pat, &rep);
    string_from_chars(r.as_slice())
}

// ---------------------------------------------------------------- recurrence id
pub open spec fn dashed_date_prefix(b: Seq<u8>) -> bool {
    b.len() >= 10 && b[4] == 45u8 && b[7] == 45u8
}

pub open spec fn dashed_date_time_prefix(b: Seq<u8>) -> bool {
    b.len() >= 19 && b[4] == 45u8 && b[7] == 45u8 && b[10] == 84u8
}

/// A recurrence id is cut to its first 19 bytes (`YYYY-MM-DDTHH:MM:SS`) or
/// first 10 bytes (`YYYY-MM-DD`) when it starts like one; such a cut must fall
/// on a character boundary, or slicing there would panic.
pub open spec fn recurrence_id_cuttable(v: Seq<char>) -> bool {
    let b = encode_utf8(v);
    if dashed_date_time_prefix(b) {
        is_char_boundary(b, 19)
    } else if dashed_date_prefix(b) {
        is_char_boundary(b, 10)
    } else {
        true
    }
}

pub open spec fn normalized_recurrence_id(v: Seq<char>) -> Seq<char> {
    let b = encode_utf8(v);
    if dashed_date_time_prefix(b) {
        decode_utf8(b.take(19))
    } else if dashed_date_prefix(b) {
        decode_utf8(b.take(10))
    } else {
        v
    }
}

pub fn normalize_recurrence_id(value: &str) -> (r: String)
    requires
        recurrence_id_cuttable(value@),
    ensures
        r@ == normalized_recurrence_id(value@),
{
    let bytes = value.as_bytes();
    let n = bytes.len();
    proof {
        broadcast use encode_utf8_decode_utf8, encode_utf8_valid_utf8;
    }
    if n >= 19 && bytes[4] == 45u8 && bytes[7] == 45u8 && bytes[10] == 84u8 {
        let (head, _) = value.split_at(19);
        proof {
            broadcast use encode_utf8_decode_utf8;
            assert(decode_utf8(encode_utf8(head@)) == head@);
        }
        return head.to_owned();
    }
    if n >= 10 && bytes[4] == 45u8 && bytes[7] == 45u8 {
        let (head, _) = value.split_at(10);
        proof {
            broadcast use encode_utf8_decode_utf8;
            assert(decode_utf8(encode_utf8(head@)) == head@);
        }
        return head.to_owned();
    }
    value.to_owned()
}

/// Whether a recurrence id can be cut (`recurrence_id_cuttable`).
pub fn recurrence_id_is_cuttable(value: &str) -> (r: bool)
    ensures
        r == recurrence_id_cuttable(value@),
{
    let bytes = value.as_bytes();
    let n = bytes.len();
    if n >= 19 && bytes[4] == 45u8 && bytes[7] == 45u8 && bytes[10] == 84u8 {
        value.is_char_boundary(19)
    } else if n >= 10 && bytes[4] == 45u8 && bytes[7] == 45u8 {
        value.is_char_boundary(10)
    } else {
        true
    }
}

/// Whether an event's hash can be taken (`hashable`).
pub fn is_hashable(event: &CanonicalEvent) -> (r: bool)
    ensures
        r == hashable(event@),
{
    match &event.recurrence {
        Some(rec) => match &rec.recurrence_id {
            Some(v) => recurrence_id_is_cuttable(v.as_str()),
            None => true,
        },
        None => true,
    }
}

// ---------------------------------------------------------------- sorting
pub open spec fn insert_sorted(s: Seq<Seq<char>>, x: Seq<char>) -> Seq<Seq<char>>
    decreases s.len(),
{
    if s.len() == 0 {
        seq![x]
    } else if seq_lt(x, s[0]) {
        seq![x] + s
    } else {
        seq![s[0]] + insert_sorted(s.drop_first(), x)
    }
}

/// The texts in ascending order (`Vec::<String>::sort`), built by inserting
/// each text after every text that is not greater than it.
pub open spec fn sort_texts(s: Seq<Seq<char>>) -> Seq<Seq<char>>
    decreases s.len(),
{
    if s.len() == 0 {
        s
    } else {
        insert_sorted(sort_texts(s.drop_last()), s.last())
    }
}

/// The non-empty texts, in order.
pub open spec fn drop_empty(s: Seq<Seq<char>>) -> Seq<Seq<char>>
    decreases s.len(),
{
    if s.len() == 0 {
        s
    } else if s.last().len() > 0 {
        drop_empty(s.drop_last()).push(s.last())
    } else {
        drop_empty(s.drop_last())
    }
}

pub open spec fn views(s: Seq<String>) -> Seq<Seq<char>> {
    s.map_values(|x: String| x@)
}

proof fn lemma_insert_at(s: Seq<Seq<char>>, x: Seq<char>, k: int)
    requires
        0 <= k <= s.len(),
        forall|j: int| 0 <= j < k ==> !seq_lt(x, #[trigger] s[j]),
        k == s.len() || seq_lt(x, s[k]),
    ensures
        insert_sorted(s, x) == s.take(k) + seq![x] + s.skip(k),
    decreases k,
{
    if k == 0 {
        if s.len() == 0 {
            assert(s.take(0) + seq![x] + s.skip(0) =~= seq![x]);
        } else {
            assert(s.take(0) + seq![x] + s.skip(0) =~= seq![x] + s);
        }
    } else {
        let t = s.drop_first();
        assert forall|j: int| 0 <= j < k - 1 implies !seq_lt(x, #[trigger] t[j]) by {
            assert(t[j] == s[j + 1]);
        }
        if k < s.len() {
            assert(t[k - 1] == s[k]);
        }
        lemma_insert_at(t, x, k - 1);
        assert(!seq_lt(x, s[0]));
        assert(seq![s[0]] + (t.take(k - 1) + seq![x] + t.skip(k - 1)) =~= s.take(k) + seq![x]
            + s.skip(k));
    }
}

fn sorted_texts(items: &Vec<String>) -> (r: Vec<String>)
    ensures
        views(r@) == sort_texts(views(items@)),
{
    let mut out: Vec<String> = Vec::new();
    let mut i: usize = 0;
    while i < items.len()
        invariant
            i <= items@.len(),
            views(out@) == sort_texts(views(items@.take(i as int))),
        decreases items@.len() - i,
    {
        let x = &items[i];
        let mut k: usize = 0;
        while k < out.len() && !str_lt(x.as_str(), out[k].as_str())
            invariant
                k <= out@.len(),
                forall|j: int| 0 <= j < k ==> !seq_lt(x@, #[trigger] views(out@)[j]),
            decreases out@.len() - k,
        {
            k = k + 1;
        }
        proof {
            lemma_insert_at(views(out@), x@, k as int);
            let prev = views(items@.take(i as int));
            let next = views(items@.take(i + 1));
            assert(next.drop_last() =~= prev);
            assert(next.last() == x@);
        }
        let ghost old_out = out@;
        out.insert(k, x.clone());
        proof {
            assert(views(out@) =~= views(old_out).take(k as int) + seq![x@] + views(old_out).skip(
                k as int,
            ));
        }
        i = i + 1;
    }
    assert(items@.take(items@.len() as int) =~= items@);
    out
}

fn nonempty_texts(items: &Vec<String>) -> (r: Vec<String>)
    ensures
        views(r@) == drop_empty(views(items@)),
{
    let mut out: Vec<String> = Vec::new();
    let mut i: usize = 0;
    while i < items.len()
        invariant
            i <= items@.len(),
            views(out@) == drop_empty(views(items@.take(i as int))),
        decreases items@.len() - i,
    {
        proof {
            let next = views(items@.take(i + 1));
            assert(next.drop_last() =~= views(items@.take(i as int)));
            assert(next.last() == items@[i as int]@);
        }
        if items[i].as_str().unicode_len() > 0 {
            let ghost old_out = out@;
            out.push(items[i].clone());
            assert(views(out@) =~= views(old_out).push(items@[i as int]@));
        }
        i = i + 1;
    }
    assert(items@.take(items@.len() as int) =~= items@);
    out
}

// ---------------------------------------------------------------- json
pub open spec fn json_items(s: Seq<Seq<char>>) -> Seq<char>
    decreases s.len(),
{
    if s.len() == 0 {
        Seq::<char>::empty()
    } else if s.len() == 1 {
        json_string_literal(s[0])
    } else {
        json_items(s.drop_last()) + ","@ + json_string_literal(s.last())
    }
}

pub open spec fn json_opt_text(v: Option<Seq<char>>) -> Seq<char> {
    match v {
        Some(s) => json_string_literal(s),
        None => "null"@,
    }
}

pub open spec fn status_json(s: EventStatus) -> Seq<char> {
    match s {
        EventStatus::Confirmed => "\"confirmed\""@,
        EventStatus::Tentative => "\"tentative\""@,
        EventStatus::Cancelled => "\"cancelled\""@,
    }
}

pub open spec fn date_time_json(d: EventDateTime) -> Seq<char> {
    match d {
        EventDateTime::Date { value } => "{\"kind\":\"date\",\"value\":"@ + json_string_literal(
            opt_text(calendar_date_text(value.year, value.month, value.day)),
        ) + "}"@,
        EventDateTime::DateTime { value, .. } => "{\"kind\":\"dateTime\",\"value\":"@
            + json_string_literal(opt_text(instant_rfc3339_millis(value.seconds, value.nanos)))
            + "}"@,
    }
}

pub open spec fn normalized_rid(r: RecurrenceView) -> Option<Seq<char>> {
    match r.recurrence_id {
        Some(v) => if normalized_recurrence_id(v@).len() > 0 {
            Some(normalized_recurrence_id(v@))
        } else {
            None
        },
        None => None,
    }
}

pub open spec fn recurrence_json(r: Option<RecurrenceView>) -> Seq<char> {
    match r {
        None => "null"@,
        Some(r) => {
            let ex = sort_texts(drop_empty(views(r.exdates)));
            let rid = normalized_rid(r);
            if r.rrule is None && ex.len() == 0 && rid is None {
                "null"@
            } else {
                "{\"exdates\":["@ + json_items(ex) + "],\"recurrenceId\":"@ + json_opt_text(rid)
                    + ",\"rrule\":"@ + json_opt_text(opt_view(r.rrule)) + "}"@
            }
        },
    }
}

/// The compact JSON, keys in byte order, that the hash digests.
pub open spec fn comparable_json(e: EventView) -> Seq<char> {
    "{\"description\":"@ + json_string_literal(normalized_text(opt_view(e.description)))
        + ",\"end\":"@ + date_time_json(e.end) + ",\"location\":"@ + json_string_literal(
        normalized_location(opt_view(e.location)),
    ) + ",\"recurrence\":"@ + recurrence_json(e.recurrence) + ",\"start\":"@ + date_time_json(
        e.start,
    ) + ",\"status\":"@ + status_json(e.status) + ",\"title\":"@ + json_string_literal(
        normalized_text(Some(e.title@)),
    ) + "}"@
}

/// The hexadecimal digit of a nibble, lower case.
pub open spec fn hex_digit(n: u8) -> char {
    if n < 10 {
        ((48 + n) as u32) as char
    } else {
        ((87 + n) as u32) as char
    }
}

pub open spec fn hex_lower(b: Seq<u8>) -> Seq<char>
    decreases b.len(),
{
    if b.len() == 0 {
        Seq::<char>::empty()
    } else {
        hex_lower(b.drop_last()) + seq![hex_digit(b.last() / 16), hex_digit(b.last() % 16)]
    }
}

/// The planner's content hash of an event.
pub open spec fn event_hash(e: EventView) -> Seq<char> {
    hex_lower(sha256_digest(encode_utf8(comparable_json(e))))
}

/// An event whose hash can be taken: its recurrence id, if any, is cut on a
/// character boundary.
pub open spec fn hashable(e: EventView) -> bool {
    match e.recurrence {
        Some(r) => match r.recurrence_id {
            Some(v) => recurrence_id_cuttable(v@),
            None => true,
        },
        None => true,
    }
}

fn hex_char(n: u8) -> (r: char)
    requires
        n < 16,
    ensures
        r == hex_digit(n),
{
    if n < 10 {
        crate::text::char_from_ascii(48 + n as u32)
    } else {
        crate::text::char_from_ascii(87 + n as u32)
    }
}

pub fn to_hex_lower(b: &Vec<u8>) -> (r: String)
    ensures
        r@ == hex_lower(b@),
{
    let mut out: Vec<char> = Vec::new();
    let mut i: usize = 0;
    while i < b.len()
        invariant
            i <= b@.len(),
            out@ == hex_lower(b@.take(i as int)),
        decreases b@.len() - i,
    {
        let byte = b[i];
        out.push(hex_char(byte / 16));
        out.push(hex_char(byte % 16));
        proof {
            let t = b@.take(i + 1);
            assert(t.drop_last() =~= b@.take(i as int));
            assert(t.last() == byte);
        }
        i = i + 1;
    }
    assert(b@.take(b@.len() as int) =~= b@);
    string_from_chars(out.as_slice())
}

fn push_json_text(out: &mut String, s: &str)
    ensures
        final(out)@ == old(out)@ + json_string_literal(s@),
{
    let q = json_quote(s);
    append_str(out, q.as_str());
}

fn push_date_time(out: &mut String, d: &EventDateTime)
    ensures
        final(out)@ == old(out)@ + date_time_json(*d),
{
    match d {
        EventDateTime::Date { value } => {
            let ghost start = out@;
            append_str(out, "{\"kind\":\"date\",\"value\":");
            let t = date_text(value);
            let ghost mid = out@;
            match t {
                Some(s) => {
                    assert(calendar_date_text(value.year, value.month, value.day) == Some(s@));
                    push_json_text(out, s.as_str());
                },
                None => {
                    assert(calendar_date_text(value.year, value.month, value.day) is None);
                    push_json_text(out, "");
                    proof {
                        reveal_strlit("");
                    }
                    assert(""@ == Seq::<char>::empty());
                },
            }
            append_str(out, "}");
            assert(out@ =~= start + date_time_json(*d));
        },
        EventDateTime::DateTime { value, .. } => {
            let ghost start = out@;
            append_str(out, "{\"kind\":\"dateTime\",\"value\":");
            let t = instant_text(value);
            match t {
                Some(s) => {
                    push_json_text(out, s.as_str());
                },
                None => {
                    push_json_text(out, "");
                    proof {
                        reveal_strlit("");
                    }
                    assert(""@ == Seq::<char>::empty());
                },
            }
            append_str(out, "}");
            assert(out@ =~= start + date_time_json(*d));
        },
    }
}

fn push_json_items(out: &mut String, items: &Vec<String>)
    ensures
        final(out)@ == old(out)@ + json_items(views(items@)),
{
    let ghost start = out@;
    let mut i: usize = 0;
    while i < items.len()
        invariant
            i <= items@.len(),
            out@ == start + json_items(views(items@.take(i as int))),
        decreases items@.len() - i,
    {
        proof {
            let t = views(items@.take(i + 1));
            assert(t.drop_last() =~= views(items@.take(i as int)));
            assert(t.last() == items@[i as int]@);
            if i == 0 {
                assert(views(items@.take(0)) =~= Seq::<Seq<char>>::empty());
            }
        }
        if i > 0 {
            append_str(out, ",");
        }
        push_json_text(out, items[i].as_str());
        proof {
            if i == 0 {
                assert(t_len_one(views(items@.take(1))));
            }
        }
        i = i + 1;
    }
    assert(items@.take(items@.len() as int) =~= items@);
}

spec fn t_len_one(s: Seq<Seq<char>>) -> bool {
    s.len() == 1
}

fn push_opt_text(out: &mut String, v: Option<&String>)
    ensures
        final(out)@ == old(out)@ + json_opt_text(match v {
            Some(s) => Some(s@),
            None => None,
        }),
{
    match v {
        Some(s) => push_json_text(out, s.as_str()),
        None => append_str(out, "null"),
    }
}

fn push_recurrence(out: &mut String, r: Option<&crate::event::RecurrenceData>)
    requires
        match r {
            Some(d) => match d.recurrence_id {
                Some(v) => recurrence_id_cuttable(v@),
                None => true,
            },
            None => true,
        },
    ensures
        final(out)@ == old(out)@ + recurrence_json(match r {
            Some(d) => Some(d@),
            None => None,
        }),
{
    match r {
        None => append_str(out, "null"),
        Some(d) => {
            let filtered = nonempty_texts(&d.exdates);
            let ex = sorted_texts(&filtered);
            let rid: Option<String> = match &d.recurrence_id {
                Some(v) => {
                    let n = normalize_recurrence_id(v.as_str());
                    if n.as_str().unicode_len() > 0 {
                        Some(n)
                    } else {
                        None
                    }
                },
                None => None,
            };
            if d.rrule.is_none() && ex.len() == 0 && rid.is_none() {
                append_str(out, "null");
            } else {
                append_str(out, "{\"exdates\":[");
                push_json_items(out, &ex);
                append_str(out, "],\"recurrenceId\":");
                push_opt_text(out, rid.as_ref());
                append_str(out, ",\"rrule\":");
                push_opt_text(out, d.rrule.as_ref());
                append_str(out, "}");
            }
        },
    }
}

fn status_text(s: EventStatus) -> (r: &'static str)
    ensures
        r@ == status_json(s),
{
    match s {
        EventStatus::Confirmed => "\"confirmed\"",
        EventStatus::Tentative => "\"tentative\"",
        EventStatus::Cancelled => "\"cancelled\"",
    }
}

/// The JSON text that the hash digests.
pub fn comparable_text(event: &CanonicalEvent) -> (r: String)
    requires
        hashable(event@),
    ensures
        r@ == comparable_json(event@),
{
    let mut out = String::new();
    append_str(&mut out, "{\"description\":");
    let d = normalize_text(event.description.as_ref());
    push_json_text(&mut out, d.as_str());
    append_str(&mut out, ",\"end\":");
    push_date_time(&mut out, &event.end);
    append_str(&mut out, ",\"location\":");
    let l = normalize_location(event.location.as_ref());
    push_json_text(&mut out, l.as_str());
    append_str(&mut out, ",\"recurrence\":");
    push_recurrence(&mut out, event.recurrence.as_ref());
    append_str(&mut out, ",\"start\":");
    push_date_time(&mut out, &event.start);
    append_str(&mut out, ",\"status\":");
    append_str(&mut out, status_text(event.status));
    append_str(&mut out, ",\"title\":");
    let t = normalize_text(Some(&event.title));
    push_json_text(&mut out, t.as_str());
    append_str(&mut out, "}");
    proof {
        reveal_strlit("");
    }
    assert(out@ =~= comparable_json(event@));
    out
}

/// The content hash of an event (`hash_canonical_event`): the lower-case hex
/// SHA-256 of the UTF-8 of its comparable JSON.
pub fn hash_canonical_event(event: &CanonicalEvent) -> (r: String)
    requires
        hashable(event@),
    ensures
        r@ == event_hash(event@),
{
    let body = comparable_text(event);
    let bytes = body.as_str().as_bytes();
    let digest = sha256(bytes);
    to_hex_lower(&digest)
}

} // verus!
