//! Properties of the texts the library writes: escaping, shortening, the
//! names it stores and reads back, and how provider replies are classed.
use crate::dashboard::compacted;
use crate::event::ProviderName;
use crate::providers::{auth_response, rate_limit_response};
use crate::service::{systemd_arg, systemd_plain, xml_char, xml_escaped};
use crate::store::{ManualConflictResolution, SyncRunStatus};
use vstd::prelude::*;

verus! {

pub open spec fn markup_char(c: char) -> bool {
    c == '<' || c == '>' || c == '"' || c == '\''
}

proof fn lemma_xml_char_clean(c: char)
    ensures
        forall|i: int| 0 <= i < xml_char(c).len() ==> !markup_char(#[trigger] xml_char(c)[i]),
{
    reveal_strlit("&amp;");
    reveal_strlit("&lt;");
    reveal_strlit("&gt;");
    reveal_strlit("&quot;");
    reveal_strlit("&apos;");
}

/// XML-escaped text holds no `<`, `>`, `"` or `'`.
pub proof fn law_xml_escaped_has_no_markup(s: Seq<char>)
    ensures
        forall|i: int| 0 <= i < xml_escaped(s).len() ==> !markup_char(#[trigger] xml_escaped(s)[i]),
    decreases s.len(),
{
    if s.len() > 0 {
        law_xml_escaped_has_no_markup(s.drop_last());
        lemma_xml_char_clean(s.last());
        let a = xml_escaped(s.drop_last());
        let b = xml_char(s.last());
        assert forall|i: int| 0 <= i < xml_escaped(s).len() implies !markup_char(#[trigger] xml_escaped(s)[i]) by {
            if i < a.len() {
                assert(xml_escaped(s)[i] == a[i]);
            } else {
                assert(xml_escaped(s)[i] == b[i - a.len()]);
            }
        }
    }
}

/// Text without XML special characters is left as it is.
pub proof fn law_xml_plain_text_unchanged(s: Seq<char>)
    requires
        forall|i: int| 0 <= i < s.len() ==> !markup_char(#[trigger] s[i]) && s[i] != '&',
    ensures
        xml_escaped(s) == s,
    decreases s.len(),
{
    if s.len() > 0 {
        assert forall|i: int| 0 <= i < s.drop_last().len() implies !markup_char(#[trigger] s.drop_last()[i])
            && s.drop_last()[i] != '&' by {
            assert(s.drop_last()[i] == s[i]);
        }
        law_xml_plain_text_unchanged(s.drop_last());
        assert(!markup_char(s[s.len() - 1]) && s[s.len() - 1] != '&');
        assert(s.drop_last() + seq![s.last()] =~= s);
    }
}

/// An argument of plain characters is passed to systemd as it is.
pub proof fn law_systemd_plain_argument_unchanged(s: Seq<char>)
    requires
        forall|i: int| 0 <= i < s.len() ==> systemd_plain(#[trigger] s[i]),
    ensures
        systemd_arg(s) == s,
{
}

/// A shortened value never exceeds its width, and a value that fits is not
/// touched.
pub proof fn law_compacted_fits(v: Seq<char>, max: nat)
    requires
        max >= 3,
    ensures
        compacted(v, max).len() <= max,
        v.len() <= max ==> compacted(v, max) == v,
{
    reveal_strlit("...");
}

/// A resolution's stored name reads back as that resolution.
pub proof fn law_resolution_names_read_back(a: ManualConflictResolution, b: ManualConflictResolution)
    ensures
        a.spec_text() == b.spec_text() ==> a == b,
{
    reveal_strlit("google_wins");
    reveal_strlit("icloud_wins");
    reveal_strlit("delete_wins");
    reveal_strlit("update_wins");
    if a.spec_text() == b.spec_text() && a != b {
        assert(a.spec_text()[0] == b.spec_text()[0]);
        assert(a.spec_text()[1] == b.spec_text()[1]);
    }
}

/// A run status's stored name reads back as that status.
pub proof fn law_run_status_names_read_back(a: SyncRunStatus, b: SyncRunStatus)
    ensures
        a.spec_text() == b.spec_text() ==> a == b,
{
    reveal_strlit("running");
    reveal_strlit("completed");
    reveal_strlit("failed");
    if a.spec_text() == b.spec_text() && a != b {
        assert(a.spec_text().len() == b.spec_text().len());
        assert(a.spec_text()[0] == b.spec_text()[0]);
    }
}

/// Any 401 reply is an authentication failure; a 429 reply from either
/// provider is throttling.
pub proof fn law_reply_classes(p: ProviderName, body: Seq<char>)
    ensures
        !auth_response(p, 429, body),
        rate_limit_response(p, 429, body),
{
}

} // verus!
