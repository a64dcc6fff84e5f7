//! The content filter: an opaque, pure text-to-text collaborator applied
//! per token when filtering is enabled, and never applied when it is
//! disabled.

use vstd::prelude::*;

verus! {

/// What the content filter returns for a given text. The filter is a pure
/// function of the characters alone; its exact output is not restated here.
pub uninterp spec fn censored_of(s: Seq<char>) -> Seq<char>;

/// Relies on rustrict's `Censor::from_str(..).censor()`: the censored form
/// of the text, a pure function of the characters alone (default options,
/// static word lists). A fresh `Censor` is consumed at once, so the call
/// does not panic.
#[verifier::external_body]
fn censor_text(s: &str) -> (r: String)
    ensures
        r@ == censored_of(s@),
{
    rustrict::Censor::from_str(s).censor()
}

/// The text a token contributes downstream: the censored form when
/// filtering is enabled, the raw text unchanged when it is disabled.
pub open spec fn filtered_text(filtering: bool, raw: Seq<char>) -> Seq<char> {
    if filtering {
        censored_of(raw)
    } else {
        raw
    }
}

/// Applies the per-token filter policy.
pub fn apply_filter(filtering: bool, raw: &str) -> (r: String)
    ensures
        r@ == filtered_text(filtering, raw@),
{
    if filtering {
        censor_text(raw)
    } else {
        raw.to_owned()
    }
}

/// With filtering disabled the filter is a no-op: every token passes
/// through byte-identical.
pub proof fn lemma_filter_disabled_is_noop(raw: Seq<char>)
    ensures
        filtered_text(false, raw) == raw,
{
}

} // verus!
