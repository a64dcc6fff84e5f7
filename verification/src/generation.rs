//! The in-flight generation: tokens, the outbound request, the per-token
//! accumulation step, and the order-preservation laws of that step.

use vstd::prelude::*;
use vstd::string::StringExecFns;
use crate::filter::filtered_text;

verus! {

/// One incremental chunk of generated text from the upstream stream:
/// response text and the upstream "done" indicator.
#[derive(Clone)]
pub struct Token {
    pub response: String,
    pub done: bool,
}

/// The outbound generation request: everything the upstream service needs
/// to open the token stream.
#[derive(Clone)]
pub struct OutboundRequest {
    pub model: String,
    pub prompt: String,
    pub system: String,
    /// Sampling temperature in hundredths: `70` stands for `0.70`.
    pub temperature: u8,
    pub think: bool,
}

/// The one in-flight submission: what was asked, under which settings,
/// and the filtered token texts received so far, in arrival order.
pub struct Generation {
    pub prompt: String,
    pub system_prompt: String,
    pub model: String,
    pub filtering: bool,
    pub logging: bool,
    pub history_enabled: bool,
    pub final_response: Vec<String>,
}

/// The texts the tokens carry, in order.
pub open spec fn token_texts(toks: Seq<Token>) -> Seq<Seq<char>> {
    toks.map_values(|t: Token| t.response@)
}

/// The ordered concatenation of the parts, with nothing between them.
pub open spec fn concat_texts(parts: Seq<Seq<char>>) -> Seq<char>
    decreases parts.len(),
{
    if parts.len() == 0 {
        Seq::empty()
    } else {
        concat_texts(parts.drop_last()) + parts.last()
    }
}

/// Joins the parts in order with nothing between them.
pub fn join_all(parts: &Vec<String>) -> (r: String)
    ensures
        r@ == concat_texts(parts.deep_view()),
{
    let ghost parts_v = parts.deep_view();
    let mut r = String::new();
    let mut i: usize = 0;
    while i < parts.len()
        invariant
            i <= parts.len(),
            parts_v == parts.deep_view(),
            r@ == concat_texts(parts_v.take(i as int)),
        decreases parts.len() - i,
    {
        r.append(parts[i].as_str());
        proof {
            assert(parts_v.take(i as int + 1).drop_last() =~= parts_v.take(i as int));
        }
        i += 1;
    }
    proof {
        assert(parts_v.take(parts.len() as int) =~= parts_v);
    }
    r
}

/// The orchestrator's accumulation, run to completion: starting from
/// accumulated text `acc` and filtered token list `toks`, feed the raw
/// upstream tokens `raws` one at a time, in order. Each step filters the
/// token under the filtering flag, appends the filtered text to the
/// accumulation, and records it at the end of the token list.
pub open spec fn spec_feed(
    filtering: bool,
    acc: Seq<char>,
    toks: Seq<Seq<char>>,
    raws: Seq<Seq<char>>,
) -> (Seq<char>, Seq<Seq<char>>)
    decreases raws.len(),
{
    if raws.len() == 0 {
        (acc, toks)
    } else {
        spec_feed(
            filtering,
            acc + filtered_text(filtering, raws[0]),
            toks.push(filtered_text(filtering, raws[0])),
            raws.drop_first(),
        )
    }
}

/// Feeding one more token after a batch is one more accumulation step.
pub proof fn lemma_feed_snoc(
    filtering: bool,
    acc: Seq<char>,
    toks: Seq<Seq<char>>,
    raws: Seq<Seq<char>>,
    x: Seq<char>,
)
    ensures
        spec_feed(filtering, acc, toks, raws.push(x)).0 == spec_feed(filtering, acc, toks, raws).0
            + filtered_text(filtering, x),
        spec_feed(filtering, acc, toks, raws.push(x)).1 == spec_feed(
            filtering,
            acc,
            toks,
            raws,
        ).1.push(filtered_text(filtering, x)),
    decreases raws.len(),
{
    reveal_with_fuel(spec_feed, 3);
    if raws.len() == 0 {
        assert(raws.push(x)[0] == x);
        assert(raws.push(x).drop_first() =~= raws);
    } else {
        assert(raws.push(x)[0] == raws[0]);
        assert(raws.push(x).drop_first() =~= raws.drop_first().push(x));
        lemma_feed_snoc(
            filtering,
            acc + filtered_text(filtering, raws[0]),
            toks.push(filtered_text(filtering, raws[0])),
            raws.drop_first(),
            x,
        );
    }
}

/// Accumulation from any consistent midpoint: the token list ends up as
/// the old list followed by the filtered form of every raw token in
/// arrival order, and the accumulated text is their exact concatenation.
pub proof fn lemma_feed_general(
    filtering: bool,
    acc: Seq<char>,
    toks: Seq<Seq<char>>,
    raws: Seq<Seq<char>>,
)
    requires
        acc == concat_texts(toks),
    ensures
        spec_feed(filtering, acc, toks, raws).1 == toks + raws.map_values(
            |t: Seq<char>| filtered_text(filtering, t),
        ),
        spec_feed(filtering, acc, toks, raws).0 == concat_texts(
            spec_feed(filtering, acc, toks, raws).1,
        ),
    decreases raws.len(),
{
    let filtered = raws.map_values(|t: Seq<char>| filtered_text(filtering, t));
    if raws.len() == 0 {
        assert(toks + filtered =~= toks);
    } else {
        let x = filtered_text(filtering, raws[0]);
        assert(toks.push(x).drop_last() =~= toks);
        assert(acc + x == concat_texts(toks.push(x)));
        lemma_feed_general(filtering, acc + x, toks.push(x), raws.drop_first());
        assert(toks.push(x) + raws.drop_first().map_values(
            |t: Seq<char>| filtered_text(filtering, t),
        ) =~= toks + filtered);
    }
}

/// Token order preservation: for tokens delivered upstream in a given
/// order, the final accumulated text is the ordered concatenation of their
/// (optionally filtered) texts, and the recorded token list is exactly
/// those texts in arrival order.
pub proof fn lemma_token_order_preservation(filtering: bool, raws: Seq<Seq<char>>)
    ensures
        spec_feed(filtering, Seq::empty(), Seq::empty(), raws).1 == raws.map_values(
            |t: Seq<char>| filtered_text(filtering, t),
        ),
        spec_feed(filtering, Seq::empty(), Seq::empty(), raws).0 == concat_texts(
            raws.map_values(|t: Seq<char>| filtered_text(filtering, t)),
        ),
{
    assert(Seq::<char>::empty() =~= concat_texts(Seq::<Seq<char>>::empty()));
    lemma_feed_general(filtering, Seq::empty(), Seq::empty(), raws);
}

/// With filtering disabled the accumulated text is byte-identical to the
/// raw upstream text: the concatenation of the tokens exactly as they
/// arrived.
pub proof fn lemma_disabled_filter_accumulates_raw(raws: Seq<Seq<char>>)
    ensures
        spec_feed(false, Seq::empty(), Seq::empty(), raws).0 == concat_texts(raws),
{
    lemma_token_order_preservation(false, raws);
    assert(raws.map_values(|t: Seq<char>| filtered_text(false, t)) =~= raws);
}

} // verus!
