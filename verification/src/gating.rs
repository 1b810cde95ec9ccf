//! What the emission gate does over whole streams.
//!
//! The driving loop is defined token by token. The statements here speak of a stream
//! as a whole: which of its periodic boundaries are emitted, in terms of where the first
//! boundary and the first cadence observation lie.

use crate::stream::{before, emitted_at, is_boundary, observes_cadence, run, TokenView};
use vstd::prelude::*;

verus! {

/// Some token before index `i` is a periodic sample boundary.
pub open spec fn boundary_before(tokens: Seq<TokenView>, i: int) -> bool {
    exists|k: int| 0 <= k < i && is_boundary(tokens, k)
}

/// Some token before index `i` is a character update that left a cadence text in the
/// accumulator.
pub open spec fn cadence_before(tokens: Seq<TokenView>, i: int) -> bool {
    exists|j: int| 0 <= j < i && observes_cadence(tokens, j)
}

/// Meeting token `i` is one step of the driving loop.
pub proof fn lemma_before_next(tokens: Seq<TokenView>, i: int)
    requires
        0 <= i < tokens.len(),
    ensures
        before(tokens, i + 1) == before(tokens, i).step(tokens[i]),
{
    assert(tokens.take(i + 1).drop_last() =~= tokens.take(i));
    assert(tokens.take(i + 1).last() == tokens[i]);
}

/// The policy's flags record exactly what the stream has shown so far: the writer is
/// open, and something has been emitted, once a periodic boundary has been met; cadence
/// counts as seen once a character update has left a cadence text.
pub proof fn lemma_flags(tokens: Seq<TokenView>, i: int)
    requires
        0 <= i <= tokens.len(),
    ensures
        before(tokens, i).policy.writer_opened == boundary_before(tokens, i),
        before(tokens, i).policy.dumped == boundary_before(tokens, i),
        before(tokens, i).policy.cadence_seen == cadence_before(tokens, i),
        before(tokens, i).opened_at is Some == boundary_before(tokens, i),
    decreases i,
{
    if i == 0 {
        assert(tokens.take(0) =~= Seq::empty());
    } else {
        let p = i - 1;
        lemma_flags(tokens, p);
        lemma_before_next(tokens, p);
        let earlier = before(tokens, p);
        if boundary_before(tokens, p) {
            let k = choose|k: int| 0 <= k < p && is_boundary(tokens, k);
            assert(0 <= k < i && is_boundary(tokens, k));
        }
        if cadence_before(tokens, p) {
            let j = choose|j: int| 0 <= j < p && observes_cadence(tokens, j);
            assert(0 <= j < i && observes_cadence(tokens, j));
        }
        if is_boundary(tokens, p) {
            assert(0 <= p < i && is_boundary(tokens, p));
        }
        if observes_cadence(tokens, p) {
            assert(0 <= p < i && observes_cadence(tokens, p));
        }
        if boundary_before(tokens, i) {
            let k = choose|k: int| 0 <= k < i && is_boundary(tokens, k);
            if k < p {
                assert(0 <= k < p && is_boundary(tokens, k));
            }
        }
        if cadence_before(tokens, i) {
            let j = choose|j: int| 0 <= j < i && observes_cadence(tokens, j);
            if j < p {
                assert(0 <= j < p && observes_cadence(tokens, j));
            }
        }
    }
}

/// The first periodic sample boundary of a stream is emitted, whatever the cadence.
pub proof fn lemma_first_boundary_emitted(tokens: Seq<TokenView>, i: int)
    requires
        is_boundary(tokens, i),
        !boundary_before(tokens, i),
    ensures
        emitted_at(tokens, i),
{
    lemma_flags(tokens, i);
}

/// A periodic sample boundary that is not the first, and that no cadence observation
/// precedes, is not emitted.
pub proof fn lemma_suppressed_until_cadence(tokens: Seq<TokenView>, i: int)
    requires
        is_boundary(tokens, i),
        boundary_before(tokens, i),
        !cadence_before(tokens, i),
    ensures
        !emitted_at(tokens, i),
{
    lemma_flags(tokens, i);
}

/// Every periodic sample boundary that a cadence observation precedes is emitted.
pub proof fn lemma_emitted_after_cadence(tokens: Seq<TokenView>, i: int)
    requires
        is_boundary(tokens, i),
        cadence_before(tokens, i),
    ensures
        emitted_at(tokens, i),
{
    lemma_flags(tokens, i);
}

/// The emitted snapshots grow by the accumulator as it stands at a boundary that is
/// emitted, and by nothing at any other token.
pub proof fn lemma_emitted_grows(tokens: Seq<TokenView>, i: int)
    requires
        0 <= i < tokens.len(),
    ensures
        before(tokens, i + 1).emitted == if emitted_at(tokens, i) {
            before(tokens, i).emitted.push(before(tokens, i).sample)
        } else {
            before(tokens, i).emitted
        },
{
    lemma_before_next(tokens, i);
}

/// The writer is opened with the accumulator as it stands at the first periodic
/// boundary; later tokens do not change what it was opened with.
pub proof fn lemma_named_at_first_boundary(tokens: Seq<TokenView>, i: int, m: int)
    requires
        is_boundary(tokens, i),
        !boundary_before(tokens, i),
        i < m <= tokens.len(),
    ensures
        before(tokens, m).opened_at == Some(before(tokens, i).sample),
    decreases m,
{
    lemma_flags(tokens, i);
    if m == i + 1 {
        lemma_before_next(tokens, i);
    } else {
        lemma_named_at_first_boundary(tokens, i, m - 1);
        lemma_before_next(tokens, m - 1);
        lemma_flags(tokens, m - 1);
        assert(0 <= i < m - 1 && is_boundary(tokens, i));
    }
}

/// A stream without a periodic sample boundary selects nothing and opens no writer.
pub proof fn lemma_no_boundary_no_output(tokens: Seq<TokenView>)
    requires
        !boundary_before(tokens, tokens.len() as int),
    ensures
        run(tokens).opened_at is None,
        run(tokens).emitted.len() == 0,
{
    lemma_flags(tokens, tokens.len() as int);
    assert(tokens.take(tokens.len() as int) =~= tokens);
    lemma_nothing_emitted_before_boundary(tokens, tokens.len() as int);
}

/// Nothing is emitted before the first periodic sample boundary.
pub proof fn lemma_nothing_emitted_before_boundary(tokens: Seq<TokenView>, i: int)
    requires
        0 <= i <= tokens.len(),
        !boundary_before(tokens, i),
    ensures
        before(tokens, i).emitted.len() == 0,
    decreases i,
{
    if i == 0 {
        assert(tokens.take(0) =~= Seq::empty());
    } else {
        let p = i - 1;
        assert(!boundary_before(tokens, p)) by {
            if boundary_before(tokens, p) {
                let k = choose|k: int| 0 <= k < p && is_boundary(tokens, k);
                assert(0 <= k < i && is_boundary(tokens, k));
            }
        }
        lemma_nothing_emitted_before_boundary(tokens, p);
        lemma_emitted_grows(tokens, p);
        assert(!is_boundary(tokens, p)) by {
            if is_boundary(tokens, p) {
                assert(0 <= p < i && is_boundary(tokens, p));
            }
        }
    }
}

} // verus!
