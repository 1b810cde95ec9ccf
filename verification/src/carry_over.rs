//! What the accumulator holds over whole streams.
//!
//! A field holds the last text that the stream supplied for it, however long ago: no
//! sample boundary and no other field's text clears it.

use crate::fields::Field;
use crate::gating::lemma_before_next;
use crate::sample_rec::SampleRecView;
use crate::stream::{before, TokenView};
use vstd::prelude::*;

verus! {

/// Token `i` is character data that is stored in `field`.
pub open spec fn feeds(tokens: Seq<TokenView>, i: int, field: Field) -> bool {
    &&& 0 <= i < tokens.len()
    &&& tokens[i] is Characters
    &&& before(tokens, i).active == Some(field)
}

/// No token from `from` up to, but not including, `to` is stored in `field`.
pub open spec fn unfed_between(tokens: Seq<TokenView>, from: int, to: int, field: Field) -> bool {
    forall|k: int| from <= k < to ==> !feeds(tokens, k, field)
}

/// Storing a text in one field leaves every other field as it was, and puts the text
/// in that field.
pub proof fn lemma_with_touches_one_field(
    sample: SampleRecView,
    stored: Field,
    text: Seq<char>,
    field: Field,
)
    ensures
        sample.with(stored, text).get(field) == if field == stored {
            text
        } else {
            sample.get(field)
        },
{
}

/// A token that is not stored in `field` leaves the text of `field` as it was.
pub proof fn lemma_unfed_keeps(tokens: Seq<TokenView>, i: int, field: Field)
    requires
        0 <= i < tokens.len(),
        !feeds(tokens, i, field),
    ensures
        before(tokens, i + 1).sample.get(field) == before(tokens, i).sample.get(field),
{
    lemma_before_next(tokens, i);
    let earlier = before(tokens, i);
    match tokens[i] {
        TokenView::Characters(text) => {
            match earlier.active {
                Some(stored) => {
                    lemma_with_touches_one_field(earlier.sample, stored, text, field);
                },
                None => {},
            }
        },
        _ => {},
    }
}

/// A field that the stream has not supplied yet is empty.
pub proof fn lemma_unfed_is_empty(tokens: Seq<TokenView>, i: int, field: Field)
    requires
        0 <= i <= tokens.len(),
        unfed_between(tokens, 0, i, field),
    ensures
        before(tokens, i).sample.get(field) == Seq::<char>::empty(),
    decreases i,
{
    if i == 0 {
        assert(tokens.take(0) =~= Seq::empty());
    } else {
        lemma_unfed_is_empty(tokens, i - 1, field);
        lemma_unfed_keeps(tokens, i - 1, field);
    }
}

/// A field holds the last text that was stored in it: the text of token `j`, if that
/// token is stored in the field and no later token before `i` is.
pub proof fn lemma_holds_last_text(tokens: Seq<TokenView>, j: int, i: int, field: Field)
    requires
        feeds(tokens, j, field),
        j < i <= tokens.len(),
        unfed_between(tokens, j + 1, i, field),
    ensures
        before(tokens, i).sample.get(field) == tokens[j]->Characters_0,
    decreases i,
{
    if i == j + 1 {
        lemma_before_next(tokens, j);
        lemma_with_touches_one_field(
            before(tokens, j).sample,
            field,
            tokens[j]->Characters_0,
            field,
        );
    } else {
        lemma_holds_last_text(tokens, j, i - 1, field);
        lemma_unfed_keeps(tokens, i - 1, field);
    }
}

} // verus!
