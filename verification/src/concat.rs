//! Texts that are put together piece by piece.

use vstd::prelude::*;

verus! {

/// What the items of a sequence map to, put one after the other.
pub open spec fn concat_map<A>(items: Seq<A>, piece: spec_fn(A) -> Seq<char>) -> Seq<char> {
    items.map_values(piece).flatten()
}

/// One item more appends what the item maps to.
pub proof fn lemma_concat_map_next<A>(items: Seq<A>, piece: spec_fn(A) -> Seq<char>, i: int)
    requires
        0 <= i < items.len(),
    ensures
        concat_map(items.take(i + 1), piece) == concat_map(items.take(i), piece) + piece(items[i]),
{
    let before = items.take(i).map_values(piece);
    assert(items.take(i + 1).map_values(piece) =~= before.push(piece(items[i])));
    before.lemma_flatten_push(piece(items[i]));
}

/// Where every character of every piece is of a kind, so is every character
/// of the pieces put together.
pub proof fn lemma_concat_map_all<A>(
    items: Seq<A>,
    piece: spec_fn(A) -> Seq<char>,
    kind: spec_fn(char) -> bool,
)
    requires
        forall|k: int, j: int|
            0 <= k < items.len() && 0 <= j < piece(items[k]).len() ==> kind(
                #[trigger] piece(items[k])[j],
            ),
    ensures
        forall|j: int|
            0 <= j < concat_map(items, piece).len() ==> kind(#[trigger] concat_map(items, piece)[j]),
    decreases items.len(),
{
    if items.len() > 0 {
        let n = items.len() - 1;
        let before = items.take(n);
        assert forall|k: int, j: int|
            0 <= k < before.len() && 0 <= j < piece(before[k]).len() implies kind(
            #[trigger] piece(before[k])[j],
        ) by {
            assert(before[k] == items[k]);
        }
        lemma_concat_map_all(before, piece, kind);
        lemma_concat_map_next(items, piece, n);
        assert(items.take(n + 1) =~= items);
        let whole = concat_map(items, piece);
        let head = concat_map(before, piece);
        assert forall|j: int| 0 <= j < whole.len() implies kind(#[trigger] whole[j]) by {
            if j < head.len() {
                assert(whole[j] == head[j]);
            } else {
                assert(whole[j] == piece(items[n])[j - head.len()]);
            }
        }
    }
}

} // verus!
