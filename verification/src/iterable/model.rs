//! The sequences that the streams stand for, as plain mathematics.

use crate::misc::MatrixElement;
use vstd::arithmetic::div_mod::{
    lemma_fundamental_div_mod, lemma_fundamental_div_mod_converse,
    lemma_mod_add_multiples_vanish, lemma_small_mod,
};
use vstd::arithmetic::mul::{lemma_mul_inequality, lemma_mul_is_distributive_sub};
use vstd::prelude::*;
use vstd::seq_lib::lemma_flatten_concat;

verus! {

/// `len` copies of `e`.
pub open spec fn constant<T>(e: T, len: nat) -> Seq<T> {
    Seq::new(len, |i: int| e)
}

/// The `n` rows of an `n` by `n` matrix whose only entries are `e`, one per
/// row, from the last row to the first: row `n - 1 - j` is streamed as the
/// pair at positions `2j` and `2j + 1`, its entry at the column of its own
/// index followed by the row end.
pub open spec fn diagonal<T>(e: T, n: nat) -> Seq<MatrixElement<T>> {
    Seq::new(
        2 * n,
        |i: int|
            if i % 2 == 0 {
                MatrixElement::Element((e, (n - 1 - i / 2) as usize))
            } else {
                MatrixElement::EOL
            },
    )
}

/// The last `left` items of a diagonal stream. With `c` items still to
/// come, the next one is a row end where `c` is odd and the entry of row
/// `(c - 1) / 2` where `c` is even.
pub open spec fn diagonal_tail<T>(e: T, left: nat) -> Seq<MatrixElement<T>> {
    Seq::new(
        left,
        |j: int|
            if (left - j) % 2 == 1 {
                MatrixElement::EOL
            } else {
                MatrixElement::Element((e, ((left - j - 1) / 2) as usize))
            },
    )
}

/// `len` items, all `zero` but the last, which is `e`.
pub open spec fn single_entry<T>(e: T, zero: T, len: nat) -> Seq<T> {
    Seq::new(len, |i: int| if i == len - 1 { e } else { zero })
}

/// `repeat` copies of `base`, end to end.
pub open spec fn cyclic<T>(base: Seq<T>, repeat: nat) -> Seq<T> {
    Seq::new(base.len() * repeat, |i: int| base[i % (base.len() as int)])
}

/// What is left of a cyclic stream with `left` items to come, the next of
/// them item `pos` of `base`.
pub open spec fn cyclic_tail<T>(base: Seq<T>, pos: int, left: nat) -> Seq<T> {
    Seq::new(left, |j: int| base[(pos + j) % (base.len() as int)])
}

/// The rows one after another, with nothing between them.
pub open spec fn concatenation<T>(rows: Seq<Seq<T>>) -> Seq<T> {
    rows.flatten()
}

/// What is left of a concatenation from item `col` of row `row` on: the rest
/// of that row, then the rows after it.
pub open spec fn concatenation_tail<T>(rows: Seq<Seq<T>>, row: int, col: int) -> Seq<T> {
    if 0 <= row < rows.len() {
        rows[row].skip(col) + rows.skip(row + 1).flatten()
    } else {
        Seq::empty()
    }
}

/// The rows of a vector of vectors.
pub open spec fn rows_of<T>(m: Seq<Vec<T>>) -> Seq<Seq<T>> {
    m.map_values(|row: Vec<T>| row@)
}

/// The same items, each behind a shared reference.
pub open spec fn borrowed<'a, T>(items: Seq<T>) -> Seq<&'a T> {
    items.map_values(|item: T| &item)
}

/// `repeat` tiles of `base`, the last tile first. Tile `k` is `base` with
/// every column moved `k * block_size` to the right, so the stream opens
/// with tile `repeat - 1` and closes with the unshifted tile `0`; within a
/// tile the items of `base` come from its last to its first.
pub open spec fn block_tiled<T>(
    base: Seq<MatrixElement<T>>,
    repeat: nat,
    block_size: nat,
) -> Seq<MatrixElement<T>> {
    Seq::new(
        base.len() * repeat,
        |i: int|
            base[base.len() - 1 - i % (base.len() as int)].shifted(
                (repeat - 1 - i / (base.len() as int)) * block_size,
            ),
    )
}

/// The last `left` items of a block tiling of `base`. Counted from the end
/// of the stream, item `d` is item `d % base.len()` of `base`, in tile
/// `d / base.len()`.
pub open spec fn block_tiled_tail<T>(
    base: Seq<MatrixElement<T>>,
    left: nat,
    block_size: nat,
) -> Seq<MatrixElement<T>> {
    Seq::new(
        left,
        |j: int|
            base[(left - 1 - j) % (base.len() as int)].shifted(
                ((left - 1 - j) / (base.len() as int)) * block_size,
            ),
    )
}

/// Whether every column of a block tiling is a `usize`: the columns of the
/// farthest tile are the largest.
pub open spec fn block_columns_fit<T>(
    base: Seq<MatrixElement<T>>,
    repeat: nat,
    block_size: nat,
) -> bool {
    repeat > 0 ==> forall|i: int|
        0 <= i < base.len() ==> (#[trigger] base[i]).shift_fits((repeat - 1) * block_size)
}

/// A cyclic tail past its first item is the tail that starts one place on
/// in the base, or at the start of the base after its last item.
pub proof fn lemma_cyclic_tail_step<T>(base: Seq<T>, pos: int, left: nat)
    requires
        0 <= pos < base.len(),
        left > 0,
    ensures
        cyclic_tail(base, pos, left)[0] == base[pos],
        cyclic_tail(base, pos, left).skip(1) == cyclic_tail(
            base,
            if pos + 1 == base.len() {
                0
            } else {
                pos + 1
            },
            (left - 1) as nat,
        ),
{
    let len = base.len() as int;
    let next = if pos + 1 == len {
        0
    } else {
        pos + 1
    };
    lemma_small_mod(pos as nat, len as nat);
    let skipped = cyclic_tail(base, pos, left).skip(1);
    let stepped = cyclic_tail(base, next, (left - 1) as nat);
    assert forall|j: int| 0 <= j < left - 1 implies skipped[j] == stepped[j] by {
        if pos + 1 == len {
            lemma_mod_add_multiples_vanish(j, len);
        }
    }
}

/// A tail that stands at the end of a row is the tail from the start of the
/// next row.
pub proof fn lemma_concatenation_tail_next_row<T>(rows: Seq<Seq<T>>, row: int)
    requires
        0 <= row < rows.len(),
    ensures
        concatenation_tail(rows, row, rows[row].len() as int) == concatenation_tail(
            rows,
            row + 1,
            0,
        ),
{
    if row + 1 < rows.len() {
        assert(rows.skip(row + 1).drop_first() =~= rows.skip(row + 2));
    }
}

/// The first `upto + 1` rows hold the items of the first `upto` rows and
/// those of row `upto`, and no more than all the rows do.
pub proof fn lemma_concatenation_prefix<T>(rows: Seq<Seq<T>>, upto: int)
    requires
        0 <= upto < rows.len(),
    ensures
        concatenation(rows.take(upto + 1)).len() == concatenation(rows.take(upto)).len()
            + rows[upto].len(),
        concatenation(rows.take(upto + 1)).len() <= concatenation(rows).len(),
{
    assert(rows.take(upto + 1) =~= rows.take(upto).push(rows[upto]));
    rows.take(upto).lemma_flatten_push(rows[upto]);
    assert(rows =~= rows.take(upto + 1) + rows.skip(upto + 1));
    lemma_flatten_concat(rows.take(upto + 1), rows.skip(upto + 1));
}

/// A block tiling is its own tail of full length.
pub proof fn lemma_block_tiled_is_full_tail<T>(
    base: Seq<MatrixElement<T>>,
    repeat: nat,
    block_size: nat,
)
    ensures
        block_tiled_tail(base, base.len() * repeat, block_size) == block_tiled(
            base,
            repeat,
            block_size,
        ),
{
    let len = base.len() as int;
    let whole = block_tiled(base, repeat, block_size);
    let tail = block_tiled_tail(base, base.len() * repeat, block_size);
    assert forall|i: int| 0 <= i < whole.len() implies whole[i] == tail[i] by {
        let d = len * repeat - 1 - i;
        let q = repeat - 1 - i / len;
        let r = len - 1 - i % len;
        lemma_fundamental_div_mod(i, len);
        assert(len * repeat - len * (i / len) - len == len * q) by {
            lemma_mul_is_distributive_sub(len, repeat as int, i / len);
            lemma_mul_is_distributive_sub(len, repeat - i / len, 1);
        }
        lemma_fundamental_div_mod_converse(d, len, q, r);
    }
}

/// A column that fits in the farthest of `repeat` tiles fits in every
/// nearer tile.
pub proof fn lemma_nearer_tiles_fit<T>(
    base: Seq<MatrixElement<T>>,
    repeat: nat,
    nearer: nat,
    block_size: nat,
)
    requires
        block_columns_fit(base, repeat, block_size),
        nearer <= repeat,
    ensures
        block_columns_fit(base, nearer, block_size),
{
    if nearer > 0 {
        assert((nearer - 1) * block_size <= (repeat - 1) * block_size) by {
            lemma_mul_inequality(nearer - 1, repeat - 1, block_size as int);
        }
    }
}

} // verus!
