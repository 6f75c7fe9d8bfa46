//! Synthetic and derived streams.

use crate::circuit::R1csStream;
use crate::error::InvalidParameters;
use crate::iterable::model::{
    block_columns_fit, block_tiled, block_tiled_tail, borrowed, concatenation,
    concatenation_tail, constant, cyclic, cyclic_tail, diagonal, diagonal_tail,
    lemma_block_tiled_is_full_tail, lemma_concatenation_prefix,
    lemma_concatenation_tail_next_row, lemma_cyclic_tail_step, lemma_nearer_tiles_fit, rows_of,
    single_entry,
};
use crate::iterable::{Iterable, Traversal};
use crate::misc::MatrixElement;
use vstd::arithmetic::div_mod::lemma_fundamental_div_mod_converse;
use vstd::arithmetic::mul::{lemma_mul_is_commutative, lemma_mul_is_distributive_add_other_way};
use vstd::prelude::*;

verus! {

/// The stream that yields the same element `e`, `len` times.
#[derive(Copy)]
pub struct DummyStreamer<T> {
    e: T,
    len: usize,
}

/// A traversal of a [`DummyStreamer`].
pub struct DummyIter<T> {
    e: T,
    left: usize,
}

impl<T> View for DummyStreamer<T> {
    type V = Seq<T>;

    closed spec fn view(&self) -> Seq<T> {
        constant(self.e, self.len as nat)
    }
}

impl<T> View for DummyIter<T> {
    type V = Seq<T>;

    closed spec fn view(&self) -> Seq<T> {
        constant(self.e, self.left as nat)
    }
}

impl<T: Copy> Clone for DummyStreamer<T> {
    fn clone(&self) -> (copy: Self)
        ensures
            copy == *self,
    {
        *self
    }
}

impl<T: Copy> DummyStreamer<T> {
    /// The stream that repeats `e`, `len` times.
    pub fn new(e: T, len: usize) -> (s: Self)
        ensures
            s@ == constant(e, len as nat),
    {
        Self { e, len }
    }
}

impl<T: Copy> Traversal for DummyIter<T> {
    type Item = T;

    open spec fn inv(&self) -> bool {
        true
    }

    open spec fn remaining(&self) -> Seq<T> {
        self@
    }

    fn next(&mut self) -> (item: Option<T>) {
        if self.left == 0 {
            None
        } else {
            self.left = self.left - 1;
            Some(self.e)
        }
    }
}

impl<T> Iterable for DummyStreamer<T> where T: Send + Sync + Copy {
    type Item = T;

    type Iter = DummyIter<T>;

    open spec fn inv(&self) -> bool {
        true
    }

    open spec fn stream(&self) -> Seq<T> {
        self@
    }

    open spec fn reported_len(&self) -> nat {
        self@.len()
    }

    open spec fn len_is_exact(&self) -> bool {
        true
    }

    proof fn lemma_len_counts_items(&self) {
    }

    fn iter(&self) -> (it: DummyIter<T>) {
        DummyIter { e: self.e, left: self.len }
    }

    fn len(&self) -> (n: usize) {
        self.len
    }
}

/// The stream of an `n` by `n` matrix whose entries, one per row, are all
/// `e`, from the last row to the first.
#[derive(Copy)]
pub struct DiagonalMatrixStreamer<T> {
    e: T,
    len: usize,
}

/// A traversal of a [`DiagonalMatrixStreamer`]: a countdown of the items
/// still to come.
pub struct DiagonalMatrixIter<T> {
    e: T,
    len: usize,
}

impl<T> View for DiagonalMatrixStreamer<T> {
    type V = Seq<MatrixElement<T>>;

    closed spec fn view(&self) -> Seq<MatrixElement<T>> {
        diagonal(self.e, self.len as nat)
    }
}

impl<T> View for DiagonalMatrixIter<T> {
    type V = Seq<MatrixElement<T>>;

    closed spec fn view(&self) -> Seq<MatrixElement<T>> {
        diagonal_tail(self.e, self.len as nat)
    }
}

impl<T: Copy> Clone for DiagonalMatrixStreamer<T> {
    fn clone(&self) -> (copy: Self)
        ensures
            copy == *self,
    {
        *self
    }
}

impl<T: Copy> DiagonalMatrixStreamer<T> {
    /// The stream has a length that `usize` can hold.
    pub closed spec fn wf(&self) -> bool {
        2 * self.len <= usize::MAX
    }

    /// The stream of the matrix of `len` rows whose entries are `e`.
    pub fn new(e: T, len: usize) -> (s: Self)
        requires
            2 * len <= usize::MAX,
        ensures
            s.wf(),
            s@ == diagonal(e, len as nat),
    {
        Self { e, len }
    }

    /// As [`Self::new`], for a row count not known to describe a stream: it
    /// is refused where the stream, of two items a row, would be longer than
    /// `usize` can count.
    pub fn try_new(e: T, len: usize) -> (r: Result<Self, InvalidParameters>)
        ensures
            r is Ok <==> 2 * len <= usize::MAX,
            r matches Ok(s) ==> s.wf() && s@ == diagonal(e, len as nat),
            r matches Err(why) ==> why == InvalidParameters::LengthOverflow,
    {
        if len > usize::MAX / 2 {
            Err(InvalidParameters::LengthOverflow)
        } else {
            Ok(Self { e, len })
        }
    }
}

impl<T: Copy> Traversal for DiagonalMatrixIter<T> {
    type Item = MatrixElement<T>;

    open spec fn inv(&self) -> bool {
        true
    }

    open spec fn remaining(&self) -> Seq<MatrixElement<T>> {
        self@
    }

    fn next(&mut self) -> (item: Option<MatrixElement<T>>) {
        if self.len == 0 {
            None
        } else if self.len % 2 == 1 {
            self.len -= 1;
            Some(MatrixElement::EOL)
        } else {
            self.len -= 1;
            Some(MatrixElement::Element((self.e, self.len / 2)))
        }
    }
}

impl<T> Iterable for DiagonalMatrixStreamer<T> where T: Send + Sync + Copy {
    type Item = MatrixElement<T>;

    type Iter = DiagonalMatrixIter<T>;

    open spec fn inv(&self) -> bool {
        self.wf()
    }

    open spec fn stream(&self) -> Seq<MatrixElement<T>> {
        self@
    }

    open spec fn reported_len(&self) -> nat {
        self@.len()
    }

    open spec fn len_is_exact(&self) -> bool {
        true
    }

    proof fn lemma_len_counts_items(&self) {
    }

    fn iter(&self) -> (it: DiagonalMatrixIter<T>) {
        DiagonalMatrixIter { e: self.e, len: self.len * 2 }
    }

    fn len(&self) -> (n: usize) {
        self.len * 2
    }
}

/// A vector that is `zero` everywhere but at its last place, which holds
/// `e`.
#[derive(Copy)]
pub struct SingleEntryStream<T> {
    e: T,
    zero: T,
    len: usize,
}

/// A traversal of a [`SingleEntryStream`].
pub struct SingleEntryIter<T> {
    e: T,
    zero: T,
    left: usize,
}

impl<T> View for SingleEntryStream<T> {
    type V = Seq<T>;

    closed spec fn view(&self) -> Seq<T> {
        single_entry(self.e, self.zero, self.len as nat)
    }
}

impl<T> View for SingleEntryIter<T> {
    type V = Seq<T>;

    closed spec fn view(&self) -> Seq<T> {
        single_entry(self.e, self.zero, self.left as nat)
    }
}

impl<T: Copy> Clone for SingleEntryStream<T> {
    fn clone(&self) -> (copy: Self)
        ensures
            copy == *self,
    {
        *self
    }
}

impl<T: Copy> SingleEntryStream<T> {
    /// The stream has its one entry.
    pub closed spec fn wf(&self) -> bool {
        self.len >= 1
    }

    /// The stream of `len - 1` times `zero`, then `e`.
    pub fn new(e: T, zero: T, len: usize) -> (s: Self)
        requires
            len >= 1,
        ensures
            s.wf(),
            s@ == single_entry(e, zero, len as nat),
    {
        Self { e, zero, len }
    }

    /// As [`Self::new`], for a length not known to be positive: a length of
    /// zero, which leaves the entry no place, is refused.
    pub fn try_new(e: T, zero: T, len: usize) -> (r: Result<Self, InvalidParameters>)
        ensures
            r is Ok <==> len >= 1,
            r matches Ok(s) ==> s.wf() && s@ == single_entry(e, zero, len as nat),
            r matches Err(why) ==> why == InvalidParameters::ZeroLength,
    {
        if len == 0 {
            Err(InvalidParameters::ZeroLength)
        } else {
            Ok(Self { e, zero, len })
        }
    }
}

impl<T: Copy> Traversal for SingleEntryIter<T> {
    type Item = T;

    open spec fn inv(&self) -> bool {
        true
    }

    open spec fn remaining(&self) -> Seq<T> {
        self@
    }

    fn next(&mut self) -> (item: Option<T>) {
        if self.left == 0 {
            None
        } else {
            self.left -= 1;
            if self.left == 0 {
                Some(self.e)
            } else {
                Some(self.zero)
            }
        }
    }
}

impl<T> Iterable for SingleEntryStream<T> where T: Copy + Send + Sync {
    type Item = T;

    type Iter = SingleEntryIter<T>;

    open spec fn inv(&self) -> bool {
        self.wf()
    }

    open spec fn stream(&self) -> Seq<T> {
        self@
    }

    open spec fn reported_len(&self) -> nat {
        self@.len()
    }

    open spec fn len_is_exact(&self) -> bool {
        true
    }

    proof fn lemma_len_counts_items(&self) {
    }

    fn iter(&self) -> (it: SingleEntryIter<T>) {
        SingleEntryIter { e: self.e, zero: self.zero, left: self.len }
    }

    fn len(&self) -> (n: usize) {
        self.len
    }
}

/// A base sequence repeated end to end, without copying it.
///
/// The base is borrowed: the descriptor and its traversals are valid for as
/// long as the base is.
#[derive(Copy)]
pub struct RepeatStreamer<'a, T> where T: Send + Sync {
    m: &'a [T],
    repeat: usize,
}

/// A traversal of a [`RepeatStreamer`]: `left` items to come, the next of
/// them item `pos` of the base.
pub struct RepeatIter<'a, T> {
    m: &'a [T],
    pos: usize,
    left: usize,
}

impl<'a, T: Send + Sync> View for RepeatStreamer<'a, T> {
    type V = Seq<T>;

    closed spec fn view(&self) -> Seq<T> {
        cyclic(self.m@, self.repeat as nat)
    }
}

impl<'a, T> View for RepeatIter<'a, T> {
    type V = Seq<T>;

    closed spec fn view(&self) -> Seq<T> {
        cyclic_tail(self.m@, self.pos as int, self.left as nat)
    }
}

impl<'a, T: Send + Sync + Copy> Clone for RepeatStreamer<'a, T> {
    fn clone(&self) -> (copy: Self)
        ensures
            copy == *self,
    {
        *self
    }
}

impl<'a, T> RepeatStreamer<'a, T> where T: Send + Sync {
    /// The stream has a length that `usize` can hold.
    pub closed spec fn wf(&self) -> bool {
        self.m@.len() * self.repeat <= usize::MAX
    }

    /// The stream of `repeat` copies of `m`.
    pub fn new(m: &'a [T], repeat: usize) -> (s: Self)
        requires
            m@.len() * repeat <= usize::MAX,
        ensures
            s.wf(),
            s@ == cyclic(m@, repeat as nat),
    {
        Self { m, repeat }
    }

    /// As [`Self::new`], for parameters not known to describe a stream: they
    /// are refused where the stream would be longer than `usize` can count.
    pub fn try_new(m: &'a [T], repeat: usize) -> (r: Result<Self, InvalidParameters>)
        ensures
            r is Ok <==> m@.len() * repeat <= usize::MAX,
            r matches Ok(s) ==> s.wf() && s@ == cyclic(m@, repeat as nat),
            r matches Err(why) ==> why == InvalidParameters::LengthOverflow,
    {
        match m.len().checked_mul(repeat) {
            Some(_) => Ok(Self { m, repeat }),
            None => Err(InvalidParameters::LengthOverflow),
        }
    }
}

impl<'a, T> RepeatIter<'a, T> {
    /// While items are to come, the cursor stands inside the base.
    pub closed spec fn wf(&self) -> bool {
        self.left > 0 ==> self.pos < self.m@.len()
    }
}

impl<'a, T> Traversal for RepeatIter<'a, T> {
    type Item = &'a T;

    open spec fn inv(&self) -> bool {
        self.wf()
    }

    open spec fn remaining(&self) -> Seq<&'a T> {
        borrowed(self@)
    }

    fn next(&mut self) -> (item: Option<&'a T>) {
        if self.left == 0 {
            None
        } else {
            let m = self.m;
            let item = &m[self.pos];
            proof {
                lemma_cyclic_tail_step(m@, self.pos as int, self.left as nat);
            }
            self.left -= 1;
            self.pos += 1;
            if self.pos == m.len() {
                self.pos = 0;
            }
            Some(item)
        }
    }
}

impl<'a, T> Iterable for RepeatStreamer<'a, T> where T: Send + Sync {
    type Item = &'a T;

    type Iter = RepeatIter<'a, T>;

    open spec fn inv(&self) -> bool {
        self.wf()
    }

    open spec fn stream(&self) -> Seq<&'a T> {
        borrowed(self@)
    }

    open spec fn reported_len(&self) -> nat {
        self@.len()
    }

    open spec fn len_is_exact(&self) -> bool {
        true
    }

    proof fn lemma_len_counts_items(&self) {
    }

    fn iter(&self) -> (it: RepeatIter<'a, T>) {
        let left = self.len();
        assert(left > 0 ==> self.m@.len() > 0) by (nonlinear_arith)
            requires
                left == self.m@.len() * self.repeat,
        ;
        RepeatIter { m: self.m, pos: 0, left }
    }

    fn len(&self) -> (n: usize) {
        self.m.len() * self.repeat
    }
}

/// Row vectors glued into one stream, without copying them.
///
/// The rows are borrowed: the descriptor and its traversals are valid for as
/// long as the rows are.
#[derive(Copy)]
pub struct ConcatStreamer<'a, T> where T: Send + Sync {
    m: &'a Vec<Vec<T>>,
}

/// A traversal of a [`ConcatStreamer`]: the next item is item `col` of row
/// `row`, or the first item of the next row that has one.
pub struct ConcatIterator<'a, T> {
    m: &'a Vec<Vec<T>>,
    row: usize,
    col: usize,
}

impl<'a, T: Send + Sync> View for ConcatStreamer<'a, T> {
    type V = Seq<T>;

    closed spec fn view(&self) -> Seq<T> {
        concatenation(rows_of(self.m@))
    }
}

impl<'a, T> View for ConcatIterator<'a, T> {
    type V = Seq<T>;

    closed spec fn view(&self) -> Seq<T> {
        concatenation_tail(rows_of(self.m@), self.row as int, self.col as int)
    }
}

impl<'a, T: Send + Sync + Copy> Clone for ConcatStreamer<'a, T> {
    fn clone(&self) -> (copy: Self)
        ensures
            copy == *self,
    {
        *self
    }
}

/// The number of items in all the rows of `m`, where a `usize` can hold it.
fn total_len<T>(m: &Vec<Vec<T>>) -> (total: Option<usize>)
    ensures
        match total {
            Some(n) => n == concatenation(rows_of(m@)).len(),
            None => concatenation(rows_of(m@)).len() > usize::MAX,
        },
{
    let ghost rows = rows_of(m@);
    let mut sum: usize = 0;
    let mut i: usize = 0;
    while i < m.len()
        invariant
            i <= m.len(),
            rows == rows_of(m@),
            sum == concatenation(rows.take(i as int)).len(),
        decreases m.len() - i,
    {
        proof {
            lemma_concatenation_prefix(rows, i as int);
        }
        match sum.checked_add(m[i].len()) {
            Some(longer) => {
                sum = longer;
            },
            None => {
                return None;
            },
        }
        i = i + 1;
    }
    assert(rows.take(i as int) =~= rows);
    Some(sum)
}

impl<'a, T> ConcatStreamer<'a, T> where T: Send + Sync {
    /// The stream has a length that `usize` can hold.
    pub closed spec fn wf(&self) -> bool {
        self@.len() <= usize::MAX
    }

    /// The rows of `m`, one after another.
    pub fn new(m: &'a Vec<Vec<T>>) -> (s: Self)
        requires
            concatenation(rows_of(m@)).len() <= usize::MAX,
        ensures
            s.wf(),
            s@ == concatenation(rows_of(m@)),
    {
        Self { m }
    }

    /// As [`Self::new`], for rows not known to describe a stream: they are
    /// refused where they hold more items than `usize` can count.
    pub fn try_new(m: &'a Vec<Vec<T>>) -> (r: Result<Self, InvalidParameters>)
        ensures
            r is Ok <==> concatenation(rows_of(m@)).len() <= usize::MAX,
            r matches Ok(s) ==> s.wf() && s@ == concatenation(rows_of(m@)),
            r matches Err(why) ==> why == InvalidParameters::LengthOverflow,
    {
        match total_len(m) {
            Some(_) => Ok(Self { m }),
            None => Err(InvalidParameters::LengthOverflow),
        }
    }
}

impl<'a, T> ConcatIterator<'a, T> {
    /// The cursor stands inside its row, or past the last row.
    pub closed spec fn wf(&self) -> bool {
        self.row < self.m.len() ==> self.col <= self.m[self.row as int].len()
    }

    /// The number of rows from the cursor's own to the last.
    pub closed spec fn rows_ahead(&self) -> nat {
        if self.row < self.m.len() {
            (self.m.len() - self.row) as nat
        } else {
            0
        }
    }
}

impl<'a, T> Traversal for ConcatIterator<'a, T> {
    type Item = &'a T;

    open spec fn inv(&self) -> bool {
        self.wf()
    }

    open spec fn remaining(&self) -> Seq<&'a T> {
        borrowed(self@)
    }

    fn next(&mut self) -> (item: Option<&'a T>)
        decreases old(self).rows_ahead(),
    {
        let m = self.m;
        if self.row >= m.len() {
            None
        } else {
            let cur_row = &m[self.row];
            if self.col >= cur_row.len() {
                proof {
                    lemma_concatenation_tail_next_row(rows_of(m@), self.row as int);
                }
                self.col = 0;
                self.row += 1;
                self.next()
            } else {
                self.col += 1;
                Some(&cur_row[self.col - 1])
            }
        }
    }
}

impl<'a, T> Iterable for ConcatStreamer<'a, T> where T: Send + Sync {
    type Item = &'a T;

    type Iter = ConcatIterator<'a, T>;

    open spec fn inv(&self) -> bool {
        self.wf()
    }

    open spec fn stream(&self) -> Seq<&'a T> {
        borrowed(self@)
    }

    open spec fn reported_len(&self) -> nat {
        self@.len()
    }

    open spec fn len_is_exact(&self) -> bool {
        true
    }

    proof fn lemma_len_counts_items(&self) {
    }

    fn iter(&self) -> (it: ConcatIterator<'a, T>) {
        ConcatIterator { m: self.m, row: 0, col: 0 }
    }

    fn len(&self) -> (n: usize) {
        total_len(self.m).unwrap()
    }

    fn is_empty(&self) -> (empty: bool) {
        self.len() == 0
    }
}

/// A sparse matrix block replicated `repeat` times, each replica moved
/// `block_size` columns further right than the one before it, streamed from
/// the last replica to the first.
pub struct RepeatMatrixStreamer<T> {
    m: Vec<T>,
    repeat: usize,
    block_size: usize,
}

/// A traversal of a [`RepeatMatrixStreamer`].
///
/// `repeat` counts the tiles not yet started and `count` the items of the
/// current tile not yet yielded, so the tile being streamed is shifted by
/// `repeat * block_size`.
pub struct RepeatMatrixIterator<T> {
    m: Vec<MatrixElement<T>>,
    repeat: usize,
    count: usize,
    block_size: usize,
}

impl<T> View for RepeatMatrixStreamer<MatrixElement<T>> {
    type V = Seq<MatrixElement<T>>;

    closed spec fn view(&self) -> Seq<MatrixElement<T>> {
        block_tiled(self.m@, self.repeat as nat, self.block_size as nat)
    }
}

impl<T> View for RepeatMatrixIterator<T> {
    type V = Seq<MatrixElement<T>>;

    closed spec fn view(&self) -> Seq<MatrixElement<T>> {
        block_tiled_tail(
            self.m@,
            (self.count + self.repeat * self.m.len()) as nat,
            self.block_size as nat,
        )
    }
}

impl<T> RepeatMatrixIterator<T> {
    /// The number of tiles of which an item is still to come.
    spec fn tiles_ahead(&self) -> nat {
        if self.count > 0 {
            (self.repeat + 1) as nat
        } else {
            self.repeat as nat
        }
    }

    /// The cursor stands inside the base block, and no column still to come
    /// leaves `usize`.
    pub closed spec fn wf(&self) -> bool {
        &&& self.count <= self.m.len()
        &&& block_columns_fit(self.m@, self.tiles_ahead(), self.block_size as nat)
    }
}

impl<T: Copy> Clone for RepeatMatrixStreamer<MatrixElement<T>> {
    fn clone(&self) -> (copy: Self)
        ensures
            copy@ == self@,
            self.wf() ==> copy.wf(),
    {
        let m = self.m.clone();
        Self { m, repeat: self.repeat, block_size: self.block_size }
    }
}

impl<T> RepeatMatrixStreamer<MatrixElement<T>> {
    /// The stream has a length that `usize` can hold and no column that
    /// leaves `usize`.
    pub closed spec fn wf(&self) -> bool {
        &&& self.m.len() * self.repeat <= usize::MAX
        &&& block_columns_fit(self.m@, self.repeat as nat, self.block_size as nat)
    }
}

impl<T: Clone> RepeatMatrixStreamer<MatrixElement<T>> {
    /// The block `m`, `repeat` times, tile `k` shifted by `k * block_size`.
    pub fn new(m: Vec<MatrixElement<T>>, repeat: usize, block_size: usize) -> (s: Self)
        requires
            m.len() * repeat <= usize::MAX,
            block_columns_fit(m@, repeat as nat, block_size as nat),
        ensures
            s.wf(),
            s@ == block_tiled(m@, repeat as nat, block_size as nat),
    {
        Self { m, repeat, block_size }
    }

    /// As [`Self::new`], for parameters not known to describe a stream: they
    /// are refused where the stream's length or one of its columns would
    /// leave `usize`.
    pub fn try_new(m: Vec<MatrixElement<T>>, repeat: usize, block_size: usize) -> (r: Result<
        Self,
        InvalidParameters,
    >)
        ensures
            r is Ok <==> m.len() * repeat <= usize::MAX && block_columns_fit(
                m@,
                repeat as nat,
                block_size as nat,
            ),
            r matches Ok(s) ==> s.wf() && s@ == block_tiled(
                m@,
                repeat as nat,
                block_size as nat,
            ),
            r matches Err(why) ==> why == if m.len() * repeat > usize::MAX {
                InvalidParameters::LengthOverflow
            } else {
                InvalidParameters::ColumnOverflow
            },
    {
        if m.len().checked_mul(repeat).is_none() {
            return Err(InvalidParameters::LengthOverflow);
        }
        if repeat > 0 {
            let offset = (repeat - 1).checked_mul(block_size);
            let mut i: usize = 0;
            while i < m.len()
                invariant
                    i <= m.len(),
                    repeat > 0,
                    m.len() * repeat <= usize::MAX,
                    match offset {
                        Some(by) => by == (repeat - 1) * block_size,
                        None => (repeat - 1) * block_size > usize::MAX,
                    },
                    forall|k: int|
                        0 <= k < i ==> (#[trigger] m@[k]).shift_fits((repeat - 1) * block_size),
                decreases m.len() - i,
            {
                let fits = match &m[i] {
                    MatrixElement::Element((_, column)) => match offset {
                        Some(by) => column.checked_add(by).is_some(),
                        None => false,
                    },
                    MatrixElement::EOL => true,
                };
                if !fits {
                    return Err(InvalidParameters::ColumnOverflow);
                }
                i = i + 1;
            }
        }
        Ok(Self { m, repeat, block_size })
    }
}

impl<T: Copy> Traversal for RepeatMatrixIterator<T> {
    type Item = MatrixElement<T>;

    open spec fn inv(&self) -> bool {
        self.wf()
    }

    open spec fn remaining(&self) -> Seq<MatrixElement<T>> {
        self@
    }

    fn next(&mut self) -> (item: Option<MatrixElement<T>>) {
        let ghost len = self.m.len() as int;
        let ghost left = self.count + self.repeat * len;
        if self.count == 0 && (self.repeat == 0 || self.m.len() == 0) {
            assert(self.repeat * len == 0) by (nonlinear_arith)
                requires
                    self.repeat == 0 || len == 0,
            ;
            None
        } else {
            if self.repeat != 0 && self.count == 0 {
                self.count = self.m.len();
                self.repeat -= 1;
                assert(self.count + self.repeat * len == left) by {
                    lemma_mul_is_distributive_add_other_way(len, self.repeat as int, 1);
                }
            }
            self.count -= 1;
            proof {
                lemma_fundamental_div_mod_converse(
                    left - 1,
                    len,
                    self.repeat as int,
                    self.count as int,
                );
                lemma_nearer_tiles_fit(
                    self.m@,
                    (self.repeat + 1) as nat,
                    self.repeat as nat,
                    self.block_size as nat,
                );
            }
            match self.m[self.count] {
                MatrixElement::Element((e, i)) => {
                    Some(MatrixElement::Element((e, i + self.repeat * self.block_size)))
                },
                t => Some(t),
            }
        }
    }
}

impl<T> Iterable for RepeatMatrixStreamer<MatrixElement<T>> where T: Send + Sync + Copy {
    type Item = MatrixElement<T>;

    type Iter = RepeatMatrixIterator<T>;

    open spec fn inv(&self) -> bool {
        self.wf()
    }

    open spec fn stream(&self) -> Seq<MatrixElement<T>> {
        self@
    }

    open spec fn reported_len(&self) -> nat {
        self@.len()
    }

    open spec fn len_is_exact(&self) -> bool {
        true
    }

    proof fn lemma_len_counts_items(&self) {
    }

    fn iter(&self) -> (it: RepeatMatrixIterator<T>) {
        let m = self.m.clone();
        proof {
            lemma_block_tiled_is_full_tail(self.m@, self.repeat as nat, self.block_size as nat);
            lemma_mul_is_commutative(self.repeat as int, self.m.len() as int);
        }
        RepeatMatrixIterator {
            m,
            repeat: self.repeat,
            block_size: self.block_size,
            count: 0,
        }
    }

    fn len(&self) -> (n: usize) {
        self.m.len() * self.repeat
    }
}

/// A descriptor with a length that the caller chose.
///
/// Traversals are those of the wrapped descriptor, untouched; only the
/// length reported is replaced. Where the two differ, the reported length is
/// not the number of items that a traversal yields: it is the caller's to
/// see that they agree wherever that is relied on.
#[derive(Copy)]
pub struct Mat<S>(pub S, pub usize);

impl<S: Copy> Clone for Mat<S> {
    fn clone(&self) -> (copy: Self)
        ensures
            copy == *self,
    {
        *self
    }
}

impl<S> Mat<S> where S: Iterable {
    /// Whether the length put in place is the one that the wrapped
    /// descriptor reports itself, so that nothing is lost by the wrapping.
    pub fn keeps_len(&self) -> (kept: bool)
        requires
            self.0.inv(),
        ensures
            kept <==> self.1 == self.0.reported_len(),
            self.0.len_is_exact() ==> (kept <==> self.len_is_exact()),
    {
        proof {
            if self.0.len_is_exact() {
                self.0.lemma_len_counts_items();
            }
        }
        self.1 == self.0.len()
    }
}

impl<S> Iterable for Mat<S> where S: Iterable {
    type Item = S::Item;

    type Iter = S::Iter;

    open spec fn inv(&self) -> bool {
        self.0.inv()
    }

    open spec fn stream(&self) -> Seq<S::Item> {
        self.0.stream()
    }

    open spec fn reported_len(&self) -> nat {
        self.1 as nat
    }

    open spec fn len_is_exact(&self) -> bool {
        self.1 == self.0.stream().len()
    }

    proof fn lemma_len_counts_items(&self) {
    }

    fn iter(&self) -> (it: S::Iter) {
        self.0.iter()
    }

    fn len(&self) -> (n: usize) {
        self.1
    }
}

/// The streams of the synthetic constraint system of [`dummy_r1cs_stream`].
pub type DummyR1CStream<F> = R1csStream<
    DiagonalMatrixStreamer<F>,
    DummyStreamer<F>,
    DummyStreamer<F>,
>;

/// The streams of a synthetic constraint system of `n` constraints: three
/// times the same diagonal matrix of entries `inv_e`, an assignment of `n`
/// times `e` whose last `n - 1` places are the witness, and products that are
/// `one` throughout.
pub fn dummy_r1cs_stream<F: Copy>(e: F, inv_e: F, one: F, n: usize) -> (r: DummyR1CStream<F>)
    requires
        1 <= n,
        2 * n <= usize::MAX,
    ensures
        r.a_colmaj.wf() && r.a_colmaj@ == diagonal(inv_e, n as nat),
        r.b_colmaj.wf() && r.b_colmaj@ == diagonal(inv_e, n as nat),
        r.c_colmaj.wf() && r.c_colmaj@ == diagonal(inv_e, n as nat),
        r.a_rowmaj.wf() && r.a_rowmaj@ == diagonal(inv_e, n as nat),
        r.b_rowmaj.wf() && r.b_rowmaj@ == diagonal(inv_e, n as nat),
        r.c_rowmaj.wf() && r.c_rowmaj@ == diagonal(inv_e, n as nat),
        r.witness@ == constant(e, (n - 1) as nat),
        r.z@ == constant(e, n as nat),
        r.z_a@ == constant(one, n as nat),
        r.z_b@ == constant(one, n as nat),
        r.z_c@ == constant(one, n as nat),
        r.nonzero == n,
        r.joint_len == n,
{
    R1csStream {
        a_colmaj: DiagonalMatrixStreamer::new(inv_e, n),
        b_colmaj: DiagonalMatrixStreamer::new(inv_e, n),
        c_colmaj: DiagonalMatrixStreamer::new(inv_e, n),
        a_rowmaj: DiagonalMatrixStreamer::new(inv_e, n),
        b_rowmaj: DiagonalMatrixStreamer::new(inv_e, n),
        c_rowmaj: DiagonalMatrixStreamer::new(inv_e, n),
        witness: DummyStreamer::new(e, n - 1),
        z: DummyStreamer::new(e, n),
        z_a: DummyStreamer::new(one, n),
        z_b: DummyStreamer::new(one, n),
        z_c: DummyStreamer::new(one, n),
        nonzero: n,
        joint_len: n,
    }
}

} // verus!
