//! The contract that every stream satisfies.

pub mod dummy;
pub mod model;

use vstd::prelude::*;

verus! {

/// A single-use, forward-only cursor over the items of one stream.
pub trait Traversal {
    /// What the cursor yields.
    type Item;

    /// The cursor's internal consistency.
    spec fn inv(&self) -> bool;

    /// The items not yet yielded, next one first.
    spec fn remaining(&self) -> Seq<Self::Item>;

    /// Yields the next item, or `None` once the traversal is exhausted; an
    /// exhausted traversal stays exhausted.
    fn next(&mut self) -> (item: Option<Self::Item>)
        requires
            old(self).inv(),
        ensures
            final(self).inv(),
            old(self).remaining().len() == 0 ==> item is None && final(self).remaining()
                == old(self).remaining(),
            old(self).remaining().len() > 0 ==> item == Some(old(self).remaining()[0])
                && final(self).remaining() == old(self).remaining().skip(1),
    ;
}

/// An immutable description of a sequence, from which any number of
/// independent traversals can be started.
pub trait Iterable: Send + Sync {
    /// What a traversal yields.
    type Item;

    /// The cursor that `iter` hands out.
    type Iter: Traversal<Item = Self::Item>;

    /// The descriptor's internal consistency.
    spec fn inv(&self) -> bool;

    /// The items of a full traversal, in the order in which they come.
    spec fn stream(&self) -> Seq<Self::Item>;

    /// The length that `len` reports.
    spec fn reported_len(&self) -> nat;

    /// Whether the reported length is the stream's own, rather than one that
    /// a caller put in its place.
    spec fn len_is_exact(&self) -> bool;

    /// A descriptor that reports its own length reports the number of items
    /// that a full traversal yields.
    proof fn lemma_len_counts_items(&self)
        requires
            self.inv(),
            self.len_is_exact(),
        ensures
            self.reported_len() == self.stream().len(),
    ;

    /// Starts a fresh traversal at the first item.
    fn iter(&self) -> (it: Self::Iter)
        requires
            self.inv(),
        ensures
            it.inv(),
            it.remaining() == self.stream(),
    ;

    /// The length of the stream, without traversing it.
    fn len(&self) -> (n: usize)
        requires
            self.inv(),
        ensures
            n == self.reported_len(),
    ;

    /// Whether the stream reports no items.
    fn is_empty(&self) -> (empty: bool)
        requires
            self.inv(),
        ensures
            empty <==> self.reported_len() == 0,
    {
        self.len() == 0
    }
}

/// Traversals started from one descriptor agree: whichever two `iter` hands
/// out, both have the descriptor's stream ahead of them, item for item.
pub proof fn lemma_traversals_agree<S: Iterable>(d: &S, a: S::Iter, b: S::Iter)
    requires
        d.inv(),
        call_ensures(S::iter, (d,), a),
        call_ensures(S::iter, (d,), b),
    ensures
        a.remaining() == d.stream(),
        b.remaining() == d.stream(),
        a.remaining() == b.remaining(),
{
}

/// Drives a traversal to completion and gathers what it yields.
pub fn collect<I: Traversal>(it: &mut I) -> (items: Vec<I::Item>)
    requires
        old(it).inv(),
    ensures
        final(it).inv(),
        final(it).remaining().len() == 0,
        items@ == old(it).remaining(),
{
    let mut items: Vec<I::Item> = Vec::new();
    loop
        invariant
            it.inv(),
            items@ + it.remaining() == old(it).remaining(),
        ensures
            it.inv(),
            it.remaining().len() == 0,
            items@ == old(it).remaining(),
        decreases it.remaining().len(),
    {
        match it.next() {
            Some(item) => {
                items.push(item);
            },
            None => {
                break ;
            },
        }
    }
    items
}

} // verus!
