//! A singly linked list with a higher-order fold and a length computed
//! through it.

use vstd::prelude::*;

verus! {

/// A singly linked list of values.
#[derive(Debug)]
pub enum List<T> {
    Nil,
    Cons(Box<Item<T>>),
}

/// One list node: a value and the rest of the list.
#[derive(Debug)]
pub struct Item<T> {
    pub val: T,
    pub next: List<T>,
}

impl<T> List<T> {
    /// The sequence of values the list holds, front first.
    pub open spec fn seq(self) -> Seq<T>
        decreases self,
    {
        match self {
            List::Nil => Seq::empty(),
            List::Cons(item) => seq![item.val] + item.next.seq(),
        }
    }

    /// The chain of reducer calls can be made: each call's precondition
    /// holds, whatever the earlier calls returned.
    pub open spec fn reduce_pre<U, F: Fn(&List<T>, U) -> U>(&self, acc: U, reducer: F) -> bool
        decreases *self,
    {
        match *self {
            List::Nil => true,
            List::Cons(item) => call_requires(reducer, (self, acc)) && forall|m: U|
                #[trigger] call_ensures(reducer, (self, acc), m) ==> item.next.reduce_pre(
                    m,
                    reducer,
                ),
        }
    }

    /// `r` is a possible result of folding `reducer` over the list's
    /// nodes, threading the accumulator from the front.
    pub open spec fn reduce_rel<U, F: Fn(&List<T>, U) -> U>(&self, acc: U, reducer: F, r: U) -> bool
        decreases *self,
    {
        match *self {
            List::Nil => r == acc,
            List::Cons(item) => exists|m: U|
                #[trigger] call_ensures(reducer, (self, acc), m) && item.next.reduce_rel(
                    m,
                    reducer,
                    r,
                ),
        }
    }

    /// Fold `reducer` over the list's nodes from the front, starting from
    /// the accumulator `acc`.
    pub fn reduce<U, F: Fn(&List<T>, U) -> U>(&self, acc: U, reducer: F) -> (r: U)
        requires
            self.reduce_pre(acc, reducer),
        ensures
            self.reduce_rel(acc, reducer, r),
        decreases *self,
    {
        match self {
            List::Nil => acc,
            List::Cons(item) => {
                let mid = reducer(self, acc);
                item.next.reduce(mid, reducer)
            }
        }
    }

    /// The number of values the list holds, counted by folding an
    /// incrementing reducer over its nodes.
    pub fn len(&self) -> (r: usize)
        requires
            self.seq().len() <= usize::MAX,
        ensures
            r == self.seq().len(),
    {
        let counter = |_l: &List<T>, acc: usize| -> (r: usize)
            requires
                acc < usize::MAX,
            ensures
                r == acc + 1,
            { acc + 1 };
        proof {
            lemma_count_pre(self, 0, counter);
        }
        let n = self.reduce(0, counter);
        proof {
            lemma_count_rel(self, 0, counter, n);
        }
        n
    }
}

/// A reducer that increments its accumulator by one can be folded over
/// any list short enough that the count stays in range.
proof fn lemma_count_pre<T, F: Fn(&List<T>, usize) -> usize>(l: &List<T>, acc: usize, f: F)
    requires
        forall|l2: &List<T>, a2: usize| a2 < usize::MAX ==> #[trigger] call_requires(f, (l2, a2)),
        forall|l2: &List<T>, a2: usize, m: usize|
            #[trigger] call_ensures(f, (l2, a2), m) ==> m == a2 + 1,
        acc + l.seq().len() <= usize::MAX,
    ensures
        l.reduce_pre(acc, f),
    decreases *l,
{
    match l {
        List::Nil => {}
        List::Cons(item) => {
            assert(l.seq().len() == 1 + item.next.seq().len());
            assert forall|m: usize| #[trigger] call_ensures(f, (l, acc), m) implies item
                .next.reduce_pre(m, f) by {
                lemma_count_pre(&item.next, m, f);
            }
        }
    }
}

/// Folding an incrementing reducer over a list counts its nodes.
proof fn lemma_count_rel<T, F: Fn(&List<T>, usize) -> usize>(l: &List<T>, acc: usize, f: F, r: usize)
    requires
        forall|l2: &List<T>, a2: usize, m: usize|
            #[trigger] call_ensures(f, (l2, a2), m) ==> m == a2 + 1,
        l.reduce_rel(acc, f, r),
    ensures
        r == acc + l.seq().len(),
    decreases *l,
{
    match l {
        List::Nil => {}
        List::Cons(item) => {
            assert(l.seq().len() == 1 + item.next.seq().len());
            let m = choose|m: usize|
                #[trigger] call_ensures(f, (l, acc), m) && item.next.reduce_rel(m, f, r);
            lemma_count_rel(&item.next, m, f, r);
        }
    }
}

} // verus!
