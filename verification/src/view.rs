//! A tiny component framework: stateless components that greet,
//! components that answer events with messages, and a view that holds
//! mounted components addressed by an id.

use vstd::prelude::*;
use vstd::string::*;
use vstd::view::View as VstdView;

verus! {

/// An input event handed to a component.
#[derive(Clone, Copy, Debug)]
pub enum Event {
    Click,
    Blur,
    Active,
    Submit,
    Key(char),
}

/// A component that can introduce itself.
pub trait StatelessComponent {
    /// The component's greeting.
    fn greet(&self) -> &'static str;
}

/// A component that answers an event with a message.
pub trait Component<Msg>: StatelessComponent {
    /// React to the event.
    fn on(&mut self, ev: Event) -> Msg;
}

/// A text label.
pub struct Text {
    pub text: String,
}

impl Default for Text {
    /// An empty label.
    fn default() -> (r: Self)
        ensures
            r.text@ == Seq::<char>::empty(),
    {
        Text { text: String::new() }
    }
}

impl StatelessComponent for Text {
    fn greet(&self) -> &'static str {
        "Hi"
    }
}

/// A view over mounted components, addressed by their id. At most one
/// component stands under each id: mounting under a taken id replaces
/// what stood there.
pub struct View<C> {
    components: Vec<(String, C)>,
}

impl<C> View<C> {
    /// The mounted components with their ids, in mounting order.
    pub closed spec fn spec_components(&self) -> Seq<(String, C)> {
        self.components@
    }

    /// Whether a component is mounted under the given id.
    pub open spec fn has_id(&self, id: Seq<char>) -> bool {
        exists|i: int|
            0 <= i < self.spec_components().len() && #[trigger] self.spec_components()[i].0@ == id
    }
}

impl<C> Default for View<C> {
    /// A view with nothing mounted.
    fn default() -> (r: Self)
        ensures
            r.spec_components() == Seq::<(String, C)>::empty(),
    {
        View { components: Vec::new() }
    }
}

/// The predicate holding of the entries whose id is not `id`.
pub open spec fn other_id<C>(id: Seq<char>) -> spec_fn((String, C)) -> bool {
    |p: (String, C)| p.0@ != id
}

/// An element of a filtered sequence is an element of the sequence it was
/// filtered from.
proof fn lemma_filter_membership<A>(s: Seq<A>, pred: spec_fn(A) -> bool, i: int)
    requires
        0 <= i < s.filter(pred).len(),
    ensures
        s.contains(s.filter(pred)[i]),
    decreases s.len(),
{
    reveal(Seq::filter);
    if s.len() > 0 {
        let sub = s.drop_last().filter(pred);
        if pred(s.last()) && i == sub.len() {
            assert(s.filter(pred)[i] == s.last());
            assert(s[s.len() - 1] == s.last());
        } else {
            lemma_filter_membership(s.drop_last(), pred, i);
            let j = choose|j: int| 0 <= j < s.drop_last().len() && s.drop_last()[j] == sub[i];
            assert(s[j] == s.filter(pred)[i]);
        }
    }
}

impl<C: StatelessComponent> View<C> {
    /// Mount `component` under `id`: every entry that stood under that id
    /// is removed, and the component is appended, so exactly one entry
    /// carries the id afterwards.
    pub fn mount(&mut self, id: &'static str, component: C)
        ensures
            final(self).has_id(id@),
            forall|x: Seq<char>| #[trigger]
                final(self).has_id(x) <==> (old(self).has_id(x) || x == id@),
            final(self).spec_components().last().0@ == id@,
            final(self).spec_components().last().1 == component,
            forall|i: int|
                0 <= i < final(self).spec_components().len() - 1
                    ==> #[trigger] final(self).spec_components()[i].0@ != id@,
    {
        let key = String::from_str(id);
        let ghost before = self.components@;
        let ghost pred = other_id::<C>(id@);
        let mut src_v: Vec<(String, C)> = Vec::new();
        core::mem::swap(&mut src_v, &mut self.components);
        let ghost orig = src_v@;
        let mut kept: Vec<(String, C)> = Vec::new();
        let ghost mut gi: int = 0;
        proof {
            reveal(Seq::filter);
            assert(kept@ =~= orig.take(0).filter(pred));
            assert(src_v@ =~= orig.skip(0));
        }
        while src_v.len() > 0
            invariant
                pred == other_id::<C>(id@),
                key@ == id@,
                0 <= gi <= orig.len(),
                src_v@ == orig.skip(gi),
                kept@ == orig.take(gi).filter(pred),
            decreases src_v@.len(),
        {
            let p = src_v.remove(0);
            proof {
                reveal(Seq::filter);
                assert(p == orig[gi]);
                assert(orig.take(gi + 1).drop_last() =~= orig.take(gi));
                assert(orig.take(gi + 1).last() == orig[gi]);
                assert(src_v@ =~= orig.skip(gi + 1));
            }
            if !p.0.eq(&key) {
                proof {
                    assert(pred(orig[gi]));
                }
                kept.push(p);
                proof {
                    assert(kept@ =~= orig.take(gi + 1).filter(pred));
                }
            } else {
                proof {
                    assert(!pred(orig[gi]));
                    assert(kept@ =~= orig.take(gi + 1).filter(pred));
                }
            }
            proof {
                gi = gi + 1;
            }
        }
        proof {
            assert(orig.take(orig.len() as int) =~= orig);
        }
        kept.push((key, component));
        self.components = kept;
        proof {
            let fseq = before.filter(pred);
            assert(self.spec_components() =~= fseq.push((key, component)));
            assert(self.spec_components().last() == (key, component));
            assert forall|i: int|
                0 <= i < self.spec_components().len() - 1 implies #[trigger] self.spec_components()[i].0@
                != id@ by {
                before.lemma_filter_pred(pred, i);
                assert(self.spec_components()[i] == fseq[i]);
            }
            assert forall|x: Seq<char>| #[trigger]
                self.has_id(x) <==> (old(self).has_id(x) || x == id@) by {
                if x == id@ {
                    assert(self.spec_components()[self.spec_components().len() - 1].0@ == id@);
                } else {
                    if self.has_id(x) {
                        let i = choose|i: int|
                            0 <= i < self.spec_components().len()
                                && #[trigger] self.spec_components()[i].0@ == x;
                        assert(i < fseq.len());
                        assert(self.spec_components()[i] == fseq[i]);
                        lemma_filter_membership(before, pred, i);
                        let j = choose|j: int| 0 <= j < before.len() && before[j] == fseq[i];
                        assert(old(self).spec_components()[j].0@ == x);
                    }
                    if old(self).has_id(x) {
                        let j = choose|j: int|
                            0 <= j < old(self).spec_components().len() && #[trigger] old(
                                self,
                            ).spec_components()[j].0@ == x;
                        assert(pred(before[j]));
                        before.lemma_filter_contains(pred, j);
                        let k = choose|k: int| 0 <= k < fseq.len() && fseq[k] == before[j];
                        assert(self.spec_components()[k].0@ == x);
                    }
                }
            }
            assert(self.has_id(id@));
        }
    }

    /// The greeting of the component mounted under `id`, when one is.
    pub fn greet(&self, id: &'static str) -> (r: Option<&'static str>)
        ensures
            r is Some <==> self.has_id(id@),
    {
        let key = String::from_str(id);
        let mut j: usize = 0;
        while j < self.components.len()
            invariant
                j <= self.components@.len(),
                key@ == id@,
                forall|i: int| 0 <= i < j ==> #[trigger] self.components@[i].0@ != id@,
            decreases self.components@.len() - j,
        {
            if self.components[j].0.eq(&key) {
                proof {
                    assert(self.spec_components()[j as int].0@ == id@);
                }
                return Some(self.components[j].1.greet());
            }
            j = j + 1;
        }
        None
    }
}

impl<C> View<C> {
    /// Hand the event to the component mounted under `id` and return its
    /// message, when such a component is mounted; the set of mounted ids
    /// does not change.
    pub fn on<Msg>(&mut self, id: &'static str, ev: Event) -> (r: Option<Msg>) where
        C: Component<Msg>

        ensures
            r is Some <==> old(self).has_id(id@),
            final(self).spec_components().len() == old(self).spec_components().len(),
            forall|i: int|
                0 <= i < final(self).spec_components().len()
                    ==> #[trigger] final(self).spec_components()[i].0
                    == old(self).spec_components()[i].0,
    {
        let key = String::from_str(id);
        let ghost before = self.components@;
        let mut j: usize = 0;
        while j < self.components.len()
            invariant
                j <= self.components@.len(),
                self.components@ == before,
                before == old(self).spec_components(),
                key@ == id@,
                forall|i: int| 0 <= i < j ==> #[trigger] before[i].0@ != id@,
            decreases self.components@.len() - j,
        {
            if self.components[j].0.eq(&key) {
                let mut pair = self.components.remove(j);
                let ghost popped = pair;
                let msg = pair.1.on(ev);
                let ghost handled = pair;
                self.components.insert(j, pair);
                proof {
                    assert(popped.0 == before[j as int].0);
                    assert(handled.0 == popped.0);
                    assert(before[j as int].0@ == id@);
                    assert(old(self).spec_components()[j as int].0@ == id@);
                    assert(self.components@ =~= before.subrange(0, j as int) + seq![handled]
                        + before.subrange(j + 1, before.len() as int));
                    assert forall|i: int|
                        0 <= i < self.components@.len() implies #[trigger] self.components@[i].0
                        == before[i].0 by {
                        if i < j {
                            assert(self.components@[i] == before[i]);
                        } else if i == j {
                            assert(self.components@[i] == handled);
                        } else {
                            assert(self.components@[i] == before[i]);
                        }
                    }
                }
                return Some(msg);
            }
            j = j + 1;
        }
        None
    }
}

} // verus!
