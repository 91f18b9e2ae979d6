use vstd::prelude::*;

use std::collections::HashMap;

verus! {

broadcast use vstd::std_specs::hash::group_hash_axioms;

/// The subscribers of each topic, under a key that stands for the topic's
/// type, in the order they subscribed. `V` is a handle that may have to be
/// upgraded before it can deliver.
pub struct Broker<V> {
    pub topics: HashMap<u64, Vec<V>>,
}

/// The subscribers of `subs` whose flag in `live` is set, in order.
pub open spec fn kept<V>(subs: Seq<V>, live: Seq<bool>) -> Seq<V>
    decreases subs.len(),
{
    if subs.len() == 0 || live.len() == 0 {
        seq![]
    } else if live.last() {
        kept(subs.drop_last(), live.drop_last()).push(subs.last())
    } else {
        kept(subs.drop_last(), live.drop_last())
    }
}

impl<V> Broker<V> {
    /// The subscribers of `topic`, in the order they subscribed.
    pub open spec fn subscribers_of(&self, topic: u64) -> Seq<V> {
        if self.topics@.contains_key(topic) {
            self.topics@[topic]@
        } else {
            seq![]
        }
    }

    /// The topics of `self` other than `topic` are those of `other`.
    pub open spec fn same_elsewhere(&self, other: &Self, topic: u64) -> bool {
        forall|t: u64| t != topic ==> #[trigger] self.subscribers_of(t) == other.subscribers_of(t)
    }

    pub fn new() -> (r: Self)
        ensures
            forall|t: u64| #[trigger] r.subscribers_of(t) == Seq::<V>::empty(),
    {
        Broker { topics: HashMap::new() }
    }

    /// Adds `sub` as the last subscriber of `topic`.
    pub fn subscribe(&mut self, topic: u64, sub: V)
        ensures
            final(self).subscribers_of(topic) == old(self).subscribers_of(topic).push(sub),
            final(self).same_elsewhere(old(self), topic),
    {
        let mut list = match self.topics.remove(&topic) {
            Some(l) => l,
            None => Vec::new(),
        };
        list.push(sub);
        self.topics.insert(topic, list);
    }

    /// The subscribers of `topic`, in the order they subscribed.
    pub fn subscribers(&self, topic: u64) -> (r: Option<&Vec<V>>)
        ensures
            match r {
                Some(l) => l@ == self.subscribers_of(topic),
                None => self.subscribers_of(topic) == Seq::<V>::empty(),
            },
    {
        self.topics.get(&topic)
    }

    /// Forgets the subscribers of `topic` whose flag in `live` is unset (those
    /// that could no longer be reached), keeping the others in order.
    pub fn retain_live(&mut self, topic: u64, live: &Vec<bool>)
        requires
            live@.len() == old(self).subscribers_of(topic).len(),
        ensures
            final(self).subscribers_of(topic) == kept(old(self).subscribers_of(topic), live@),
            final(self).same_elsewhere(old(self), topic),
    {
        match self.topics.remove(&topic) {
            Some(list) => {
                let mut out: Vec<V> = Vec::new();
                let mut rest = list;
                let ghost all = rest@;
                let mut pending: Vec<V> = Vec::new();
                // move the subscribers out back to front, then restore the order
                let mut i: usize = rest.len();
                assert(all.take(i as int) =~= all);
                assert(live@.take(i as int) =~= live@);
                assert(pending@.reverse() =~= Seq::<V>::empty());
                while i > 0
                    invariant
                        i == rest@.len(),
                        i <= all.len(),
                        all.len() == live@.len(),
                        rest@ == all.take(i as int),
                        kept(all, live@) == kept(all.take(i as int), live@.take(i as int)) + pending@.reverse(),
                    decreases i,
                {
                    let ghost before = pending@;
                    let s = rest.pop().unwrap();
                    i = i - 1;
                    assert(all.take(i as int + 1).drop_last() =~= all.take(i as int));
                    assert(live@.take(i as int + 1).drop_last() =~= live@.take(i as int));
                    if live[i] {
                        pending.push(s);
                        assert(pending@.reverse() =~= seq![s] + before.reverse());
                    }
                }
                assert(kept(all.take(0), live@.take(0)) =~= Seq::<V>::empty());
                while pending.len() > 0
                    invariant
                        kept(all, live@) == out@ + pending@.reverse(),
                    decreases pending@.len(),
                {
                    let ghost before = pending@;
                    let s = pending.pop().unwrap();
                    out.push(s);
                    assert(before.reverse() =~= seq![s] + pending@.reverse());
                }
                assert(out@ =~= out@ + pending@.reverse());
                self.topics.insert(topic, out);
            },
            None => {},
        }
    }
}

} // verus!
