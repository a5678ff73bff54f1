//! The subscription registry: the desired subscriptions, at most one per
//! (topic, kind) key, in the order their keys were first added.
use vstd::prelude::*;
use vstd::pervasive::VecAdditionalExecFns;

use crate::model::{MessageType, Subscription, Topic};

verus! {

/// No two entries share a (topic, kind) key.
pub open spec fn keys_unique(s: Seq<Subscription>) -> bool {
    forall|i: int, j: int| 0 <= i < j < s.len() ==> s[i].key() != s[j].key()
}

/// Some entry has the key `k`.
pub open spec fn has_key(s: Seq<Subscription>, k: (Topic, MessageType)) -> bool {
    exists|i: int| 0 <= i < s.len() && s[i].key() == k
}

/// The position of the entry with key `k`, when there is one.
pub open spec fn key_position(s: Seq<Subscription>, k: (Topic, MessageType)) -> int {
    choose|i: int| 0 <= i < s.len() && s[i].key() == k
}

/// `x` replaces the entry with its key, in place, or is appended.
pub open spec fn upsert(s: Seq<Subscription>, x: Subscription) -> Seq<Subscription> {
    if has_key(s, x.key()) {
        s.update(key_position(s, x.key()), x)
    } else {
        s.push(x)
    }
}

/// The entry with key `k` is taken out, when there is one.
pub open spec fn remove_key(s: Seq<Subscription>, k: (Topic, MessageType)) -> Seq<Subscription> {
    if has_key(s, k) {
        s.remove(key_position(s, k))
    } else {
        s
    }
}

/// One request made of the registry.
pub enum RegistryChange {
    Subscribe(Subscription),
    Unsubscribe(Subscription),
}

impl RegistryChange {
    pub open spec fn key(self) -> (Topic, MessageType) {
        match self {
            RegistryChange::Subscribe(x) => x.key(),
            RegistryChange::Unsubscribe(x) => x.key(),
        }
    }
}

pub open spec fn apply_change(s: Seq<Subscription>, c: RegistryChange) -> Seq<Subscription> {
    match c {
        RegistryChange::Subscribe(x) => upsert(s, x),
        RegistryChange::Unsubscribe(x) => remove_key(s, x.key()),
    }
}

/// The registry after the changes `cs`, made in order, starting from `s`.
pub open spec fn apply_changes(s: Seq<Subscription>, cs: Seq<RegistryChange>) -> Seq<Subscription>
    decreases cs.len(),
{
    if cs.len() == 0 {
        s
    } else {
        apply_change(apply_changes(s, cs.drop_last()), cs.last())
    }
}

/// The registry after subscribing to each of `xs` in order.
pub open spec fn add_all(s: Seq<Subscription>, xs: Seq<Subscription>) -> Seq<Subscription>
    decreases xs.len(),
{
    if xs.len() == 0 {
        s
    } else {
        upsert(add_all(s, xs.drop_last()), xs.last())
    }
}

/// The registry after unsubscribing from each of `xs` in order.
pub open spec fn remove_all(s: Seq<Subscription>, xs: Seq<Subscription>) -> Seq<Subscription>
    decreases xs.len(),
{
    if xs.len() == 0 {
        s
    } else {
        remove_key(remove_all(s, xs.drop_last()), xs.last().key())
    }
}

/// The last of `cs` that is about key `k`, if any.
pub open spec fn last_change(cs: Seq<RegistryChange>, k: (Topic, MessageType)) -> Option<
    RegistryChange,
>
    decreases cs.len(),
{
    if cs.len() == 0 {
        None
    } else if cs.last().key() == k {
        Some(cs.last())
    } else {
        last_change(cs.drop_last(), k)
    }
}

proof fn lemma_position(s: Seq<Subscription>, i: int)
    requires
        keys_unique(s),
        0 <= i < s.len(),
    ensures
        has_key(s, s[i].key()),
        key_position(s, s[i].key()) == i,
{
    assert(0 <= i < s.len() && s[i].key() == s[i].key());
}

/// What an upsert keeps: its keys are the old ones and that of `x`; the
/// entry under `x`'s key is `x`, the others are old entries.
proof fn lemma_upsert(s: Seq<Subscription>, x: Subscription)
    requires
        keys_unique(s),
    ensures
        keys_unique(upsert(s, x)),
        forall|k| has_key(upsert(s, x), k) <==> (has_key(s, k) || k == x.key()),
        forall|i: int|
            0 <= i < upsert(s, x).len() ==> {
                ||| upsert(s, x)[i] == x
                ||| (upsert(s, x)[i].key() != x.key() && s.contains(upsert(s, x)[i]))
            },
        forall|j: int| 0 <= j < s.len() && s[j].key() != x.key() ==> upsert(s, x).contains(s[j]),
{
    let r = upsert(s, x);
    if has_key(s, x.key()) {
        let p = key_position(s, x.key());
        assert forall|k| has_key(r, k) <==> (has_key(s, k) || k == x.key()) by {
            if has_key(s, k) {
                let i = choose|i: int| 0 <= i < s.len() && s[i].key() == k;
                assert(r[i].key() == k);
            }
            if k == x.key() {
                assert(r[p].key() == k);
            }
            if has_key(r, k) {
                let i = choose|i: int| 0 <= i < r.len() && r[i].key() == k;
                assert(s[i].key() == k || i == p);
            }
        }
        assert forall|i: int| 0 <= i < r.len() implies {
            ||| r[i] == x
            ||| (r[i].key() != x.key() && s.contains(r[i]))
        } by {
            if i != p {
                assert(s[i] == r[i]);
            }
        }
        assert forall|j: int| 0 <= j < s.len() && s[j].key() != x.key() implies r.contains(s[j]) by {
            assert(r[j] == s[j]);
        }
    } else {
        assert forall|k| has_key(r, k) <==> (has_key(s, k) || k == x.key()) by {
            if has_key(s, k) {
                let i = choose|i: int| 0 <= i < s.len() && s[i].key() == k;
                assert(r[i].key() == k);
            }
            if k == x.key() {
                assert(r[s.len() as int].key() == k);
            }
        }
        assert forall|i: int| 0 <= i < r.len() implies {
            ||| r[i] == x
            ||| (r[i].key() != x.key() && s.contains(r[i]))
        } by {
            if i < s.len() {
                assert(s[i] == r[i]);
            }
        }
        assert forall|j: int| 0 <= j < s.len() && s[j].key() != x.key() implies r.contains(s[j]) by {
            assert(r[j] == s[j]);
        }
    }
}

/// What a removal keeps: the old keys but `k`, each with its old entry.
proof fn lemma_remove_key(s: Seq<Subscription>, k: (Topic, MessageType))
    requires
        keys_unique(s),
    ensures
        keys_unique(remove_key(s, k)),
        forall|k2| has_key(remove_key(s, k), k2) <==> (has_key(s, k2) && k2 != k),
        forall|i: int|
            0 <= i < remove_key(s, k).len() ==> s.contains(remove_key(s, k)[i]),
{
    let r = remove_key(s, k);
    if has_key(s, k) {
        let p = key_position(s, k);
        assert forall|i: int| 0 <= i < r.len() implies s.contains(r[i]) by {
            if i < p {
                assert(s[i] == r[i]);
            } else {
                assert(s[i + 1] == r[i]);
            }
        }
        assert forall|k2| has_key(r, k2) <==> (has_key(s, k2) && k2 != k) by {
            if has_key(s, k2) && k2 != k {
                let i = choose|i: int| 0 <= i < s.len() && s[i].key() == k2;
                if i < p {
                    assert(r[i].key() == k2);
                } else {
                    assert(r[i - 1].key() == k2);
                }
            }
            if has_key(r, k2) {
                let i = choose|i: int| 0 <= i < r.len() && r[i].key() == k2;
                if i < p {
                    assert(s[i].key() == k2);
                } else {
                    assert(s[i + 1].key() == k2);
                }
            }
        }
    }
}

/// After any sequence of subscribe and unsubscribe requests made of an empty
/// registry, the registry holds no two entries under one key; it holds an
/// entry under a key exactly when the last request about that key was a
/// subscribe, and that entry is the subscription of that request.
pub proof fn lemma_last_subscribe_wins(cs: Seq<RegistryChange>)
    ensures
        keys_unique(apply_changes(Seq::empty(), cs)),
        forall|k| #[trigger]
            has_key(apply_changes(Seq::empty(), cs), k) <==> last_change(cs, k) matches Some(
                RegistryChange::Subscribe(_),
            ),
        forall|i: int|
            0 <= i < apply_changes(Seq::empty(), cs).len() ==> last_change(
                cs,
                #[trigger] apply_changes(Seq::empty(), cs)[i].key(),
            ) == Some(RegistryChange::Subscribe(apply_changes(Seq::empty(), cs)[i])),
    decreases cs.len(),
{
    if cs.len() > 0 {
        let prev = cs.drop_last();
        lemma_last_subscribe_wins(prev);
        let s = apply_changes(Seq::empty(), prev);
        let r = apply_changes(Seq::empty(), cs);
        let c = cs.last();
        match c {
            RegistryChange::Subscribe(x) => {
                lemma_upsert(s, x);
                assert(r == upsert(s, x));
                assert forall|k| #[trigger] has_key(r, k) <==> last_change(cs, k) matches Some(
                    RegistryChange::Subscribe(_),
                ) by {
                    assert(has_key(s, k) <==> last_change(prev, k) matches Some(
                        RegistryChange::Subscribe(_),
                    ));
                    if k != c.key() {
                        assert(last_change(cs, k) == last_change(prev, k));
                    }
                }

                assert forall|i: int| 0 <= i < r.len() implies last_change(cs, r[i].key())
                    == Some(RegistryChange::Subscribe(r[i])) by {
                    if r[i] != x {
                        let j = choose|j: int| 0 <= j < s.len() && s[j] == r[i];
                        assert(last_change(prev, s[j].key()) == Some(
                            RegistryChange::Subscribe(s[j]),
                        ));
                    }
                }
            },
            RegistryChange::Unsubscribe(x) => {
                lemma_remove_key(s, x.key());
                assert(r == remove_key(s, x.key()));
                assert forall|k| #[trigger] has_key(r, k) <==> last_change(cs, k) matches Some(
                    RegistryChange::Subscribe(_),
                ) by {
                    assert(has_key(s, k) <==> last_change(prev, k) matches Some(
                        RegistryChange::Subscribe(_),
                    ));
                    if k != c.key() {
                        assert(last_change(cs, k) == last_change(prev, k));
                    }
                }

                assert forall|i: int| 0 <= i < r.len() implies last_change(cs, r[i].key())
                    == Some(RegistryChange::Subscribe(r[i])) by {
                    let j = choose|j: int| 0 <= j < s.len() && s[j] == r[i];
                    assert(last_change(prev, s[j].key()) == Some(RegistryChange::Subscribe(s[j])));
                    assert(has_key(r, r[i].key()));
                }
            },
        }
    }
}

/// The requests that one `add` call makes: a subscribe per item, in order.
pub open spec fn subscribes(xs: Seq<Subscription>) -> Seq<RegistryChange> {
    xs.map_values(|x: Subscription| RegistryChange::Subscribe(x))
}

/// The requests that one `remove` call makes: an unsubscribe per item, in
/// order.
pub open spec fn unsubscribes(xs: Seq<Subscription>) -> Seq<RegistryChange> {
    xs.map_values(|x: Subscription| RegistryChange::Unsubscribe(x))
}

/// Requests made in two runs have the effect of the one run of both.
pub proof fn lemma_apply_changes_append(
    s: Seq<Subscription>,
    a: Seq<RegistryChange>,
    b: Seq<RegistryChange>,
)
    ensures
        apply_changes(s, a + b) == apply_changes(apply_changes(s, a), b),
    decreases b.len(),
{
    if b.len() == 0 {
        assert(a + b =~= a);
    } else {
        lemma_apply_changes_append(s, a, b.drop_last());
        assert((a + b).drop_last() =~= a + b.drop_last());
        assert((a + b).last() == b.last());
    }
}

/// An `add` call is the run of its subscribes, and a `remove` call the run
/// of its unsubscribes; so a sequence of calls is the run of all their
/// requests, which the law of the last request covers.
pub proof fn lemma_calls_are_changes(s: Seq<Subscription>, xs: Seq<Subscription>)
    ensures
        add_all(s, xs) == apply_changes(s, subscribes(xs)),
        remove_all(s, xs) == apply_changes(s, unsubscribes(xs)),
    decreases xs.len(),
{
    if xs.len() > 0 {
        lemma_calls_are_changes(s, xs.drop_last());
        assert(subscribes(xs).drop_last() =~= subscribes(xs.drop_last()));
        assert(unsubscribes(xs).drop_last() =~= unsubscribes(xs.drop_last()));
    }
}

/// Upserting an entry that is already present changes nothing.
proof fn lemma_upsert_present(t: Seq<Subscription>, x: Subscription)
    requires
        keys_unique(t),
        t.contains(x),
    ensures
        upsert(t, x) == t,
{
    let i = choose|i: int| 0 <= i < t.len() && t[i] == x;
    lemma_position(t, i);
    assert(upsert(t, x) =~= t);
}

/// Subscribing to distinct keys leaves every one of them present.
proof fn lemma_add_all_contains(s: Seq<Subscription>, xs: Seq<Subscription>)
    requires
        keys_unique(s),
        keys_unique(xs),
    ensures
        keys_unique(add_all(s, xs)),
        forall|j: int| 0 <= j < xs.len() ==> add_all(s, xs).contains(#[trigger] xs[j]),
    decreases xs.len(),
{
    if xs.len() > 0 {
        let prev = xs.drop_last();
        lemma_add_all_contains(s, prev);
        let t = add_all(s, prev);
        lemma_upsert(t, xs.last());
        assert forall|j: int| 0 <= j < xs.len() implies add_all(s, xs).contains(xs[j]) by {
            if j < xs.len() - 1 {
                assert(prev[j] == xs[j]);
                let p = choose|p: int| 0 <= p < t.len() && t[p] == xs[j];
                assert(t[p].key() != xs.last().key());
            } else {
                let r = add_all(s, xs);
                let k = xs.last().key();
                assert(has_key(r, k));
                let p = choose|p: int| 0 <= p < r.len() && r[p].key() == k;
                assert(r[p] == xs.last());
            }
        }
    }
}

/// Subscribing to entries that are all present changes nothing.
proof fn lemma_add_all_present(t: Seq<Subscription>, xs: Seq<Subscription>)
    requires
        keys_unique(t),
        forall|j: int| 0 <= j < xs.len() ==> t.contains(#[trigger] xs[j]),
    ensures
        add_all(t, xs) == t,
    decreases xs.len(),
{
    if xs.len() > 0 {
        let prev = xs.drop_last();
        assert forall|j: int| 0 <= j < prev.len() implies t.contains(prev[j]) by {
            assert(prev[j] == xs[j]);
        }
        lemma_add_all_present(t, prev);
        assert(t.contains(xs[xs.len() - 1]));
        lemma_upsert_present(t, xs.last());
    }
}

/// Replaying a snapshot (distinct keys) onto a server-side subscription set
/// a second time leaves the set as the first replay left it: subscribing
/// overwrites, it does not add.
pub proof fn lemma_replay_idempotent(server: Seq<Subscription>, snapshot: Seq<Subscription>)
    requires
        keys_unique(server),
        keys_unique(snapshot),
    ensures
        add_all(add_all(server, snapshot), snapshot) == add_all(server, snapshot),
{
    lemma_add_all_contains(server, snapshot);
    lemma_add_all_present(add_all(server, snapshot), snapshot);
}

/// The desired subscriptions, keyed by (topic, kind).
pub struct Registry {
    entries: Vec<Subscription>,
}

impl View for Registry {
    type V = Seq<Subscription>;

    closed spec fn view(&self) -> Seq<Subscription> {
        self.entries@
    }
}

impl Registry {
    pub open spec fn wf(&self) -> bool {
        keys_unique(self@)
    }

    /// An empty registry.
    pub fn new() -> (r: Registry)
        ensures
            r.wf(),
            r@ == Seq::<Subscription>::empty(),
    {
        Registry { entries: Vec::new() }
    }

    pub fn len(&self) -> (r: usize)
        ensures
            r == self@.len(),
    {
        self.entries.len()
    }

    pub fn is_empty(&self) -> (r: bool)
        ensures
            r == (self@.len() == 0),
    {
        self.entries.len() == 0
    }

    /// The position of the entry with the given key.
    pub fn position(&self, topic: Topic, kind: MessageType) -> (r: Option<usize>)
        requires
            self.wf(),
        ensures
            match r {
                Some(i) => i < self@.len() && key_position(self@, (topic, kind)) == i
                    && has_key(self@, (topic, kind)),
                None => !has_key(self@, (topic, kind)),
            },
    {
        let mut i: usize = 0;
        while i < self.entries.len()
            invariant
                self.wf(),
                i <= self@.len(),
                forall|j: int| 0 <= j < i ==> self@[j].key() != (topic, kind),
            decreases self@.len() - i,
        {
            if self.entries[i].topic == topic && self.entries[i].subscription_type == kind {
                proof {
                    lemma_position(self@, i as int);
                }
                return Some(i);
            }
            i = i + 1;
        }
        None
    }

    /// Subscribes to `x`: it replaces the entry with its key, in place, or
    /// is appended.
    pub fn upsert(&mut self, x: Subscription)
        requires
            old(self).wf(),
        ensures
            final(self).wf(),
            final(self)@ == upsert(old(self)@, x),
    {
        proof {
            lemma_upsert(self@, x);
        }
        match self.position(x.topic, x.subscription_type) {
            Some(i) => self.entries.set(i, x),
            None => self.entries.push(x),
        }
    }

    /// Unsubscribes from the key of `x`; its filter and credentials play no
    /// part, and a key that is not present is no error.
    pub fn remove_one(&mut self, x: &Subscription)
        requires
            old(self).wf(),
        ensures
            final(self).wf(),
            final(self)@ == remove_key(old(self)@, x.key()),
    {
        proof {
            lemma_remove_key(self@, x.key());
        }
        match self.position(x.topic, x.subscription_type) {
            Some(i) => {
                self.entries.remove(i);
            },
            None => {},
        }
    }

    /// Subscribes to each of `subs`, in order.
    pub fn add(&mut self, subs: Vec<Subscription>)
        requires
            old(self).wf(),
        ensures
            final(self).wf(),
            final(self)@ == add_all(old(self)@, subs@),
    {
        let ghost start = self@;
        let mut i: usize = 0;
        while i < subs.len()
            invariant
                self.wf(),
                i <= subs@.len(),
                self@ == add_all(start, subs@.subrange(0, i as int)),
            decreases subs@.len() - i,
        {
            let x = subs[i].cloned();
            self.upsert(x);
            proof {
                let t = subs@.subrange(0, i as int + 1);
                assert(t.drop_last() =~= subs@.subrange(0, i as int));
            }
            i = i + 1;
        }
        assert(subs@.subrange(0, subs@.len() as int) =~= subs@);
    }

    /// Unsubscribes from the key of each of `subs`, in order.
    pub fn remove(&mut self, subs: &Vec<Subscription>)
        requires
            old(self).wf(),
        ensures
            final(self).wf(),
            final(self)@ == remove_all(old(self)@, subs@),
    {
        let ghost start = self@;
        let mut i: usize = 0;
        while i < subs.len()
            invariant
                self.wf(),
                i <= subs@.len(),
                self@ == remove_all(start, subs@.subrange(0, i as int)),
            decreases subs@.len() - i,
        {
            self.remove_one(&subs[i]);
            proof {
                let t = subs@.subrange(0, i as int + 1);
                assert(t.drop_last() =~= subs@.subrange(0, i as int));
            }
            i = i + 1;
        }
        assert(subs@.subrange(0, subs@.len() as int) =~= subs@);
    }

    /// The entries, in registry order, for replay after a reconnect.
    pub fn snapshot(&self) -> (r: Vec<Subscription>)
        ensures
            r@ == self@,
    {
        let mut out: Vec<Subscription> = Vec::new();
        let mut i: usize = 0;
        while i < self.entries.len()
            invariant
                i <= self@.len(),
                out@ == self@.subrange(0, i as int),
            decreases self@.len() - i,
        {
            out.push(self.entries[i].cloned());
            i = i + 1;
        }
        out
    }

    /// The entry at position `i`.
    pub fn entry(&self, i: usize) -> (r: &Subscription)
        requires
            i < self@.len(),
        ensures
            *r == self@[i as int],
    {
        &self.entries[i]
    }
}

} // verus!
