//! The registry of host functions that the page can call by name.
use vstd::prelude::*;
use crate::json::Json;
use crate::rpc::{InvokeMessage, decode_invoke, invoke_of};

verus! {

/// Host callbacks by the name under which the page calls them. A name has at
/// most one callback; binding it again replaces the earlier one.
pub struct Bindings<C> {
    entries: Vec<(String, C)>,
    map: Ghost<Map<Seq<char>, C>>,
}

impl<C> View for Bindings<C> {
    type V = Map<Seq<char>, C>;

    closed spec fn view(&self) -> Map<Seq<char>, C> {
        self.map@
    }
}

impl<C> Bindings<C> {
    /// Names are unique among the entries, and the entries are the map.
    pub closed spec fn wf(&self) -> bool {
        &&& forall|i: int, j: int|
            0 <= i < j < self.entries.len() ==> self.entries@[i].0@ != self.entries@[j].0@
        &&& forall|i: int|
            0 <= i < self.entries.len() ==> #[trigger] self.map@.contains_key(self.entries@[i].0@)
                && self.map@[self.entries@[i].0@] == self.entries@[i].1
        &&& forall|k: Seq<char>|
            #[trigger] self.map@.contains_key(k) ==> exists|i: int|
                0 <= i < self.entries.len() && self.entries@[i].0@ == k
    }

    /// An empty registry.
    pub fn new() -> (r: Self)
        ensures
            r.wf(),
            r@ == Map::<Seq<char>, C>::empty(),
    {
        Bindings { entries: Vec::new(), map: Ghost(Map::empty()) }
    }

    fn position(&self, name: &String) -> (r: Option<usize>)
        requires
            self.wf(),
        ensures
            match r {
                Some(i) => i < self.entries.len() && self.entries@[i as int].0@ == name@
                    && self@.contains_key(name@) && self@[name@] == self.entries@[i as int].1,
                None => !self@.contains_key(name@),
            },
    {
        let mut i: usize = 0;
        while i < self.entries.len()
            invariant
                self.wf(),
                i <= self.entries.len(),
                forall|j: int| 0 <= j < i ==> self.entries@[j].0@ != name@,
            decreases self.entries.len() - i,
        {
            if self.entries[i].0 == *name {
                assert(self.map@.contains_key(self.entries@[i as int].0@));
                return Some(i);
            }
            i = i + 1;
        }
        None
    }

    /// Binds `name` to `callback`, replacing what was bound to it before.
    pub fn bind(&mut self, name: String, callback: C)
        requires
            old(self).wf(),
        ensures
            final(self).wf(),
            final(self)@ == old(self)@.insert(name@, callback),
    {
        let ghost key = name@;
        let ghost cb = callback;
        match self.position(&name) {
            Some(i) => {
                self.entries.set(i, (name, callback));
                self.map = Ghost(self.map@.insert(key, cb));
                assert forall|j: int| 0 <= j < self.entries.len() implies #[trigger] self.map@.contains_key(
                    self.entries@[j].0@,
                ) && self.map@[self.entries@[j].0@] == self.entries@[j].1 by {
                    if j != i {
                        assert(old(self).entries@[j].0@ != key);
                    }
                }
                assert forall|k: Seq<char>| #[trigger] self.map@.contains_key(k) implies exists|j: int|
                    0 <= j < self.entries.len() && self.entries@[j].0@ == k by {
                    if k != key {
                        let j = choose|j: int|
                            0 <= j < old(self).entries.len() && old(self).entries@[j].0@ == k;
                        assert(self.entries@[j].0@ == k);
                    } else {
                        assert(self.entries@[i as int].0@ == k);
                    }
                }
            },
            None => {
                self.entries.push((name, callback));
                self.map = Ghost(self.map@.insert(key, cb));
                let ghost n = self.entries.len() - 1;
                assert forall|j: int| 0 <= j < n implies old(self).entries@[j].0@ != key by {
                    assert(old(self).map@.contains_key(old(self).entries@[j].0@));
                }
                assert forall|k: Seq<char>| #[trigger] self.map@.contains_key(k) implies exists|j: int|
                    0 <= j < self.entries.len() && self.entries@[j].0@ == k by {
                    if k != key {
                        let j = choose|j: int|
                            0 <= j < old(self).entries.len() && old(self).entries@[j].0@ == k;
                        assert(self.entries@[j].0@ == k);
                    } else {
                        assert(self.entries@[n].0@ == k);
                    }
                }
            },
        }
    }

    /// The callback bound to `name`, if any.
    pub fn get(&self, name: &String) -> (r: Option<&C>)
        requires
            self.wf(),
        ensures
            match r {
                Some(c) => self@.contains_key(name@) && *c == self@[name@],
                None => !self@.contains_key(name@),
            },
    {
        match self.position(name) {
            Some(i) => Some(&self.entries[i].1),
            None => None,
        }
    }

    /// Binding a name again leaves only the later callback under it: the
    /// registry is the same as if the earlier binding had never been made.
    pub proof fn lemma_rebind(bound: Map<Seq<char>, C>, name: Seq<char>, first: C, second: C)
        ensures
            bound.insert(name, first).insert(name, second) == bound.insert(name, second),
            bound.insert(name, first).insert(name, second)[name] == second,
    {
        assert(bound.insert(name, first).insert(name, second) =~= bound.insert(name, second));
    }

    /// Reads the page call in `payload` and keeps it only when its method is
    /// bound here. A payload that is no page call, or names an unbound
    /// method, gives `None`; the registry is never changed.
    pub fn route(&self, payload: Json) -> (r: Option<InvokeMessage>)
        requires
            self.wf(),
        ensures
            r is Some <==> (invoke_of(payload) matches Some(m) && self@.contains_key(m.1)),
            r matches Some(m) ==> invoke_of(payload) == Some(m@),
    {
        match decode_invoke(payload) {
            Some(m) => match self.position(&m.method) {
                Some(_) => Some(m),
                None => None,
            },
            None => None,
        }
    }
}

} // verus!
