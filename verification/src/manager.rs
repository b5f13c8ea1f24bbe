//! Multi-client manager: a keyed registry of independent client sessions.
//!
//! Each entry maps an application-chosen identifier to one client value;
//! identifiers are unique, spawning a taken identifier fails and changes
//! nothing, and shutdown removes exactly the named entry. No state is
//! shared across entries. The stored value is a type parameter: the
//! unverified shell keeps its shared handles in it, while every decision
//! about the registry itself is made here.

use vstd::prelude::*;
use vstd::std_specs::vec::vec_index;

use crate::error::Error;
use crate::text::str_eq;

verus! {

/// Unique identifier for a client.
pub type ClientId = String;

/// Registry of independent client sessions, keyed by identifier.
pub struct WhatsAppManager<V> {
    entries: Vec<(String, V)>,
}

impl<V> WhatsAppManager<V> {
    /// The registered entries, in insertion order.
    pub closed spec fn entries_spec(&self) -> Seq<(String, V)> {
        self.entries@
    }

    /// The identifier of the entry at one position.
    pub open spec fn key_at(&self, i: int) -> Seq<char> {
        self.entries_spec()[i].0@
    }

    /// Whether some entry is registered under this identifier.
    pub open spec fn contains_spec(&self, id: Seq<char>) -> bool {
        exists|i: int| 0 <= i < self.entries_spec().len() && self.key_at(i) == id
    }

    /// Identifiers are pairwise distinct.
    pub open spec fn wf(&self) -> bool {
        forall|i: int, j: int|
            0 <= i < j < self.entries_spec().len() ==> self.key_at(i) != self.key_at(j)
    }

    /// An empty manager.
    pub fn new() -> (r: Self)
        ensures
            r.wf(),
            r.entries_spec() == Seq::<(String, V)>::empty(),
    {
        WhatsAppManager { entries: Vec::new() }
    }

    /// The position of the entry registered under `id`, if any.
    fn find_index(&self, id: &str) -> (r: Option<usize>)
        ensures
            match r {
                Some(i) => 0 <= i < self.entries_spec().len() && self.key_at(i as int) == id@,
                None => !self.contains_spec(id@),
            },
    {
        let n = self.entries.len();
        let mut i: usize = 0;
        while i < n
            invariant
                n == self.entries_spec().len(),
                0 <= i <= n,
                forall|j: int| 0 <= j < i ==> self.key_at(j) != id@,
            decreases n - i,
        {
            if str_eq(vec_index(&self.entries, i).0.as_str(), id) {
                return Some(i);
            }
            i = i + 1;
        }
        None
    }

    /// Register a new client under `id`.
    ///
    /// Fails, and registers nothing, exactly when `id` is already taken;
    /// otherwise the entry is appended.
    pub fn spawn(&mut self, id: String, client: V) -> (r: Result<(), Error>)
        requires
            old(self).wf(),
        ensures
            final(self).wf(),
            r is Ok <==> !old(self).contains_spec(id@),
            old(self).contains_spec(id@) ==> {
                &&& r matches Err(Error::Init(_))
                &&& final(self).entries_spec() == old(self).entries_spec()
            },
            !old(self).contains_spec(id@) ==> final(self).entries_spec() == old(
                self,
            ).entries_spec().push((id, client)),
    {
        match self.find_index(id.as_str()) {
            Some(_) => {
                let mut msg: String = "Client ".to_owned();
                msg.append(id.as_str());
                msg.append(" already exists");
                Err(Error::Init(msg))
            },
            None => {
                let ghost pre = self.entries@;
                let ghost gid = id@;
                self.entries.push((id, client));
                proof {
                    assert forall|i: int, j: int|
                        0 <= i < j < self.entries@.len() implies self.entries@[i].0@
                        != self.entries@[j].0@ by {
                        if j == pre.len() {
                            assert(old(self).key_at(i) == pre[i].0@);
                            assert(self.entries@[j].0@ == gid);
                        } else {
                            assert(old(self).key_at(i) == pre[i].0@);
                            assert(old(self).key_at(j) == pre[j].0@);
                        }
                    }
                }
                Ok(())
            },
        }
    }

    /// The client registered under `id`, if any.
    pub fn get(&self, id: &str) -> (r: Option<&V>)
        ensures
            r is Some <==> self.contains_spec(id@),
            r matches Some(v) ==> exists|i: int|
                0 <= i < self.entries_spec().len() && self.key_at(i) == id@ && *v
                    == self.entries_spec()[i].1,
    {
        match self.find_index(id) {
            Some(i) => Some(&vec_index(&self.entries, i).1),
            None => None,
        }
    }

    /// Remove the entry registered under `id` and hand its client back so
    /// the caller can disconnect it; removing an unknown identifier does
    /// nothing.
    pub fn shutdown(&mut self, id: &str) -> (r: Option<V>)
        requires
            old(self).wf(),
        ensures
            final(self).wf(),
            !final(self).contains_spec(id@),
            !old(self).contains_spec(id@) ==> r is None && final(self).entries_spec() == old(
                self,
            ).entries_spec(),
            old(self).contains_spec(id@) ==> exists|i: int|
                {
                    &&& 0 <= i < old(self).entries_spec().len()
                    &&& old(self).key_at(i) == id@
                    &&& r == Some(old(self).entries_spec()[i].1)
                    &&& final(self).entries_spec() == old(self).entries_spec().remove(i)
                },
    {
        match self.find_index(id) {
            Some(i) => {
                let ghost pre = self.entries@;
                let pair = self.entries.remove(i);
                proof {
                    assert forall|j: int|
                        0 <= j < self.entries@.len() implies self.entries@[j].0@ != id@ by {
                        if j < i {
                            assert(self.entries@[j] == pre[j]);
                            assert(old(self).key_at(j) != old(self).key_at(i as int));
                        } else {
                            assert(self.entries@[j] == pre[j + 1]);
                            assert(old(self).key_at(i as int) != old(self).key_at(j + 1));
                        }
                    }
                    assert forall|a: int, b: int|
                        0 <= a < b < self.entries@.len() implies self.entries@[a].0@
                        != self.entries@[b].0@ by {
                        let pa: int = if a < i { a } else { a + 1 };
                        let pb: int = if b < i { b } else { b + 1 };
                        assert(self.entries@[a] == pre[pa]);
                        assert(self.entries@[b] == pre[pb]);
                        assert(old(self).key_at(pa) != old(self).key_at(pb));
                    }
                }
                Some(pair.1)
            },
            None => None,
        }
    }

    /// Disconnect everything: remove and hand back all clients, in
    /// registration order, leaving the registry empty.
    pub fn shutdown_all(&mut self) -> (r: Vec<V>)
        requires
            old(self).wf(),
        ensures
            final(self).wf(),
            final(self).entries_spec() == Seq::<(String, V)>::empty(),
            r@ == old(self).entries_spec().map_values(|p: (String, V)| p.1),
    {
        let mut out: Vec<V> = Vec::new();
        let ghost all = self.entries@;
        while self.entries.len() > 0
            invariant
                all.len() == out@.len() + self.entries@.len(),
                self.entries@ == all.skip(out@.len() as int),
                out@ == all.take(out@.len() as int).map_values(|p: (String, V)| p.1),
            decreases self.entries@.len(),
        {
            let ghost done = out@.len() as int;
            let pair = self.entries.remove(0);
            out.push(pair.1);
            proof {
                assert(all.skip(done).remove(0) =~= all.skip(done + 1));
                assert(all.take(done + 1).map_values(|p: (String, V)| p.1) =~= all.take(
                    done,
                ).map_values(|p: (String, V)| p.1).push(all[done].1));
            }
        }
        proof {
            assert(out@ =~= all.map_values(|p: (String, V)| p.1));
        }
        out
    }

    /// The number of registered clients.
    pub fn count(&self) -> (r: usize)
        ensures
            r == self.entries_spec().len(),
    {
        self.entries.len()
    }

    /// All registered identifiers, in registration order.
    pub fn list(&self) -> (r: Vec<ClientId>)
        ensures
            r@ == self.entries_spec().map_values(|p: (String, V)| p.0),
    {
        let mut out: Vec<String> = Vec::new();
        let n = self.entries.len();
        let mut i: usize = 0;
        while i < n
            invariant
                n == self.entries_spec().len(),
                0 <= i <= n,
                out@ == self.entries_spec().take(i as int).map_values(|p: (String, V)| p.0),
            decreases n - i,
        {
            out.push(vec_index(&self.entries, i).0.clone());
            proof {
                assert(self.entries_spec().take(i + 1).map_values(|p: (String, V)| p.0)
                    =~= self.entries_spec().take(i as int).map_values(|p: (String, V)| p.0).push(
                    self.entries_spec()[i as int].0,
                ));
            }
            i = i + 1;
        }
        proof {
            assert(self.entries_spec().take(n as int) =~= self.entries_spec());
        }
        out
    }
}

} // verus!
