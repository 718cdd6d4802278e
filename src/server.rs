//! The service registry: built by adding dispatchers under their names, then
//! frozen into a shared, read-only handle that connection tasks query.

use std::sync::Arc;
use vstd::prelude::*;

verus! {

broadcast use vstd::utf8::group_utf8_lib;

/// A dispatcher's service name: the name under which clients reach it.
pub trait ServiceName {
    fn name(&self) -> &'static str;
}

/// Whether two strings hold the same characters, compared byte by byte.
pub fn same_str(a: &str, b: &str) -> (r: bool)
    ensures
        r == (a@ == b@),
{
    let x = a.as_bytes();
    let y = b.as_bytes();
    if x.len() != y.len() {
        return false;
    }
    let mut i: usize = 0;
    while i < x.len()
        invariant
            x@ == vstd::utf8::encode_utf8(a@),
            y@ == vstd::utf8::encode_utf8(b@),
            x@.len() == y@.len(),
            i <= x@.len(),
            x@.take(i as int) == y@.take(i as int),
        decreases x@.len() - i,
    {
        if x[i] != y[i] {
            assert(x@[i as int] != y@[i as int]);
            return false;
        }
        i = i + 1;
        assert(x@.take(i as int) =~= x@.take(i as int - 1).push(x@[i - 1]));
        assert(y@.take(i as int) =~= y@.take(i as int - 1).push(y@[i - 1]));
    }
    assert(x@ =~= x@.take(i as int));
    assert(y@ =~= y@.take(i as int));
    assert(vstd::utf8::decode_utf8(vstd::utf8::encode_utf8(a@)) == a@);
    assert(vstd::utf8::decode_utf8(vstd::utf8::encode_utf8(b@)) == b@);
    true
}

/// The registry while it is being built: a name-to-dispatcher mapping in
/// which adding a name that is already present replaces its dispatcher.
pub struct Server<D> {
    entries: Vec<(&'static str, D)>,
    services: Ghost<Map<Seq<char>, D>>,
}

impl<D> View for Server<D> {
    type V = Map<Seq<char>, D>;

    closed spec fn view(&self) -> Map<Seq<char>, D> {
        self.services@
    }
}

impl<D> Server<D> {
    /// The entries hold each name once, and exactly the mapping of the view.
    pub closed spec fn wf(&self) -> bool {
        let e = self.entries@;
        let m = self.services@;
        &&& forall|i: int, j: int|
            0 <= i < j < e.len() ==> (#[trigger] e[i]).0@ != (#[trigger] e[j]).0@
        &&& forall|i: int|
            0 <= i < e.len() ==> m.contains_key((#[trigger] e[i]).0@) && m[e[i].0@] == e[i].1
        &&& forall|k: Seq<char>|
            m.contains_key(k) ==> exists|i: int| 0 <= i < e.len() && (#[trigger] e[i]).0@ == k
    }

    /// An empty registry.
    pub fn new() -> (r: Self)
        ensures
            r.wf(),
            r@ == Map::<Seq<char>, D>::empty(),
    {
        Server { entries: Vec::new(), services: Ghost(Map::empty()) }
    }

    /// The position of the entry named `name`, if there is one.
    fn position(&self, name: &str) -> (r: Option<usize>)
        requires
            self.wf(),
        ensures
            match r {
                Some(i) => i < self.entries@.len() && self.entries@[i as int].0@ == name@,
                None => !self@.contains_key(name@),
            },
    {
        let mut i: usize = 0;
        while i < self.entries.len()
            invariant
                self.wf(),
                i <= self.entries@.len(),
                forall|j: int| 0 <= j < i ==> (#[trigger] self.entries@[j]).0@ != name@,
            decreases self.entries@.len() - i,
        {
            if same_str(self.entries[i].0, name) {
                return Some(i);
            }
            i = i + 1;
        }
        None
    }

    /// Registers `service` under `name`, replacing any dispatcher that was
    /// registered under the same name.
    pub fn insert(self, name: &'static str, service: D) -> (r: Self)
        requires
            self.wf(),
        ensures
            r.wf(),
            r@ == self@.insert(name@, service),
    {
        let pos = self.position(name);
        let ghost old_entries = self.entries@;
        let ghost m = self.services@;
        let ghost m2 = m.insert(name@, service);
        let mut entries = self.entries;
        match pos {
            Some(i) => {
                entries.set(i, (name, service));
            },
            None => {
                entries.push((name, service));
            },
        }
        let r = Server { entries, services: Ghost(m2) };
        proof {
            let e = r.entries@;
            assert forall|i: int, j: int| 0 <= i < j < e.len() implies (#[trigger] e[i]).0@ != (
            #[trigger] e[j]).0@ by {
                if pos is None && j == e.len() - 1 {
                    assert(m.contains_key(old_entries[i].0@));
                }
            }
            assert forall|k: Seq<char>| m2.contains_key(k) implies exists|i: int|
                0 <= i < e.len() && (#[trigger] e[i]).0@ == k by {
                if k == name@ {
                    match pos {
                        Some(i) => assert(e[i as int].0@ == k),
                        None => assert(e[e.len() - 1].0@ == k),
                    }
                } else {
                    let j = choose|j: int| 0 <= j < old_entries.len() && (#[trigger] old_entries[j]).0@ == k;
                    assert(e[j].0@ == k);
                }
            }
            assert forall|i: int| 0 <= i < e.len() implies m2.contains_key((#[trigger] e[i]).0@) && m2[e[i].0@] == e[i].1 by {
                if i < old_entries.len() && e[i] == old_entries[i] {
                    if e[i].0@ == name@ {
                        match pos {
                            Some(p) => assert(p == i),
                            None => {},
                        }
                    }
                }
            }
        }
r
    }

    /// The dispatcher registered under `name`.
    pub fn get(&self, name: &str) -> (r: Option<&D>)
        requires
            self.wf(),
        ensures
            match r {
                Some(d) => self@.contains_key(name@) && *d == self@[name@],
                None => !self@.contains_key(name@),
            },
    {
        match self.position(name) {
            Some(i) => Some(&self.entries[i].1),
            None => None,
        }
    }
}

impl<D: ServiceName> Server<D> {
    /// Registers `service` under the name it reports, replacing any
    /// dispatcher that was registered under the same name.
    pub fn add_service(self, service: D) -> (r: Self)
        requires
            self.wf(),
        ensures
            r.wf(),
            exists|name: Seq<char>| r@ == self@.insert(name, service),
    {
        let name = service.name();
        self.insert(name, service)
    }
}

/// The registry once the server starts: shared by every connection task and
/// never changed again.
pub struct FrozenServer<D> {
    inner: Arc<Server<D>>,
}

impl<D> View for FrozenServer<D> {
    type V = Map<Seq<char>, D>;

    closed spec fn view(&self) -> Map<Seq<char>, D> {
        (*self.inner)@
    }
}

impl<D> FrozenServer<D> {
    pub closed spec fn wf(&self) -> bool {
        (*self.inner).wf()
    }

    /// Freezes a registry, keeping its mapping.
    pub fn freeze(server: Server<D>) -> (r: Self)
        requires
            server.wf(),
        ensures
            r.wf(),
            r@ == server@,
    {
        FrozenServer { inner: Arc::new(server) }
    }

    /// The dispatcher registered under exactly the name `cmd`.
    pub fn query(&self, cmd: &str) -> (r: Option<&D>)
        requires
            self.wf(),
        ensures
            match r {
                Some(d) => self@.contains_key(cmd@) && *d == self@[cmd@],
                None => !self@.contains_key(cmd@),
            },
    {
        self.inner.get(cmd)
    }
}

impl<D> Clone for FrozenServer<D> {
    fn clone(&self) -> (r: Self)
        ensures
            r@ == self@,
            r.wf() == self.wf(),
    {
        FrozenServer { inner: Arc::clone(&self.inner) }
    }
}

} // verus!
