//! The session store: one established session per caller identity. The
//! store owns every session; a lookup is a pure read, an insert replaces any
//! prior session for that identity, and a removal is idempotent. The shell
//! wraps one store in a reader/writer lock; everything below is the store's
//! own logic, independent of that guard.

use vstd::prelude::*;
use vstd::string::*;
use crate::errors::CallerError;
use crate::strtools::str_eq;

verus! {

/// A map from caller identity to session, backed by an association vector
/// with pairwise-distinct keys.
pub struct SessionStore<S> {
    entries: Vec<(String, S)>,
}

impl<S> SessionStore<S> {
    /// The store seen as a map from identity to session.
    pub closed spec fn view(&self) -> Map<Seq<char>, S> {
        Map::new(
            |k: Seq<char>| exists|i: int| 0 <= i < self.entries@.len() && self.entries@[i].0@ == k,
            |k: Seq<char>|
                {
                    let i = choose|i: int|
                        0 <= i < self.entries@.len() && self.entries@[i].0@ == k;
                    self.entries@[i].1
                },
        )
    }

    /// The store's invariant: no identity appears twice.
    pub closed spec fn wf(&self) -> bool {
        forall|i: int, j: int|
            0 <= i < j < self.entries@.len() ==> self.entries@[i].0@ != self.entries@[j].0@
    }

    /// The empty store.
    pub fn new() -> (r: SessionStore<S>)
        ensures
            r.wf(),
            r@ == Map::<Seq<char>, S>::empty(),
    {
        let r = SessionStore { entries: Vec::new() };
        proof {
            assert(r@ =~= Map::<Seq<char>, S>::empty());
        }
        r
    }

    /// Where this identity sits in the vector, if anywhere.
    fn position(&self, id: &str) -> (r: Option<usize>)
        requires
            self.wf(),
        ensures
            match r {
                Some(i) => i < self.entries@.len() && self.entries@[i as int].0@ == id@,
                None => !self@.dom().contains(id@),
            },
    {
        let n = self.entries.len();
        let mut i: usize = 0;
        while i < n
            invariant
                i <= n,
                n == self.entries@.len(),
                forall|j: int| 0 <= j < i ==> self.entries@[j].0@ != id@,
            decreases n - i,
        {
            if str_eq(self.entries[i].0.as_str(), id) {
                return Some(i);
            }
            i += 1;
        }
        proof {
            if self@.dom().contains(id@) {
                let j = choose|j: int|
                    0 <= j < self.entries@.len() && self.entries@[j].0@ == id@;
                assert(self.entries@[j].0@ != id@);
            }
        }
        None
    }

    /// A pure lookup. Absence signals that no session was ever established
    /// for this caller, or that it was torn down since.
    pub fn get(&self, id: &str) -> (r: Option<&S>)
        requires
            self.wf(),
        ensures
            match r {
                Some(s) => self@.dom().contains(id@) && *s == self@[id@],
                None => !self@.dom().contains(id@),
            },
    {
        match self.position(id) {
            Some(i) => {
                let s = &self.entries[i].1;
                proof {
                    let ghost k = choose|k: int|
                        0 <= k < self.entries@.len() && self.entries@[k].0@ == id@;
                    assert(k == i as int);
                }
                Some(s)
            },
            None => None,
        }
    }

    /// Insert a session for this identity, replacing any prior one.
    pub fn insert(&mut self, id: String, session: S)
        requires
            old(self).wf(),
        ensures
            final(self).wf(),
            final(self)@ == old(self)@.insert(id@, session),
    {
        match self.position(id.as_str()) {
            Some(i) => {
                self.entries[i] = (id, session);
                proof {
                    assert forall|k: Seq<char>| #[trigger] self@.dom().contains(k) implies old(
                        self,
                    )@.insert(id@, session).dom().contains(k) by {
                        let j = choose|j: int|
                            0 <= j < self.entries@.len() && self.entries@[j].0@ == k;
                        if j != i {
                            assert(old(self).entries@[j].0@ == k);
                        }
                    }
                    assert forall|k: Seq<char>| #[trigger] old(self)@.insert(
                        id@,
                        session,
                    ).dom().contains(k) implies self@.dom().contains(k) && self@[k] == old(
                        self,
                    )@.insert(id@, session)[k] by {
                        if k == id@ {
                            assert(self.entries@[i as int].0@ == k);
                            let j = choose|j: int|
                                0 <= j < self.entries@.len() && self.entries@[j].0@ == k;
                            assert(j == i as int);
                        } else {
                            let j = choose|j: int|
                                0 <= j < old(self).entries@.len() && old(self).entries@[j].0@
                                    == k;
                            assert(self.entries@[j].0@ == k);
                            let j2 = choose|j2: int|
                                0 <= j2 < self.entries@.len() && self.entries@[j2].0@ == k;
                            assert(j2 == j);
                        }
                    }
                    assert(self@ =~= old(self)@.insert(id@, session));
                }
            },
            None => {
                let ghost pre = self.entries@;
                self.entries.push((id, session));
                proof {
                    assert forall|k: Seq<char>| #[trigger] self@.dom().contains(k) implies old(
                        self,
                    )@.insert(id@, session).dom().contains(k) by {
                        let j = choose|j: int|
                            0 <= j < self.entries@.len() && self.entries@[j].0@ == k;
                        if j < pre.len() {
                            assert(old(self).entries@[j].0@ == k);
                        }
                    }
                    assert forall|k: Seq<char>| #[trigger] old(self)@.insert(
                        id@,
                        session,
                    ).dom().contains(k) implies self@.dom().contains(k) && self@[k] == old(
                        self,
                    )@.insert(id@, session)[k] by {
                        if k == id@ {
                            assert(self.entries@[pre.len() as int].0@ == k);
                            let j = choose|j: int|
                                0 <= j < self.entries@.len() && self.entries@[j].0@ == k;
                            assert(j == pre.len() as int);
                        } else {
                            let j = choose|j: int|
                                0 <= j < old(self).entries@.len() && old(self).entries@[j].0@
                                    == k;
                            assert(self.entries@[j].0@ == k);
                            let j2 = choose|j2: int|
                                0 <= j2 < self.entries@.len() && self.entries@[j2].0@ == k;
                            assert(j2 == j);
                        }
                    }
                    assert(self@ =~= old(self)@.insert(id@, session));
                }
            },
        }
    }

    /// Remove this identity's session, if any. Removing an absent identity
    /// is not an error; the store is simply unchanged.
    pub fn remove(&mut self, id: &str)
        requires
            old(self).wf(),
        ensures
            final(self).wf(),
            final(self)@ == old(self)@.remove(id@),
    {
        match self.position(id) {
            Some(i) => {
                let ghost pre = self.entries@;
                self.entries.remove(i);
                proof {
                    assert forall|k: Seq<char>| #[trigger] self@.dom().contains(k) implies old(
                        self,
                    )@.remove(id@).dom().contains(k) by {
                        let j = choose|j: int|
                            0 <= j < self.entries@.len() && self.entries@[j].0@ == k;
                        let jj = if j < i { j } else { j + 1 };
                        assert(pre[jj].0@ == k);
                        assert(k != id@);
                    }
                    assert forall|k: Seq<char>| #[trigger] old(self)@.remove(
                        id@,
                    ).dom().contains(k) implies self@.dom().contains(k) && self@[k] == old(
                        self,
                    )@.remove(id@)[k] by {
                        let j = choose|j: int| 0 <= j < pre.len() && pre[j].0@ == k;
                        assert(j != i);
                        let jj = if j < i { j } else { j - 1 };
                        assert(self.entries@[jj].0@ == k);
                        let j2 = choose|j2: int|
                            0 <= j2 < self.entries@.len() && self.entries@[j2].0@ == k;
                        let jj2 = if j2 < i { j2 } else { j2 + 1 };
                        assert(pre[jj2].0@ == k);
                        assert(jj2 == j);
                    }
                    assert(self@ =~= old(self)@.remove(id@));
                }
            },
            None => {
                proof {
                    assert(self@ =~= old(self)@.remove(id@));
                }
            },
        }
    }
}

/// Look up the session owed to a request: the request must name a caller,
/// and that caller must have an established session in the store. Either
/// lack is the caller's error, with the identity named in the second.
pub fn lookup_session<'a, S>(store: &'a SessionStore<S>, caller: &Option<String>) -> (r: Result<
    &'a S,
    CallerError,
>)
    requires
        store.wf(),
    ensures
        caller is None ==> r == Err::<&'a S, CallerError>(CallerError::MissingCallerId),
        caller matches Some(id) ==> !store@.dom().contains(id@) ==> r == Err::<
            &'a S,
            CallerError,
        >(CallerError::NoSessionForCaller(*id)),
        caller matches Some(id) ==> store@.dom().contains(id@) ==> (r matches Ok(s) && *s
            == store@[id@]),
{
    let id = match caller {
        Some(id) => id,
        None => {
            return Err(CallerError::MissingCallerId);
        },
    };
    match store.get(id.as_str()) {
        Some(s) => Ok(s),
        None => Err(CallerError::NoSessionForCaller(id.clone())),
    }
}

} // verus!
