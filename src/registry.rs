use vstd::prelude::*;

use crate::names::{lemma_others_of, lemma_remove_is_others, others_of, reserved};

verus! {

/// One live session: its nickname and the handle through which it is written to.
pub struct Entry<H> {
    pub nickname: String,
    pub handle: H,
}

/// The live sessions, keyed by nickname, in the order in which they joined.
pub struct Registry<H> {
    entries: Vec<Entry<H>>,
}

impl<H> Registry<H> {
    /// The nicknames of the live sessions, in the order in which they joined.
    pub closed spec fn names(&self) -> Seq<Seq<char>> {
        self.entries@.map_values(|e: Entry<H>| e.nickname@)
    }

    /// The write handles, at the same positions as `names`.
    pub closed spec fn handles(&self) -> Seq<H> {
        self.entries@.map_values(|e: Entry<H>| e.handle)
    }

    /// At most one live session per nickname, and one handle for each.
    pub open spec fn wf(&self) -> bool {
        &&& self.names().no_duplicates()
        &&& self.names().len() == self.handles().len()
    }

    /// The handle that `h` is for the session of `n`.
    pub open spec fn holds(&self, n: Seq<char>, h: H) -> bool {
        exists|i: int| 0 <= i < self.names().len() && self.names()[i] == n && self.handles()[i] == h
    }

    pub open spec fn has(&self, n: Seq<char>) -> bool {
        self.names().contains(n)
    }

    pub fn new() -> (r: Self)
        ensures
            r.wf(),
            r.names() == Seq::<Seq<char>>::empty(),
    {
        let r = Registry { entries: Vec::new() };
        assert(r.names() =~= Seq::<Seq<char>>::empty());
        assert(r.handles() =~= Seq::<H>::empty());
        r
    }

    pub fn len(&self) -> (r: usize)
        ensures
            r == self.names().len(),
    {
        self.entries.len()
    }

    /// The place of `nickname` among the live sessions, if it is one of them.
    pub fn position(&self, nickname: &String) -> (r: Option<usize>)
        ensures
            r is None <==> !self.has(nickname@),
            r matches Some(i) ==> i < self.names().len() && self.names()[i as int] == nickname@,
    {
        let mut i: usize = 0;
        while i < self.entries.len()
            invariant
                i <= self.entries@.len(),
                forall|k: int| 0 <= k < i ==> self.names()[k] != nickname@,
            decreases self.entries@.len() - i,
        {
            if self.entries[i].nickname == *nickname {
                proof {
                    assert(self.names()[i as int] == nickname@);
                }
                return Some(i);
            }
            i = i + 1;
        }
        proof {
            assert forall|k: int| 0 <= k < self.names().len() implies self.names()[k] != nickname@ by {}
        }
        None
    }

    pub fn contains(&self, nickname: &String) -> (r: bool)
        ensures
            r == self.has(nickname@),
    {
        self.position(nickname).is_some()
    }

    /// Inserts `(nickname, handle)` if the nickname is free, and tells whether it did.
    /// Where it is taken, nothing changes and the handle is dropped.
    pub fn reserve(&mut self, nickname: String, handle: H) -> (r: bool)
        requires
            old(self).wf(),
        ensures
            final(self).wf(),
            r <==> !old(self).has(nickname@),
            final(self).names() == reserved(old(self).names(), nickname@),
            r ==> final(self).handles() == old(self).handles().push(handle),
            !r ==> final(self).handles() == old(self).handles(),
    {
        if self.contains(&nickname) {
            return false;
        }
        let ghost n = nickname@;
        self.entries.push(Entry { nickname, handle });
        proof {
            assert(self.names() =~= old(self).names().push(n));
            assert(self.handles() =~= old(self).handles().push(handle));
        }
        true
    }

    /// The write handle of the session at place `i`, to be written through.
    pub fn handle_mut(&mut self, i: usize) -> (h: &mut H)
        requires
            i < old(self).names().len(),
        ensures
            *h == old(self).handles()[i as int],
            final(self).names() == old(self).names(),
            final(self).handles() == old(self).handles().update(i as int, *final(h)),
    {
        &mut self.entries[i].handle
    }

    /// Removes the session of `nickname` and hands back its handle, if it was live.
    pub fn remove(&mut self, nickname: &String) -> (r: Option<H>)
        requires
            old(self).wf(),
        ensures
            final(self).wf(),
            r is Some <==> old(self).has(nickname@),
            final(self).names() == others_of(old(self).names(), nickname@),
            r matches Some(h) ==> old(self).holds(nickname@, h),
            r is None ==> final(self).handles() == old(self).handles(),
    {
        match self.position(nickname) {
            None => {
                proof {
                    crate::names::lemma_others_of_absent(self.names(), nickname@);
                }
                None
            },
            Some(i) => {
                let e = self.entries.remove(i);
                proof {
                    lemma_remove_is_others(old(self).names(), i as int);
                    assert(self.names() =~= old(self).names().remove(i as int));
                    lemma_others_of(old(self).names(), nickname@);
                    assert(old(self).handles()[i as int] == e.handle);
                    assert(self.handles() =~= old(self).handles().remove(i as int));
                }
                Some(e.handle)
            },
        }
    }

    /// The nicknames of every live session but `exclude`, in the order in which they joined.
    pub fn others(&self, exclude: &String) -> (r: Vec<String>)
        ensures
            r@.map_values(|s: String| s@) == others_of(self.names(), exclude@),
    {
        let mut out: Vec<String> = Vec::new();
        let mut i: usize = 0;
        while i < self.entries.len()
            invariant
                i <= self.entries@.len(),
                out@.map_values(|s: String| s@) == others_of(self.names().take(i as int), exclude@),
            decreases self.entries@.len() - i,
        {
            proof {
                assert(self.names().take(i as int + 1) =~= self.names().take(i as int).push(self.names()[i as int]));
                self.names().take(i as int).lemma_filter_push(self.names()[i as int], |m: Seq<char>| m != exclude@);
            }
            if self.entries[i].nickname != *exclude {
                out.push(self.entries[i].nickname.clone());
                proof {
                    assert(out@.map_values(|s: String| s@) =~= others_of(self.names().take(i as int), exclude@).push(self.names()[i as int]));
                }
            }
            i = i + 1;
        }
        proof {
            assert(self.names().take(i as int) =~= self.names());
        }
        out
    }
}

} // verus!
