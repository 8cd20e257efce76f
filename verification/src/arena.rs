//! Index-based session handles with explicit acquire and release.
//!
//! The host framework shares each live session between the thread that
//! drives filtering and the threads that hold it for teardown, through a
//! reference counter the library does not own. This arena models that
//! sharing without pointer aliasing: a session lives in a slot, a handle is
//! the slot's index, and an explicit count says how many holders remain.
//! When the count drops to zero the slot is freed deterministically,
//! buffer included.

use vstd::prelude::*;
use crate::filter::FilterSession;

verus! {

/// A stored session together with the number of handles that hold it.
pub struct SessionSlot {
    pub session: FilterSession,
    pub refs: u64,
}

/// The arena of live sessions; a freed slot stays `None` so that handles
/// of other sessions keep their meaning.
pub struct SessionArena {
    pub slots: Vec<Option<SessionSlot>>,
}

impl SessionArena {
    /// A slot holds a live session.
    pub open spec fn live(self, h: int) -> bool {
        0 <= h < self.slots@.len() && self.slots@[h] is Some
    }

    /// An empty arena.
    pub fn new() -> (r: SessionArena)
        ensures
            r.slots@.len() == 0,
    {
        SessionArena { slots: Vec::new() }
    }

    /// Store a session and hand out its handle, with one holder.
    pub fn attach(&mut self, session: FilterSession) -> (h: usize)
        ensures
            h == old(self).slots@.len(),
            final(self).slots@ == old(self).slots@.push(
                Some(SessionSlot { session, refs: 1u64 }),
            ),
            final(self).live(h as int),
    {
        let h = self.slots.len();
        self.slots.push(Some(SessionSlot { session, refs: 1 }));
        h
    }

    /// One more holder of the session behind `h`.
    pub fn acquire(&mut self, h: usize)
        requires
            old(self).live(h as int),
            old(self).slots@[h as int]->Some_0.refs < u64::MAX,
        ensures
            final(self).slots@ == old(self).slots@.update(
                h as int,
                Some(
                    (SessionSlot {
                        session: old(self).slots@[h as int]->Some_0.session,
                        refs: (old(self).slots@[h as int]->Some_0.refs + 1) as u64,
                    }),
                ),
            ),
    {
        if let Some(slot) = &mut self.slots[h] {
            slot.refs = slot.refs + 1;
        }
        proof {
            assert(self.slots@ =~= old(self).slots@.update(
                h as int,
                Some(
                    (SessionSlot {
                        session: old(self).slots@[h as int]->Some_0.session,
                        refs: (old(self).slots@[h as int]->Some_0.refs + 1) as u64,
                    }),
                ),
            ));
        }
    }

    /// One holder of the session behind `h` lets go; the last one frees the
    /// slot, session and buffer included.
    pub fn release(&mut self, h: usize)
        requires
            old(self).live(h as int),
        ensures
            old(self).slots@[h as int]->Some_0.refs <= 1 ==> final(self).slots@ == old(
                self,
            ).slots@.update(h as int, None),
            old(self).slots@[h as int]->Some_0.refs > 1 ==> final(self).slots@ == old(
                self,
            ).slots@.update(
                h as int,
                Some(
                    (SessionSlot {
                        session: old(self).slots@[h as int]->Some_0.session,
                        refs: (old(self).slots@[h as int]->Some_0.refs - 1) as u64,
                    }),
                ),
            ),
    {
        let mut last = false;
        if let Some(slot) = &mut self.slots[h] {
            if slot.refs > 1 {
                slot.refs = slot.refs - 1;
            } else {
                last = true;
            }
        }
        if last {
            self.slots[h] = None;
        }
        proof {
            if old(self).slots@[h as int]->Some_0.refs <= 1 {
                assert(self.slots@ =~= old(self).slots@.update(h as int, None));
            } else {
                assert(self.slots@ =~= old(self).slots@.update(
                    h as int,
                    Some(
                        (SessionSlot {
                            session: old(self).slots@[h as int]->Some_0.session,
                            refs: (old(self).slots@[h as int]->Some_0.refs - 1) as u64,
                        }),
                    ),
                ));
            }
        }
    }

    /// Read access to the session behind `h`, when its slot is live.
    pub fn session(&self, h: usize) -> (r: Option<&FilterSession>)
        ensures
            match r {
                Some(s) => self.live(h as int) && *s == self.slots@[h as int]->Some_0.session,
                None => !self.live(h as int),
            },
    {
        if h < self.slots.len() {
            match &self.slots[h] {
                Some(slot) => Some(&slot.session),
                None => None,
            }
        } else {
            None
        }
    }

    /// How many holders the session behind `h` still has; zero for a freed
    /// or never-used slot.
    pub fn holders(&self, h: usize) -> (r: u64)
        ensures
            self.live(h as int) ==> r == self.slots@[h as int]->Some_0.refs,
            !self.live(h as int) ==> r == 0,
    {
        if h < self.slots.len() {
            match &self.slots[h] {
                Some(slot) => slot.refs,
                None => 0,
            }
        } else {
            0
        }
    }
}

} // verus!
