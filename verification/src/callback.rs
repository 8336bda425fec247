//! Registry of callback slots.
//!
//! The native library invokes host callbacks (mouse, trackbar, button, draw)
//! through a fixed trampoline that carries an opaque user-data pointer. The
//! binding layer keeps one slot per registration point; registering stores the
//! opaque token the trampoline will receive, registering again replaces it,
//! and unregistering empties the slot. Dispatch consults the registry, so once
//! a slot is cleared nothing can be dispatched through it any more.

use vstd::prelude::*;

verus! {

/// Maps each occupied callback slot to the opaque token handed to the native
/// trampoline for it.
pub struct CallbackRegistry {
    entries: Vec<(usize, usize)>,
}

impl CallbackRegistry {
    /// Each slot is recorded at most once.
    pub closed spec fn wf(&self) -> bool {
        forall|i: int, j: int|
            0 <= i < j < self.entries@.len() ==> self.entries@[i].0 != self.entries@[j].0
    }

    /// True when a callback is currently registered in the slot.
    pub closed spec fn registered(&self, slot: usize) -> bool {
        exists|i: int| 0 <= i < self.entries@.len() && self.entries@[i].0 == slot
    }

    /// The token stored in an occupied slot.
    pub closed spec fn token_of(&self, slot: usize) -> usize {
        self.entries@[choose|i: int|
            0 <= i < self.entries@.len() && self.entries@[i].0 == slot].1
    }

    /// An empty registry: no slot is occupied.
    pub fn new() -> (r: CallbackRegistry)
        ensures
            r.wf(),
            forall|s: usize| !r.registered(s),
    {
        CallbackRegistry { entries: Vec::new() }
    }

    /// Registers a callback: stores the token in the slot, replacing whatever
    /// was registered there before. Every other slot keeps its state.
    pub fn set_callback(&mut self, slot: usize, token: usize)
        requires
            old(self).wf(),
        ensures
            final(self).wf(),
            final(self).registered(slot),
            final(self).token_of(slot) == token,
            forall|s: usize| s != slot ==> final(self).registered(s) == old(self).registered(s),
            forall|s: usize|
                s != slot && old(self).registered(s) ==> final(self).token_of(s) == old(
                    self,
                ).token_of(s),
    {
        let mut i: usize = 0;
        while i < self.entries.len()
            invariant
                0 <= i <= self.entries@.len(),
                *self == *old(self),
                old(self).wf(),
                forall|j: int| 0 <= j < i ==> self.entries@[j].0 != slot,
            decreases self.entries@.len() - i,
        {
            if self.entries[i].0 == slot {
                let ghost s_old = self.entries@;
                self.entries.set(i, (slot, token));
                proof {
                    let s_new = self.entries@;
                    assert(s_new == s_old.update(i as int, (slot, token)));
                    assert(s_new[i as int] == (slot, token));
                    assert forall|s: usize| s != slot implies self.registered(s) == old(
                        self,
                    ).registered(s) && (old(self).registered(s) ==> self.token_of(s) == old(
                        self,
                    ).token_of(s)) by {
                        assert forall|k: int|
                            0 <= k < s_new.len() && k != i implies s_new[k] == s_old[k] by {}
                        if old(self).registered(s) {
                            let k = choose|k: int| 0 <= k < s_old.len() && s_old[k].0 == s;
                            assert(s_new[k].0 == s);
                        }
                        if self.registered(s) {
                            let k = choose|k: int| 0 <= k < s_new.len() && s_new[k].0 == s;
                            assert(s_old[k].0 == s);
                        }
                        if old(self).registered(s) {
                            let k1 = choose|k: int| 0 <= k < s_old.len() && s_old[k].0 == s;
                            let k2 = choose|k: int| 0 <= k < s_new.len() && s_new[k].0 == s;
                            assert(s_old[k2].0 == s);
                            assert(k1 == k2);
                        }
                    }
                    assert(self.token_of(slot) == token) by {
                        let k = choose|k: int| 0 <= k < s_new.len() && s_new[k].0 == slot;
                        if k != i {
                            assert(s_old[k].0 == slot);
                        }
                    }
                }
                return ;
            }
            i = i + 1;
        }
        let ghost s_old = self.entries@;
        self.entries.push((slot, token));
        proof {
            let s_new = self.entries@;
            assert(s_new[s_new.len() - 1] == (slot, token));
            assert(self.wf()) by {
                assert forall|a: int, b: int|
                    0 <= a < b < s_new.len() implies s_new[a].0 != s_new[b].0 by {
                    if b == s_new.len() - 1 {
                        assert(s_new[a] == s_old[a]);
                    } else {
                        assert(s_new[a] == s_old[a] && s_new[b] == s_old[b]);
                    }
                }
            }
            assert(self.token_of(slot) == token) by {
                let k = choose|k: int| 0 <= k < s_new.len() && s_new[k].0 == slot;
                if k != s_new.len() - 1 {
                    assert(s_old[k].0 == slot);
                }
            }
            assert forall|s: usize| s != slot implies self.registered(s) == old(self).registered(
                s,
            ) && (old(self).registered(s) ==> self.token_of(s) == old(self).token_of(s)) by {
                if old(self).registered(s) {
                    let k = choose|k: int| 0 <= k < s_old.len() && s_old[k].0 == s;
                    assert(s_new[k].0 == s);
                }
                if self.registered(s) {
                    let k = choose|k: int| 0 <= k < s_new.len() && s_new[k].0 == s;
                    assert(k < s_old.len());
                    assert(s_old[k].0 == s);
                }
                if old(self).registered(s) {
                    let k1 = choose|k: int| 0 <= k < s_old.len() && s_old[k].0 == s;
                    let k2 = choose|k: int| 0 <= k < s_new.len() && s_new[k].0 == s;
                    assert(k2 < s_old.len());
                    assert(s_old[k2].0 == s);
                    assert(k1 == k2);
                    assert(s_new[k2] == s_old[k2]);
                }
            }
        }
    }

    /// Unregisters whatever callback the slot holds: afterwards the slot is
    /// empty, so nothing can be dispatched through it, while every other slot
    /// keeps its state. Clearing an empty slot changes nothing.
    pub fn clear_callback(&mut self, slot: usize)
        requires
            old(self).wf(),
        ensures
            final(self).wf(),
            !final(self).registered(slot),
            forall|s: usize| s != slot ==> final(self).registered(s) == old(self).registered(s),
            forall|s: usize|
                s != slot && old(self).registered(s) ==> final(self).token_of(s) == old(
                    self,
                ).token_of(s),
    {
        let mut i: usize = 0;
        while i < self.entries.len()
            invariant
                0 <= i <= self.entries@.len(),
                *self == *old(self),
                old(self).wf(),
                forall|j: int| 0 <= j < i ==> self.entries@[j].0 != slot,
            decreases self.entries@.len() - i,
        {
            if self.entries[i].0 == slot {
                let ghost s_old = self.entries@;
                self.entries.remove(i);
                proof {
                    s_old.remove_ensures(i as int);
                    let s_new = self.entries@;
                    assert(!self.registered(slot)) by {
                        if self.registered(slot) {
                            let k = choose|k: int| 0 <= k < s_new.len() && s_new[k].0 == slot;
                            if k < i {
                                assert(s_old[k].0 == slot);
                            } else {
                                assert(s_old[k + 1].0 == slot);
                                assert(0 <= k + 1 < s_old.len() && k + 1 != i);
                            }
                        }
                    }
                    assert forall|s: usize| s != slot implies self.registered(s) == old(
                        self,
                    ).registered(s) && (old(self).registered(s) ==> self.token_of(s) == old(
                        self,
                    ).token_of(s)) by {
                        if old(self).registered(s) {
                            let k = choose|k: int| 0 <= k < s_old.len() && s_old[k].0 == s;
                            if k < i {
                                assert(s_new[k] == s_old[k]);
                            } else {
                                assert(k > i);
                                assert(s_new[k - 1] == s_old[k]);
                            }
                        }
                        if self.registered(s) {
                            let k = choose|k: int| 0 <= k < s_new.len() && s_new[k].0 == s;
                            if k < i {
                                assert(s_old[k] == s_new[k]);
                            } else {
                                assert(s_old[k + 1] == s_new[k]);
                            }
                        }
                        if old(self).registered(s) {
                            let k1 = choose|k: int| 0 <= k < s_old.len() && s_old[k].0 == s;
                            let k2 = choose|k: int| 0 <= k < s_new.len() && s_new[k].0 == s;
                            if k2 < i {
                                assert(s_old[k2] == s_new[k2]);
                                assert(k1 == k2);
                                assert(self.token_of(s) == old(self).token_of(s));
                            } else {
                                assert(s_old[k2 + 1] == s_new[k2]);
                                assert(0 <= k2 + 1 < s_old.len() && s_old[k2 + 1].0 == s);
                                assert(k1 == k2 + 1);
                                assert(self.token_of(s) == old(self).token_of(s));
                            }
                        }
                    }
                }
                return ;
            }
            i = i + 1;
        }
    }

    /// The token dispatch would hand to the trampoline: the slot's token when
    /// a callback is registered there, nothing when the slot is empty.
    pub fn dispatch_token(&self, slot: usize) -> (r: Option<usize>)
        requires
            self.wf(),
        ensures
            r is Some <==> self.registered(slot),
            r matches Some(t) ==> t == self.token_of(slot),
    {
        let mut i: usize = 0;
        while i < self.entries.len()
            invariant
                0 <= i <= self.entries@.len(),
                self.wf(),
                forall|j: int| 0 <= j < i ==> self.entries@[j].0 != slot,
            decreases self.entries@.len() - i,
        {
            if self.entries[i].0 == slot {
                proof {
                    let k = choose|k: int|
                        0 <= k < self.entries@.len() && self.entries@[k].0 == slot;
                    assert(k == i as int);
                }
                return Some(self.entries[i].1);
            }
            i = i + 1;
        }
        None
    }
}

} // verus!
