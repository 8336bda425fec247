//! Ledger of live native handles.
//!
//! Every wrapper in the binding layer owns exactly one handle to
//! native-allocated memory: a native factory call hands the handle out, and
//! the wrapper must invoke the matching native destructor exactly once when it
//! is torn down. The ledger records which handles are currently live, so that
//! a release of a handle that is not live (a double release, or a release of
//! something never acquired) and an acquisition of a handle already owned are
//! both rejected, and a handle is never looked up after its release.

use vstd::prelude::*;
use crate::error::{CvError, STS_BAD_ARG};

verus! {

/// The set of handles the binding layer currently owns. A handle is a
/// non-null native address, recorded here from acquisition to release.
pub struct HandleTable {
    live: Vec<usize>,
}

impl HandleTable {
    /// The table never records the null handle and records each handle at
    /// most once.
    pub closed spec fn wf(&self) -> bool {
        &&& forall|i: int| 0 <= i < self.live@.len() ==> self.live@[i] != 0
        &&& forall|i: int, j: int|
            0 <= i < j < self.live@.len() ==> self.live@[i] != self.live@[j]
    }

    /// True when the handle is currently live: acquired and not yet released.
    pub closed spec fn lives(&self, handle: usize) -> bool {
        exists|i: int| 0 <= i < self.live@.len() && self.live@[i] == handle
    }

    /// An empty ledger: no handle is live.
    pub fn new() -> (r: HandleTable)
        ensures
            r.wf(),
            forall|h: usize| !r.lives(h),
    {
        HandleTable { live: Vec::new() }
    }

    /// True exactly when the handle is currently live.
    pub fn is_live(&self, handle: usize) -> (r: bool)
        ensures
            r == self.lives(handle),
    {
        let mut i: usize = 0;
        while i < self.live.len()
            invariant
                0 <= i <= self.live@.len(),
                forall|j: int| 0 <= j < i ==> self.live@[j] != handle,
            decreases self.live@.len() - i,
        {
            if self.live[i] == handle {
                return true;
            }
            i = i + 1;
        }
        false
    }

    /// Records a handle a native factory call just returned. The null handle
    /// and a handle already owned are rejected as bad arguments; otherwise the
    /// handle becomes live and every other handle keeps its standing.
    pub fn acquire(&mut self, handle: usize) -> (r: Result<(), CvError>)
        requires
            old(self).wf(),
        ensures
            final(self).wf(),
            r is Ok <==> handle != 0 && !old(self).lives(handle),
            r matches Err(e) ==> e.code == STS_BAD_ARG && *final(self) == *old(self),
            r is Ok ==> final(self).lives(handle),
            forall|h: usize| h != handle ==> final(self).lives(h) == old(self).lives(h),
    {
        if handle == 0 {
            return Err(CvError { code: STS_BAD_ARG, message: String::new() });
        }
        if self.is_live(handle) {
            return Err(CvError { code: STS_BAD_ARG, message: String::new() });
        }
        self.live.push(handle);
        proof {
            let s_old = old(self).live@;
            let s_new = self.live@;
            assert(s_new[s_new.len() - 1] == handle);
            assert forall|h: usize| h != handle implies self.lives(h) == old(self).lives(h) by {
                if old(self).lives(h) {
                    let k = choose|k: int| 0 <= k < s_old.len() && s_old[k] == h;
                    assert(s_new[k] == h);
                }
                if self.lives(h) {
                    let k = choose|k: int| 0 <= k < s_new.len() && s_new[k] == h;
                    assert(k < s_old.len());
                    assert(s_old[k] == h);
                }
            }
        }
        Ok(())
    }

    /// Discharges a wrapper's obligation to release its handle. Only a live
    /// handle can be released, and it can be released only once: afterwards it
    /// is no longer live, while every other handle keeps its standing.
    pub fn release(&mut self, handle: usize) -> (r: Result<(), CvError>)
        requires
            old(self).wf(),
        ensures
            final(self).wf(),
            r is Ok <==> old(self).lives(handle),
            r matches Err(e) ==> e.code == STS_BAD_ARG && *final(self) == *old(self),
            !final(self).lives(handle),
            forall|h: usize| h != handle ==> final(self).lives(h) == old(self).lives(h),
    {
        let mut i: usize = 0;
        while i < self.live.len()
            invariant
                0 <= i <= self.live@.len(),
                *self == *old(self),
                old(self).wf(),
                forall|j: int| 0 <= j < i ==> self.live@[j] != handle,
            decreases self.live@.len() - i,
        {
            if self.live[i] == handle {
                let ghost s_old = self.live@;
                self.live.remove(i);
                proof {
                    s_old.remove_ensures(i as int);
                    let s_new = self.live@;
                    assert forall|h: usize| h != handle implies self.lives(h) == old(
                        self,
                    ).lives(h) by {
                        if old(self).lives(h) {
                            let k = choose|k: int| 0 <= k < s_old.len() && s_old[k] == h;
                            if k < i {
                                assert(s_new[k] == s_old[k]);
                            } else {
                                assert(k > i);
                                assert(s_new[k - 1] == s_old[k]);
                            }
                        }
                        if self.lives(h) {
                            let k = choose|k: int| 0 <= k < s_new.len() && s_new[k] == h;
                            if k < i {
                                assert(s_old[k] == s_new[k]);
                            } else {
                                assert(s_old[k + 1] == s_new[k]);
                            }
                        }
                    }
                    assert(!self.lives(handle)) by {
                        if self.lives(handle) {
                            let k = choose|k: int| 0 <= k < s_new.len() && s_new[k] == handle;
                            if k < i {
                                assert(s_old[k] == handle);
                            } else {
                                assert(s_old[k + 1] == handle);
                                assert(0 <= k + 1 < s_old.len() && k + 1 != i);
                            }
                        }
                    }
                }
                return Ok(());
            }
            i = i + 1;
        }
        Err(CvError { code: STS_BAD_ARG, message: String::new() })
    }
}

} // verus!
