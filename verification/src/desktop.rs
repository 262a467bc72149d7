//! Desktop-side bookkeeping the context carries: pending file reads and the
//! profiler's accumulators. The I/O itself is done by the platform layer;
//! only the plain record keeping lives here.

use vstd::prelude::*;
use crate::events::FileReadRequest;

verus! {

/// Desktop state: a counter handing out read ids, the queue of reads the
/// platform layer still has to perform, and per-slot profiler data in
/// nanoseconds.
#[derive(Clone, PartialEq, Eq, Debug)]
pub struct CxDesktop {
    pub file_read_id: u64,
    pub file_read_requests: Vec<FileReadRequest>,
    pub profiler_list: Vec<u64>,
    pub profiler_totals: Vec<u64>,
}

impl Default for CxDesktop {
    fn default() -> (r: CxDesktop)
        ensures
            r.file_read_id == 1,
            r.file_read_requests@ == Seq::<FileReadRequest>::empty(),
            r.profiler_list@ == Seq::<u64>::empty(),
            r.profiler_totals@ == Seq::<u64>::empty(),
    {
        CxDesktop {
            file_read_id: 1,
            file_read_requests: Vec::new(),
            profiler_list: Vec::new(),
            profiler_totals: Vec::new(),
        }
    }
}

/// Relies on `time::precise_time_ns`: a nanosecond reading of the
/// platform's high-resolution clock. Nothing is assumed of the value.
#[verifier::external_body]
fn now_ns() -> u64 {
    time::precise_time_ns()
}

impl crate::cx::Cx {
    /// Queue a file read under a fresh read id; the platform layer performs
    /// the read and delivers the outcome as an ordinary event.
    pub fn read_file(&mut self, path: &str) -> (req: FileReadRequest)
        ensures
            final(self).desktop.file_read_id == old(self).desktop.file_read_id.wrapping_add(1),
            req.read_id == final(self).desktop.file_read_id,
            req.path@ == path@,
            final(self).desktop.file_read_requests@.len() == old(
                self,
            ).desktop.file_read_requests@.len() + 1,
            final(self).desktop.file_read_requests@.drop_last() == old(
                self,
            ).desktop.file_read_requests@,
            final(self).desktop.file_read_requests@.last().read_id == req.read_id,
            final(self).desktop.file_read_requests@.last().path@ == path@,
            *final(self) == (crate::cx::Cx { desktop: final(self).desktop, ..*old(self) }),
            final(self).desktop == (CxDesktop {
                file_read_id: final(self).desktop.file_read_id,
                file_read_requests: final(self).desktop.file_read_requests,
                ..old(self).desktop
            }),
    {
        self.desktop.file_read_id = self.desktop.file_read_id.wrapping_add(1);
        let read_id = self.desktop.file_read_id;
        let queued = FileReadRequest { read_id, path: path.to_owned() };
        self.desktop.file_read_requests.push(queued);
        FileReadRequest { read_id, path: path.to_owned() }
    }

    /// Snapshot and clear the queued file reads, for the platform layer to
    /// perform.
    pub fn take_file_read_requests(&mut self) -> (reqs: Vec<FileReadRequest>)
        ensures
            reqs@ == old(self).desktop.file_read_requests@,
            final(self).desktop.file_read_requests@.len() == 0,
            *final(self) == (crate::cx::Cx { desktop: final(self).desktop, ..*old(self) }),
            final(self).desktop == (CxDesktop {
                file_read_requests: final(self).desktop.file_read_requests,
                ..old(self).desktop
            }),
    {
        let mut reqs: Vec<FileReadRequest> = Vec::new();
        reqs.append(&mut self.desktop.file_read_requests);
        reqs
    }

    /// Drop all accumulated profile totals.
    pub fn profile_clear(&mut self)
        ensures
            final(self).desktop.profiler_totals@.len() == 0,
            *final(self) == (crate::cx::Cx { desktop: final(self).desktop, ..*old(self) }),
            final(self).desktop == (CxDesktop {
                profiler_totals: final(self).desktop.profiler_totals,
                ..old(self).desktop
            }),
    {
        self.desktop.profiler_totals.clear();
    }

    /// Start the profile clock of slot `id`, growing the slot array as
    /// needed; the recorded instant comes from the platform clock, so
    /// nothing is promised of its value.
    pub fn profile_begin(&mut self, id: usize)
        requires
            id < usize::MAX,
        ensures
            final(self).desktop.profiler_list@.len() == (
                if id + 1 > old(self).desktop.profiler_list@.len() {
                    id + 1
                } else {
                    old(self).desktop.profiler_list@.len() as int
                }
            ),
            forall|k: int|
                0 <= k < final(self).desktop.profiler_list@.len() && k != id
                    ==> final(self).desktop.profiler_list@[k] == (
                    if k < old(self).desktop.profiler_list@.len() {
                        old(self).desktop.profiler_list@[k]
                    } else {
                        0u64
                    }
                ),
            *final(self) == (crate::cx::Cx { desktop: final(self).desktop, ..*old(self) }),
            final(self).desktop == (CxDesktop {
                profiler_list: final(self).desktop.profiler_list,
                ..old(self).desktop
            }),
    {
        while self.desktop.profiler_list.len() <= id
            invariant
                id < usize::MAX,
                self.desktop.profiler_list@.len() <= id + 1 || self.desktop.profiler_list@.len()
                    == old(self).desktop.profiler_list@.len(),
                self.desktop.profiler_list@.len() >= old(self).desktop.profiler_list@.len(),
                forall|k: int|
                    0 <= k < self.desktop.profiler_list@.len() ==> self.desktop.profiler_list@[k]
                        == (if k < old(self).desktop.profiler_list@.len() {
                        old(self).desktop.profiler_list@[k]
                    } else {
                        0u64
                    }),
                *self == (crate::cx::Cx { desktop: self.desktop, ..*old(self) }),
                self.desktop == (CxDesktop {
                    profiler_list: self.desktop.profiler_list,
                    ..old(self).desktop
                }),
            decreases id + 1 - self.desktop.profiler_list@.len(),
        {
            self.desktop.profiler_list.push(0);
        }
        let t = now_ns();
        self.desktop.profiler_list.set(id, t);
    }

    /// Stop the profile clock of slot `id` and add the elapsed time to its
    /// total, growing the totals as needed; the delta comes from the
    /// platform clock, so nothing is promised of the accumulated value.
    pub fn profile_end(&mut self, id: usize)
        requires
            id < old(self).desktop.profiler_list@.len(),
            id < usize::MAX,
        ensures
            final(self).desktop.profiler_totals@.len() == (
                if id + 1 > old(self).desktop.profiler_totals@.len() {
                    id + 1
                } else {
                    old(self).desktop.profiler_totals@.len() as int
                }
            ),
            forall|k: int|
                0 <= k < final(self).desktop.profiler_totals@.len() && k != id
                    ==> final(self).desktop.profiler_totals@[k] == (
                    if k < old(self).desktop.profiler_totals@.len() {
                        old(self).desktop.profiler_totals@[k]
                    } else {
                        0u64
                    }
                ),
            *final(self) == (crate::cx::Cx { desktop: final(self).desktop, ..*old(self) }),
            final(self).desktop == (CxDesktop {
                profiler_totals: final(self).desktop.profiler_totals,
                ..old(self).desktop
            }),
    {
        let t = now_ns();
        let delta = t.wrapping_sub(self.desktop.profiler_list[id]);
        while self.desktop.profiler_totals.len() <= id
            invariant
                id < usize::MAX,
                self.desktop.profiler_totals@.len() <= id + 1
                    || self.desktop.profiler_totals@.len() == old(
                    self,
                ).desktop.profiler_totals@.len(),
                self.desktop.profiler_totals@.len() >= old(self).desktop.profiler_totals@.len(),
                forall|k: int|
                    0 <= k < self.desktop.profiler_totals@.len()
                        ==> self.desktop.profiler_totals@[k] == (
                        if k < old(self).desktop.profiler_totals@.len() {
                            old(self).desktop.profiler_totals@[k]
                        } else {
                            0u64
                        }
                    ),
                *self == (crate::cx::Cx { desktop: self.desktop, ..*old(self) }),
                self.desktop == (CxDesktop {
                    profiler_totals: self.desktop.profiler_totals,
                    ..old(self).desktop
                }),
            decreases id + 1 - self.desktop.profiler_totals@.len(),
        {
            self.desktop.profiler_totals.push(0);
        }
        let prev = self.desktop.profiler_totals[id];
        self.desktop.profiler_totals.set(id, prev.wrapping_add(delta));
    }
}

} // verus!
