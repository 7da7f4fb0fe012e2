use vstd::prelude::*;

use crate::table::{has_entry, has_key, keys_unique, put_post, remove_post, Entries, KeyedTable};

verus! {

/// Why a stream request was refused.
#[derive(Clone, Debug, PartialEq, Eq)]
pub enum StreamError {
    /// A stream under this id is still active.
    Collision,
}

/// What a stop request decided: the processes to terminate, and whether the
/// request counts as having found something to stop.
#[derive(Clone, Debug)]
pub struct StopPlan {
    pub kill: Vec<u32>,
    pub stopped: bool,
}

/// Outcome of starting stream `id` with process `pid` on table `old`: it
/// collides exactly when `id` is active, and then nothing changes; otherwise
/// `id` is bound to `pid`.
pub open spec fn start_post(old: Entries, new: Entries, id: Seq<char>, pid: u32, collided: bool) -> bool {
    &&& collided <==> has_key(old, id)
    &&& collided ==> new == old
    &&& !collided ==> put_post(old, new, id, pid)
}

/// Starting a second stream under an id whose first stream is still active
/// is refused with a collision, and the first stream keeps its process.
pub proof fn lemma_second_start_collides(
    s0: Entries,
    s1: Entries,
    s2: Entries,
    id: Seq<char>,
    first: u32,
    second: u32,
    collided_first: bool,
    collided_second: bool,
)
    requires
        start_post(s0, s1, id, first, collided_first),
        !collided_first,
        start_post(s1, s2, id, second, collided_second),
    ensures
        collided_second,
        s2 == s1,
        has_entry(s2, id, first),
{
    let i = choose|i: int| 0 <= i < s1.len() && s1[i] == (id, first);
    assert(s1[i].0 == id);
}

/// The active command-line streams, each under a caller-chosen id that no
/// other active stream shares.
pub struct StreamManager {
    table: KeyedTable,
}

impl StreamManager {
    pub closed spec fn view(&self) -> Entries {
        self.table@
    }

    pub closed spec fn wf(&self) -> bool {
        self.table.wf()
    }

    pub proof fn lemma_wf_unique(&self)
        requires
            self.wf(),
        ensures
            keys_unique(self@),
    {
    }

    pub fn new() -> (r: Self)
        ensures
            r.wf(),
            r@.len() == 0,
    {
        StreamManager { table: KeyedTable::new() }
    }

    /// Whether a stream under `stream_id` is active.
    pub fn is_active(&self, stream_id: &String) -> (r: bool)
        ensures
            r == has_key(self@, stream_id@),
    {
        self.table.find(stream_id).is_some()
    }

    /// Process id of the stream under `stream_id`.
    pub fn lookup(&self, stream_id: &String) -> (r: Option<u32>)
        requires
            self.wf(),
        ensures
            r.is_none() <==> !has_key(self@, stream_id@),
            r.is_some() ==> has_entry(self@, stream_id@, r.unwrap()),
    {
        self.table.lookup(stream_id)
    }

    /// Registers the process `pid` as the stream `stream_id`. An id that is
    /// still active is refused with `Collision`, and the active stream keeps
    /// its process.
    pub fn start(&mut self, stream_id: &String, pid: u32) -> (r: Result<(), StreamError>)
        requires
            old(self).wf(),
        ensures
            final(self).wf(),
            start_post(old(self)@, final(self)@, stream_id@, pid, r is Err),
            r is Err ==> r == Err::<(), StreamError>(StreamError::Collision),
    {
        if self.table.find(stream_id).is_some() {
            return Err(StreamError::Collision);
        }
        self.table.put(stream_id, pid);
        Ok(())
    }

    /// Stops `stream_id`. Without `force_kill_all` only that stream's process
    /// is to be terminated, and `stopped` is false when the id is unknown. With
    /// `force_kill_all` every active stream's process is to be terminated and
    /// the table is emptied; this global abort runs, and reports success, even
    /// when the named id is unknown.
    pub fn stop(&mut self, stream_id: &String, force_kill_all: bool) -> (r: StopPlan)
        requires
            old(self).wf(),
        ensures
            final(self).wf(),
            force_kill_all ==> final(self)@.len() == 0 && r.stopped
                && r.kill@ == old(self)@.map_values(|e: (Seq<char>, u32)| e.1),
            !force_kill_all ==> r.stopped == has_key(old(self)@, stream_id@),
            !force_kill_all && r.stopped ==> remove_post(old(self)@, final(self)@, stream_id@)
                && r.kill@.len() == 1 && has_entry(old(self)@, stream_id@, r.kill@[0]),
            !force_kill_all && !r.stopped ==> final(self)@ == old(self)@ && r.kill@.len() == 0,
    {
        if force_kill_all {
            let kill = self.table.drain_values();
            return StopPlan { kill, stopped: true };
        }
        match self.table.find(stream_id) {
            Some(i) => {
                let (_, pid) = self.table.remove_at(i);
                assert(has_entry(old(self)@, stream_id@, pid));
                StopPlan { kill: vec![pid], stopped: true }
            },
            None => StopPlan { kill: Vec::new(), stopped: false },
        }
    }

    /// Handles the end of process `pid` of stream `stream_id`: the handle is
    /// removed only when it still names that process.
    pub fn on_exit(&mut self, stream_id: &String, pid: u32) -> (r: bool)
        requires
            old(self).wf(),
        ensures
            final(self).wf(),
            r == has_entry(old(self)@, stream_id@, pid),
            r ==> remove_post(old(self)@, final(self)@, stream_id@),
            !r ==> final(self)@ == old(self)@,
    {
        match self.table.find(stream_id) {
            Some(i) => {
                let (_, found) = self.table.get(i);
                if found == pid {
                    self.table.remove_at(i);
                    true
                } else {
                    proof {
                        if has_entry(self@, stream_id@, pid) {
                            assert(has_entry(self@, stream_id@, found));
                            crate::table::lemma_unique_has_entry(self@, stream_id@, pid, found);
                        }
                    }
                    false
                }
            },
            None => {
                proof {
                    if has_entry(self@, stream_id@, pid) {
                        let j = choose|j: int| 0 <= j < self@.len() && self@[j] == (stream_id@, pid);
                        assert(self@[j].0 == stream_id@);
                    }
                }
                false
            },
        }
    }

    /// Host shutdown: forgets every stream and hands back all their processes
    /// for termination.
    pub fn kill_all(&mut self) -> (r: Vec<u32>)
        requires
            old(self).wf(),
        ensures
            final(self).wf(),
            final(self)@.len() == 0,
            r@ == old(self)@.map_values(|e: (Seq<char>, u32)| e.1),
    {
        self.table.drain_values()
    }

    /// Number of active streams.
    pub fn len(&self) -> (r: usize)
        ensures
            r == self@.len(),
    {
        self.table.len()
    }
}

/// The reply to a stop request: true when the request found something to
/// stop and every termination it asked for succeeded.
pub fn stop_reply(plan: &StopPlan, terminated: &Vec<bool>) -> (r: bool)
    ensures
        r == (plan.stopped && forall|i: int| 0 <= i < terminated@.len() ==> #[trigger] terminated@[i]),
{
    let mut all = true;
    let mut i: usize = 0;
    while i < terminated.len()
        invariant
            i <= terminated@.len(),
            all == forall|j: int| 0 <= j < i ==> #[trigger] terminated@[j],
        decreases terminated@.len() - i,
    {
        all = all && terminated[i];
        i = i + 1;
    }
    plan.stopped && all
}

} // verus!
