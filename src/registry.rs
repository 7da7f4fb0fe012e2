use vstd::prelude::*;

use crate::table::{
    exactly_one, has_entry, has_key, keys_unique, lemma_unique_exactly_one, lemma_unique_has_entry,
    put_post, remove_post, Entries, KeyedTable,
};
use crate::{AppState, StateChangeEvent};

verus! {

/// One entry of a registry snapshot: a logical application id and the OS
/// process id running it.
#[derive(Clone, Debug)]
pub struct TrackedApp {
    pub app_id: String,
    pub pid: u32,
    pub state: AppState,
}

/// Process-wide mapping from application id to the process running it.
/// Every tracked process is running and no id occurs twice.
pub struct ProcessRegistry {
    table: KeyedTable,
}

impl ProcessRegistry {
    pub closed spec fn view(&self) -> Entries {
        self.table@
    }

    pub closed spec fn wf(&self) -> bool {
        self.table.wf()
    }

    pub proof fn lemma_wf_unique(&self)
        requires
            self.wf(),
        ensures
            keys_unique(self@),
    {
    }

    pub fn new() -> (r: Self)
        ensures
            r.wf(),
            r@.len() == 0,
    {
        ProcessRegistry { table: KeyedTable::new() }
    }

    /// Process id tracked under `app_id`.
    pub fn lookup(&self, app_id: &String) -> (r: Option<u32>)
        requires
            self.wf(),
        ensures
            r.is_none() <==> !has_key(self@, app_id@),
            r.is_some() ==> has_entry(self@, app_id@, r.unwrap()),
    {
        self.table.lookup(app_id)
    }

    /// Registers `pid` under `app_id`, replacing a stale entry for the same id
    /// (whose process is not killed here), and returns the `Running` event.
    pub fn track(&mut self, app_id: &String, pid: u32) -> (r: StateChangeEvent)
        requires
            old(self).wf(),
        ensures
            final(self).wf(),
            put_post(old(self)@, final(self)@, app_id@, pid),
            r.app_id@ == app_id@,
            r.pid == pid,
            r.state == AppState::Running,
    {
        self.table.put(app_id, pid);
        StateChangeEvent { app_id: app_id.clone(), pid, state: AppState::Running }
    }

    /// Removes the entry for `app_id`, if any, and returns the `Stopped` event
    /// for the process that was tracked under it.
    pub fn untrack(&mut self, app_id: &String) -> (r: Option<StateChangeEvent>)
        requires
            old(self).wf(),
        ensures
            final(self).wf(),
            remove_post(old(self)@, final(self)@, app_id@),
            r.is_some() <==> has_key(old(self)@, app_id@),
            r.is_some() ==> r.unwrap().app_id@ == app_id@ && r.unwrap().state == AppState::Stopped
                && has_entry(old(self)@, app_id@, r.unwrap().pid),
    {
        match self.table.find(app_id) {
            Some(i) => {
                let (k, pid) = self.table.remove_at(i);
                Some(StateChangeEvent { app_id: k, pid, state: AppState::Stopped })
            },
            None => {
                proof {
                    assert forall|k2: Seq<char>, v2: u32| #[trigger] has_entry(self@, k2, v2) implies k2 != app_id@ && has_entry(self@, k2, v2) by {
                        let j = choose|j: int| 0 <= j < self@.len() && self@[j] == (k2, v2);
                        assert(self@[j].0 == k2);
                    }
                }
                None
            },
        }
    }

    /// Completes a stop request for `app_id`, given whether the OS terminated
    /// its process. The entry is removed, and `true` returned, exactly when
    /// the id was tracked and termination succeeded; otherwise nothing changes.
    pub fn stop_with(&mut self, app_id: &String, terminated: bool) -> (r: bool)
        requires
            old(self).wf(),
        ensures
            final(self).wf(),
            r == (has_key(old(self)@, app_id@) && terminated),
            r ==> remove_post(old(self)@, final(self)@, app_id@),
            !r ==> final(self)@ == old(self)@,
    {
        if !terminated {
            return false;
        }
        match self.table.find(app_id) {
            Some(i) => {
                self.table.remove_at(i);
                true
            },
            None => false,
        }
    }

    /// Handles the exit of process `pid` launched under `app_id`. The entry is
    /// removed only when it still names that very process, so a late exit never
    /// drops a newer launch under the same id. The event says `Stopped` for a
    /// clean exit and `Failed` otherwise.
    pub fn on_exit(&mut self, app_id: &String, pid: u32, clean: bool) -> (r: Option<StateChangeEvent>)
        requires
            old(self).wf(),
        ensures
            final(self).wf(),
            r.is_some() <==> has_entry(old(self)@, app_id@, pid),
            r.is_some() ==> remove_post(old(self)@, final(self)@, app_id@)
                && r.unwrap().app_id@ == app_id@ && r.unwrap().pid == pid
                && r.unwrap().state == (if clean { AppState::Stopped } else { AppState::Failed }),
            r.is_none() ==> final(self)@ == old(self)@,
    {
        match self.table.find(app_id) {
            Some(i) => {
                let (_, found) = self.table.get(i);
                if found == pid {
                    self.table.remove_at(i);
                    let state = if clean { AppState::Stopped } else { AppState::Failed };
                    Some(StateChangeEvent { app_id: app_id.clone(), pid, state })
                } else {
                    proof {
                        if has_entry(self@, app_id@, pid) {
                            assert(has_entry(self@, app_id@, found));
                            lemma_unique_has_entry(self@, app_id@, pid, found);
                        }
                    }
                    None
                }
            },
            None => {
                proof {
                    if has_entry(self@, app_id@, pid) {
                        let j = choose|j: int| 0 <= j < self@.len() && self@[j] == (app_id@, pid);
                        assert(self@[j].0 == app_id@);
                    }
                }
                None
            },
        }
    }

    /// Point-in-time snapshot of every tracked process, all in `Running` state.
    pub fn list(&self) -> (r: Vec<TrackedApp>)
        requires
            self.wf(),
        ensures
            r@.map_values(|a: TrackedApp| (a.app_id@, a.pid)) == self@,
            forall|i: int| 0 <= i < r@.len() ==> #[trigger] r@[i].state == AppState::Running,
    {
        let mut out: Vec<TrackedApp> = Vec::new();
        let mut i: usize = 0;
        while i < self.table.len()
            invariant
                i <= self@.len(),
                out@.len() == i,
                forall|j: int| 0 <= j < i ==> ((#[trigger] out@[j]).app_id@, out@[j].pid) == self@[j],
                forall|j: int| 0 <= j < i ==> (#[trigger] out@[j]).state == AppState::Running,
            decreases self@.len() - i,
        {
            let (app_id, pid) = self.table.get(i);
            out.push(TrackedApp { app_id, pid, state: AppState::Running });
            i = i + 1;
        }
        assert(out@.map_values(|a: TrackedApp| (a.app_id@, a.pid)) =~= self@);
        out
    }

    /// Number of tracked processes.
    pub fn len(&self) -> (r: usize)
        ensures
            r == self@.len(),
    {
        self.table.len()
    }
}

/// After a launch is tracked, the registry holds exactly one entry for its
/// id, naming the launched process.
pub proof fn lemma_tracked_exactly_once(before: Entries, after: Entries, k: Seq<char>, pid: u32)
    requires
        put_post(before, after, k, pid),
    ensures
        exactly_one(after, k),
        has_entry(after, k, pid),
{
    lemma_unique_exactly_one(after, k, pid);
}

/// Table `after` keeps, for key `k`, exactly the pairs that `before` had,
/// and still has unique keys.
pub open spec fn keeps_key(before: Entries, after: Entries, k: Seq<char>) -> bool {
    &&& keys_unique(after)
    &&& forall|v: u32| #[trigger] has_entry(after, k, v) == has_entry(before, k, v)
}

/// Tracking or removing another id keeps an id's entries as they were.
pub proof fn lemma_other_op_keeps_key(
    before: Entries,
    after: Entries,
    k: Seq<char>,
    other: Seq<char>,
    other_pid: u32,
    removed: bool,
)
    requires
        other != k,
        removed ==> remove_post(before, after, other),
        !removed ==> put_post(before, after, other, other_pid),
    ensures
        keeps_key(before, after, k),
{
}

/// A tracked launch stays tracked, exactly once and with its own process,
/// through any run of registry changes that each keep its id's entries
/// (operations on other ids, refused stops, exits of other processes).
pub proof fn lemma_tracked_until_removed(states: Seq<Entries>, k: Seq<char>, pid: u32)
    requires
        states.len() > 0,
        keys_unique(states[0]),
        has_entry(states[0], k, pid),
        forall|i: int| 0 <= i < states.len() - 1 ==> keeps_key(#[trigger] states[i], states[i + 1], k),
    ensures
        exactly_one(states.last(), k),
        has_entry(states.last(), k, pid),
    decreases states.len(),
{
    if states.len() == 1 {
        lemma_unique_exactly_one(states[0], k, pid);
    } else {
        let init = states.drop_last();
        assert forall|i: int| 0 <= i < init.len() - 1 implies keeps_key(#[trigger] init[i], init[i + 1], k) by {
            assert(init[i] == states[i] && init[i + 1] == states[i + 1]);
        }
        lemma_tracked_until_removed(init, k, pid);
        assert(init.last() == states[states.len() - 2]);
        assert(keeps_key(states[states.len() - 2], states.last(), k));
        lemma_unique_exactly_one(states.last(), k, pid);
    }
}

/// Once an id's entry is removed (a successful stop or the exit of its
/// process), the registry holds no entry for it.
pub proof fn lemma_removed_none(before: Entries, after: Entries, k: Seq<char>)
    requires
        remove_post(before, after, k),
    ensures
        !has_key(after, k),
        forall|v: u32| !has_entry(after, k, v),
{
    assert forall|v: u32| !has_entry(after, k, v) by {
        if has_entry(after, k, v) {
            let i = choose|i: int| 0 <= i < after.len() && after[i] == (k, v);
            assert(after[i].0 == k);
        }
    }
}

/// Two launches under distinct ids do not interfere: whichever is tracked
/// first, both are tracked afterwards, each once, with its own process.
pub proof fn lemma_distinct_launches_independent(
    s0: Entries,
    s1: Entries,
    s2: Entries,
    a: Seq<char>,
    pa: u32,
    b: Seq<char>,
    pb: u32,
)
    requires
        a != b,
        put_post(s0, s1, a, pa),
        put_post(s1, s2, b, pb),
    ensures
        has_entry(s2, a, pa),
        has_entry(s2, b, pb),
        exactly_one(s2, a),
        exactly_one(s2, b),
{
    lemma_unique_exactly_one(s2, a, pa);
    lemma_unique_exactly_one(s2, b, pb);
}

} // verus!
