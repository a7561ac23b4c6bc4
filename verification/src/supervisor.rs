//! Process supervisor: a registry of locally launched applications that
//! enforces at most one live process per application id.
//!
//! The registry tracks logical application ids bound to opaque process
//! handles. The surrounding shell owns the OS children; it probes their
//! liveness (a non-blocking wait) and hands the outcome in, so every
//! decision here is a pure, verified function of the registry state and
//! that probe outcome.

use vstd::prelude::*;

verus! {

/// One tracked entry: a logical application id bound to an opaque handle
/// that the surrounding shell maps to a live OS child process.
pub struct ProcessEntry {
    pub id: String,
    pub handle: u64,
}

impl View for ProcessEntry {
    type V = (Seq<char>, u64);

    open spec fn view(&self) -> (Seq<char>, u64) {
        (self.id@, self.handle)
    }
}

/// True when some entry of `s` carries the id `id`.
pub open spec fn has_id(s: Seq<(Seq<char>, u64)>, id: Seq<char>) -> bool {
    exists|i: int| 0 <= i < s.len() && s[i].0 == id
}

/// The handle tracked for `id`; meaningful only when ids are distinct
/// and `has_id(s, id)` holds.
pub open spec fn handle_of(s: Seq<(Seq<char>, u64)>, id: Seq<char>) -> u64 {
    s[choose|i: int| 0 <= i < s.len() && s[i].0 == id].1
}

/// The registry as a partial map: the handle tracked for `id`, if any.
pub open spec fn tracked_handle(s: Seq<(Seq<char>, u64)>, id: Seq<char>) -> Option<u64> {
    if has_id(s, id) {
        Some(handle_of(s, id))
    } else {
        None
    }
}

/// A launch request is refused exactly when an entry for the id exists
/// and the probe reported its process still alive.
pub open spec fn launch_refused(
    s: Seq<(Seq<char>, u64)>,
    id: Seq<char>,
    tracked_alive: bool,
) -> bool {
    has_id(s, id) && tracked_alive
}

/// Verdict of the launch gate.
#[derive(PartialEq, Eq, Structural, Clone, Copy, Debug)]
pub enum LaunchGate {
    /// No live instance is tracked: the caller may spawn the process.
    Proceed,
    /// A live instance is tracked: the launch is refused.
    AlreadyRunning,
}

/// The process-wide registry of launched local applications.
pub struct ProcessRegistry {
    entries: Vec<ProcessEntry>,
}

impl View for ProcessRegistry {
    type V = Seq<(Seq<char>, u64)>;

    closed spec fn view(&self) -> Seq<(Seq<char>, u64)> {
        self.entries@.map_values(|e: ProcessEntry| e@)
    }
}

impl ProcessRegistry {
    /// Well-formed: at most one entry per application id.
    pub open spec fn wf(&self) -> bool {
        forall|i: int, j: int| 0 <= i < j < self@.len() ==> self@[i].0 != self@[j].0
    }

    /// An empty registry: nothing is tracked.
    pub fn new() -> (r: ProcessRegistry)
        ensures
            r.wf(),
            r@.len() == 0,
    {
        ProcessRegistry { entries: Vec::new() }
    }

    /// Index of the entry carrying `app_id`, if one exists.
    fn find_index(&self, app_id: &str) -> (r: Option<usize>)
        ensures
            match r {
                Some(i) => i < self@.len() && self@[i as int].0 == app_id@,
                None => !has_id(self@, app_id@),
            },
    {
        let needle = String::from_str(app_id);
        let n = self.entries.len();
        let mut i: usize = 0;
        while i < n
            invariant
                n == self@.len(),
                i <= n,
                needle@ == app_id@,
                forall|j: int| 0 <= j < i ==> self@[j].0 != app_id@,
            decreases n - i,
        {
            if self.entries[i].id == needle {
                return Some(i);
            }
            i += 1;
        }
        None
    }

    /// The handle tracked for `app_id`, if any.
    pub fn lookup(&self, app_id: &str) -> (r: Option<u64>)
        requires
            self.wf(),
        ensures
            r == tracked_handle(self@, app_id@),
    {
        match self.find_index(app_id) {
            Some(i) => {
                proof {
                    let j = choose|j: int| 0 <= j < self@.len() && self@[j].0 == app_id@;
                    assert(self@[i as int].0 == app_id@);
                    if j != i as int {
                        assert(false);
                    }
                }
                Some(self.entries[i].handle)
            },
            None => None,
        }
    }

    /// Remove the entry at index `i`, returning its handle. Every other
    /// id keeps its handle; the removed id is no longer tracked.
    fn remove_at(&mut self, i: usize) -> (h: u64)
        requires
            old(self).wf(),
            i < old(self)@.len(),
        ensures
            final(self).wf(),
            h == old(self)@[i as int].1,
            final(self)@.len() == old(self)@.len() - 1,
            !has_id(final(self)@, old(self)@[i as int].0),
            forall|k: Seq<char>| k != old(self)@[i as int].0 ==> #[trigger] tracked_handle(
                final(self)@,
                k,
            ) == tracked_handle(old(self)@, k),
    {
        let h = self.entries[i].handle;
        self.entries.remove(i);
        proof {
            let s_old = old(self)@;
            let s_new = self@;
            let id = s_old[i as int].0;
            assert(self.entries@ == old(self).entries@.remove(i as int));
            assert forall|j: int| 0 <= j < s_new.len() implies s_new[j] == (if j < i {
                s_old[j]
            } else {
                s_old[j + 1]
            }) by {
                assert(self.entries@[j] == old(self).entries@.remove(i as int)[j]);
            }
            assert forall|j: int| 0 <= j < s_new.len() implies s_new[j].0 != id by {
                let jo: int = if j < i { j } else { j + 1 };
                assert(s_new[j] == s_old[jo]);
                assert(jo != i);
            }
            assert forall|k: Seq<char>|
                k != id implies #[trigger] tracked_handle(s_new, k) == tracked_handle(
                s_old,
                k,
            ) by {
                if has_id(s_old, k) {
                    let j = choose|j: int| 0 <= j < s_old.len() && s_old[j].0 == k;
                    let j2: int = if j < i { j } else { j - 1 };
                    assert(s_new[j2] == s_old[j]);
                    assert(has_id(s_new, k));
                    let t = choose|t: int| 0 <= t < s_new.len() && s_new[t].0 == k;
                    let to: int = if t < i { t } else { t + 1 };
                    assert(s_new[t] == s_old[to]);
                    if to != j {
                        assert(s_old[to].0 == s_old[j].0);
                        assert(false);
                    }
                } else {
                    if has_id(s_new, k) {
                        let t = choose|t: int| 0 <= t < s_new.len() && s_new[t].0 == k;
                        let to: int = if t < i { t } else { t + 1 };
                        assert(s_new[t] == s_old[to]);
                        assert(false);
                    }
                }
            }
        }
        h
    }

    /// Gate of the launch protocol. The caller looked the id up and, if an
    /// entry existed, probed its process without blocking; `tracked_alive`
    /// is that probe's outcome (ignored when nothing is tracked). A launch
    /// is refused exactly while a tracked process is still alive; a stale
    /// entry whose process has exited is reaped and the launch may proceed.
    /// The registry is never left partially updated.
    pub fn begin_launch(&mut self, app_id: &str, tracked_alive: bool) -> (g: LaunchGate)
        requires
            old(self).wf(),
        ensures
            final(self).wf(),
            (g == LaunchGate::AlreadyRunning) == launch_refused(
                old(self)@,
                app_id@,
                tracked_alive,
            ),
            launch_refused(old(self)@, app_id@, tracked_alive) ==> final(self)@ == old(self)@,
            !launch_refused(old(self)@, app_id@, tracked_alive) ==> {
                &&& !has_id(final(self)@, app_id@)
                &&& forall|k: Seq<char>| k != app_id@ ==> #[trigger] tracked_handle(
                    final(self)@,
                    k,
                ) == tracked_handle(old(self)@, k)
            },
            has_id(old(self)@, app_id@) && !tracked_alive ==> final(self)@.len() == old(self)@.len()
                - 1,
            !has_id(old(self)@, app_id@) ==> final(self)@ == old(self)@,
    {
        match self.find_index(app_id) {
            None => LaunchGate::Proceed,
            Some(i) => {
                if tracked_alive {
                    LaunchGate::AlreadyRunning
                } else {
                    let _stale = self.remove_at(i);
                    proof {
                        let j = choose|j: int|
                            0 <= j < old(self)@.len() && old(self)@[j].0 == app_id@;
                        if j != i as int {
                            assert(false);
                        }
                    }
                    LaunchGate::Proceed
                }
            },
        }
    }

    /// Record a successful spawn: bind `app_id` to the new handle. The
    /// caller has just gone through the launch gate, so nothing is tracked
    /// for this id.
    pub fn record_spawn(&mut self, app_id: &str, handle: u64)
        requires
            old(self).wf(),
            !has_id(old(self)@, app_id@),
        ensures
            final(self).wf(),
            tracked_handle(final(self)@, app_id@) == Some(handle),
            final(self)@.len() == old(self)@.len() + 1,
            forall|k: Seq<char>| k != app_id@ ==> #[trigger] tracked_handle(final(self)@, k)
                == tracked_handle(old(self)@, k),
    {
        let entry = ProcessEntry { id: String::from_str(app_id), handle };
        self.entries.push(entry);
        proof {
            let s_old = old(self)@;
            let s_new = self@;
            let n = s_old.len() as int;
            assert(self.entries@ == old(self).entries@.push(entry));
            assert forall|j: int| 0 <= j < s_new.len() implies s_new[j] == (if j < n {
                s_old[j]
            } else {
                (app_id@, handle)
            }) by {}
            assert(s_new[n].0 == app_id@);
            assert(has_id(s_new, app_id@));
            let t = choose|t: int| 0 <= t < s_new.len() && s_new[t].0 == app_id@;
            if t != n {
                assert(s_old[t].0 == app_id@);
                assert(false);
            }
            assert forall|k: Seq<char>|
                k != app_id@ implies #[trigger] tracked_handle(s_new, k) == tracked_handle(
                s_old,
                k,
            ) by {
                if has_id(s_old, k) {
                    let j = choose|j: int| 0 <= j < s_old.len() && s_old[j].0 == k;
                    assert(s_new[j] == s_old[j]);
                    assert(has_id(s_new, k));
                    let t2 = choose|t2: int| 0 <= t2 < s_new.len() && s_new[t2].0 == k;
                    if t2 != j {
                        if t2 == n {
                            assert(false);
                        } else {
                            assert(s_old[t2].0 == s_old[j].0);
                            assert(false);
                        }
                    }
                } else {
                    if has_id(s_new, k) {
                        let t2 = choose|t2: int| 0 <= t2 < s_new.len() && s_new[t2].0 == k;
                        assert(t2 != n);
                        assert(s_old[t2].0 == k);
                        assert(false);
                    }
                }
            }
        }
    }

    /// Non-blocking liveness report for an application id. `tracked_alive`
    /// is the caller's non-blocking probe of the tracked process (ignored
    /// when nothing is tracked). Unknown ids and exited processes report
    /// not running.
    pub fn is_running(&self, app_id: &str, tracked_alive: bool) -> (b: bool)
        requires
            self.wf(),
        ensures
            b == (has_id(self@, app_id@) && tracked_alive),
    {
        match self.find_index(app_id) {
            Some(_) => tracked_alive,
            None => false,
        }
    }

    /// Withdraw an application id from the registry, returning the handle
    /// the caller must now kill and reap. An unknown id is a no-op that
    /// returns nothing; either way the id is no longer tracked afterwards,
    /// and every other id keeps its handle.
    pub fn terminate(&mut self, app_id: &str) -> (r: Option<u64>)
        requires
            old(self).wf(),
        ensures
            final(self).wf(),
            r == tracked_handle(old(self)@, app_id@),
            !has_id(final(self)@, app_id@),
            forall|k: Seq<char>| k != app_id@ ==> #[trigger] tracked_handle(final(self)@, k)
                == tracked_handle(old(self)@, k),
            !has_id(old(self)@, app_id@) ==> final(self)@ == old(self)@,
            has_id(old(self)@, app_id@) ==> final(self)@.len() == old(self)@.len() - 1,
    {
        match self.find_index(app_id) {
            None => None,
            Some(i) => {
                proof {
                    let j = choose|j: int| 0 <= j < old(self)@.len() && old(self)@[j].0 == app_id@;
                    if j != i as int {
                        assert(false);
                    }
                }
                Some(self.remove_at(i))
            },
        }
    }

    /// Drain the whole registry, returning every tracked handle in entry
    /// order for the caller to kill and reap, best effort. The registry is
    /// left empty no matter how many entries were already-exited or live.
    pub fn cleanup_all(&mut self) -> (handles: Vec<u64>)
        requires
            old(self).wf(),
        ensures
            final(self).wf(),
            final(self)@.len() == 0,
            forall|k: Seq<char>| !has_id(final(self)@, k),
            handles@.len() == old(self)@.len(),
            forall|j: int| 0 <= j < handles@.len() ==> handles@[j] == old(self)@[j].1,
    {
        let n = self.entries.len();
        let mut handles: Vec<u64> = Vec::new();
        let mut i: usize = 0;
        while i < n
            invariant
                n == self@.len(),
                self@ == old(self)@,
                i <= n,
                handles@.len() == i,
                forall|j: int| 0 <= j < i ==> handles@[j] == self@[j].1,
            decreases n - i,
        {
            handles.push(self.entries[i].handle);
            i += 1;
        }
        self.entries = Vec::new();
        handles
    }
}

/// At most one live instance per application id: once a launch is recorded
/// for an id, a second launch for the same id is refused while the probe
/// still reports the first process alive, and is allowed again once that
/// process has exited.
pub proof fn lemma_single_instance(s: Seq<(Seq<char>, u64)>, id: Seq<char>, h: u64)
    ensures
        launch_refused(s.push((id, h)), id, true),
        !launch_refused(s.push((id, h)), id, false),
{
    let s2 = s.push((id, h));
    assert(s2[s.len() as int].0 == id);
}

/// A terminated or never-launched id always reports not running, whatever
/// the liveness probe would have said.
pub proof fn lemma_untracked_never_running(s: Seq<(Seq<char>, u64)>, id: Seq<char>, alive: bool)
    requires
        !has_id(s, id),
    ensures
        !(has_id(s, id) && alive),
        tracked_handle(s, id) is None,
{
}

/// An empty registry tracks nothing: after a full cleanup no id reports
/// running.
pub proof fn lemma_empty_registry_idle(s: Seq<(Seq<char>, u64)>, id: Seq<char>, alive: bool)
    requires
        s.len() == 0,
    ensures
        !(has_id(s, id) && alive),
{
}

} // verus!
