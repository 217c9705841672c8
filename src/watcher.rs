use vstd::prelude::*;

use crate::ident::{Ident, IdentView, Slot};
use crate::time::{duration_to_timespec, timespec_of, Duration, TimeSpec};
use crate::watched::{Action, Change, EventFilter, Watched, WatchedView};

verus! {

/// Filter flag that asks for nothing beyond the filter itself.
pub const NOTE_FFNOP: u32 = 0;

/// Options for a `Watcher`.
#[derive(Clone, Copy, Debug, PartialEq, Eq, Structural)]
pub struct KqueueOpts {
    /// Ask the kernel to reset a source's state once it has been reported.
    pub clear: bool,
}

impl Default for KqueueOpts {
    fn default() -> (r: KqueueOpts)
        ensures
            r.clear,
    {
        KqueueOpts { clear: true }
    }
}

/// The registrations and state of one kernel event queue.
///
/// Registrations only take effect at the kernel once `watch` has handed the
/// batch of change records it returns to the queue.
#[derive(Debug)]
pub struct Watcher {
    watched: Vec<Watched>,
    queue: i32,
    started: bool,
    opts: KqueueOpts,
}

pub ghost struct WatcherView {
    pub entries: Seq<WatchedView>,
    pub queue: i32,
    pub started: bool,
    pub clear: bool,
}

/// How long a retrieval waits for one event.
#[derive(Clone, Copy, Debug, PartialEq, Eq, Structural)]
pub enum Wait {
    /// Block until an event is ready.
    Forever,
    /// Give up after the timeout.
    Within(TimeSpec),
}

/// What a removal did to the registration set, and the kernel request that
/// must follow it, if any.
#[derive(Clone, Copy, Debug, PartialEq, Eq, Structural)]
pub struct Removal {
    pub removed: bool,
    pub delete: Option<Change>,
}

impl View for Watcher {
    type V = WatcherView;

    closed spec fn view(&self) -> WatcherView {
        WatcherView {
            entries: self.watched@.map_values(|w: Watched| w@),
            queue: self.queue,
            started: self.started,
            clear: self.opts.clear,
        }
    }
}

/// No two entries share a slot.
pub open spec fn unique_slots(entries: Seq<WatchedView>) -> bool {
    forall|i: int, j: int|
        0 <= i < entries.len() && 0 <= j < entries.len() && i != j ==> entries[i].ident.slot()
            != entries[j].ident.slot()
}

/// Some entry occupies the slot.
pub open spec fn holds_slot(entries: Seq<WatchedView>, slot: Slot) -> bool {
    exists|i: int| 0 <= i < entries.len() && entries[i].ident.slot() == slot
}

/// A timer period that can be handed to the kernel as a millisecond count.
pub open spec fn period_ok(id: IdentView) -> bool {
    id matches IdentView::Timer(_, d) ==> d.wf() && d.millis() <= i64::MAX
}

/// The set after an idempotent insert.
pub open spec fn added(entries: Seq<WatchedView>, w: WatchedView) -> Seq<WatchedView> {
    if holds_slot(entries, w.ident.slot()) {
        entries
    } else {
        entries.push(w)
    }
}

/// The record that registers an entry.
pub open spec fn add_change(w: WatchedView, clear: bool) -> Change {
    Change {
        ident: w.ident.key(),
        filter: w.filter,
        action: if clear {
            Action::AddClear
        } else {
            Action::Add
        },
        fflags: w.flags,
        data: match w.ident {
            IdentView::Timer(_, d) => d.millis() as i64,
            _ => 0,
        },
    }
}

/// The record that removes a registration.
pub open spec fn delete_change(key: usize, filter: EventFilter) -> Change {
    Change { ident: key, filter, action: Action::Delete, fflags: 0, data: 0 }
}

/// `i` is the first entry addressed by descriptor `fd`.
pub open spec fn first_fd_match(entries: Seq<WatchedView>, fd: i32, i: int) -> bool {
    &&& 0 <= i < entries.len()
    &&& entries[i].ident.fd() == Some(fd)
    &&& forall|j: int| 0 <= j < i ==> entries[j].ident.fd() != Some(fd)
}

/// The identifier registered for descriptor `fd`, if any: the first match.
pub open spec fn lookup_fd(entries: Seq<WatchedView>, fd: i32) -> Option<IdentView> {
    if exists|i: int| first_fd_match(entries, fd, i) {
        Some(entries[choose|i: int| first_fd_match(entries, fd, i)].ident)
    } else {
        None
    }
}

/// A descriptor owned by the watcher: that of a named file or a raw descriptor.
pub open spec fn owns_fd(entries: Seq<WatchedView>, fd: i32) -> bool {
    exists|i: int| 0 <= i < entries.len() && entries[i].ident.fd() == Some(fd)
}

impl WatcherView {
    pub open spec fn wf(self) -> bool {
        &&& unique_slots(self.entries)
        &&& forall|i: int| 0 <= i < self.entries.len() ==> period_ok(#[trigger] self.entries[i].ident)
    }
}

impl Watcher {
    /// Wraps a freshly created kernel queue handle; `None` when creation
    /// failed (the handle is -1).
    pub fn new(queue: i32) -> (r: Option<Watcher>)
        ensures
            r is None <==> queue == -1,
            r matches Some(w) ==> w@ == (WatcherView {
                entries: Seq::empty(),
                queue,
                started: false,
                clear: true,
            }),
            r matches Some(w) ==> w@.wf(),
    {
        if queue == -1 {
            None
        } else {
            let w = Watcher { watched: Vec::new(), queue, started: false, opts: KqueueOpts::default() };
            assert(w@.entries =~= Seq::empty());
            Some(w)
        }
    }

    /// New registrations will no longer ask for state clearing.
    pub fn disable_clears(&mut self)
        ensures
            final(self)@ == (WatcherView { clear: false, ..old(self)@ }),
    {
        self.opts.clear = false;
    }

    /// The kernel queue handle.
    pub fn as_raw_fd(&self) -> (r: i32)
        ensures
            r == self@.queue,
    {
        self.queue
    }

    /// Whether `watch` has been called.
    pub fn is_started(&self) -> (r: bool)
        ensures
            r == self@.started,
    {
        self.started
    }

    /// The number of registrations.
    pub fn len(&self) -> (r: usize)
        ensures
            r == self@.entries.len(),
    {
        self.watched.len()
    }

    /// Index of the entry that occupies the slot of `id`, if any.
    fn slot_index(&self, id: &Ident) -> (r: Option<usize>)
        ensures
            r is None <==> !holds_slot(self@.entries, id@.slot()),
            r matches Some(i) ==> i < self@.entries.len() && self@.entries[i as int].ident.slot()
                == id@.slot(),
    {
        let mut i: usize = 0;
        while i < self.watched.len()
            invariant
                i <= self.watched@.len(),
                forall|j: int| 0 <= j < i ==> self@.entries[j].ident.slot() != id@.slot(),
            decreases self.watched@.len() - i,
        {
            if self.watched[i].ident == *id {
                return Some(i);
            }
            i = i + 1;
        }
        None
    }

    /// Inserts the entry unless its slot is already taken.
    fn insert(&mut self, w: Watched)
        requires
            old(self)@.wf(),
            period_ok(w@.ident),
        ensures
            final(self)@ == (WatcherView { entries: added(old(self)@.entries, w@), ..old(self)@ }),
            final(self)@.wf(),
    {
        match self.slot_index(&w.ident) {
            Some(_) => {},
            None => {
                let ghost before = self@.entries;
                self.watched.push(w);
                assert(self@.entries =~= before.push(w@));
            },
        }
    }

    /// Watches a process.
    pub fn add_pid(&mut self, pid: i32, filter: EventFilter, flags: u32)
        requires
            old(self)@.wf(),
        ensures
            final(self)@ == (WatcherView {
                entries: added(
                    old(self)@.entries,
                    WatchedView { filter, flags, ident: IdentView::Pid(pid) },
                ),
                ..old(self)@
            }),
            final(self)@.wf(),
    {
        self.insert(Watched { filter, flags, ident: Ident::Pid(pid) });
    }

    /// Watches a named file through the descriptor opened for it. A path
    /// already watched is left as it is.
    pub fn add_filename(&mut self, fd: i32, path: String, filter: EventFilter, flags: u32)
        requires
            old(self)@.wf(),
        ensures
            final(self)@ == (WatcherView {
                entries: added(
                    old(self)@.entries,
                    WatchedView { filter, flags, ident: IdentView::Filename(fd, path@) },
                ),
                ..old(self)@
            }),
            final(self)@.wf(),
    {
        self.insert(Watched { filter, flags, ident: Ident::Filename(fd, path) });
    }

    /// Watches a timer that fires every `dur`.
    pub fn add_timer(&mut self, id: usize, dur: Duration)
        requires
            old(self)@.wf(),
            dur.wf(),
            dur.millis() <= i64::MAX,
        ensures
            final(self)@ == (WatcherView {
                entries: added(
                    old(self)@.entries,
                    WatchedView {
                        filter: EventFilter::Timer,
                        flags: NOTE_FFNOP,
                        ident: IdentView::Timer(id, dur),
                    },
                ),
                ..old(self)@
            }),
            final(self)@.wf(),
    {
        self.insert(Watched { filter: EventFilter::Timer, flags: NOTE_FFNOP, ident: Ident::Timer(id, dur) });
    }

    /// Watches a descriptor, which the watcher then owns.
    pub fn add_fd(&mut self, fd: i32, filter: EventFilter, flags: u32)
        requires
            old(self)@.wf(),
        ensures
            final(self)@ == (WatcherView {
                entries: added(
                    old(self)@.entries,
                    WatchedView { filter, flags, ident: IdentView::Fd(fd) },
                ),
                ..old(self)@
            }),
            final(self)@.wf(),
    {
        self.insert(Watched { filter, flags, ident: Ident::Fd(fd) });
    }

    /// Watches the descriptor of an open file.
    pub fn add_file(&mut self, fd: i32, filter: EventFilter, flags: u32)
        requires
            old(self)@.wf(),
        ensures
            final(self)@ == (WatcherView {
                entries: added(
                    old(self)@.entries,
                    WatchedView { filter, flags, ident: IdentView::Fd(fd) },
                ),
                ..old(self)@
            }),
            final(self)@.wf(),
    {
        self.add_fd(fd, filter, flags)
    }

    /// The record that removes the registration of `id` under `filter`.
    fn delete_kevent(id: &Ident, filter: EventFilter) -> (r: Change)
        ensures
            r == delete_change(id@.key(), filter),
    {
        Change { ident: id.as_usize(), filter, action: Action::Delete, fflags: 0, data: 0 }
    }

    /// Drops the entry in the slot of `id`. An empty set is left alone and
    /// asks nothing of the kernel; otherwise the kernel removal follows.
    fn remove_ident(&mut self, id: Ident, filter: EventFilter) -> (r: Removal)
        requires
            old(self)@.wf(),
        ensures
            final(self)@.wf(),
            r.removed == holds_slot(old(self)@.entries, id@.slot()),
            old(self)@.entries.len() == 0 ==> r.delete is None,
            old(self)@.entries.len() > 0 ==> r.delete == Some(delete_change(id@.key(), filter)),
            !r.removed ==> final(self)@ == old(self)@,
            r.removed ==> exists|j: int|
                0 <= j < old(self)@.entries.len() && old(self)@.entries[j].ident.slot()
                    == id@.slot() && final(self)@ == (WatcherView {
                    entries: old(self)@.entries.remove(j),
                    ..old(self)@
                }),
    {
        if self.watched.len() == 0 {
            return Removal { removed: false, delete: None };
        }
        let change = Watcher::delete_kevent(&id, filter);
        match self.slot_index(&id) {
            Some(i) => {
                let ghost before = self@.entries;
                let _ = self.watched.remove(i);
                assert(self@.entries =~= before.remove(i as int));
                Removal { removed: true, delete: Some(change) }
            },
            None => Removal { removed: false, delete: Some(change) },
        }
    }

    /// Stops watching a process. `removed` tells whether it was watched.
    pub fn remove_pid(&mut self, pid: i32, filter: EventFilter) -> (r: Removal)
        requires
            old(self)@.wf(),
        ensures
            final(self)@.wf(),
            r.removed == holds_slot(old(self)@.entries, IdentView::Pid(pid).slot()),
            old(self)@.entries.len() == 0 ==> r.delete is None,
            old(self)@.entries.len() > 0 ==> r.delete == Some(delete_change(pid as usize, filter)),
            !r.removed ==> final(self)@ == old(self)@,
            r.removed ==> exists|j: int|
                0 <= j < old(self)@.entries.len() && old(self)@.entries[j].ident.slot()
                    == IdentView::Pid(pid).slot() && final(self)@ == (WatcherView {
                    entries: old(self)@.entries.remove(j),
                    ..old(self)@
                }),
    {
        self.remove_ident(Ident::Pid(pid), filter)
    }

    /// Stops watching a descriptor. `removed` tells whether it was watched.
    pub fn remove_fd(&mut self, fd: i32, filter: EventFilter) -> (r: Removal)
        requires
            old(self)@.wf(),
        ensures
            final(self)@.wf(),
            r.removed == holds_slot(old(self)@.entries, IdentView::Fd(fd).slot()),
            old(self)@.entries.len() == 0 ==> r.delete is None,
            old(self)@.entries.len() > 0 ==> r.delete == Some(delete_change(fd as usize, filter)),
            !r.removed ==> final(self)@ == old(self)@,
            r.removed ==> exists|j: int|
                0 <= j < old(self)@.entries.len() && old(self)@.entries[j].ident.slot()
                    == IdentView::Fd(fd).slot() && final(self)@ == (WatcherView {
                    entries: old(self)@.entries.remove(j),
                    ..old(self)@
                }),
    {
        self.remove_ident(Ident::Fd(fd), filter)
    }

    /// Stops watching the descriptor of an open file.
    pub fn remove_file(&mut self, fd: i32, filter: EventFilter) -> (r: Removal)
        requires
            old(self)@.wf(),
        ensures
            final(self)@.wf(),
            r.removed == holds_slot(old(self)@.entries, IdentView::Fd(fd).slot()),
            old(self)@.entries.len() == 0 ==> r.delete is None,
            old(self)@.entries.len() > 0 ==> r.delete == Some(delete_change(fd as usize, filter)),
            !r.removed ==> final(self)@ == old(self)@,
            r.removed ==> exists|j: int|
                0 <= j < old(self)@.entries.len() && old(self)@.entries[j].ident.slot()
                    == IdentView::Fd(fd).slot() && final(self)@ == (WatcherView {
                    entries: old(self)@.entries.remove(j),
                    ..old(self)@
                }),
    {
        self.remove_fd(fd, filter)
    }

    /// Starts the watcher: returns the batch that registers every entry, in
    /// the set's order, asking for state clearing when the options say so.
    pub fn watch(&mut self) -> (r: Vec<Change>)
        requires
            old(self)@.wf(),
        ensures
            final(self)@ == (WatcherView { started: true, ..old(self)@ }),
            r@.len() == old(self)@.entries.len(),
            forall|i: int|
                0 <= i < r@.len() ==> r@[i] == add_change(
                    old(self)@.entries[i],
                    old(self)@.clear,
                ),
    {
        let clear = self.opts.clear;
        let mut changes: Vec<Change> = Vec::new();
        let mut i: usize = 0;
        while i < self.watched.len()
            invariant
                self@.wf(),
                clear == self@.clear,
                i <= self@.entries.len(),
                changes@.len() == i,
                forall|k: int| 0 <= k < i ==> changes@[k] == add_change(self@.entries[k], clear),
            decreases self.watched@.len() - i,
        {
            let w = &self.watched[i];
            assert(period_ok(self@.entries[i as int].ident));
            let data: i64 = match &w.ident {
                Ident::Timer(_, d) => match d.period_ms() {
                    Some(ms) => ms,
                    None => 0,
                },
                _ => 0,
            };
            let action = if clear {
                Action::AddClear
            } else {
                Action::Add
            };
            changes.push(Change { ident: w.ident.as_usize(), filter: w.filter, action, fflags: w.flags, data });
            i = i + 1;
        }
        self.started = true;
        changes
    }

    /// The identifier registered for a descriptor the kernel reported.
    pub fn find_file_ident(&self, fd: i32) -> (r: Option<Ident>)
        ensures
            r is None <==> lookup_fd(self@.entries, fd) is None,
            r matches Some(id) ==> lookup_fd(self@.entries, fd) == Some(id@),
    {
        let mut i: usize = 0;
        while i < self.watched.len()
            invariant
                i <= self.watched@.len(),
                forall|j: int| 0 <= j < i ==> self@.entries[j].ident.fd() != Some(fd),
            decreases self.watched@.len() - i,
        {
            if self.watched[i].ident.fd() == Some(fd) {
                let ghost e = self@.entries;
                assert(first_fd_match(e, fd, i as int));
                let ghost c = choose|k: int| first_fd_match(e, fd, k);
                assert(c == i as int) by {
                    if c < i as int {
                        assert(e[c].ident.fd() != Some(fd));
                    }
                    if c > i as int {
                        assert(e[i as int].ident.fd() != Some(fd));
                    }
                }
                return Some(self.watched[i].ident.duplicate());
            }
            i = i + 1;
        }
        None
    }

    /// The wait of a single poll: never blocking, at most `timeout`, and a
    /// zero-length wait when there is none.
    pub fn poll(&self, timeout: Option<Duration>) -> (r: Wait)
        requires
            timeout matches Some(d) ==> d.fits_timespec(),
        ensures
            r == Wait::Within(
                match timeout {
                    Some(d) => timespec_of(d),
                    None => TimeSpec { sec: 0, nsec: 0 },
                },
            ),
    {
        match timeout {
            Some(d) => Wait::Within(duration_to_timespec(d)),
            None => Wait::Within(duration_to_timespec(Duration::zero())),
        }
    }

    /// The wait of a poll that blocks until an event arrives when there is
    /// no timeout, and is a plain poll when there is one.
    pub fn poll_forever(&self, timeout: Option<Duration>) -> (r: Wait)
        requires
            timeout matches Some(d) ==> d.fits_timespec(),
        ensures
            timeout is None ==> r == Wait::Forever,
            timeout matches Some(d) ==> r == Wait::Within(timespec_of(d)),
    {
        if timeout.is_some() {
            self.poll(timeout)
        } else {
            Wait::Forever
        }
    }

    /// The wait for the next event of the event sequence: it blocks, and the
    /// sequence ends at once on a watcher that was never started.
    pub fn iter_wait(&self) -> (r: Option<Wait>)
        ensures
            !self@.started ==> r is None,
            self@.started ==> r == Some(Wait::Forever),
    {
        if !self.started {
            None
        } else {
            Some(Wait::Forever)
        }
    }

    /// The descriptors to close when the watcher goes away: the queue handle
    /// first, then every descriptor of a named file or raw descriptor still
    /// registered, each listed once.
    pub fn close_list(&self) -> (r: Vec<i32>)
        ensures
            r@.len() > 0,
            r@[0] == self@.queue,
            r@.no_duplicates(),
            forall|x: i32| #[trigger] r@.contains(x) <==> (x == self@.queue || owns_fd(self@.entries, x)),
    {
        let mut out: Vec<i32> = Vec::new();
        out.push(self.queue);
        let mut i: usize = 0;
        while i < self.watched.len()
            invariant
                i <= self.watched@.len(),
                out@.len() > 0,
                out@[0] == self@.queue,
                out@.no_duplicates(),
                forall|x: i32|
                    #[trigger] out@.contains(x) <==> (x == self@.queue || exists|j: int|
                        0 <= j < i && self@.entries[j].ident.fd() == Some(x)),
            decreases self.watched@.len() - i,
        {
            let ghost prev = out@;
            let cur = self.watched[i].ident.fd();
            match cur {
                Some(fd) => {
                    if !listed(&out, fd) {
                        out.push(fd);
                        assert(out@ == prev.push(fd));
                        assert(out@[prev.len() as int] == fd);
                    }
                },
                None => {},
            }
            assert forall|x: i32|
                #[trigger] out@.contains(x) <==> (x == self@.queue || exists|j: int|
                    0 <= j < i + 1 && self@.entries[j].ident.fd() == Some(x)) by {
                if cur == Some(x) {
                    assert(self@.entries[i as int].ident.fd() == Some(x));
                }
                if out@.contains(x) && !prev.contains(x) {
                    let k = choose|k: int| 0 <= k < out@.len() && out@[k] == x;
                    assert(k == prev.len());
                }
                if prev.contains(x) {
                    let k = choose|k: int| 0 <= k < prev.len() && prev[k] == x;
                    assert(out@[k] == x);
                }
                if exists|j: int| 0 <= j < i + 1 && self@.entries[j].ident.fd() == Some(x) {
                    let j = choose|j: int| 0 <= j < i + 1 && self@.entries[j].ident.fd() == Some(x);
                    if j < i {
                        assert(prev.contains(x));
                    }
                }
            }
            i = i + 1;
        }
        out
    }
}

/// Whether `x` is in `v`.
fn listed(v: &Vec<i32>, x: i32) -> (r: bool)
    ensures
        r == v@.contains(x),
{
    let mut i: usize = 0;
    while i < v.len()
        invariant
            i <= v@.len(),
            forall|j: int| 0 <= j < i ==> v@[j] != x,
        decreases v@.len() - i,
    {
        if v[i] == x {
            return true;
        }
        i = i + 1;
    }
    false
}

} // verus!
