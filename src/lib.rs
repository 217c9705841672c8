//! A typed layer over a kernel event queue.
//!
//! The library keeps a deduplicated set of registrations (named files,
//! descriptors, processes, signals and timers), turns it into the batches of
//! change records the kernel queue takes, decodes the records the queue
//! delivers into typed events, and lists what must be closed at teardown.
//! The system calls themselves are made by the caller with these values.

mod event;
mod ident;
mod laws;
mod time;
mod watched;
mod watcher;

pub use crate::event::{
    data_of, decode, decode_error, event_data, event_ident, get_event, ident_of, outcome, proc_of,
    result_view, vnode_of, DecodeError, Event, EventData, EventView, Proc, RawEvent, Vnode,
    NOTE_ATTRIB, NOTE_CHILD, NOTE_CLOSE, NOTE_CLOSE_WRITE, NOTE_DELETE, NOTE_EXEC, NOTE_EXIT,
    NOTE_EXTEND, NOTE_FORK, NOTE_LINK, NOTE_OPEN, NOTE_RENAME, NOTE_REVOKE, NOTE_TRACK,
    NOTE_TRACKERR, NOTE_WRITE,
};
pub use crate::ident::{Ident, IdentView, Slot};
pub use crate::laws::{lemma_add_idempotent, lemma_read_round_trip};
pub use crate::time::{
    duration_to_timespec, timespec_of, Duration, TimeSpec, NANOS_PER_MILLI, NANOS_PER_SEC,
};
pub use crate::watched::{Action, Change, EventFilter, Watched, WatchedView};
pub use crate::watcher::{
    add_change, added, delete_change, first_fd_match, holds_slot, lookup_fd, owns_fd, period_ok,
    unique_slots, KqueueOpts, Removal, Wait, Watcher, WatcherView, NOTE_FFNOP,
};
