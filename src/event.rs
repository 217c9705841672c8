use vstd::prelude::*;

use crate::ident::{Ident, IdentView};
use crate::time::Duration;
use crate::watched::{EventFilter, WatchedView};
use crate::watcher::{lookup_fd, Watcher};

verus! {

/// Process flag: the process exited.
pub const NOTE_EXIT: u32 = 0x8000_0000;
/// Process flag: the process forked.
pub const NOTE_FORK: u32 = 0x4000_0000;
/// Process flag: the process called exec.
pub const NOTE_EXEC: u32 = 0x2000_0000;
/// Process flag: a forked child is tracked.
pub const NOTE_TRACK: u32 = 0x0000_0001;
/// Process flag: a forked child could not be tracked.
pub const NOTE_TRACKERR: u32 = 0x0000_0002;
/// Process flag: this is a tracked child.
pub const NOTE_CHILD: u32 = 0x0000_0004;

/// Vnode flag: the file was deleted.
pub const NOTE_DELETE: u32 = 0x0001;
/// Vnode flag: the file was written.
pub const NOTE_WRITE: u32 = 0x0002;
/// Vnode flag: the file was extended.
pub const NOTE_EXTEND: u32 = 0x0004;
/// Vnode flag: the file's attributes changed.
pub const NOTE_ATTRIB: u32 = 0x0008;
/// Vnode flag: the file's link count changed.
pub const NOTE_LINK: u32 = 0x0010;
/// Vnode flag: the file was renamed.
pub const NOTE_RENAME: u32 = 0x0020;
/// Vnode flag: access to the file was revoked.
pub const NOTE_REVOKE: u32 = 0x0040;
/// Vnode flag: the file was opened.
pub const NOTE_OPEN: u32 = 0x0080;
/// Vnode flag: a read-only descriptor of the file was closed.
pub const NOTE_CLOSE: u32 = 0x0100;
/// Vnode flag: a writable descriptor of the file was closed.
pub const NOTE_CLOSE_WRITE: u32 = 0x0200;

/// One event record as the kernel delivered it.
#[derive(Clone, Copy, Debug, PartialEq, Eq, Structural)]
pub struct RawEvent {
    pub ident: usize,
    pub filter: EventFilter,
    pub fflags: u32,
    pub data: i64,
}

/// Vnode events.
#[derive(Clone, Copy, Debug, PartialEq, Eq, Structural)]
#[non_exhaustive]
pub enum Vnode {
    Delete,
    Write,
    Extend,
    Truncate,
    Attrib,
    Link,
    Rename,
    Revoke,
    Open,
    CloseWrite,
    Close,
}

/// Process events.
#[derive(Clone, Copy, Debug, PartialEq, Eq, Structural)]
pub enum Proc {
    /// The process exited with this code.
    Exit(usize),
    Fork,
    Exec,
    /// The process forked; the child's pid.
    Track(i32),
    Trackerr,
    /// A tracked child; its pid.
    Child(i32),
}

/// Event-specific data.
#[derive(Clone, Copy, Debug, PartialEq, Eq, Structural)]
pub enum EventData {
    Vnode(Vnode),
    Proc(Proc),
    /// Bytes ready for reading.
    ReadReady(usize),
    /// Bytes of room for writing.
    WriteReady(usize),
    /// Times the signal arrived.
    Signal(usize),
    /// Times the timer fired.
    Timer(usize),
    /// The kernel reported this OS error code.
    Error(i32),
}

/// A record that cannot be turned into an event.
#[derive(Clone, Copy, Debug, PartialEq, Eq, Structural)]
pub enum DecodeError {
    /// A filter this library does not interpret.
    UnsupportedFilter,
    /// Flags that match no known sub-event of the filter.
    UnsupportedFlags,
    /// A descriptor that no registration holds.
    UnknownDescriptor,
}

/// An event from a `Watcher`: the watched source and what happened to it.
#[derive(Debug)]
pub struct Event {
    pub ident: Ident,
    pub data: EventData,
}

pub ghost struct EventView {
    pub ident: IdentView,
    pub data: EventData,
}

impl View for Event {
    type V = EventView;

    open spec fn view(&self) -> EventView {
        EventView { ident: self.ident@, data: self.data }
    }
}

pub open spec fn result_view(r: Result<Event, DecodeError>) -> Result<EventView, DecodeError> {
    match r {
        Ok(ev) => Ok(ev@),
        Err(e) => Err(e),
    }
}

/// All bits of `f` are set in `flags`.
pub open spec fn has(flags: u32, f: u32) -> bool {
    flags & f == f
}

/// The process sub-event of a record: the first flag that is set, in the
/// order exit, fork, exec, track, child, track error.
pub open spec fn proc_of(flags: u32, data: i64) -> Option<Proc> {
    if has(flags, NOTE_EXIT) {
        Some(Proc::Exit(data as usize))
    } else if has(flags, NOTE_FORK) {
        Some(Proc::Fork)
    } else if has(flags, NOTE_EXEC) {
        Some(Proc::Exec)
    } else if has(flags, NOTE_TRACK) {
        Some(Proc::Track(data as i32))
    } else if has(flags, NOTE_CHILD) {
        Some(Proc::Child(data as i32))
    } else if has(flags, NOTE_TRACKERR) {
        Some(Proc::Trackerr)
    } else {
        None
    }
}

/// The vnode sub-event of a record: the first flag that is set, in the
/// order delete, write, extend, attrib, link, rename, revoke, then the
/// open and close flags.
pub open spec fn vnode_of(flags: u32) -> Option<Vnode> {
    if has(flags, NOTE_DELETE) {
        Some(Vnode::Delete)
    } else if has(flags, NOTE_WRITE) {
        Some(Vnode::Write)
    } else if has(flags, NOTE_EXTEND) {
        Some(Vnode::Extend)
    } else if has(flags, NOTE_ATTRIB) {
        Some(Vnode::Attrib)
    } else if has(flags, NOTE_LINK) {
        Some(Vnode::Link)
    } else if has(flags, NOTE_RENAME) {
        Some(Vnode::Rename)
    } else if has(flags, NOTE_REVOKE) {
        Some(Vnode::Revoke)
    } else if has(flags, NOTE_CLOSE_WRITE) {
        Some(Vnode::CloseWrite)
    } else if has(flags, NOTE_CLOSE) {
        Some(Vnode::Close)
    } else if has(flags, NOTE_OPEN) {
        Some(Vnode::Open)
    } else {
        None
    }
}

/// The data of a delivered record.
pub open spec fn data_of(raw: RawEvent) -> Result<EventData, DecodeError> {
    match raw.filter {
        EventFilter::Read => Ok(EventData::ReadReady(raw.data as usize)),
        EventFilter::Write => Ok(EventData::WriteReady(raw.data as usize)),
        EventFilter::Signal => Ok(EventData::Signal(raw.data as usize)),
        EventFilter::Timer => Ok(EventData::Timer(raw.data as usize)),
        EventFilter::Proc => match proc_of(raw.fflags, raw.data) {
            Some(p) => Ok(EventData::Proc(p)),
            None => Err(DecodeError::UnsupportedFlags),
        },
        EventFilter::Vnode => match vnode_of(raw.fflags) {
            Some(v) => Ok(EventData::Vnode(v)),
            None => Err(DecodeError::UnsupportedFlags),
        },
        EventFilter::Other(_) => Err(DecodeError::UnsupportedFilter),
    }
}

/// The identifier of a delivered record: looked up among the registrations
/// for descriptor filters, rebuilt from the raw target for the others.
pub open spec fn ident_of(entries: Seq<WatchedView>, raw: RawEvent) -> Result<IdentView, DecodeError> {
    match raw.filter {
        EventFilter::Read | EventFilter::Write | EventFilter::Vnode => match lookup_fd(
            entries,
            raw.ident as i32,
        ) {
            Some(id) => Ok(id),
            None => Err(DecodeError::UnknownDescriptor),
        },
        EventFilter::Signal => Ok(IdentView::Signal(raw.ident as i32)),
        EventFilter::Timer => Ok(IdentView::Timer(raw.ident, Duration { secs: 0, nanos: 0 })),
        EventFilter::Proc => Ok(IdentView::Pid(raw.ident as i32)),
        EventFilter::Other(_) => Err(DecodeError::UnsupportedFilter),
    }
}

/// The event a delivered record stands for; a data error comes first.
pub open spec fn decode(entries: Seq<WatchedView>, raw: RawEvent) -> Result<EventView, DecodeError> {
    match data_of(raw) {
        Err(e) => Err(e),
        Ok(data) => match ident_of(entries, raw) {
            Err(e) => Err(e),
            Ok(ident) => Ok(EventView { ident, data }),
        },
    }
}

/// The event for a record that came with a failed wait.
pub open spec fn decode_error(entries: Seq<WatchedView>, raw: RawEvent, errno: i32) -> Result<
    EventView,
    DecodeError,
> {
    match ident_of(entries, raw) {
        Err(e) => Err(e),
        Ok(ident) => Ok(EventView { ident, data: EventData::Error(errno) }),
    }
}

/// The outcome of one wait: `status` is what the wait returned (-1 on
/// failure, 0 when the timeout expired, else the number of records).
pub open spec fn outcome(entries: Seq<WatchedView>, status: i32, raw: RawEvent, errno: i32) -> Option<
    Result<EventView, DecodeError>,
> {
    if status == -1 {
        Some(decode_error(entries, raw, errno))
    } else if status == 0 {
        None
    } else {
        Some(decode(entries, raw))
    }
}

fn proc_data(flags: u32, data: i64) -> (r: Option<Proc>)
    ensures
        r == proc_of(flags, data),
{
    if flags & NOTE_EXIT == NOTE_EXIT {
        Some(Proc::Exit(data as usize))
    } else if flags & NOTE_FORK == NOTE_FORK {
        Some(Proc::Fork)
    } else if flags & NOTE_EXEC == NOTE_EXEC {
        Some(Proc::Exec)
    } else if flags & NOTE_TRACK == NOTE_TRACK {
        Some(Proc::Track(data as i32))
    } else if flags & NOTE_CHILD == NOTE_CHILD {
        Some(Proc::Child(data as i32))
    } else if flags & NOTE_TRACKERR == NOTE_TRACKERR {
        Some(Proc::Trackerr)
    } else {
        None
    }
}

fn vnode_data(flags: u32) -> (r: Option<Vnode>)
    ensures
        r == vnode_of(flags),
{
    if flags & NOTE_DELETE == NOTE_DELETE {
        Some(Vnode::Delete)
    } else if flags & NOTE_WRITE == NOTE_WRITE {
        Some(Vnode::Write)
    } else if flags & NOTE_EXTEND == NOTE_EXTEND {
        Some(Vnode::Extend)
    } else if flags & NOTE_ATTRIB == NOTE_ATTRIB {
        Some(Vnode::Attrib)
    } else if flags & NOTE_LINK == NOTE_LINK {
        Some(Vnode::Link)
    } else if flags & NOTE_RENAME == NOTE_RENAME {
        Some(Vnode::Rename)
    } else if flags & NOTE_REVOKE == NOTE_REVOKE {
        Some(Vnode::Revoke)
    } else if flags & NOTE_CLOSE_WRITE == NOTE_CLOSE_WRITE {
        Some(Vnode::CloseWrite)
    } else if flags & NOTE_CLOSE == NOTE_CLOSE {
        Some(Vnode::Close)
    } else if flags & NOTE_OPEN == NOTE_OPEN {
        Some(Vnode::Open)
    } else {
        None
    }
}

/// The data of a delivered record.
pub fn event_data(raw: &RawEvent) -> (r: Result<EventData, DecodeError>)
    ensures
        r == data_of(*raw),
{
    match raw.filter {
        EventFilter::Read => Ok(EventData::ReadReady(raw.data as usize)),
        EventFilter::Write => Ok(EventData::WriteReady(raw.data as usize)),
        EventFilter::Signal => Ok(EventData::Signal(raw.data as usize)),
        EventFilter::Timer => Ok(EventData::Timer(raw.data as usize)),
        EventFilter::Proc => match proc_data(raw.fflags, raw.data) {
            Some(p) => Ok(EventData::Proc(p)),
            None => Err(DecodeError::UnsupportedFlags),
        },
        EventFilter::Vnode => match vnode_data(raw.fflags) {
            Some(v) => Ok(EventData::Vnode(v)),
            None => Err(DecodeError::UnsupportedFlags),
        },
        EventFilter::Other(_) => Err(DecodeError::UnsupportedFilter),
    }
}

/// The identifier of a delivered record.
pub fn event_ident(raw: &RawEvent, watcher: &Watcher) -> (r: Result<Ident, DecodeError>)
    ensures
        match r {
            Ok(id) => ident_of(watcher@.entries, *raw) == Ok::<IdentView, DecodeError>(id@),
            Err(e) => ident_of(watcher@.entries, *raw) == Err::<IdentView, DecodeError>(e),
        },
{
    match raw.filter {
        EventFilter::Read | EventFilter::Write | EventFilter::Vnode => {
            match watcher.find_file_ident(raw.ident as i32) {
                Some(id) => Ok(id),
                None => Err(DecodeError::UnknownDescriptor),
            }
        },
        EventFilter::Signal => Ok(Ident::Signal(raw.ident as i32)),
        EventFilter::Timer => Ok(Ident::Timer(raw.ident, Duration::zero())),
        EventFilter::Proc => Ok(Ident::Pid(raw.ident as i32)),
        EventFilter::Other(_) => Err(DecodeError::UnsupportedFilter),
    }
}

impl Event {
    /// Decodes a delivered record against the watcher's registrations.
    pub fn new(raw: &RawEvent, watcher: &Watcher) -> (r: Result<Event, DecodeError>)
        ensures
            result_view(r) == decode(watcher@.entries, *raw),
    {
        let data = match event_data(raw) {
            Ok(d) => d,
            Err(e) => return Err(e),
        };
        match event_ident(raw, watcher) {
            Ok(ident) => Ok(Event { ident, data }),
            Err(e) => Err(e),
        }
    }

    /// The event for a record that came with a failed wait: its identifier
    /// resolved as usual, its data the OS error code.
    pub fn from_error(raw: &RawEvent, watcher: &Watcher, errno: i32) -> (r: Result<Event, DecodeError>)
        ensures
            result_view(r) == decode_error(watcher@.entries, *raw, errno),
    {
        match event_ident(raw, watcher) {
            Ok(ident) => Ok(Event { ident, data: EventData::Error(errno) }),
            Err(e) => Err(e),
        }
    }

    pub fn is_err(&self) -> (r: bool)
        ensures
            r == (self.data is Error),
    {
        match self.data {
            EventData::Error(_) => true,
            _ => false,
        }
    }
}

/// Turns the result of one single-record wait into at most one event.
pub fn get_event(watcher: &Watcher, status: i32, raw: &RawEvent, errno: i32) -> (r: Option<
    Result<Event, DecodeError>,
>)
    ensures
        r is None <==> status == 0,
        match r {
            Some(x) => outcome(watcher@.entries, status, *raw, errno) == Some(result_view(x)),
            None => outcome(watcher@.entries, status, *raw, errno) is None,
        },
{
    if status == -1 {
        Some(Event::from_error(raw, watcher, errno))
    } else if status == 0 {
        None
    } else {
        Some(Event::new(raw, watcher))
    }
}

} // verus!
