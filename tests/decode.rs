use kqueue::{
    get_event, DecodeError, Duration, Event, EventData, EventFilter, Ident, Proc, RawEvent,
    Vnode, Watcher, NOTE_ATTRIB, NOTE_CHILD, NOTE_CLOSE, NOTE_CLOSE_WRITE, NOTE_DELETE,
    NOTE_EXEC, NOTE_EXIT, NOTE_EXTEND, NOTE_FORK, NOTE_LINK, NOTE_OPEN, NOTE_RENAME,
    NOTE_REVOKE, NOTE_TRACK, NOTE_TRACKERR, NOTE_WRITE,
};

fn raw(ident: usize, filter: EventFilter, fflags: u32, data: i64) -> RawEvent {
    RawEvent { ident, filter, fflags, data }
}

fn watcher() -> Watcher {
    let mut w = Watcher::new(10).unwrap();
    w.add_fd(3, EventFilter::Read, 0);
    w.add_filename(4, String::from("/tmp/watched"), EventFilter::Vnode, NOTE_WRITE);
    w
}

#[test]
fn read_record_resolves_registered_descriptor() {
    let w = watcher();
    let ev = Event::new(&raw(3, EventFilter::Read, 0, 12), &w).unwrap();
    assert_eq!(ev.ident, Ident::Fd(3));
    assert!(matches!(ev.ident, Ident::Fd(3)));
    assert_eq!(ev.data, EventData::ReadReady(12));
    assert!(!ev.is_err());
}

#[test]
fn vnode_record_resolves_named_file() {
    let w = watcher();
    let ev = Event::new(&raw(4, EventFilter::Vnode, NOTE_WRITE, 0), &w).unwrap();
    match &ev.ident {
        Ident::Filename(fd, path) => {
            assert_eq!(*fd, 4);
            assert_eq!(path.as_str(), "/tmp/watched");
        },
        other => panic!("unexpected identifier {:?}", other),
    }
    assert_eq!(ev.data, EventData::Vnode(Vnode::Write));
    let ev = Event::new(&raw(4, EventFilter::Write, 0, 64), &w).unwrap();
    assert_eq!(ev.data, EventData::WriteReady(64));
}

#[test]
fn timer_record_carries_fire_count() {
    let mut w = Watcher::new(10).unwrap();
    w.add_timer(7, Duration::from_millis(50));
    let changes = w.watch();
    assert_eq!(changes[0].data, 50);
    let ev = Event::new(&raw(7, EventFilter::Timer, 0, 3), &w).unwrap();
    assert_eq!(ev.ident.as_usize(), 7);
    assert!(matches!(ev.ident, Ident::Timer(7, _)));
    assert_eq!(ev.data, EventData::Timer(3));
}

#[test]
fn signal_and_process_records_rebuild_identifier() {
    let w = Watcher::new(10).unwrap();
    let ev = Event::new(&raw(2, EventFilter::Signal, 0, 4), &w).unwrap();
    assert!(matches!(ev.ident, Ident::Signal(2)));
    assert_eq!(ev.data, EventData::Signal(4));
    let ev = Event::new(&raw(500, EventFilter::Proc, NOTE_EXIT, 1), &w).unwrap();
    assert!(matches!(ev.ident, Ident::Pid(500)));
    assert_eq!(ev.data, EventData::Proc(Proc::Exit(1)));
}

#[test]
fn process_flags_first_match_wins() {
    let w = Watcher::new(10).unwrap();
    let d = |f: u32, data: i64| Event::new(&raw(9, EventFilter::Proc, f, data), &w).unwrap().data;
    assert_eq!(d(NOTE_EXIT | NOTE_FORK, 2), EventData::Proc(Proc::Exit(2)));
    assert_eq!(d(NOTE_FORK | NOTE_EXEC, 0), EventData::Proc(Proc::Fork));
    assert_eq!(d(NOTE_EXEC | NOTE_TRACK, 0), EventData::Proc(Proc::Exec));
    assert_eq!(d(NOTE_TRACK | NOTE_CHILD, 33), EventData::Proc(Proc::Track(33)));
    assert_eq!(d(NOTE_CHILD, 44), EventData::Proc(Proc::Child(44)));
    assert_eq!(d(NOTE_TRACKERR, 0), EventData::Proc(Proc::Trackerr));
}

#[test]
fn vnode_flags_first_match_wins() {
    let w = watcher();
    let d = |f: u32| Event::new(&raw(4, EventFilter::Vnode, f, 0), &w).unwrap().data;
    assert_eq!(d(NOTE_DELETE | NOTE_WRITE), EventData::Vnode(Vnode::Delete));
    assert_eq!(d(NOTE_WRITE | NOTE_EXTEND), EventData::Vnode(Vnode::Write));
    assert_eq!(d(NOTE_EXTEND | NOTE_ATTRIB), EventData::Vnode(Vnode::Extend));
    assert_eq!(d(NOTE_ATTRIB | NOTE_LINK), EventData::Vnode(Vnode::Attrib));
    assert_eq!(d(NOTE_LINK | NOTE_RENAME), EventData::Vnode(Vnode::Link));
    assert_eq!(d(NOTE_RENAME | NOTE_REVOKE), EventData::Vnode(Vnode::Rename));
    assert_eq!(d(NOTE_REVOKE | NOTE_OPEN), EventData::Vnode(Vnode::Revoke));
    assert_eq!(d(NOTE_CLOSE_WRITE | NOTE_CLOSE), EventData::Vnode(Vnode::CloseWrite));
    assert_eq!(d(NOTE_CLOSE | NOTE_OPEN), EventData::Vnode(Vnode::Close));
    assert_eq!(d(NOTE_OPEN), EventData::Vnode(Vnode::Open));
}

#[test]
fn undecodable_records_are_errors() {
    let w = watcher();
    assert_eq!(
        Event::new(&raw(3, EventFilter::Other(-3), 0, 0), &w).unwrap_err(),
        DecodeError::UnsupportedFilter
    );
    assert_eq!(
        Event::new(&raw(4, EventFilter::Vnode, 0, 0), &w).unwrap_err(),
        DecodeError::UnsupportedFlags
    );
    assert_eq!(
        Event::new(&raw(1, EventFilter::Proc, 0, 0), &w).unwrap_err(),
        DecodeError::UnsupportedFlags
    );
    assert_eq!(
        Event::new(&raw(99, EventFilter::Read, 0, 1), &w).unwrap_err(),
        DecodeError::UnknownDescriptor
    );
}

#[test]
fn failed_wait_gives_error_event() {
    let w = watcher();
    let ev = Event::from_error(&raw(3, EventFilter::Read, 0, 0), &w, 9).unwrap();
    assert!(matches!(ev.ident, Ident::Fd(3)));
    assert_eq!(ev.data, EventData::Error(9));
    assert!(ev.is_err());
    assert_eq!(
        Event::from_error(&raw(98, EventFilter::Vnode, 0, 0), &w, 9).unwrap_err(),
        DecodeError::UnknownDescriptor
    );
}

#[test]
fn wait_status_selects_outcome() {
    let w = watcher();
    let r = raw(3, EventFilter::Read, 0, 5);
    assert!(get_event(&w, 0, &r, 0).is_none());
    let ev = get_event(&w, 1, &r, 0).unwrap().unwrap();
    assert_eq!(ev.data, EventData::ReadReady(5));
    let ev = get_event(&w, -1, &r, 4).unwrap().unwrap();
    assert_eq!(ev.data, EventData::Error(4));
}
