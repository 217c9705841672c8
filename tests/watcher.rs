use kqueue::{
    duration_to_timespec, Action, Duration, EventFilter, Ident, KqueueOpts, TimeSpec, Wait,
    Watcher, NOTE_FFNOP,
};

fn fresh() -> Watcher {
    Watcher::new(10).expect("a valid queue handle")
}

#[test]
fn failed_queue_creation_gives_no_watcher() {
    assert!(Watcher::new(-1).is_none());
    let w = fresh();
    assert_eq!(w.as_raw_fd(), 10);
    assert_eq!(w.len(), 0);
    assert!(!w.is_started());
}

#[test]
fn default_options_ask_for_clearing() {
    let o: KqueueOpts = Default::default();
    assert!(o.clear);
}

#[test]
fn adding_same_filename_twice_keeps_size() {
    let mut w = fresh();
    w.add_filename(4, String::from("/tmp/a"), EventFilter::Vnode, 0);
    assert_eq!(w.len(), 1);
    w.add_filename(4, String::from("/tmp/a"), EventFilter::Vnode, 0);
    assert_eq!(w.len(), 1);
    // a reopened path on another descriptor is still the same entry
    w.add_filename(9, String::from("/tmp/a"), EventFilter::Vnode, 0);
    assert_eq!(w.len(), 1);
    w.add_filename(4, String::from("/tmp/b"), EventFilter::Vnode, 0);
    assert_eq!(w.len(), 2);
}

#[test]
fn entries_sharing_a_key_share_a_slot() {
    let mut w = fresh();
    w.add_fd(3, EventFilter::Read, 0);
    w.add_fd(3, EventFilter::Write, 0);
    w.add_pid(3, EventFilter::Proc, 0);
    assert_eq!(w.len(), 1);
    w.add_timer(3, Duration::from_millis(5));
    assert_eq!(w.len(), 1);
    w.add_file(4, EventFilter::Read, 0);
    assert_eq!(w.len(), 2);
}

#[test]
fn removing_unregistered_reports_nothing_removed() {
    let mut w = fresh();
    let r = w.remove_fd(3, EventFilter::Read);
    assert!(!r.removed);
    assert!(r.delete.is_none());

    w.add_pid(100, EventFilter::Proc, 0);
    let r = w.remove_fd(3, EventFilter::Read);
    assert!(!r.removed);
    let d = r.delete.expect("a kernel removal");
    assert_eq!(d.ident, 3);
    assert_eq!(d.action, Action::Delete);
    assert_eq!(d.filter, EventFilter::Read);
    assert_eq!(w.len(), 1);
}

#[test]
fn removing_registered_entries() {
    let mut w = fresh();
    w.add_pid(100, EventFilter::Proc, 0);
    w.add_fd(5, EventFilter::Read, 0);
    let r = w.remove_pid(100, EventFilter::Proc);
    assert!(r.removed);
    assert_eq!(r.delete.unwrap().ident, 100);
    assert_eq!(w.len(), 1);
    let r = w.remove_file(5, EventFilter::Read);
    assert!(r.removed);
    assert_eq!(w.len(), 0);
}

#[test]
fn removing_a_descriptor_keeps_named_files() {
    let mut w = fresh();
    w.add_filename(5, String::from("/tmp/x"), EventFilter::Vnode, 0);
    let r = w.remove_fd(5, EventFilter::Vnode);
    assert!(!r.removed);
    assert_eq!(w.len(), 1);
}

#[test]
fn period_in_milliseconds() {
    assert_eq!(Duration::from_parts(1, 500_000_000).period_ms(), Some(1500));
    assert_eq!(Duration::from_parts(0, 999_999).period_ms(), Some(0));
    assert_eq!(Duration::from_parts(2, 1_999_999).period_ms(), Some(2001));
    assert_eq!(Duration::zero().period_ms(), Some(0));
    assert_eq!(Duration::from_millis(50).period_ms(), Some(50));
    assert_eq!(Duration::from_parts(u64::MAX, 0).period_ms(), None);
    assert_eq!(Duration::from_parts(9_223_372_036_854_775, 807_000_000).period_ms(), Some(i64::MAX));
    assert_eq!(Duration::from_parts(9_223_372_036_854_775, 808_000_000).period_ms(), None);
}

#[test]
fn timespec_conversion() {
    let t = duration_to_timespec(Duration::from_parts(3, 250));
    assert_eq!(t, TimeSpec { sec: 3, nsec: 250 });
    let m = Duration::from_millis(1234);
    assert_eq!(m.secs, 1);
    assert_eq!(m.nanos, 234_000_000);
}

#[test]
fn poll_without_timeout_does_not_block() {
    let w = fresh();
    assert_eq!(w.poll(None), Wait::Within(TimeSpec { sec: 0, nsec: 0 }));
    assert_eq!(
        w.poll(Some(Duration::from_millis(2500))),
        Wait::Within(TimeSpec { sec: 2, nsec: 500_000_000 })
    );
    assert_eq!(w.poll_forever(None), Wait::Forever);
    assert_eq!(
        w.poll_forever(Some(Duration::from_millis(7))),
        Wait::Within(TimeSpec { sec: 0, nsec: 7_000_000 })
    );
}

#[test]
fn sequence_ends_on_unstarted_watcher() {
    let mut w = fresh();
    w.add_fd(3, EventFilter::Read, 0);
    assert_eq!(w.iter_wait(), None);
    let _ = w.watch();
    assert!(w.is_started());
    assert_eq!(w.iter_wait(), Some(Wait::Forever));
}

#[test]
fn watch_builds_one_record_per_entry() {
    let mut w = fresh();
    w.add_fd(3, EventFilter::Read, 0x10);
    w.add_timer(7, Duration::from_millis(50));
    w.add_filename(8, String::from("/tmp/f"), EventFilter::Vnode, 0x2);
    let changes = w.watch();
    assert_eq!(changes.len(), 3);
    assert_eq!(changes[0].ident, 3);
    assert_eq!(changes[0].filter, EventFilter::Read);
    assert_eq!(changes[0].fflags, 0x10);
    assert_eq!(changes[0].action, Action::AddClear);
    assert_eq!(changes[0].data, 0);
    assert_eq!(changes[1].ident, 7);
    assert_eq!(changes[1].filter, EventFilter::Timer);
    assert_eq!(changes[1].fflags, NOTE_FFNOP);
    assert_eq!(changes[1].data, 50);
    assert_eq!(changes[2].ident, 8);
    assert_eq!(changes[2].fflags, 0x2);
}

#[test]
fn disabled_clears_give_plain_adds() {
    let mut w = fresh();
    w.disable_clears();
    w.add_pid(42, EventFilter::Proc, 0);
    let changes = w.watch();
    assert_eq!(changes[0].action, Action::Add);
    // calling watch again hands over the whole set again
    let again = w.watch();
    assert_eq!(again.len(), 1);
}

#[test]
fn close_list_holds_queue_and_owned_descriptors_once() {
    let mut w = fresh();
    w.add_fd(3, EventFilter::Read, 0);
    w.add_filename(3, String::from("/tmp/same"), EventFilter::Vnode, 0);
    w.add_filename(4, String::from("/tmp/other"), EventFilter::Vnode, 0);
    w.add_pid(77, EventFilter::Proc, 0);
    w.add_timer(8, Duration::from_millis(1));
    assert_eq!(w.close_list(), vec![10, 3, 4]);
    assert_eq!(fresh().close_list(), vec![10]);
}

#[test]
fn ident_equality_by_kind() {
    let a = Ident::Filename(3, String::from("/p"));
    let b = Ident::Filename(4, String::from("/p"));
    let c = Ident::Filename(3, String::from("/q"));
    assert!(a == b);
    assert!(a != c);
    assert!(a != Ident::Fd(3));
    assert!(Ident::Fd(3) != a);
    assert!(Ident::Fd(3) == Ident::Pid(3));
    assert!(Ident::Signal(2) != Ident::Pid(3));
    assert!(Ident::Timer(5, Duration::from_millis(1)) == Ident::Timer(5, Duration::zero()));
    assert_eq!(Ident::Timer(5, Duration::zero()).as_usize(), 5);
    assert_eq!(a.as_usize(), 3);
    assert_eq!(a.duplicate(), b);
    assert_eq!(a.fd(), Some(3));
    assert_eq!(Ident::Pid(3).fd(), None);
}

#[test]
fn ident_converts_to_its_key() {
    let k: usize = Ident::Pid(41).into();
    assert_eq!(k, 41);
    let k: usize = usize::from(Ident::Filename(6, String::from("/r")));
    assert_eq!(k, 6);
}

#[test]
fn second_add_leaves_batch_unchanged() {
    let mut w = fresh();
    w.add_filename(5, String::from("/tmp/z"), EventFilter::Vnode, 1);
    let first = w.watch();
    w.add_filename(5, String::from("/tmp/z"), EventFilter::Vnode, 1);
    let second = w.watch();
    assert_eq!(first, second);
}
