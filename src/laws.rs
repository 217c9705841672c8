use vstd::prelude::*;

use crate::event::{decode, DecodeError, EventData, EventView, RawEvent};
use crate::ident::IdentView;
use crate::watched::{EventFilter, WatchedView};
use crate::watcher::{added, holds_slot, lookup_fd, owns_fd, first_fd_match};

verus! {

/// Adding an entry a second time changes nothing: the set, and so its size,
/// is what the first add left.
pub proof fn lemma_add_idempotent(entries: Seq<WatchedView>, w: WatchedView)
    ensures
        added(added(entries, w), w) == added(entries, w),
        added(added(entries, w), w).len() == added(entries, w).len(),
{
    if !holds_slot(entries, w.ident.slot()) {
        let once = entries.push(w);
        assert(once[entries.len() as int] == w);
        assert(holds_slot(once, w.ident.slot()));
    }
}

/// A descriptor registered for read readiness, where no other registration
/// holds that descriptor or its numeric key, decodes back from a read record on that descriptor to the very
/// identifier registered, with the byte count the kernel reported.
pub proof fn lemma_read_round_trip(entries: Seq<WatchedView>, fd: i32, flags: u32, count: i64)
    requires
        fd >= 0,
        !owns_fd(entries, fd),
        !holds_slot(entries, IdentView::Fd(fd).slot()),
        count >= 0,
    ensures
        decode(
            added(entries, WatchedView { filter: EventFilter::Read, flags, ident: IdentView::Fd(fd) }),
            RawEvent { ident: fd as usize, filter: EventFilter::Read, fflags: 0, data: count },
        ) == Ok::<EventView, DecodeError>(EventView {
            ident: IdentView::Fd(fd),
            data: EventData::ReadReady(count as usize),
        }),
{
    let w = WatchedView { filter: EventFilter::Read, flags, ident: IdentView::Fd(fd) };
    let after = added(entries, w);
    let raw = RawEvent { ident: fd as usize, filter: EventFilter::Read, fflags: 0, data: count };
    let n = entries.len() as int;
    assert(after == entries.push(w));
    assert(first_fd_match(after, fd, n));
    let c = choose|k: int| first_fd_match(after, fd, k);
    assert(c == n) by {
        if c < n {
            assert(entries[c].ident.fd() == Some(fd));
        }
    }
    assert(lookup_fd(after, fd) == Some(IdentView::Fd(fd)));
}

} // verus!
