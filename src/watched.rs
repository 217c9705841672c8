use vstd::prelude::*;

use crate::ident::{Ident, IdentView};

verus! {

/// The kind of event source a registration or a delivered record refers to.
/// `Other` carries a kernel filter code this library does not interpret.
#[derive(Clone, Copy, Debug, PartialEq, Eq, Structural)]
pub enum EventFilter {
    Read,
    Write,
    Vnode,
    Proc,
    Signal,
    Timer,
    Other(i16),
}

/// One registration: which source, with which filter and filter flags.
#[derive(Debug)]
pub struct Watched {
    pub filter: EventFilter,
    pub flags: u32,
    pub ident: Ident,
}

pub ghost struct WatchedView {
    pub filter: EventFilter,
    pub flags: u32,
    pub ident: IdentView,
}

impl View for Watched {
    type V = WatchedView;

    open spec fn view(&self) -> WatchedView {
        WatchedView { filter: self.filter, flags: self.flags, ident: self.ident@ }
    }
}

/// What a change record asks of the kernel.
#[derive(Clone, Copy, Debug, PartialEq, Eq, Structural)]
pub enum Action {
    /// Register the source.
    Add,
    /// Register the source, and reset its state once it has been reported.
    AddClear,
    /// Remove the registration.
    Delete,
}

/// One record of a batch handed to the kernel queue.
#[derive(Clone, Copy, Debug, PartialEq, Eq, Structural)]
pub struct Change {
    pub ident: usize,
    pub filter: EventFilter,
    pub action: Action,
    pub fflags: u32,
    pub data: i64,
}

} // verus!
