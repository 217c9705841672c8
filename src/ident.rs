use vstd::prelude::*;

use crate::time::Duration;

verus! {

/// What a watcher watches. `Filename` holds the descriptor opened for the
/// path together with the path itself.
#[derive(Debug)]
pub enum Ident {
    Filename(i32, String),
    Fd(i32),
    Pid(i32),
    Signal(i32),
    Timer(usize, Duration),
}

/// The mathematical value of an `Ident`.
pub ghost enum IdentView {
    Filename(i32, Seq<char>),
    Fd(i32),
    Pid(i32),
    Signal(i32),
    Timer(usize, Duration),
}

/// The identity under which an identifier occupies the registration set:
/// a named file by its path, everything else by its numeric key.
pub ghost enum Slot {
    Path(Seq<char>),
    Key(usize),
}

impl View for Ident {
    type V = IdentView;

    open spec fn view(&self) -> IdentView {
        match self {
            Ident::Filename(fd, path) => IdentView::Filename(*fd, path@),
            Ident::Fd(fd) => IdentView::Fd(*fd),
            Ident::Pid(pid) => IdentView::Pid(*pid),
            Ident::Signal(sig) => IdentView::Signal(*sig),
            Ident::Timer(id, dur) => IdentView::Timer(*id, *dur),
        }
    }
}

impl IdentView {
    /// The numeric key used for kernel registration.
    pub open spec fn key(self) -> usize {
        match self {
            IdentView::Filename(fd, _) => fd as usize,
            IdentView::Fd(fd) => fd as usize,
            IdentView::Pid(pid) => pid as usize,
            IdentView::Signal(sig) => sig as usize,
            IdentView::Timer(id, _) => id,
        }
    }

    pub open spec fn slot(self) -> Slot {
        match self {
            IdentView::Filename(_, path) => Slot::Path(path),
            _ => Slot::Key(self.key()),
        }
    }

    /// The descriptor behind a descriptor-addressed identifier.
    pub open spec fn fd(self) -> Option<i32> {
        match self {
            IdentView::Filename(fd, _) => Some(fd),
            IdentView::Fd(fd) => Some(fd),
            _ => None,
        }
    }
}

impl Ident {
    /// The numeric key used for kernel registration.
    pub fn as_usize(&self) -> (r: usize)
        ensures
            r == self@.key(),
    {
        match self {
            Ident::Filename(fd, _) => *fd as usize,
            Ident::Fd(fd) => *fd as usize,
            Ident::Pid(pid) => *pid as usize,
            Ident::Signal(sig) => *sig as usize,
            Ident::Timer(id, _) => *id,
        }
    }

    /// The descriptor behind a descriptor-addressed identifier.
    pub fn fd(&self) -> (r: Option<i32>)
        ensures
            r == self@.fd(),
    {
        match self {
            Ident::Filename(fd, _) => Some(*fd),
            Ident::Fd(fd) => Some(*fd),
            _ => None,
        }
    }

    /// A second identifier with the same value.
    pub fn duplicate(&self) -> (r: Ident)
        ensures
            r@ == self@,
    {
        match self {
            Ident::Filename(fd, path) => Ident::Filename(*fd, path.clone()),
            Ident::Fd(fd) => Ident::Fd(*fd),
            Ident::Pid(pid) => Ident::Pid(*pid),
            Ident::Signal(sig) => Ident::Signal(*sig),
            Ident::Timer(id, dur) => Ident::Timer(*id, *dur),
        }
    }
}

impl PartialEq for Ident {
    /// Named files are equal when their paths are; any other pair when
    /// neither is a named file and their numeric keys agree.
    fn eq(&self, other: &Ident) -> (r: bool) {
        match (self, other) {
            (Ident::Filename(_, a), Ident::Filename(_, b)) => {
                let r = *a == *b;
                r
            },
            (Ident::Filename(_, _), _) => false,
            (_, Ident::Filename(_, _)) => false,
            _ => self.as_usize() == other.as_usize(),
        }
    }
}

impl vstd::std_specs::cmp::PartialEqSpecImpl for Ident {
    open spec fn obeys_eq_spec() -> bool {
        true
    }

    open spec fn eq_spec(&self, other: &Ident) -> bool {
        self@.slot() == other@.slot()
    }
}

impl Eq for Ident {}

impl From<Ident> for usize {
    /// The numeric key of the identifier.
    fn from(id: Ident) -> (r: usize) {
        id.as_usize()
    }
}

impl vstd::std_specs::convert::FromSpecImpl<Ident> for usize {
    open spec fn obeys_from_spec() -> bool {
        true
    }

    open spec fn from_spec(id: Ident) -> usize {
        id@.key()
    }
}

} // verus!
