//! Terminal events and the kind that routes each of them.
use vstd::prelude::*;

verus! {

/// The discriminant that selects a handler list.
#[derive(Clone, Copy, Debug, PartialEq, Eq, Structural)]
pub enum Kind {
    FocusGained,
    FocusLost,
    Key,
    Mouse,
    Paste,
    Resize,
}

/// One terminal event. The key and mouse payloads belong to whoever decodes
/// the terminal input: they are carried to the handlers and never read here.
#[derive(Debug, PartialEq, Eq)]
pub enum Event<K, M> {
    FocusGained,
    FocusLost,
    Key(K),
    Mouse(M),
    Paste(String),
    Resize(u16, u16),
}

impl<K, M> Event<K, M> {
    /// The kind of an event: its variant, with the payload dropped.
    pub open spec fn kind_of(&self) -> Kind {
        match self {
            Event::FocusGained => Kind::FocusGained,
            Event::FocusLost => Kind::FocusLost,
            Event::Key(_) => Kind::Key,
            Event::Mouse(_) => Kind::Mouse,
            Event::Paste(_) => Kind::Paste,
            Event::Resize(_, _) => Kind::Resize,
        }
    }

    pub fn kind(&self) -> (r: Kind)
        ensures
            r == self.kind_of(),
    {
        match self {
            Event::FocusGained => Kind::FocusGained,
            Event::FocusLost => Kind::FocusLost,
            Event::Key(_) => Kind::Key,
            Event::Mouse(_) => Kind::Mouse,
            Event::Paste(_) => Kind::Paste,
            Event::Resize(_, _) => Kind::Resize,
        }
    }
}

} // verus!
