use vstd::prelude::*;

use crate::types::CapabilityError;

verus! {

/// One program launched on behalf of the user.
pub enum OpenEvent {
    /// A blocking, interactive editor session on the file at this path.
    Editor(Seq<char>),
    /// A blocking, read-only pager on the file at this path.
    Pager(Seq<char>),
}

/// Opens a file in an interactive editor or a read-only pager, blocking
/// until the spawned program exits.
///
/// The ghost view `opened` records every launch, in order, whether or not
/// the launch then succeeded; success is the environment's to decide.
pub trait ProgramOpener: Sized {
    open spec fn opened(&self) -> Seq<OpenEvent> {
        Seq::empty()
    }

    fn open_editor(&mut self, path: &str) -> (r: Result<(), CapabilityError>)
        ensures
            final(self).opened() == old(self).opened().push(OpenEvent::Editor(path@)),
    ;

    fn open_pager(&mut self, path: &str) -> (r: Result<(), CapabilityError>)
        ensures
            final(self).opened() == old(self).opened().push(OpenEvent::Pager(path@)),
    ;
}

} // verus!
