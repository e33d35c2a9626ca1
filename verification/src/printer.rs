use vstd::prelude::*;

verus! {

/// One thing written to the user-facing output stream.
pub enum PrintEvent {
    /// A piece of text without a trailing newline.
    Plain(Seq<char>),
    /// A full line of text.
    Line(Seq<char>),
    /// The one-time first-time-setup welcome banner.
    Banner,
    /// A header announcing that input is expected.
    Header(Seq<char>),
}

/// Writes informational text to the user-facing output stream. The calls are
/// fire-and-forget: the engine never consumes a return value from them.
///
/// The ghost view `log` records everything written, in order.
pub trait Print: Sized {
    open spec fn log(&self) -> Seq<PrintEvent> {
        Seq::empty()
    }

    fn print(&mut self, value: &str)
        ensures
            final(self).log() == old(self).log().push(PrintEvent::Plain(value@)),
    ;

    fn println(&mut self, value: &str)
        ensures
            final(self).log() == old(self).log().push(PrintEvent::Line(value@)),
    ;
}

/// Decorated output: the welcome banner and input-prompt headers.
pub trait PrintColor: Print {
    fn fts_banner(&mut self)
        ensures
            final(self).log() == old(self).log().push(PrintEvent::Banner),
    ;

    fn input_header(&mut self, value: &str)
        ensures
            final(self).log() == old(self).log().push(PrintEvent::Header(value@)),
    ;
}

} // verus!
