//! The panic path: one diagnostic line, written whatever the level filter
//! says, and then the machine halts.

use vstd::prelude::*;
use crate::console::Stdout;
use crate::text::decimal;

verus! {

/// Where in the source a panic was raised.
pub struct Location {
    pub file: String,
    pub line: u32,
}

/// What a panic carries: its message and, where known, its location.
pub struct PanicInfo {
    pub location: Option<Location>,
    pub message: String,
}

/// The diagnostic line of a panic with the given location, as file and line
/// number, and message.
pub open spec fn panic_line(location: Option<(Seq<char>, nat)>, message: Seq<char>) -> Seq<char> {
    match location {
        Some((file, line)) => "Panicked at "@ + file + ":"@ + decimal(line) + " "@ + message
            + seq!['\n'],
        None => "Panicked: "@ + message + seq!['\n'],
    }
}

impl PanicInfo {
    /// The location as plain values.
    pub open spec fn place(&self) -> Option<(Seq<char>, nat)> {
        match self.location {
            Some(location) => Some((location.file@, location.line as nat)),
            None => None,
        }
    }

    /// The diagnostic line of this panic.
    pub open spec fn rendered(&self) -> Seq<char> {
        panic_line(self.place(), self.message@)
    }
}

/// The stages of the panic handler. It only ever moves forward: from `Armed`
/// to `Firing` when a panic is raised, and from `Firing` to `Halted`.
#[derive(Clone, Copy, Debug, PartialEq, Eq, Structural)]
pub enum PanicState {
    Armed,
    Firing,
    Halted,
}

/// The panic handler and the stage it is in.
pub struct PanicHandler {
    state: PanicState,
}

impl PanicHandler {
    /// The stage the handler is in.
    pub closed spec fn stage(&self) -> PanicState {
        self.state
    }

    /// A handler that waits for a panic.
    pub fn new() -> (handler: PanicHandler)
        ensures
            handler.stage() == PanicState::Armed,
    {
        PanicHandler { state: PanicState::Armed }
    }

    /// The stage the handler is in.
    pub fn state(&self) -> (state: PanicState)
        ensures
            state == self.stage(),
    {
        self.state
    }

    /// Takes a panic: writes its diagnostic line to the console. No level
    /// filter is consulted.
    pub fn fire(&mut self, out: &mut Stdout, info: &PanicInfo)
        requires
            old(self).stage() == PanicState::Armed,
        ensures
            final(self).stage() == PanicState::Firing,
            final(out)@ == old(out)@ + info.rendered(),
    {
        self.state = PanicState::Firing;
        match &info.location {
            Some(location) => {
                out.write_str("Panicked at ");
                out.write_str(location.file.as_str());
                out.write_str(":");
                out.write_decimal(location.line as u64);
                out.write_str(" ");
            },
            None => {
                out.write_str("Panicked: ");
            },
        }
        out.write_str(info.message.as_str());
        out.emit_char('\n');
        assert(out@ =~= old(out)@ + info.rendered());
    }

    /// Ends the run: nothing follows `Halted`.
    pub fn halt(&mut self)
        requires
            old(self).stage() == PanicState::Firing,
        ensures
            final(self).stage() == PanicState::Halted,
    {
        self.state = PanicState::Halted;
    }
}

/// Handles a panic from start to end: reports it on the console and leaves
/// the handler halted, after which the machine is to be shut down.
pub fn panic(handler: &mut PanicHandler, out: &mut Stdout, info: &PanicInfo)
    requires
        old(handler).stage() == PanicState::Armed,
    ensures
        final(handler).stage() == PanicState::Halted,
        final(out)@ == old(out)@ + info.rendered(),
{
    handler.fire(out, info);
    handler.halt();
}

} // verus!
