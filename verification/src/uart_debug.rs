//! Debug byte sink.
//!
//! [`DbgWriter`] forwards debug strings to a UART sink once one is wired in,
//! and silently drops them before that, so that debug printing is safe to
//! call whether or not the board glue has set the port up. The sink is
//! modeled as the ordered log of what was written; the board glue owns the
//! actual port.

use vstd::prelude::*;

verus! {

/// The modeled UART sink: the ordered log of every string handed to it.
pub struct DebugUart {
    /// Every string written, oldest first.
    pub messages: Vec<String>,
}

impl View for DebugUart {
    type V = Seq<Seq<char>>;

    open spec fn view(&self) -> Seq<Seq<char>> {
        self.messages@.map_values(|m: String| m@)
    }
}

impl DebugUart {
    /// A sink with nothing written yet.
    pub fn new() -> (u: DebugUart)
        ensures
            u@ == Seq::<Seq<char>>::empty(),
    {
        let u = DebugUart { messages: Vec::new() };
        proof {
            assert(u@ =~= Seq::<Seq<char>>::empty());
        }
        u
    }
}

/// The log a writer's sink holds: empty while no sink is wired.
pub open spec fn sink_log(w: &DbgWriter) -> Seq<Seq<char>> {
    match w.uart {
        Some(u) => u@,
        None => Seq::empty(),
    }
}

/// Debug writer over an optional UART sink.
pub struct DbgWriter {
    /// The wired sink, if any.
    pub uart: Option<DebugUart>,
}

impl DbgWriter {
    /// A writer with no sink wired: writes are dropped.
    pub fn new() -> (w: DbgWriter)
        ensures
            w.uart is None,
    {
        DbgWriter { uart: None }
    }

    /// Wires a sink in; subsequent writes append to it.
    pub fn wire(&mut self, uart: DebugUart)
        ensures
            final(self).uart == Some(uart),
    {
        self.uart = Some(uart);
    }

    /// Appends `s` to the wired sink's log; with no sink wired the write is
    /// dropped and the writer is untouched.
    pub fn write_str(&mut self, s: &str)
        ensures
            final(self).uart is Some <==> old(self).uart is Some,
            old(self).uart is Some ==> sink_log(final(self)) == sink_log(old(self)).push(s@),
            old(self).uart is None ==> *final(self) == *old(self),
    {
        match &mut self.uart {
            Some(uart) => {
                uart.messages.push(s.to_owned());
            },
            None => {},
        }
        proof {
            if old(self).uart is Some {
                assert(sink_log(self) =~= sink_log(old(self)).push(s@));
            }
        }
    }
}

} // verus!
