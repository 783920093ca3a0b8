//! The typed command/event bridge between the native backend and the
//! script-driven frontend.
//!
//! A `BridgeBuilder` accumulates the named commands and events the backend
//! exposes, together with the error-handling policy; finalizing it yields an
//! immutable `DispatchTable`, the surface the run loop routes calls and
//! event emissions through.

use vstd::prelude::*;

verus! {

/// How a failed command handler reports to the frontend.
#[derive(Clone, Copy, PartialEq, Eq, Structural, Debug)]
pub enum ErrorHandlingMode {
    /// A failed handler raises a rejection on the frontend side.
    Throw,
    /// A failed handler returns a structured error value.
    Structured,
}

/// Accumulates the command/event surface before it is finalized.
pub struct BridgeBuilder {
    commands: Vec<String>,
    events: Vec<String>,
    mode: ErrorHandlingMode,
}

/// The finalized dispatch surface: immutable once built.
pub struct DispatchTable {
    commands: Vec<String>,
    events: Vec<String>,
    mode: ErrorHandlingMode,
}

impl BridgeBuilder {
    /// The registered command names, in registration order.
    pub closed spec fn commands_view(self) -> Seq<Seq<char>> {
        self.commands@.map_values(|s: String| s@)
    }

    /// The registered event names, in registration order.
    pub closed spec fn events_view(self) -> Seq<Seq<char>> {
        self.events@.map_values(|s: String| s@)
    }

    /// The error-handling policy of the surface.
    pub closed spec fn mode(self) -> ErrorHandlingMode {
        self.mode
    }

    /// A fresh builder: no commands, no events, structured error values.
    pub fn new() -> (b: Self)
        ensures
            b.commands_view() == Seq::<Seq<char>>::empty(),
            b.events_view() == Seq::<Seq<char>>::empty(),
            b.mode() == ErrorHandlingMode::Structured,
    {
        let b = BridgeBuilder { commands: Vec::new(), events: Vec::new(), mode: ErrorHandlingMode::Structured };
        proof {
            assert(b.commands_view() =~= Seq::<Seq<char>>::empty());
            assert(b.events_view() =~= Seq::<Seq<char>>::empty());
        }
        b
    }

    /// Sets the error-handling policy, keeping the surface unchanged.
    pub fn error_handling(self, mode: ErrorHandlingMode) -> (b: Self)
        ensures
            b.commands_view() == self.commands_view(),
            b.events_view() == self.events_view(),
            b.mode() == mode,
    {
        BridgeBuilder { mode, ..self }
    }

    /// Registers one more callable command, at the end of the surface.
    pub fn register_command(&mut self, name: String)
        ensures
            final(self).commands_view() == old(self).commands_view().push(name@),
            final(self).events_view() == old(self).events_view(),
            final(self).mode() == old(self).mode(),
    {
        let ghost name_view = name@;
        self.commands.push(name);
        proof {
            assert(final(self).commands_view() =~~= old(self).commands_view().push(name_view));
        }
    }

    /// Registers one more emittable event, at the end of the surface.
    pub fn register_event(&mut self, name: String)
        ensures
            final(self).events_view() == old(self).events_view().push(name@),
            final(self).commands_view() == old(self).commands_view(),
            final(self).mode() == old(self).mode(),
    {
        let ghost name_view = name@;
        self.events.push(name);
        proof {
            assert(final(self).events_view() =~~= old(self).events_view().push(name_view));
        }
    }

    /// Finalizes the accumulated surface into an immutable dispatch table.
    pub fn build_dispatch_table(self) -> (t: DispatchTable)
        ensures
            t.commands_view() == self.commands_view(),
            t.events_view() == self.events_view(),
            t.mode() == self.mode(),
    {
        DispatchTable { commands: self.commands, events: self.events, mode: self.mode }
    }
}

impl DispatchTable {
    /// The routable command names, in registration order.
    pub closed spec fn commands_view(self) -> Seq<Seq<char>> {
        self.commands@.map_values(|s: String| s@)
    }

    /// The emittable event names, in registration order.
    pub closed spec fn events_view(self) -> Seq<Seq<char>> {
        self.events@.map_values(|s: String| s@)
    }

    /// The error-handling policy of the surface.
    pub closed spec fn mode(self) -> ErrorHandlingMode {
        self.mode
    }

    /// How many commands the table routes.
    pub fn command_count(&self) -> (n: usize)
        ensures
            n == self.commands_view().len(),
    {
        self.commands.len()
    }

    /// How many events the table can emit.
    pub fn event_count(&self) -> (n: usize)
        ensures
            n == self.events_view().len(),
    {
        self.events.len()
    }

    /// The command name at a position of the surface.
    pub fn command_name(&self, i: usize) -> (r: &String)
        requires
            i < self.commands_view().len(),
        ensures
            r@ == self.commands_view()[i as int],
    {
        &self.commands[i]
    }

    /// The event name at a position of the surface.
    pub fn event_name(&self, i: usize) -> (r: &String)
        requires
            i < self.events_view().len(),
        ensures
            r@ == self.events_view()[i as int],
    {
        &self.events[i]
    }

    /// The error-handling policy, as the run loop reads it.
    pub fn current_mode(&self) -> (m: ErrorHandlingMode)
        ensures
            m == self.mode(),
    {
        self.mode
    }

    /// Whether an incoming call can be routed: the name is on the surface.
    pub fn routes_command(&self, name: &String) -> (r: bool)
        ensures
            r == self.commands_view().contains(name@),
    {
        let n = self.commands.len();
        let mut i: usize = 0;
        while i < n
            invariant
                n == self.commands@.len(),
                i <= n,
                forall|j: int| 0 <= j < i ==> self.commands_view()[j] != name@,
            decreases n - i,
        {
            if self.commands[i] == *name {
                proof {
                    assert(self.commands_view()[i as int] == name@);
                }
                return true;
            }
            i += 1;
        }
        false
    }
}

} // verus!
