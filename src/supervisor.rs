use vstd::prelude::*;

verus! {

/// Owns the generation of the live event-stream connection. Each receive is
/// tagged with the generation current when it started; a delivery with any
/// other tag belongs to a superseded connection and is dropped.
#[derive(Debug)]
pub struct Supervisor {
    current_generation: u64,
}

impl Supervisor {
    /// The generation of the live connection.
    pub closed spec fn generation(&self) -> u64 {
        self.current_generation
    }

    /// A supervisor before any subscription.
    pub fn new() -> (r: Supervisor)
        ensures
            r.generation() == 0,
    {
        Supervisor { current_generation: 0 }
    }

    /// The generation of the live connection.
    pub fn current(&self) -> (r: u64)
        ensures
            r == self.generation(),
    {
        self.current_generation
    }

    /// Starts a new subscription and returns its generation, which
    /// supersedes every earlier one.
    pub fn resubscribe(&mut self) -> (r: u64)
        requires
            old(self).generation() < u64::MAX,
        ensures
            r == old(self).generation() + 1,
            final(self).generation() == r,
    {
        self.current_generation = self.current_generation + 1;
        self.current_generation
    }

    /// Whether a delivery tagged `generation` comes from the live connection.
    pub fn is_current(&self, generation: u64) -> (r: bool)
        ensures
            r == (generation == self.generation()),
    {
        generation == self.current_generation
    }

    /// The live connection failed at the transport: its subscription never
    /// took, so the generation steps back, never below zero.
    pub fn on_socket_error(&mut self)
        ensures
            final(self).generation() == if old(self).generation() > 0 {
                old(self).generation() - 1
            } else {
                0
            },
    {
        if self.current_generation > 0 {
            self.current_generation = self.current_generation - 1;
        }
    }
}

} // verus!
