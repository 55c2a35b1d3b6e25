//! A connection: the handle of the process that carries it, and whether it
//! is still in use.

use vstd::prelude::*;

verus! {

/// A connection over a process of type `P`. It is connected as long as it
/// holds its process.
#[derive(Debug)]
pub struct Connection<P> {
    process: Option<P>,
    connected: bool,
}

impl<P> Connection<P> {
    /// The process that carries the connection.
    pub closed spec fn process(&self) -> Option<P> {
        self.process
    }

    /// Whether the connection is in use.
    pub closed spec fn connected(&self) -> bool {
        self.connected
    }

    /// A connection over `process`; without a process it is not connected.
    pub fn new(process: Option<P>) -> (c: Connection<P>)
        ensures
            c.process() == process,
            c.connected() == process is Some,
    {
        let connected: bool = process.is_some();
        Connection { process, connected }
    }

    /// Whether the connection is in use.
    #[verifier::when_used_as_spec(connected)]
    pub fn is_connected(&self) -> (r: bool)
        ensures
            r == self.connected(),
    {
        self.connected
    }

    /// The process, to work with.
    pub fn process_mut(&mut self) -> (p: &mut Option<P>)
        ensures
            *p == old(self).process(),
            final(self).process() == *final(p),
            final(self).connected() == old(self).connected(),
    {
        &mut self.process
    }

    /// Hands the process out; the connection is no longer in use.
    pub fn take_process(&mut self) -> (p: Option<P>)
        ensures
            p == old(self).process(),
            final(self).process() is None,
            !final(self).connected(),
    {
        self.connected = false;
        self.process.take()
    }

    /// Closes the connection: it is no longer in use, and the process that
    /// it held, if any, is handed out to be ended.
    pub fn close(&mut self) -> (p: Option<P>)
        ensures
            p == old(self).process(),
            final(self).process() is None,
            !final(self).connected(),
    {
        self.connected = false;
        self.process.take()
    }
}

} // verus!
