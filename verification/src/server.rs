use vstd::prelude::*;

verus! {

/// Whether the server is listening.
#[derive(Debug, PartialEq, Eq, PartialOrd, Ord, Hash, Clone, Copy, Structural)]
pub enum ServerState {
    On,
    Off,
}

/// The lifecycle of the file server: whether it is on, and whether the
/// signal that stops its listener can still be sent.
#[derive(Debug)]
pub struct ShareServer {
    server_state: ServerState,
    shutdown_token: bool,
}

/// `ShareServer` as a value of texts, sequences and numbers.
pub struct ShareServerView {
    pub server_state: ServerState,
    pub shutdown_token: bool,
}

impl View for ShareServer {
    type V = ShareServerView;

    closed spec fn view(&self) -> ShareServerView {
        ShareServerView { server_state: self.server_state, shutdown_token: self.shutdown_token }
    }
}

impl ShareServer {
    /// A server that is on can be stopped.
    #[verifier::type_invariant]
    spec fn can_stop(self) -> bool {
        self.server_state == ServerState::On ==> self.shutdown_token
    }

    /// A server that is off.
    pub fn new() -> (server: ShareServer)
        ensures
            server@ == (ShareServerView { server_state: ServerState::Off, shutdown_token: false }),
    {
        ShareServer { server_state: ServerState::Off, shutdown_token: false }
    }

    /// Turns the server on. Says whether a listener is to be started: it is
    /// not where the server is on already, and nothing changes then.
    pub fn start(&mut self) -> (launch: bool)
        ensures
            launch == (old(self)@.server_state == ServerState::Off),
            launch ==> final(self)@ == (ShareServerView {
                server_state: ServerState::On,
                shutdown_token: true,
            }),
            !launch ==> final(self)@ == old(self)@,
    {
        if self.server_state == ServerState::On {
            return false;
        }
        *self = ShareServer { server_state: ServerState::On, shutdown_token: true };
        true
    }

    pub fn state(&self) -> (state: ServerState)
        ensures
            state == self@.server_state,
    {
        self.server_state
    }

    /// Turns the server off. Says whether the listener is to be signalled to
    /// stop: it is not where the server is off already, and nothing changes
    /// then.
    pub fn stop(&mut self) -> (signal: bool)
        ensures
            signal == (old(self)@.server_state == ServerState::On),
            signal ==> final(self)@ == (ShareServerView {
                server_state: ServerState::Off,
                shutdown_token: false,
            }),
            !signal ==> final(self)@ == old(self)@,
    {
        proof {
            use_type_invariant(&*self);
        }
        if self.server_state == ServerState::Off {
            return false;
        }
        *self = ShareServer { server_state: ServerState::Off, shutdown_token: false };
        true
    }

    /// Takes note that the listener has ended with an error: the server is
    /// off from then on.
    pub fn failed(&mut self)
        ensures
            final(self)@ == (ShareServerView {
                server_state: ServerState::Off,
                shutdown_token: old(self)@.shutdown_token,
            }),
    {
        *self = ShareServer { server_state: ServerState::Off, shutdown_token: self.shutdown_token };
    }
}

} // verus!
