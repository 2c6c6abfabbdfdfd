//! The set of connections that one client supervises.
//!
//! Each connection has its own owner and its own lock, so the client holds
//! handles to them, of whatever type `H` its owner uses, and decides two
//! things: whether a new connection is still accepted, and which
//! connections a shutdown has to close.

use vstd::prelude::*;

verus! {

/// The connections supervised together.
pub struct RabbitClient<H> {
    connections: Vec<H>,
    accepting: bool,
}

/// Mathematical value of a [`RabbitClient`].
pub struct ClientView<H> {
    /// The supervised connections, oldest first.
    pub connections: Seq<H>,
    /// Whether new connections are accepted.
    pub accepting: bool,
}

impl<H> ClientView<H> {
    /// A client that supervises nothing yet.
    pub open spec fn started() -> ClientView<H> {
        ClientView { connections: Seq::empty(), accepting: true }
    }

    /// The client after `connection` was offered to it: it is taken in
    /// while the client accepts, and refused after a shutdown.
    pub open spec fn connected(self, connection: H) -> ClientView<H> {
        if self.accepting {
            ClientView { connections: self.connections.push(connection), ..self }
        } else {
            self
        }
    }

    /// The client after a shutdown: it supervises nothing and accepts
    /// nothing.
    pub open spec fn shut_down(self) -> ClientView<H> {
        ClientView { connections: Seq::empty(), accepting: false }
    }
}

impl<H> View for RabbitClient<H> {
    type V = ClientView<H>;

    closed spec fn view(&self) -> ClientView<H> {
        ClientView { connections: self.connections@, accepting: self.accepting }
    }
}

/// Starts a client. It supervises nothing yet and accepts connections.
pub fn start<H>() -> (client: RabbitClient<H>)
    ensures
        client@ == ClientView::<H>::started(),
{
    RabbitClient { connections: Vec::new(), accepting: true }
}

impl<H> RabbitClient<H> {
    /// Takes a new connection under supervision. After a shutdown the
    /// connection is refused and handed back.
    pub fn connect(&mut self, connection: H) -> (answer: Result<(), H>)
        ensures
            final(self)@ == old(self)@.connected(connection),
            old(self)@.accepting ==> answer is Ok,
            !old(self)@.accepting ==> answer == Err::<(), H>(connection),
    {
        if self.accepting {
            self.connections.push(connection);
            Ok(())
        } else {
            Err(connection)
        }
    }

    /// Shuts the client down: from now on it accepts no connection, and it
    /// hands out every connection that it supervised, oldest first, for the
    /// caller to close each and wait until all are closed.
    pub fn shutdown(&mut self) -> (released: Vec<H>)
        ensures
            final(self)@ == old(self)@.shut_down(),
            released@ == old(self)@.connections,
    {
        let mut released = Vec::new();
        std::mem::swap(&mut self.connections, &mut released);
        self.accepting = false;
        released
    }

    /// Whether new connections are accepted.
    pub fn is_accepting(&self) -> (accepting: bool)
        ensures
            accepting == self@.accepting,
    {
        self.accepting
    }

    /// The number of supervised connections.
    pub fn len(&self) -> (count: usize)
        ensures
            count == self@.connections.len(),
    {
        self.connections.len()
    }
}

/// A shutdown is final: afterwards every connection that is offered is
/// refused, and another shutdown finds nothing to close.
pub proof fn lemma_shutdown_is_final<H>(client: ClientView<H>, connection: H)
    ensures
        client.shut_down().connected(connection) == client.shut_down(),
        client.shut_down().shut_down() == client.shut_down(),
        client.shut_down().connections.len() == 0,
{
}

} // verus!
