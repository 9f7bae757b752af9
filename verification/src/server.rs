//! The handle of a server: the port on which it listens and the signal that stops it.
//!
//! A server listens from the moment its listener is bound until its handle asks it to shut
//! down, which the handle does once: when it is told to, or at the latest when it is dropped.
//! From then on the serving task accepts no new connection and ends when the requests in flight
//! are answered. Nothing brings a server back.

use crate::error::StaticDirectoryServerError;
use crate::lifecycle::{Event, Lifecycle};
use crate::signal::{send_shutdown, shutdown_channel};
use crate::text::{decimal, lemma_decimal_determines_number, push_decimal};
use tokio::sync::oneshot::{Receiver, Sender};
use vstd::prelude::*;

verus! {

/// The host to which every listener is bound: the loopback interface, and no other.
pub const LOOPBACK: [u8; 4] = [127, 0, 0, 1];

/// The port to ask for when binding, which leaves the choice of a free port to the system.
pub const ANY_PORT: u16 = 0;

/// The root URL of a server that listens on `port`.
pub open spec fn root_url(port: u16) -> Seq<char> {
    "http://localhost:"@ + decimal(port as nat)
}

/// Servers that listen on different ports have different root URLs.
pub proof fn lemma_root_url_determines_port(port: u16, other: u16)
    requires
        root_url(port) == root_url(other),
    ensures
        port == other,
{
    let scheme_and_host = "http://localhost:"@;
    assert(root_url(port).skip(scheme_and_host.len() as int) =~= decimal(port as nat));
    assert(root_url(other).skip(scheme_and_host.len() as int) =~= decimal(other as nat));
    lemma_decimal_determines_number(port as nat, other as nat);
}

/// The handle of a server that serves the content of a directory on the loopback interface.
/// Dropping it shuts the server down.
pub struct StaticDirectoryServer {
    port: u16,
    shutdown_sender: Option<Sender<()>>,
}

impl StaticDirectoryServer {
    /// The system assigns a port other than the one asked for, which is no port at all.
    #[verifier::type_invariant]
    spec fn port_is_assigned(self) -> bool {
        self.port != ANY_PORT
    }

    /// The port on which the server listens.
    pub closed spec fn spec_port(&self) -> u16 {
        self.port
    }

    /// Whether the server has not yet been asked to shut down.
    pub closed spec fn spec_is_listening(&self) -> bool {
        self.shutdown_sender is Some
    }

    /// How far the handle has brought the server. That a server has stopped is for its serving
    /// task to know: a handle sees it listening, or shutting down.
    pub open spec fn lifecycle(&self) -> Lifecycle {
        if self.is_listening() {
            Lifecycle::Listening
        } else {
            Lifecycle::ShuttingDown
        }
    }

    /// Makes the handle of a server from the outcome of binding its listener: from the port
    /// that the listener was bound to, or from the error that kept it from being bound. With
    /// the handle comes the receiving half of the shutdown signal, for the serving task to wait
    /// on.
    pub fn new(bound: Result<u16, std::io::Error>) -> (started: Result<
        (StaticDirectoryServer, Receiver<()>),
        StaticDirectoryServerError,
    >)
        requires
            bound matches Ok(port) ==> port != ANY_PORT,
        ensures
            match bound {
                Ok(port) => started matches Ok((server, _)) && server.port() == port
                    && server.is_listening() && server.lifecycle() == Lifecycle::Created.after(
                    Event::Bound,
                ),
                Err(source) => started matches Err(StaticDirectoryServerError::Io(error))
                    && error == source,
            },
    {
        match bound {
            Ok(port) => {
                let (sender, receiver) = shutdown_channel();
                Ok((StaticDirectoryServer { port, shutdown_sender: Some(sender) }, receiver))
            },
            Err(source) => Err(StaticDirectoryServerError::Io(source)),
        }
    }

    /// The port on which the server listens.
    #[verifier::when_used_as_spec(spec_port)]
    pub fn port(&self) -> (port: u16)
        ensures
            port == self.port(),
            port != ANY_PORT,
    {
        proof {
            use_type_invariant(self);
        }
        self.port
    }

    /// Whether the server has not yet been asked to shut down.
    #[verifier::when_used_as_spec(spec_is_listening)]
    pub fn is_listening(&self) -> (listening: bool)
        ensures
            listening == self.is_listening(),
    {
        self.shutdown_sender.is_some()
    }

    /// The root URL of the server.
    pub fn url(&self) -> (url: String)
        ensures
            url@ == root_url(self.port()),
            self.port() > 0,
    {
        proof {
            use_type_invariant(self);
        }
        let mut url = "http://localhost:".to_owned();
        push_decimal(&mut url, self.port as u64);
        url
    }

    /// Asks the server to shut down, unless it has been asked before. Says whether this call
    /// was the one that asked.
    pub fn shutdown(&mut self) -> (signalled: bool)
        ensures
            signalled == old(self).is_listening(),
            !final(self).is_listening(),
            final(self).lifecycle() == old(self).lifecycle().after(Event::ShutdownRequested),
            final(self).port() == old(self).port(),
        opens_invariants none
        no_unwind
    {
        proof {
            use_type_invariant(&*self);
        }
        let mut taken: Option<Sender<()>> = None;
        std::mem::swap(&mut self.shutdown_sender, &mut taken);
        match taken {
            Some(sender) => {
                send_shutdown(sender);
                true
            },
            None => false,
        }
    }
}

impl Drop for StaticDirectoryServer {
    /// Asks the server to shut down, unless it has been asked before: a handle that goes away
    /// leaves no server behind.
    fn drop(&mut self)
        ensures
            !final(self).is_listening(),
            final(self).lifecycle() == old(self).lifecycle().after(Event::ShutdownRequested),
            final(self).port() == old(self).port(),
        opens_invariants none
        no_unwind
    {
        let _signalled: bool = self.shutdown();
    }
}

} // verus!
