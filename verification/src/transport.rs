//! The control tool's connection strategy across the two transports.
//!
//! The local socket is preferred when its filesystem path exists; a
//! failure there falls back to the network transport.  A configuration
//! flag can force the network transport outright.  The connections
//! themselves are made outside the library, in the order decided here.

use vstd::prelude::*;

verus! {

use crate::config::{path_exists, CtlConfig};

/// The two transport kinds of the control channel.
#[derive(Debug, Clone, Copy, PartialEq, Eq, Structural)]
pub enum TransportKind {
    LocalSocket,
    Network,
}

/// The attempt order for given circumstances: forcing the network, or a
/// missing local-socket path, goes straight to the network transport;
/// otherwise the local socket is tried first with the network as
/// fallback.
pub open spec fn spec_connect_attempts(tcp_forced: bool, socket_exists: bool) -> Seq<
    TransportKind,
> {
    if tcp_forced || !socket_exists {
        seq![TransportKind::Network]
    } else {
        seq![TransportKind::LocalSocket, TransportKind::Network]
    }
}

/// Decide the transport attempt order from the forcing flag and the
/// presence of the local-socket path.
pub fn connect_attempts(tcp_forced: bool, socket_exists: bool) -> (r: Vec<TransportKind>)
    ensures
        r@ == spec_connect_attempts(tcp_forced, socket_exists),
{
    let mut out: Vec<TransportKind> = Vec::new();
    if tcp_forced || !socket_exists {
        out.push(TransportKind::Network);
        proof {
            assert(out@ =~= spec_connect_attempts(tcp_forced, socket_exists));
        }
    } else {
        out.push(TransportKind::LocalSocket);
        out.push(TransportKind::Network);
        proof {
            assert(out@ =~= spec_connect_attempts(tcp_forced, socket_exists));
        }
    }
    out
}

/// The attempt order for this configuration.  Forcing the network
/// transport short-circuits without touching the filesystem; otherwise
/// the local-socket path is probed for existence.
pub fn connect_order(config: &CtlConfig) -> (r: Vec<TransportKind>)
    ensures
        config.tcp ==> r@ == seq![TransportKind::Network],
        !config.tcp ==> (r@ == seq![TransportKind::Network] || r@ == seq![
            TransportKind::LocalSocket,
            TransportKind::Network,
        ]),
        r@.len() > 0,
        r@.last() == TransportKind::Network,
{
    if config.tcp {
        let r = connect_attempts(true, false);
        proof {
            assert(r@.last() == TransportKind::Network);
        }
        return r;
    }
    let socket_exists = path_exists(config.socket.as_str());
    let r = connect_attempts(false, socket_exists);
    proof {
        assert(r@.last() == TransportKind::Network);
    }
    r
}

} // verus!
