//! The connector for plain TCP, and the dial target of a request.

use vstd::prelude::*;
use crate::text::{concat3, decimal, decimal_string, opt_str_view, owned};
use crate::transport_url::{default_port, scheme_default_port};
use crate::types::{ErrorView, TransportError};

verus! {

/// The address that a TCP dial names: `<host>:<port>`.
pub open spec fn address_of(host: Seq<char>, port: u16) -> Seq<char> {
    host + ":"@ + decimal(port as nat)
}

/// The host and port that a request is dialled at, given what its URI
/// holds: the host must be there; the port is the one named, else the
/// default of the scheme, else 80.
pub open spec fn target_spec(
    host: Option<Seq<char>>,
    port: Option<u16>,
    scheme: Option<Seq<char>>,
) -> Result<(Seq<char>, u16), ErrorView> {
    match host {
        None => Err(ErrorView::InvalidUrl("No host in URI"@)),
        Some(h) => Ok(
            (
                h,
                match port {
                    Some(p) => p,
                    None => match scheme {
                        Some(s) => default_port(s),
                        None => 80,
                    },
                },
            ),
        ),
    }
}

/// The host and port at which a request is dialled.
pub fn dial_target(host: Option<&str>, port: Option<u16>, scheme: Option<&str>) -> (r: Result<
    (String, u16),
    TransportError,
>)
    ensures
        match r {
            Ok((h, p)) => target_spec(opt_str_view(host), port, opt_str_view(scheme)) == Ok::<
                (Seq<char>, u16),
                ErrorView,
            >((h@, p)),
            Err(e) => target_spec(opt_str_view(host), port, opt_str_view(scheme)) == Err::<
                (Seq<char>, u16),
                ErrorView,
            >(e@),
        },
{
    match host {
        None => Err(TransportError::InvalidUrl(owned("No host in URI"))),
        Some(h) => {
            let p: u16 = match port {
                Some(p) => p,
                None => match scheme {
                    Some(s) => scheme_default_port(s),
                    None => 80,
                },
            };
            Ok((owned(h), p))
        },
    }
}

/// The connector that dials hosts directly.
#[derive(Debug, Clone, Copy, Default)]
pub struct TcpConnector;

impl TcpConnector {
    /// The connector.
    pub fn new() -> (r: Self) {
        TcpConnector
    }

    /// The address to dial for a host and a port: `<host>:<port>`.
    pub fn address(&self, host: &str, port: u16) -> (r: String)
        ensures
            r@ == address_of(host@, port),
    {
        let digits = decimal_string(port as u64);
        concat3(host, ":", digits.as_str())
    }
}

} // verus!
