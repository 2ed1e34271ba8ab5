//! Rules of the server configuration that the command line produces.
use vstd::prelude::*;

verus! {

/// What to do about TLS, given which TLS options the command line holds.
#[derive(Clone, Copy, Debug, PartialEq, Eq, Structural)]
pub enum TlsPlan {
    /// Key and certificate chain are both given and HTTPS sockets are set: load them.
    Load,
    /// Key and certificate chain are given, but no HTTPS socket would use them.
    NoHttpsSockets,
    /// Only one of key and certificate chain is given: neither is loaded.
    Incomplete,
    /// No TLS option is given.
    NotRequested,
}

/// The plan for the given options.
pub open spec fn plan_of(has_key: bool, has_cert: bool, has_https_sockets: bool) -> TlsPlan {
    if has_key && has_cert {
        if has_https_sockets {
            TlsPlan::Load
        } else {
            TlsPlan::NoHttpsSockets
        }
    } else if has_key != has_cert {
        TlsPlan::Incomplete
    } else {
        TlsPlan::NotRequested
    }
}

/// Decides whether the TLS key and certificate chain are to be loaded.
pub fn tls_plan(has_key: bool, has_cert: bool, has_https_sockets: bool) -> (r: TlsPlan)
    ensures
        r == plan_of(has_key, has_cert, has_https_sockets),
{
    if has_key && has_cert {
        if has_https_sockets {
            TlsPlan::Load
        } else {
            TlsPlan::NoHttpsSockets
        }
    } else if has_key != has_cert {
        TlsPlan::Incomplete
    } else {
        TlsPlan::NotRequested
    }
}

} // verus!
