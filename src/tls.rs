//! What the TLS acceptor offers its clients.
use vstd::prelude::*;

verus! {

/// The application protocols offered in the TLS handshake, most preferred
/// first: HTTP/2, then HTTP/1.1, then HTTP/1.0.
pub open spec fn alpn_list() -> Seq<Seq<u8>> {
    seq![
        seq![0x68u8, 0x32u8],
        seq![0x68u8, 0x74u8, 0x74u8, 0x70u8, 0x2fu8, 0x31u8, 0x2eu8, 0x31u8],
        seq![0x68u8, 0x74u8, 0x74u8, 0x70u8, 0x2fu8, 0x31u8, 0x2eu8, 0x30u8],
    ]
}

/// The ALPN protocol identifiers, as bytes: `h2`, `http/1.1`, `http/1.0`.
pub fn alpn_protocols() -> (r: Vec<Vec<u8>>)
    ensures
        r@.len() == alpn_list().len(),
        forall|i: int| 0 <= i < r@.len() ==> (#[trigger] r@[i])@ == alpn_list()[i],
{
    let h2: Vec<u8> = vec![0x68u8, 0x32u8];
    let http11: Vec<u8> = vec![0x68u8, 0x74u8, 0x74u8, 0x70u8, 0x2fu8, 0x31u8, 0x2eu8, 0x31u8];
    let http10: Vec<u8> = vec![0x68u8, 0x74u8, 0x74u8, 0x70u8, 0x2fu8, 0x31u8, 0x2eu8, 0x30u8];
    let r = vec![h2, http11, http10];
    assert(r@[0]@ =~= alpn_list()[0]);
    assert(r@[1]@ =~= alpn_list()[1]);
    assert(r@[2]@ =~= alpn_list()[2]);
    r
}

} // verus!
