//! The textual form of the IPv4 address that the daemon resolves a host to.

use crate::decimal::{decimal, push_decimal};
use vstd::prelude::*;

verus! {

/// The dotted-decimal form of the address whose bytes are `octets`, in the
/// order in which they travel on the network.
pub open spec fn dotted_quad(octets: Seq<u8>) -> Seq<char> {
    decimal(octets[0] as nat) + seq!['.'] + decimal(octets[1] as nat) + seq!['.'] + decimal(
        octets[2] as nat,
    ) + seq!['.'] + decimal(octets[3] as nat)
}

/// Renders an IPv4 address in dotted-decimal form: `[10, 0, 0, 5]` gives
/// `"10.0.0.5"`.
pub fn get_ip(octets: [u8; 4]) -> (r: String)
    ensures
        r@ == dotted_quad(octets@),
{
    proof {
        reveal_strlit(".");
    }
    let mut out = String::new();
    push_decimal(&mut out, octets[0] as u32);
    out.append(".");
    push_decimal(&mut out, octets[1] as u32);
    out.append(".");
    push_decimal(&mut out, octets[2] as u32);
    out.append(".");
    push_decimal(&mut out, octets[3] as u32);
    assert(out@ =~= dotted_quad(octets@));
    out
}

} // verus!
