//! The address gate of the configuration interface: the wired side runs a
//! DHCP server on the subnet of gateway 10.10.10.1, and only the one
//! address handed to the downstream client — the gateway's successor — may
//! reach the configuration routes.

use vstd::prelude::*;

verus! {

/// The wired-side gateway address, as octets.
pub open spec fn eth_gateway() -> Seq<u8> {
    seq![10u8, 10u8, 10u8, 1u8]
}

/// The one source address allowed in: the gateway's successor, the address
/// the DHCP server hands the single downstream client.
pub open spec fn source_allowed(ip: Seq<u8>) -> bool {
    ip =~= seq![10u8, 10u8, 10u8, 2u8]
}

/// Decides whether a request's source address may reach the configuration
/// routes. Every route handler asks this first and refuses otherwise.
pub fn check_ip(source: [u8; 4]) -> (r: bool)
    ensures
        r == source_allowed(source@),
{
    let ok = source[0] == 10 && source[1] == 10 && source[2] == 10 && source[3] == 2;
    proof {
        if source@[0] == 10 && source@[1] == 10 && source@[2] == 10 && source@[3] == 2 {
            assert(source@ =~= seq![10u8, 10u8, 10u8, 2u8]);
        }
    }
    ok
}

} // verus!
