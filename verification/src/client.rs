//! How the client reaches the services over DDS.

use vstd::prelude::*;

verus! {

/// The address to register as a static unicast peer: the given peer, or
/// none when it is empty, in which case discovery relies on multicast.
pub fn static_peer(peer: &str) -> (r: Option<String>)
    ensures
        r is None <==> peer@.len() == 0,
        r matches Some(p) ==> p@ == peer@,
{
    if peer.is_empty() {
        None
    } else {
        Some(String::from_str(peer))
    }
}

} // verus!
