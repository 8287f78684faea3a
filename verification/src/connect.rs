//! The choice of the address to connect to, under the access policy.
//!
//! The policy is the caller's: a function that says whether an address and a
//! port may be reached. A request for an IP address has that address as its
//! one candidate; a request for a domain name has the addresses that the name
//! resolved to, in the resolver's order. The first candidate that the policy
//! permits is the destination, and no other is ever tried.

use crate::address::{Address, AddressView, IpAddress, Request, RequestView, SocketAddress};
use vstd::prelude::*;

verus! {

/// Milliseconds allowed for resolving the name, consulting the policy and
/// opening the outbound connection, all together.
pub const CONNECT_DEADLINE_MS: u64 = 3000;

/// The policy was asked about candidate `k` and permitted it, after it had
/// been asked about every earlier candidate and had refused each.
pub open spec fn is_first_permitted<P: Fn(IpAddress, u16) -> bool>(
    permitted: P,
    candidates: Seq<IpAddress>,
    port: u16,
    k: int,
) -> bool {
    &&& 0 <= k < candidates.len()
    &&& call_ensures(permitted, (candidates[k], port), true)
    &&& forall|j: int| 0 <= j < k ==> call_ensures(permitted, (#[trigger] candidates[j], port), false)
}

/// The policy was asked about every candidate and refused each.
pub open spec fn none_permitted<P: Fn(IpAddress, u16) -> bool>(
    permitted: P,
    candidates: Seq<IpAddress>,
    port: u16,
) -> bool {
    forall|j: int|
        0 <= j < candidates.len() ==> call_ensures(permitted, (#[trigger] candidates[j], port), false)
}

/// The index of the first candidate that the policy permits on `port`.
pub fn first_permitted<P: Fn(IpAddress, u16) -> bool>(
    candidates: &Vec<IpAddress>,
    port: u16,
    permitted: &P,
) -> (choice: Option<usize>)
    requires
        forall|i: int|
            0 <= i < candidates@.len() ==> call_requires(
                *permitted,
                (#[trigger] candidates@[i], port),
            ),
    ensures
        match choice {
            Some(k) => is_first_permitted(*permitted, candidates@, port, k as int),
            None => none_permitted(*permitted, candidates@, port),
        },
{
    let mut i: usize = 0;
    while i < candidates.len()
        invariant
            i <= candidates@.len(),
            forall|i: int|
                0 <= i < candidates@.len() ==> call_requires(
                    *permitted,
                    (#[trigger] candidates@[i], port),
                ),
            forall|j: int|
                0 <= j < i ==> call_ensures(*permitted, (#[trigger] candidates@[j], port), false),
        decreases candidates@.len() - i,
    {
        if permitted(candidates[i], port) {
            return Some(i);
        }
        i += 1;
    }
    None
}

/// The addresses that may serve `request`: its own address if it names one,
/// else the addresses that its domain name resolved to.
pub open spec fn candidates_of(request: RequestView, resolved: Seq<IpAddress>) -> Seq<IpAddress> {
    match request.address {
        AddressView::IpAddr(ip) => seq![ip],
        AddressView::DomainName(_) => resolved,
    }
}

/// The destination of `request`: its first candidate that the policy permits,
/// on the requested port. `resolved` holds what the domain name resolved to,
/// in the resolver's order, and is not looked at when the request names an IP
/// address. Without a permitted candidate the request is to be denied.
pub fn select_destination<P: Fn(IpAddress, u16) -> bool>(
    request: &Request,
    resolved: &Vec<IpAddress>,
    permitted: &P,
) -> (destination: Option<SocketAddress>)
    requires
        forall|i: int|
            0 <= i < candidates_of(request@, resolved@).len() ==> call_requires(
                *permitted,
                (#[trigger] candidates_of(request@, resolved@)[i], request.dport),
            ),
    ensures
        match destination {
            Some(socket) => socket.port == request.dport && exists|k: int|
                #![trigger candidates_of(request@, resolved@)[k]]
                is_first_permitted(
                    *permitted,
                    candidates_of(request@, resolved@),
                    request.dport,
                    k,
                ) && socket.ip == candidates_of(request@, resolved@)[k],
            None => none_permitted(
                *permitted,
                candidates_of(request@, resolved@),
                request.dport,
            ),
        },
{
    match &request.address {
        Address::IpAddr(ip) => {
            let ghost candidates = candidates_of(request@, resolved@);
            assert(candidates[0] == *ip);
            if permitted(*ip, request.dport) {
                assert(is_first_permitted(*permitted, candidates, request.dport, 0));
                Some(SocketAddress { ip: *ip, port: request.dport })
            } else {
                None
            }
        },
        Address::DomainName(_) => {
            assert(candidates_of(request@, resolved@) == resolved@);
            match first_permitted(resolved, request.dport, permitted) {
                Some(k) => {
                    let ghost candidates = candidates_of(request@, resolved@);
                    assert(is_first_permitted(*permitted, candidates, request.dport, k as int));
                    assert(candidates[k as int] == resolved@[k as int]);
                    Some(SocketAddress { ip: resolved[k], port: request.dport })
                },
                None => None,
            }
        },
    }
}

} // verus!
