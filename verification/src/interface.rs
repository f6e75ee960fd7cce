//! Finding the IPv6 address of a named network interface.

use crate::error::{TraceResult, TracerError};
use crate::types::Ipv6Address;
use vstd::prelude::*;

verus! {

/// One address of one interface, as the system lists it: the name of the
/// interface, and the address if it is an IPv6 address.
#[derive(Debug, PartialEq, Eq)]
pub struct InterfaceAddress {
    pub interface_name: String,
    pub address: Option<Ipv6Address>,
}

/// Whether `entry` is an IPv6 address of the interface `name`.
pub open spec fn is_ipv6_of(entry: InterfaceAddress, name: Seq<char>) -> bool {
    entry.interface_name@ == name && entry.address is Some
}

/// The addresses of the interfaces of this machine, in the order in which
/// `nix::ifaddrs::getifaddrs` lists them, or nothing where that call
/// fails. Of an entry only its name and, where `as_sockaddr_in6` finds its
/// address to be an IPv6 address, the octets of that address are kept.
/// Nothing is claimed of the list: it is what the system says at the time
/// of the call.
#[verifier::external_body]
fn interface_addresses() -> (r: Option<Vec<InterfaceAddress>>) {
    let addrs = nix::ifaddrs::getifaddrs().ok()?;
    let entry = |ia: nix::ifaddrs::InterfaceAddress| InterfaceAddress {
        interface_name: ia.interface_name,
        address: ia.address.and_then(
            |addr| addr.as_sockaddr_in6().map(|a| Ipv6Address { octets: a.ip().octets() }),
        ),
    };
    Some(addrs.map(entry).collect())
}

/// Whether `r` is the answer to the question for the first IPv6 address
/// that `entries` lists for the interface `name`: that address, where an
/// entry with this name has one and no entry before it does; else the
/// error that names the interface.
pub open spec fn is_lookup_result(
    r: TraceResult<Ipv6Address>,
    name: Seq<char>,
    entries: Seq<InterfaceAddress>,
) -> bool {
    match r {
        Ok(addr) => exists|i: int|
            0 <= i < entries.len() && is_ipv6_of(#[trigger] entries[i], name)
                && entries[i].address == Some(addr) && forall|j: int|
                0 <= j < i ==> !is_ipv6_of(#[trigger] entries[j], name),
        Err(e) => {
            &&& e matches TracerError::UnknownInterface(n)
            &&& n@ == name
            &&& forall|j: int| 0 <= j < entries.len() ==> !is_ipv6_of(#[trigger] entries[j], name)
        },
    }
}

/// The first IPv6 address that `entries` lists for the interface `name`.
pub fn find_interface_addr(name: &str, entries: &Vec<InterfaceAddress>) -> (r: TraceResult<
    Ipv6Address,
>)
    ensures
        is_lookup_result(r, name@, entries@),
{
    let wanted: String = name.to_owned();
    let mut i: usize = 0;
    while i < entries.len()
        invariant
            i <= entries@.len(),
            wanted@ == name@,
            forall|j: int| 0 <= j < i ==> !is_ipv6_of(#[trigger] entries@[j], name@),
        decreases entries@.len() - i,
    {
        if entries[i].interface_name == wanted {
            match entries[i].address {
                Some(addr) => {
                    return Ok(addr);
                },
                None => {},
            }
        }
        i = i + 1;
    }
    Err(TracerError::UnknownInterface(wanted))
}

/// The first IPv6 address of the interface `name` of this machine: the
/// answer of `find_interface_addr` on the addresses that the system lists
/// at the time of the call, which are no part of the arguments. Where the
/// system lists nothing, the answer is the one for an empty list: the
/// error that names the interface.
pub fn lookup_interface_addr(name: &str) -> (r: TraceResult<Ipv6Address>)
    ensures
        exists|entries: Seq<InterfaceAddress>| #[trigger] is_lookup_result(r, name@, entries),
        r matches Err(e) ==> e matches TracerError::UnknownInterface(n) && n@ == name@,
{
    match interface_addresses() {
        Some(entries) => {
            let r = find_interface_addr(name, &entries);
            assert(is_lookup_result(r, name@, entries@));
            r
        },
        None => {
            let r = Err(TracerError::UnknownInterface(name.to_owned()));
            assert(is_lookup_result(r, name@, Seq::<InterfaceAddress>::empty()));
            r
        },
    }
}

} // verus!
