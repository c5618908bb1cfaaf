//! Scanning the local interface/address table and extracting, per configured
//! interface name and family, the first bound address.

use vstd::prelude::*;
use crate::addr::{AddressFamily, InterfaceAddress};
use crate::strutil::str_equal;

verus! {

/// The error type of the interface enumeration crate, carried through
/// opaquely.
#[verifier::external_type_specification]
#[verifier::external_body]
pub struct ExLocalIpError(local_ip_address::Error);

/// The one recoverable scan failure: the operating-system query itself
/// failed.  The cycle it belongs to is abandoned; the agent retries on the
/// next cycle.
#[derive(Clone, Copy, PartialEq, Eq, Structural, Debug)]
pub enum ScanError {
    /// The interface/address table could not be read.
    OsQueryFailed,
}

/// Relies on local_ip_address::list_afinet_netifas to enumerate the local
/// interfaces with their bound addresses.  What it returns depends on the
/// machine's interface table at the moment of the call, so nothing is stated
/// of the entries; the verified callers work with whatever table came back.
#[verifier::external_body]
fn os_interface_table() -> (r: Result<Vec<InterfaceAddress>, local_ip_address::Error>) {
    match local_ip_address::list_afinet_netifas() {
        Ok(entries) => Ok(
            entries.into_iter().map(
                |(name, ip)| InterfaceAddress {
                    interface: name,
                    family: if ip.is_ipv4() { AddressFamily::V4 } else { AddressFamily::V6 },
                    address: ip.to_string(),
                },
            ).collect(),
        ),
        Err(e) => Err(e),
    }
}

/// Reads the current interface/address table, one entry per bound address.
/// A pure read: no state anywhere is changed.  Fails, and never panics, when
/// the operating-system query fails.
pub fn scan_interfaces() -> (r: Result<Vec<InterfaceAddress>, ScanError>) {
    match os_interface_table() {
        Ok(entries) => Ok(entries),
        Err(_) => Err(ScanError::OsQueryFailed),
    }
}

/// The first address of the given family bound to the given interface, in
/// table order.
pub open spec fn first_family_match(
    entries: Seq<InterfaceAddress>,
    iface: Seq<char>,
    family: AddressFamily,
) -> Option<Seq<char>>
    decreases entries.len(),
{
    if entries.len() == 0 {
        None
    } else if entries[0].family == family && entries[0].interface@ == iface {
        Some(entries[0].address@)
    } else {
        first_family_match(entries.skip(1), iface, family)
    }
}

/// Extracts, for one configured interface name and family, the first scanned
/// address — at most one address per family, exactly the first match in table
/// order.
pub fn extract_address(
    entries: &Vec<InterfaceAddress>,
    iface: &str,
    family: AddressFamily,
) -> (r: Option<String>)
    ensures
        crate::addr::opt_str(r) == first_family_match(entries@, iface@, family),
{
    let n: usize = entries.len();
    let mut i: usize = 0;
    proof {
        assert(entries@.skip(0) =~= entries@);
    }
    while i < n
        invariant
            i <= n,
            n == entries@.len(),
            first_family_match(entries@, iface@, family) == first_family_match(
                entries@.skip(i as int),
                iface@,
                family,
            ),
        decreases n - i,
    {
        let ghost rem = entries@.skip(i as int);
        assert(rem[0] == entries@[i as int]);
        let e = &entries[i];
        if e.family == family && str_equal(e.interface.as_str(), iface) {
            return Some(e.address.clone());
        }
        proof {
            assert(rem.skip(1) =~= entries@.skip(i + 1));
        }
        i += 1;
    }
    None
}

} // verus!
