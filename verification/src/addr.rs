//! Address families, scanned interface addresses, per-family eligibility
//! predicates, and the last-confirmed address state with its change detector.

use vstd::prelude::*;
use crate::strutil::{is_prefix_of, starts_with_str, str_equal};

verus! {

/// The two address families the agent can track.
#[derive(Clone, Copy, PartialEq, Eq, Structural, Debug)]
pub enum AddressFamily {
    V4,
    V6,
}

/// One address bound to a local interface, as one scan cycle saw it.
#[derive(Clone, Debug)]
pub struct InterfaceAddress {
    /// The interface the address is bound to.
    pub interface: String,
    /// Which family the address belongs to.
    pub family: AddressFamily,
    /// The textual form of the address.
    pub address: String,
}

/// Whether a deployment treats IPv4 addresses under its prefix as the ones to
/// propagate, or as the ones to skip.  The observed deployments disagree on
/// this, so the polarity is configuration, never a built-in choice.
#[derive(Clone, Copy, PartialEq, Eq, Structural, Debug)]
pub enum V4Polarity {
    /// Only addresses starting with the configured prefix are eligible.
    RequirePrefix,
    /// Addresses starting with the configured prefix are excluded.
    ExcludePrefix,
}

/// The deployment-specific IPv4 eligibility rule.
#[derive(Clone, Debug)]
pub struct V4Rule {
    /// The textual prefix the rule tests, such as a private-range marker.
    pub prefix: String,
    /// Whether the prefix selects or excludes candidates.
    pub polarity: V4Polarity,
}

/// The IPv4 eligibility predicate: prefix membership, with the configured
/// polarity deciding whether membership selects or excludes.
pub open spec fn v4_eligible(rule: V4Rule, addr: Seq<char>) -> bool {
    match rule.polarity {
        V4Polarity::RequirePrefix => is_prefix_of(rule.prefix@, addr),
        V4Polarity::ExcludePrefix => !is_prefix_of(rule.prefix@, addr),
    }
}

/// The IPv6 eligibility predicate: link-local (`fe80`) and unique-local
/// (`fd`) addresses are never candidates.
pub open spec fn v6_eligible(addr: Seq<char>) -> bool {
    !is_prefix_of("fe80"@, addr) && !is_prefix_of("fd"@, addr)
}

/// Decides IPv4 eligibility under the deployment's rule.
pub fn is_v4_eligible(rule: &V4Rule, addr: &str) -> (r: bool)
    ensures
        r == v4_eligible(*rule, addr@),
{
    let starts = starts_with_str(addr, rule.prefix.as_str());
    match rule.polarity {
        V4Polarity::RequirePrefix => starts,
        V4Polarity::ExcludePrefix => !starts,
    }
}

/// Decides IPv6 eligibility: rejects link-local and unique-local addresses.
pub fn is_v6_eligible(addr: &str) -> (r: bool)
    ensures
        r == v6_eligible(addr@),
{
    !starts_with_str(addr, "fe80") && !starts_with_str(addr, "fd")
}

/// Link-local and unique-local IPv6 candidates are rejected by the
/// eligibility predicate, whatever the last-confirmed state holds.
pub proof fn lemma_v6_rejects_local(addr: Seq<char>, last: Option<Seq<char>>)
    requires
        is_prefix_of("fe80"@, addr) || is_prefix_of("fd"@, addr),
    ensures
        !v6_eligible(addr),
        v6_candidate(Some(addr), last) is None,
{
}

/// The view of an optional owned string.
pub open spec fn opt_str(o: Option<String>) -> Option<Seq<char>> {
    match o {
        Some(s) => Some(s@),
        None => None,
    }
}

/// The last successfully propagated address per family; `None` means "never
/// sent" for a family, so a fresh process always has an update to attempt
/// once an eligible address appears.
#[derive(Clone, Debug)]
pub struct AddressState {
    /// The last committed IPv4 address, if any cycle ever succeeded with one.
    pub ipv4: Option<String>,
    /// The last committed IPv6 address, if any cycle ever succeeded with one.
    pub ipv6: Option<String>,
}

/// The candidate addresses of one cycle: for each family, `Some` exactly when
/// the family changed this cycle and must be propagated.
#[derive(Clone, Debug)]
pub struct Detection {
    /// The new IPv4 candidate, if that family changed.
    pub v4: Option<String>,
    /// The new IPv6 candidate, if that family changed.
    pub v6: Option<String>,
}

/// The IPv4 candidate of one cycle: the scanned address, provided it exists,
/// is eligible under the rule, and differs from the last-confirmed one.
pub open spec fn v4_candidate(
    rule: V4Rule,
    scanned: Option<Seq<char>>,
    last: Option<Seq<char>>,
) -> Option<Seq<char>> {
    match scanned {
        Some(a) => if v4_eligible(rule, a) && last != Some(a) {
            Some(a)
        } else {
            None
        },
        None => None,
    }
}

/// The IPv6 candidate of one cycle, under the fixed IPv6 predicate.
pub open spec fn v6_candidate(
    scanned: Option<Seq<char>>,
    last: Option<Seq<char>>,
) -> Option<Seq<char>> {
    match scanned {
        Some(a) => if v6_eligible(a) && last != Some(a) {
            Some(a)
        } else {
            None
        },
        None => None,
    }
}

/// The state one family holds after a committed cycle: the candidate where
/// the family changed, the previous value where it did not.
pub open spec fn committed(
    candidate: Option<Seq<char>>,
    last: Option<Seq<char>>,
) -> Option<Seq<char>> {
    match candidate {
        Some(a) => Some(a),
        None => last,
    }
}

/// Computes the IPv4 candidate of this cycle.
pub fn detect_v4(rule: &V4Rule, scanned: &Option<String>, last: &Option<String>) -> (r: Option<
    String,
>)
    ensures
        opt_str(r) == v4_candidate(*rule, opt_str(*scanned), opt_str(*last)),
{
    match scanned {
        Some(a) => {
            let differs = match last {
                Some(l) => !str_equal(a.as_str(), l.as_str()),
                None => true,
            };
            if is_v4_eligible(rule, a.as_str()) && differs {
                Some(a.clone())
            } else {
                None
            }
        },
        None => None,
    }
}

/// Computes the IPv6 candidate of this cycle.
pub fn detect_v6(scanned: &Option<String>, last: &Option<String>) -> (r: Option<String>)
    ensures
        opt_str(r) == v6_candidate(opt_str(*scanned), opt_str(*last)),
{
    match scanned {
        Some(a) => {
            let differs = match last {
                Some(l) => !str_equal(a.as_str(), l.as_str()),
                None => true,
            };
            if is_v6_eligible(a.as_str()) && differs {
                Some(a.clone())
            } else {
                None
            }
        },
        None => None,
    }
}

impl AddressState {
    /// The state a fresh process starts from: nothing was ever propagated.
    pub fn empty() -> (s: Self)
        ensures
            opt_str(s.ipv4) is None,
            opt_str(s.ipv6) is None,
    {
        AddressState { ipv4: None, ipv6: None }
    }

    /// Replaces the confirmed state by this cycle's candidates, for exactly
    /// the families that changed; the others keep their previous value.
    /// Called only once every hostname was updated successfully.
    pub fn commit(&mut self, d: &Detection)
        ensures
            opt_str(final (self).ipv4) == committed(opt_str(d.v4), opt_str(old(self).ipv4)),
            opt_str(final (self).ipv6) == committed(opt_str(d.v6), opt_str(old(self).ipv6)),
    {
        match &d.v4 {
            Some(a) => {
                self.ipv4 = Some(a.clone());
            },
            None => {},
        }
        match &d.v6 {
            Some(a) => {
                self.ipv6 = Some(a.clone());
            },
            None => {},
        }
    }
}

/// Whether any family changed this cycle; when false, the cycle contacts no
/// network peer at all.
pub open spec fn has_change(d: Detection) -> bool {
    opt_str(d.v4) is Some || opt_str(d.v6) is Some
}

/// Decides whether this cycle has anything to propagate.
pub fn detection_has_change(d: &Detection) -> (r: bool)
    ensures
        r == has_change(*d),
{
    d.v4.is_some() || d.v6.is_some()
}

/// Scanning the same eligible addresses again right after a committed cycle
/// finds nothing to update: whatever was scanned, detection against the
/// committed state yields no candidate for either family, so the next cycle
/// is a quiet one.
pub proof fn lemma_rescan_after_commit_is_quiet(
    rule: V4Rule,
    scanned_v4: Option<Seq<char>>,
    scanned_v6: Option<Seq<char>>,
    last_v4: Option<Seq<char>>,
    last_v6: Option<Seq<char>>,
)
    ensures
        v4_candidate(
            rule,
            scanned_v4,
            committed(v4_candidate(rule, scanned_v4, last_v4), last_v4),
        ) is None,
        v6_candidate(scanned_v6, committed(v6_candidate(scanned_v6, last_v6), last_v6)) is None,
{
}

} // verus!
