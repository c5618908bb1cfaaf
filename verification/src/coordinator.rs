//! The cycle coordinator: owns the last-confirmed address state, detects the
//! changed families from a fresh scan, builds the per-cycle update session,
//! and commits the candidates only when the whole session succeeded.
//!
//! The caller runs the loop itself: sleep out the cycle interval, scan,
//! detect, drive the session over its own connections, then report the
//! outcome back.  On any failure the pre-cycle state is kept bit for bit —
//! candidates of a failed cycle are never applied, not even partially.

use vstd::prelude::*;
use crate::addr::{
    opt_str, v4_candidate, v4_eligible, v6_candidate, v6_eligible, AddressFamily, AddressState,
    Detection, InterfaceAddress, V4Rule,
};
use crate::config::ConfigModel;
use crate::scan::{extract_address, first_family_match};
use crate::session::UpdateSession;
use crate::template::{
    apply_substitutions, http_request_spec, query_spec, render_base_path, render_query,
    render_request, target_spec,
};

verus! {

/// The address scanned for a family this cycle: the first address of that
/// family on the configured interface, or nothing when the family is
/// untracked or no such address is bound.
pub open spec fn scanned_for(
    iface: Option<String>,
    entries: Seq<InterfaceAddress>,
    family: AddressFamily,
) -> Option<Seq<char>> {
    match iface {
        Some(name) => first_family_match(entries, name@, family),
        None => None,
    }
}

/// The base path of a cycle: the path template with every substitution
/// applied.
pub open spec fn base_path_spec(config: ConfigModel) -> Seq<char> {
    apply_substitutions(config.path_template@, config.substitutions@)
}

/// The exact request text sent to one hostname variant for this cycle's
/// candidates.
pub open spec fn cycle_request_spec(config: ConfigModel, d: Detection, host: Seq<char>) -> Seq<
    char,
> {
    http_request_spec(
        target_spec(
            base_path_spec(config),
            host,
            query_spec(config.family_fragment@, opt_str(d.v4), opt_str(d.v6)),
        ),
        config.endpoint@,
    )
}

/// Every candidate the detection holds passed its family's eligibility
/// predicate.
pub open spec fn detection_eligible(rule: V4Rule, d: Detection) -> bool {
    &&& (opt_str(d.v4) matches Some(a) ==> v4_eligible(rule, a))
    &&& (opt_str(d.v6) matches Some(a) ==> v6_eligible(a))
}

/// The confirmed state holds no address its family's predicate rejects.
pub open spec fn state_eligible(rule: V4Rule, s: AddressState) -> bool {
    &&& (opt_str(s.ipv4) matches Some(a) ==> v4_eligible(rule, a))
    &&& (opt_str(s.ipv6) matches Some(a) ==> v6_eligible(a))
}

/// The coordinator: the configuration and the last-confirmed state.
pub struct Coordinator {
    /// The deployment's configuration, immutable for the process lifetime.
    pub config: ConfigModel,
    /// The last successfully propagated address per family.
    pub state: AddressState,
}

impl Coordinator {
    /// A fresh coordinator: nothing propagated yet, so the first cycle
    /// attempts an update as soon as any eligible address is found.
    pub fn new(config: ConfigModel) -> (c: Self)
        ensures
            c.config == config,
            opt_str(c.state.ipv4) is None,
            opt_str(c.state.ipv6) is None,
            state_eligible(config.v4_rule, c.state),
    {
        Coordinator { config, state: AddressState::empty() }
    }

    /// Detects the changed families from a fresh scan: per tracked family,
    /// the first scanned address on the configured interface becomes a
    /// candidate exactly when the predicate accepts it and it differs from
    /// the last-confirmed value.
    pub fn detect(&self, entries: &Vec<InterfaceAddress>) -> (d: Detection)
        ensures
            opt_str(d.v4) == v4_candidate(
                self.config.v4_rule,
                scanned_for(self.config.v4_interface, entries@, AddressFamily::V4),
                opt_str(self.state.ipv4),
            ),
            opt_str(d.v6) == v6_candidate(
                scanned_for(self.config.v6_interface, entries@, AddressFamily::V6),
                opt_str(self.state.ipv6),
            ),
            detection_eligible(self.config.v4_rule, d),
    {
        let scanned_v4 = match &self.config.v4_interface {
            Some(name) => extract_address(entries, name.as_str(), AddressFamily::V4),
            None => None,
        };
        let scanned_v6 = match &self.config.v6_interface {
            Some(name) => extract_address(entries, name.as_str(), AddressFamily::V6),
            None => None,
        };
        let v4 = crate::addr::detect_v4(&self.config.v4_rule, &scanned_v4, &self.state.ipv4);
        let v6 = crate::addr::detect_v6(&scanned_v6, &self.state.ipv6);
        Detection { v4, v6 }
    }

    /// Builds the update session of this cycle: one exactly rendered request
    /// per hostname variant, to be walked in the configured order.
    pub fn build_session(&self, d: &Detection) -> (s: UpdateSession)
        requires
            self.config.wf(),
        ensures
            s.wf(),
            s@.sent == 0,
            !s@.failed,
            s@.reqs.len() == self.config.hostnames@.len(),
            forall|i: int|
                0 <= i < s@.reqs.len() ==> s@.reqs[i] == cycle_request_spec(
                    self.config,
                    *d,
                    self.config.hostnames@[i]@,
                ),
    {
        let base = render_base_path(self.config.path_template.as_str(), &self.config.substitutions);
        let query = render_query(self.config.family_fragment.as_str(), d);
        let n: usize = self.config.hostnames.len();
        let mut requests: Vec<String> = Vec::new();
        let mut i: usize = 0;
        while i < n
            invariant
                i <= n,
                n == self.config.hostnames@.len(),
                base@ == base_path_spec(self.config),
                query@ == query_spec(self.config.family_fragment@, opt_str(d.v4), opt_str(d.v6)),
                requests@.len() == i,
                forall|j: int|
                    0 <= j < i ==> requests@[j]@ == cycle_request_spec(
                        self.config,
                        *d,
                        self.config.hostnames@[j]@,
                    ),
            decreases n - i,
        {
            let req = render_request(
                base.as_str(),
                self.config.hostnames[i].as_str(),
                query.as_str(),
                self.config.endpoint.as_str(),
            );
            requests.push(req);
            i += 1;
        }
        UpdateSession::new(requests)
    }

    /// Ends the cycle.  On full success the candidates of every changed
    /// family become the confirmed state; on any failure the state is left
    /// exactly as it was before the cycle.
    pub fn finish_cycle(&mut self, d: &Detection, success: bool)
        ensures
            final (self).config == old(self).config,
            success ==> opt_str(final (self).state.ipv4) == crate::addr::committed(
                opt_str(d.v4),
                opt_str(old(self).state.ipv4),
            ),
            success ==> opt_str(final (self).state.ipv6) == crate::addr::committed(
                opt_str(d.v6),
                opt_str(old(self).state.ipv6),
            ),
            !success ==> final (self).state == old(self).state,
            state_eligible(old(self).config.v4_rule, old(self).state) && detection_eligible(
                old(self).config.v4_rule,
                *d,
            ) ==> state_eligible(final (self).config.v4_rule, final (self).state),
    {
        if success {
            self.state.commit(d);
        }
    }
}

/// The confirmed state never comes to hold a rejected address: whatever this
/// cycle scanned, committing its candidates over an all-eligible state
/// leaves an all-eligible state, for both families.
pub proof fn lemma_state_stays_eligible(
    rule: V4Rule,
    scanned_v4: Option<Seq<char>>,
    scanned_v6: Option<Seq<char>>,
    last_v4: Option<Seq<char>>,
    last_v6: Option<Seq<char>>,
)
    requires
        last_v4 matches Some(a) ==> v4_eligible(rule, a),
        last_v6 matches Some(a) ==> v6_eligible(a),
    ensures
        crate::addr::committed(v4_candidate(rule, scanned_v4, last_v4), last_v4) matches Some(a)
            ==> v4_eligible(rule, a),
        crate::addr::committed(v6_candidate(scanned_v6, last_v6), last_v6) matches Some(a)
            ==> v6_eligible(a),
{
}

} // verus!
