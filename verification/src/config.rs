//! The validated, immutable configuration the agent runs under.  An external
//! loader builds it once at startup; the core only consumes it.

use vstd::prelude::*;
use vstd::string::*;
use crate::addr::V4Rule;
use crate::template::subs_wf;

verus! {

/// Everything one deployment configures: the update endpoint, the path
/// template with its substitutions, the per-family query fragment, the
/// ordered hostname variants, which families are tracked on which interface,
/// the IPv4 eligibility rule, and the two pacing intervals.
#[derive(Clone, Debug)]
pub struct ConfigModel {
    /// The host the update requests are sent to, on TCP port 443.
    pub endpoint: String,
    /// The request path template, including the leading slash, with named
    /// placeholders for credentials and domain or token values.
    pub path_template: String,
    /// The placeholder substitutions applied once to the path template, in
    /// order, such as a user, a password, a domain or an access token.
    pub substitutions: Vec<(String, String)>,
    /// The per-family query fragment template; its version placeholder `{V}`
    /// is replaced by the digit 4 or 6.
    pub family_fragment: String,
    /// The hostname variants updated in sequence, in exactly this order.
    pub hostnames: Vec<String>,
    /// The interface scanned for an IPv4 address; `None` leaves the family
    /// untracked.
    pub v4_interface: Option<String>,
    /// The interface scanned for an IPv6 address; `None` leaves the family
    /// untracked.
    pub v6_interface: Option<String>,
    /// The deployment's IPv4 eligibility rule.
    pub v4_rule: V4Rule,
    /// Seconds to pause between two hostname updates of one cycle.
    pub inter_request_delay_secs: u64,
    /// Seconds to wait between two scan cycles.
    pub cycle_interval_secs: u64,
}

impl ConfigModel {
    /// A configuration the core can run under: every substitution names a
    /// non-empty placeholder.
    pub open spec fn wf(&self) -> bool {
        subs_wf(self.substitutions@)
    }

    /// Checks the configuration; external loaders call this once at startup
    /// and abort on `false` rather than entering the main loop.
    pub fn validate(&self) -> (r: bool)
        ensures
            r == self.wf(),
    {
        let n: usize = self.substitutions.len();
        let mut i: usize = 0;
        while i < n
            invariant
                i <= n,
                n == self.substitutions@.len(),
                forall|j: int| 0 <= j < i ==> #[trigger] self.substitutions@[j].0@.len() > 0,
            decreases n - i,
        {
            if self.substitutions[i].0.as_str().unicode_len() == 0 {
                return false;
            }
            i += 1;
        }
        true
    }
}

} // verus!
