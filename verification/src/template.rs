//! Rendering of the provider's HTTP update request from the configured path
//! template: credential substitution, per-family query fragments, and the
//! final request text.

use vstd::prelude::*;
use vstd::string::*;
use crate::addr::{opt_str, Detection};
use crate::strutil::{replace_all, replace_spec};

verus! {

/// `template` with each `(placeholder, value)` substitution applied in order,
/// every occurrence of a placeholder replaced by its value.
pub open spec fn apply_substitutions(template: Seq<char>, subs: Seq<(String, String)>) -> Seq<char>
    decreases subs.len(),
{
    if subs.len() == 0 {
        template
    } else {
        apply_substitutions(replace_spec(template, subs[0].0@, subs[0].1@), subs.skip(1))
    }
}

/// Every substitution placeholder is non-empty, so each substitution is a
/// well-defined replacement.
pub open spec fn subs_wf(subs: Seq<(String, String)>) -> bool {
    forall|i: int| 0 <= i < subs.len() ==> #[trigger] subs[i].0@.len() > 0
}

/// Renders the base path: the path template with every credential and domain
/// placeholder substituted once, before any hostname or query fragment is
/// appended.
pub fn render_base_path(template: &str, subs: &Vec<(String, String)>) -> (r: String)
    requires
        subs_wf(subs@),
    ensures
        r@ == apply_substitutions(template@, subs@),
{
    let mut cur: String = String::from_str(template);
    let n: usize = subs.len();
    let mut i: usize = 0;
    proof {
        assert(subs@.skip(0) =~= subs@);
    }
    while i < n
        invariant
            i <= n,
            n == subs@.len(),
            subs_wf(subs@),
            apply_substitutions(template@, subs@) == apply_substitutions(
                cur@,
                subs@.skip(i as int),
            ),
        decreases n - i,
    {
        let ghost before = subs@.skip(i as int);
        assert(before[0] == subs@[i as int]);
        let next = replace_all(cur.as_str(), subs[i].0.as_str(), subs[i].1.as_str());
        proof {
            assert(before.skip(1) =~= subs@.skip(i + 1));
        }
        cur = next;
        i += 1;
    }
    proof {
        assert(subs@.skip(n as int) =~= Seq::<(String, String)>::empty());
    }
    cur
}

/// The query text appended for the changed families: for each family that
/// changed, the fragment template with its version placeholder replaced by
/// the family's digit, followed by the candidate address.
pub open spec fn query_spec(
    fragment: Seq<char>,
    v4: Option<Seq<char>>,
    v6: Option<Seq<char>>,
) -> Seq<char> {
    (match v4 {
        Some(a) => replace_spec(fragment, "{V}"@, "4"@) + a,
        None => Seq::<char>::empty(),
    }) + (match v6 {
        Some(a) => replace_spec(fragment, "{V}"@, "6"@) + a,
        None => Seq::<char>::empty(),
    })
}

/// Renders the per-family query fragments for this cycle's candidates.
pub fn render_query(fragment: &str, d: &Detection) -> (r: String)
    ensures
        r@ == query_spec(fragment@, opt_str(d.v4), opt_str(d.v6)),
{
    proof {
        reveal_strlit("{V}");
    }
    let mut out: String = String::new();
    match &d.v4 {
        Some(a) => {
            let part = replace_all(fragment, "{V}", "4");
            out.append(part.as_str());
            out.append(a.as_str());
        },
        None => {},
    }
    match &d.v6 {
        Some(a) => {
            let part = replace_all(fragment, "{V}", "6");
            out.append(part.as_str());
            out.append(a.as_str());
        },
        None => {},
    }
    proof {
        assert(out@ =~= query_spec(fragment@, opt_str(d.v4), opt_str(d.v6)));
    }
    out
}

/// The full HTTP update request for one hostname: a single GET of the target
/// path, a `Host` header naming the update endpoint, `Connection: close`, and
/// no body.
pub open spec fn http_request_spec(target: Seq<char>, host_header: Seq<char>) -> Seq<char> {
    "GET "@ + target + " HTTP/1.1\r\nHost: "@ + host_header + "\r\nConnection: close\r\n\r\n"@
}

/// The target path for one hostname variant: base path, then the hostname,
/// then the query fragments of the changed families.
pub open spec fn target_spec(base: Seq<char>, host: Seq<char>, query: Seq<char>) -> Seq<char> {
    base + host + query
}

/// Renders the request text sent for one hostname variant.
pub fn render_request(base: &str, host: &str, query: &str, endpoint: &str) -> (r: String)
    ensures
        r@ == http_request_spec(target_spec(base@, host@, query@), endpoint@),
{
    let mut out: String = String::from_str("GET ");
    out.append(base);
    out.append(host);
    out.append(query);
    out.append(" HTTP/1.1\r\nHost: ");
    out.append(endpoint);
    out.append("\r\nConnection: close\r\n\r\n");
    proof {
        assert(out@ =~= http_request_spec(target_spec(base@, host@, query@), endpoint@));
    }
    out
}

} // verus!
