use ddns_agent::addr::{
    detection_has_change, AddressFamily, AddressState, Detection, InterfaceAddress, V4Polarity,
    V4Rule,
};
use ddns_agent::config::ConfigModel;
use ddns_agent::coordinator::Coordinator;
use ddns_agent::scan::extract_address;
use ddns_agent::session::UpdateSession;
use ddns_agent::strutil::{replace_all, starts_with_str, str_equal};
use ddns_agent::template::{render_base_path, render_query, render_request};

fn entry(interface: &str, family: AddressFamily, address: &str) -> InterfaceAddress {
    InterfaceAddress {
        interface: interface.to_string(),
        family,
        address: address.to_string(),
    }
}

fn test_config() -> ConfigModel {
    ConfigModel {
        endpoint: "dyn.example.net".to_string(),
        path_template: "/update?user={USER}&pwd={PWD}&host=".to_string(),
        substitutions: vec![
            ("{USER}".to_string(), "alice".to_string()),
            ("{PWD}".to_string(), "s3cr3t".to_string()),
        ],
        family_fragment: "&ip{V}=".to_string(),
        hostnames: vec![
            "example.org".to_string(),
            "www.example.org".to_string(),
            "api.example.org".to_string(),
        ],
        v4_interface: Some("eth0".to_string()),
        v6_interface: Some("lan0".to_string()),
        v4_rule: V4Rule {
            prefix: "192".to_string(),
            polarity: V4Polarity::ExcludePrefix,
        },
        inter_request_delay_secs: 5,
        cycle_interval_secs: 600,
    }
}

// Drives a session, simulating per-request outcomes; returns the request
// texts observed, in the order they were handed out.
fn drive(session: &mut UpdateSession, outcomes: &[bool]) -> (Vec<String>, usize) {
    let mut observed = Vec::new();
    let mut pauses = 0;
    let mut i = 0;
    while let Some(req) = session.next_request() {
        observed.push(req.clone());
        let ok = outcomes[i];
        i += 1;
        if session.record_result(ok) {
            pauses += 1;
        }
    }
    (observed, pauses)
}

#[test]
fn prefix_and_equality_basics() {
    assert!(starts_with_str("192.168.0.7", "192."));
    assert!(!starts_with_str("10.0.0.7", "192."));
    assert!(starts_with_str("anything", ""));
    assert!(!starts_with_str("19", "192"));
    assert!(str_equal("fe80::1", "fe80::1"));
    assert!(!str_equal("fe80::1", "fe80::2"));
}

#[test]
fn replace_all_matches_std_replace() {
    assert_eq!(replace_all("a{X}b{X}c", "{X}", "-"), "a-b-c".to_string());
    assert_eq!(replace_all("aaa", "aa", "b"), "aaa".replace("aa", "b"));
    assert_eq!(replace_all("no placeholder", "{X}", "y"), "no placeholder");
    assert_eq!(replace_all("end{X}", "{X}", ""), "end");
    assert_eq!(replace_all("", "{X}", "y"), "");
}

#[test]
fn base_path_substitution_is_exact() {
    let rendered = render_base_path(
        "/update?user={USER}&pwd={PWD}&host=",
        &vec![
            ("{USER}".to_string(), "alice".to_string()),
            ("{PWD}".to_string(), "s3cr3t".to_string()),
        ],
    );
    assert_eq!(rendered, "/update?user=alice&pwd=s3cr3t&host=".to_string());
}

#[test]
fn query_fragments_follow_changed_families() {
    let both = Detection {
        v4: Some("10.1.2.3".to_string()),
        v6: Some("2001:db8::1".to_string()),
    };
    assert_eq!(
        render_query("&ip{V}=", &both),
        "&ip4=10.1.2.3&ip6=2001:db8::1".to_string()
    );
    let only_v6 = Detection {
        v4: None,
        v6: Some("2001:db8::1".to_string()),
    };
    assert_eq!(render_query("&ip{V}=", &only_v6), "&ip6=2001:db8::1".to_string());
    let neither = Detection { v4: None, v6: None };
    assert_eq!(render_query("&ip{V}=", &neither), "".to_string());
}

#[test]
fn request_text_is_exact() {
    let req = render_request("/u?host=", "www.example.org", "&ip4=10.1.2.3", "dyn.example.net");
    assert_eq!(
        req,
        "GET /u?host=www.example.org&ip4=10.1.2.3 HTTP/1.1\r\nHost: dyn.example.net\r\nConnection: close\r\n\r\n"
            .to_string()
    );
}

#[test]
fn v6_predicate_rejects_link_local_and_unique_local() {
    let c = Coordinator::new(test_config());
    for bad in ["fe80::1", "fd00::1", "fdab:cdef::2"] {
        let entries = vec![entry("lan0", AddressFamily::V6, bad)];
        let d = c.detect(&entries);
        assert_eq!(d.v6, None, "{} must never be a candidate", bad);
    }
    // Regardless of the last-confirmed state:
    let mut seen = Coordinator::new(test_config());
    seen.state = AddressState {
        ipv4: None,
        ipv6: Some("2001:db8::9".to_string()),
    };
    let entries = vec![entry("lan0", AddressFamily::V6, "fe80::1")];
    assert_eq!(seen.detect(&entries).v6, None);
}

#[test]
fn v4_polarity_is_explicit_configuration() {
    let require = V4Rule {
        prefix: "192.".to_string(),
        polarity: V4Polarity::RequirePrefix,
    };
    let exclude = V4Rule {
        prefix: "192".to_string(),
        polarity: V4Polarity::ExcludePrefix,
    };
    let mut c = Coordinator::new(test_config());
    c.config.v4_rule = require;
    let private_entry = vec![entry("eth0", AddressFamily::V4, "192.168.0.7")];
    let public_entry = vec![entry("eth0", AddressFamily::V4, "203.0.113.9")];
    assert_eq!(c.detect(&private_entry).v4, Some("192.168.0.7".to_string()));
    assert_eq!(c.detect(&public_entry).v4, None);
    c.config.v4_rule = exclude;
    assert_eq!(c.detect(&private_entry).v4, None);
    assert_eq!(c.detect(&public_entry).v4, Some("203.0.113.9".to_string()));
}

#[test]
fn extract_takes_first_match_per_family() {
    let entries = vec![
        entry("wlan0", AddressFamily::V4, "172.16.0.2"),
        entry("eth0", AddressFamily::V6, "2001:db8::5"),
        entry("eth0", AddressFamily::V4, "10.0.0.1"),
        entry("eth0", AddressFamily::V4, "10.0.0.2"),
    ];
    assert_eq!(
        extract_address(&entries, "eth0", AddressFamily::V4),
        Some("10.0.0.1".to_string())
    );
    assert_eq!(
        extract_address(&entries, "eth0", AddressFamily::V6),
        Some("2001:db8::5".to_string())
    );
    assert_eq!(extract_address(&entries, "lan0", AddressFamily::V6), None);
}

#[test]
fn identical_rescan_is_quiet() {
    let mut c = Coordinator::new(test_config());
    let entries = vec![
        entry("eth0", AddressFamily::V4, "10.0.0.1"),
        entry("lan0", AddressFamily::V6, "2001:db8::1"),
    ];
    let d = c.detect(&entries);
    assert!(detection_has_change(&d));
    let mut session = c.build_session(&d);
    drive(&mut session, &[true, true, true]);
    assert!(session.did_succeed());
    c.finish_cycle(&d, true);
    // The very same scan one cycle later: nothing changed, no session, no
    // network contact.
    let again = c.detect(&entries);
    assert!(!detection_has_change(&again));
    assert_eq!(again.v4, None);
    assert_eq!(again.v6, None);
}

#[test]
fn full_success_commits_candidates_exactly() {
    let mut c = Coordinator::new(test_config());
    c.state = AddressState {
        ipv4: Some("10.0.0.1".to_string()),
        ipv6: None,
    };
    let entries = vec![
        entry("eth0", AddressFamily::V4, "10.9.9.9"),
        entry("lan0", AddressFamily::V6, "2001:db8::1"),
    ];
    let d = c.detect(&entries);
    assert_eq!(d.v4, Some("10.9.9.9".to_string()));
    assert_eq!(d.v6, Some("2001:db8::1".to_string()));
    let mut session = c.build_session(&d);
    let (observed, pauses) = drive(&mut session, &[true, true, true]);
    assert_eq!(observed.len(), 3);
    assert_eq!(pauses, 3);
    assert!(session.did_succeed());
    c.finish_cycle(&d, true);
    assert_eq!(c.state.ipv4, Some("10.9.9.9".to_string()));
    assert_eq!(c.state.ipv6, Some("2001:db8::1".to_string()));
}

#[test]
fn partial_success_keeps_one_family_confirmed_only_on_full_success() {
    // Only IPv6 changes; IPv4 keeps its confirmed value after the commit.
    let mut c = Coordinator::new(test_config());
    c.state = AddressState {
        ipv4: Some("10.0.0.1".to_string()),
        ipv6: Some("2001:db8::1".to_string()),
    };
    let entries = vec![
        entry("eth0", AddressFamily::V4, "10.0.0.1"),
        entry("lan0", AddressFamily::V6, "2001:db8::2"),
    ];
    let d = c.detect(&entries);
    assert_eq!(d.v4, None);
    assert_eq!(d.v6, Some("2001:db8::2".to_string()));
    c.finish_cycle(&d, true);
    assert_eq!(c.state.ipv4, Some("10.0.0.1".to_string()));
    assert_eq!(c.state.ipv6, Some("2001:db8::2".to_string()));
}

#[test]
fn failure_at_index_k_sends_k_plus_one_requests_and_rolls_back() {
    let mut c = Coordinator::new(test_config());
    c.state = AddressState {
        ipv4: Some("10.0.0.1".to_string()),
        ipv6: None,
    };
    let before = c.state.clone();
    let entries = vec![entry("eth0", AddressFamily::V4, "10.9.9.9")];
    let d = c.detect(&entries);
    assert!(detection_has_change(&d));
    let mut session = c.build_session(&d);
    // Failure at hostname index 1 of 3.
    let (observed, pauses) = drive(&mut session, &[true, false]);
    assert_eq!(observed.len(), 2);
    assert_eq!(pauses, 1);
    assert_eq!(session.sent_count(), 2);
    assert!(session.next_request().is_none());
    assert!(!session.did_succeed());
    c.finish_cycle(&d, false);
    assert_eq!(c.state.ipv4, before.ipv4);
    assert_eq!(c.state.ipv6, before.ipv6);
}

#[test]
fn requests_follow_configured_hostname_order() {
    let c = Coordinator::new(test_config());
    let entries = vec![entry("eth0", AddressFamily::V4, "10.9.9.9")];
    let d = c.detect(&entries);
    let mut session = c.build_session(&d);
    let (observed, pauses) = drive(&mut session, &[true, true, true]);
    let expected_base = "/update?user=alice&pwd=s3cr3t&host=";
    let hosts = ["example.org", "www.example.org", "api.example.org"];
    assert_eq!(observed.len(), hosts.len());
    for (req, host) in observed.iter().zip(hosts.iter()) {
        let expected = format!(
            "GET {}{}&ip4=10.9.9.9 HTTP/1.1\r\nHost: dyn.example.net\r\nConnection: close\r\n\r\n",
            expected_base, host
        );
        assert_eq!(req, &expected);
    }
    // A pause is owed after each recorded success, so three successful
    // hostname updates stand at least two inter-request delays apart.
    assert_eq!(session.sent_count(), 3);
    assert_eq!(pauses, 3);
    assert!(pauses >= hosts.len() - 1);
}

#[test]
fn fresh_process_attempts_update_on_first_eligible_scan() {
    let c = Coordinator::new(test_config());
    let entries = vec![entry("eth0", AddressFamily::V4, "10.0.0.1")];
    let d = c.detect(&entries);
    assert!(detection_has_change(&d));
    assert_eq!(d.v4, Some("10.0.0.1".to_string()));
}

#[test]
fn empty_scan_and_untracked_families_yield_no_candidates() {
    let mut c = Coordinator::new(test_config());
    assert!(!detection_has_change(&c.detect(&Vec::new())));
    // Untracked families never produce a candidate.
    c.config.v4_interface = None;
    c.config.v6_interface = None;
    let entries = vec![
        entry("eth0", AddressFamily::V4, "10.0.0.1"),
        entry("lan0", AddressFamily::V6, "2001:db8::1"),
    ];
    assert!(!detection_has_change(&c.detect(&entries)));
}

#[test]
fn validate_rejects_empty_placeholder() {
    let good = test_config();
    assert!(good.validate());
    let mut bad = test_config();
    bad.substitutions.push(("".to_string(), "x".to_string()));
    assert!(!bad.validate());
}

#[test]
fn empty_hostname_list_succeeds_without_any_request() {
    let mut c = Coordinator::new(test_config());
    c.config.hostnames = Vec::new();
    let entries = vec![entry("eth0", AddressFamily::V4, "10.0.0.1")];
    let d = c.detect(&entries);
    let mut session = c.build_session(&d);
    let (observed, pauses) = drive(&mut session, &[]);
    assert!(observed.is_empty());
    assert_eq!(pauses, 0);
    assert!(session.did_succeed());
}

#[test]
fn unchanged_eligible_address_is_no_candidate() {
    let mut c = Coordinator::new(test_config());
    c.state = AddressState {
        ipv4: Some("10.0.0.1".to_string()),
        ipv6: Some("2001:db8::1".to_string()),
    };
    let entries = vec![
        entry("eth0", AddressFamily::V4, "10.0.0.1"),
        entry("lan0", AddressFamily::V6, "2001:db8::1"),
    ];
    assert!(!detection_has_change(&c.detect(&entries)));
}

#[test]
fn near_local_v6_prefixes_stay_eligible() {
    let c = Coordinator::new(test_config());
    let entries = vec![entry("lan0", AddressFamily::V6, "fe81::1")];
    assert_eq!(c.detect(&entries).v6, Some("fe81::1".to_string()));
    let entries = vec![entry("lan0", AddressFamily::V6, "fc00::1")];
    assert_eq!(c.detect(&entries).v6, Some("fc00::1".to_string()));
}
