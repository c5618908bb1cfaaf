use ddns_agent::addr::AddressFamily;
use ddns_agent::scan::scan_interfaces;

// Runs the real interface enumeration.  What the table holds depends on the
// machine, so the test only checks the shape of whatever came back: every
// entry carries a non-empty textual address whose separator matches its
// family tag.
#[test]
fn live_scan_entries_are_family_tagged() {
    match scan_interfaces() {
        Ok(entries) => {
            for e in &entries {
                assert!(!e.address.is_empty());
                match e.family {
                    AddressFamily::V4 => assert!(e.address.contains('.')),
                    AddressFamily::V6 => assert!(e.address.contains(':')),
                }
            }
        },
        Err(_) => {
            // The operating-system query may be unavailable here; that is a
            // recoverable cycle failure, not a defect.
        },
    }
}
