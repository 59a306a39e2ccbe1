use udmx::discovery::{
    matches_udmx_identity, select_candidate, Candidate, DeviceIdentity, USBDEV_SHARED_PRODUCT,
    USBDEV_SHARED_VENDOR,
};

fn udmx_identity() -> DeviceIdentity {
    DeviceIdentity { vendor_id: 0x16c0, product_id: 0x05dc }
}

fn other_identity() -> DeviceIdentity {
    DeviceIdentity { vendor_id: 0x1d6b, product_id: 0x0002 }
}

#[test]
fn identity_constants_are_the_udmx_ones() {
    assert_eq!(USBDEV_SHARED_VENDOR, 0x16c0);
    assert_eq!(USBDEV_SHARED_PRODUCT, 0x05dc);
}

#[test]
fn identity_match_is_exact() {
    assert!(matches_udmx_identity(&udmx_identity()));
    assert!(!matches_udmx_identity(&other_identity()));
    assert!(!matches_udmx_identity(&DeviceIdentity {
        vendor_id: 0x16c0,
        product_id: 0x0002,
    }));
    assert!(!matches_udmx_identity(&DeviceIdentity {
        vendor_id: 0x1d6b,
        product_id: 0x05dc,
    }));
}

#[test]
fn one_matching_openable_entry_is_selected() {
    let candidates = vec![
        Candidate { identity: other_identity(), openable: true },
        Candidate { identity: udmx_identity(), openable: true },
        Candidate { identity: other_identity(), openable: false },
    ];
    assert_eq!(select_candidate(&candidates), Some(1));
}

#[test]
fn no_matching_entry_selects_nothing() {
    let candidates = vec![
        Candidate { identity: other_identity(), openable: true },
        Candidate { identity: other_identity(), openable: true },
    ];
    assert_eq!(select_candidate(&candidates), None);

    assert_eq!(select_candidate(&Vec::new()), None);
}

#[test]
fn matching_entry_that_fails_to_open_is_skipped() {
    let candidates = vec![
        Candidate { identity: udmx_identity(), openable: false },
        Candidate { identity: other_identity(), openable: true },
        Candidate { identity: udmx_identity(), openable: true },
    ];
    assert_eq!(select_candidate(&candidates), Some(2));
}

#[test]
fn all_matching_entries_unopenable_selects_nothing() {
    let candidates = vec![
        Candidate { identity: udmx_identity(), openable: false },
        Candidate { identity: udmx_identity(), openable: false },
    ];
    assert_eq!(select_candidate(&candidates), None);
}
