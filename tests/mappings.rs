use mirajazz::types::{ImageFormat, ImageMirroring, ImageMode, ImageRotation};
use n4_devices::mappings::{queries, Kind};

const ALL: [Kind; 9] = [
    Kind::Akp05E,
    Kind::Akp05EPro,
    Kind::N4E,
    Kind::N4,
    Kind::N4ProE,
    Kind::N4Pro,
    Kind::VsdN4Pro,
    Kind::MsdPro,
    Kind::Cn003,
];

const TABLE: [(u16, u16, Kind); 9] = [
    (0x0300, 0x3004, Kind::Akp05E),
    (0x0300, 0x3013, Kind::Akp05EPro),
    (0x6603, 0x1007, Kind::N4E),
    (0x6602, 0x1001, Kind::N4),
    (0x5548, 0x1021, Kind::N4ProE),
    (0x5548, 0x1008, Kind::N4Pro),
    (0x5548, 0x1023, Kind::VsdN4Pro),
    (0x0B00, 0x1003, Kind::MsdPro),
    (0x1500, 0x3002, Kind::Cn003),
];

fn is_format(f: &ImageFormat, w: usize, h: usize, rot180: bool) -> bool {
    matches!(f.mode, ImageMode::JPEG)
        && f.size == (w, h)
        && matches!(f.mirror, ImageMirroring::None)
        && if rot180 {
            matches!(f.rotation, ImageRotation::Rot180)
        } else {
            matches!(f.rotation, ImageRotation::Rot0)
        }
}

#[test]
fn every_table_row_resolves() {
    for (vid, pid, kind) in TABLE {
        assert_eq!(Kind::from_vid_pid(vid, pid), Some(kind));
    }
}

#[test]
fn unknown_pairs_resolve_to_nothing() {
    assert_eq!(Kind::from_vid_pid(0x5548, 0x1000), None);
    assert_eq!(Kind::from_vid_pid(0x5548, 0x1007), None);
    assert_eq!(Kind::from_vid_pid(0x6603, 0x1001), None);
    assert_eq!(Kind::from_vid_pid(0x0000, 0x0000), None);
    assert_eq!(Kind::from_vid_pid(0xFFFF, 0xFFFF), None);
    assert_eq!(Kind::from_vid_pid(0x3004, 0x0300), None);
}

#[test]
fn known_vendor_unknown_product_is_absent() {
    assert_eq!(Kind::from_vid_pid(0x0300, 0x9999), None);
}

#[test]
fn shared_vendor_is_told_apart_by_product() {
    assert_eq!(Kind::from_vid_pid(0x5548, 0x1023), Some(Kind::VsdN4Pro));
    assert_eq!(Kind::from_vid_pid(0x5548, 0x1008), Some(Kind::N4Pro));
    assert_eq!(Kind::from_vid_pid(0x5548, 0x1021), Some(Kind::N4ProE));
}

#[test]
fn n4e_scenario() {
    let kind = Kind::from_vid_pid(0x6603, 0x1007).unwrap();
    assert_eq!(kind, Kind::N4E);
    assert_eq!(kind.human_name(), "Mirabox N4E");
    assert!(is_format(&kind.image_format(), 112, 112, true));
}

#[test]
fn names_are_fixed_non_empty_and_distinct() {
    let expected = [
        "Ajazz AKP05E",
        "Ajazz AKP05E Pro",
        "Mirabox N4E",
        "Mirabox N4",
        "Mirabox N4 Pro E",
        "Mirabox N4 Pro",
        "VSDInside N4 Pro",
        "Mars Gaming MSD-Pro",
        "Soomfon CN003",
    ];
    for (kind, name) in ALL.iter().zip(expected) {
        assert_eq!(kind.human_name(), name);
        assert!(!kind.human_name().is_empty());
    }
    for a in ALL {
        for b in ALL {
            if a != b {
                assert_ne!(a.human_name(), b.human_name());
            }
        }
    }
}

#[test]
fn protocol_version_is_three() {
    for kind in ALL {
        assert_eq!(kind.protocol_version(), 3);
    }
}

#[test]
fn formats_follow_protocol_three() {
    for kind in ALL {
        let key = kind.image_format();
        let touch = kind.touch_image_format();
        assert!(is_format(&key, 112, 112, true));
        assert!(is_format(&touch, 176, 112, true));
        assert!(key.size.0 > 0 && key.size.1 > 0);
        assert!(touch.size.0 > 0 && touch.size.1 > 0);
    }
}

#[test]
fn no_model_reports_both_encoder_states() {
    for kind in ALL {
        assert!(!kind.supports_both_encoder_states());
    }
}

#[test]
fn one_query_per_table_row() {
    let qs = queries();
    assert_eq!(qs.len(), TABLE.len());
    for (q, (vid, pid, kind)) in qs.iter().zip(TABLE) {
        let text = format!("{:?}", q);
        assert!(text.contains("usage_page: 65440"), "{}", text);
        assert!(text.contains("usage_id: 1,"), "{}", text);
        assert!(text.contains(&format!("vendor_id: {},", vid)), "{}", text);
        assert!(text.contains(&format!("product_id: {} ", pid)), "{}", text);
        assert_eq!(Kind::from_vid_pid(vid, pid), Some(kind));
    }
}
