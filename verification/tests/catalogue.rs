use ajazz_sdk::info::{is_mirabox_vendor, Kind};
use ajazz_sdk::images::{ImageMirroring, ImageMode, ImageRotation};

const ALL_KINDS: [Kind; 9] = [
    Kind::Akp153,
    Kind::Akp153E,
    Kind::Akp153R,
    Kind::Akp815,
    Kind::Akp03,
    Kind::Akp03E,
    Kind::Akp03R,
    Kind::Akp03RRev2,
    Kind::MadDogGk150W,
];

#[test]
fn vid_pid_round_trip_for_every_kind() {
    for kind in ALL_KINDS {
        assert_eq!(Kind::from_vid_pid(kind.vendor_id(), kind.product_id()), Some(kind));
    }
}

#[test]
fn known_ids_give_their_kind() {
    assert_eq!(Kind::from_vid_pid(0x5548, 0x6674), Some(Kind::Akp153));
    assert_eq!(Kind::from_vid_pid(0x5548, 0x6672), Some(Kind::Akp815));
    assert_eq!(Kind::from_vid_pid(0x0300, 0x1010), Some(Kind::Akp153E));
    assert_eq!(Kind::from_vid_pid(0x0300, 0x1020), Some(Kind::Akp153R));
    assert_eq!(Kind::from_vid_pid(0x0300, 0x1001), Some(Kind::Akp03));
    assert_eq!(Kind::from_vid_pid(0x0300, 0x3002), Some(Kind::Akp03E));
    assert_eq!(Kind::from_vid_pid(0x0300, 0x1003), Some(Kind::Akp03R));
    assert_eq!(Kind::from_vid_pid(0x0300, 0x3003), Some(Kind::Akp03RRev2));
    assert_eq!(Kind::from_vid_pid(0x1200, 0x2014), Some(Kind::MadDogGk150W));
}

#[test]
fn unknown_ids_give_nothing() {
    assert_eq!(Kind::from_vid_pid(0x5548, 0x1010), None);
    assert_eq!(Kind::from_vid_pid(0x0300, 0x6674), None);
    assert_eq!(Kind::from_vid_pid(0x1200, 0x6674), None);
    assert_eq!(Kind::from_vid_pid(0x1234, 0x6674), None);
    assert_eq!(Kind::from_vid_pid(0, 0), None);
}

#[test]
fn handled_vendors() {
    assert!(is_mirabox_vendor(0x5548));
    assert!(is_mirabox_vendor(0x0300));
    assert!(is_mirabox_vendor(0x1200));
    assert!(!is_mirabox_vendor(0x1201));
    assert!(!is_mirabox_vendor(0));
    for kind in ALL_KINDS {
        assert!(is_mirabox_vendor(kind.vendor_id()));
    }
}

#[test]
fn key_counts() {
    assert_eq!(Kind::Akp153.key_count(), 18);
    assert_eq!(Kind::MadDogGk150W.key_count(), 18);
    assert_eq!(Kind::Akp815.key_count(), 15);
    assert_eq!(Kind::Akp03.key_count(), 9);
    assert_eq!(Kind::Akp03RRev2.key_count(), 9);
    assert_eq!(Kind::Akp03.display_key_count(), 6);
    assert_eq!(Kind::Akp153E.display_key_count(), 18);
    assert_eq!(Kind::Akp815.display_key_count(), 15);
}

#[test]
fn display_keys_fill_the_layout() {
    for kind in ALL_KINDS {
        let (rows, columns) = kind.key_layout();
        assert_eq!(rows, kind.row_count());
        assert_eq!(columns, kind.column_count());
        assert_eq!(kind.display_key_count(), rows * columns);
        assert!(kind.display_key_count() <= kind.key_count());
    }
    assert_eq!(Kind::Akp153.key_layout(), (3, 6));
    assert_eq!(Kind::Akp815.key_layout(), (5, 3));
    assert_eq!(Kind::Akp03.key_layout(), (2, 3));
}

#[test]
fn encoders_and_protocol_versions() {
    for kind in ALL_KINDS {
        assert_ne!(kind.is_v1_api(), kind.is_v2_api());
        assert_eq!(kind.is_v2_api(), kind.is_akp03());
        assert_eq!(kind.encoder_count() > 0, kind.is_akp03());
    }
    assert_eq!(Kind::Akp03E.encoder_count(), 3);
    assert_eq!(Kind::Akp153R.encoder_count(), 0);
    assert!(Kind::Akp815.is_v1_api());
    assert!(Kind::Akp03R.is_v2_api());
}

#[test]
fn screen_sizes() {
    assert_eq!(Kind::Akp153.lcd_strip_size(), Some((854, 480)));
    assert_eq!(Kind::Akp815.lcd_strip_size(), Some((800, 480)));
    assert_eq!(Kind::Akp03.lcd_strip_size(), None);
    assert_eq!(Kind::Akp03.boot_logo_size(), Some((320, 240)));
    assert_eq!(Kind::MadDogGk150W.boot_logo_size(), Some((854, 480)));
    assert_eq!(Kind::Akp815.boot_logo_size(), Some((800, 480)));
}

#[test]
fn logo_formats_match_boot_logo_sizes() {
    for kind in ALL_KINDS {
        let size = kind.boot_logo_size().unwrap();
        let format = kind.logo_image_format();
        assert!(matches!(format.mode, ImageMode::JPEG));
        match format.rotation {
            ImageRotation::Rot90 => assert_eq!(format.size, (size.1, size.0)),
            _ => assert_eq!(format.size, size),
        }
    }
}

#[test]
fn key_image_formats() {
    let f = Kind::Akp153.key_image_format();
    assert_eq!(f.size, (85, 85));
    assert!(matches!(f.rotation, ImageRotation::Rot90));
    assert!(matches!(f.mirror, ImageMirroring::Both));
    let f = Kind::Akp815.key_image_format();
    assert_eq!(f.size, (100, 100));
    assert!(matches!(f.rotation, ImageRotation::Rot180));
    assert!(matches!(f.mirror, ImageMirroring::NoMirror));
    let f = Kind::Akp03E.key_image_format();
    assert_eq!(f.size, (60, 60));
    assert!(matches!(f.rotation, ImageRotation::Rot0));
    let f = Kind::Akp03RRev2.key_image_format();
    assert_eq!(f.size, (64, 64));
    assert!(matches!(f.rotation, ImageRotation::Rot90));
    assert!(matches!(f.mode, ImageMode::JPEG));
}
