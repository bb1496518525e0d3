use asus_numpad::geometry::{BBox, Point};
use asus_numpad::keys::Key;
use asus_numpad::layout::{LayoutError, NumpadLayout, SupportedLayout};

fn surface() -> BBox {
    BBox::new(0, 1023, 0, 767)
}

#[test]
fn test_from_name_known() {
    assert_eq!(SupportedLayout::from_name("UX433FA"), Ok(SupportedLayout::UX433FA));
    assert_eq!(SupportedLayout::from_name("M433IA"), Ok(SupportedLayout::M433IA));
    assert_eq!(SupportedLayout::from_name("UX581"), Ok(SupportedLayout::UX581));
    assert_eq!(SupportedLayout::from_name("GX701"), Ok(SupportedLayout::GX701));
    assert_eq!(SupportedLayout::from_name("GX531"), Ok(SupportedLayout::GX531));
    assert_eq!(SupportedLayout::from_name("UM5302TA"), Ok(SupportedLayout::UM5302TA));
}

#[test]
fn test_from_name_unknown_is_distinct_error() {
    assert_eq!(SupportedLayout::from_name("X512"), Err(LayoutError::UnknownLayout));
    assert_eq!(SupportedLayout::from_name(""), Err(LayoutError::UnknownLayout));
    assert_eq!(SupportedLayout::from_name("m433ia"), Err(LayoutError::UnknownLayout));
}

#[test]
fn test_m433ia_grid_shape() {
    let layout = NumpadLayout::m433ia(surface());
    let keys = layout.keys();
    assert_eq!(keys.len(), 4);
    for row in keys.iter() {
        assert_eq!(row.len(), 5);
    }
    assert_eq!(keys[0][0], Key::Kp7);
    assert_eq!(keys[2][1], Key::Kp2);
    assert_eq!(keys[3][4], Key::Equal);
}

#[test]
fn test_get_key_inside_cells() {
    // the numpad hit-box of this surface is (51..=972, 76..=748), with
    // cells 184 wide and 168 tall
    let layout = NumpadLayout::m433ia(surface());
    assert_eq!(layout.get_key(Point { x: 52, y: 77 }), Some(Key::Kp7));
    assert_eq!(layout.get_key(Point { x: 300, y: 500 }), Some(Key::Kp2));
    assert_eq!(layout.get_key(Point { x: 970, y: 740 }), Some(Key::Equal));
}

#[test]
fn test_get_key_outside_hit_box() {
    let layout = NumpadLayout::m433ia(surface());
    assert_eq!(layout.get_key(Point { x: 0, y: 0 }), None);
    assert_eq!(layout.get_key(Point { x: 50, y: 500 }), None);
    assert_eq!(layout.get_key(Point { x: 300, y: 75 }), None);
    assert_eq!(layout.get_key(Point { x: 973, y: 500 }), None);
    assert_eq!(layout.get_key(Point { x: 300, y: 749 }), None);
}

#[test]
fn test_zone_boxes_m433ia() {
    let layout = NumpadLayout::m433ia(surface());
    // numlock zone: top-right strip; calculator zone: top-left strip
    assert!(layout.in_numlock_bbox(Point { x: 1000, y: 30 }));
    assert!(!layout.in_numlock_bbox(Point { x: 500, y: 30 }));
    assert!(!layout.in_numlock_bbox(Point { x: 1000, y: 100 }));
    assert!(layout.in_calc_bbox(Point { x: 10, y: 30 }));
    assert!(!layout.in_calc_bbox(Point { x: 100, y: 30 }));
    assert!(!layout.in_calc_bbox(Point { x: 10, y: 100 }));
}

#[test]
fn test_gx701_has_no_zones() {
    let layout = NumpadLayout::gx701(surface());
    assert_eq!(layout.keys()[0][0], Key::Calc);
    // every point of the touch surface misses the dummy zones
    for &p in [
        Point { x: 0, y: 0 },
        Point { x: 1023, y: 0 },
        Point { x: 0, y: 767 },
        Point { x: 1023, y: 767 },
        Point { x: 512, y: 384 },
    ]
    .iter()
    {
        assert!(!layout.in_numlock_bbox(p));
        assert!(!layout.in_calc_bbox(p));
    }
}

#[test]
fn test_needs_multikey() {
    let layout = NumpadLayout::m433ia(surface());
    assert!(layout.needs_multikey(Key::Digit5));
    assert!(!layout.needs_multikey(Key::Kp5));
    assert!(!layout.needs_multikey(Key::KpEnter));
}

#[test]
fn test_multikeys_pair() {
    let layout = NumpadLayout::m433ia(surface());
    assert_eq!(layout.multikeys(Key::Digit5), [Key::LeftShift, Key::Digit5]);
}

#[test]
fn test_ux581_grid_shape() {
    let layout = NumpadLayout::ux581(surface());
    let keys = layout.keys();
    assert_eq!(keys.len(), 5);
    for row in keys.iter() {
        assert_eq!(row.len(), 4);
    }
    assert_eq!(keys[0][0], Key::KpEqual);
    assert_eq!(keys[4][3], Key::KpPlus);
}
