use railway::renderer::{check_queue_props, select_pdevice};
use railway::types::enums::{
    WlDataDeviceManagerDndAction, WlOutputMode, WlOutputTransform, WlSeatCapability,
    WlShmFormat, XdgPositionerAnchor, XdgToplevelState, ZwpLinuxBufferParamsV1Flags,
};
use railway::types::mempool::{div_ceil, PoolLayout};
use railway::types::Id;

#[test]
fn enums_map_unknown_values_to_unexpected() {
    assert_eq!(XdgPositionerAnchor::from(0), XdgPositionerAnchor::Nil);
    assert_eq!(XdgPositionerAnchor::from(8), XdgPositionerAnchor::BottomRight);
    assert_eq!(XdgPositionerAnchor::from(9), XdgPositionerAnchor::Unexpected);
    assert_eq!(XdgToplevelState::from(1), XdgToplevelState::Maximized);
    assert_eq!(XdgToplevelState::from(0), XdgToplevelState::Unexpected);
    assert_eq!(WlOutputTransform::from(7), WlOutputTransform::TransformFlipped270);
    assert_eq!(WlOutputTransform::from(u32::MAX), WlOutputTransform::Unexpected);
    assert_eq!(WlShmFormat::from(0), WlShmFormat::ARGB8888);
    assert_eq!(WlShmFormat::from(1), WlShmFormat::XRGB8888);
    assert_eq!(WlShmFormat::from(2), WlShmFormat::Unexpected);
    let t: WlOutputTransform = 1u32.into();
    assert_eq!(t, WlOutputTransform::Transform90);
}

#[test]
fn flags_insert_contains_remove() {
    let mut caps = WlSeatCapability::new();
    assert!(!caps.contains(WlSeatCapability::pointer()));
    caps.insert(WlSeatCapability::pointer());
    caps.insert(WlSeatCapability::touch());
    assert!(caps.contains(WlSeatCapability::pointer()));
    assert!(!caps.contains(WlSeatCapability::keyboard()));
    assert!(caps.contains(WlSeatCapability::touch()));
    assert_eq!(caps, WlSeatCapability::from(5));
    caps.remove(WlSeatCapability::pointer());
    assert!(!caps.contains(WlSeatCapability::pointer()));
    assert_eq!(caps, WlSeatCapability::from_bits(4));
    caps.remove(WlSeatCapability::keyboard());
    assert_eq!(caps, WlSeatCapability::touch());
}

#[test]
fn flags_combine_with_operators() {
    let both = WlOutputMode::current() | WlOutputMode::preferred();
    assert_eq!(both, WlOutputMode::from(3));
    assert_eq!(both & WlOutputMode::preferred(), WlOutputMode::preferred());
    assert_eq!(WlOutputMode::current() & WlOutputMode::preferred(), WlOutputMode::new());
    let mut f = ZwpLinuxBufferParamsV1Flags::yinvert();
    f |= ZwpLinuxBufferParamsV1Flags::bottomfirst();
    assert_eq!(f, ZwpLinuxBufferParamsV1Flags::from(5));
    assert!(f.contains(ZwpLinuxBufferParamsV1Flags::yinvert()));
    assert!(!f.contains(ZwpLinuxBufferParamsV1Flags::interlaced()));
    let mut a = WlDataDeviceManagerDndAction::none();
    assert!(!a.contains(WlDataDeviceManagerDndAction::none()));
    a.insert(WlDataDeviceManagerDndAction::move_());
    assert_eq!(a, WlDataDeviceManagerDndAction::from(2));
}

#[test]
fn div_ceil_rounds_up() {
    assert_eq!(div_ceil(0, 4), 0);
    assert_eq!(div_ceil(1, 4), 1);
    assert_eq!(div_ceil(4, 4), 1);
    assert_eq!(div_ceil(5, 4), 2);
    assert_eq!(div_ceil(16588800, 2097152), 8);
    assert_eq!(div_ceil(i32::MAX - 3, 4), 536870911);
}

#[test]
fn div_ceil_truncates_towards_zero() {
    for (x, y) in [(-1, 4), (-4, 4), (-5, 4), (-9, 4), (7, -2), (-7, -2), (0, -3), (-7, 1), (i32::MIN + 1, 1)] {
        let sum: i32 = x + y - 1;
        assert_eq!(div_ceil(x, y), sum / y);
    }
    assert_eq!(div_ceil(-5, 4), 0);
    assert_eq!(div_ceil(-9, 4), -1);
    assert_eq!(div_ceil(7, -2), -2);
    assert_eq!(div_ceil(-7, -2), 5);
    assert_eq!(div_ceil(i32::MIN + 3, -1), i32::MAX);
}

#[test]
fn pool_layout_of_a_full_hd_frame() {
    let l = PoolLayout::new(1920, 1080).unwrap();
    assert_eq!(l.width, 1920);
    assert_eq!(l.height, 1080);
    assert_eq!(l.stride, 7680);
    assert_eq!(l.buffer1_offset, 0);
    assert_eq!(l.buffer2_offset, 8294400);
    assert_eq!(l.size, 16777216);
}

#[test]
fn pool_layout_edges() {
    let empty = PoolLayout::new(0, 0).unwrap();
    assert_eq!((empty.stride, empty.buffer2_offset, empty.size), (0, 0, 0));
    let one = PoolLayout::new(1, 1).unwrap();
    assert_eq!((one.stride, one.buffer2_offset, one.size), (4, 4, 2097152));
    let page = PoolLayout::new(512, 512).unwrap();
    assert_eq!(page.size, 2097152);
    let more = PoolLayout::new(512, 513).unwrap();
    assert_eq!(more.size, 4194304);
    assert_eq!(PoolLayout::new(-1, 10), None);
    assert_eq!(PoolLayout::new(10, -1), None);
    assert_eq!(PoolLayout::new(i32::MAX, 1), None);
    assert_eq!(PoolLayout::new(536870911, 0).map(|l| l.stride), Some(2147483644));
    assert_eq!(PoolLayout::new(536870912, 0), None);
    assert_eq!(PoolLayout::new(16384, 16384), None);
    assert_eq!(PoolLayout::new(16384, 16320).map(|l| l.size), Some(2139095040));
    assert_eq!(PoolLayout::new(16384, 16368).map(|l| l.size), Some(2145386496));
    assert_eq!(PoolLayout::new(16384, 16369), None);
}

#[test]
fn first_graphics_queue_is_chosen() {
    assert_eq!(check_queue_props(&vec![]), None);
    assert_eq!(check_queue_props(&vec![2, 4, 8]), None);
    assert_eq!(check_queue_props(&vec![2, 4, 3, 1]), Some(2));
    assert_eq!(check_queue_props(&vec![1]), Some(0));
    assert_eq!(check_queue_props(&vec![0, 0xffff_fffe, 0xffff_ffff]), Some(2));
}

#[test]
fn first_device_with_a_graphics_queue_is_chosen() {
    assert_eq!(select_pdevice(&vec![]), None);
    assert_eq!(select_pdevice(&vec![vec![], vec![2, 4]]), None);
    assert_eq!(select_pdevice(&vec![vec![2], vec![4, 7], vec![1]]), Some((1, 1)));
    assert_eq!(select_pdevice(&vec![vec![15], vec![1]]), Some((0, 0)));
}

#[test]
fn ids_compare_by_value() {
    assert_eq!(Id { id: 3 }, Id { id: 3 });
    assert_ne!(Id { id: 3 }, Id { id: 4 });
}
