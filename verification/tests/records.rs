use dpedit::device::{copy_name, DisplayDevice, StateFlags};
use dpedit::mode::{DisplayMode, Placement, POSITION_FIELD};
use dpedit::system::{Query, CURRENT_MODE, GLOBAL, INTERFACE_NAME, RAW_MODE, UPDATE_STORE, WRITE_FLAGS};

fn wide(text: &str) -> Vec<u16> {
    text.encode_utf16().collect()
}

fn mode() -> DisplayMode {
    DisplayMode {
        width: 2560,
        height: 1440,
        x: 100,
        y: -200,
        fields: 0x0058_0000,
        opaque: vec![1, 2, 3, 250, 0, 0, 7],
    }
}

#[test]
fn state_word_is_read_bit_by_bit() {
    let none = StateFlags::from_bits(0);
    assert_eq!(
        none,
        StateFlags {
            active: false,
            primary: false,
            mirroring: false,
            modes_pruned: false,
            removable: false,
            vga_compatible: false,
        }
    );
    assert_eq!(StateFlags::from_bits(0x1), StateFlags { active: true, ..none });
    assert_eq!(StateFlags::from_bits(0x4), StateFlags { primary: true, ..none });
    assert_eq!(StateFlags::from_bits(0x8), StateFlags { mirroring: true, ..none });
    assert_eq!(StateFlags::from_bits(0x10), StateFlags { vga_compatible: true, ..none });
    assert_eq!(StateFlags::from_bits(0x20), StateFlags { removable: true, ..none });
    assert_eq!(StateFlags::from_bits(0x0800_0000), StateFlags { modes_pruned: true, ..none });
}

#[test]
fn state_word_of_a_primary_desktop_display() {
    let flags = StateFlags::from_bits(0x0800_0005);
    assert!(flags.active && flags.primary && flags.modes_pruned);
    assert!(!flags.mirroring && !flags.removable && !flags.vga_compatible);
}

#[test]
fn bits_without_a_name_are_dropped() {
    assert_eq!(StateFlags::from_bits(0x2), StateFlags::from_bits(0));
    assert_eq!(StateFlags::from_bits(0xF7FF_FFC2), StateFlags::from_bits(0));
    assert_eq!(StateFlags::from_bits(0xFFFF_FFFF), StateFlags::from_bits(0x0800_003D));
}

#[test]
fn a_device_is_active_where_its_flag_says_so() {
    let mut device = DisplayDevice {
        name: wide("\\\\.\\DISPLAY1"),
        description: wide("Generic PnP Monitor"),
        flags: StateFlags::from_bits(0x1),
    };
    assert!(device.is_active());
    device.flags = StateFlags::from_bits(0x4);
    assert!(!device.is_active());
}

#[test]
fn a_name_is_copied_unit_for_unit() {
    let name = vec![0x5c, 0x5c, 0xd800, 0, 0xffff];
    assert_eq!(copy_name(&name), name);
    assert_eq!(copy_name(&vec![]), Vec::<u16>::new());
}

#[test]
fn repositioning_changes_position_and_selector_only() {
    let moved = mode().reposition(-1920, 21);
    assert_eq!(
        moved,
        DisplayMode {
            width: 2560,
            height: 1440,
            x: -1920,
            y: 21,
            fields: 0x20,
            opaque: vec![1, 2, 3, 250, 0, 0, 7],
        }
    );
    assert!(moved.is_position_only());
    assert_eq!(POSITION_FIELD, 0x20);
}

#[test]
fn repositioning_to_the_same_place_still_sets_the_selector() {
    let before = mode();
    assert!(!before.is_position_only());
    let moved = mode().reposition(before.x, before.y);
    assert!(moved.is_position_only());
    assert_eq!(moved.placement(), before.placement());
    assert_eq!(moved.opaque, before.opaque);
}

#[test]
fn placement_is_resolution_and_position() {
    assert_eq!(mode().placement(), Placement { width: 2560, height: 1440, x: 100, y: -200 });
    let far = mode().reposition(i32::MIN, i32::MAX);
    assert_eq!(far.placement(), Placement { width: 2560, height: 1440, x: i32::MIN, y: i32::MAX });
}

#[test]
fn a_duplicate_is_equal_field_for_field() {
    assert_eq!(mode().duplicate(), mode());
}

#[test]
fn questions_carry_their_option_words() {
    assert_eq!(Query::enumerate(3), Query::Enumerate { index: 3, flags: 1 });
    assert_eq!(
        Query::read_mode(wide("A")),
        Query::ReadMode { device: vec![65], selector: 0xFFFF_FFFF, flags: 2 }
    );
    assert_eq!(
        Query::write_mode(wide("A"), mode()),
        Query::WriteMode { device: vec![65], mode: mode(), flags: 9 }
    );
    assert_eq!(WRITE_FLAGS, GLOBAL | UPDATE_STORE);
    assert_eq!((INTERFACE_NAME, CURRENT_MODE, RAW_MODE), (1, u32::MAX, 2));
}
