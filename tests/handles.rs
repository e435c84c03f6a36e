use pad_handle::{DeviceKind, HandleErr, InputDevice, TabletPad, TabletPadHandle, TokenTable};

fn pad_device(addr: usize) -> InputDevice {
    InputDevice::from_raw(addr, DeviceKind::TabletPad)
}

#[test]
fn factory_claims_tablet_pads_only() {
    let mut table = TokenTable::new();
    let kinds = [
        DeviceKind::Keyboard,
        DeviceKind::Pointer,
        DeviceKind::Touch,
        DeviceKind::TabletTool,
        DeviceKind::Switch,
    ];
    for kind in kinds {
        let r = TabletPad::new_from_input_device(&mut table, InputDevice::from_raw(5, kind), 50);
        assert!(r.is_none());
    }
    assert_eq!(table.len(), 0);
    assert!(!table.tracks(50));
    let pad = TabletPad::new_from_input_device(&mut table, pad_device(5), 50).unwrap();
    assert_eq!(table.len(), 1);
    assert_eq!(*pad.input_device(), pad_device(5));
}

#[test]
fn fresh_pad_has_one_owner() {
    let mut table = TokenTable::new();
    assert!(!table.tracks(0x1000));
    let pad = TabletPad::new_from_input_device(&mut table, pad_device(1), 0x1000).unwrap();
    assert!(table.tracks(0x1000));
    assert!(!table.tracks(0x2000));
    let h = pad.weak_reference();
    assert!(table.alive(Some(0)));
    assert!(!table.locked(Some(0)));
    assert_eq!(h.as_ptr(), 0x1000);
    pad.destroy(&mut table);
    assert!(!table.tracks(0x1000));
}

#[test]
fn nested_upgrade_is_already_borrowed() {
    let mut table = TokenTable::new();
    let pad = TabletPad::new_from_input_device(&mut table, pad_device(1), 0x10).unwrap();
    let mut h = pad.weak_reference();
    let mut inner = h;
    let held = h.upgrade(&mut table).unwrap();
    assert!(held.input_device().addr == 1);
    assert!(table.locked(Some(0)));
    assert_eq!(inner.run(&mut table, |_p| 1u32), Err(HandleErr::AlreadyBorrowed));
    assert_eq!(h.upgrade(&mut table).err(), Some(HandleErr::AlreadyBorrowed));
    h.release(&mut table);
    assert!(!table.locked(Some(0)));
    assert_eq!(inner.run(&mut table, |_p| 2u32), Ok(2));
    assert!(h.upgrade(&mut table).is_ok());
}

#[test]
fn dropped_pad_fails_every_upgrade() {
    let mut table = TokenTable::new();
    let pad = TabletPad::new_from_input_device(&mut table, pad_device(1), 0x10).unwrap();
    let mut h = pad.weak_reference();
    pad.destroy(&mut table);
    for _ in 0..3 {
        assert_eq!(h.upgrade(&mut table).err(), Some(HandleErr::AlreadyDropped));
        assert_eq!(h.run(&mut table, |_p| ()), Err(HandleErr::AlreadyDropped));
        assert_eq!(h.input_device(&table).err(), Some(HandleErr::AlreadyDropped));
    }
    let other = TabletPad::new_from_input_device(&mut table, pad_device(2), 0x20).unwrap();
    assert_eq!(h.upgrade(&mut table).err(), Some(HandleErr::AlreadyDropped));
    other.destroy(&mut table);
}

#[test]
fn run_releases_lock_and_returns_result() {
    let mut table = TokenTable::new();
    let pad = TabletPad::new_from_input_device(&mut table, pad_device(9), 0x90).unwrap();
    let mut h = pad.weak_reference();
    let r = h.run(&mut table, |p| p.input_device().addr + 1);
    assert_eq!(r, Ok(10));
    assert!(!table.locked(Some(0)));
    assert!(table.alive(Some(0)));
    let derived = h.upgrade(&mut table).unwrap();
    assert_eq!(derived.input_device().addr, 9);
}

#[test]
fn handle_lifecycle_scenario() {
    let mut table = TokenTable::new();
    let w = TabletPad::new_from_input_device(&mut table, pad_device(7), 0x70).unwrap();
    let mut h1 = w.weak_reference();
    let mut h2 = h1.clone();
    assert!(h1 == h2);
    assert_eq!(h1.run(&mut table, |p| p.input_device().addr), Ok(7));
    assert!(!table.locked(Some(0)));
    let derived = h1.upgrade(&mut table).unwrap();
    h1.release(&mut table);
    w.destroy(&mut table);
    assert_eq!(h2.upgrade(&mut table).err(), Some(HandleErr::AlreadyDropped));
    assert_eq!(h2.run(&mut table, |_p| ()), Err(HandleErr::AlreadyDropped));
    assert_eq!(derived.input_device().addr, 7);
}

#[test]
fn empty_handle_never_upgrades() {
    let mut table = TokenTable::new();
    let mut h = TabletPadHandle::new();
    assert_eq!(h.upgrade(&mut table).err(), Some(HandleErr::AlreadyDropped));
    assert_eq!(h.run(&mut table, |_p| 0u8), Err(HandleErr::AlreadyDropped));
    assert_eq!(h.input_device(&table).err(), Some(HandleErr::AlreadyDropped));
    assert_eq!(h.as_ptr(), 0);
    let d = TabletPadHandle::default();
    assert!(d == h);
    let _pad = TabletPad::new_from_input_device(&mut table, pad_device(1), 0x10).unwrap();
    assert_eq!(h.upgrade(&mut table).err(), Some(HandleErr::AlreadyDropped));
}

#[test]
fn handle_reads_device_while_alive() {
    let mut table = TokenTable::new();
    let pad = TabletPad::new_from_input_device(&mut table, pad_device(4), 0x40).unwrap();
    let h = pad.weak_reference();
    assert_eq!(h.input_device(&table).map(|d| d.addr), Ok(4));
    assert_eq!(h.input_device(&table).map(|d| d.kind), Ok(DeviceKind::TabletPad));
    pad.destroy(&mut table);
    assert!(h.input_device(&table).is_err());
}

#[test]
fn handles_compare_by_pad_address() {
    let mut table = TokenTable::new();
    let a = TabletPad::new_from_input_device(&mut table, pad_device(1), 0x10).unwrap();
    let b = TabletPad::new_from_input_device(&mut table, pad_device(1), 0x20).unwrap();
    assert!(a.weak_reference() != b.weak_reference());
    assert!(a.weak_reference() == a.weak_reference());
}

#[test]
fn set_lock_by_hand_blocks_and_frees() {
    let mut table = TokenTable::new();
    let pad = TabletPad::new_from_input_device(&mut table, pad_device(1), 0x10).unwrap();
    let h = pad.weak_reference();
    pad.set_lock(&mut table, true);
    assert_eq!(h.upgrade(&mut table).err(), Some(HandleErr::AlreadyBorrowed));
    pad.set_lock(&mut table, false);
    assert!(h.upgrade(&mut table).is_ok());
}
