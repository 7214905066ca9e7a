use gdt::descriptor::gdtentry;
use gdt::register::gdtreg;
use gdt::system::{entry, init, load, table, GdtError, SegmentRegister, Stage, Step};

fn allocated(addr: usize) -> table {
    let mut sys = table::new();
    assert_eq!(init(&mut sys, Some(addr)), Ok(()));
    sys
}

#[test]
fn new_table_is_uninitialized() {
    let sys = table::new();
    assert_eq!(sys.stage(), Stage::Uninitialized);
    assert_eq!(sys.register(), None);
    assert_eq!(sys.slot(0), Err(GdtError::NotInitialized));
    assert_eq!(sys.image(), Err(GdtError::NotInitialized));
}

#[test]
fn init_allocates_and_points_the_register_at_the_table() {
    let mut sys = table::new();
    assert_eq!(init(&mut sys, Some(0x0009_0000)), Ok(()));
    assert_eq!(sys.stage(), Stage::Allocated);
    assert_eq!(sys.register(), Some(gdtreg { limit: 129, addr: 0x0009_0000 }));
}

#[test]
fn init_leaves_sixteen_null_descriptors() {
    let sys = allocated(0x1000);
    for index in 0..16 {
        assert_eq!(sys.slot(index), Ok(gdtentry::new(0, 0, 0, 0)));
    }
    assert_eq!(sys.image(), Ok(vec![0u8; 128]));
}

#[test]
fn init_without_storage_fails() {
    let mut sys = table::new();
    assert_eq!(init(&mut sys, None), Err(GdtError::AllocationFailed));
    assert_eq!(sys.stage(), Stage::Uninitialized);
    assert_eq!(sys.register(), None);
    assert_eq!(init(&mut sys, Some(0x2000)), Ok(()));
    assert_eq!(sys.stage(), Stage::Allocated);
}

#[test]
fn init_twice_is_rejected() {
    let mut sys = allocated(0x1000);
    assert_eq!(entry(&mut sys, 3, 0x4000, 0xFFF, 0x92, 0x40), Ok(()));
    assert_eq!(init(&mut sys, Some(0x2000)), Err(GdtError::AlreadyInitialized));
    assert_eq!(init(&mut sys, None), Err(GdtError::AlreadyInitialized));
    assert_eq!(sys.stage(), Stage::Allocated);
    assert_eq!(sys.register(), Some(gdtreg::new(0x1000)));
    assert_eq!(sys.slot(3), Ok(gdtentry::new(0x4000, 0xFFF, 0x92, 0x40)));
    assert_eq!(load(&mut sys, 0x08, 0x10, 0x18).map(|steps| steps.len()), Ok(6));
    assert_eq!(init(&mut sys, Some(0x2000)), Err(GdtError::AlreadyInitialized));
    assert_eq!(sys.stage(), Stage::Activated);
}

#[test]
fn entry_before_init_is_rejected() {
    let mut sys = table::new();
    assert_eq!(entry(&mut sys, 1, 0, 0xF_FFFF, 0x9A, 0xCF), Err(GdtError::NotInitialized));
    assert_eq!(entry(&mut sys, 16, 0, 0xF_FFFF, 0x9A, 0xCF), Err(GdtError::NotInitialized));
    assert_eq!(sys.stage(), Stage::Uninitialized);
}

#[test]
fn load_before_init_is_rejected() {
    let mut sys = table::new();
    assert_eq!(load(&mut sys, 0x08, 0x10, 0x18), Err(GdtError::NotInitialized));
    assert_eq!(sys.stage(), Stage::Uninitialized);
}

#[test]
fn entry_then_slot_reads_the_encoding_back() {
    for index in 0..16isize {
        let mut sys = allocated(0x1000);
        let base = 0x0100_0000 + (index as usize) * 0x1_0001;
        let limit = 0xF_0000 + index as usize;
        let access = 0x90 + index as u8;
        assert_eq!(entry(&mut sys, index, base, limit, access, 0xCF), Ok(()));
        let expected = gdtentry::new(base, limit, access, 0xCF);
        assert_eq!(sys.slot(index), Ok(expected));
        let image = sys.image().unwrap();
        let at = 8 * index as usize;
        assert_eq!(&image[at..at + 8], &expected.to_bytes()[..]);
        for other in 0..16isize {
            if other != index {
                assert_eq!(sys.slot(other), Ok(gdtentry::new(0, 0, 0, 0)));
            }
        }
    }
}

#[test]
fn entry_overwrites_in_place() {
    let mut sys = allocated(0x1000);
    assert_eq!(entry(&mut sys, 5, 0x1111, 0x2222, 0x92, 0x40), Ok(()));
    assert_eq!(entry(&mut sys, 5, 0x3333, 0x4444, 0x9A, 0xC0), Ok(()));
    assert_eq!(sys.slot(5), Ok(gdtentry::new(0x3333, 0x4444, 0x9A, 0xC0)));
}

#[test]
fn entry_rejects_index_sixteen() {
    let mut sys = allocated(0x1000);
    assert_eq!(entry(&mut sys, 16, 0, 0xF_FFFF, 0x9A, 0xCF), Err(GdtError::IndexOutOfRange));
    assert_eq!(sys.image(), Ok(vec![0u8; 128]));
    assert_eq!(sys.slot(16), Err(GdtError::IndexOutOfRange));
}

#[test]
fn entry_rejects_negative_index() {
    let mut sys = allocated(0x1000);
    assert_eq!(entry(&mut sys, -1, 0, 0xF_FFFF, 0x9A, 0xCF), Err(GdtError::IndexOutOfRange));
    assert_eq!(sys.image(), Ok(vec![0u8; 128]));
    assert_eq!(sys.slot(-1), Err(GdtError::IndexOutOfRange));
}

#[test]
fn entry_rejects_far_out_indices() {
    let mut sys = allocated(0x1000);
    for index in [isize::MIN, -16, 17, 128, isize::MAX] {
        assert_eq!(entry(&mut sys, index, 1, 1, 1, 1), Err(GdtError::IndexOutOfRange));
        assert_eq!(sys.slot(index), Err(GdtError::IndexOutOfRange));
    }
    assert_eq!(sys.image(), Ok(vec![0u8; 128]));
    assert_eq!(sys.stage(), Stage::Allocated);
}

#[test]
fn entry_accepts_first_and_last_slot() {
    let mut sys = allocated(0x1000);
    assert_eq!(entry(&mut sys, 0, 0, 0, 0, 0), Ok(()));
    assert_eq!(entry(&mut sys, 15, 0xFFFF_FFFF, 0xF_FFFF, 0xFF, 0xFF), Ok(()));
    let image = sys.image().unwrap();
    assert_eq!(image.len(), 128);
    assert_eq!(&image[..120], &[0u8; 120][..]);
    assert_eq!(&image[120..], &[0xFFu8; 8][..]);
}

#[test]
fn load_issues_the_steps_in_order() {
    let mut sys = allocated(0x0009_0000);
    let steps = load(&mut sys, 0x08, 0x10, 0x18).unwrap();
    assert_eq!(
        steps,
        vec![
            Step::LoadTable { record: gdtreg { limit: 129, addr: 0x0009_0000 } },
            Step::FarJump { selector: 0x08 },
            Step::Reload { segment: SegmentRegister::Ds, selector: 0x10 },
            Step::Reload { segment: SegmentRegister::Es, selector: 0x10 },
            Step::Reload { segment: SegmentRegister::Ss, selector: 0x10 },
            Step::Reload { segment: SegmentRegister::Gs, selector: 0x18 },
        ]
    );
    assert_eq!(sys.stage(), Stage::Activated);
}

#[test]
fn load_passes_selectors_through_unchanged() {
    let mut sys = allocated(0x1000);
    let steps = load(&mut sys, 0xFFFF, 0x0000, 0x1B).unwrap();
    assert_eq!(steps[1], Step::FarJump { selector: 0xFFFF });
    assert_eq!(steps[2], Step::Reload { segment: SegmentRegister::Ds, selector: 0x0000 });
    assert_eq!(steps[5], Step::Reload { segment: SegmentRegister::Gs, selector: 0x1B });
}

#[test]
fn load_keeps_register_and_entries() {
    let mut sys = allocated(0x1000);
    assert_eq!(entry(&mut sys, 2, 0, 0xF_FFFF, 0x92, 0xCF), Ok(()));
    let before = sys.image();
    assert!(load(&mut sys, 0x08, 0x10, 0x18).is_ok());
    assert_eq!(sys.image(), before);
    assert_eq!(sys.register(), Some(gdtreg::new(0x1000)));
}

#[test]
fn entry_after_load_needs_another_load() {
    let mut sys = allocated(0x1000);
    let first = load(&mut sys, 0x08, 0x10, 0x18).unwrap();
    assert_eq!(entry(&mut sys, 4, 0x5000, 0xFF, 0xF2, 0x40), Ok(()));
    assert_eq!(sys.stage(), Stage::Activated);
    assert_eq!(sys.slot(4), Ok(gdtentry::new(0x5000, 0xFF, 0xF2, 0x40)));
    let second = load(&mut sys, 0x08, 0x10, 0x18).unwrap();
    assert_eq!(first, second);
    assert_eq!(sys.stage(), Stage::Activated);
}

#[test]
fn boot_scenario() {
    let mut sys = table::new();
    assert_eq!(init(&mut sys, Some(0x0010_0000)), Ok(()));
    assert_eq!(entry(&mut sys, 1, 0, 0xF_FFFF, 0x9A, 0xCF), Ok(()));
    assert_eq!(entry(&mut sys, 2, 0, 0xF_FFFF, 0x92, 0xCF), Ok(()));
    let steps = load(&mut sys, 0x08, 0x10, 0x18).unwrap();

    let image = sys.image().unwrap();
    assert_eq!(image.len(), 128);
    assert_eq!(&image[0..8], &[0u8; 8][..]);
    assert_eq!(&image[8..16], &[0xFF, 0xFF, 0x00, 0x00, 0x00, 0x9A, 0xCF, 0x00][..]);
    assert_eq!(&image[16..24], &[0xFF, 0xFF, 0x00, 0x00, 0x00, 0x92, 0xCF, 0x00][..]);
    assert_eq!(&image[24..], &[0u8; 104][..]);

    assert_eq!(sys.register(), Some(gdtreg { limit: 129, addr: 0x0010_0000 }));
    assert_eq!(steps.len(), 6);
    assert_eq!(steps[0], Step::LoadTable { record: gdtreg::new(0x0010_0000) });
    assert_eq!(steps[1], Step::FarJump { selector: 0x08 });
    assert_eq!(steps[2], Step::Reload { segment: SegmentRegister::Ds, selector: 0x10 });
    assert_eq!(steps[3], Step::Reload { segment: SegmentRegister::Es, selector: 0x10 });
    assert_eq!(steps[4], Step::Reload { segment: SegmentRegister::Ss, selector: 0x10 });
    assert_eq!(steps[5], Step::Reload { segment: SegmentRegister::Gs, selector: 0x18 });
    assert_eq!(sys.stage(), Stage::Activated);
}
