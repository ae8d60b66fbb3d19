use kernel_core::mem::{MemoryManager, FREE_MEM_START_ADDR, PAGE_SIZE};
use kernel_core::pre_boot::{
    detect_high_mem, read_mem_spec, HighMemEntry, MemType, RawHighMemEntry, MAX_HIGH_MEM_ENTRIES,
};

fn empty_spec() -> kernel_core::pre_boot::MemSpec {
    read_mem_spec(640, &Vec::new(), 0)
}

#[test]
fn malloc_bumps_from_the_start_address() {
    let mut mm = MemoryManager::init(empty_spec());
    assert_eq!(mm.free_mem_addr, FREE_MEM_START_ADDR);
    let a = mm.malloc(16, false);
    assert_eq!(a, FREE_MEM_START_ADDR);
    let b = mm.malloc(8, false);
    assert_eq!(b, FREE_MEM_START_ADDR + 16);
    assert_eq!(mm.free_mem_addr, FREE_MEM_START_ADDR + 24);
}

#[test]
fn aligned_malloc_rounds_up_to_the_next_page() {
    let mut mm = MemoryManager::init(empty_spec());
    mm.malloc(3, false);
    let a = mm.malloc(16, true);
    assert_eq!(a, FREE_MEM_START_ADDR + PAGE_SIZE);
    assert_eq!(a % PAGE_SIZE, 0);
}

#[test]
fn aligned_malloc_on_a_boundary_stays_put() {
    let mut mm = MemoryManager::init(empty_spec());
    let a = mm.malloc(16, true);
    assert_eq!(a, FREE_MEM_START_ADDR);
}

#[test]
fn free_is_a_no_op() {
    let mut mm = MemoryManager::init(empty_spec());
    let a = mm.malloc(32, false);
    mm.free(a);
    assert_eq!(mm.free_mem_addr, FREE_MEM_START_ADDR + 32);
}

#[test]
fn get_memory_returns_the_boot_map() {
    let mm = MemoryManager::init(read_mem_spec(639, &Vec::new(), 0));
    assert_eq!(mm.get_memory().low_mem_size, 639);
}

#[test]
fn mem_type_codes_round_trip() {
    let table = [
        (1u32, MemType::Usable, 1u8),
        (2, MemType::Reserved, 2),
        (3, MemType::ACPIReclaimable, 3),
        (4, MemType::ACPI, 4),
        (5, MemType::Bad, 5),
    ];
    for (code, ty, reported) in table {
        assert_eq!(MemType::from_code(code), ty);
        assert_eq!(ty.type_code(), reported);
    }
    assert_eq!(MemType::from_code(0), MemType::Error);
    assert_eq!(MemType::from_code(99), MemType::Error);
    assert_eq!(MemType::Error.type_code(), 0);
}

#[test]
fn raw_entries_decode_in_order() {
    let raw = vec![
        RawHighMemEntry { base: 0x0010_0000, len: 0x0070_0000, typ: 1 },
        RawHighMemEntry { base: 0x0080_0000, len: 0x1000, typ: 2 },
    ];
    let entries = detect_high_mem(&raw, 2);
    assert_eq!(entries.len(), MAX_HIGH_MEM_ENTRIES);
    assert_eq!(
        entries[0],
        Some(HighMemEntry { base: 0x0010_0000, len: 0x0070_0000, typ: MemType::Usable })
    );
    assert_eq!(
        entries[1],
        Some(HighMemEntry { base: 0x0080_0000, len: 0x1000, typ: MemType::Reserved })
    );
    for e in &entries[2..] {
        assert_eq!(*e, None);
    }
}

#[test]
fn reported_count_caps_the_decoded_entries() {
    let raw = vec![
        RawHighMemEntry { base: 1, len: 1, typ: 1 },
        RawHighMemEntry { base: 2, len: 2, typ: 1 },
    ];
    let entries = detect_high_mem(&raw, 1);
    assert!(entries[0].is_some());
    assert_eq!(entries[1], None);
}

#[test]
fn capacity_caps_the_decoded_entries() {
    let raw: Vec<RawHighMemEntry> =
        (0..20).map(|i| RawHighMemEntry { base: i, len: 1, typ: 1 }).collect();
    let entries = detect_high_mem(&raw, 20);
    assert_eq!(entries.len(), MAX_HIGH_MEM_ENTRIES);
    assert!(entries.iter().all(|e| e.is_some()));
}
