use kernel_core::acpi::{find_rsdp_offset, ACPI, SDT_HEADER_SIZE};

const SIG: &[u8; 8] = b"RSD PTR ";

fn region_with_sig_at(len: usize, off: usize) -> Vec<u8> {
    let mut v = vec![0u8; len];
    v[off..off + 8].copy_from_slice(SIG);
    v
}

#[test]
fn signature_is_found_on_a_boundary() {
    let region = region_with_sig_at(0x400, 0x20);
    assert_eq!(find_rsdp_offset(&region), Some(0x20));
}

#[test]
fn signature_at_the_start_is_found() {
    let region = region_with_sig_at(0x100, 0);
    assert_eq!(find_rsdp_offset(&region), Some(0));
}

#[test]
fn the_first_of_two_signatures_wins() {
    let mut region = region_with_sig_at(0x400, 0x30);
    region[0x200..0x208].copy_from_slice(SIG);
    assert_eq!(find_rsdp_offset(&region), Some(0x30));
}

#[test]
fn unaligned_signature_is_not_reported() {
    let region = region_with_sig_at(0x100, 0x18);
    assert_eq!(find_rsdp_offset(&region), None);
}

#[test]
fn empty_and_signatureless_regions_yield_nothing() {
    assert_eq!(find_rsdp_offset(&Vec::new()), None);
    assert_eq!(find_rsdp_offset(&vec![0u8; 0x400]), None);
}

#[test]
fn load_counts_the_entry_pointers() {
    let acpi = ACPI::load(0x80020, 0x7000, (SDT_HEADER_SIZE + 8) as u32).unwrap();
    assert_eq!(acpi.rsdp_ptr, 0x80020);
    assert_eq!(acpi.sdt_ptrs, 0x7000 + SDT_HEADER_SIZE);
    assert_eq!(acpi.sdt_cnt, 2);
}

#[test]
fn load_rejects_a_truncated_root_table() {
    assert!(ACPI::load(0x80020, 0x7000, 20).is_none());
}

#[test]
fn iterator_walks_each_pointer_address_once() {
    let acpi = ACPI::load(0x80020, 0x7000, (SDT_HEADER_SIZE + 12) as u32).unwrap();
    let mut it = acpi.iter();
    assert_eq!(it.len(), 3);
    assert_eq!(it.next(), Some(0x7000 + SDT_HEADER_SIZE));
    assert_eq!(it.next(), Some(0x7000 + SDT_HEADER_SIZE + 4));
    assert_eq!(it.next(), Some(0x7000 + SDT_HEADER_SIZE + 8));
    assert_eq!(it.next(), None);
    assert_eq!(it.next(), None);
}
