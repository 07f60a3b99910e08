use minecraft_skins::locator::{find_subsequence, resolve_offset};

#[test]
fn find_subsequence_first_match() {
    let hay = [1u8, 2, 3, 2, 3, 9];
    assert_eq!(find_subsequence(&hay, &[2, 3]), Some(1));
}

#[test]
fn find_subsequence_at_start() {
    let hay = [7u8, 7, 7];
    assert_eq!(find_subsequence(&hay, &[7]), Some(0));
}

#[test]
fn find_subsequence_absent() {
    let hay = [1u8, 2, 3];
    assert_eq!(find_subsequence(&hay, &[4]), None);
}

#[test]
fn find_subsequence_needle_longer_than_haystack() {
    let hay = [1u8, 2];
    assert_eq!(find_subsequence(&hay, &[1, 2, 3]), None);
}

#[test]
fn find_subsequence_signature_shape() {
    // A 12-byte signature in the middle of a larger region, as the
    // startup scan uses it.
    let mut region = vec![0u8; 4096];
    let signature = [
        0xb0u8, 0xde, 0x45, 0x94, 0xe0, 0x03, 0x1c, 0x32, 0xe1, 0x03, 0x1a, 0x32,
    ];
    region[1000..1012].copy_from_slice(&signature);
    assert_eq!(find_subsequence(&region, &signature), Some(1000));
}

#[test]
fn resolve_offset_found() {
    let region = [9u8, 8, 7, 6];
    assert_eq!(resolve_offset(&region, &[7, 6], 0x1234), (2, true));
}

#[test]
fn resolve_offset_fallback_to_default() {
    let region = [9u8, 8, 7, 6];
    assert_eq!(resolve_offset(&region, &[1, 1], 0x1234), (0x1234, false));
}
