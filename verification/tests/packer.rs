use minecraft_skins::packer::{
    pack_default, pack_icon, pack_raw, ICON_HEADER_SIZE, MAX_DATA_SIZE, MAX_FILE_SIZE, META_SIZE,
};
use minecraft_skins::pixels::Image;
use minecraft_skins::SkinError;

fn mk_image(width: u32, height: u32) -> Image {
    let n = (width as usize) * (height as usize) * 4;
    let pixels: Vec<u8> = (0..n).map(|i| (i % 251) as u8).collect();
    Image { width, height, pixels }
}

#[test]
fn pack_raw_small_payload() {
    let img = mk_image(2, 2);
    let mut dest = vec![0xAAu8; MAX_FILE_SIZE];
    let r = pack_raw(&img, &mut dest);
    assert_eq!(r, Ok(MAX_FILE_SIZE));
    // Payload verbatim at offset 0.
    assert_eq!(&dest[0..16], &img.pixels[..]);
    // Metadata immediately after the payload: width, height, payload size.
    assert_eq!(&dest[16..20], &[2, 0, 0, 0]);
    assert_eq!(&dest[20..24], &[2, 0, 0, 0]);
    assert_eq!(&dest[24..28], &[16, 0, 0, 0]);
    for i in 28..16 + META_SIZE {
        assert_eq!(dest[i], 0);
    }
    // Round trip: the relocated block matches the canonical high block.
    assert_eq!(
        &dest[16..16 + META_SIZE],
        &dest[MAX_DATA_SIZE..MAX_DATA_SIZE + META_SIZE]
    );
    // Bytes between the metadata and the high offset are inert padding.
    assert_eq!(dest[16 + META_SIZE], 0xAA);
}

#[test]
fn pack_raw_overlapping_relocation() {
    // Payload 64 bytes short of the maximum: the relocation ranges overlap.
    let img = mk_image(524280, 2);
    assert_eq!(img.pixels.len(), MAX_DATA_SIZE - 64);
    let mut dest = vec![0u8; MAX_FILE_SIZE];
    let r = pack_raw(&img, &mut dest);
    assert_eq!(r, Ok(MAX_FILE_SIZE));
    let p = MAX_DATA_SIZE - 64;
    assert_eq!(&dest[0..p], &img.pixels[..]);
    // The metadata content survives the overlapping copy.
    let width_le = 524280u32.to_le_bytes();
    assert_eq!(&dest[p..p + 4], &width_le);
    assert_eq!(&dest[p + 4..p + 8], &[2, 0, 0, 0]);
    assert_eq!(&dest[p + 8..p + 12], &(p as u32).to_le_bytes());
    for i in p + 12..p + META_SIZE {
        assert_eq!(dest[i], 0);
    }
}

#[test]
fn pack_raw_maximum_payload() {
    let img = mk_image(1024, 1024);
    let mut dest = vec![0u8; MAX_FILE_SIZE];
    let r = pack_raw(&img, &mut dest);
    assert_eq!(r, Ok(MAX_FILE_SIZE));
    assert_eq!(&dest[0..MAX_DATA_SIZE], &img.pixels[..]);
    assert_eq!(&dest[MAX_DATA_SIZE..MAX_DATA_SIZE + 4], &1024u32.to_le_bytes());
}

#[test]
fn pack_raw_rejects_oversize_payload() {
    let img = mk_image(2048, 1024);
    let mut dest = vec![0x55u8; MAX_FILE_SIZE];
    let r = pack_raw(&img, &mut dest);
    assert_eq!(r, Err(SkinError::PayloadTooLarge));
    assert!(dest.iter().all(|&b| b == 0x55));
}

#[test]
fn pack_icon_header_and_payload() {
    let img = mk_image(3, 2);
    let mut dest = vec![0xEEu8; 100];
    let r = pack_icon(&img, &mut dest);
    assert_eq!(r, Ok(ICON_HEADER_SIZE + 24));
    assert_eq!(&dest[0..4], b"ICON");
    assert_eq!(&dest[4..8], &[3, 0, 0, 0]);
    assert_eq!(&dest[8..12], &[2, 0, 0, 0]);
    assert_eq!(&dest[12..16], &[24, 0, 0, 0]);
    assert_eq!(&dest[16..40], &img.pixels[..]);
    assert!(dest[40..].iter().all(|&b| b == 0xEE));
}

#[test]
fn pack_icon_rejects_small_buffer() {
    let img = mk_image(3, 2);
    let mut dest = vec![0xEEu8; 20];
    let r = pack_icon(&img, &mut dest);
    assert_eq!(r, Err(SkinError::BufferTooSmall));
    assert!(dest.iter().all(|&b| b == 0xEE));
}

#[test]
fn pack_default_copies_verbatim() {
    let data = vec![1u8, 2, 3, 4, 5];
    let mut dest = vec![0xFFu8; 10];
    let r = pack_default(&data, &mut dest);
    assert_eq!(r, Ok(5));
    assert_eq!(&dest[0..5], &data[..]);
    assert!(dest[5..].iter().all(|&b| b == 0xFF));
}

#[test]
fn pack_default_rejects_small_buffer() {
    let data = vec![1u8, 2, 3, 4, 5];
    let mut dest = vec![0xFFu8; 4];
    let r = pack_default(&data, &mut dest);
    assert_eq!(r, Err(SkinError::BufferTooSmall));
    assert!(dest.iter().all(|&b| b == 0xFF));
}
