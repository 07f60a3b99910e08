use minecraft_skins::cache::{select_entry, SlotCache, SlotEntry, NO_SLOT, SLOT_COUNT};
use minecraft_skins::dispatch::{
    AssetKind, DispatchOutcome, Dispatcher, ICON_CONTAINER_SIZE, MAX_PORTRAIT_A_SIZE,
    MAX_PORTRAIT_B_SIZE, MAX_PORTRAIT_C_SIZE, MAX_STOCK_ICON_SIZE,
};
use minecraft_skins::normalize::normalize;
use minecraft_skins::packer::{pack_default, MAX_DATA_SIZE, MAX_FILE_SIZE};
use minecraft_skins::pixels::Image;
use minecraft_skins::selection::{handle_selection, selection_slot, FighterInfo};
use minecraft_skins::SkinError;

fn png_bytes(img: &image::RgbaImage) -> Vec<u8> {
    let mut buf = std::io::Cursor::new(Vec::new());
    img.write_to(&mut buf, image::ImageFormat::Png).unwrap();
    buf.into_inner()
}

fn legacy_png() -> Vec<u8> {
    let img = image::RgbaImage::from_fn(64, 32, |x, y| {
        image::Rgba([(x * 3 % 256) as u8, (y * 7 % 256) as u8, 55, 255])
    });
    png_bytes(&img)
}

fn canonical_png() -> Vec<u8> {
    let img = image::RgbaImage::from_pixel(128, 128, image::Rgba([100, 200, 50, 255]));
    png_bytes(&img)
}

fn small_mask() -> Image {
    Image { width: 8, height: 8, pixels: vec![33u8; 8 * 8 * 4] }
}

fn ids(base: u64) -> Vec<u64> {
    (base..base + SLOT_COUNT as u64).collect()
}

fn dispatcher() -> Dispatcher {
    Dispatcher::new(
        ids(100),
        ids(200),
        ids(300),
        ids(400),
        ids(500),
        small_mask(),
        small_mask(),
        small_mask(),
    )
    .unwrap()
}

#[test]
fn cache_starts_empty() {
    let cache = SlotCache::new(true);
    for slot in 0..SLOT_COUNT {
        assert!(cache.get_selected(slot).is_none());
        assert!(cache.get_render(slot).is_none());
    }
    assert_eq!(cache.get_last_selected(), NO_SLOT);
}

#[test]
fn select_stores_path_and_render() {
    let mut cache = SlotCache::new(true);
    let r = cache.select(2, Some(("skins/alex.png".to_string(), legacy_png())));
    assert_eq!(r, Ok(()));
    assert_eq!(cache.get_selected(2).unwrap(), "skins/alex.png");
    let render = cache.get_render(2).unwrap();
    assert_eq!(render.width, 64);
    assert_eq!(render.height, 64);
    assert_eq!(cache.get_last_selected(), 2);
}

#[test]
fn select_none_clears_slot() {
    let mut cache = SlotCache::new(true);
    cache.select(1, Some(("a.png".to_string(), legacy_png()))).unwrap();
    cache.select(1, None).unwrap();
    assert!(cache.get_selected(1).is_none());
    assert!(cache.get_render(1).is_none());
}

#[test]
fn select_without_renders_keeps_no_render() {
    let mut cache = SlotCache::new(false);
    cache.select(0, Some(("a.png".to_string(), legacy_png()))).unwrap();
    assert_eq!(cache.get_selected(0).unwrap(), "a.png");
    assert!(cache.get_render(0).is_none());
}

#[test]
fn select_leaves_other_slots_alone() {
    let mut cache = SlotCache::new(true);
    cache.select(1, Some(("one.png".to_string(), legacy_png()))).unwrap();
    cache.select(4, Some(("four.png".to_string(), canonical_png()))).unwrap();
    assert_eq!(cache.get_selected(1).unwrap(), "one.png");
    assert_eq!(cache.get_render(1).unwrap().width, 64);
    assert_eq!(cache.get_selected(4).unwrap(), "four.png");
    assert_eq!(cache.get_render(4).unwrap().width, 128);
}

#[test]
fn select_bad_bytes_reports_and_clears() {
    let mut cache = SlotCache::new(true);
    let r = cache.select(3, Some(("bad.png".to_string(), vec![1, 2, 3])));
    assert_eq!(r, Err(SkinError::Decode));
    assert!(cache.get_selected(3).is_none());
    assert!(cache.get_render(3).is_none());
}

#[test]
fn reset_last_selected_restores_sentinel() {
    let mut cache = SlotCache::new(true);
    cache.select(5, None).unwrap();
    assert_eq!(cache.get_last_selected(), 5);
    cache.reset_last_selected();
    assert_eq!(cache.get_last_selected(), NO_SLOT);
}

#[test]
fn fighter_info_parse_short_region() {
    let bytes = vec![0u8; 0x64];
    assert!(FighterInfo::parse(&bytes).is_none());
}

#[test]
fn fighter_info_parse_reads_fixed_offsets() {
    let mut bytes = vec![0u8; 0x65];
    bytes[0x58] = 81;
    bytes[0x64] = 3;
    let info = FighterInfo::parse(&bytes).unwrap();
    assert_eq!(info, FighterInfo { fighter_id: 81, fighter_slot: 3 });
}

#[test]
fn handle_selection_ignores_other_kinds() {
    let mut cache = SlotCache::new(true);
    let info = FighterInfo { fighter_id: 12, fighter_slot: 0 };
    let r = handle_selection(&mut cache, &info, 81, Some(("x.png".to_string(), legacy_png())));
    assert_eq!(r, Ok(false));
    assert!(cache.get_selected(0).is_none());
}

#[test]
fn handle_selection_records_matching_kind() {
    let mut cache = SlotCache::new(true);
    let info = FighterInfo { fighter_id: 81, fighter_slot: 6 };
    let r = handle_selection(&mut cache, &info, 81, Some(("x.png".to_string(), legacy_png())));
    assert_eq!(r, Ok(true));
    assert_eq!(cache.get_selected(6).unwrap(), "x.png");
}

#[test]
fn handle_selection_ignores_out_of_range_slot() {
    let mut cache = SlotCache::new(true);
    let info = FighterInfo { fighter_id: 81, fighter_slot: 9 };
    let r = handle_selection(&mut cache, &info, 81, None);
    assert_eq!(r, Ok(false));
}

#[test]
fn dispatcher_rejects_wrong_table_size() {
    let r = Dispatcher::new(
        vec![1, 2, 3],
        ids(200),
        ids(300),
        ids(400),
        ids(500),
        small_mask(),
        small_mask(),
        small_mask(),
    );
    assert!(matches!(r, Err(SkinError::Config)));
}

#[test]
fn dispatcher_rejects_malformed_mask() {
    let bad = Image { width: 8, height: 8, pixels: vec![0u8; 10] };
    let r = Dispatcher::new(
        ids(100),
        ids(200),
        ids(300),
        ids(400),
        ids(500),
        bad,
        small_mask(),
        small_mask(),
    );
    assert!(matches!(r, Err(SkinError::Config)));
}

#[test]
fn dispatch_unrecognized_leaves_buffer_alone() {
    let d = dispatcher();
    let cache = SlotCache::new(true);
    let mut dest = vec![0xCCu8; 64];
    let r = d.dispatch(&cache, 999_999, &mut dest);
    assert_eq!(r, DispatchOutcome::PassThrough);
    assert!(dest.iter().all(|&b| b == 0xCC));
}

#[test]
fn dispatch_route_order() {
    let d = dispatcher();
    assert_eq!(d.route(103), Some((3, AssetKind::RawTexture)));
    assert_eq!(d.route(200), Some((0, AssetKind::Icon)));
    assert_eq!(d.route(305), Some((5, AssetKind::PortraitA)));
    assert_eq!(d.route(407), Some((7, AssetKind::PortraitB)));
    assert_eq!(d.route(501), Some((1, AssetKind::PortraitC)));
    assert_eq!(d.route(42), None);
}

#[test]
fn end_to_end_raw_texture_slot_3() {
    let d = dispatcher();
    let mut cache = SlotCache::new(true);
    let data = legacy_png();
    cache.select(3, Some(("steve.png".to_string(), data.clone()))).unwrap();

    let mut dest = vec![0u8; MAX_FILE_SIZE];
    let r = d.dispatch(&cache, 103, &mut dest);
    assert_eq!(r, DispatchOutcome::Packed(MAX_FILE_SIZE));

    // The payload is the canonicalized, color-corrected 64x64 image.
    let expected = normalize(&data).unwrap();
    let payload = 64 * 64 * 4;
    assert_eq!(&dest[0..payload], &expected.pixels[..]);
    // The metadata block starts exactly at the payload's end.
    assert_eq!(&dest[payload..payload + 4], &64u32.to_le_bytes());
    assert_eq!(&dest[payload + 4..payload + 8], &64u32.to_le_bytes());
    assert_eq!(
        &dest[payload + 8..payload + 12],
        &(payload as u32).to_le_bytes()
    );
}

#[test]
fn end_to_end_icon_slot_0() {
    let d = dispatcher();
    let mut cache = SlotCache::new(true);
    cache.select(0, Some(("steve.png".to_string(), canonical_png()))).unwrap();

    let mut dest = vec![0u8; MAX_STOCK_ICON_SIZE];
    let r = d.dispatch(&cache, 200, &mut dest);
    assert_eq!(r, DispatchOutcome::Packed(ICON_CONTAINER_SIZE));
    assert!(ICON_CONTAINER_SIZE <= MAX_STOCK_ICON_SIZE);
    // A valid icon-container header: tag, then 64x64 dimensions.
    assert_eq!(&dest[0..4], b"ICON");
    assert_eq!(&dest[4..8], &64u32.to_le_bytes());
    assert_eq!(&dest[8..12], &64u32.to_le_bytes());
    assert_eq!(&dest[12..16], &(64u32 * 64 * 4).to_le_bytes());
}

#[test]
fn end_to_end_default_fallback_slot_5() {
    let d = dispatcher();
    let cache = SlotCache::new(true);

    let mut dest = vec![0u8; MAX_FILE_SIZE];
    let r = d.dispatch(&cache, 105, &mut dest);
    assert_eq!(r, DispatchOutcome::NeedsDefault(5));
    assert!(dest.iter().all(|&b| b == 0));

    // The caller then supplies the default on-disk container verbatim and
    // learns its exact byte length.
    let default_data: Vec<u8> = (0..MAX_DATA_SIZE / 2).map(|i| (i % 97) as u8).collect();
    let n = pack_default(&default_data, &mut dest).unwrap();
    assert_eq!(n, default_data.len());
    assert_eq!(&dest[0..n], &default_data[..]);
}

#[test]
fn dispatch_portrait_packs_mask_sized_container() {
    let d = dispatcher();
    let mut cache = SlotCache::new(true);
    cache.select(2, Some(("steve.png".to_string(), legacy_png()))).unwrap();

    let mut dest = vec![0u8; MAX_PORTRAIT_A_SIZE];
    let r = d.dispatch(&cache, 302, &mut dest);
    assert_eq!(r, DispatchOutcome::Packed(16 + 8 * 8 * 4));
    assert_eq!(&dest[0..4], b"ICON");
    assert_eq!(&dest[4..8], &8u32.to_le_bytes());

    let mut dest_b = vec![0u8; MAX_PORTRAIT_B_SIZE];
    assert_eq!(d.dispatch(&cache, 402, &mut dest_b), DispatchOutcome::Packed(16 + 8 * 8 * 4));
    let mut dest_c = vec![0u8; MAX_PORTRAIT_C_SIZE];
    assert_eq!(d.dispatch(&cache, 502, &mut dest_c), DispatchOutcome::Packed(16 + 8 * 8 * 4));
}

#[test]
fn dispatch_icon_without_selection_passes_through() {
    let d = dispatcher();
    let cache = SlotCache::new(true);
    let mut dest = vec![0x11u8; MAX_STOCK_ICON_SIZE];
    let r = d.dispatch(&cache, 204, &mut dest);
    assert_eq!(r, DispatchOutcome::PassThrough);
    assert!(dest.iter().all(|&b| b == 0x11));
}

#[test]
fn select_entry_normalizes_per_slot() {
    let (entry, status) = select_entry(true, Some(("cell.png".to_string(), legacy_png())));
    assert_eq!(status, Ok(()));
    assert_eq!(entry.selected.as_deref(), Some("cell.png"));
    let render = entry.render.unwrap();
    assert_eq!(render.width, 64);
    assert_eq!(render.height, 64);
}

#[test]
fn select_entry_clears_on_bad_bytes() {
    let (entry, status) = select_entry(true, Some(("bad.png".to_string(), vec![9, 9])));
    assert_eq!(status, Err(SkinError::Decode));
    assert!(entry.selected.is_none());
    assert!(entry.render.is_none());
}

#[test]
fn selection_slot_gates_kind_and_range() {
    let hit = FighterInfo { fighter_id: 81, fighter_slot: 4 };
    assert_eq!(selection_slot(&hit, 81), Some(4));
    let wrong_kind = FighterInfo { fighter_id: 3, fighter_slot: 4 };
    assert_eq!(selection_slot(&wrong_kind, 81), None);
    let wrong_slot = FighterInfo { fighter_id: 81, fighter_slot: 8 };
    assert_eq!(selection_slot(&wrong_slot, 81), None);
}

#[test]
fn dispatch_render_serves_one_cell() {
    let d = dispatcher();
    let (entry, status) = select_entry(true, Some(("cell.png".to_string(), legacy_png())));
    assert_eq!(status, Ok(()));

    let mut dest = vec![0u8; MAX_FILE_SIZE];
    let r = d.dispatch_render(AssetKind::RawTexture, 1, entry.render.as_ref(), &mut dest);
    assert_eq!(r, DispatchOutcome::Packed(MAX_FILE_SIZE));
    assert_eq!(&dest[0..4], &entry.render.as_ref().unwrap().pixels[0..4]);

    let empty = SlotEntry { selected: None, render: None };
    let mut dest2 = vec![0x77u8; MAX_FILE_SIZE];
    let r2 = d.dispatch_render(AssetKind::RawTexture, 1, empty.render.as_ref(), &mut dest2);
    assert_eq!(r2, DispatchOutcome::NeedsDefault(1));
    assert!(dest2.iter().all(|&b| b == 0x77));

    let mut dest3 = vec![0x55u8; MAX_STOCK_ICON_SIZE];
    let r3 = d.dispatch_render(AssetKind::Icon, 1, empty.render.as_ref(), &mut dest3);
    assert_eq!(r3, DispatchOutcome::PassThrough);
    assert!(dest3.iter().all(|&b| b == 0x55));
}
