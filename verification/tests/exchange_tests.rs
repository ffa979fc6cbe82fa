//! Exchange engine behaviour: copy, paste, cancellation and the clipboard.

use metayoinker::clipboard::MetadataClipboard;
use metayoinker::exchange::clear_meta_clipboard;
use metayoinker::exchange::copy_metadata;
use metayoinker::exchange::derive_save_name;
use metayoinker::exchange::finish_paste;
use metayoinker::exchange::paste_metadata;
use metayoinker::exchange::PendingSave;
use metayoinker::exchange::SaveOutcome;
use metayoinker::metadata::ImageMetadata;
use metayoinker::notify::NotifyKind;
use metayoinker::viewer::ViewerRecord;

fn sample_png_bytes() -> Vec<u8> {
    let img = image::RgbaImage::new(2, 2);
    let mut bytes: Vec<u8> = Vec::new();
    let mut cursor = std::io::Cursor::new(&mut bytes);
    image::DynamicImage::ImageRgba8(img)
        .write_to(&mut cursor, image::ImageFormat::Png)
        .unwrap();
    bytes
}

fn sample_container() -> dmi::RawDmi {
    dmi::RawDmi::load(&sample_png_bytes()[..]).unwrap()
}

fn ztxt_chunk(text: &[u8]) -> dmi::ztxt::RawZtxtChunk {
    dmi::ztxt::create_ztxt_chunk(text).unwrap()
}

#[test]
fn copy_overwrites_previous_occupant() {
    let mut clip = MetadataClipboard::new();
    let first = ImageMetadata::new(Some(ztxt_chunk(b"first payload")), "first.png".to_string());
    let second = ImageMetadata::new(Some(ztxt_chunk(b"second payload")), "second.png".to_string());

    assert!(copy_metadata(&first, &mut clip).is_some());
    assert!(copy_metadata(&second, &mut clip).is_some());

    let entry = clip.read().unwrap();
    assert_eq!(entry.origin_name, "second.png");
    assert_eq!(entry.chunk, ztxt_chunk(b"second payload"));
}

#[test]
fn copy_without_chunk_is_a_noop() {
    let mut clip = MetadataClipboard::new();
    let occupant = ImageMetadata::new(Some(ztxt_chunk(b"kept")), "kept.png".to_string());
    assert!(copy_metadata(&occupant, &mut clip).is_some());

    let absent = ImageMetadata::new(None, "empty.png".to_string());
    assert!(copy_metadata(&absent, &mut clip).is_none());

    let entry = clip.read().unwrap();
    assert_eq!(entry.origin_name, "kept.png");
    assert_eq!(entry.chunk, ztxt_chunk(b"kept"));
}

#[test]
fn copy_emits_exact_toast() {
    let mut clip = MetadataClipboard::new();
    let meta = ImageMetadata::new(Some(ztxt_chunk(b"payload")), "icons.png".to_string());
    let toast = copy_metadata(&meta, &mut clip).unwrap();
    assert_eq!(toast.kind, NotifyKind::Success);
    assert_eq!(toast.text, "Copied metadata for icons.png");
    assert_eq!(toast.duration_millis, 1500);
    assert!(toast.show_progress);
}

#[test]
fn paste_against_empty_clipboard_is_a_noop() {
    let clip = MetadataClipboard::new();
    let target = ViewerRecord::new(sample_container(), "icons.png".to_string());
    let result = paste_metadata(&target, &clip).unwrap();
    assert!(result.is_none());
}

#[test]
fn paste_replaces_chunk_entirely() {
    let mut clip = MetadataClipboard::new();
    let source = ImageMetadata::new(Some(ztxt_chunk(b"clipboard payload")), "src.png".to_string());
    copy_metadata(&source, &mut clip).unwrap();

    // The target already carries a different chunk; the paste must replace
    // it with exactly the clipboard's chunk, never a combination.
    let mut container = sample_container();
    container.chunk_ztxt = Some(ztxt_chunk(b"target payload"));
    let target = ViewerRecord::new(container.clone(), "icons.png".to_string());

    let pending: PendingSave = paste_metadata(&target, &clip).unwrap().unwrap();
    let written = dmi::RawDmi::load(&pending.bytes[..]).unwrap();
    assert_eq!(written.chunk_ztxt, Some(ztxt_chunk(b"clipboard payload")));
    assert_eq!(written.chunk_ihdr, container.chunk_ihdr);
    assert_eq!(written.chunks_idat, container.chunks_idat);
    assert_eq!(written.chunk_iend, container.chunk_iend);
    assert_eq!(written.chunk_plte, container.chunk_plte);
    assert_eq!(written.other_chunks, container.other_chunks);
}

#[test]
fn paste_into_target_without_chunk() {
    let mut clip = MetadataClipboard::new();
    let source = ImageMetadata::new(Some(ztxt_chunk(b"payload")), "src.png".to_string());
    copy_metadata(&source, &mut clip).unwrap();

    let target = ViewerRecord::new(sample_container(), "icons.png".to_string());
    assert!(target.container.chunk_ztxt.is_none());

    let pending = paste_metadata(&target, &clip).unwrap().unwrap();
    let written = dmi::RawDmi::load(&pending.bytes[..]).unwrap();
    assert_eq!(written.chunk_ztxt, Some(ztxt_chunk(b"payload")));
}

#[test]
fn paste_does_not_mutate_target() {
    let mut clip = MetadataClipboard::new();
    let source = ImageMetadata::new(Some(ztxt_chunk(b"payload")), "src.png".to_string());
    copy_metadata(&source, &mut clip).unwrap();

    let target = ViewerRecord::new(sample_container(), "icons.png".to_string());
    let before = target.container.clone();
    let _ = paste_metadata(&target, &clip).unwrap().unwrap();
    assert_eq!(target.container, before);
}

#[test]
fn paste_suggests_derived_name() {
    let mut clip = MetadataClipboard::new();
    let source = ImageMetadata::new(Some(ztxt_chunk(b"payload")), "src.png".to_string());
    copy_metadata(&source, &mut clip).unwrap();

    let target = ViewerRecord::new(sample_container(), "icons.png".to_string());
    let pending = paste_metadata(&target, &clip).unwrap().unwrap();
    assert_eq!(pending.suggested_name, "icons.dmi");
    assert_eq!(pending.target_name, "icons.png");
}

#[test]
fn cancellation_emits_nothing_and_keeps_clipboard() {
    let mut clip = MetadataClipboard::new();
    let source = ImageMetadata::new(Some(ztxt_chunk(b"payload")), "src.png".to_string());
    copy_metadata(&source, &mut clip).unwrap();

    let target = ViewerRecord::new(sample_container(), "icons.png".to_string());
    let pending = paste_metadata(&target, &clip).unwrap().unwrap();

    for _ in 0..5 {
        assert!(finish_paste(&pending, SaveOutcome::Cancelled).is_none());
    }
    let entry = clip.read().unwrap();
    assert_eq!(entry.origin_name, "src.png");
    assert_eq!(entry.chunk, ztxt_chunk(b"payload"));
}

#[test]
fn save_emits_download_toast() {
    let mut clip = MetadataClipboard::new();
    let source = ImageMetadata::new(Some(ztxt_chunk(b"payload")), "src.png".to_string());
    copy_metadata(&source, &mut clip).unwrap();

    let target = ViewerRecord::new(sample_container(), "icons.png".to_string());
    let pending = paste_metadata(&target, &clip).unwrap().unwrap();
    let toast = finish_paste(&pending, SaveOutcome::Saved).unwrap();
    assert_eq!(toast.kind, NotifyKind::Success);
    assert_eq!(toast.text, "Downloaded icons.png");
    assert_eq!(toast.duration_millis, 1500);
    assert!(toast.show_progress);
}

#[test]
fn derive_name_strips_extension() {
    assert_eq!(derive_save_name("icons.png"), "icons.dmi");
    assert_eq!(derive_save_name("a.png"), "a.dmi");
    assert_eq!(derive_save_name("already.dmi"), "already.dmi");
}

#[test]
fn derive_name_guards_short_names() {
    assert_eq!(derive_save_name("abc"), "abc.dmi");
    assert_eq!(derive_save_name(""), ".dmi");
    assert_eq!(derive_save_name(".png"), ".dmi");
}

#[test]
fn clear_empties_the_slot_and_is_idempotent() {
    let mut clip = MetadataClipboard::new();
    let source = ImageMetadata::new(Some(ztxt_chunk(b"payload")), "src.png".to_string());
    copy_metadata(&source, &mut clip).unwrap();
    assert!(clip.is_occupied());

    let toast = clear_meta_clipboard(&mut clip);
    assert_eq!(toast.kind, NotifyKind::Success);
    assert_eq!(toast.text, "Cleared clipboard");
    assert_eq!(toast.duration_millis, 2000);
    assert!(!clip.is_occupied());
    assert!(clip.read().is_none());

    let again = clear_meta_clipboard(&mut clip);
    assert_eq!(again.text, "Cleared clipboard");
    assert!(!clip.is_occupied());
}
