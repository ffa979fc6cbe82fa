//! The exchange engine: copy (record to clipboard) and paste (clipboard
//! into a re-encoded copy of a record's container, handed to the
//! persistence sink), with the filename derivation and the completion step.
//!
//! A paste never mutates the target record: it patches and encodes a copy,
//! and the viewer keeps showing its original metadata until the written
//! file is reloaded.

use vstd::prelude::*;
use vstd::string::*;

use crate::clipboard::MetadataClipboard;
use crate::clipboard::copy_step;
use crate::codec;
use crate::metadata::ImageMetadata;
use crate::notify::Notification;
use crate::notify::copied_message;
use crate::notify::downloaded_message;
use crate::notify::spec_copied_message;
use crate::notify::spec_downloaded_message;
use crate::viewer::ViewerRecord;

verus! {

/// The computed part of a paste, ready for the persistence sink: the bytes
/// to write, the suggested output name, and the target's display name for
/// the completion toast.
pub struct PendingSave {
    pub bytes: Vec<u8>,
    pub suggested_name: String,
    pub target_name: String,
}

/// A failed re-encode of an in-memory container: an unexpected defect to
/// propagate, never to report as a successful download.
#[derive(Debug)]
pub struct CodecDefect {
    pub message: String,
}

/// How the persistence sink resolved: the user chose a destination and the
/// bytes were written, or the chooser was dismissed.
#[derive(Clone, Copy, PartialEq, Eq, Structural, Debug)]
pub enum SaveOutcome {
    Saved,
    Cancelled,
}

/// The suggested output name: the display name with its four-character
/// extension stripped and the canonical `.dmi` extension appended.
pub open spec fn spec_derived_name(name: Seq<char>) -> Seq<char> {
    if name.len() >= 4 {
        name.subrange(0, name.len() - 4) + ".dmi"@
    } else {
        name + ".dmi"@
    }
}

/// Derives the suggested output name from a display name.  A name too short
/// to carry an extension keeps all its characters; the derivation never
/// fails.
pub fn derive_save_name(name: &str) -> (r: String)
    ensures
        r@ == spec_derived_name(name@),
{
    let n = name.unicode_len();
    if n >= 4 {
        let stem = name.substring_char(0, n - 4);
        String::from_str(stem).concat(".dmi")
    } else {
        String::from_str(name).concat(".dmi")
    }
}

/// Copy: clones the record's metadata chunk into the clipboard slot,
/// overwriting any occupant, and reports success.  Copying absence is a
/// no-op: it must not disturb an existing occupant, and emits nothing.
pub fn copy_metadata(metadata: &ImageMetadata, clipboard: &mut MetadataClipboard) -> (r: Option<
    Notification,
>)
    ensures
        metadata.ztxt_meta is None ==> final(clipboard)@ == old(clipboard)@ && r is None,
        metadata.ztxt_meta matches Some(chunk) ==> final(clipboard)@ == copy_step(
            old(clipboard)@,
            metadata.file_name@,
            chunk,
        ) && (r matches Some(n) && n.kind is Success && n.text@ == spec_copied_message(
            metadata.file_name@,
        ) && n.duration_millis == 1500 && n.show_progress),
{
    match &metadata.ztxt_meta {
        Some(chunk) => {
            clipboard.copy_in(metadata.file_name.clone(), chunk.clone());
            Some(Notification::success(copied_message(metadata.file_name.as_str()), 1500))
        },
        None => None,
    }
}

/// Paste: snapshots the clipboard once, patches a copy of the target's
/// container with the snapshot's chunk (full replacement, never a merge),
/// re-encodes it and derives the suggested output name.  An empty clipboard
/// is a no-op: nothing is cloned, encoded or handed to the sink.  The target
/// record itself is never mutated.
pub fn paste_metadata(target: &ViewerRecord, clipboard: &MetadataClipboard) -> (r: Result<
    Option<PendingSave>,
    CodecDefect,
>)
    ensures
        clipboard@ is None ==> (r matches Ok(op) && op is None),
        clipboard@ matches Some(entry) ==> (r matches Ok(op) ==> op matches Some(p)
            && p.bytes@ == codec::container_bytes(
            codec::spec_patched(target.container, entry.1),
        ) && p.suggested_name@ == spec_derived_name(target.display_name@) && p.target_name@
            == target.display_name@),
        clipboard@ matches Some(entry) && target.wf() && codec::wf_ztxt_chunk(entry.1) ==> r is Ok,
{
    let snapshot = clipboard.read();
    match snapshot {
        None => Ok(None),
        Some(entry) => {
            let patched = codec::with_replaced_metadata(&target.container, &entry.chunk);
            match codec::encode_container(&patched) {
                Ok(bytes) => Ok(
                    Some(
                        PendingSave {
                            bytes,
                            suggested_name: derive_save_name(target.display_name.as_str()),
                            target_name: target.display_name.clone(),
                        },
                    ),
                ),
                Err(message) => Err(CodecDefect { message }),
            }
        },
    }
}

/// The completion step of a paste, applied to however the sink resolved: a
/// save emits the downloaded toast; a dismissed chooser emits nothing and
/// raises nothing, however often it happens.
pub fn finish_paste(pending: &PendingSave, outcome: SaveOutcome) -> (r: Option<Notification>)
    ensures
        outcome is Cancelled ==> r is None,
        outcome is Saved ==> (r matches Some(n) && n.kind is Success && n.text@
            == spec_downloaded_message(pending.target_name@) && n.duration_millis == 1500
            && n.show_progress),
{
    match outcome {
        SaveOutcome::Saved => Some(
            Notification::success(downloaded_message(pending.target_name.as_str()), 1500),
        ),
        SaveOutcome::Cancelled => None,
    }
}

/// Clears the shared clipboard and reports it; clearing an empty clipboard
/// is as valid as clearing an occupied one.
pub fn clear_meta_clipboard(clipboard: &mut MetadataClipboard) -> (r: Notification)
    ensures
        final(clipboard)@ is None,
        r.kind is Success && r.text@ == "Cleared clipboard"@ && r.duration_millis == 2000
            && r.show_progress,
{
    clipboard.clear();
    Notification::success(String::from_str("Cleared clipboard"), 2000)
}

} // verus!
