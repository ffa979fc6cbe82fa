//! The metadata view of one loaded file: its display name and its optional
//! zTXt chunk, and the rule that derives the display name.

use vstd::prelude::*;

verus! {

/// The metadata carried by one loaded file: the optional zTXt chunk and the
/// display name of the file it came from.
pub struct ImageMetadata {
    pub ztxt_meta: Option<dmi::ztxt::RawZtxtChunk>,
    pub file_name: String,
}

/// The display name of a loaded file: the file name from its filesystem path
/// when there is one, else the upload name when it is non-empty, else a
/// placeholder.
pub open spec fn spec_display_name(
    path_file_name: Option<Seq<char>>,
    upload_name: Seq<char>,
) -> Seq<char> {
    match path_file_name {
        Some(n) => n,
        None => if upload_name.len() > 0 {
            upload_name
        } else {
            "???"@
        },
    }
}

impl ImageMetadata {
    pub fn new(ztxt_meta: Option<dmi::ztxt::RawZtxtChunk>, file_name: String) -> (m: Self)
        ensures
            m.ztxt_meta == ztxt_meta,
            m.file_name == file_name,
    {
        ImageMetadata { ztxt_meta, file_name }
    }

    /// Picks the display name for a dropped file.  A file loaded from disk
    /// brings the final component of its path; one uploaded in a browser
    /// brings only an upload name, which may be empty.
    pub fn get_file_name(path_file_name: Option<String>, upload_name: &str) -> (r: String)
        ensures
            r@ == spec_display_name(path_file_name.deep_view(), upload_name@),
    {
        match path_file_name {
            Some(n) => n,
            None => {
                if !upload_name.is_empty() {
                    upload_name.to_owned()
                } else {
                    "???".to_owned()
                }
            },
        }
    }
}

} // verus!
