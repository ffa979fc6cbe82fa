//! Metadata exchange engine for DMI sprite-sheet files.
//!
//! A loaded file is a [`viewer::ViewerRecord`]: its decoded PNG container,
//! display name and open/closed flag.  A single-slot
//! [`clipboard::MetadataClipboard`] carries one zTXt metadata chunk between
//! records.  The [`exchange`] module implements copy (record to clipboard)
//! and paste (clipboard into a re-encoded copy of a record's container,
//! handed to an unverified persistence sink).

pub mod clipboard;
pub mod codec;
pub mod exchange;
pub mod metadata;
pub mod notify;
pub mod viewer;
