//! The single-slot metadata clipboard shared by every open viewer.
//!
//! The slot holds at most one occupant: the copied zTXt chunk together with
//! the display name of the file it came from.  A copy replaces the occupant
//! unconditionally (last writer wins, no merge, no queueing); a read hands
//! out a defensive copy; a clear empties the slot and is idempotent.

use vstd::prelude::*;

verus! {

/// One clipboard occupant: the originating file's display name and the
/// copied metadata chunk.
pub struct ClipboardEntry {
    pub origin_name: String,
    pub chunk: dmi::ztxt::RawZtxtChunk,
}

/// The single-slot store.  It is owned by the caller and passed by reference
/// to every operation that needs it; Rust's borrowing rules make a slot
/// update atomic with respect to every reader.
pub struct MetadataClipboard {
    slot: Option<ClipboardEntry>,
}

impl View for MetadataClipboard {
    type V = Option<(Seq<char>, dmi::ztxt::RawZtxtChunk)>;

    closed spec fn view(&self) -> Self::V {
        match self.slot {
            Some(e) => Some((e.origin_name@, e.chunk)),
            None => None,
        }
    }
}

/// How one copy changes the slot: the new occupant replaces whatever was
/// there, occupied or not.
pub open spec fn copy_step(
    slot: Option<(Seq<char>, dmi::ztxt::RawZtxtChunk)>,
    origin_name: Seq<char>,
    chunk: dmi::ztxt::RawZtxtChunk,
) -> Option<(Seq<char>, dmi::ztxt::RawZtxtChunk)> {
    Some((origin_name, chunk))
}

/// The slot after a whole run of copies, applied first to last.
pub open spec fn clipboard_after(
    slot: Option<(Seq<char>, dmi::ztxt::RawZtxtChunk)>,
    copies: Seq<(Seq<char>, dmi::ztxt::RawZtxtChunk)>,
) -> Option<(Seq<char>, dmi::ztxt::RawZtxtChunk)>
    decreases copies.len(),
{
    if copies.len() == 0 {
        slot
    } else {
        clipboard_after(copy_step(slot, copies[0].0, copies[0].1), copies.drop_first())
    }
}

/// Overwrite law: after any non-empty run of copies the slot holds exactly
/// the origin name and chunk of the last one, whatever it held before.
pub proof fn lemma_clipboard_overwrite(
    slot: Option<(Seq<char>, dmi::ztxt::RawZtxtChunk)>,
    copies: Seq<(Seq<char>, dmi::ztxt::RawZtxtChunk)>,
)
    requires
        copies.len() > 0,
    ensures
        clipboard_after(slot, copies) == Some((copies.last().0, copies.last().1)),
    decreases copies.len(),
{
    let first = copy_step(slot, copies[0].0, copies[0].1);
    assert(clipboard_after(slot, copies) == clipboard_after(first, copies.drop_first()));
    if copies.len() == 1 {
        assert(clipboard_after(first, copies.drop_first()) == first);
    } else {
        lemma_clipboard_overwrite(first, copies.drop_first());
        assert(copies.drop_first().last() == copies.last());
    }
}

impl MetadataClipboard {
    /// A clipboard that starts empty, as the process-wide slot does.
    pub fn new() -> (c: Self)
        ensures
            c@ is None,
    {
        MetadataClipboard { slot: None }
    }

    /// Unconditionally replaces the occupant; the prior occupant, if any, is
    /// discarded.
    pub fn copy_in(&mut self, origin_name: String, chunk: dmi::ztxt::RawZtxtChunk)
        ensures
            final(self)@ == copy_step(old(self)@, origin_name@, chunk),
    {
        self.slot = Some(ClipboardEntry { origin_name, chunk });
    }

    /// A defensive copy of the occupant, or `None`; the slot is untouched.
    pub fn read(&self) -> (r: Option<ClipboardEntry>)
        ensures
            r is Some <==> self@ is Some,
            r matches Some(e) ==> self@ == Some((e.origin_name@, e.chunk)),
    {
        match &self.slot {
            Some(e) => Some(
                ClipboardEntry { origin_name: e.origin_name.clone(), chunk: e.chunk.clone() },
            ),
            None => None,
        }
    }

    /// Empties the slot unconditionally; idempotent.
    pub fn clear(&mut self)
        ensures
            final(self)@ is None,
    {
        self.slot = None;
    }

    /// Whether the slot currently holds an occupant.
    pub fn is_occupied(&self) -> (b: bool)
        ensures
            b == (self@ is Some),
    {
        self.slot.is_some()
    }
}

} // verus!
