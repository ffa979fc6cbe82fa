//! One loaded file: its decoded container, display name, identity token and
//! open/closed flag, plus the end-of-frame sweep that evicts closed records.

use vstd::prelude::*;

use crate::codec;
use crate::metadata::ImageMetadata;

verus! {

/// One loaded, displayable file.  The display bitmap lives with the
/// presentation layer, keyed by `identity`; mutating the container's
/// metadata chunk never touches it.
pub struct ViewerRecord {
    /// Process-unique correlation token, assigned at load time and stable
    /// for the record's lifetime.
    pub identity: u128,
    /// The decoded container; only its metadata chunk is ever replaced, and
    /// then only in a persisted copy, never in place.
    pub container: dmi::RawDmi,
    /// The name shown for this file, derived from its path or upload name.
    pub display_name: String,
    /// Cleared by the presentation layer when the viewer is closed; closed
    /// records are evicted by [`sweep_closed`].
    pub open: bool,
}

/// A per-file, non-fatal load failure; the rest of a batch keeps loading.
#[derive(Debug)]
pub struct LoadError {
    pub message: String,
}

/// Relies on `uuid::Uuid::new_v4` (via `Uuid::as_u128`): the token is drawn
/// from process randomness, so nothing is promised of its value.
#[verifier::external_body]
fn fresh_identity() -> u128 {
    uuid::Uuid::new_v4().as_u128()
}

impl ViewerRecord {
    /// Whether the record's container is well formed; true of every record
    /// produced by [`load_record`].
    pub open spec fn wf(self) -> bool {
        codec::wf_container(self.container)
    }

    /// A record for an already-decoded container, open and under a fresh
    /// identity.
    pub fn new(container: dmi::RawDmi, display_name: String) -> (rec: Self)
        ensures
            rec.container == container,
            rec.display_name == display_name,
            rec.open,
    {
        ViewerRecord { identity: fresh_identity(), container, display_name, open: true }
    }

    /// The record's metadata view: its optional zTXt chunk (a copy) and its
    /// display name.
    pub fn metadata(&self) -> (m: ImageMetadata)
        ensures
            m.ztxt_meta == self.container.chunk_ztxt,
            m.file_name == self.display_name,
    {
        let chunk = match &self.container.chunk_ztxt {
            Some(z) => Some(z.clone()),
            None => None,
        };
        ImageMetadata::new(chunk, self.display_name.clone())
    }

    /// Whether this file carries a metadata chunk; absence is a valid state,
    /// not an error.
    pub fn has_metadata(&self) -> (b: bool)
        ensures
            b == (self.container.chunk_ztxt is Some),
    {
        self.container.chunk_ztxt.is_some()
    }
}

/// Decodes one dropped file's bytes into an open viewer record.  A record
/// comes out if and only if the parser can be run safely on the bytes and
/// accepts them; any failure is local to this file: the caller reports it
/// inline and loads the rest of the batch.
pub fn load_record(bytes: &[u8], display_name: String) -> (r: Result<ViewerRecord, LoadError>)
    ensures
        r is Ok <==> codec::decode_safe(bytes@) && codec::decode_accepts(bytes@),
        r matches Ok(rec) ==> rec.wf() && rec.display_name == display_name && rec.open,
{
    if !codec::check_decode_safe(bytes) {
        return Err(
            LoadError {
                message: "Failed to load DMI. A chunk's length field runs past the end of the buffer.".to_owned(),
            },
        );
    }
    match codec::decode_container(bytes) {
        Ok(container) => Ok(ViewerRecord::new(container, display_name)),
        Err(message) => Err(LoadError { message }),
    }
}

/// The records of `rs` whose `open` flag is still set, in their original
/// order: what a sweep leaves behind.
pub open spec fn open_records(rs: Seq<ViewerRecord>) -> Seq<ViewerRecord>
    decreases rs.len(),
{
    if rs.len() == 0 {
        Seq::empty()
    } else if rs[0].open {
        seq![rs[0]] + open_records(rs.drop_first())
    } else {
        open_records(rs.drop_first())
    }
}

/// The end-of-frame eviction sweep: keeps exactly the records whose `open`
/// flag is still set, in their original order.
pub fn sweep_closed(records: &mut Vec<ViewerRecord>)
    ensures
        final(records)@ == open_records(old(records)@),
{
    let ghost orig = old(records)@;
    let mut kept: Vec<ViewerRecord> = Vec::new();
    proof {
        assert(kept@ + open_records(orig) =~= open_records(orig));
    }
    while records.len() > 0
        invariant
            open_records(orig) == kept@ + open_records(records@),
        decreases records@.len(),
    {
        let ghost before = records@;
        let ghost kept_before = kept@;
        let r = records.remove(0);
        proof {
            assert(records@ =~= before.drop_first());
            assert(r == before[0]);
        }
        if r.open {
            kept.push(r);
            proof {
                assert(open_records(before) == seq![r] + open_records(records@));
                assert(kept_before + (seq![r] + open_records(records@)) =~= kept@
                    + open_records(records@));
            }
        } else {
            proof {
                assert(open_records(before) == open_records(records@));
            }
        }
    }
    proof {
        assert(open_records(records@) =~= Seq::<ViewerRecord>::empty());
        assert(kept@ + open_records(records@) =~= kept@);
    }
    *records = kept;
}

} // verus!
