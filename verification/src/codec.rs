//! The container codec: the `dmi` crate's view of a PNG file as an ordered
//! chunk stream, together with a byte-level model of what its encoder writes.
//!
//! The `dmi` types are plain structs with public fields, so they are declared
//! transparently: contracts elsewhere in the crate speak directly of their
//! fields.  Only the parser (`RawDmi::load`), the encoder (`RawDmi::save`)
//! and the derived clones are taken on trust.

use vstd::prelude::*;

verus! {

/// The decoded container of the `dmi` crate: an ordered set of PNG chunks
/// with at most one zTXt metadata chunk.  All fields are public plain data.
#[verifier::external_type_specification]
pub struct ExRawDmi(dmi::RawDmi);

/// A generic PNG chunk of the `dmi` crate: length, type, data and checksum.
#[verifier::external_type_specification]
pub struct ExRawGenericChunk(dmi::chunk::RawGenericChunk);

/// The zTXt metadata chunk of the `dmi` crate.
#[verifier::external_type_specification]
pub struct ExRawZtxtChunk(dmi::ztxt::RawZtxtChunk);

/// The payload of a zTXt chunk: keyword, separator, compression method and
/// compressed text.
#[verifier::external_type_specification]
pub struct ExRawZtxtData(dmi::ztxt::RawZtxtData);

/// The closing IEND chunk of the `dmi` crate; it carries no data field.
#[verifier::external_type_specification]
pub struct ExRawIendChunk(dmi::iend::RawIendChunk);

/// The big-endian 32-bit value stored in a chunk's four length bytes.
pub open spec fn be_u32(b: Seq<u8>) -> int {
    b[0] * 0x1000000 + b[1] * 0x10000 + b[2] * 0x100 + b[3]
}

/// The number of payload bytes a zTXt chunk's data writes out: the keyword,
/// the null separator, the compression method byte and the compressed text.
pub open spec fn ztxt_payload_len(d: dmi::ztxt::RawZtxtData) -> int {
    d.keyword@.len() + 2 + d.compressed_text@.len() as int
}

/// A generic chunk is well formed when its length field records the actual
/// size of its data.
pub open spec fn wf_generic_chunk(c: dmi::chunk::RawGenericChunk) -> bool {
    be_u32(c.data_length@) == c.data@.len()
}

/// A zTXt chunk is well formed when its length field records the actual size
/// of its payload.
pub open spec fn wf_ztxt_chunk(z: dmi::ztxt::RawZtxtChunk) -> bool {
    be_u32(z.data_length@) == ztxt_payload_len(z.data)
}

/// An IEND chunk is well formed when its length field is zero, matching its
/// absent data.
pub open spec fn wf_iend_chunk(c: dmi::iend::RawIendChunk) -> bool {
    be_u32(c.data_length@) == 0
}

pub open spec fn wf_chunk_seq(cs: Seq<dmi::chunk::RawGenericChunk>) -> bool {
    forall|i: int| 0 <= i < cs.len() ==> wf_generic_chunk(#[trigger] cs[i])
}

/// A container is well formed when every chunk's length field matches its
/// data.  Decoding only ever produces such containers, and encoding such a
/// container cannot fail.
pub open spec fn wf_container(d: dmi::RawDmi) -> bool {
    &&& wf_generic_chunk(d.chunk_ihdr)
    &&& (d.chunk_ztxt matches Some(z) ==> wf_ztxt_chunk(z))
    &&& (d.chunk_plte matches Some(c) ==> wf_generic_chunk(c))
    &&& (d.other_chunks matches Some(cs) ==> wf_chunk_seq(cs@))
    &&& wf_chunk_seq(d.chunks_idat@)
    &&& wf_iend_chunk(d.chunk_iend)
}

/// The eight signature bytes that open every PNG file.
pub open spec fn spec_png_signature() -> Seq<u8> {
    seq![137u8, 80u8, 78u8, 71u8, 13u8, 10u8, 26u8, 10u8]
}

/// The bytes the encoder writes for one generic chunk.
pub open spec fn generic_chunk_bytes(c: dmi::chunk::RawGenericChunk) -> Seq<u8> {
    c.data_length@ + c.chunk_type@ + c.data@ + c.crc@
}

/// The bytes the encoder writes for a zTXt chunk's payload.
pub open spec fn ztxt_data_bytes(d: dmi::ztxt::RawZtxtData) -> Seq<u8> {
    d.keyword@ + seq![d.null_separator, d.compression_method] + d.compressed_text@
}

/// The bytes the encoder writes for one zTXt chunk.
pub open spec fn ztxt_chunk_bytes(z: dmi::ztxt::RawZtxtChunk) -> Seq<u8> {
    z.data_length@ + z.chunk_type@ + ztxt_data_bytes(z.data) + z.crc@
}

/// The bytes the encoder writes for the IEND chunk.
pub open spec fn iend_chunk_bytes(c: dmi::iend::RawIendChunk) -> Seq<u8> {
    c.data_length@ + c.chunk_type@ + c.crc@
}

/// The concatenated bytes of a run of generic chunks, in order.
pub open spec fn chunk_seq_bytes(cs: Seq<dmi::chunk::RawGenericChunk>) -> Seq<u8>
    decreases cs.len(),
{
    if cs.len() == 0 {
        Seq::empty()
    } else {
        generic_chunk_bytes(cs[0]) + chunk_seq_bytes(cs.drop_first())
    }
}

pub open spec fn opt_ztxt_bytes(z: Option<dmi::ztxt::RawZtxtChunk>) -> Seq<u8> {
    match z {
        Some(z) => ztxt_chunk_bytes(z),
        None => Seq::empty(),
    }
}

pub open spec fn opt_chunk_bytes(c: Option<dmi::chunk::RawGenericChunk>) -> Seq<u8> {
    match c {
        Some(c) => generic_chunk_bytes(c),
        None => Seq::empty(),
    }
}

pub open spec fn opt_chunk_vec_bytes(cs: Option<Vec<dmi::chunk::RawGenericChunk>>) -> Seq<u8> {
    match cs {
        Some(v) => chunk_seq_bytes(v@),
        None => Seq::empty(),
    }
}

/// The full byte stream the encoder writes for a container: the signature,
/// then IHDR, zTXt (if any), PLTE (if any), the remaining ancillary chunks,
/// the IDAT chunks and IEND, in that order.
pub open spec fn container_bytes(d: dmi::RawDmi) -> Seq<u8> {
    d.header@ + generic_chunk_bytes(d.chunk_ihdr) + opt_ztxt_bytes(d.chunk_ztxt)
        + opt_chunk_bytes(d.chunk_plte) + opt_chunk_vec_bytes(d.other_chunks)
        + chunk_seq_bytes(d.chunks_idat@) + iend_chunk_bytes(d.chunk_iend)
}

/// A container with its metadata chunk replaced by `z`; every other part is
/// kept as it was.
pub open spec fn spec_patched(c: dmi::RawDmi, z: dmi::ztxt::RawZtxtChunk) -> dmi::RawDmi {
    dmi::RawDmi {
        header: c.header,
        chunk_ihdr: c.chunk_ihdr,
        chunk_ztxt: Some(z),
        chunk_plte: c.chunk_plte,
        other_chunks: c.other_chunks,
        chunks_idat: c.chunks_idat,
        chunk_iend: c.chunk_iend,
    }
}

/// The big-endian value of the four length bytes of the chunk frame at `i`.
pub open spec fn frame_len_at(bytes: Seq<u8>, i: int) -> int {
    bytes[i] * 0x1000000 + bytes[i + 1] * 0x10000 + bytes[i + 2] * 0x100 + bytes[i + 3]
}

/// Whether the chunk frame at `i` carries the type bytes `IEND`.
pub open spec fn iend_frame_at(bytes: Seq<u8>, i: int) -> bool {
    bytes[i + 4] == 73 && bytes[i + 5] == 69 && bytes[i + 6] == 78 && bytes[i + 7] == 68
}

/// Whether the chunk-frame walk from `i` stays inside the buffer.  The
/// parser slices each frame by the length its first four bytes declare, with
/// only a twelve-byte margin checked first, and stops at the first `IEND`
/// frame; a frame whose declared length runs past the end of the buffer
/// would make it slice out of bounds instead of returning an error.
pub open spec fn frames_bounded(bytes: Seq<u8>, i: int) -> bool
    decreases bytes.len() - i,
{
    if i + 12 > bytes.len() {
        true  // the parser reports the truncated buffer as an error
    } else if i + 12 + frame_len_at(bytes, i) > bytes.len() {
        false  // the parser would slice past the end of the buffer
    } else if iend_frame_at(bytes, i) {
        true  // the walk stops at the first IEND frame
    } else {
        frames_bounded(bytes, i + 12 + frame_len_at(bytes, i))
    }
}

/// Whether the container parser can be run on these bytes without risk of an
/// out-of-bounds slice: it rejects short buffers and wrong signatures before
/// walking any frame, and otherwise walks the chunk frames from offset 8.
pub open spec fn decode_safe(bytes: Seq<u8>) -> bool {
    ||| bytes.len() < 72
    ||| bytes.subrange(0, 8) != spec_png_signature()
    ||| frames_bounded(bytes, 8)
}

/// Which byte strings the container parser accepts; a fixed function of the
/// bytes alone.
pub uninterp spec fn decode_accepts(bytes: Seq<u8>) -> bool;

/// Relies on the derived `Clone` of `dmi::RawDmi`: a field-by-field deep copy.
pub assume_specification[ <dmi::RawDmi as Clone>::clone ](d: &dmi::RawDmi) -> (r: dmi::RawDmi)
    ensures
        r == *d,
;

/// Relies on the derived `Clone` of `dmi::ztxt::RawZtxtChunk`: a
/// field-by-field deep copy.
pub assume_specification[ <dmi::ztxt::RawZtxtChunk as Clone>::clone ](
    z: &dmi::ztxt::RawZtxtChunk,
) -> (r: dmi::ztxt::RawZtxtChunk)
    ensures
        r == *z,
;

/// Relies on `dmi::RawDmi::load`: it parses a PNG chunk stream, sets the
/// header to the PNG signature it just checked, and sizes every chunk it
/// accepts by that chunk's own length field, so each decoded chunk's length
/// field records its actual data size (a zTXt payload missing its null
/// separator is rejected, and IEND is normalised to the empty default).
/// Which byte strings it accepts is a fixed function of the bytes.  It
/// slices each chunk frame by the frame's declared length, so it may only
/// be called on bytes whose frame walk stays inside the buffer
/// ([`decode_safe`]); [`check_decode_safe`] establishes that first.
#[verifier::external_body]
pub(crate) fn decode_container(bytes: &[u8]) -> (r: Result<dmi::RawDmi, String>)
    requires
        decode_safe(bytes@),
    ensures
        r is Ok <==> decode_accepts(bytes@),
        r matches Ok(d) ==> wf_container(d) && d.header@ == spec_png_signature(),
{
    dmi::RawDmi::load(bytes).map_err(|e| e.to_string())
}

/// Relies on `dmi::RawDmi::save` with `include_ztxt` set, writing into a
/// `Vec<u8>`: `io::Write` on a `Vec` accepts every byte, so `save` fails only
/// when a chunk's length field exceeds its actual data, and on success the
/// buffer holds exactly the signature and the chunks in encoding order.
#[verifier::external_body]
pub(crate) fn encode_container(d: &dmi::RawDmi) -> (r: Result<Vec<u8>, String>)
    ensures
        wf_container(*d) ==> r is Ok,
        r matches Ok(bytes) ==> bytes@ == container_bytes(*d),
{
    let mut buffer: Vec<u8> = Vec::new();
    match d.save(&mut buffer, true) {
        Ok(_) => Ok(buffer),
        Err(e) => Err(e.to_string()),
    }
}

/// Builds the container that a paste persists: a copy of `c` whose metadata
/// chunk is exactly `z`, all other chunks untouched.
pub fn with_replaced_metadata(c: &dmi::RawDmi, z: &dmi::ztxt::RawZtxtChunk) -> (r: dmi::RawDmi)
    ensures
        r == spec_patched(*c, *z),
        wf_container(*c) && wf_ztxt_chunk(*z) ==> wf_container(r),
{
    let mut patched = c.clone();
    patched.chunk_ztxt = Some(z.clone());
    patched
}

fn be_u32_value(b: &[u8; 4]) -> (n: u32)
    ensures
        n == be_u32(b@),
{
    (b[0] as u32) * 0x1000000 + (b[1] as u32) * 0x10000 + (b[2] as u32) * 0x100 + (b[3] as u32)
}

fn generic_chunk_ok(c: &dmi::chunk::RawGenericChunk) -> (b: bool)
    ensures
        b == wf_generic_chunk(*c),
{
    let n = be_u32_value(&c.data_length);
    n as usize == c.data.len()
}

fn ztxt_chunk_ok(z: &dmi::ztxt::RawZtxtChunk) -> (b: bool)
    ensures
        b == wf_ztxt_chunk(*z),
{
    let n = be_u32_value(&z.data_length);
    (n as u128) == (z.data.keyword.len() as u128) + 2 + (z.data.compressed_text.len() as u128)
}

fn iend_chunk_ok(c: &dmi::iend::RawIendChunk) -> (b: bool)
    ensures
        b == wf_iend_chunk(*c),
{
    be_u32_value(&c.data_length) == 0
}

fn chunk_vec_ok(cs: &Vec<dmi::chunk::RawGenericChunk>) -> (b: bool)
    ensures
        b == wf_chunk_seq(cs@),
{
    let mut i: usize = 0;
    while i < cs.len()
        invariant
            i <= cs.len(),
            forall|j: int| 0 <= j < i ==> wf_generic_chunk(#[trigger] cs@[j]),
        decreases cs.len() - i,
    {
        if !generic_chunk_ok(&cs[i]) {
            return false;
        }
        i += 1;
    }
    true
}

fn has_png_signature(bytes: &[u8]) -> (b: bool)
    requires
        bytes@.len() >= 8,
    ensures
        b == (bytes@.subrange(0, 8) == spec_png_signature()),
{
    let b = bytes[0] == 137 && bytes[1] == 80 && bytes[2] == 78 && bytes[3] == 71 && bytes[4]
        == 13 && bytes[5] == 10 && bytes[6] == 26 && bytes[7] == 10;
    proof {
        let s = bytes@.subrange(0, 8);
        let p = spec_png_signature();
        assert(p[0] == 137 && p[1] == 80 && p[2] == 78 && p[3] == 71 && p[4] == 13 && p[5] == 10
            && p[6] == 26 && p[7] == 10);
        assert(s[0] == bytes@[0] && s[1] == bytes@[1] && s[2] == bytes@[2] && s[3] == bytes@[3]
            && s[4] == bytes@[4] && s[5] == bytes@[5] && s[6] == bytes@[6] && s[7] == bytes@[7]);
        if b {
            assert(s =~= p);
        } else {
            if s == p {
                assert(false);
            }
        }
    }
    b
}

/// Whether the container parser can safely be run on these bytes: the
/// executable mirror of [`decode_safe`], run before every decode.
pub fn check_decode_safe(bytes: &[u8]) -> (b: bool)
    ensures
        b == decode_safe(bytes@),
{
    let n = bytes.len();
    if n < 72 {
        return true;
    }
    if !has_png_signature(bytes) {
        return true;
    }
    let mut i: usize = 8;
    loop
        invariant
            8 <= i <= n,
            n == bytes@.len(),
            72 <= n,
            bytes@.subrange(0, 8) == spec_png_signature(),
            frames_bounded(bytes@, 8) == frames_bounded(bytes@, i as int),
        decreases n - i,
    {
        if n - i < 12 {
            proof {
                assert(frames_bounded(bytes@, i as int));
            }
            return true;
        }
        let fl: u32 = (bytes[i] as u32) * 0x1000000 + (bytes[i + 1] as u32) * 0x10000 + (bytes[i
            + 2] as u32) * 0x100 + (bytes[i + 3] as u32);
        proof {
            assert(fl == frame_len_at(bytes@, i as int));
        }
        if (i as u128) + 12 + (fl as u128) > (n as u128) {
            proof {
                assert(!frames_bounded(bytes@, i as int));
            }
            return false;
        }
        if bytes[i + 4] == 73 && bytes[i + 5] == 69 && bytes[i + 6] == 78 && bytes[i + 7] == 68 {
            proof {
                assert(frames_bounded(bytes@, i as int));
            }
            return true;
        }
        proof {
            assert(frames_bounded(bytes@, i as int) == frames_bounded(
                bytes@,
                i as int + 12 + frame_len_at(bytes@, i as int),
            ));
        }
        i = i + 12 + (fl as usize);
    }
}

/// The executable mirror of [`wf_container`], so that unverified callers and
/// tests can check what the decoder is specified to guarantee.
pub fn check_wf(d: &dmi::RawDmi) -> (b: bool)
    ensures
        b == wf_container(*d),
{
    if !generic_chunk_ok(&d.chunk_ihdr) {
        return false;
    }
    match &d.chunk_ztxt {
        Some(z) => {
            if !ztxt_chunk_ok(z) {
                return false;
            }
        },
        None => {},
    }
    match &d.chunk_plte {
        Some(c) => {
            if !generic_chunk_ok(c) {
                return false;
            }
        },
        None => {},
    }
    match &d.other_chunks {
        Some(cs) => {
            if !chunk_vec_ok(cs) {
                return false;
            }
        },
        None => {},
    }
    if !chunk_vec_ok(&d.chunks_idat) {
        return false;
    }
    iend_chunk_ok(&d.chunk_iend)
}

} // verus!
