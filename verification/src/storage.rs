//! The storage boundary: reaching the outside region-file parser through
//! one trusted fetch, and building worlds from what it yields.
//!
//! The outside crate owns the region-file byte layout; this module hands its
//! structured output on, as plain values, to the verified chunk builder.
//! The fetch works from the raw region bytes, so what it yields is a
//! function of those bytes and the requested coordinates alone, named
//! `chunk_in_bytes`.  Two verified pre-checks stand before the parser:
//! `location_well_formed` reads the few header and length bytes that decide
//! whether the parser's chunk lookup is total, and the structural walk of
//! `nbt_check` examines the decompressed payload so that the parser's NBT
//! reader never meets a document its skip path cannot traverse.  A
//! chunk-scoped failure (an ungenerated chunk, a malformed location or
//! document, undecodable chunk data, an unsupported payload) resolves to an
//! empty chunk, so that a partly damaged region still renders instead of
//! failing the whole load; only a missing region header is a world-scoped
//! failure.

use vstd::prelude::*;
use crate::section::Section;
use crate::world::{
    chunk_build_spec, chunk_coord_in_range, chunk_wf, sections_in_range, world_wf,
    StructuredChunk, World, CHUNK_COORD_LIMIT,
};

verus! {

#[verifier::external_type_specification]
#[verifier::external_body]
pub struct ExChunkSection(mca_parser::nbt::ChunkSection);

/// The stored offset field of the location entry for region-relative
/// `(x, z)`: three big-endian bytes at position `4 * (z * 32 + x)` of the
/// header, counting file sectors of 4096 bytes.
pub open spec fn location_offset(bytes: Seq<u8>, x: u32, z: u32) -> int {
    let p = 4 * (z * 32 + x);
    bytes[p] * 0x10000 + bytes[p + 1] * 0x100 + bytes[p + 2]
}

/// The stored sector-count field of the location entry for `(x, z)`.
pub open spec fn location_sectors(bytes: Seq<u8>, x: u32, z: u32) -> int {
    bytes[4 * (z * 32 + x) + 3] as int
}

/// Whether the location entry is all zero: the region's report that the
/// chunk has not been generated.
pub open spec fn location_empty(bytes: Seq<u8>, x: u32, z: u32) -> bool {
    location_offset(bytes, x, z) == 0 && location_sectors(bytes, x, z) == 0
}

/// Where the chunk's payload begins in the file: the stored offset counts
/// sectors from the file start, the first two of which are the header.
pub open spec fn payload_start(bytes: Seq<u8>, x: u32, z: u32) -> int {
    8192 + (location_offset(bytes, x, z) - 2) * 4096
}

/// The payload's stored length: four big-endian bytes at the payload start.
pub open spec fn payload_len(bytes: Seq<u8>, x: u32, z: u32) -> int {
    let s = payload_start(bytes, x, z);
    bytes[s] * 0x1000000 + bytes[s + 1] * 0x10000 + bytes[s + 2] * 0x100 + bytes[s + 3]
}

/// Whether a payload's leading compression byte is one of the values the
/// parser's compression enum defines; any other value must never reach the
/// parser, which reinterprets the byte as that enum.
pub open spec fn compression_byte_known(b: u8) -> bool {
    b == 1 || b == 2 || b == 3 || b == 4 || b == 127
}

/// Whether the location entry for `(x, z)` admits a total, well-defined
/// chunk lookup: either the all-zero not-generated report, or an offset of
/// at least 2 (the parser subtracts the two header sectors from it) naming
/// a payload whose stored length is nonzero (the parser subtracts one for
/// the compression byte), lies within the buffer, and starts with a known
/// compression byte.  Outside this set the parser's lookup underflows its
/// offset or length arithmetic, or reads an undefined compression value.
pub open spec fn chunk_location_wf(bytes: Seq<u8>, x: u32, z: u32) -> bool {
    ||| location_empty(bytes, x, z)
    ||| ({
        let s = payload_start(bytes, x, z);
        let l = payload_len(bytes, x, z);
        &&& location_offset(bytes, x, z) >= 2
        &&& s + 4 <= bytes.len()
        &&& 1 <= l
        &&& s + 4 + l <= bytes.len()
        &&& compression_byte_known(bytes[s + 4])
    })
}

/// Decide whether the location entry for `(x, z)` admits a total,
/// well-defined chunk lookup, by reading the header entry and, when it
/// names a payload, that payload's length field and compression byte.
pub fn location_well_formed(data: &Vec<u8>, x: u32, z: u32) -> (b: bool)
    requires
        data@.len() >= 8192,
        x < 32,
        z < 32,
    ensures
        b == chunk_location_wf(data@, x, z),
{
    let p: usize = 4 * (z as usize * 32 + x as usize);
    let off: u32 = (data[p] as u32) * 0x10000 + (data[p + 1] as u32) * 0x100 + (data[p + 2]
        as u32);
    let sectors: u8 = data[p + 3];
    if off == 0 && sectors == 0 {
        return true;
    }
    if off < 2 {
        return false;
    }
    let s: u64 = 8192 + (off as u64 - 2) * 4096;
    let n: u64 = data.len() as u64;
    if s + 4 > n {
        return false;
    }
    proof {
        assert(s <= usize::MAX as u64);
    }
    let si: usize = s as usize;
    let l: u64 = (data[si] as u64) * 0x1000000 + (data[si + 1] as u64) * 0x10000 + (data[si + 2]
        as u64) * 0x100 + (data[si + 3] as u64);
    if l < 1 {
        return false;
    }
    if s + 4 + l > n {
        return false;
    }
    let cb: u8 = data[si + 4];
    cb == 1 || cb == 2 || cb == 3 || cb == 4 || cb == 127
}

/// Decide whether the location entry for `(x, z)` is the all-zero
/// not-generated report.
pub fn location_is_empty(data: &Vec<u8>, x: u32, z: u32) -> (b: bool)
    requires
        data@.len() >= 8192,
        x < 32,
        z < 32,
    ensures
        b == location_empty(data@, x, z),
{
    let p: usize = 4 * (z as usize * 32 + x as usize);
    data[p] == 0 && data[p + 1] == 0 && data[p + 2] == 0 && data[p + 3] == 0
}

/// The byte that names the payload's compression.
pub open spec fn payload_compression(bytes: Seq<u8>, x: u32, z: u32) -> u8 {
    bytes[payload_start(bytes, x, z) + 4]
}

/// The payload's compressed body: the bytes after its length field and
/// compression byte.
pub open spec fn payload_body(bytes: Seq<u8>, x: u32, z: u32) -> Seq<u8> {
    bytes.subrange(
        payload_start(bytes, x, z) + 5,
        payload_start(bytes, x, z) + 4 + payload_len(bytes, x, z),
    )
}

/// Read the payload's compression byte and copy its compressed body out of
/// the region bytes.
fn extract_payload(data: &Vec<u8>, x: u32, z: u32) -> (r: (u8, Vec<u8>))
    requires
        data@.len() >= 8192,
        x < 32,
        z < 32,
        chunk_location_wf(data@, x, z),
        !location_empty(data@, x, z),
    ensures
        r.0 == payload_compression(data@, x, z),
        r.1@ == payload_body(data@, x, z),
{
    let p: usize = 4 * (z as usize * 32 + x as usize);
    let off: u32 = (data[p] as u32) * 0x10000 + (data[p + 1] as u32) * 0x100 + (data[p + 2]
        as u32);
    proof {
        assert(off == location_offset(data@, x, z));
        assert(location_offset(data@, x, z) >= 2);
        assert(payload_start(data@, x, z) + 4 <= data@.len());
        assert(1 <= payload_len(data@, x, z));
        assert(payload_start(data@, x, z) + 4 + payload_len(data@, x, z) <= data@.len());
    }
    let s: u64 = 8192 + (off as u64 - 2) * 4096;
    let n: u64 = data.len() as u64;
    proof {
        assert(s == payload_start(data@, x, z));
        assert(s + 4 <= n);
        assert(s <= usize::MAX as u64);
    }
    let si: usize = s as usize;
    let l: u64 = (data[si] as u64) * 0x1000000 + (data[si + 1] as u64) * 0x10000 + (data[si + 2]
        as u64) * 0x100 + (data[si + 3] as u64);
    let cb: u8 = data[si + 4];
    proof {
        assert(l == payload_len(data@, x, z));
        assert(s + 4 + l <= n);
    }
    let e: usize = (s + 4 + l) as usize;
    let mut body: Vec<u8> = Vec::new();
    let mut i: usize = si + 5;
    while i < e
        invariant
            si + 5 <= i <= e,
            si == payload_start(data@, x, z),
            e == payload_start(data@, x, z) + 4 + payload_len(data@, x, z),
            e <= data@.len(),
            body@ == data@.subrange(si + 5, i as int),
        decreases e - i,
    {
        body.push(data[i]);
        proof {
            assert(body@ =~= data@.subrange(si + 5, i + 1));
        }
        i += 1;
    }
    proof {
        assert(body@ =~= payload_body(data@, x, z));
    }
    (cb, body)
}

/// What the zlib decompressor yields for a compressed byte stream: the
/// decompressed bytes, or nothing when the stream is not a valid zlib
/// stream; a function of the input alone.
pub uninterp spec fn inflated_of(compressed: Seq<u8>) -> Option<Seq<u8>>;

/// Relies on miniz_oxide's `decompress_to_vec_zlib`, the same routine the
/// parser's `Chunk::parse` calls on a zlib payload: it returns the
/// decompressed bytes or an error value and never panics, and its result
/// depends on the input bytes alone, so it carries the name `inflated_of`.
#[verifier::external_body]
fn decompress_zlib(data: &Vec<u8>) -> (r: Option<Vec<u8>>)
    ensures
        r is Some <==> inflated_of(data@) is Some,
        r matches Some(v) ==> inflated_of(data@) == Some(v@),
{
    miniz_oxide::inflate::decompress_to_vec_zlib(data).ok()
}

/// Whether the payload can be handed to the parser safely: a payload in
/// any compression the parser does not decompress never reaches its NBT
/// reader, and a zlib payload must either fail to decompress or decompress
/// to a document the reader's walk traverses without reaching its
/// impossible cases.
pub open spec fn parse_safe(bytes: Seq<u8>, x: u32, z: u32) -> bool {
    payload_compression(bytes, x, z) == 2 ==> match inflated_of(payload_body(bytes, x, z)) {
        Some(doc) => crate::nbt_check::nbt_doc_ok(doc),
        None => true,
    }
}

/// What the region bytes hold for one region-relative chunk coordinate,
/// in the library's structured form: the parser's yield is a function of
/// the bytes and the coordinates alone.
pub uninterp spec fn chunk_in_bytes(bytes: Seq<u8>, x: u32, z: u32) -> Option<StructuredChunk>;

/// Relies on `Region::from_slice`, `Region::get_chunk` and `Chunk::parse`
/// of the outside parser, in one step from the raw bytes: the requested
/// chunk, decompressed, parsed, and converted to plain values (grid
/// position from the chunk's own `x_pos`/`z_pos`; per section what
/// `section_from_nbt` reads, hence the range ensured below).
/// Deterministic in its arguments, so the result carries the name
/// `chunk_in_bytes`.  `None` covers a payload that fails to decompress or
/// parse, and any compression variant other than zlib, the only one the
/// parser implements in the version relied on (its other arms are
/// unimplemented and would abort).  The `requires` confine the call to
/// inputs the lookup and the NBT reader handle without aborting
/// (exhausting the stack on a deeply nested document aside): coordinates
/// inside the 32 x 32 region grid (the lookup asserts on them), the 8 KiB
/// header present, a present, well-formed location entry whose arithmetic
/// cannot underflow (see `chunk_location_wf`), and a payload whose
/// decompressed document the reader's walk traverses without reaching its
/// impossible cases (see `parse_safe`).
#[verifier::external_body]
fn fetch_structured(data: &Vec<u8>, x: u32, z: u32) -> (r: Option<StructuredChunk>)
    requires
        x < 32,
        z < 32,
        data@.len() >= 8192,
        chunk_location_wf(data@, x, z),
        !location_empty(data@, x, z),
        parse_safe(data@, x, z),
    ensures
        r == chunk_in_bytes(data@, x, z),
        r matches Some(sc) ==> sections_in_range(sc.sections@),
{
    let chunk = match mca_parser::Region::from_slice(data).ok()?.get_chunk(x, z) {
        Ok(Some(c)) if c.compression_type == mca_parser::CompressionType::Zlib => c,
        _ => return None,
    };
    let p = chunk.parse().ok()?;
    Some(StructuredChunk {
        x: p.x_pos,
        z: p.z_pos,
        sections: p.sections.iter().map(section_from_nbt).collect(),
    })
}

/// Relies on the parsed section's fields: `y` (an 8-bit slab index in the
/// NBT, so within -128..=127, which keeps every converted index in the
/// translatable range `fetch_structured` ensures), the palette entry names
/// without their namespaces, and the raw per-voxel data words exactly as
/// the parser handed them over.  A section without block states is handed
/// on with an empty palette; since an empty palette is invalid input to
/// the decoder, a chunk holding such a section (real region files hold
/// light-only sections without block states) fails its build and loads as
/// an empty chunk.
#[verifier::external_body]
fn section_from_nbt(s: &mca_parser::nbt::ChunkSection) -> (sec: Section)
    ensures
        -128 <= sec.y_index <= 127,
{
    let (palette, data) = match &s.block_states {
        Some(b) => (
            b.palette.iter().map(|e| e.name.key.clone()).collect(),
            b.data.as_ref().map(|d| d.iter().copied().collect()),
        ),
        None => (Vec::new(), None),
    };
    Section { y_index: s.y as i32, palette, data }
}

/// How one requested chunk coordinate resolves: an absent or failed fetch
/// yields an empty chunk at the requested coordinates; a structured chunk
/// that builds, and whose own grid coordinates are translatable, yields the
/// built chunk; one whose build fails, or whose coordinates are out of
/// translatable range, also yields an empty chunk at the requested
/// coordinates.
pub open spec fn resolves_to(x: i32, z: i32, fetched: Option<StructuredChunk>, c: crate::world::Chunk) -> bool {
    match fetched {
        None => c.x == x && c.z == z && c.blocks@.len() == 0,
        Some(sc) => if chunk_coord_in_range(sc.x as int) && chunk_coord_in_range(sc.z as int)
            && chunk_build_spec(sc.sections@) is Ok {
            c.x == sc.x && c.z == sc.z && c.blocks@ == chunk_build_spec(sc.sections@)->Ok_0
        } else {
            c.x == x && c.z == z && c.blocks@.len() == 0
        },
    }
}

/// Resolve what storage yielded for one requested chunk coordinate into a
/// chunk.  A coordinate the storage reports as not generated, or whose data
/// cannot be decoded, yields a chunk with no blocks rather than an error:
/// ungenerated terrain is a valid, common state and one damaged chunk must
/// not fail the rest of the load.
pub fn resolve_chunk(x: i32, z: i32, fetched: Option<StructuredChunk>) -> (c: crate::world::Chunk)
    requires
        chunk_coord_in_range(x as int),
        chunk_coord_in_range(z as int),
        fetched matches Some(sc) ==> sections_in_range(sc.sections@),
    ensures
        resolves_to(x, z, fetched, c),
        chunk_wf(c),
{
    match fetched {
        None => crate::world::Chunk { blocks: Vec::new(), x, z },
        Some(sc) => {
            if sc.x < -CHUNK_COORD_LIMIT || sc.x > CHUNK_COORD_LIMIT || sc.z < -CHUNK_COORD_LIMIT
                || sc.z > CHUNK_COORD_LIMIT {
                crate::world::Chunk { blocks: Vec::new(), x, z }
            } else {
                match crate::world::Chunk::build(&sc) {
                    Ok(c) => c,
                    Err(_) => crate::world::Chunk { blocks: Vec::new(), x, z },
                }
            }
        },
    }
}

/// How the chunk recorded for one requested coordinate relates to the
/// region bytes.  An all-zero location entry -- the storage's report that
/// the chunk is not generated -- loads as an empty chunk; so do a
/// malformed location and a payload the reader's walk could not traverse,
/// neither of which is ever handed to the parser; any other well-formed
/// location loads as the resolution of `chunk_in_bytes`, the parser's
/// yield for exactly these bytes and coordinates.
pub open spec fn stored_chunk_resolved(bytes: Seq<u8>, x: u32, z: u32, c: crate::world::Chunk) -> bool {
    if location_empty(bytes, x, z) {
        c.x == x as i32 && c.z == z as i32 && c.blocks@.len() == 0
    } else if chunk_location_wf(bytes, x, z) && parse_safe(bytes, x, z) {
        resolves_to(x as i32, z as i32, chunk_in_bytes(bytes, x, z), c)
    } else {
        c.x == x as i32 && c.z == z as i32 && c.blocks@.len() == 0
    }
}

/// Why a world cannot be loaded at all.
#[derive(Debug, Clone, Copy, PartialEq, Eq, Structural)]
pub enum WorldError {
    /// The region bytes cannot be read as a region at all: the 8 KiB header
    /// is missing.
    StorageUnavailable,
}

/// Load a world from the raw bytes of one region file: for each requested
/// region-relative chunk coordinate in turn, ask storage for that chunk's
/// structured form and resolve it.  Every requested coordinate yields
/// exactly one chunk, in request order, as `stored_chunk_resolved` says:
/// a not-generated or malformed or undecodable chunk loads empty while the
/// rest of the load goes on.  Fails only when the 8 KiB region header is
/// missing.
pub fn from_storage(data: &Vec<u8>, coords: &Vec<(u32, u32)>) -> (r: Result<World, WorldError>)
    requires
        forall|i: int| 0 <= i < coords@.len() ==> (#[trigger] coords@[i]).0 < 32
            && coords@[i].1 < 32,
    ensures
        match r {
            Ok(w) => {
                &&& data@.len() >= 8192
                &&& w.loaded_chunks@.len() == coords@.len()
                &&& world_wf(w)
                &&& forall|i: int|
                    0 <= i < coords@.len() ==> stored_chunk_resolved(
                        data@,
                        coords@[i].0,
                        coords@[i].1,
                        #[trigger] w.loaded_chunks@[i],
                    )
            },
            Err(e) => e == WorldError::StorageUnavailable && data@.len() < 8192,
        },
{
    if data.len() < 8192 {
        return Err(WorldError::StorageUnavailable);
    }
    let mut chunks: Vec<crate::world::Chunk> = Vec::new();
    let n = coords.len();
    for i in 0..n
        invariant
            data@.len() >= 8192,
            n == coords@.len(),
            forall|k: int| 0 <= k < coords@.len() ==> (#[trigger] coords@[k]).0 < 32
                && coords@[k].1 < 32,
            chunks@.len() == i,
            forall|j: int| 0 <= j < i ==> chunk_wf(#[trigger] chunks@[j]),
            forall|j: int|
                0 <= j < i ==> stored_chunk_resolved(
                    data@,
                    coords@[j].0,
                    coords@[j].1,
                    #[trigger] chunks@[j],
                ),
    {
        let xz = coords[i];
        let c: crate::world::Chunk = if !location_well_formed(data, xz.0, xz.1) {
            crate::world::Chunk { blocks: Vec::new(), x: xz.0 as i32, z: xz.1 as i32 }
        } else if location_is_empty(data, xz.0, xz.1) {
            crate::world::Chunk { blocks: Vec::new(), x: xz.0 as i32, z: xz.1 as i32 }
        } else {
            let pl = extract_payload(data, xz.0, xz.1);
            let safe: bool = if pl.0 != 2 {
                true
            } else {
                match decompress_zlib(&pl.1) {
                    None => true,
                    Some(doc) => crate::nbt_check::check_nbt(&doc),
                }
            };
            proof {
                assert(safe == parse_safe(data@, xz.0, xz.1));
            }
            if safe {
                let fetched = fetch_structured(data, xz.0, xz.1);
                let resolved = resolve_chunk(xz.0 as i32, xz.1 as i32, fetched);
                proof {
                    assert(stored_chunk_resolved(data@, xz.0, xz.1, resolved));
                }
                resolved
            } else {
                crate::world::Chunk { blocks: Vec::new(), x: xz.0 as i32, z: xz.1 as i32 }
            }
        };
        chunks.push(c);
    }
    Ok(World { loaded_chunks: chunks })
}

impl World {
    /// Parse a world from the raw bytes of one region file, loading the
    /// first chunk of the region.  Fails only when the region header is
    /// missing; a not-generated, malformed or undecodable first chunk still
    /// yields a world, with that chunk empty.
    pub fn parse_world(data: &Vec<u8>) -> (r: Result<World, WorldError>)
        ensures
            match r {
                Ok(w) => data@.len() >= 8192 && w.loaded_chunks@.len() == 1 && world_wf(w)
                    && stored_chunk_resolved(data@, 0, 0, w.loaded_chunks@[0]),
                Err(e) => e == WorldError::StorageUnavailable && data@.len() < 8192,
            },
    {
        let mut coords: Vec<(u32, u32)> = Vec::new();
        coords.push((0, 0));
        from_storage(data, &coords)
    }
}

} // verus!
