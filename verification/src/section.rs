//! The section decoder: one 16x16x16 slab of a chunk, given as a palette of
//! block names and an optional per-voxel palette-index array, decoded into
//! chunk-local block records.

use vstd::prelude::*;
use crate::registry::{is_air_name, MOSS};
use crate::world::Block;

verus! {

/// One 16x16x16 vertical slab of a chunk, in the structured form the storage
/// collaborator yields: a vertical slab index, an ordered palette of block
/// names, and, only when the slab holds more than one distinct block type, a
/// per-voxel palette-index array that must have exactly 4096 entries.
#[derive(Debug)]
pub struct Section {
    /// Vertical slab index; the slab covers world heights
    /// `y_index * 16 .. y_index * 16 + 16`.
    pub y_index: i32,
    /// Ordered block-name palette; entry 0 is the representative entry for a
    /// uniform slab.
    pub palette: Vec<String>,
    /// Per-voxel palette indices, voxel `i` at local
    /// `(x, z, y) = (i % 16, i / 16 % 16, i / 256)`; absent for a uniform slab.
    pub data: Option<Vec<i64>>,
}

/// Why a section failed to decode.
#[derive(Debug, Clone, Copy, PartialEq, Eq, Structural)]
pub enum SectionError {
    /// The palette holds no entry at all.
    EmptyPalette,
    /// A per-voxel index array is present but its length is not 4096.
    WrongDataLength,
    /// A per-voxel index does not name a palette entry.
    IndexOutOfRange,
}

impl Section {
    /// The palette as a sequence of name views.
    pub open spec fn palette_view(self) -> Seq<Seq<char>> {
        self.palette@.map_values(|s: String| s@)
    }

    /// The per-voxel index array as a sequence, when present.
    pub open spec fn data_view(self) -> Option<Seq<i64>> {
        match self.data {
            Some(d) => Some(d@),
            None => None,
        }
    }
}

/// Bound on a slab index under which every derived world height fits the
/// machine's signed 32-bit coordinates.
pub open spec fn y_index_in_range(yi: int) -> bool {
    -0x0400_0000 <= yi <= 0x0400_0000
}

/// The block emitted for voxel `i` of a slab with index `yi`: local
/// coordinates decoded from `i`, world-absolute height, and the one collapsed
/// solid id.
pub open spec fn decoded_block(yi: int, i: int) -> Block {
    Block {
        id: MOSS,
        x: (i % 16) as i32,
        y: (yi * 16 + i / 256) as i32,
        z: (i / 16 % 16) as i32,
    }
}

/// Whether a per-voxel entry names a palette slot of a palette of length
/// `palette_len`.
pub open spec fn index_in_palette(v: i64, palette_len: int) -> bool {
    0 <= v < palette_len
}

/// The blocks emitted for the first `n` voxels of a multi-block slab: one
/// block per voxel whose palette index is not the canonical air slot 0, in
/// voxel order.
pub open spec fn decoded_data_blocks(yi: int, data: Seq<i64>, n: int) -> Seq<Block>
    decreases n,
{
    if n <= 0 {
        Seq::empty()
    } else {
        let prefix = decoded_data_blocks(yi, data, n - 1);
        if data[n - 1] != 0 {
            prefix.push(decoded_block(yi, n - 1))
        } else {
            prefix
        }
    }
}

/// The blocks of a uniform solid slab: all 4096 voxels, in voxel order.
pub open spec fn uniform_blocks(yi: int) -> Seq<Block> {
    Seq::new(4096, |i: int| decoded_block(yi, i))
}

/// What decoding a section yields, as a function of the slab index, the
/// palette names, and the optional per-voxel index array.
pub open spec fn decode_spec(yi: int, palette: Seq<Seq<char>>, data: Option<Seq<i64>>) -> Result<
    Seq<Block>,
    SectionError,
> {
    if palette.len() == 0 {
        Err(SectionError::EmptyPalette)
    } else {
        match data {
            None => if is_air_name(palette[0]) {
                Ok(Seq::empty())
            } else {
                Ok(uniform_blocks(yi))
            },
            Some(d) => if d.len() != 4096 {
                Err(SectionError::WrongDataLength)
            } else if exists|i: int| 0 <= i < 4096 && !index_in_palette(d[i], palette.len() as int) {
                Err(SectionError::IndexOutOfRange)
            } else {
                Ok(decoded_data_blocks(yi, d, 4096))
            },
        }
    }
}

/// What decoding a whole `Section` value yields.
pub open spec fn section_decode_spec(s: Section) -> Result<Seq<Block>, SectionError> {
    decode_spec(s.y_index as int, s.palette_view(), s.data_view())
}

/// Whether an executable decode result matches the specified one.
pub open spec fn decode_result_matches(
    r: Result<Vec<Block>, SectionError>,
    s: Result<Seq<Block>, SectionError>,
) -> bool {
    match (r, s) {
        (Ok(v), Ok(bs)) => v@ == bs,
        (Err(e), Err(f)) => e == f,
        _ => false,
    }
}

/// Decode one section into chunk-local blocks.
///
/// A uniform slab whose representative entry names air yields nothing; a
/// uniform solid slab yields all 4096 voxels; a multi-block slab yields one
/// block per voxel whose palette index is not the air slot.  An empty
/// palette, an index array whose length is not 4096, or an index outside the
/// palette is a decode error, never a panic or a silent truncation.
pub fn decode(section: &Section) -> (r: Result<Vec<Block>, SectionError>)
    requires
        y_index_in_range(section.y_index as int),
    ensures
        decode_result_matches(r, section_decode_spec(*section)),
{
    let yi: i32 = section.y_index;
    if section.palette.len() == 0 {
        return Err(SectionError::EmptyPalette);
    }
    match &section.data {
        None => {
            if name_is_air_at0(section) {
                Ok(Vec::new())
            } else {
                Ok(fill_uniform(yi))
            }
        },
        Some(d) => decode_data(yi, d, section),
    }
}

/// Decide whether the representative palette entry of a section names air.
fn name_is_air_at0(section: &Section) -> (b: bool)
    requires
        section.palette@.len() > 0,
    ensures
        b == is_air_name(section.palette_view()[0]),
{
    crate::registry::name_is_air(&section.palette[0])
}

/// Emit the 4096 blocks of a uniform solid slab.
fn fill_uniform(yi: i32) -> (v: Vec<Block>)
    requires
        y_index_in_range(yi as int),
    ensures
        v@ == uniform_blocks(yi as int),
{
    let mut v: Vec<Block> = Vec::new();
    for i in 0..4096usize
        invariant
            y_index_in_range(yi as int),
            v@.len() == i,
            forall|j: int| 0 <= j < i ==> v@[j] == decoded_block(yi as int, j),
    {
        v.push(Block {
            id: MOSS,
            x: (i % 16) as i32,
            y: yi * 16 + (i / 256) as i32,
            z: (i / 16 % 16) as i32,
        });
    }
    proof {
        assert(v@ =~= uniform_blocks(yi as int));
    }
    v
}

/// Emit the blocks of a multi-block slab, checking lengths and indices.
fn decode_data(yi: i32, d: &Vec<i64>, section: &Section) -> (r: Result<Vec<Block>, SectionError>)
    requires
        y_index_in_range(yi as int),
        yi == section.y_index,
        section.palette@.len() > 0,
        section.data_view() == Some(d@),
    ensures
        decode_result_matches(r, section_decode_spec(*section)),
{
    if d.len() != 4096 {
        return Err(SectionError::WrongDataLength);
    }
    let palette_len: usize = section.palette.len();
    let mut v: Vec<Block> = Vec::new();
    for i in 0..4096usize
        invariant
            y_index_in_range(yi as int),
            yi == section.y_index,
            section.data_view() == Some(d@),
            d@.len() == 4096,
            palette_len == section.palette@.len(),
            palette_len > 0,
            forall|j: int| 0 <= j < i ==> index_in_palette(d@[j], palette_len as int),
            v@ == decoded_data_blocks(yi as int, d@, i as int),
    {
        let entry: i64 = d[i];
        if entry < 0 || entry as u64 >= palette_len as u64 {
            proof {
                let dv = section.data_view()->Some_0;
                let plen = section.palette_view().len() as int;
                assert(dv == d@);
                assert(!index_in_palette(dv[i as int], plen));
                assert(exists|j: int| 0 <= j < 4096 && !index_in_palette(dv[j], plen));
            }
            return Err(SectionError::IndexOutOfRange);
        }
        if entry != 0 {
            v.push(Block {
                id: MOSS,
                x: (i % 16) as i32,
                y: yi * 16 + (i / 256) as i32,
                z: (i / 16 % 16) as i32,
            });
        }
    }
    Ok(v)
}

/// Every block emitted for a voxel index is well formed: its id is the
/// non-air solid id and its local coordinates lie inside the chunk
/// footprint.
proof fn lemma_decoded_block_wf(yi: int, i: int)
    requires
        0 <= i,
    ensures
        crate::world::block_wf(decoded_block(yi, i)),
{
}

/// Every block of a decoded multi-block prefix is well formed.
proof fn lemma_data_blocks_wf(yi: int, data: Seq<i64>, n: int)
    ensures
        forall|j: int|
            0 <= j < decoded_data_blocks(yi, data, n).len() ==> crate::world::block_wf(
                #[trigger] decoded_data_blocks(yi, data, n)[j],
            ),
    decreases n,
{
    if n > 0 {
        lemma_data_blocks_wf(yi, data, n - 1);
        lemma_decoded_block_wf(yi, n - 1);
        let prefix = decoded_data_blocks(yi, data, n - 1);
        let cur = decoded_data_blocks(yi, data, n);
        assert forall|j: int| 0 <= j < cur.len() implies crate::world::block_wf(cur[j]) by {
            if j < prefix.len() {
                assert(cur[j] == prefix[j]);
            } else {
                assert(cur[j] == decoded_block(yi, n - 1));
            }
        }
    }
}

/// Air never materializes: every block a successful decode yields is well
/// formed, so in particular none carries the air id.
pub proof fn lemma_decode_blocks_wf(yi: int, palette: Seq<Seq<char>>, data: Option<Seq<i64>>)
    ensures
        decode_spec(yi, palette, data) matches Ok(bs) ==> forall|j: int|
            0 <= j < bs.len() ==> crate::world::block_wf(#[trigger] bs[j]),
{
    if decode_spec(yi, palette, data) is Ok {
        let bs = decode_spec(yi, palette, data)->Ok_0;
        match data {
            None => {
                assert forall|j: int| 0 <= j < bs.len() implies crate::world::block_wf(
                    bs[j],
                ) by {
                    lemma_decoded_block_wf(yi, j);
                }
            },
            Some(d) => {
                lemma_data_blocks_wf(yi, d, 4096);
            },
        }
    }
}

/// Air invariant: a section with its per-voxel data absent whose
/// representative palette entry names air decodes to the empty block
/// sequence.
pub proof fn lemma_uniform_air_empty(yi: int, palette: Seq<Seq<char>>)
    requires
        palette.len() > 0,
        is_air_name(palette[0]),
    ensures
        decode_spec(yi, palette, None) == Ok::<Seq<Block>, SectionError>(Seq::empty()),
{
}

/// Uniform solid fill: a section with its per-voxel data absent whose
/// representative palette entry is non-air decodes to exactly 4096 blocks,
/// one per voxel index in voxel order, all sharing the one resolved solid
/// id.
pub proof fn lemma_uniform_solid_fill(yi: int, palette: Seq<Seq<char>>)
    requires
        palette.len() > 0,
        !is_air_name(palette[0]),
    ensures
        decode_spec(yi, palette, None) matches Ok(bs) && bs.len() == 4096 && (forall|i: int|
            0 <= i < 4096 ==> #[trigger] bs[i] == decoded_block(yi, i)) && (forall|i: int|
            0 <= i < 4096 ==> (#[trigger] bs[i]).id == MOSS),
{
}

/// Coordinate round trip: the local coordinates decoded from a voxel index
/// `i`, re-encoded as `x + z * 16 + (y - y_offset) * 256`, recover `i`.
pub proof fn lemma_coord_round_trip(yi: int, i: int)
    requires
        0 <= i < 4096,
        y_index_in_range(yi),
    ensures
        ({
            let b = decoded_block(yi, i);
            b.x + b.z * 16 + (b.y - yi * 16) * 256 == i
        }),
{
    vstd::arithmetic::div_mod::lemma_fundamental_div_mod(i, 16);
    vstd::arithmetic::div_mod::lemma_fundamental_div_mod(i / 16, 16);
    vstd::arithmetic::div_mod::lemma_div_denominator(i, 16, 16);
}

/// Distinct voxel indices decode to distinct local coordinates: together
/// with the round trip this means a uniform fill emits every local
/// coordinate of the slab exactly once.
pub proof fn lemma_coords_injective(yi: int, i: int, j: int)
    requires
        0 <= i < 4096,
        0 <= j < 4096,
        i != j,
        y_index_in_range(yi),
    ensures
        decoded_block(yi, i) != decoded_block(yi, j),
{
    lemma_coord_round_trip(yi, i);
    lemma_coord_round_trip(yi, j);
}

} // verus!
