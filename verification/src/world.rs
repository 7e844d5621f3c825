//! Blocks, chunks and the world store: assembling decoded sections into
//! chunks, aggregating loaded chunks, and flattening every block into
//! renderer draw instances.

use vstd::prelude::*;
use crate::instance::Instance;
use crate::registry::MOSS;
use crate::section::{decode, section_decode_spec, y_index_in_range, Section, SectionError};

verus! {

/// A decoded voxel: a visual block id (never air) and coordinates local to
/// the owning chunk's horizontal origin; `y` is already world-absolute.
#[derive(Debug, Clone, Copy, PartialEq, Eq, Structural)]
pub struct Block {
    /// Visual block id; never the air id.
    pub id: u32,
    /// Chunk-local east coordinate, in `0..16`.
    pub x: i32,
    /// World-absolute height.
    pub y: i32,
    /// Chunk-local south coordinate, in `0..16`.
    pub z: i32,
}

/// Largest magnitude of a chunk-grid coordinate for which every derived
/// world coordinate still fits a signed 32-bit integer.
pub const CHUNK_COORD_LIMIT: i32 = 0x0400_0000;

/// A chunk-grid coordinate small enough that world-space translation cannot
/// overflow the machine's signed 32-bit coordinates.
pub open spec fn chunk_coord_in_range(c: int) -> bool {
    -0x0400_0000 <= c <= 0x0400_0000
}

/// A well-formed block: a non-air id and local horizontal coordinates inside
/// the 16 x 16 chunk footprint.
pub open spec fn block_wf(b: Block) -> bool {
    &&& b.id != 0
    &&& 0 <= b.x < 16
    &&& 0 <= b.z < 16
}

/// One 16-wide by 16-deep column of the world: chunk-grid coordinates (one
/// grid unit is 16 world units) and the blocks decoded for it.
#[derive(Debug)]
pub struct Chunk {
    /// The decoded blocks, in section order then voxel order.
    pub blocks: Vec<Block>,
    /// Chunk-grid east coordinate.
    pub x: i32,
    /// Chunk-grid south coordinate.
    pub z: i32,
}

/// A well-formed chunk: grid coordinates in translatable range and every
/// block well formed.  In particular air never materializes as a block.
pub open spec fn chunk_wf(c: Chunk) -> bool {
    &&& chunk_coord_in_range(c.x as int)
    &&& chunk_coord_in_range(c.z as int)
    &&& forall|i: int| 0 <= i < c.blocks@.len() ==> block_wf(#[trigger] c.blocks@[i])
}

/// The draw instance for block `b` of the chunk at grid `(cx, cz)`: the
/// position translated to world space, and the block's id.
pub open spec fn instance_for(cx: int, cz: int, b: Block) -> Instance {
    Instance { pos: [(cx * 16 + b.x) as i32, b.y, (cz * 16 + b.z) as i32], block: b.id }
}

/// The instances of one chunk, in block insertion order.
pub open spec fn chunk_instances(c: Chunk) -> Seq<Instance> {
    Seq::new(c.blocks@.len(), |i: int| instance_for(c.x as int, c.z as int, c.blocks@[i]))
}

/// The floor block at footprint index `i` of the synthetic test chunk.
pub open spec fn test_floor_block(i: int) -> Block {
    Block { id: MOSS, x: (i / 16) as i32, y: 0, z: (i % 16) as i32 }
}

/// The blocks of the synthetic test chunk: a full 16 x 16 floor at height 0,
/// then one isolated block at local `(1, 1, 1)`.
pub open spec fn test_chunk_blocks() -> Seq<Block> {
    Seq::new(256, |i: int| test_floor_block(i)).push(Block { id: MOSS, x: 1, y: 1, z: 1 })
}

impl Chunk {
    /// Create the synthetic test chunk at the grid origin: 256 floor blocks,
    /// one per `(x, z)` in `0..16 x 0..16` at height 0, plus one isolated
    /// block at local `(1, 1, 1)`.
    pub fn test() -> (c: Chunk)
        ensures
            c.x == 0,
            c.z == 0,
            c.blocks@ == test_chunk_blocks(),
            chunk_wf(c),
    {
        let mut blocks: Vec<Block> = Vec::new();
        for x in 0..16usize
            invariant
                blocks@.len() == x * 16,
                forall|j: int| 0 <= j < blocks@.len() ==> blocks@[j] == test_floor_block(j),
        {
            for z in 0..16usize
                invariant
                    blocks@.len() == x * 16 + z,
                    x < 16,
                    forall|j: int| 0 <= j < blocks@.len() ==> blocks@[j] == test_floor_block(j),
            {
                blocks.push(Block { id: MOSS, x: x as i32, y: 0, z: z as i32 });
                proof {
                    let j = blocks@.len() - 1;
                    assert(j == x * 16 + z);
                    assert((x * 16 + z) / 16 == x && (x * 16 + z) % 16 == z) by (nonlinear_arith)
                        requires x < 16 && z < 16,
                    ;
                    assert(blocks@[j] == test_floor_block(j));
                }
            }
        }
        blocks.push(Block { id: MOSS, x: 1, y: 1, z: 1 });
        let c = Chunk { blocks, x: 0, z: 0 };
        proof {
            assert(c.blocks@ =~= test_chunk_blocks());
        }
        c
    }

    /// Flatten this chunk's blocks into draw instances, in block insertion
    /// order, translating local coordinates by 16 world units per grid unit.
    pub fn gen_instances(&self) -> (r: Vec<Instance>)
        requires
            chunk_wf(*self),
        ensures
            r@ == chunk_instances(*self),
    {
        let mut r: Vec<Instance> = Vec::new();
        let n = self.blocks.len();
        for i in 0..n
            invariant
                n == self.blocks@.len(),
                chunk_wf(*self),
                r@.len() == i,
                forall|j: int| 0 <= j < i ==> r@[j] == instance_for(
                    self.x as int,
                    self.z as int,
                    self.blocks@[j],
                ),
        {
            proof {
                assert(block_wf(self.blocks@[i as int]));
            }
            let b = &self.blocks[i];
            let wx: i32 = self.x * 16 + b.x;
            let wz: i32 = self.z * 16 + b.z;
            r.push(Instance { pos: [wx, b.y, wz], block: b.id });
        }
        proof {
            assert(r@ =~= chunk_instances(*self));
        }
        r
    }
}

/// The set of currently loaded chunks, in insertion order: a load-once
/// snapshot created at startup from a storage backend or from synthetic test
/// data.
#[derive(Debug)]
pub struct World {
    /// One entry per resident chunk, insertion order preserved.
    pub loaded_chunks: Vec<Chunk>,
}

/// A well-formed world: every loaded chunk is well formed.
pub open spec fn world_wf(w: World) -> bool {
    forall|i: int| 0 <= i < w.loaded_chunks@.len() ==> chunk_wf(#[trigger] w.loaded_chunks@[i])
}

/// The instances of the first `n` chunks, chunk order then block order.
pub open spec fn world_instances_upto(chunks: Seq<Chunk>, n: int) -> Seq<Instance>
    decreases n,
{
    if n <= 0 {
        Seq::empty()
    } else {
        world_instances_upto(chunks, n - 1) + chunk_instances(chunks[n - 1])
    }
}

/// The instances of a whole chunk list: every block of every chunk, chunk
/// order first, block insertion order within a chunk.
pub open spec fn world_instances(chunks: Seq<Chunk>) -> Seq<Instance> {
    world_instances_upto(chunks, chunks.len() as int)
}

impl World {
    /// Create a world holding only the synthetic test chunk.
    pub fn test() -> (w: World)
        ensures
            w.loaded_chunks@.len() == 1,
            w.loaded_chunks@[0].x == 0,
            w.loaded_chunks@[0].z == 0,
            w.loaded_chunks@[0].blocks@ == test_chunk_blocks(),
            world_wf(w),
    {
        let chunk = Chunk::test();
        let mut loaded_chunks: Vec<Chunk> = Vec::new();
        loaded_chunks.push(chunk);
        World { loaded_chunks }
    }

    /// Flatten every loaded chunk into one instance list.  This is a pure
    /// function of the world's contents: the same world always yields the
    /// same instances in the same order.
    pub fn gen_instances(&self) -> (r: Vec<Instance>)
        requires
            world_wf(*self),
        ensures
            r@ == world_instances(self.loaded_chunks@),
    {
        let mut r: Vec<Instance> = Vec::new();
        let n = self.loaded_chunks.len();
        for i in 0..n
            invariant
                n == self.loaded_chunks@.len(),
                world_wf(*self),
                r@ == world_instances_upto(self.loaded_chunks@, i as int),
        {
            proof {
                assert(chunk_wf(self.loaded_chunks@[i as int]));
            }
            let mut ci = self.loaded_chunks[i].gen_instances();
            r.append(&mut ci);
        }
        r
    }
}

/// A chunk in the structured, already-parsed form the storage collaborator
/// yields: chunk-grid position and the ordered sections of the column.
#[derive(Debug)]
pub struct StructuredChunk {
    /// Chunk-grid east coordinate.
    pub x: i32,
    /// Chunk-grid south coordinate.
    pub z: i32,
    /// The column's sections, bottom order as stored.
    pub sections: Vec<Section>,
}

/// Every slab index of a section list is in translatable range.
pub open spec fn sections_in_range(sections: Seq<Section>) -> bool {
    forall|i: int|
        0 <= i < sections.len() ==> y_index_in_range((#[trigger] sections[i]).y_index as int)
}

/// The blocks of the first `n` sections of a column, concatenated in section
/// order; the first section that fails to decode fails the whole column.
pub open spec fn built_blocks(sections: Seq<Section>, n: int) -> Result<Seq<Block>, SectionError>
    decreases n,
{
    if n <= 0 {
        Ok(Seq::empty())
    } else {
        match built_blocks(sections, n - 1) {
            Err(e) => Err(e),
            Ok(prefix) => match section_decode_spec(sections[n - 1]) {
                Err(e) => Err(e),
                Ok(bs) => Ok(prefix + bs),
            },
        }
    }
}

/// What building a chunk from a section list yields.
pub open spec fn chunk_build_spec(sections: Seq<Section>) -> Result<Seq<Block>, SectionError> {
    built_blocks(sections, sections.len() as int)
}

/// Once a section prefix has failed to decode, building any longer prefix
/// fails with the same error.
proof fn lemma_built_blocks_err_persists(sections: Seq<Section>, m: int, n: int)
    requires
        0 <= m <= n,
        built_blocks(sections, m) is Err,
    ensures
        built_blocks(sections, n) == built_blocks(sections, m),
    decreases n - m,
{
    if m < n {
        lemma_built_blocks_err_persists(sections, m, n - 1);
    }
}

impl Chunk {
    /// Build a chunk from its structured, already-parsed form: decode every
    /// section, concatenating the emitted blocks in section order, and wrap
    /// them with the descriptor's grid coordinates.  A column with no
    /// sections yields a chunk with no blocks; a section that fails to
    /// decode fails the chunk with that section's error.
    pub fn build(desc: &StructuredChunk) -> (r: Result<Chunk, SectionError>)
        requires
            chunk_coord_in_range(desc.x as int),
            chunk_coord_in_range(desc.z as int),
            sections_in_range(desc.sections@),
        ensures
            match r {
                Ok(c) => chunk_build_spec(desc.sections@) matches Ok(bs) && c.blocks@ == bs
                    && c.x == desc.x && c.z == desc.z && chunk_wf(c),
                Err(e) => chunk_build_spec(desc.sections@) == Err::<Seq<Block>, SectionError>(e),
            },
    {
        let mut blocks: Vec<Block> = Vec::new();
        let n = desc.sections.len();
        for i in 0..n
            invariant
                n == desc.sections@.len(),
                sections_in_range(desc.sections@),
                built_blocks(desc.sections@, i as int) matches Ok(bs) && blocks@ == bs,
                forall|j: int| 0 <= j < blocks@.len() ==> block_wf(#[trigger] blocks@[j]),
        {
            proof {
                assert(y_index_in_range(desc.sections@[i as int].y_index as int));
            }
            match decode(&desc.sections[i]) {
                Ok(mut bs) => {
                    proof {
                        crate::section::lemma_decode_blocks_wf(
                            desc.sections@[i as int].y_index as int,
                            desc.sections@[i as int].palette_view(),
                            desc.sections@[i as int].data_view(),
                        );
                    }
                    blocks.append(&mut bs);
                },
                Err(e) => {
                    proof {
                        lemma_built_blocks_err_persists(desc.sections@, i + 1, n as int);
                    }
                    return Err(e);
                },
            }
        }
        Ok(Chunk { blocks, x: desc.x, z: desc.z })
    }
}

/// Flattening is deterministic: any two instance lists generated from the
/// same world contents are identical, contents and order alike.
pub proof fn lemma_flatten_deterministic(w: World, a: Seq<Instance>, b: Seq<Instance>)
    requires
        a == world_instances(w.loaded_chunks@),
        b == world_instances(w.loaded_chunks@),
    ensures
        a == b,
{
}

} // verus!
