use voxel_world::section::{Section, SectionError};
use voxel_world::world::{Block, Chunk, StructuredChunk, World};

#[test]
fn test_chunk_fixture() {
    let chunk = Chunk::test();
    assert_eq!(chunk.x, 0);
    assert_eq!(chunk.z, 0);
    assert_eq!(chunk.blocks.len(), 257);
    let floor: Vec<&Block> = chunk.blocks.iter().filter(|b| b.y == 0).collect();
    assert_eq!(floor.len(), 256);
    let mut seen = [[false; 16]; 16];
    for b in &floor {
        assert_eq!(b.id, 1);
        assert!(!seen[b.x as usize][b.z as usize]);
        seen[b.x as usize][b.z as usize] = true;
    }
    let isolated: Vec<&Block> = chunk.blocks.iter().filter(|b| b.y != 0).collect();
    assert_eq!(isolated.len(), 1);
    assert_eq!((isolated[0].x, isolated[0].y, isolated[0].z), (1, 1, 1));
}

#[test]
fn world_test_holds_one_chunk() {
    let world = World::test();
    assert_eq!(world.loaded_chunks.len(), 1);
    assert_eq!(world.loaded_chunks[0].blocks.len(), 257);
}

#[test]
fn world_space_translation() {
    let chunk = Chunk {
        blocks: vec![Block { id: 1, x: 3, y: 5, z: 7 }],
        x: 2,
        z: -1,
    };
    let instances = chunk.gen_instances();
    assert_eq!(instances.len(), 1);
    assert_eq!(instances[0].pos, [35, 5, -9]);
    assert_eq!(instances[0].block, 1);
}

#[test]
fn flatten_is_idempotent() {
    let world = World::test();
    let first = world.gen_instances();
    let second = world.gen_instances();
    assert_eq!(first, second);
}

#[test]
fn flatten_keeps_chunk_then_block_order() {
    let a = Chunk {
        blocks: vec![Block { id: 1, x: 0, y: 0, z: 0 }, Block { id: 1, x: 1, y: 0, z: 0 }],
        x: 0,
        z: 0,
    };
    let b = Chunk {
        blocks: vec![Block { id: 1, x: 2, y: 0, z: 0 }],
        x: 1,
        z: 0,
    };
    let world = World { loaded_chunks: vec![a, b] };
    let instances = world.gen_instances();
    let positions: Vec<[i32; 3]> = instances.iter().map(|i| i.pos).collect();
    assert_eq!(positions, vec![[0, 0, 0], [1, 0, 0], [18, 0, 0]]);
}

#[test]
fn build_concatenates_sections_in_order() {
    let desc = StructuredChunk {
        x: 4,
        z: -2,
        sections: vec![
            Section { y_index: 0, palette: vec![String::from("air")], data: None },
            Section { y_index: 1, palette: vec![String::from("moss")], data: None },
        ],
    };
    let chunk = Chunk::build(&desc).unwrap();
    assert_eq!(chunk.x, 4);
    assert_eq!(chunk.z, -2);
    assert_eq!(chunk.blocks.len(), 4096);
    assert!(chunk.blocks.iter().all(|b| 16 <= b.y && b.y < 32));
}

#[test]
fn build_with_no_sections_is_empty() {
    let desc = StructuredChunk { x: 0, z: 0, sections: vec![] };
    let chunk = Chunk::build(&desc).unwrap();
    assert_eq!(chunk.blocks.len(), 0);
}

#[test]
fn build_fails_with_first_section_error() {
    let desc = StructuredChunk {
        x: 0,
        z: 0,
        sections: vec![
            Section { y_index: 0, palette: vec![String::from("moss")], data: None },
            Section { y_index: 1, palette: vec![], data: None },
            Section { y_index: 2, palette: vec![String::from("air")], data: Some(vec![0; 10]) },
        ],
    };
    assert_eq!(Chunk::build(&desc).unwrap_err(), SectionError::EmptyPalette);
}

#[test]
fn test_world_flattens_to_exact_instances() {
    let world = World::test();
    let instances = world.gen_instances();
    assert_eq!(instances.len(), 257);
    // The chunk sits at the grid origin, so world coordinates equal the
    // local ones: floor first, in x-major order, then the isolated block.
    assert_eq!(instances[0].pos, [0, 0, 0]);
    assert_eq!(instances[1].pos, [0, 0, 1]);
    assert_eq!(instances[16].pos, [1, 0, 0]);
    assert_eq!(instances[255].pos, [15, 0, 15]);
    assert_eq!(instances[256].pos, [1, 1, 1]);
    assert!(instances.iter().all(|i| i.block == 1));
}
