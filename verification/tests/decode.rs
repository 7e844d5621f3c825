use voxel_world::registry::{name_is_air, resolve_name};
use voxel_world::section::{decode, Section, SectionError};
use voxel_world::world::Block;

fn uniform(y_index: i32, name: &str) -> Section {
    Section { y_index, palette: vec![String::from(name)], data: None }
}

#[test]
fn uniform_air_section_decodes_empty() {
    let blocks = decode(&uniform(0, "air")).unwrap();
    assert_eq!(blocks.len(), 0);
}

#[test]
fn uniform_solid_section_fills_4096() {
    let blocks = decode(&uniform(2, "moss")).unwrap();
    assert_eq!(blocks.len(), 4096);
    let mut seen = [[[false; 16]; 16]; 16];
    for b in &blocks {
        assert_eq!(b.id, 1);
        assert!(0 <= b.x && b.x < 16);
        assert!(0 <= b.z && b.z < 16);
        assert!(32 <= b.y && b.y < 48);
        let (x, y, z) = (b.x as usize, (b.y - 32) as usize, b.z as usize);
        assert!(!seen[x][y][z], "coordinate emitted twice");
        seen[x][y][z] = true;
    }
}

#[test]
fn coord_round_trip() {
    // One voxel at a time: decoding index i must place the block at
    // (i % 16, y_offset + i / 256, i / 16 % 16), so re-encoding
    // x + (z << 4) + ((y - y_offset) << 8) recovers i.
    for &i in &[0usize, 1, 15, 16, 255, 256, 257, 4095] {
        let mut data = vec![0i64; 4096];
        data[i] = 1;
        let section = Section {
            y_index: 3,
            palette: vec![String::from("air"), String::from("moss")],
            data: Some(data),
        };
        let blocks = decode(&section).unwrap();
        assert_eq!(blocks.len(), 1);
        let b = &blocks[0];
        assert_eq!(b.x, (i & 0xf) as i32);
        assert_eq!(b.z, ((i >> 4) & 0xf) as i32);
        assert_eq!(b.y, 48 + (i >> 8) as i32);
        let encoded = b.x + (b.z << 4) + ((b.y - 48) << 8);
        assert_eq!(encoded, i as i32);
    }
}

#[test]
fn data_section_emits_only_nonzero() {
    let mut data = vec![0i64; 4096];
    data[0] = 1; // index 0 voxel but non-air palette slot: emitted
    data[17] = 1;
    data[300] = 2;
    let section = Section {
        y_index: 0,
        palette: vec![
            String::from("air"),
            String::from("stone"),
            String::from("dirt"),
        ],
        data: Some(data),
    };
    let blocks = decode(&section).unwrap();
    assert_eq!(blocks.len(), 3);
    assert_eq!((blocks[0].x, blocks[0].y, blocks[0].z), (0, 0, 0));
    assert_eq!((blocks[1].x, blocks[1].y, blocks[1].z), (1, 0, 1));
    assert_eq!((blocks[2].x, blocks[2].y, blocks[2].z), (12, 1, 2));
    // The registry collapses every non-air entry to the one solid id.
    assert!(blocks.iter().all(|b: &Block| b.id == 1));
}

#[test]
fn wrong_data_length_rejected() {
    let section = Section {
        y_index: 0,
        palette: vec![String::from("air")],
        data: Some(vec![0i64; 10]),
    };
    assert_eq!(decode(&section), Err(SectionError::WrongDataLength));
}

#[test]
fn out_of_range_index_rejected() {
    let mut data = vec![0i64; 4096];
    data[5] = 7;
    let section = Section {
        y_index: 0,
        palette: vec![String::from("air"), String::from("moss")],
        data: Some(data),
    };
    assert_eq!(decode(&section), Err(SectionError::IndexOutOfRange));
}

#[test]
fn negative_index_rejected() {
    let mut data = vec![0i64; 4096];
    data[9] = -1;
    let section = Section {
        y_index: 0,
        palette: vec![String::from("air"), String::from("moss")],
        data: Some(data),
    };
    assert_eq!(decode(&section), Err(SectionError::IndexOutOfRange));
}

#[test]
fn empty_palette_rejected() {
    let with_data = Section { y_index: 0, palette: vec![], data: Some(vec![0i64; 4096]) };
    assert_eq!(decode(&with_data), Err(SectionError::EmptyPalette));
    let without_data = Section { y_index: 0, palette: vec![], data: None };
    assert_eq!(decode(&without_data), Err(SectionError::EmptyPalette));
}

#[test]
fn empty_palette_reported_before_length() {
    let section = Section { y_index: 0, palette: vec![], data: Some(vec![0i64; 10]) };
    assert_eq!(decode(&section), Err(SectionError::EmptyPalette));
}

#[test]
fn registry_collapses_every_non_air_name() {
    assert!(name_is_air(&String::from("air")));
    assert!(!name_is_air(&String::from("cave_air")));
    assert_eq!(resolve_name(&String::from("air")), 0);
    assert_eq!(resolve_name(&String::from("moss_block")), 1);
    assert_eq!(resolve_name(&String::from("stone")), 1);
}
