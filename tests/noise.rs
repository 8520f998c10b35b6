use perlin_noise::{
    cell_at_coordinates, corner_gradient, generate_permutation_table,
    generate_permutation_table_with, lattice_cell, Gradient, NoiseConfig, NoiseError,
    PermutationTable,
};
use rand::rngs::StdRng;
use rand::SeedableRng;

fn is_doubled_permutation(entries: &[usize]) -> bool {
    if entries.len() != 512 {
        return false;
    }
    let mut seen = [0u32; 256];
    for &v in &entries[..256] {
        if v >= 256 {
            return false;
        }
        seen[v] += 1;
    }
    seen.iter().all(|&n| n == 1) && entries[256..] == entries[..256]
}

fn zero_table() -> PermutationTable {
    PermutationTable::from_entries(vec![0; 512]).unwrap()
}

fn seeded_table(seed: u64) -> PermutationTable {
    let mut rng = StdRng::seed_from_u64(seed);
    generate_permutation_table_with(&mut rng)
}

#[test]
fn config_rejects_zero_chunk_size() {
    assert_eq!(NoiseConfig::new(false, 10, 10, 0, 1), Err(NoiseError::ConfigurationError));
    assert_eq!(NoiseConfig::new(true, 10, 10, 0, 3), Err(NoiseError::ConfigurationError));
}

#[test]
fn config_rejects_zero_width_or_height() {
    assert_eq!(NoiseConfig::new(false, 0, 10, 5, 1), Err(NoiseError::ConfigurationError));
    assert_eq!(NoiseConfig::new(false, 10, 0, 5, 1), Err(NoiseError::ConfigurationError));
}

#[test]
fn config_counts_fields() {
    let raster = NoiseConfig::new(true, 1000, 800, 500, 4).unwrap();
    assert_eq!(raster, NoiseConfig { width: 1000, height: 800, chunk_size: 500, fields: 4 });
    let numeric = NoiseConfig::new(false, 3, 2, 1, 4).unwrap();
    assert_eq!(numeric.fields, 1);
}

#[test]
fn generated_table_is_doubled_permutation() {
    for seed in 0..20u64 {
        assert!(is_doubled_permutation(&seeded_table(seed).to_vec()));
    }
}

#[test]
fn os_seeded_table_is_doubled_permutation() {
    let table = generate_permutation_table().unwrap();
    assert!(is_doubled_permutation(&table.to_vec()));
}

#[test]
fn generated_table_is_shuffled() {
    let identity: Vec<usize> = (0..256).collect();
    let entries = seeded_table(42).to_vec();
    assert_ne!(entries[..256].to_vec(), identity);
}

#[test]
fn same_seed_gives_same_table() {
    assert_eq!(seeded_table(7).to_vec(), seeded_table(7).to_vec());
}

#[test]
fn table_entries_must_fit() {
    assert!(matches!(
        PermutationTable::from_entries(vec![0; 511]),
        Err(NoiseError::InvalidTable)
    ));
    let mut entries = vec![3; 512];
    entries[100] = 256;
    assert!(matches!(PermutationTable::from_entries(entries), Err(NoiseError::InvalidTable)));
    let table = PermutationTable::from_entries(vec![255; 512]).unwrap();
    assert_eq!(table.get(511), 255);
}

#[test]
fn gradient_buckets() {
    let expected = [
        (1, 1, false),
        (-1, 1, false),
        (1, -1, false),
        (-1, -1, false),
        (1, 1, true),
        (-1, 1, true),
        (1, -1, true),
        (-1, -1, true),
    ];
    for (b, &(x_sign, y_sign, long)) in expected.iter().enumerate() {
        assert_eq!(corner_gradient(b), Gradient { x_sign, y_sign, long });
        assert_eq!(corner_gradient(b + 248), Gradient { x_sign, y_sign, long });
    }
    assert_eq!(corner_gradient(13), Gradient { x_sign: -1, y_sign: 1, long: true });
}

#[test]
fn lattice_cell_splits_coordinate() {
    let cell = lattice_cell(7, 10, 3);
    assert_eq!((cell.x_left, cell.x_right, cell.x_offset), (2, 3, 1));
    assert_eq!((cell.y_top, cell.y_bottom, cell.y_offset), (3, 4, 1));
    assert_eq!(cell.chunk_size, 3);
}

#[test]
fn lattice_cell_wraps_at_period() {
    let cell = lattice_cell(255 * 4 + 2, 256 * 4, 4);
    assert_eq!((cell.x_left, cell.x_right, cell.x_offset), (255, 0, 2));
    assert_eq!((cell.y_top, cell.y_bottom, cell.y_offset), (0, 1, 0));
}

#[test]
fn all_zero_table_on_unit_grid() {
    let table = zero_table();
    for y in 0..2u32 {
        for x in 0..2u32 {
            let s = cell_at_coordinates(x, y, &table, 1);
            let g = Gradient { x_sign: 1, y_sign: 1, long: false };
            for corner in [s.top_left, s.top_right, s.bottom_right, s.bottom_left] {
                assert_eq!(corner.value, 0);
                assert_eq!(corner.gradient, g);
            }
            assert_eq!(s.top_left.influence, 0);
            assert_eq!(s.top_right.influence, 1);
            assert_eq!(s.bottom_right.influence, 2);
            assert_eq!(s.bottom_left.influence, 1);
        }
    }
}

#[test]
fn influences_inside_a_cell() {
    // chunk size 4, point at offset (1, 3): displacements in quarters.
    let table = PermutationTable::from_entries(vec![7; 512]).unwrap();
    let s = cell_at_coordinates(5, 3, &table, 4);
    // bucket 7: (-1, -1), long
    assert_eq!(s.top_left.influence, 1 + 3);
    assert_eq!(s.top_right.influence, -3 + 3);
    assert_eq!(s.bottom_right.influence, -3 - 1);
    assert_eq!(s.bottom_left.influence, 1 - 1);
    assert!(s.top_left.gradient.long);
}

#[test]
fn corners_follow_double_hash() {
    let table = seeded_table(3);
    let t = table.to_vec();
    let s = cell_at_coordinates(37, 90, &table, 10);
    assert_eq!(s.top_left.value, t[t[3] + 9]);
    assert_eq!(s.top_right.value, t[t[4] + 9]);
    assert_eq!(s.bottom_right.value, t[t[4] + 10]);
    assert_eq!(s.bottom_left.value, t[t[3] + 10]);
}

#[test]
fn sampling_is_deterministic() {
    let table = seeded_table(11);
    assert_eq!(cell_at_coordinates(123, 456, &table, 7), cell_at_coordinates(123, 456, &table, 7));
}

#[test]
fn lattice_repeats_every_256_chunks() {
    let table = seeded_table(5);
    for &(x, y, c) in &[(0u32, 0u32, 1u32), (13, 29, 5), (999, 1, 500)] {
        let base = cell_at_coordinates(x, y, &table, c);
        assert_eq!(cell_at_coordinates(x + 256 * c, y, &table, c), base);
        assert_eq!(cell_at_coordinates(x, y + 256 * c, &table, c), base);
    }
}

#[test]
fn neighbouring_cells_share_an_edge() {
    let table = seeded_table(9);
    let here = cell_at_coordinates(19, 4, &table, 10);
    let next = cell_at_coordinates(20, 4, &table, 10);
    assert_eq!(next.cell.x_left, here.cell.x_right);
    assert_eq!(next.top_left.value, here.top_right.value);
    assert_eq!(next.bottom_left.value, here.bottom_right.value);
    let below = cell_at_coordinates(19, 10, &table, 10);
    assert_eq!(below.top_left.value, here.bottom_left.value);
    assert_eq!(below.top_right.value, here.bottom_right.value);
}
