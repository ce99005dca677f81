use globe_map::geometry::{AssetError, GeometryStore, Triangle};

fn words(values: &[u32]) -> Vec<u8> {
    let mut out = Vec::new();
    for v in values {
        out.extend_from_slice(&v.to_le_bytes());
    }
    out
}

fn points(values: &[[f32; 3]]) -> Vec<u8> {
    let mut out = Vec::new();
    for p in values {
        for c in p {
            out.extend_from_slice(&c.to_le_bytes());
        }
    }
    out
}

fn square() -> Vec<u8> {
    points(&[[0.0, 0.0, 1.0], [1.0, 0.0, 0.0], [0.0, 1.0, 0.0], [-1.0, 0.5, 0.25]])
}

#[test]
fn load_decodes_little_endian() {
    let positions = [
        0x00, 0x00, 0x80, 0x3f, // 1.0
        0x00, 0x00, 0x00, 0xc0, // -2.0
        0x78, 0x56, 0x34, 0x12,
    ];
    let land = [0, 0, 0, 0, 0, 0, 0, 0, 0, 0, 0, 0];
    let contour = [0, 0, 0, 0];
    let store = GeometryStore::load(&positions, &land, &contour).unwrap();
    assert_eq!(store.positions().len(), 1);
    let v = store.positions()[0];
    assert_eq!(f32::from_bits(v.x.to_bits()), 1.0);
    assert_eq!(f32::from_bits(v.y.to_bits()), -2.0);
    assert_eq!(v.z.to_bits(), 0x1234_5678);
}

#[test]
fn load_keeps_order_and_values() {
    let positions = square();
    let land = words(&[0, 1, 2, 2, 3, 0]);
    let contour = words(&[3, 0, 1, 3]);
    let store = GeometryStore::load(&positions, &land, &contour).unwrap();
    assert_eq!(store.positions().len(), 4);
    assert_eq!(
        store.land_indices().as_slice(),
        &[Triangle { a: 0, b: 1, c: 2 }, Triangle { a: 2, b: 3, c: 0 }]
    );
    assert_eq!(store.contour_indices().as_slice(), &[3, 0, 1, 3]);
    assert_eq!(store.land_index_count(), 6);
    assert_eq!(store.contour_vertex_count(), 4);
    let last = store.positions()[3];
    assert_eq!(f32::from_bits(last.x.to_bits()), -1.0);
    assert_eq!(f32::from_bits(last.y.to_bits()), 0.5);
    assert_eq!(f32::from_bits(last.z.to_bits()), 0.25);
}

#[test]
fn contour_mesh_gathers_positions() {
    let positions = square();
    let contour = words(&[3, 0, 1, 3]);
    let store = GeometryStore::load(&positions, &[], &contour).unwrap();
    let mesh = store.contour_mesh();
    assert_eq!(mesh.len(), 4);
    let expect = [[-1.0, 0.5, 0.25], [0.0, 0.0, 1.0], [1.0, 0.0, 0.0], [-1.0, 0.5, 0.25]];
    for (point, want) in mesh.iter().zip(expect) {
        let got = [
            f32::from_bits(point.x.to_bits()),
            f32::from_bits(point.y.to_bits()),
            f32::from_bits(point.z.to_bits()),
        ];
        assert_eq!(got, want);
    }
}

#[test]
fn load_accepts_empty_geometry() {
    let store = GeometryStore::load(&[], &[], &[]).unwrap();
    assert!(store.positions().is_empty());
    assert!(store.land_indices().is_empty());
    assert!(store.contour_indices().is_empty());
    assert!(store.contour_mesh().is_empty());
    assert_eq!(store.land_index_count(), 0);
    assert_eq!(store.contour_vertex_count(), 0);
}

#[test]
fn load_refuses_partial_vertex() {
    let mut positions = square();
    positions.push(0);
    assert_eq!(GeometryStore::load(&positions, &[], &[]).err(), Some(AssetError::PositionsLength));
    assert_eq!(
        GeometryStore::load(&positions[..8], &[], &[]).err(),
        Some(AssetError::PositionsLength)
    );
}

#[test]
fn load_refuses_partial_triangle() {
    let land = words(&[0, 1]);
    assert_eq!(
        GeometryStore::load(&square(), &land, &[]).err(),
        Some(AssetError::LandIndicesLength)
    );
    let land = words(&[0, 1, 2, 3]);
    assert_eq!(
        GeometryStore::load(&square(), &land, &[]).err(),
        Some(AssetError::LandIndicesLength)
    );
}

#[test]
fn load_refuses_partial_contour_index() {
    assert_eq!(
        GeometryStore::load(&square(), &[], &[1, 0, 0]).err(),
        Some(AssetError::ContourIndicesLength)
    );
    assert_eq!(
        GeometryStore::load(&square(), &[], &[1, 0, 0, 0, 2]).err(),
        Some(AssetError::ContourIndicesLength)
    );
}

#[test]
fn load_refuses_land_index_without_vertex() {
    for land in [[4, 0, 0], [0, 4, 0], [0, 0, 4], [0, 0, u32::MAX]] {
        assert_eq!(
            GeometryStore::load(&square(), &words(&land), &[]).err(),
            Some(AssetError::LandIndexRange)
        );
    }
    assert!(GeometryStore::load(&square(), &words(&[3, 3, 3]), &[]).is_ok());
}

#[test]
fn load_refuses_contour_index_without_vertex() {
    assert_eq!(
        GeometryStore::load(&square(), &[], &words(&[0, 1, 4])).err(),
        Some(AssetError::ContourIndexRange)
    );
    assert_eq!(
        GeometryStore::load(&[], &[], &words(&[0])).err(),
        Some(AssetError::ContourIndexRange)
    );
}

#[test]
fn load_reports_the_first_fault() {
    let bad_points = [0u8; 5];
    let bad_land = [0u8; 5];
    let bad_contour = [0u8; 5];
    assert_eq!(
        GeometryStore::load(&bad_points, &bad_land, &bad_contour).err(),
        Some(AssetError::PositionsLength)
    );
    assert_eq!(
        GeometryStore::load(&[], &bad_land, &bad_contour).err(),
        Some(AssetError::LandIndicesLength)
    );
    assert_eq!(
        GeometryStore::load(&[], &words(&[9, 9, 9]), &bad_contour).err(),
        Some(AssetError::ContourIndicesLength)
    );
    assert_eq!(
        GeometryStore::load(&[], &words(&[9, 9, 9]), &words(&[9])).err(),
        Some(AssetError::LandIndexRange)
    );
}
