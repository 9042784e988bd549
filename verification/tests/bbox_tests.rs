use smodel::bbox::calculate_bounding_box;
use smodel::mesh::SubMesh;
use smodel::scalar::Scalar;

fn scalar(f: f32) -> Scalar {
    Scalar { bits: f.to_bits(), text: format!("{}", f) }
}

fn scalars(fs: &[f32]) -> Vec<Scalar> {
    fs.iter().map(|&f| scalar(f)).collect()
}

#[test]
fn bbox_square_covers_referenced_vertices() {
    let positions = scalars(&[
        0.0, 0.0, 0.0, //
        1.0, 0.0, 0.0, //
        1.0, 1.0, 0.0, //
        0.0, 1.0, 0.0,
    ]);
    let indices: Vec<u32> = vec![0, 1, 2, 2, 3, 0];
    let b = calculate_bounding_box(&positions, &indices);
    assert_eq!(b.min_x.bits, 0.0f32.to_bits());
    assert_eq!(b.min_y.bits, 0.0f32.to_bits());
    assert_eq!(b.min_z.bits, 0.0f32.to_bits());
    assert_eq!(b.max_x.bits, 1.0f32.to_bits());
    assert_eq!(b.max_y.bits, 1.0f32.to_bits());
    assert_eq!(b.max_z.bits, 0.0f32.to_bits());
    assert_eq!(b.min_x.text, "0");
    assert_eq!(b.max_x.text, "1");
}

#[test]
fn bbox_excludes_unreferenced_positions() {
    // the far-away vertex 2 is never referenced and must not widen the box
    let positions = scalars(&[
        1.0, 2.0, 3.0, //
        4.0, 5.0, 6.0, //
        100.0, 100.0, 100.0,
    ]);
    let indices: Vec<u32> = vec![0, 1];
    let b = calculate_bounding_box(&positions, &indices);
    assert_eq!(b.min_x.bits, 1.0f32.to_bits());
    assert_eq!(b.min_y.bits, 2.0f32.to_bits());
    assert_eq!(b.min_z.bits, 3.0f32.to_bits());
    assert_eq!(b.max_x.bits, 4.0f32.to_bits());
    assert_eq!(b.max_y.bits, 5.0f32.to_bits());
    assert_eq!(b.max_z.bits, 6.0f32.to_bits());
}

#[test]
fn bbox_negative_coordinates() {
    let positions = scalars(&[
        -1.5, 2.0, -3.25, //
        0.5, -2.5, 4.0,
    ]);
    let indices: Vec<u32> = vec![0, 1];
    let b = calculate_bounding_box(&positions, &indices);
    assert_eq!(b.min_x.bits, (-1.5f32).to_bits());
    assert_eq!(b.min_y.bits, (-2.5f32).to_bits());
    assert_eq!(b.min_z.bits, (-3.25f32).to_bits());
    assert_eq!(b.max_x.bits, 0.5f32.to_bits());
    assert_eq!(b.max_y.bits, 2.0f32.to_bits());
    assert_eq!(b.max_z.bits, 4.0f32.to_bits());
    assert_eq!(b.min_x.text, "-1.5");
}

#[test]
fn bbox_empty_indices_returns_sentinels() {
    let positions = scalars(&[7.0, 8.0, 9.0]);
    let indices: Vec<u32> = vec![];
    let b = calculate_bounding_box(&positions, &indices);
    assert_eq!(b.min_x.bits, f32::MAX.to_bits());
    assert_eq!(b.min_y.bits, f32::MAX.to_bits());
    assert_eq!(b.min_z.bits, f32::MAX.to_bits());
    assert_eq!(b.max_x.bits, f32::MIN.to_bits());
    assert_eq!(b.max_y.bits, f32::MIN.to_bits());
    assert_eq!(b.max_z.bits, f32::MIN.to_bits());
    // the sentinel texts the library embeds are exactly what the host
    // formatter prints for the two extreme finite values
    assert_eq!(b.min_x.text, format!("{}", f32::MAX));
    assert_eq!(b.max_x.text, format!("{}", f32::MIN));
}

#[test]
fn bbox_nan_never_wins_a_comparison() {
    // a NaN coordinate leaves the sentinel in its slots; the other axes fold
    // normally
    let positions = scalars(&[f32::NAN, 2.0, 3.0]);
    let indices: Vec<u32> = vec![0];
    let b = calculate_bounding_box(&positions, &indices);
    assert_eq!(b.min_x.bits, f32::MAX.to_bits());
    assert_eq!(b.max_x.bits, f32::MIN.to_bits());
    assert_eq!(b.min_y.bits, 2.0f32.to_bits());
    assert_eq!(b.max_y.bits, 2.0f32.to_bits());
    assert_eq!(b.min_z.bits, 3.0f32.to_bits());
    assert_eq!(b.max_z.bits, 3.0f32.to_bits());
}

#[test]
fn bbox_zero_signs_compare_equal() {
    // -0.0 and 0.0 are equal under the strict comparison, so the first one
    // folded in stays
    let positions = scalars(&[0.0, 1.0, 1.0, -0.0, 1.0, 1.0]);
    let indices: Vec<u32> = vec![0, 1];
    let b = calculate_bounding_box(&positions, &indices);
    assert_eq!(b.min_x.bits, 0.0f32.to_bits());
    assert_eq!(b.max_x.bits, 0.0f32.to_bits());
}

#[test]
fn is_wellformed_accepts_valid_indices() {
    let sub = SubMesh {
        name: "Tri".to_string(),
        positions: scalars(&[0.0, 0.0, 0.0, 1.0, 0.0, 0.0, 0.0, 1.0, 0.0]),
        texcoords: vec![],
        normals: vec![],
        indices: vec![0, 1, 2],
    };
    assert!(sub.is_wellformed());
}

#[test]
fn is_wellformed_rejects_position_out_of_bounds() {
    let sub = SubMesh {
        name: "Bad".to_string(),
        positions: scalars(&[0.0, 0.0, 0.0]),
        texcoords: vec![],
        normals: vec![],
        indices: vec![0, 1],
    };
    assert!(!sub.is_wellformed());
}

#[test]
fn is_wellformed_rejects_short_normal_array() {
    // two position triples but only one normal triple: index 1 has no normal
    let sub = SubMesh {
        name: "Bad".to_string(),
        positions: scalars(&[0.0, 0.0, 0.0, 1.0, 0.0, 0.0]),
        texcoords: vec![],
        normals: scalars(&[0.0, 1.0, 0.0]),
        indices: vec![0, 1],
    };
    assert!(!sub.is_wellformed());
}

#[test]
fn is_wellformed_rejects_short_texcoord_array() {
    // two position triples but only one texcoord pair: index 1 has no pair
    let sub = SubMesh {
        name: "Bad".to_string(),
        positions: scalars(&[0.0, 0.0, 0.0, 1.0, 0.0, 0.0]),
        texcoords: scalars(&[0.5, 0.5]),
        normals: vec![],
        indices: vec![0, 1],
    };
    assert!(!sub.is_wellformed());
}
