use smodel::document::{render_document, render_submesh, render_vertex_line};
use smodel::mesh::SubMesh;
use smodel::numfmt::dec_string;
use smodel::scalar::Scalar;

fn scalar(f: f32) -> Scalar {
    Scalar { bits: f.to_bits(), text: format!("{}", f) }
}

fn scalars(fs: &[f32]) -> Vec<Scalar> {
    fs.iter().map(|&f| scalar(f)).collect()
}

fn square() -> SubMesh {
    SubMesh {
        name: "Square".to_string(),
        positions: scalars(&[
            0.0, 0.0, 0.0, //
            1.0, 0.0, 0.0, //
            1.0, 1.0, 0.0, //
            0.0, 1.0, 0.0,
        ]),
        texcoords: vec![],
        normals: vec![],
        indices: vec![0, 1, 2, 2, 3, 0],
    }
}

fn triangle() -> SubMesh {
    SubMesh {
        name: "Tri".to_string(),
        positions: scalars(&[0.0, 0.0, 0.0, 2.0, 0.0, 0.0, 0.0, 2.0, 0.0]),
        texcoords: vec![],
        normals: vec![],
        indices: vec![0, 1, 2],
    }
}

#[test]
fn dec_string_renders_decimal() {
    assert_eq!(dec_string(0), "0");
    assert_eq!(dec_string(9), "9");
    assert_eq!(dec_string(10), "10");
    assert_eq!(dec_string(907), "907");
    assert_eq!(dec_string(usize::MAX), format!("{}", usize::MAX));
}

#[test]
fn round_trip_square() {
    let expected = "> Square 6 0 0 0 0 0 1 1 0\n0 0 0 0 0 0 0 0\n1 0 0 0 0 0 0 0\n1 1 0 0 0 0 0 0\n1 1 0 0 0 0 0 0\n0 1 0 0 0 0 0 0\n0 0 0 0 0 0 0 0\n";
    assert_eq!(render_submesh(&square()), expected);
}

#[test]
fn vertex_line_with_all_attributes() {
    let sub = SubMesh {
        name: "One".to_string(),
        positions: scalars(&[1.5, 2.5, 3.5]),
        texcoords: scalars(&[0.25, 0.75]),
        normals: scalars(&[0.0, 0.0, 1.0]),
        indices: vec![0, 0, 0],
    };
    assert_eq!(render_vertex_line(&sub, 0), "1.5 2.5 3.5 0.25 0.75 0 0 1\n");
    let record = render_submesh(&sub);
    let expected = "> One 3 1 1 1.5 2.5 3.5 1.5 2.5 3.5\n1.5 2.5 3.5 0.25 0.75 0 0 1\n1.5 2.5 3.5 0.25 0.75 0 0 1\n1.5 2.5 3.5 0.25 0.75 0 0 1\n";
    assert_eq!(record, expected);
}

#[test]
fn empty_submesh_record_keeps_sentinels() {
    let sub = SubMesh {
        name: "Empty".to_string(),
        positions: vec![],
        texcoords: vec![],
        normals: vec![],
        indices: vec![],
    };
    let expected =
        format!("> Empty 0 0 0 {} {} {} {} {} {}\n", f32::MAX, f32::MAX, f32::MAX, f32::MIN, f32::MIN, f32::MIN);
    assert_eq!(render_submesh(&sub), expected);
}

#[test]
fn document_header_and_prepass_counts() {
    let subs = vec![square(), triangle()];
    let text = render_document("scene.obj", &subs);
    let mut lines = text.lines();
    assert_eq!(lines.next(), Some("? 2.0 scene.obj 9 2"));
    assert_eq!(lines.next(), Some("% 6"));
    assert_eq!(lines.next(), Some("% 3"));
    let fourth = lines.next().unwrap();
    assert!(fourth.starts_with("> Square 6 "));
}

#[test]
fn document_single_submesh() {
    let subs = vec![square()];
    let text = render_document("square.obj", &subs);
    let expected = "? 2.0 square.obj 6 1\n% 6\n> Square 6 0 0 0 0 0 1 1 0\n0 0 0 0 0 0 0 0\n1 0 0 0 0 0 0 0\n1 1 0 0 0 0 0 0\n1 1 0 0 0 0 0 0\n0 1 0 0 0 0 0 0\n0 0 0 0 0 0 0 0\n";
    assert_eq!(text, expected);
}

#[test]
fn document_bodies_follow_all_counts() {
    let subs = vec![triangle(), triangle(), triangle()];
    let text = render_document("tris.obj", &subs);
    let first_body = text.find('>').unwrap();
    let last_count = text.rfind("% ").unwrap();
    assert!(last_count < first_body);
    assert_eq!(text.matches("% 3\n").count(), 3);
}

#[test]
fn document_with_no_submeshes_is_header_only() {
    let subs: Vec<SubMesh> = vec![];
    let text = render_document("empty.obj", &subs);
    assert_eq!(text, "? 2.0 empty.obj 0 0\n");
}

#[test]
fn rendering_twice_is_identical() {
    let subs = vec![square(), triangle()];
    let first = render_document("scene.obj", &subs);
    let second = render_document("scene.obj", &subs);
    assert_eq!(first, second);
}

#[test]
fn absent_texcoords_emit_zero_pair() {
    let sub = SubMesh {
        name: "NoTex".to_string(),
        positions: scalars(&[4.0, 5.0, 6.0]),
        texcoords: vec![],
        normals: scalars(&[0.0, 1.0, 0.0]),
        indices: vec![0],
    };
    assert_eq!(render_vertex_line(&sub, 0), "4 5 6 0 0 0 1 0\n");
}

#[test]
fn absent_normals_emit_zero_triple() {
    let sub = SubMesh {
        name: "NoNorm".to_string(),
        positions: scalars(&[4.0, 5.0, 6.0]),
        texcoords: scalars(&[0.5, 0.25]),
        normals: vec![],
        indices: vec![0],
    };
    assert_eq!(render_vertex_line(&sub, 0), "4 5 6 0.5 0.25 0 0 0\n");
}
