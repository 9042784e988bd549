//! Flattens indexed triangle meshes into the line-oriented `smodel` text
//! format: a document header, one pre-pass count line per sub-mesh, then one
//! record per sub-mesh holding its bounding box and one line per referenced
//! vertex (position, texcoord-or-zero, normal-or-zero).

pub mod bbox;
pub mod document;
pub mod mesh;
pub mod numfmt;
pub mod scalar;
