//! The output document: a line-oriented text format holding a header line,
//! one pre-pass count line per sub-mesh, then one record per sub-mesh — its
//! header (name, flattened vertex count, attribute flags, bounding box)
//! followed by one line per referenced vertex with position, texcoord-or-zero
//! and normal-or-zero. The whole document is specified as a function of the
//! input, so rendering the same input twice gives the same text.

use crate::bbox::{calculate_bounding_box, spec_bbox};
use crate::mesh::{SubMesh, SubMeshView};
use crate::numfmt::{dec_rep, dec_string};
use vstd::prelude::*;
use vstd::string::StringExecFns;

verus! {

/// The views of a sequence of sub-meshes.
pub open spec fn subs_view(s: Seq<SubMesh>) -> Seq<SubMeshView> {
    Seq::new(s.len(), |i: int| s[i]@)
}

/// `0` or `1`: an attribute flag as the document prints it.
pub open spec fn flag_text(b: bool) -> Seq<char> {
    if b {
        "1"@
    } else {
        "0"@
    }
}

/// The three position scalars of the vertex referenced by `indices[k]`,
/// space-separated.
pub open spec fn position_text(m: SubMeshView, k: int) -> Seq<char> {
    let i = m.indices[k] as int;
    m.positions[3 * i].text + " "@ + m.positions[3 * i + 1].text + " "@ + m.positions[3 * i
        + 2].text
}

/// The texcoord pair of the vertex referenced by `indices[k]`, with its
/// leading separator; the literal pair `0 0` when the sub-mesh has no
/// texcoords.
pub open spec fn tex_text(m: SubMeshView, k: int) -> Seq<char> {
    if m.texcoords.len() == 0 {
        " 0 0"@
    } else {
        let i = m.indices[k] as int;
        " "@ + m.texcoords[2 * i].text + " "@ + m.texcoords[2 * i + 1].text
    }
}

/// The normal triple of the vertex referenced by `indices[k]`, with its
/// leading separator; the literal triple `0 0 0` when the sub-mesh has no
/// normals.
pub open spec fn normal_text(m: SubMeshView, k: int) -> Seq<char> {
    if m.normals.len() == 0 {
        " 0 0 0"@
    } else {
        let i = m.indices[k] as int;
        " "@ + m.normals[3 * i].text + " "@ + m.normals[3 * i + 1].text + " "@ + m.normals[3 * i
            + 2].text
    }
}

/// One flattened vertex line: position, texcoord-or-zero, normal-or-zero.
pub open spec fn vertex_line(m: SubMeshView, k: int) -> Seq<char> {
    position_text(m, k) + tex_text(m, k) + normal_text(m, k) + "\n"@
}

/// The first `n` vertex lines of a sub-mesh, in index order.
pub open spec fn vertex_lines(m: SubMeshView, n: int) -> Seq<char>
    decreases n,
{
    if n <= 0 {
        Seq::empty()
    } else {
        vertex_lines(m, n - 1) + vertex_line(m, n - 1)
    }
}

/// The vertex lines of a sub-mesh as a sequence of lines, one per index
/// entry.
pub open spec fn vertex_line_seq(m: SubMeshView) -> Seq<Seq<char>> {
    Seq::new(m.indices.len(), |k: int| vertex_line(m, k))
}

/// A sub-mesh record's header line: name, flattened vertex count, the two
/// attribute flags, and the six bounding-box scalars.
pub open spec fn submesh_header(m: SubMeshView) -> Seq<char> {
    let b = spec_bbox(m.positions, m.indices);
    "> "@ + m.name + " "@ + dec_rep(m.indices.len()) + " "@ + flag_text(m.normals.len() > 0)
        + " "@ + flag_text(m.texcoords.len() > 0) + " "@ + b.min_x.text + " "@ + b.min_y.text
        + " "@ + b.min_z.text + " "@ + b.max_x.text + " "@ + b.max_y.text + " "@ + b.max_z.text
        + "\n"@
}

/// One sub-mesh record: its header line, then one line per referenced
/// vertex.
pub open spec fn submesh_record(m: SubMeshView) -> Seq<char> {
    submesh_header(m) + vertex_lines(m, m.indices.len() as int)
}

/// One pre-pass count line.
pub open spec fn count_line(n: nat) -> Seq<char> {
    "% "@ + dec_rep(n) + "\n"@
}

/// The pre-pass count lines of all sub-meshes, in input order.
pub open spec fn count_lines(subs: Seq<SubMeshView>) -> Seq<char>
    decreases subs.len(),
{
    if subs.len() == 0 {
        Seq::empty()
    } else {
        count_lines(subs.drop_last()) + count_line(subs.last().indices.len())
    }
}

/// The pre-pass count lines as a sequence of lines, one per sub-mesh.
pub open spec fn count_line_seq(subs: Seq<SubMeshView>) -> Seq<Seq<char>> {
    Seq::new(subs.len(), |i: int| count_line(subs[i].indices.len()))
}

/// The records of all sub-meshes, in input order.
pub open spec fn body_records(subs: Seq<SubMeshView>) -> Seq<char>
    decreases subs.len(),
{
    if subs.len() == 0 {
        Seq::empty()
    } else {
        body_records(subs.drop_last()) + submesh_record(subs.last())
    }
}

/// The records as a sequence, one per sub-mesh.
pub open spec fn body_record_seq(subs: Seq<SubMeshView>) -> Seq<Seq<char>> {
    Seq::new(subs.len(), |i: int| submesh_record(subs[i]))
}

/// The sum of the flattened vertex counts (the index-array lengths) of all
/// sub-meshes.
pub open spec fn total_vector_count(subs: Seq<SubMeshView>) -> nat
    decreases subs.len(),
{
    if subs.len() == 0 {
        0
    } else {
        total_vector_count(subs.drop_last()) + subs.last().indices.len()
    }
}

/// The document header line: format version, source path, total flattened
/// vertex count, sub-mesh count.
pub open spec fn header_line(path: Seq<char>, total: nat, count: nat) -> Seq<char> {
    "? 2.0 "@ + path + " "@ + dec_rep(total) + " "@ + dec_rep(count) + "\n"@
}

/// The whole output document for one input file.
pub open spec fn document_text(path: Seq<char>, subs: Seq<SubMeshView>) -> Seq<char> {
    header_line(path, total_vector_count(subs), subs.len()) + count_lines(subs) + body_records(
        subs,
    )
}

/// The concatenation of a sequence of lines.
pub open spec fn concat_all(lines: Seq<Seq<char>>) -> Seq<char>
    decreases lines.len(),
{
    if lines.len() == 0 {
        Seq::empty()
    } else {
        concat_all(lines.drop_last()) + lines.last()
    }
}

/// A prefix never counts more flattened vertices than the whole sequence.
proof fn lemma_total_take_le(subs: Seq<SubMeshView>, i: int)
    requires
        0 <= i <= subs.len(),
    ensures
        total_vector_count(subs.take(i)) <= total_vector_count(subs),
    decreases subs.len() - i,
{
    if i == subs.len() {
        assert(subs.take(i) =~= subs);
    } else {
        lemma_total_take_le(subs, i + 1);
        assert(subs.take(i + 1).drop_last() =~= subs.take(i));
    }
}

proof fn lemma_count_concat(subs: Seq<SubMeshView>)
    ensures
        count_lines(subs) == concat_all(count_line_seq(subs)),
    decreases subs.len(),
{
    if subs.len() == 0 {
        assert(count_line_seq(subs) =~= Seq::<Seq<char>>::empty());
    } else {
        lemma_count_concat(subs.drop_last());
        assert(count_line_seq(subs).drop_last() =~= count_line_seq(subs.drop_last()));
        assert(count_line_seq(subs).last() == count_line(subs.last().indices.len()));
    }
}

proof fn lemma_body_concat(subs: Seq<SubMeshView>)
    ensures
        body_records(subs) == concat_all(body_record_seq(subs)),
    decreases subs.len(),
{
    if subs.len() == 0 {
        assert(body_record_seq(subs) =~= Seq::<Seq<char>>::empty());
    } else {
        lemma_body_concat(subs.drop_last());
        assert(body_record_seq(subs).drop_last() =~= body_record_seq(subs.drop_last()));
        assert(body_record_seq(subs).last() == submesh_record(subs.last()));
    }
}

proof fn lemma_vertex_concat(m: SubMeshView, n: int)
    requires
        0 <= n <= m.indices.len(),
    ensures
        vertex_lines(m, n) == concat_all(vertex_line_seq(m).take(n)),
    decreases n,
{
    if n == 0 {
        assert(vertex_line_seq(m).take(0) =~= Seq::<Seq<char>>::empty());
    } else {
        lemma_vertex_concat(m, n - 1);
        assert(vertex_line_seq(m).take(n).drop_last() =~= vertex_line_seq(m).take(n - 1));
        assert(vertex_line_seq(m).take(n).last() == vertex_line(m, n - 1));
    }
}

/// Flattening is length-preserving: a sub-mesh record is its header line
/// plus exactly one vertex line per index-array entry, duplicates included,
/// with no welding and no reordering.
pub proof fn lemma_flattening_length_preserving(m: SubMeshView)
    ensures
        vertex_line_seq(m).len() == m.indices.len(),
        submesh_record(m) == submesh_header(m) + concat_all(vertex_line_seq(m)),
{
    lemma_vertex_concat(m, m.indices.len() as int);
    assert(vertex_line_seq(m).take(m.indices.len() as int) =~= vertex_line_seq(m));
}

/// The document is the header line, then one pre-pass count line per
/// sub-mesh, then one record per sub-mesh, all in input order. The header
/// carries the sum of the flattened vertex counts and the number of records
/// that follow, and the i-th count line carries exactly the number of
/// vertex lines that the i-th record emits.
pub proof fn lemma_document_structure(path: Seq<char>, subs: Seq<SubMeshView>)
    ensures
        document_text(path, subs) == header_line(
            path,
            total_vector_count(subs),
            body_record_seq(subs).len(),
        ) + concat_all(count_line_seq(subs)) + concat_all(body_record_seq(subs)),
        count_line_seq(subs).len() == subs.len(),
        body_record_seq(subs).len() == subs.len(),
        forall|i: int|
            0 <= i < subs.len() ==> #[trigger] count_line_seq(subs)[i] == count_line(
                vertex_line_seq(subs[i]).len(),
            ),
        forall|i: int|
            0 <= i < subs.len() ==> #[trigger] body_record_seq(subs)[i] == submesh_header(subs[i])
                + concat_all(vertex_line_seq(subs[i])),
{
    lemma_count_concat(subs);
    lemma_body_concat(subs);
    assert forall|i: int| 0 <= i < subs.len() implies #[trigger] body_record_seq(subs)[i]
        == submesh_header(subs[i]) + concat_all(vertex_line_seq(subs[i])) by {
        lemma_flattening_length_preserving(subs[i]);
    };
}

/// When a sub-mesh has no texcoords, every vertex line carries the literal
/// pair `0 0` in the texcoord slot; when it has no normals, the literal
/// triple `0 0 0` in the normal slot.
pub proof fn lemma_absent_attributes_zero(m: SubMeshView, k: int)
    ensures
        m.texcoords.len() == 0 ==> vertex_line(m, k) == position_text(m, k) + " 0 0"@
            + normal_text(m, k) + "\n"@,
        m.normals.len() == 0 ==> vertex_line(m, k) == position_text(m, k) + tex_text(m, k)
            + " 0 0 0"@ + "\n"@,
{
}

/// Rendering is deterministic: the document is a function of the source
/// path and the sub-mesh data alone, so re-running the converter on the
/// same input produces the same text, byte for byte.
pub proof fn lemma_render_deterministic(
    path: Seq<char>,
    subs: Seq<SubMeshView>,
    r1: Seq<char>,
    r2: Seq<char>,
)
    requires
        r1 == document_text(path, subs),
        r2 == document_text(path, subs),
    ensures
        r1 == r2,
{
}

/// `0` or `1` as a string slice.
fn flag_str(b: bool) -> (r: &'static str)
    ensures
        r@ == flag_text(b),
{
    if b {
        "1"
    } else {
        "0"
    }
}

/// Renders one flattened vertex line: the referenced position triple, then
/// the texcoord pair or the literal `0 0`, then the normal triple or the
/// literal `0 0 0`.
pub fn render_vertex_line(m: &SubMesh, k: usize) -> (r: String)
    requires
        m@.wellformed(),
        k < m@.indices.len(),
    ensures
        r@ == vertex_line(m@, k as int),
{
    proof {
        assert(m@.index_ok(k as int));
    }
    let f_idx = m.indices[k];
    let plen = m.positions.len();
    proof {
        assert(3 * (m@.indices[k as int] as int) + 2 < plen as int);
    }
    let x_idx = 3 * (f_idx as usize);
    let mut s = String::new();
    s.append(m.positions[x_idx].text.as_str());
    s.append(" ");
    s.append(m.positions[x_idx + 1].text.as_str());
    s.append(" ");
    s.append(m.positions[x_idx + 2].text.as_str());
    if m.texcoords.len() > 0 {
        let u_idx = 2 * (f_idx as usize);
        s.append(" ");
        s.append(m.texcoords[u_idx].text.as_str());
        s.append(" ");
        s.append(m.texcoords[u_idx + 1].text.as_str());
    } else {
        s.append(" 0 0");
    }
    if m.normals.len() > 0 {
        s.append(" ");
        s.append(m.normals[x_idx].text.as_str());
        s.append(" ");
        s.append(m.normals[x_idx + 1].text.as_str());
        s.append(" ");
        s.append(m.normals[x_idx + 2].text.as_str());
    } else {
        s.append(" 0 0 0");
    }
    s.append("\n");
    proof {
        assert(s@ =~= vertex_line(m@, k as int));
    }
    s
}

/// Renders one sub-mesh record: the header line with the flattened vertex
/// count, the attribute flags and the bounding box, then every vertex line
/// in index order.
pub fn render_submesh(m: &SubMesh) -> (r: String)
    requires
        m@.wellformed(),
    ensures
        r@ == submesh_record(m@),
{
    let mut s = String::new();
    s.append("> ");
    s.append(m.name.as_str());
    s.append(" ");
    let count_text = dec_string(m.indices.len());
    s.append(count_text.as_str());
    s.append(" ");
    s.append(flag_str(m.normals.len() > 0));
    s.append(" ");
    s.append(flag_str(m.texcoords.len() > 0));
    s.append(" ");
    proof {
        assert forall|k: int| #![trigger m@.indices[k]]
            0 <= k < m@.indices.len() implies 3 * (m@.indices[k] as int) + 2
            < m@.positions.len() by {
            assert(m@.index_ok(k));
        };
    }
    let b = calculate_bounding_box(&m.positions, &m.indices);
    s.append(b.min_x.text.as_str());
    s.append(" ");
    s.append(b.min_y.text.as_str());
    s.append(" ");
    s.append(b.min_z.text.as_str());
    s.append(" ");
    s.append(b.max_x.text.as_str());
    s.append(" ");
    s.append(b.max_y.text.as_str());
    s.append(" ");
    s.append(b.max_z.text.as_str());
    s.append("\n");
    proof {
        assert(s@ =~= submesh_header(m@));
    }
    let n = m.indices.len();
    let mut k: usize = 0;
    while k < n
        invariant
            n == m@.indices.len(),
            k <= n,
            m@.wellformed(),
            s@ == submesh_header(m@) + vertex_lines(m@, k as int),
        decreases n - k,
    {
        let line = render_vertex_line(m, k);
        s.append(line.as_str());
        proof {
            assert(s@ =~= submesh_header(m@) + vertex_lines(m@, k as int + 1));
        }
        k = k + 1;
    }
    s
}

/// Renders the whole output document for one input: the header line with
/// the source path and both totals, the pre-pass count lines, then every
/// sub-mesh record, all in input order.
pub fn render_document(path: &str, subs: &Vec<SubMesh>) -> (r: String)
    requires
        forall|i: int| #![trigger subs@[i]] 0 <= i < subs@.len() ==> subs@[i]@.wellformed(),
        total_vector_count(subs_view(subs@)) <= usize::MAX,
    ensures
        r@ == document_text(path@, subs_view(subs@)),
{
    let ghost v = subs_view(subs@);
    let n = subs.len();
    let mut total: usize = 0;
    let mut i: usize = 0;
    while i < n
        invariant
            n == subs@.len(),
            v == subs_view(subs@),
            total_vector_count(v) <= usize::MAX,
            i <= n,
            total == total_vector_count(v.take(i as int)),
        decreases n - i,
    {
        proof {
            lemma_total_take_le(v, i as int + 1);
            assert(v.take(i as int + 1).drop_last() =~= v.take(i as int));
            assert(v.take(i as int + 1).last() == v[i as int]);
            assert(v[i as int] == subs@[i as int]@);
        }
        total = total + subs[i].indices.len();
        i = i + 1;
    }
    proof {
        assert(v.take(n as int) =~= v);
    }
    let mut s = String::new();
    s.append("? 2.0 ");
    s.append(path);
    s.append(" ");
    let total_text = dec_string(total);
    s.append(total_text.as_str());
    s.append(" ");
    let count_text = dec_string(n);
    s.append(count_text.as_str());
    s.append("\n");
    proof {
        assert(s@ =~= header_line(path@, total_vector_count(v), v.len()));
    }
    let ghost hdr = header_line(path@, total_vector_count(v), v.len());
    i = 0;
    while i < n
        invariant
            n == subs@.len(),
            v == subs_view(subs@),
            i <= n,
            s@ == hdr + count_lines(v.take(i as int)),
        decreases n - i,
    {
        proof {
            assert(v[i as int] == subs@[i as int]@);
        }
        s.append("% ");
        let c_text = dec_string(subs[i].indices.len());
        s.append(c_text.as_str());
        s.append("\n");
        proof {
            assert(v.take(i as int + 1).drop_last() =~= v.take(i as int));
            assert(v.take(i as int + 1).last() == v[i as int]);
            assert(s@ =~= hdr + count_lines(v.take(i as int + 1)));
        }
        i = i + 1;
    }
    proof {
        assert(v.take(n as int) =~= v);
    }
    i = 0;
    while i < n
        invariant
            n == subs@.len(),
            v == subs_view(subs@),
            i <= n,
            forall|j: int| #![trigger subs@[j]] 0 <= j < subs@.len() ==> subs@[j]@.wellformed(),
            s@ == hdr + count_lines(v) + body_records(v.take(i as int)),
        decreases n - i,
    {
        proof {
            assert(subs@[i as int]@.wellformed());
            assert(v[i as int] == subs@[i as int]@);
        }
        let record = render_submesh(&subs[i]);
        s.append(record.as_str());
        proof {
            assert(v.take(i as int + 1).drop_last() =~= v.take(i as int));
            assert(v.take(i as int + 1).last() == v[i as int]);
            assert(s@ =~= hdr + count_lines(v) + body_records(v.take(i as int + 1)));
        }
        i = i + 1;
    }
    proof {
        assert(v.take(n as int) =~= v);
        assert(s@ =~= document_text(path@, v));
    }
    s
}

} // verus!
