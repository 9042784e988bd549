//! The converter's model of one named group of triangle geometry: flat
//! position data, optional flat texcoord and normal data, and the index
//! array that defines the triangle list. Scalars are single-precision bit
//! patterns carried as `u32`.

use crate::scalar::{Scalar, ScalarView, scalars_view};
use vstd::prelude::*;

verus! {

/// One sub-mesh: a name, flat attribute arrays and the index array.
/// `positions` and `normals` hold x,y,z triples and `texcoords` u,v pairs;
/// `indices` references the triples and pairs by vertex number.
pub struct SubMesh {
    pub name: String,
    pub positions: Vec<Scalar>,
    pub texcoords: Vec<Scalar>,
    pub normals: Vec<Scalar>,
    pub indices: Vec<u32>,
}

/// The mathematical view of a sub-mesh.
pub struct SubMeshView {
    pub name: Seq<char>,
    pub positions: Seq<ScalarView>,
    pub texcoords: Seq<ScalarView>,
    pub normals: Seq<ScalarView>,
    pub indices: Seq<u32>,
}

impl View for SubMesh {
    type V = SubMeshView;

    open spec fn view(&self) -> SubMeshView {
        SubMeshView {
            name: self.name@,
            positions: scalars_view(self.positions@),
            texcoords: scalars_view(self.texcoords@),
            normals: scalars_view(self.normals@),
            indices: self.indices@,
        }
    }
}

impl SubMeshView {
    /// The index entry at `k` points at a full position triple and, when the
    /// optional attribute arrays are present, at a full texcoord pair and a
    /// full normal triple.
    pub open spec fn index_ok(self, k: int) -> bool {
        &&& 3 * (self.indices[k] as int) + 2 < self.positions.len()
        &&& (self.texcoords.len() > 0 ==> 2 * (self.indices[k] as int) + 1 < self.texcoords.len())
        &&& (self.normals.len() > 0 ==> 3 * (self.indices[k] as int) + 2 < self.normals.len())
    }

    /// The sub-mesh invariant: every index entry is a valid offset into the
    /// attribute arrays it will be read against.
    pub open spec fn wellformed(self) -> bool {
        forall|k: int| 0 <= k < self.indices.len() ==> #[trigger] self.index_ok(k)
    }
}

impl SubMesh {
    /// Decides the sub-mesh invariant: whether every index entry is in
    /// bounds for the position array and for whichever optional attribute
    /// arrays are present.
    pub fn is_wellformed(&self) -> (b: bool)
        ensures
            b == self@.wellformed(),
    {
        let n = self.indices.len();
        let plen = self.positions.len() as u64;
        let tlen = self.texcoords.len() as u64;
        let nlen = self.normals.len() as u64;
        let mut k: usize = 0;
        while k < n
            invariant
                n == self@.indices.len(),
                plen == self@.positions.len(),
                tlen == self@.texcoords.len(),
                nlen == self@.normals.len(),
                k <= n,
                forall|j: int| 0 <= j < k ==> #[trigger] self@.index_ok(j),
            decreases n - k,
        {
            let idx = self.indices[k] as u64;
            let ok = 3 * idx + 2 < plen && (tlen == 0 || 2 * idx + 1 < tlen) && (nlen == 0 || 3
                * idx + 2 < nlen);
            if !ok {
                proof {
                    assert(!self@.index_ok(k as int));
                }
                return false;
            }
            proof {
                assert(self@.index_ok(k as int));
            }
            k = k + 1;
        }
        true
    }
}

} // verus!
