//! Indexed triangle meshes, built from faces that index positions, texture
//! coordinates and normals separately.

use vstd::prelude::*;

verus! {

/// A triangle of a realtime mesh: three indices into the vertex list.
#[derive(Clone, Copy, Debug)]
pub struct Face {
    pub face_indices: [u32; 3],
}

/// A face as a mesh file states it: for each of its corners an index into
/// the positions, and where given into the texture coordinates and the
/// normals, all counted from zero.
#[derive(Debug)]
pub struct MultiIndexingFace {
    pub vertices: Vec<usize>,
    pub normal_indices: Vec<usize>,
    pub tex_coord_indices: Vec<usize>,
    pub smoothing_group: Option<u32>,
}

/// A face as contracts see it.
pub struct FaceView {
    pub vertices: Seq<usize>,
    pub normal_indices: Seq<usize>,
    pub tex_coord_indices: Seq<usize>,
    pub smoothing_group: Option<u32>,
}

impl View for MultiIndexingFace {
    type V = FaceView;

    open spec fn view(&self) -> FaceView {
        FaceView {
            vertices: self.vertices@,
            normal_indices: self.normal_indices@,
            tex_coord_indices: self.tex_coord_indices@,
            smoothing_group: self.smoothing_group,
        }
    }
}

/// The faces of a list as contracts see them.
pub open spec fn face_views(faces: Seq<MultiIndexingFace>) -> Seq<FaceView> {
    Seq::new(faces.len(), |i: int| faces[i]@)
}

/// A vertex of a realtime mesh, named by the attributes it is made of.
#[derive(Clone, Copy, Debug, PartialEq, Eq, Structural)]
pub struct Corner {
    pub position: usize,
    pub tex_coord: usize,
    pub normal: usize,
}

/// Why a mesh was rejected.
#[derive(Clone, Copy, Debug, PartialEq, Eq, Structural)]
pub enum MeshFormatError {
    /// A face does not have exactly three corners.
    NonTriangularFace,
    /// A corner lacks its texture coordinate or its normal.
    MissingAttribute,
    /// A corner names a position, texture coordinate or normal that does not
    /// exist.
    IndexOutOfRange,
    /// The mesh has more distinct vertices than 32-bit indices can name.
    TooManyVertices,
    /// A statement has fewer fields than it needs.
    MissingField,
    /// An index is not a number from one up.
    BadIndex,
    /// A smoothing group is neither a number nor `off`.
    BadSmoothingGroup,
}

/// A realtime mesh: every vertex carries all its attributes and is named by
/// a single 32-bit index.
#[derive(Debug)]
pub struct Mesh {
    /// The vertices, each as the attributes it is made of.
    pub corners: Vec<Corner>,
    /// The index list, three entries per triangle.
    pub faces: Vec<u32>,
    /// The same triangles, one entry each.
    pub feces: Vec<Face>,
}

/// Corner `i` of a face.
pub open spec fn face_corner(face: FaceView, i: int) -> Corner {
    Corner {
        position: face.vertices[i],
        tex_coord: face.tex_coord_indices[i],
        normal: face.normal_indices[i],
    }
}

/// What is wrong with a face, if anything, for a mesh with the given numbers
/// of positions, texture coordinates and normals.
pub open spec fn face_fault(
    face: FaceView,
    positions: usize,
    tex_coords: usize,
    normals: usize,
) -> Option<MeshFormatError> {
    if face.vertices.len() != 3 {
        Some(MeshFormatError::NonTriangularFace)
    } else if face.tex_coord_indices.len() < 3 || face.normal_indices.len() < 3 {
        Some(MeshFormatError::MissingAttribute)
    } else if exists|i: int|
        0 <= i < 3 && !corner_in_range(#[trigger] face_corner(face, i), positions, tex_coords, normals) {
        Some(MeshFormatError::IndexOutOfRange)
    } else {
        None
    }
}

/// All three attributes of the corner exist.
pub open spec fn corner_in_range(c: Corner, positions: usize, tex_coords: usize, normals: usize)
    -> bool {
    c.position < positions && c.tex_coord < tex_coords && c.normal < normals
}

/// The corners of all faces, face by face.
pub open spec fn corners_of(faces: Seq<FaceView>) -> Seq<Corner>
    decreases faces.len(),
{
    if faces.len() == 0 {
        Seq::empty()
    } else {
        corners_of(faces.drop_last()) + seq![
            face_corner(faces.last(), 0),
            face_corner(faces.last(), 1),
            face_corner(faces.last(), 2),
        ]
    }
}

/// The distinct corners among `keys`, each at the place of its first
/// occurrence.
pub open spec fn distinct_in_order(keys: Seq<Corner>) -> Seq<Corner>
    decreases keys.len(),
{
    if keys.len() == 0 {
        Seq::empty()
    } else {
        let earlier = distinct_in_order(keys.drop_last());
        if earlier.contains(keys.last()) {
            earlier
        } else {
            earlier.push(keys.last())
        }
    }
}

/// The first thing that is wrong with the first `n` faces, if anything: a
/// faulty face, or more distinct corners than indices.
pub open spec fn mesh_fault(
    faces: Seq<FaceView>,
    n: int,
    positions: usize,
    tex_coords: usize,
    normals: usize,
) -> Option<MeshFormatError>
    decreases n,
{
    if n <= 0 {
        None
    } else {
        match mesh_fault(faces, n - 1, positions, tex_coords, normals) {
            Some(e) => Some(e),
            None => match face_fault(faces[n - 1], positions, tex_coords, normals) {
                Some(e) => Some(e),
                None => if distinct_in_order(corners_of(faces.take(n))).len() > u32::MAX + 1 {
                    Some(MeshFormatError::TooManyVertices)
                } else {
                    None
                },
            },
        }
    }
}

impl Mesh {
    /// Every index names a vertex, and the two forms of the triangle list
    /// agree.
    pub open spec fn wf(self) -> bool {
        &&& self.faces@.len() == 3 * self.feces@.len()
        &&& forall|k: int| 0 <= k < self.faces@.len() ==> (#[trigger] self.faces@[k]) < self.corners@.len()
        &&& forall|f: int, i: int|
            0 <= f < self.feces@.len() && 0 <= i < 3 ==> (#[trigger] self.feces@[f].face_indices@[i])
                == self.faces@[3 * f + i]
    }

    /// The mesh is the realtime form of `keys`, the corners of some faces in
    /// order: its vertices are the distinct corners in order of first
    /// occurrence, and index `k` names the vertex equal to corner `k`.
    pub open spec fn indexes(self, keys: Seq<Corner>) -> bool {
        &&& self.wf()
        &&& self.corners@ == distinct_in_order(keys)
        &&& self.faces@.len() == keys.len()
        &&& forall|k: int| 0 <= k < keys.len() ==> self.corners@[(#[trigger] self.faces@[k]) as int] == keys[k]
    }

    /// A mesh without vertices or triangles.
    pub fn new() -> (mesh: Mesh)
        ensures
            mesh.corners@.len() == 0,
            mesh.faces@.len() == 0,
            mesh.feces@.len() == 0,
            mesh.wf(),
    {
        Mesh { corners: Vec::new(), faces: Vec::new(), feces: Vec::new() }
    }
}


/// `bucket` lists the vertex `c`.
pub open spec fn bucket_has(bucket: Seq<u32>, c: int) -> bool {
    exists|j: int| 0 <= j < bucket.len() && #[trigger] bucket[j] == c
}

/// `buckets` sorts the vertices by position: bucket `p` lists exactly the
/// vertices whose position is `p`.
pub open spec fn sorted_by_position(corners: Seq<Corner>, buckets: Seq<Vec<u32>>) -> bool {
    &&& forall|p: int, j: int|
        0 <= p < buckets.len() && 0 <= j < buckets[p]@.len() ==> (#[trigger] buckets[p]@[j])
            < corners.len() && corners[buckets[p]@[j] as int].position == p
    &&& forall|c: int|
        0 <= c < corners.len() ==> (#[trigger] corners[c]).position < buckets.len() && bucket_has(
            buckets[corners[c].position as int]@,
            c,
        )
}

/// Finds the vertex equal to `key`, or appends `key` as a new vertex, and
/// returns its index; `None` when a new vertex would need an index beyond
/// 32 bits.
fn intern(corners: &mut Vec<Corner>, buckets: &mut Vec<Vec<u32>>, key: Corner) -> (slot: Option<u32>)
    requires
        sorted_by_position(old(corners)@, old(buckets)@),
        key.position < old(buckets)@.len(),
    ensures
        sorted_by_position(final(corners)@, final(buckets)@),
        final(buckets)@.len() == old(buckets)@.len(),
        match slot {
            Some(s) => {
                &&& final(corners)@ == if old(corners)@.contains(key) {
                    old(corners)@
                } else {
                    old(corners)@.push(key)
                }
                &&& s < final(corners)@.len()
                &&& final(corners)@[s as int] == key
            },
            None => {
                &&& !old(corners)@.contains(key)
                &&& old(corners)@.len() > u32::MAX
                &&& final(corners)@ == old(corners)@
            },
        },
{
    let p = key.position;
    let n = buckets[p].len();
    let mut j: usize = 0;
    while j < n
        invariant
            j <= n,
            p == key.position,
            p < buckets@.len(),
            n == buckets@[p as int]@.len(),
            sorted_by_position(corners@, buckets@),
            corners@ == old(corners)@,
            buckets@ == old(buckets)@,
            forall|k: int| 0 <= k < j ==> corners@[(#[trigger] buckets@[p as int]@[k]) as int] != key,
        decreases n - j,
    {
        let c = buckets[p][j];
        let existing = corners[c as usize];
        if existing.tex_coord == key.tex_coord && existing.normal == key.normal {
            assert(existing == key);
            assert(corners@.contains(key));
            return Some(c);
        }
        j += 1;
    }
    assert(!corners@.contains(key)) by {
        if corners@.contains(key) {
            let c = choose|c: int| 0 <= c < corners@.len() && corners@[c] == key;
            assert(bucket_has(buckets@[corners@[c].position as int]@, c));
            let k = choose|k: int| 0 <= k < buckets@[p as int]@.len() && buckets@[p as int]@[k] == c;
            assert(corners@[buckets@[p as int]@[k] as int] != key);
        }
    }
    if corners.len() > u32::MAX as usize {
        return None;
    }
    let idx = corners.len() as u32;
    corners.push(key);
    let ghost before = buckets@;
    buckets[p].push(idx);
    proof {
        assert(buckets@.len() == before.len());
        assert(buckets@[p as int]@ == before[p as int]@.push(idx));
        assert forall|q: int, j: int|
            0 <= q < buckets@.len() && 0 <= j < buckets@[q]@.len() implies (#[trigger] buckets@[q]@[j])
            < corners@.len() && corners@[buckets@[q]@[j] as int].position == q by {
            if q == p {
                if j < before[q]@.len() {
                    assert(buckets@[q]@[j] == before[q]@[j]);
                }
            } else {
                assert(buckets@[q] == before[q]);
            }
        }
        assert forall|c: int| 0 <= c < corners@.len() implies (#[trigger] corners@[c]).position
            < buckets@.len() && bucket_has(buckets@[corners@[c].position as int]@, c) by {
            if c < idx {
                let q = old(corners)@[c].position as int;
                assert(corners@[c] == old(corners)@[c]);
                assert(bucket_has(before[q]@, c));
                let j = choose|j: int| 0 <= j < before[q]@.len() && before[q]@[j] == c;
                if q == p {
                    assert(buckets@[q]@[j] == c);
                } else {
                    assert(buckets@[q] == before[q]);
                    assert(buckets@[q]@[j] == c);
                }
            } else {
                assert(buckets@[p as int]@[before[p as int]@.len() as int] == idx);
            }
        }
    }
    Some(idx)
}


/// Once something is wrong with a prefix of the faces, the same thing is
/// wrong with every longer prefix.
pub proof fn lemma_mesh_fault_persists(
    faces: Seq<FaceView>,
    n: int,
    m: int,
    positions: usize,
    tex_coords: usize,
    normals: usize,
)
    requires
        0 <= n <= m,
        mesh_fault(faces, n, positions, tex_coords, normals) is Some,
    ensures
        mesh_fault(faces, m, positions, tex_coords, normals) == mesh_fault(
            faces,
            n,
            positions,
            tex_coords,
            normals,
        ),
    decreases m - n,
{
    if n < m {
        lemma_mesh_fault_persists(faces, n, m - 1, positions, tex_coords, normals);
    }
}

/// The distinct corners hold no corner twice, and hold exactly the corners
/// that occur.
pub proof fn lemma_distinct_in_order(keys: Seq<Corner>)
    ensures
        forall|a: int, b: int|
            0 <= a < b < distinct_in_order(keys).len() ==> distinct_in_order(keys)[a]
                != distinct_in_order(keys)[b],
        forall|c: Corner|
            #![trigger distinct_in_order(keys).contains(c)]
            #![trigger keys.contains(c)]
            distinct_in_order(keys).contains(c) <==> keys.contains(c),
        distinct_in_order(keys).len() <= keys.len(),
    decreases keys.len(),
{
    if keys.len() > 0 {
        let front = keys.drop_last();
        lemma_distinct_in_order(front);
        let earlier = distinct_in_order(front);
        let all = distinct_in_order(keys);
        assert forall|c: Corner|
            #![trigger all.contains(c)]
            #![trigger keys.contains(c)]
            all.contains(c) <==> keys.contains(c) by {
            if all.contains(c) {
                let i = choose|i: int| 0 <= i < all.len() && all[i] == c;
                if i < earlier.len() {
                    assert(earlier[i] == c);
                    assert(earlier.contains(c));
                    let k = choose|k: int| 0 <= k < front.len() && front[k] == c;
                    assert(keys[k] == c);
                } else {
                    assert(keys[keys.len() - 1] == c);
                }
            }
            if keys.contains(c) {
                let k = choose|k: int| 0 <= k < keys.len() && keys[k] == c;
                if k < front.len() {
                    assert(front[k] == c);
                    assert(earlier.contains(c));
                    let i = choose|i: int| 0 <= i < earlier.len() && earlier[i] == c;
                    assert(all[i] == c);
                } else if earlier.contains(c) {
                    let i = choose|i: int| 0 <= i < earlier.len() && earlier[i] == c;
                    assert(all[i] == c);
                } else {
                    assert(all[all.len() - 1] == c);
                }
            }
        }
        assert forall|a: int, b: int| 0 <= a < b < all.len() implies all[a] != all[b] by {
            if b == earlier.len() {
                assert(earlier[a] == all[a]);
                assert(earlier.contains(all[a]));
            }
        }
    } else {
        assert forall|c: Corner| !keys.contains(c) by {}
    }
}

impl Mesh {
    /// Builds the realtime mesh of `faces`, which index `positions`
    /// positions, `normals` normals and `texture_coords` texture coordinates.
    ///
    /// Corners that agree in all three indices become one vertex; vertices
    /// are numbered in the order in which the faces first mention them.
    ///
    /// A face that is no triangle, a corner without texture coordinate or
    /// normal, an index that names nothing, and a mesh with more vertices
    /// than 32-bit indices are rejected; the error is that of the first face
    /// at which something is wrong.
    pub fn create_realtime_mesh_from_loaded_data(
        faces: &Vec<MultiIndexingFace>,
        positions: usize,
        normals: usize,
        texture_coords: usize,
    ) -> (mesh: Result<Mesh, MeshFormatError>)
        ensures
            match mesh {
                Ok(m) => mesh_fault(
                    face_views(faces@),
                    faces@.len() as int,
                    positions,
                    texture_coords,
                    normals,
                ) is None && m.indexes(corners_of(face_views(faces@))),
                Err(e) => mesh_fault(
                    face_views(faces@),
                    faces@.len() as int,
                    positions,
                    texture_coords,
                    normals,
                ) == Some(e),
            },
    {
        let ghost views = face_views(faces@);
        let mut buckets: Vec<Vec<u32>> = Vec::new();
        let mut p: usize = 0;
        while p < positions
            invariant
                p <= positions,
                buckets@.len() == p,
                forall|q: int| 0 <= q < p ==> (#[trigger] buckets@[q])@.len() == 0,
            decreases positions - p,
        {
            buckets.push(Vec::new());
            p += 1;
        }
        let mut corners: Vec<Corner> = Vec::new();
        let mut out_faces: Vec<u32> = Vec::new();
        let mut feces: Vec<Face> = Vec::new();
        let ghost mut keys: Seq<Corner> = Seq::empty();
        assert(views.take(0) =~= Seq::<FaceView>::empty());
        let mut f: usize = 0;
        while f < faces.len()
            invariant
                f <= faces@.len(),
                views == face_views(faces@),
                mesh_fault(views, f as int, positions, texture_coords, normals) is None,
                keys == corners_of(views.take(f as int)),
                keys.len() == 3 * f,
                corners@ == distinct_in_order(keys),
                corners@.len() <= u32::MAX + 1,
                sorted_by_position(corners@, buckets@),
                buckets@.len() == positions,
                out_faces@.len() == keys.len(),
                forall|k: int|
                    0 <= k < keys.len() ==> (#[trigger] out_faces@[k]) < corners@.len()
                        && corners@[out_faces@[k] as int] == keys[k],
                feces@.len() == f,
                forall|g: int, i: int|
                    0 <= g < f && 0 <= i < 3 ==> (#[trigger] feces@[g].face_indices@[i])
                        == out_faces@[3 * g + i],
            decreases faces@.len() - f,
        {
            let face = &faces[f];
            proof {
                assert(views.take(f + 1).drop_last() =~= views.take(f as int));
                assert(views.take(f + 1).last() == views[f as int]);
                assert(views[f as int] == face@);
            }
            let ghost total = faces@.len() as int;
            if face.vertices.len() != 3 {
                proof {
                    lemma_mesh_fault_persists(views, f + 1, total, positions, texture_coords, normals);
                }
                return Err(MeshFormatError::NonTriangularFace);
            }
            if face.tex_coord_indices.len() < 3 || face.normal_indices.len() < 3 {
                proof {
                    lemma_mesh_fault_persists(views, f + 1, total, positions, texture_coords, normals);
                }
                return Err(MeshFormatError::MissingAttribute);
            }
            let c0 = Corner {
                position: face.vertices[0],
                tex_coord: face.tex_coord_indices[0],
                normal: face.normal_indices[0],
            };
            let c1 = Corner {
                position: face.vertices[1],
                tex_coord: face.tex_coord_indices[1],
                normal: face.normal_indices[1],
            };
            let c2 = Corner {
                position: face.vertices[2],
                tex_coord: face.tex_coord_indices[2],
                normal: face.normal_indices[2],
            };
            proof {
                assert(c0 == face_corner(face@, 0));
                assert(c1 == face_corner(face@, 1));
                assert(c2 == face_corner(face@, 2));
            }
            if !(in_range(&c0, positions, texture_coords, normals) && in_range(
                &c1,
                positions,
                texture_coords,
                normals,
            ) && in_range(&c2, positions, texture_coords, normals)) {
                proof {
                    lemma_mesh_fault_persists(views, f + 1, total, positions, texture_coords, normals);
                }
                return Err(MeshFormatError::IndexOutOfRange);
            }
            proof {
                assert forall|i: int| 0 <= i < 3 implies corner_in_range(
                    #[trigger] face_corner(face@, i),
                    positions,
                    texture_coords,
                    normals,
                ) by {
                    if i == 0 {
                    } else if i == 1 {
                    } else {
                    }
                }
                assert(face_fault(face@, positions, texture_coords, normals) is None);
            }
            let ghost keys0 = keys;
            let ghost keys1 = keys0.push(c0);
            let ghost keys2 = keys1.push(c1);
            let ghost keys3 = keys2.push(c2);
            proof {
                assert(keys1.drop_last() =~= keys0);
                assert(keys2.drop_last() =~= keys1);
                assert(keys3.drop_last() =~= keys2);
                assert(keys3 =~= keys0 + seq![c0, c1, c2]);
                assert(keys3 == corners_of(views.take(f + 1)));
            }
            proof {
                assert(distinct_in_order(keys1).len() <= distinct_in_order(keys2).len()
                    <= distinct_in_order(keys3).len());
            }
            let i0 = match intern(&mut corners, &mut buckets, c0) {
                Some(i) => i,
                None => {
                    proof {
                        assert(distinct_in_order(keys1).len() > u32::MAX + 1);
                        lemma_mesh_fault_persists(
                            views,
                            f + 1,
                            total,
                            positions,
                            texture_coords,
                            normals,
                        );
                    }
                    return Err(MeshFormatError::TooManyVertices);
                },
            };
            assert(corners@ == distinct_in_order(keys1));
            let i1 = match intern(&mut corners, &mut buckets, c1) {
                Some(i) => i,
                None => {
                    proof {
                        assert(distinct_in_order(keys2).len() > u32::MAX + 1);
                        lemma_mesh_fault_persists(
                            views,
                            f + 1,
                            total,
                            positions,
                            texture_coords,
                            normals,
                        );
                    }
                    return Err(MeshFormatError::TooManyVertices);
                },
            };
            assert(corners@ == distinct_in_order(keys2));
            let i2 = match intern(&mut corners, &mut buckets, c2) {
                Some(i) => i,
                None => {
                    proof {
                        assert(distinct_in_order(keys3).len() > u32::MAX + 1);
                        lemma_mesh_fault_persists(
                            views,
                            f + 1,
                            total,
                            positions,
                            texture_coords,
                            normals,
                        );
                    }
                    return Err(MeshFormatError::TooManyVertices);
                },
            };
            assert(corners@ == distinct_in_order(keys3));
            out_faces.push(i0);
            out_faces.push(i1);
            out_faces.push(i2);
            feces.push(Face { face_indices: [i0, i1, i2] });
            proof {
                keys = keys3;
                assert(corners@ == distinct_in_order(keys3));
                assert forall|g: int, i: int| 0 <= g < f + 1 && 0 <= i < 3 implies (
                #[trigger] feces@[g].face_indices@[i]) == out_faces@[3 * g + i] by {
                    if g == f {
                        if i == 0 {
                        } else if i == 1 {
                        } else {
                        }
                    }
                }
            }
            f += 1;
        }
        proof {
            assert(views.take(f as int) =~= views);
        }
        Ok(Mesh { corners, faces: out_faces, feces })
    }
}

/// Executable form of [`corner_in_range`].
fn in_range(c: &Corner, positions: usize, tex_coords: usize, normals: usize) -> (ok: bool)
    ensures
        ok == corner_in_range(*c, positions, tex_coords, normals),
{
    c.position < positions && c.tex_coord < tex_coords && c.normal < normals
}


/// The number four bytes from `at` on write, least significant byte first
/// if `little_endian`, most significant byte first otherwise.
pub open spec fn u32_at(bytes: Seq<u8>, at: int, little_endian: bool) -> int {
    if little_endian {
        bytes[at] + bytes[at + 1] * 0x100 + bytes[at + 2] * 0x1_0000 + bytes[at + 3] * 0x100_0000
    } else {
        bytes[at] * 0x100_0000 + bytes[at + 1] * 0x1_0000 + bytes[at + 2] * 0x100 + bytes[at + 3]
    }
}

/// `bytes` writes `indices` one after the other, four bytes each, all in the
/// same byte order.
pub open spec fn writes_indices(bytes: Seq<u8>, indices: Seq<u32>, little_endian: bool) -> bool {
    &&& bytes.len() == 4 * indices.len()
    &&& forall|i: int|
        0 <= i < indices.len() ==> u32_at(bytes, 4 * i, little_endian) == #[trigger] indices[i]
}

/// Calls `bytemuck::cast_slice` from 32-bit numbers to bytes. A cast to
/// bytes cannot fail. It shows the numbers as they lie in memory: four
/// bytes each, in the byte order of the machine, which is one of the two.
#[verifier::external_body]
fn cast_slice(indices: &[u32]) -> (bytes: &[u8])
    ensures
        writes_indices(bytes@, indices@, true) || writes_indices(bytes@, indices@, false),
{
    bytemuck::cast_slice(indices)
}

impl Mesh {
    /// The index list as the bytes of an index buffer: four bytes per index,
    /// in the byte order of the machine.
    pub fn index_bytes(&self) -> (bytes: &[u8])
        ensures
            writes_indices(bytes@, self.faces@, true) || writes_indices(bytes@, self.faces@, false),
    {
        cast_slice(self.faces.as_slice())
    }
}

} // verus!
