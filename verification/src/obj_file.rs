//! Reading a mesh file: statements, faces and the objects they make up.

use crate::obj_parser::{
    corners_of, face_views, mesh_fault, FaceView, Mesh, MeshFormatError, MultiIndexingFace,
};
use crate::obj_text::{
    fields, is_field_in, is_word_in, lemma_line_end, line_end, number_at, parse_number,
    split_fields, split_words, token_is, words, Span,
};
use vstd::prelude::*;

verus! {

/// A position or a normal as the file writes it: three numbers.
#[derive(Clone, Copy, Debug, PartialEq, Eq, Structural)]
pub struct VertexLine {
    pub x: Span,
    pub y: Span,
    pub z: Span,
}

/// A texture coordinate as the file writes it: two numbers.
#[derive(Clone, Copy, Debug, PartialEq, Eq, Structural)]
pub struct TexCoordLine {
    pub u: Span,
    pub v: Span,
}

/// An object of a mesh file: its name, if it has one, and its mesh.
#[derive(Debug)]
pub struct ObjObject {
    pub name: Option<Span>,
    pub mesh: Mesh,
}

/// A mesh file, read: the attribute lists all objects share, each attribute
/// as the stretches of text that write its numbers, and the objects.
#[derive(Debug)]
pub struct ObjFile {
    pub positions: Vec<VertexLine>,
    pub normals: Vec<VertexLine>,
    pub tex_coords: Vec<TexCoordLine>,
    pub objects: Vec<ObjObject>,
}

/// The word `o`, which starts an object.
pub open spec fn word_object() -> Seq<u8> {
    seq![111u8]
}

/// The word `v`, which states a position.
pub open spec fn word_position() -> Seq<u8> {
    seq![118u8]
}

/// The word `vn`, which states a normal.
pub open spec fn word_normal() -> Seq<u8> {
    seq![118u8, 110u8]
}

/// The word `vt`, which states a texture coordinate.
pub open spec fn word_tex_coord() -> Seq<u8> {
    seq![118u8, 116u8]
}

/// The word `f`, which states a face.
pub open spec fn word_face() -> Seq<u8> {
    seq![102u8]
}

/// The word `s`, which sets the smoothing group.
pub open spec fn word_smoothing() -> Seq<u8> {
    seq![115u8]
}

/// The word `off`, which ends smoothing.
pub open spec fn word_off() -> Seq<u8> {
    seq![111u8, 102u8, 102u8]
}

/// The index a field writes, counted from zero, if it writes a number from
/// one up.
pub open spec fn index_at(text: Seq<u8>, field: Span) -> Option<usize> {
    match number_at(text, field, usize::MAX as u64) {
        Some(n) => if n >= 1 {
            Some((n - 1) as usize)
        } else {
            None
        },
        None => None,
    }
}

/// A field that may be left out holds something.
pub open spec fn is_given(all: Seq<Span>, k: int) -> bool {
    k < all.len() && all[k].start < all[k].end
}

/// The indices a corner of a face writes: a position, and where given a
/// texture coordinate and a normal, separated by slashes.
pub open spec fn corner_at(text: Seq<u8>, word: Span) -> Result<
    (usize, Option<usize>, Option<usize>),
    MeshFormatError,
> {
    let all = fields(text, word);
    match index_at(text, all[0]) {
        None => Err(MeshFormatError::BadIndex),
        Some(v) => if is_given(all, 1) && index_at(text, all[1]) is None {
            Err(MeshFormatError::BadIndex)
        } else if is_given(all, 2) && index_at(text, all[2]) is None {
            Err(MeshFormatError::BadIndex)
        } else {
            Ok(
                (
                    v,
                    if is_given(all, 1) {
                        index_at(text, all[1])
                    } else {
                        None
                    },
                    if is_given(all, 2) {
                        index_at(text, all[2])
                    } else {
                        None
                    },
                ),
            )
        },
    }
}

/// A face without corners.
pub open spec fn empty_face(smoothing: Option<u32>) -> FaceView {
    FaceView {
        vertices: Seq::empty(),
        normal_indices: Seq::empty(),
        tex_coord_indices: Seq::empty(),
        smoothing_group: smoothing,
    }
}

/// The face with one more corner.
pub open spec fn with_corner(face: FaceView, corner: (usize, Option<usize>, Option<usize>))
    -> FaceView {
    FaceView {
        vertices: face.vertices.push(corner.0),
        tex_coord_indices: match corner.1 {
            Some(t) => face.tex_coord_indices.push(t),
            None => face.tex_coord_indices,
        },
        normal_indices: match corner.2 {
            Some(n) => face.normal_indices.push(n),
            None => face.normal_indices,
        },
        smoothing_group: face.smoothing_group,
    }
}

/// The face a statement writes with its words 1 to `n - 1`, one corner per
/// word; the error is that of the first word that writes no corner.
pub open spec fn face_from(text: Seq<u8>, line: Seq<Span>, n: int, smoothing: Option<u32>)
    -> Result<FaceView, MeshFormatError>
    decreases n,
{
    if n <= 1 {
        Ok(empty_face(smoothing))
    } else {
        match face_from(text, line, n - 1, smoothing) {
            Err(e) => Err(e),
            Ok(face) => match corner_at(text, line[n - 1]) {
                Err(e) => Err(e),
                Ok(corner) => Ok(with_corner(face, corner)),
            },
        }
    }
}

/// An object that is closed: its name, its faces, and how many positions,
/// texture coordinates and normals the file had stated by then.
pub struct GroupModel {
    pub name: Option<Span>,
    pub faces: Seq<FaceView>,
    pub positions: usize,
    pub tex_coords: usize,
    pub normals: usize,
}

/// What has been read of a mesh file.
pub struct ObjModel {
    pub positions: Seq<VertexLine>,
    pub normals: Seq<VertexLine>,
    pub tex_coords: Seq<TexCoordLine>,
    /// The faces of the object that is being read.
    pub faces: Seq<FaceView>,
    pub smoothing: Option<u32>,
    pub name: Option<Span>,
    /// The objects that are closed.
    pub groups: Seq<GroupModel>,
}

impl ObjModel {
    /// Nothing read yet.
    pub open spec fn empty() -> ObjModel {
        ObjModel {
            positions: Seq::empty(),
            normals: Seq::empty(),
            tex_coords: Seq::empty(),
            faces: Seq::empty(),
            smoothing: None,
            name: None,
            groups: Seq::empty(),
        }
    }

    /// What is wrong with the object that is being read, if anything.
    pub open spec fn fault(self) -> Option<MeshFormatError> {
        mesh_fault(
            self.faces,
            self.faces.len() as int,
            self.positions.len() as usize,
            self.tex_coords.len() as usize,
            self.normals.len() as usize,
        )
    }

    /// The object that is being read, closed: its faces become a mesh over
    /// the attributes stated so far, and the next object starts without
    /// faces and without smoothing.
    pub open spec fn closed(self) -> Result<ObjModel, MeshFormatError> {
        match self.fault() {
            Some(e) => Err(e),
            None => Ok(
                ObjModel {
                    groups: self.groups.push(
                        GroupModel {
                            name: self.name,
                            faces: self.faces,
                            positions: self.positions.len() as usize,
                            tex_coords: self.tex_coords.len() as usize,
                            normals: self.normals.len() as usize,
                        },
                    ),
                    faces: Seq::empty(),
                    smoothing: None,
                    ..self
                },
            ),
        }
    }

    /// What one line adds, given the words of the line.
    ///
    /// `o` closes the object that is being read, unless no position has been
    /// stated yet, and names the next; `v`, `vn` and `vt` state a position,
    /// a normal and a texture coordinate; `f` states a face; `s` sets the
    /// smoothing group of the faces that follow. Other lines add nothing.
    /// Words beyond those a statement needs are not looked at.
    pub open spec fn apply(self, text: Seq<u8>, line: Seq<Span>) -> Result<
        ObjModel,
        MeshFormatError,
    > {
        if line.len() == 0 {
            Ok(self)
        } else if line[0].of(text) == word_object() {
            match (if self.positions.len() > 0 {
                self.closed()
            } else {
                Ok(self)
            }) {
                Err(e) => Err(e),
                Ok(model) => if line.len() < 2 {
                    Err(MeshFormatError::MissingField)
                } else {
                    Ok(ObjModel { name: Some(line[1]), ..model })
                },
            }
        } else if line[0].of(text) == word_position() {
            if line.len() < 4 {
                Err(MeshFormatError::MissingField)
            } else {
                Ok(
                    ObjModel {
                        positions: self.positions.push(
                            VertexLine { x: line[1], y: line[2], z: line[3] },
                        ),
                        ..self
                    },
                )
            }
        } else if line[0].of(text) == word_normal() {
            if line.len() < 4 {
                Err(MeshFormatError::MissingField)
            } else {
                Ok(
                    ObjModel {
                        normals: self.normals.push(
                            VertexLine { x: line[1], y: line[2], z: line[3] },
                        ),
                        ..self
                    },
                )
            }
        } else if line[0].of(text) == word_tex_coord() {
            if line.len() < 3 {
                Err(MeshFormatError::MissingField)
            } else {
                Ok(
                    ObjModel {
                        tex_coords: self.tex_coords.push(TexCoordLine { u: line[1], v: line[2] }),
                        ..self
                    },
                )
            }
        } else if line[0].of(text) == word_face() {
            match face_from(text, line, line.len() as int, self.smoothing) {
                Err(e) => Err(e),
                Ok(face) => Ok(ObjModel { faces: self.faces.push(face), ..self }),
            }
        } else if line[0].of(text) == word_smoothing() {
            if line.len() < 2 {
                Err(MeshFormatError::MissingField)
            } else if line[1].of(text) == word_off() {
                Ok(ObjModel { smoothing: None, ..self })
            } else {
                match number_at(text, line[1], u32::MAX as u64) {
                    Some(n) => Ok(ObjModel { smoothing: Some(n as u32), ..self }),
                    None => Err(MeshFormatError::BadSmoothingGroup),
                }
            }
        } else {
            Ok(self)
        }
    }
}

/// What has been read once the lines from position `i` on are added to
/// `model`, one after the other.
pub open spec fn parsed_from(text: Seq<u8>, i: int, model: ObjModel) -> Result<
    ObjModel,
    MeshFormatError,
>
    decreases text.len() - i,
{
    if i < 0 || i >= text.len() {
        Ok(model)
    } else {
        let end = line_end(text, i);
        match model.apply(text, words(text, i, end)) {
            Err(e) => Err(e),
            Ok(next) => if end >= text.len() {
                Ok(next)
            } else {
                proof {
                    lemma_line_end(text, i);
                }
                parsed_from(text, end + 1, next)
            },
        }
    }
}

/// What a mesh file says: all its lines read in order, and the last object
/// closed.
pub open spec fn parsed(text: Seq<u8>) -> Result<ObjModel, MeshFormatError> {
    match parsed_from(text, 0, ObjModel::empty()) {
        Err(e) => Err(e),
        Ok(model) => model.closed(),
    }
}


/// Once a word writes no corner, the face has that error however many
/// words follow.
pub proof fn lemma_face_error_persists(
    text: Seq<u8>,
    line: Seq<Span>,
    n: int,
    m: int,
    smoothing: Option<u32>,
)
    requires
        n <= m,
        face_from(text, line, n, smoothing) is Err,
    ensures
        face_from(text, line, m, smoothing) == face_from(text, line, n, smoothing),
    decreases m - n,
{
    if n < m {
        lemma_face_error_persists(text, line, n, m - 1, smoothing);
    }
}

/// The object is the closed object `group`: it has its name, and its mesh
/// is the realtime mesh of its faces.
pub open spec fn object_is(object: ObjObject, group: GroupModel) -> bool {
    &&& object.name == group.name
    &&& mesh_fault(
        group.faces,
        group.faces.len() as int,
        group.positions,
        group.tex_coords,
        group.normals,
    ) is None
    &&& object.mesh.indexes(corners_of(group.faces))
}

impl ObjFile {
    /// The file is what was read according to `model`.
    pub open spec fn is_reading_of(self, model: ObjModel) -> bool {
        &&& self.positions@ == model.positions
        &&& self.normals@ == model.normals
        &&& self.tex_coords@ == model.tex_coords
        &&& self.objects@.len() == model.groups.len()
        &&& forall|i: int|
            0 <= i < model.groups.len() ==> object_is(#[trigger] self.objects@[i], model.groups[i])
    }

    /// Every stretch of text the file refers to lies within a text of `len`
    /// bytes.
    pub open spec fn spans_within(self, len: int) -> bool {
        &&& forall|i: int|
            0 <= i < self.positions@.len() ==> {
                let p = #[trigger] self.positions@[i];
                p.x.within(len) && p.y.within(len) && p.z.within(len)
            }
        &&& forall|i: int|
            0 <= i < self.normals@.len() ==> {
                let n = #[trigger] self.normals@[i];
                n.x.within(len) && n.y.within(len) && n.z.within(len)
            }
        &&& forall|i: int|
            0 <= i < self.tex_coords@.len() ==> {
                let t = #[trigger] self.tex_coords@[i];
                t.u.within(len) && t.v.within(len)
            }
        &&& forall|i: int|
            0 <= i < self.objects@.len() ==> ((#[trigger] self.objects@[i]).name matches Some(n)
                ==> n.within(len))
    }
}

/// Reads the index a field writes.
fn parse_index(text: &[u8], field: Span) -> (index: Option<usize>)
    requires
        field.within(text@.len() as int),
    ensures
        index == index_at(text@, field),
{
    match parse_number(text, field, usize::MAX as u64) {
        Some(n) => if n >= 1 {
            Some((n - 1) as usize)
        } else {
            None
        },
        None => None,
    }
}

/// Reads the indices a corner of a face writes.
fn parse_corner(text: &[u8], word: Span) -> (corner: Result<
    (usize, Option<usize>, Option<usize>),
    MeshFormatError,
>)
    requires
        word.within(text@.len() as int),
    ensures
        corner == corner_at(text@, word),
{
    let all = split_fields(text, word);
    assert(is_field_in(all@[0], word.start as int, word.end as int));
    let v = match parse_index(text, all[0]) {
        Some(v) => v,
        None => {
            return Err(MeshFormatError::BadIndex);
        },
    };
    let mut t: Option<usize> = None;
    if all.len() > 1 && all[1].start < all[1].end {
        assert(is_field_in(all@[1], word.start as int, word.end as int));
        match parse_index(text, all[1]) {
            Some(x) => {
                t = Some(x);
            },
            None => {
                return Err(MeshFormatError::BadIndex);
            },
        }
    }
    let mut n: Option<usize> = None;
    if all.len() > 2 && all[2].start < all[2].end {
        assert(is_field_in(all@[2], word.start as int, word.end as int));
        match parse_index(text, all[2]) {
            Some(x) => {
                n = Some(x);
            },
            None => {
                return Err(MeshFormatError::BadIndex);
            },
        }
    }
    Ok((v, t, n))
}

/// Every word of the line lies within a text of `len` bytes.
pub open spec fn line_within(line: Seq<Span>, len: int) -> bool {
    forall|k: int| 0 <= k < line.len() ==> (#[trigger] line[k]).within(len)
}

/// Reads the face a statement writes.
fn parse_face(text: &[u8], line: &Vec<Span>, smoothing: Option<u32>) -> (face: Result<
    MultiIndexingFace,
    MeshFormatError,
>)
    requires
        line@.len() >= 1,
        line_within(line@, text@.len() as int),
    ensures
        match face {
            Ok(f) => face_from(text@, line@, line@.len() as int, smoothing) == Ok::<
                FaceView,
                MeshFormatError,
            >(f@),
            Err(e) => face_from(text@, line@, line@.len() as int, smoothing) == Err::<
                FaceView,
                MeshFormatError,
            >(e),
        },
{
    let mut vertices: Vec<usize> = Vec::new();
    let mut normal_indices: Vec<usize> = Vec::new();
    let mut tex_coord_indices: Vec<usize> = Vec::new();
    let ghost mut so_far = empty_face(smoothing);
    let mut k: usize = 1;
    while k < line.len()
        invariant
            1 <= k <= line@.len(),
            line_within(line@, text@.len() as int),
            face_from(text@, line@, k as int, smoothing) == Ok::<FaceView, MeshFormatError>(so_far),
            so_far.vertices == vertices@,
            so_far.normal_indices == normal_indices@,
            so_far.tex_coord_indices == tex_coord_indices@,
            so_far.smoothing_group == smoothing,
        decreases line@.len() - k,
    {
        assert(line@[k as int].within(text@.len() as int));
        match parse_corner(text, line[k]) {
            Err(e) => {
                proof {
                    lemma_face_error_persists(text@, line@, k + 1, line@.len() as int, smoothing);
                }
                return Err(e);
            },
            Ok((v, t, n)) => {
                vertices.push(v);
                if let Some(t) = t {
                    tex_coord_indices.push(t);
                }
                if let Some(n) = n {
                    normal_indices.push(n);
                }
                proof {
                    so_far = with_corner(so_far, (v, t, n));
                }
            },
        }
        k += 1;
    }
    let face = MultiIndexingFace {
        vertices,
        normal_indices,
        tex_coord_indices,
        smoothing_group: smoothing,
    };
    assert(face@ == so_far);
    Ok(face)
}

/// Finds the end of the line that contains position `i`.
fn find_line_end(text: &[u8], i: usize) -> (end: usize)
    requires
        i <= text@.len(),
    ensures
        end == line_end(text@, i as int),
        i <= end <= text@.len(),
{
    let mut end: usize = i;
    while end < text.len() && text[end] != 10
        invariant
            i <= end <= text@.len(),
            line_end(text@, i as int) == line_end(text@, end as int),
        decreases text@.len() - end,
    {
        end += 1;
    }
    end
}

/// A mesh file while it is being read.
struct Reader {
    file: ObjFile,
    faces: Vec<MultiIndexingFace>,
    smoothing: Option<u32>,
    name: Option<Span>,
}

impl Reader {
    /// The reader has read what `model` says, of a text of `len` bytes.
    spec fn models(self, model: ObjModel, len: int) -> bool {
        &&& self.file.is_reading_of(model)
        &&& self.file.spans_within(len)
        &&& face_views(self.faces@) == model.faces
        &&& self.smoothing == model.smoothing
        &&& self.name == model.name
        &&& (self.name matches Some(n) ==> n.within(len))
    }

    /// Closes the object that is being read.
    fn close(&mut self, Ghost(model): Ghost<ObjModel>, Ghost(len): Ghost<int>) -> (done: Result<
        (),
        MeshFormatError,
    >)
        requires
            old(self).models(model, len),
        ensures
            match done {
                Ok(()) => model.closed() is Ok && final(self).models(model.closed().unwrap(), len),
                Err(e) => model.closed() == Err::<ObjModel, MeshFormatError>(e),
            },
    {
        let mesh = match Mesh::create_realtime_mesh_from_loaded_data(
            &self.faces,
            self.file.positions.len(),
            self.file.normals.len(),
            self.file.tex_coords.len(),
        ) {
            Ok(mesh) => mesh,
            Err(e) => {
                return Err(e);
            },
        };
        self.file.objects.push(ObjObject { name: self.name, mesh });
        self.faces = Vec::new();
        self.smoothing = None;
        proof {
            let next = model.closed().unwrap();
            assert(face_views(self.faces@) =~= next.faces);
            assert forall|i: int| 0 <= i < next.groups.len() implies object_is(
                #[trigger] self.file.objects@[i],
                next.groups[i],
            ) by {
                if i < model.groups.len() {
                    assert(self.file.objects@[i] == old(self).file.objects@[i]);
                    assert(next.groups[i] == model.groups[i]);
                }
            }
            assert forall|i: int| 0 <= i < self.file.objects@.len() implies ((
            #[trigger] self.file.objects@[i]).name matches Some(n) ==> n.within(len)) by {
                if i < old(self).file.objects@.len() {
                    assert(self.file.objects@[i] == old(self).file.objects@[i]);
                }
            }
        }
        Ok(())
    }

    /// Adds what one line says, given its words.
    fn apply(
        &mut self,
        text: &[u8],
        line: &Vec<Span>,
        Ghost(model): Ghost<ObjModel>,
    ) -> (done: Result<(), MeshFormatError>)
        requires
            old(self).models(model, text@.len() as int),
            line_within(line@, text@.len() as int),
        ensures
            match done {
                Ok(()) => model.apply(text@, line@) is Ok && final(self).models(
                    model.apply(text@, line@).unwrap(),
                    text@.len() as int,
                ),
                Err(e) => model.apply(text@, line@) == Err::<ObjModel, MeshFormatError>(e),
            },
    {
        let ghost len = text@.len() as int;
        if line.len() == 0 {
            return Ok(());
        }
        let key = line[0];
        assert(line@[0].within(len));
        let o = [111u8];
        let v = [118u8];
        let vn = [118u8, 110u8];
        let vt = [118u8, 116u8];
        let f = [102u8];
        let s = [115u8];
        let off = [111u8, 102u8, 102u8];
        proof {
            assert(o@ =~= word_object());
            assert(v@ =~= word_position());
            assert(vn@ =~= word_normal());
            assert(vt@ =~= word_tex_coord());
            assert(f@ =~= word_face());
            assert(s@ =~= word_smoothing());
            assert(off@ =~= word_off());
        }
        if token_is(text, key, o.as_slice()) {
            if self.file.positions.len() > 0 {
                match self.close(Ghost(model), Ghost(len)) {
                    Ok(()) => {},
                    Err(e) => {
                        return Err(e);
                    },
                }
            }
            if line.len() < 2 {
                return Err(MeshFormatError::MissingField);
            }
            assert(line@[1].within(len));
            self.name = Some(line[1]);
            Ok(())
        } else if token_is(text, key, v.as_slice()) {
            if line.len() < 4 {
                return Err(MeshFormatError::MissingField);
            }
            assert(line@[1].within(len) && line@[2].within(len) && line@[3].within(len));
            self.file.positions.push(VertexLine { x: line[1], y: line[2], z: line[3] });
            proof {
                assert forall|i: int| 0 <= i < self.file.positions@.len() implies {
                    let p = #[trigger] self.file.positions@[i];
                    p.x.within(len) && p.y.within(len) && p.z.within(len)
                } by {
                    if i < old(self).file.positions@.len() {
                        assert(self.file.positions@[i] == old(self).file.positions@[i]);
                    }
                }
            }
            Ok(())
        } else if token_is(text, key, vn.as_slice()) {
            if line.len() < 4 {
                return Err(MeshFormatError::MissingField);
            }
            assert(line@[1].within(len) && line@[2].within(len) && line@[3].within(len));
            self.file.normals.push(VertexLine { x: line[1], y: line[2], z: line[3] });
            proof {
                assert forall|i: int| 0 <= i < self.file.normals@.len() implies {
                    let n = #[trigger] self.file.normals@[i];
                    n.x.within(len) && n.y.within(len) && n.z.within(len)
                } by {
                    if i < old(self).file.normals@.len() {
                        assert(self.file.normals@[i] == old(self).file.normals@[i]);
                    }
                }
            }
            Ok(())
        } else if token_is(text, key, vt.as_slice()) {
            if line.len() < 3 {
                return Err(MeshFormatError::MissingField);
            }
            assert(line@[1].within(len) && line@[2].within(len));
            self.file.tex_coords.push(TexCoordLine { u: line[1], v: line[2] });
            proof {
                assert forall|i: int| 0 <= i < self.file.tex_coords@.len() implies {
                    let t = #[trigger] self.file.tex_coords@[i];
                    t.u.within(len) && t.v.within(len)
                } by {
                    if i < old(self).file.tex_coords@.len() {
                        assert(self.file.tex_coords@[i] == old(self).file.tex_coords@[i]);
                    }
                }
            }
            Ok(())
        } else if token_is(text, key, f.as_slice()) {
            match parse_face(text, line, self.smoothing) {
                Err(e) => Err(e),
                Ok(face) => {
                    let ghost seen = face@;
                    self.faces.push(face);
                    proof {
                        assert(face_views(self.faces@) =~= model.faces.push(seen));
                    }
                    Ok(())
                },
            }
        } else if token_is(text, key, s.as_slice()) {
            if line.len() < 2 {
                return Err(MeshFormatError::MissingField);
            }
            assert(line@[1].within(len));
            if token_is(text, line[1], off.as_slice()) {
                self.smoothing = None;
                Ok(())
            } else {
                match parse_number(text, line[1], u32::MAX as u64) {
                    Some(n) => {
                        self.smoothing = Some(n as u32);
                        Ok(())
                    },
                    None => Err(MeshFormatError::BadSmoothingGroup),
                }
            }
        } else {
            Ok(())
        }
    }
}

impl Mesh {
    /// Reads the text of a mesh file.
    ///
    /// The result holds the attributes as stretches of `text` and one mesh
    /// per object; what the text says, and which texts are rejected with
    /// which error, is told by [`parsed`].
    pub fn parse(text: &[u8]) -> (file: Result<ObjFile, MeshFormatError>)
        ensures
            match file {
                Ok(f) => parsed(text@) is Ok && f.is_reading_of(parsed(text@).unwrap())
                    && f.spans_within(text@.len() as int),
                Err(e) => parsed(text@) == Err::<ObjModel, MeshFormatError>(e),
            },
    {
        let mut reader = Reader {
            file: ObjFile {
                positions: Vec::new(),
                normals: Vec::new(),
                tex_coords: Vec::new(),
                objects: Vec::new(),
            },
            faces: Vec::new(),
            smoothing: None,
            name: None,
        };
        let ghost mut model = ObjModel::empty();
        let ghost len = text@.len() as int;
        assert(face_views(reader.faces@) =~= model.faces);
        let mut i: usize = 0;
        while i < text.len()
            invariant
                i <= text@.len(),
                len == text@.len(),
                reader.models(model, len),
                parsed_from(text@, 0, ObjModel::empty()) == parsed_from(text@, i as int, model),
            decreases text@.len() - i,
        {
            let end = find_line_end(text, i);
            let line = split_words(text, i, end);
            proof {
                assert forall|k: int| 0 <= k < line@.len() implies (#[trigger] line@[k]).within(len) by {
                    assert(is_word_in(line@[k], i as int, end as int));
                }
            }
            match reader.apply(text, &line, Ghost(model)) {
                Err(e) => {
                    return Err(e);
                },
                Ok(()) => {
                    proof {
                        model = model.apply(text@, line@).unwrap();
                    }
                },
            }
            if end >= text.len() {
                i = text.len();
            } else {
                i = end + 1;
            }
        }
        match reader.close(Ghost(model), Ghost(len)) {
            Err(e) => Err(e),
            Ok(()) => Ok(reader.file),
        }
    }
}


/// The object goes by `name` in `text`: its name lies within the text and
/// reads `name`, or it was never named and `name` is empty.
pub open spec fn is_called(object: ObjObject, text: Seq<u8>, name: Seq<u8>) -> bool {
    match object.name {
        Some(n) => n.within(text.len() as int) && n.of(text) == name,
        None => name.len() == 0,
    }
}

impl ObjFile {
    /// Finds the object called `name`. Where several objects share the name,
    /// the last one stands for all of them.
    ///
    /// `text` is the text the file was read from.
    pub fn find(&self, text: &[u8], name: &[u8]) -> (found: Option<usize>)
        ensures
            match found {
                Some(i) => {
                    &&& i < self.objects@.len()
                    &&& is_called(self.objects@[i as int], text@, name@)
                    &&& forall|j: int|
                        i < j < self.objects@.len() ==> !is_called(
                            #[trigger] self.objects@[j],
                            text@,
                            name@,
                        )
                },
                None => forall|j: int|
                    0 <= j < self.objects@.len() ==> !is_called(
                        #[trigger] self.objects@[j],
                        text@,
                        name@,
                    ),
            },
    {
        let mut i: usize = self.objects.len();
        while i > 0
            invariant
                i <= self.objects@.len(),
                forall|j: int|
                    i <= j < self.objects@.len() ==> !is_called(
                        #[trigger] self.objects@[j],
                        text@,
                        name@,
                    ),
            decreases i,
        {
            i -= 1;
            let same = match self.objects[i].name {
                Some(n) => token_is(text, n, name),
                None => name.len() == 0,
            };
            if same {
                return Some(i);
            }
        }
        None
    }
}

} // verus!
