//! Collision accelerators kept in files of their own, so that a shape that
//! was loaded once need not have them computed again.

use super::io::{
    i32_bytes, le_i32, le_u32, lemma_read_back, lemma_read_back_signed, read_array, read_signed,
    read_val, u32_bytes, write_array, write_signed, write_val, ByteStream, IoError,
};
use crate::interop::fn_ptr::FnPtr;
use crate::interop::original_fn::OriginalFn;
use crate::interop::platform::{address_for, Platform};
use crate::plugin::{
    interception_failed, interception_repeated, lemma_two_steps, InterceptState, Plugin,
};
use crate::ts::shape::{
    rows_view, tge_compute_accelerator, ConvexHullAccelerator, ConvexHullAcceleratorView,
};
use vstd::prelude::*;
use vstd::slice::slice_subrange;

verus! {

/// The first four bytes of an accelerator file: `CHA!`.
pub const CHA_MAGIC: [u8; 4] = [0x43, 0x48, 0x41, 0x21];

/// The version of the file format.
pub const CHA_VERSION: u32 = 2;

/// The size of a point or of a normal in a file, in bytes.
pub const POINT_SIZE: usize = 12;

/// The three lists of one row, or nothing where the row ends before them. A
/// row is the number of points and the points, one byte each; the number of
/// edges and the edges, two bytes each; the number of faces and the faces,
/// four bytes each.
pub open spec fn emit_parts(row: Seq<u8>) -> Option<(Seq<u8>, Seq<u8>, Seq<u8>)> {
    if row.len() < 1 {
        None
    } else {
        let verts_end = 1 + row[0] as int;
        if row.len() < verts_end + 1 {
            None
        } else {
            let edges_end = verts_end + 1 + row[verts_end] as int * 2;
            if row.len() < edges_end + 1 {
                None
            } else {
                let faces_end = edges_end + 1 + row[edges_end] as int * 4;
                if row.len() < faces_end {
                    None
                } else {
                    Some(
                        (
                            row.subrange(1, verts_end),
                            row.subrange(verts_end + 1, edges_end),
                            row.subrange(edges_end + 1, faces_end),
                        ),
                    )
                }
            }
        }
    }
}

/// The size of a row with the given lists, in bytes.
pub open spec fn emit_size(parts: (Seq<u8>, Seq<u8>, Seq<u8>)) -> int {
    (1 + parts.0.len() + 1 + parts.1.len() + 1 + parts.2.len()) as int
}

/// Splits an emission string into slices.
#[derive(Debug, Clone, Copy, PartialEq, Eq)]
pub struct EmitString<'a> {
    pub verts: &'a [u8],
    pub edges: &'a [u8],
    pub faces: &'a [u8],
}

impl<'a> EmitString<'a> {
    /// The three lists.
    pub open spec fn parts(&self) -> (Seq<u8>, Seq<u8>, Seq<u8>) {
        (self.verts@, self.edges@, self.faces@)
    }

    /// Creates slices from an emission string: `None` exactly where the row
    /// ends before its lists do.
    pub fn from_row(row: &'a [u8]) -> (r: Option<Self>)
        ensures
            match r {
                Some(s) => emit_parts(row@) == Some(s.parts()),
                None => emit_parts(row@) is None,
            },
    {
        if row.len() < 1 {
            return None;
        }
        let verts_end: usize = 1 + row[0] as usize;
        if row.len() < verts_end + 1 {
            return None;
        }
        let edges_end: usize = verts_end + 1 + row[verts_end] as usize * 2;
        if row.len() < edges_end + 1 {
            return None;
        }
        let faces_end: usize = edges_end + 1 + row[edges_end] as usize * 4;
        if row.len() < faces_end {
            return None;
        }
        Some(
            EmitString {
                verts: slice_subrange(row, 1, verts_end),
                edges: slice_subrange(row, verts_end + 1, edges_end),
                faces: slice_subrange(row, edges_end + 1, faces_end),
            },
        )
    }

    /// Returns the total size of the string in bytes.
    pub fn total_size(&self) -> (size: usize)
        requires
            emit_size(self.parts()) <= usize::MAX,
        ensures
            size == emit_size(self.parts()),
    {
        1 + self.verts.len() + 1 + self.edges.len() + 1 + self.faces.len()
    }
}

/// The number of faces that a list names: one for every four bytes or part
/// of them.
pub open spec fn face_entries(faces: Seq<u8>) -> int {
    (faces.len() + 3) as int / 4
}

/// The face that a list names in place `k`: the first of its four bytes.
pub open spec fn face_at(faces: Seq<u8>, k: int) -> int {
    faces[4 * k] as int
}

/// The greatest among the first `n` faces that a list names; minus one where
/// `n` is zero.
pub open spec fn max_face_in(faces: Seq<u8>, n: int) -> int
    decreases n,
{
    if n <= 0 {
        -1
    } else {
        let rest = max_face_in(faces, n - 1);
        let face = face_at(faces, n - 1);
        if face > rest {
            face
        } else {
            rest
        }
    }
}

/// The greatest face that the first `n` lists name; minus one where they
/// name none.
pub open spec fn max_face(lists: Seq<Seq<u8>>, n: int) -> int
    decreases n,
{
    if n <= 0 {
        -1
    } else {
        let rest = max_face(lists, n - 1);
        let here = max_face_in(lists[n - 1], face_entries(lists[n - 1]));
        if here > rest {
            here
        } else {
            rest
        }
    }
}

/// The face lists of some rows.
pub open spec fn face_lists(strings: Seq<EmitString>) -> Seq<Seq<u8>> {
    Seq::new(strings.len(), |i: int| strings[i].faces@)
}

/// The greatest face of a list is one of its faces and no face is greater.
pub proof fn lemma_max_face_in(faces: Seq<u8>, n: int)
    requires
        0 <= n <= face_entries(faces),
    ensures
        -1 <= max_face_in(faces, n) <= 255,
        forall|k: int| 0 <= k < n ==> #[trigger] face_at(faces, k) <= max_face_in(faces, n),
        n > 0 ==> exists|k: int| 0 <= k < n && #[trigger] face_at(faces, k) == max_face_in(faces, n),
        n == 0 ==> max_face_in(faces, n) == -1,
    decreases n,
{
    if n > 0 {
        lemma_max_face_in(faces, n - 1);
        if n - 1 > 0 {
            let k = choose|k: int|
                0 <= k < n - 1 && #[trigger] face_at(faces, k) == max_face_in(faces, n - 1);
            if face_at(faces, n - 1) > max_face_in(faces, n - 1) {
                assert(face_at(faces, n - 1) == max_face_in(faces, n));
            } else {
                assert(face_at(faces, k) == max_face_in(faces, n));
            }
        } else {
            assert(face_at(faces, 0) == max_face_in(faces, n));
        }
    }
}

/// The greatest face of some lists is a face of one of them, no face of any
/// is greater, and it is minus one exactly where no list names a face.
pub proof fn lemma_max_face(lists: Seq<Seq<u8>>, n: int)
    requires
        0 <= n <= lists.len(),
    ensures
        -1 <= max_face(lists, n) <= 255,
        forall|i: int, k: int|
            0 <= i < n && 0 <= k < face_entries(lists[i]) ==> #[trigger] face_at(lists[i], k)
                <= max_face(lists, n),
        max_face(lists, n) >= 0 ==> exists|i: int, k: int|
            0 <= i < n && 0 <= k < face_entries(lists[i]) && #[trigger] face_at(lists[i], k)
                == max_face(lists, n),
        max_face(lists, n) == -1 <==> forall|i: int|
            0 <= i < n ==> (#[trigger] lists[i]).len() == 0,
    decreases n,
{
    if n > 0 {
        lemma_max_face(lists, n - 1);
        let last = lists[n - 1];
        lemma_max_face_in(last, face_entries(last));
        assert forall|i: int, k: int|
            0 <= i < n && 0 <= k < face_entries(lists[i]) implies #[trigger] face_at(lists[i], k)
            <= max_face(lists, n) by {
            if i == n - 1 {
                assert(face_at(last, k) <= max_face_in(last, face_entries(last)));
            }
        }
        if max_face(lists, n) >= 0 {
            if max_face_in(last, face_entries(last)) > max_face(lists, n - 1) {
                let k = choose|k: int|
                    0 <= k < face_entries(last) && #[trigger] face_at(last, k) == max_face_in(
                        last,
                        face_entries(last),
                    );
                assert(face_at(lists[n - 1], k) == max_face(lists, n));
            } else {
                let (i, k) = choose|i: int, k: int|
                    0 <= i < n - 1 && 0 <= k < face_entries(lists[i]) && #[trigger] face_at(
                        lists[i],
                        k,
                    ) == max_face(lists, n - 1);
                assert(face_at(lists[i], k) == max_face(lists, n));
            }
        }
        if last.len() > 0 {
            assert(face_entries(last) > 0);
            assert(face_at(last, 0) <= max_face_in(last, face_entries(last)));
        } else {
            assert(face_entries(last) == 0);
        }
    }
}

/// Counts the number of faces in an accelerator: one more than the greatest
/// face that a row names, and none where no row names a face.
pub fn count_faces(strings: &[EmitString]) -> (count: i32)
    ensures
        count == max_face(face_lists(strings@), strings@.len() as int) + 1,
        0 <= count <= 256,
        forall|i: int, k: int|
            0 <= i < strings@.len() && 0 <= k < face_entries(strings@[i].faces@)
                ==> #[trigger] face_at(strings@[i].faces@, k) < count,
        count > 0 ==> exists|i: int, k: int|
            0 <= i < strings@.len() && 0 <= k < face_entries(strings@[i].faces@)
                && #[trigger] face_at(strings@[i].faces@, k) == count - 1,
{
    let ghost lists = face_lists(strings@);
    proof {
        lemma_max_face(lists, strings@.len() as int);
        assert forall|i: int, k: int|
            0 <= i < strings@.len() && 0 <= k < face_entries(
                strings@[i].faces@,
            ) implies #[trigger] face_at(strings@[i].faces@, k) <= max_face(
            lists,
            strings@.len() as int,
        ) by {
            assert(lists[i] == strings@[i].faces@);
            assert(face_at(lists[i], k) <= max_face(lists, strings@.len() as int));
        }
        if max_face(lists, strings@.len() as int) >= 0 {
            let (i, k) = choose|i: int, k: int|
                0 <= i < strings@.len() && 0 <= k < face_entries(lists[i]) && #[trigger] face_at(
                    lists[i],
                    k,
                ) == max_face(lists, strings@.len() as int);
            assert(lists[i] == strings@[i].faces@);
            assert(face_at(strings@[i].faces@, k) == max_face(lists, strings@.len() as int));
        }
    }
    let mut max_face_seen: i32 = -1;
    let mut i: usize = 0;
    while i < strings.len()
        invariant
            i <= strings@.len(),
            lists == face_lists(strings@),
            max_face_seen == max_face(lists, i as int),
            -1 <= max_face_seen <= 255,
        decreases strings@.len() - i,
    {
        let faces = strings[i].faces;
        let entries: usize = faces.len() / 4 + if faces.len() % 4 != 0 {
            1
        } else {
            0
        };
        assert(faces@.len() == faces.len());
        let mut here: i32 = -1;
        let mut k: usize = 0;
        while k < entries
            invariant
                k <= entries,
                entries == face_entries(faces@),
                faces@.len() <= usize::MAX,
                here == max_face_in(faces@, k as int),
                -1 <= here <= 255,
            decreases entries - k,
        {
            let face = faces[4 * k] as i32;
            if face > here {
                here = face;
            }
            k = k + 1;
        }
        assert(lists[i as int] == faces@);
        if here > max_face_seen {
            max_face_seen = here;
        }
        i += 1;
    }
    max_face_seen + 1
}


/// Why an accelerator file is refused.
#[derive(Debug, Clone, Copy, PartialEq, Eq, Structural)]
pub enum ChaError {
    /// The bytes could not be read.
    Io(IoError),
    /// The file does not begin as an accelerator file does.
    BadMagic,
    /// The file has another version than the one that is read.
    UnsupportedVersion,
    /// The number of points is negative.
    BadVertexCount,
    /// The number of faces is negative.
    BadFaceCount,
    /// A row is shorter than its three counts.
    BadRowSize,
}

impl ChaError {
    /// The text of the error.
    pub open spec fn text(self) -> Seq<char> {
        match self {
            ChaError::Io(IoError::UnexpectedEof) => "failed to fill whole buffer"@,
            ChaError::Io(IoError::InvalidInput) => "invalid input parameter"@,
            ChaError::BadMagic => "bad magic"@,
            ChaError::UnsupportedVersion => "unsupported version"@,
            ChaError::BadVertexCount => "bad vertex count"@,
            ChaError::BadFaceCount => "bad face count"@,
            ChaError::BadRowSize => "bad emission strings row size"@,
        }
    }

    /// The text of the error.
    pub fn message(self) -> (m: &'static str)
        ensures
            m@ == self.text(),
    {
        match self {
            ChaError::Io(IoError::UnexpectedEof) => "failed to fill whole buffer",
            ChaError::Io(IoError::InvalidInput) => "invalid input parameter",
            ChaError::BadMagic => "bad magic",
            ChaError::UnsupportedVersion => "unsupported version",
            ChaError::BadVertexCount => "bad vertex count",
            ChaError::BadFaceCount => "bad face count",
            ChaError::BadRowSize => "bad emission strings row size",
        }
    }
}

/// `count` points that stand at `at`, as bytes.
pub open spec fn block_at(data: Seq<u8>, at: int, count: int) -> Result<Seq<u8>, ChaError> {
    if POINT_SIZE * count > usize::MAX {
        Err(ChaError::Io(IoError::InvalidInput))
    } else if at + POINT_SIZE * count > data.len() {
        Err(ChaError::Io(IoError::UnexpectedEof))
    } else {
        Ok(data.subrange(at, at + POINT_SIZE * count))
    }
}

/// The row that stands at `at`, and the place after it: the size of the row,
/// at least three, then as many bytes.
pub open spec fn row_at(data: Seq<u8>, at: int) -> Result<(Seq<u8>, int), ChaError> {
    if at + 4 > data.len() {
        Err(ChaError::Io(IoError::UnexpectedEof))
    } else {
        let size = le_u32(data, at) as int;
        if size < 3 {
            Err(ChaError::BadRowSize)
        } else if at + 4 + size > data.len() {
            Err(ChaError::Io(IoError::UnexpectedEof))
        } else {
            Ok((data.subrange(at + 4, at + 4 + size), at + 4 + size))
        }
    }
}

/// The first `n` rows from `start` on, one after the other, and the place
/// after the last.
pub open spec fn rows_from(data: Seq<u8>, start: int, n: int) -> Result<
    (Seq<Seq<u8>>, int),
    ChaError,
>
    decreases n,
{
    if n <= 0 {
        Ok((Seq::<Seq<u8>>::empty(), start))
    } else {
        match rows_from(data, start, n - 1) {
            Err(e) => Err(e),
            Ok((rows, at)) => match row_at(data, at) {
                Err(e) => Err(e),
                Ok((row, next)) => Ok((rows.push(row), next)),
            },
        }
    }
}

/// Once a row is refused, so are all the rows.
pub proof fn lemma_rows_refused(data: Seq<u8>, start: int, n: int, all: int)
    requires
        0 <= n <= all,
        rows_from(data, start, n) is Err,
    ensures
        rows_from(data, start, all) == rows_from(data, start, n),
    decreases all - n,
{
    if n < all {
        lemma_rows_refused(data, start, n + 1, all);
    }
}

/// The bytes `CHA!`.
pub open spec fn cha_magic() -> Seq<u8> {
    seq![0x43u8, 0x48u8, 0x41u8, 0x21u8]
}

/// What the part of a file after the number of points holds, the number
/// being `nv`: the points, the number of faces, the normals, and a row for
/// every point.
pub open spec fn accelerator_body(data: Seq<u8>, nv: int) -> Result<
    ConvexHullAcceleratorView,
    ChaError,
> {
    match block_at(data, 12, nv) {
        Err(e) => Err(e),
        Ok(verts) => {
            let nf_at = 12 + POINT_SIZE * nv;
            if nf_at + 4 > data.len() {
                Err(ChaError::Io(IoError::UnexpectedEof))
            } else if le_i32(data, nf_at) < 0 {
                Err(ChaError::BadFaceCount)
            } else {
                let nf = le_i32(data, nf_at) as int;
                match block_at(data, nf_at + 4, nf) {
                    Err(e) => Err(e),
                    Ok(faces) => match rows_from(data, nf_at + 4 + POINT_SIZE * nf, nv) {
                        Err(e) => Err(e),
                        Ok((rows, _)) => Ok(
                            ConvexHullAcceleratorView {
                                num_verts: nv as i32,
                                vertex_list: verts,
                                normal_list: faces,
                                emit_strings: rows,
                            },
                        ),
                    },
                }
            }
        },
    }
}

/// The accelerator that a file holds, or the first reason for which the file
/// is refused. A file is the mark, the version, the number of points, and
/// the body.
pub open spec fn accelerator_of(data: Seq<u8>) -> Result<ConvexHullAcceleratorView, ChaError> {
    if data.len() < 4 {
        Err(ChaError::Io(IoError::UnexpectedEof))
    } else if data.subrange(0, 4) != cha_magic() {
        Err(ChaError::BadMagic)
    } else if data.len() < 8 {
        Err(ChaError::Io(IoError::UnexpectedEof))
    } else if le_u32(data, 4) != CHA_VERSION {
        Err(ChaError::UnsupportedVersion)
    } else if data.len() < 12 {
        Err(ChaError::Io(IoError::UnexpectedEof))
    } else if le_i32(data, 8) < 0 {
        Err(ChaError::BadVertexCount)
    } else {
        accelerator_body(data, le_i32(data, 8) as int)
    }
}

/// Loads a convex hull accelerator from the bytes of a file.
pub fn load_accelerator(data: &[u8]) -> (r: Result<ConvexHullAccelerator, ChaError>)
    ensures
        match r {
            Ok(accel) => accelerator_of(data@) == Ok::<ConvexHullAcceleratorView, ChaError>(
                accel.deep_view(),
            ),
            Err(e) => accelerator_of(data@) == Err::<ConvexHullAcceleratorView, ChaError>(e),
        },
{
    let mut file = ByteStream::new(data);
    let magic = match file.read_exact(4) {
        Ok(magic) => magic,
        Err(e) => {
            return Err(ChaError::Io(e));
        },
    };
    if magic[0] != 0x43 || magic[1] != 0x48 || magic[2] != 0x41 || magic[3] != 0x21 {
        return Err(ChaError::BadMagic);
    }
    assert(data@.subrange(0, 4) =~= cha_magic());
    let version = match read_val(&mut file) {
        Ok(version) => version,
        Err(e) => {
            return Err(ChaError::Io(e));
        },
    };
    if version != CHA_VERSION {
        return Err(ChaError::UnsupportedVersion);
    }
    let num_verts = match read_signed(&mut file) {
        Ok(n) => n,
        Err(e) => {
            return Err(ChaError::Io(e));
        },
    };
    if num_verts < 0 {
        return Err(ChaError::BadVertexCount);
    }
    let verts = match read_array(&mut file, POINT_SIZE, num_verts as usize) {
        Ok(verts) => verts,
        Err(e) => {
            return Err(ChaError::Io(e));
        },
    };
    let num_faces = match read_signed(&mut file) {
        Ok(n) => n,
        Err(e) => {
            return Err(ChaError::Io(e));
        },
    };
    if num_faces < 0 {
        return Err(ChaError::BadFaceCount);
    }
    let faces = match read_array(&mut file, POINT_SIZE, num_faces as usize) {
        Ok(faces) => faces,
        Err(e) => {
            return Err(ChaError::Io(e));
        },
    };
    let ghost start = file.position();
    let mut emit_strings: Vec<Vec<u8>> = Vec::new();
    assert(rows_view(emit_strings) =~= Seq::<Seq<u8>>::empty());
    let mut i: i32 = 0;
    while i < num_verts
        invariant
            0 <= i <= num_verts,
            file.bytes() == data@,
            accelerator_of(data@) == match rows_from(data@, start, num_verts as int) {
                Err(e) => Err::<ConvexHullAcceleratorView, ChaError>(e),
                Ok((rows, _)) => Ok(
                    ConvexHullAcceleratorView {
                        num_verts,
                        vertex_list: verts@,
                        normal_list: faces@,
                        emit_strings: rows,
                    },
                ),
            },
            rows_from(data@, start, i as int) == Ok::<(Seq<Seq<u8>>, int), ChaError>(
                (rows_view(emit_strings), file.position()),
            ),
        decreases num_verts - i,
    {
        let ghost before = rows_view(emit_strings);
        let size = match read_val(&mut file) {
            Ok(size) => size,
            Err(e) => {
                proof {
                    lemma_rows_refused(data@, start, i + 1, num_verts as int);
                }
                return Err(ChaError::Io(e));
            },
        };
        if size < 3 {
            proof {
                lemma_rows_refused(data@, start, i + 1, num_verts as int);
            }
            return Err(ChaError::BadRowSize);
        }
        let string = match read_array(&mut file, 1, size as usize) {
            Ok(string) => string,
            Err(e) => {
                proof {
                    lemma_rows_refused(data@, start, i + 1, num_verts as int);
                }
                return Err(ChaError::Io(e));
            },
        };
        emit_strings.push(string);
        assert(rows_view(emit_strings) =~= before.push(string@));
        i += 1;
    }
    Ok(
        ConvexHullAccelerator {
            num_verts,
            vertex_list: verts,
            normal_list: faces,
            emit_strings,
        },
    )
}

/// The face lists of some rows, each row being whole.
pub open spec fn row_faces(rows: Seq<Seq<u8>>) -> Seq<Seq<u8>> {
    Seq::new(rows.len(), |i: int| emit_parts(rows[i])->Some_0.2)
}

/// The number of faces that some whole rows name.
pub open spec fn face_count(rows: Seq<Seq<u8>>) -> int {
    max_face(row_faces(rows), rows.len() as int) + 1
}

/// Whether an accelerator can be written to a file: it has a row for every
/// point and twelve bytes for each, every row is whole, and it has twelve
/// bytes for every face that a row names.
pub open spec fn savable(accel: ConvexHullAcceleratorView) -> bool {
    &&& accel.num_verts >= 0
    &&& accel.vertex_list.len() == POINT_SIZE * accel.num_verts
    &&& accel.emit_strings.len() == accel.num_verts
    &&& forall|i: int|
        0 <= i < accel.emit_strings.len() ==> emit_parts(#[trigger] accel.emit_strings[i]) is Some
    &&& accel.normal_list.len() >= POINT_SIZE * face_count(accel.emit_strings)
}

/// The first `n` rows as they stand in a file: before each, its size; of
/// each, only what its three lists take.
pub open spec fn rows_bytes(rows: Seq<Seq<u8>>, n: int) -> Seq<u8>
    decreases n,
{
    if n <= 0 {
        Seq::<u8>::empty()
    } else {
        let size = emit_size(emit_parts(rows[n - 1])->Some_0);
        rows_bytes(rows, n - 1) + u32_bytes(size as u32) + rows[n - 1].take(size)
    }
}

/// The bytes of the file that holds `accel`.
pub open spec fn saved(accel: ConvexHullAcceleratorView) -> Seq<u8> {
    let faces = face_count(accel.emit_strings);
    cha_magic() + u32_bytes(CHA_VERSION) + i32_bytes(accel.num_verts) + accel.vertex_list
        + i32_bytes(faces as i32) + accel.normal_list.take(POINT_SIZE * faces) + rows_bytes(
        accel.emit_strings,
        accel.emit_strings.len() as int,
    )
}

/// Saves a convex hull accelerator as the bytes of a file: `None` exactly
/// for an accelerator that cannot be written.
pub fn save_accelerator(accel: &ConvexHullAccelerator) -> (r: Option<Vec<u8>>)
    ensures
        match r {
            Some(out) => savable(accel.deep_view()) && out@ == saved(accel.deep_view()),
            None => !savable(accel.deep_view()),
        },
{
    let ghost rows = rows_view(accel.emit_strings);
    if accel.num_verts < 0 {
        return None;
    }
    let count = accel.num_verts as usize;
    if accel.emit_strings.len() != count {
        return None;
    }
    if accel.vertex_list.len() / POINT_SIZE != count || accel.vertex_list.len() % POINT_SIZE != 0 {
        return None;
    }
    let mut strings: Vec<EmitString> = Vec::new();
    let mut i: usize = 0;
    while i < accel.emit_strings.len()
        invariant
            i <= accel.emit_strings.len(),
            rows == rows_view(accel.emit_strings),
            strings.len() == i,
            forall|k: int|
                0 <= k < i ==> emit_parts(#[trigger] rows[k]) == Some(strings[k].parts()),
        decreases accel.emit_strings.len() - i,
    {
        match EmitString::from_row(accel.emit_strings[i].as_slice()) {
            Some(string) => {
                strings.push(string);
            },
            None => {
                assert(emit_parts(rows[i as int]) is None);
                return None;
            },
        }
        i += 1;
    }
    assert(face_lists(strings@) =~= row_faces(rows));
    let num_faces = count_faces(strings.as_slice());
    if accel.normal_list.len() / POINT_SIZE < num_faces as usize {
        return None;
    }
    let mut out: Vec<u8> = Vec::new();
    write_array(&mut out, CHA_MAGIC.as_slice());
    assert(out@ =~= cha_magic());
    write_val(&mut out, CHA_VERSION);
    write_signed(&mut out, accel.num_verts);
    write_array(&mut out, accel.vertex_list.as_slice());
    write_signed(&mut out, num_faces);
    write_array(
        &mut out,
        slice_subrange(accel.normal_list.as_slice(), 0, POINT_SIZE * (num_faces as usize)),
    );
    let ghost head = out@;
    let mut j: usize = 0;
    while j < strings.len()
        invariant
            j <= strings.len(),
            strings.len() == accel.emit_strings.len(),
            rows == rows_view(accel.emit_strings),
            forall|k: int|
                0 <= k < strings.len() ==> emit_parts(#[trigger] rows[k]) == Some(
                    strings[k].parts(),
                ),
            out@ == head + rows_bytes(rows, j as int),
        decreases strings.len() - j,
    {
        let row = accel.emit_strings[j].as_slice();
        assert(emit_parts(rows[j as int]) == Some(strings[j as int].parts()));
        assert(row@ == rows[j as int]);
        let size = strings[j].total_size();
        write_val(&mut out, size as u32);
        write_array(&mut out, slice_subrange(row, 0, size));
        assert(out@ =~= head + rows_bytes(rows, j + 1));
        j += 1;
    }
    assert(head + rows_bytes(rows, rows.len() as int) =~= saved(accel.deep_view()));
    Some(out)
}

/// The rows as a file keeps them: of each row only what its lists take.
pub open spec fn kept_rows(rows: Seq<Seq<u8>>) -> Seq<Seq<u8>> {
    Seq::new(rows.len(), |i: int| rows[i].take(emit_size(emit_parts(rows[i])->Some_0)))
}

/// What of an accelerator a file keeps: the points, the normals of the
/// faces that the rows name, and the rows without what follows their lists.
pub open spec fn kept(accel: ConvexHullAcceleratorView) -> ConvexHullAcceleratorView {
    ConvexHullAcceleratorView {
        num_verts: accel.num_verts,
        vertex_list: accel.vertex_list,
        normal_list: accel.normal_list.take(POINT_SIZE * face_count(accel.emit_strings)),
        emit_strings: kept_rows(accel.emit_strings),
    }
}

/// A whole row takes at least its three counts, at most what it has, and
/// never more than all three lists can hold.
pub proof fn lemma_emit_size(row: Seq<u8>)
    requires
        emit_parts(row) is Some,
    ensures
        3 <= emit_size(emit_parts(row)->Some_0) <= row.len(),
        emit_size(emit_parts(row)->Some_0) <= 1788,
{
}

/// The bytes of the first rows stand at the front of the bytes of more rows.
pub proof fn lemma_rows_bytes_prefix(rows: Seq<Seq<u8>>, n: int, m: int)
    requires
        0 <= n <= m <= rows.len(),
        forall|i: int| 0 <= i < rows.len() ==> emit_parts(#[trigger] rows[i]) is Some,
    ensures
        rows_bytes(rows, n).len() <= rows_bytes(rows, m).len(),
        rows_bytes(rows, m).take(rows_bytes(rows, n).len() as int) == rows_bytes(rows, n),
    decreases m - n,
{
    if n == m {
        assert(rows_bytes(rows, m).take(rows_bytes(rows, n).len() as int) =~= rows_bytes(
            rows,
            n,
        ));
    } else {
        lemma_rows_bytes_prefix(rows, n, m - 1);
        lemma_emit_size(rows[m - 1]);
        assert(rows_bytes(rows, m).take(rows_bytes(rows, n).len() as int) =~= rows_bytes(
            rows,
            m - 1,
        ).take(rows_bytes(rows, n).len() as int));
    }
}

/// The rows that were written at `start` read back as the rows that a file
/// keeps, and reading ends where the written rows end.
pub proof fn lemma_rows_read_back(data: Seq<u8>, start: int, rows: Seq<Seq<u8>>, n: int)
    requires
        0 <= start,
        0 <= n <= rows.len(),
        forall|i: int| 0 <= i < rows.len() ==> emit_parts(#[trigger] rows[i]) is Some,
        start + rows_bytes(rows, rows.len() as int).len() <= data.len(),
        data.subrange(start, start + rows_bytes(rows, rows.len() as int).len()) == rows_bytes(
            rows,
            rows.len() as int,
        ),
    ensures
        rows_from(data, start, n) == Ok::<(Seq<Seq<u8>>, int), ChaError>(
            (kept_rows(rows).take(n), start + rows_bytes(rows, n).len()),
        ),
    decreases n,
{
    let all = rows_bytes(rows, rows.len() as int);
    if n <= 0 {
        assert(kept_rows(rows).take(0) =~= Seq::<Seq<u8>>::empty());
    } else {
        lemma_rows_read_back(data, start, rows, n - 1);
        lemma_rows_bytes_prefix(rows, n - 1, n);
        lemma_rows_bytes_prefix(rows, n, rows.len() as int);
        lemma_emit_size(rows[n - 1]);
        let before = rows_bytes(rows, n - 1);
        let here = rows_bytes(rows, n);
        let size = emit_size(emit_parts(rows[n - 1])->Some_0);
        let at = start + before.len();
        assert(here.len() == before.len() + 4 + size);
        assert forall|k: int| 0 <= k < here.len() implies data[start + k] == #[trigger] here[k] by {
            assert(data.subrange(start, start + all.len())[k] == all[k]);
            assert(all.take(here.len() as int)[k] == all[k]);
        }
        assert(data.subrange(at, at + 4) =~= u32_bytes(size as u32)) by {
            assert forall|k: int| 0 <= k < 4 implies #[trigger] data.subrange(at, at + 4)[k]
                == u32_bytes(size as u32)[k] by {
                assert(data[start + (before.len() + k)] == here[before.len() + k]);
            }
        }
        lemma_read_back(data, at, size as u32);
        assert(data.subrange(at + 4, at + 4 + size) =~= rows[n - 1].take(size)) by {
            assert forall|k: int| 0 <= k < size implies #[trigger] data.subrange(
                at + 4,
                at + 4 + size,
            )[k] == rows[n - 1].take(size)[k] by {
                assert(data[start + (before.len() + 4 + k)] == here[before.len() + 4 + k]);
            }
        }
        assert(kept_rows(rows).take(n) =~= kept_rows(rows).take(n - 1).push(
            rows[n - 1].take(size),
        ));
    }
}

/// The part `part` of `before + (part + after)` stands right after `before`.
proof fn lemma_part(before: Seq<u8>, part: Seq<u8>, after: Seq<u8>)
    ensures
        (before + part) + after == before + (part + after),
        (before + (part + after)).len() == before.len() + part.len() + after.len(),
        (before + (part + after)).subrange(
            before.len() as int,
            (before.len() + part.len()) as int,
        ) == part,
{
    assert((before + part) + after =~= before + (part + after));
    assert((before + (part + after)).subrange(
        before.len() as int,
        (before.len() + part.len()) as int,
    ) =~= part);
}

/// Where the parts of a written file stand.
proof fn lemma_saved_layout(accel: ConvexHullAcceleratorView)
    requires
        savable(accel),
    ensures
        ({
            let data = saved(accel);
            let faces = face_count(accel.emit_strings);
            let tail = rows_bytes(accel.emit_strings, accel.emit_strings.len() as int);
            let nf_at = 12 + POINT_SIZE * accel.num_verts;
            let rows_at = nf_at + 4 + POINT_SIZE * faces;
            &&& 0 <= faces <= 256
            &&& data.len() == rows_at + tail.len()
            &&& data.subrange(0, 4) == cha_magic()
            &&& data.subrange(4, 8) == u32_bytes(CHA_VERSION)
            &&& data.subrange(8, 12) == i32_bytes(accel.num_verts)
            &&& data.subrange(12, nf_at) == accel.vertex_list
            &&& data.subrange(nf_at, nf_at + 4) == i32_bytes(faces as i32)
            &&& data.subrange(nf_at + 4, rows_at) == accel.normal_list.take(POINT_SIZE * faces)
            &&& data.subrange(rows_at, rows_at + tail.len()) == tail
        }),
{
    let data = saved(accel);
    let rows = accel.emit_strings;
    let faces = face_count(rows);
    lemma_max_face(row_faces(rows), rows.len() as int);
    let magic = cha_magic();
    let version = u32_bytes(CHA_VERSION);
    let count = i32_bytes(accel.num_verts);
    let verts = accel.vertex_list;
    let named = i32_bytes(faces as i32);
    let normals = accel.normal_list.take(POINT_SIZE * faces);
    let tail = rows_bytes(rows, rows.len() as int);
    let nothing = Seq::<u8>::empty();
    assert(magic.len() == 4 && version.len() == 4 && count.len() == 4 && named.len() == 4);
    assert(normals.len() == POINT_SIZE * faces);
    let upto_version = magic + version;
    let upto_count = upto_version + count;
    let upto_verts = upto_count + verts;
    let upto_named = upto_verts + named;
    let upto_normals = upto_named + normals;
    let from_rows = tail + nothing;
    let from_normals = normals + from_rows;
    let from_named = named + from_normals;
    let from_verts = verts + from_named;
    let from_count = count + from_verts;
    let from_version = version + from_count;
    assert(from_rows =~= tail);
    assert(data == upto_normals + tail);
    lemma_part(upto_normals, tail, nothing);
    lemma_part(upto_named, normals, from_rows);
    assert(data == upto_named + from_normals);
    lemma_part(upto_verts, named, from_normals);
    assert(data == upto_verts + from_named);
    lemma_part(upto_count, verts, from_named);
    assert(data == upto_count + from_verts);
    lemma_part(upto_version, count, from_verts);
    assert(data == upto_version + from_count);
    lemma_part(magic, version, from_count);
    assert(data == magic + from_version);
    lemma_part(nothing, magic, from_version);
    assert(nothing + (magic + from_version) =~= magic + from_version);
}

/// An accelerator that was written to a file is read back from the file as
/// what the file keeps of it.
pub proof fn lemma_saved_accelerator_loads(accel: ConvexHullAcceleratorView)
    requires
        savable(accel),
        saved(accel).len() <= usize::MAX,
    ensures
        accelerator_of(saved(accel)) == Ok::<ConvexHullAcceleratorView, ChaError>(kept(accel)),
{
    let data = saved(accel);
    let nv = accel.num_verts as int;
    let rows = accel.emit_strings;
    let faces = face_count(rows);
    let nf_at = 12 + POINT_SIZE * nv;
    let rows_at = nf_at + 4 + POINT_SIZE * faces;
    lemma_saved_layout(accel);
    lemma_read_back(data, 4, CHA_VERSION);
    lemma_read_back_signed(data, 8, accel.num_verts);
    lemma_read_back_signed(data, nf_at, faces as i32);
    lemma_rows_read_back(data, rows_at, rows, rows.len() as int);
    assert(kept_rows(rows).take(rows.len() as int) =~= kept_rows(rows));
    assert(block_at(data, 12, nv) == Ok::<Seq<u8>, ChaError>(accel.vertex_list));
    assert(block_at(data, nf_at + 4, faces) == Ok::<Seq<u8>, ChaError>(
        accel.normal_list.take(POINT_SIZE * faces),
    ));
    assert(accelerator_body(data, nv) == Ok::<ConvexHullAcceleratorView, ChaError>(kept(accel)));
}

/// The extension of the file that keeps the accelerator of detail level
/// `dl` of a shape: `dts.`, the number of the level, `.cha`. It takes the
/// place of the extension of the shape's own file.
pub fn cha_extension(dl: i32) -> (extension: String)
    ensures
        exists|level: String| #[trigger]
            vstd::string::to_string_from_display_ensures::<i32>(&dl, level) && extension@
                == "dts."@ + level@ + ".cha"@,
{
    let level = dl.to_string();
    String::from_str("dts.").concat(level.as_str()).concat(".cha")
}

/// Where the caching of one accelerator stands.
#[derive(Debug, Clone, Copy, PartialEq, Eq, Structural)]
pub enum AccelState {
    /// Nothing is known yet.
    Begin,
    /// The file is being loaded.
    Loading,
    /// The engine is computing the accelerator.
    Computing,
    /// The accelerator is being written to its file.
    Saving,
    /// Nothing is left to do.
    Done,
}

/// What has happened since the last step.
#[derive(Debug, Clone, Copy, PartialEq, Eq, Structural)]
pub enum AccelEvent {
    /// The shape was looked at: whether its resource has a path and a name,
    /// whether the accelerator of the detail level is already there, and
    /// when the shape and the accelerator file were last written, as far as
    /// that is known.
    Inspected {
        has_path: bool,
        has_name: bool,
        built: bool,
        dts_mtime: Option<u64>,
        cha_mtime: Option<u64>,
    },
    /// The file was loaded, or could not be.
    Loaded { ok: bool },
    /// The engine has computed; `built` tells whether there is an
    /// accelerator now.
    Computed { built: bool },
    /// The file was written, or could not be.
    Saved { ok: bool },
}

/// What is to be done next.
#[derive(Debug, Clone, Copy, PartialEq, Eq, Structural)]
pub enum AccelAction {
    /// Let the engine compute the accelerator.
    CallOriginal,
    /// Load the accelerator from its file.
    Load,
    /// Put the loaded accelerator in its place.
    Install,
    /// Write the accelerator to its file.
    Save,
    /// Return.
    Return,
}

/// Whether the accelerator file may stand for the shape: both are there and
/// the file is not older than the shape.
pub open spec fn cache_is_fresh(dts_mtime: Option<u64>, cha_mtime: Option<u64>) -> bool {
    dts_mtime is Some && cha_mtime is Some && cha_mtime->Some_0 >= dts_mtime->Some_0
}

/// The step that `event` makes from `state`, if it makes one.
///
/// A shape whose resource lacks its path or its name is left to the engine.
/// An accelerator that is there is kept. Else the file is loaded if it is
/// fresh; if it is not, or cannot be loaded, the engine computes, and what
/// it computes is written to the file.
pub open spec fn accel_next(state: AccelState, event: AccelEvent) -> Option<
    (AccelState, AccelAction),
> {
    match (state, event) {
        (
            AccelState::Begin,
            AccelEvent::Inspected { has_path, has_name, built, dts_mtime, cha_mtime },
        ) => Some(
            if !has_path || !has_name {
                (AccelState::Done, AccelAction::CallOriginal)
            } else if built {
                (AccelState::Done, AccelAction::Return)
            } else if cache_is_fresh(dts_mtime, cha_mtime) {
                (AccelState::Loading, AccelAction::Load)
            } else {
                (AccelState::Computing, AccelAction::CallOriginal)
            },
        ),
        (AccelState::Loading, AccelEvent::Loaded { ok }) => Some(
            if ok {
                (AccelState::Done, AccelAction::Install)
            } else {
                (AccelState::Computing, AccelAction::CallOriginal)
            },
        ),
        (AccelState::Computing, AccelEvent::Computed { built }) => Some(
            if built {
                (AccelState::Saving, AccelAction::Save)
            } else {
                (AccelState::Done, AccelAction::Return)
            },
        ),
        (AccelState::Saving, AccelEvent::Saved { .. }) => Some(
            (AccelState::Done, AccelAction::Return),
        ),
        _ => None,
    }
}

/// Decides the next step of the caching of one accelerator.
pub fn my_compute_accelerator(state: AccelState, event: AccelEvent) -> (r: Option<
    (AccelState, AccelAction),
>)
    ensures
        r == accel_next(state, event),
{
    match (state, event) {
        (
            AccelState::Begin,
            AccelEvent::Inspected { has_path, has_name, built, dts_mtime, cha_mtime },
        ) => {
            if !has_path || !has_name {
                return Some((AccelState::Done, AccelAction::CallOriginal));
            }
            if built {
                return Some((AccelState::Done, AccelAction::Return));
            }
            if let (Some(dts_mtime), Some(cha_mtime)) = (dts_mtime, cha_mtime) {
                if cha_mtime >= dts_mtime {
                    return Some((AccelState::Loading, AccelAction::Load));
                }
            }
            Some((AccelState::Computing, AccelAction::CallOriginal))
        },
        (AccelState::Loading, AccelEvent::Loaded { ok }) => {
            if ok {
                Some((AccelState::Done, AccelAction::Install))
            } else {
                Some((AccelState::Computing, AccelAction::CallOriginal))
            }
        },
        (AccelState::Computing, AccelEvent::Computed { built }) => {
            if built {
                Some((AccelState::Saving, AccelAction::Save))
            } else {
                Some((AccelState::Done, AccelAction::Return))
            }
        },
        (AccelState::Saving, AccelEvent::Saved { .. }) => Some(
            (AccelState::Done, AccelAction::Return),
        ),
        _ => None,
    }
}

/// Where the engine's method that computes an accelerator stands on
/// `platform`.
pub open spec fn compute_accelerator_at(platform: Platform) -> usize {
    address_for(platform, 0x403553, 0x1cc530)
}

/// Initializes the accelerator cacher: the engine's method that computes an
/// accelerator is redirected to the function at `replacement`, and
/// `original` takes what the host loader answers.
pub fn init<T, H: Fn(usize, usize) -> Option<T>>(
    plugin: &mut Plugin,
    platform: Platform,
    replacement: usize,
    original: &mut OriginalFn<T>,
    host: &H,
) -> (r: Result<(), &'static str>)
    requires
        old(plugin).state_of(compute_accelerator_at(platform)) == InterceptState::Uninstalled
            ==> !old(original).installed() && host.requires(
            (compute_accelerator_at(platform), replacement),
        ),
    ensures
        old(plugin).state_of(compute_accelerator_at(platform)) != InterceptState::Uninstalled
            ==> {
            &&& r matches Err(e) && e@ == interception_repeated()
            &&& final(original)@ == old(original)@
            &&& final(plugin).log() == old(plugin).log()
        },
        old(plugin).state_of(compute_accelerator_at(platform)) == InterceptState::Uninstalled
            ==> {
            &&& r is Ok ==> final(original)@ is Some && host.ensures(
                (compute_accelerator_at(platform), replacement),
                final(original)@,
            ) && final(plugin).state_of(compute_accelerator_at(platform))
                == InterceptState::Installed
            &&& r matches Err(e) ==> e@ == interception_failed() && final(original)@ is None
                && host.ensures((compute_accelerator_at(platform), replacement), None::<T>)
                && final(plugin).state_of(compute_accelerator_at(platform))
                == InterceptState::Failed
        },
        final(plugin).same_host(old(plugin)),
{
    let target: FnPtr<T> = FnPtr::new(tge_compute_accelerator(platform));
    proof {
        lemma_two_steps(
            plugin.log(),
            compute_accelerator_at(platform),
            InterceptState::Installing,
            InterceptState::Installed,
            0,
        );
        lemma_two_steps(
            plugin.log(),
            compute_accelerator_at(platform),
            InterceptState::Installing,
            InterceptState::Failed,
            0,
        );
    }
    plugin.intercept(target, replacement, original, host)
}

} // verus!
