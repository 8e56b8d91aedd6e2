//! Geometry loading: parsing an OBJ model into the flat position and index
//! buffers that are uploaded to the GPU once at startup.
//!
//! Position scalars are carried as the IEEE 754 bit patterns of the file's
//! 32-bit floats; the unverified shell turns them back into floats right at
//! the upload boundary. The parse itself is done by an outside crate behind
//! one trusted wrapper; everything around the parse — the screening of
//! streams the parser cannot handle safely, the single-mesh rule and the
//! grouping of flat scalars into GPU triples — is verified.

use vstd::prelude::*;

verus! {

/// One mesh as parsed from a model file: flat position scalars (three per
/// vertex, as f32 bit patterns) and flat vertex indices (three per
/// triangle).
#[derive(Debug, PartialEq, Eq)]
pub struct RawMesh {
    pub positions: Vec<u32>,
    pub indices: Vec<u32>,
}

/// The meshes an OBJ byte stream parses to — position bit patterns and
/// indices per mesh, in file order — or nothing when the stream is
/// malformed. The parse is a function of the bytes alone.
pub uninterp spec fn obj_meshes_of(bytes: Seq<u8>) -> Option<Seq<(Seq<u32>, Seq<u32>)>>;

/// An ASCII decimal digit.
pub open spec fn is_digit_byte(b: u8) -> bool {
    48 <= b && b <= 57
}

/// What may follow a slash (byte 47) at position `i`: neither a minus
/// (45) nor a plus (43) sign, and no run of nineteen or more digits — an
/// eighteen-digit value stays below 10^18, small enough for the parser's
/// texcoord and normal reference arithmetic.
pub open spec fn slash_ref_ok(bytes: Seq<u8>, i: int) -> bool {
    &&& (i + 1 < bytes.len() ==> bytes[i + 1] != 45 && bytes[i + 1] != 43)
    &&& (i + 19 < bytes.len() ==> exists|j: int|
        i + 1 <= j <= i + 19 && !(#[trigger] is_digit_byte(bytes[j])))
}

/// Texcoord and normal references in face statements always stand right
/// after a slash in the raw bytes. The parser resolves a negative or
/// outsized one with unchecked arithmetic that can overflow, so the loader
/// only hands the parser streams where every slash is followed by neither
/// a sign nor an outsized digit run. Bounding by shape over the raw bytes
/// is deliberately conservative: it also declines some streams the parser
/// itself would handle, such as in-range negative relative references.
pub open spec fn face_refs_bounded(bytes: Seq<u8>) -> bool {
    forall|i: int| 0 <= i < bytes.len() && bytes[i] == 47 ==> #[trigger] slash_ref_ok(bytes, i)
}

/// Whether every slash in the byte stream is followed by neither a sign
/// nor a run of nineteen or more digits.
fn has_bounded_face_refs(bytes: &[u8]) -> (b: bool)
    ensures
        b == face_refs_bounded(bytes@),
{
    let n: usize = bytes.len();
    let mut i: usize = 0;
    while i < n
        invariant
            n == bytes@.len(),
            i <= n,
            forall|k: int| 0 <= k < i && bytes@[k] == 47 ==> #[trigger] slash_ref_ok(bytes@, k),
        decreases n - i,
    {
        if bytes[i] == 47 {
            if i + 1 < n && (bytes[i + 1] == 45 || bytes[i + 1] == 43) {
                proof {
                    assert(!slash_ref_ok(bytes@, i as int));
                }
                return false;
            }
            let mut d: usize = 0;
            while d < 19 && i + 1 + d < n && 48 <= bytes[i + 1 + d] && bytes[i + 1 + d] <= 57
                invariant
                    n == bytes@.len(),
                    i < n,
                    d <= 19,
                    d > 0 ==> i + d < n,
                    forall|j: int| i + 1 <= j < i + 1 + d ==> is_digit_byte(#[trigger] bytes@[j]),
                decreases 19 - d,
            {
                d = d + 1;
            }
            if d == 19 {
                proof {
                    assert(!slash_ref_ok(bytes@, i as int));
                }
                return false;
            }
            proof {
                if i + 19 < bytes@.len() {
                    let j = i + 1 + d;
                    assert(i + 1 <= j <= i + 19 && !is_digit_byte(bytes@[j as int]));
                }
                assert(slash_ref_ok(bytes@, i as int));
            }
        }
        i = i + 1;
    }
    true
}

/// Relies on tobj::load_obj_buf with triangulation on and every other
/// option at its default: the meshes parsed from an OBJ byte stream depend
/// on the bytes alone, since no material files are read (the material
/// loader hands back an empty set). Positions are converted one for one to
/// their f32 bit patterns. The parser pushes positions three per exported
/// vertex and, with triangulation, emits every face as whole triangles —
/// points and lines are padded into degenerate triangles, quads and
/// polygons fan out three indices per step — so each mesh's position and
/// index counts are multiples of three and its indices stay below the
/// vertex count. The precondition keeps out the streams on which the
/// parser's texcoord and normal reference arithmetic could overflow and
/// panic.
#[verifier::external_body]
fn parse_obj(bytes: &[u8]) -> (r: Option<Vec<RawMesh>>)
    requires
        face_refs_bounded(bytes@),
    ensures
        r is Some <==> obj_meshes_of(bytes@) is Some,
        r matches Some(ms) ==> ({
            let parsed = obj_meshes_of(bytes@)->0;
            &&& ms@.len() == parsed.len()
            &&& forall|i: int| 0 <= i < ms@.len() ==> #[trigger] ms@[i].positions@ == parsed[i].0
                && ms@[i].indices@ == parsed[i].1
            &&& forall|i: int| 0 <= i < ms@.len() ==> #[trigger] ms@[i].positions@.len() % 3 == 0
            &&& forall|i: int| 0 <= i < ms@.len() ==> #[trigger] ms@[i].indices@.len() % 3 == 0
            &&& forall|i: int, k: int| 0 <= i < ms@.len() && 0 <= k < ms@[i].indices@.len()
                ==> (#[trigger] ms@[i].indices@[k]) as int * 3 < ms@[i].positions@.len()
        }),
{
    let mut reader = bytes;
    let options = tobj::LoadOptions { triangulate: true, ..tobj::LoadOptions::default() };
    match tobj::load_obj_buf(&mut reader, &options, |_| Ok((Vec::new(), Default::default()))) {
        Ok((models, _)) => Some(
            models.into_iter().map(
                |m| RawMesh {
                    positions: m.mesh.positions.iter().map(|p| p.to_bits()).collect(),
                    indices: m.mesh.indices,
                },
            ).collect(),
        ),
        Err(_) => None,
    }
}

/// Why a model file was rejected at startup.
#[derive(Clone, Copy, Debug, PartialEq, Eq, Structural)]
pub enum MeshError {
    /// The byte stream is not a well-formed OBJ model, or carries a face
    /// reference the loader declines (a sign or an outsized digit run
    /// right after a slash; see `face_refs_bounded`).
    Malformed,
    /// The file holds zero meshes or more than one; exactly one is required.
    NotExactlyOneMesh,
}

/// A parsed mesh with no geometry at all. An OBJ stream without any face
/// parses as exactly one such mesh: it is how a zero-mesh file comes back
/// from the parser.
pub open spec fn mesh_absent(m: (Seq<u32>, Seq<u32>)) -> bool {
    m.0.len() == 0 && m.1.len() == 0
}

/// The flat position and index buffers of the single mesh in an OBJ byte
/// stream. Rejected as malformed: a stream the parser cannot read, and one
/// with a signed or outsized reference after a slash (see
/// `face_refs_bounded`). Also rejected is a stream whose mesh count is not
/// exactly one — where a lone empty mesh counts as zero meshes. On success
/// the geometry is whole triangles: position and index counts are
/// multiples of three and every index stays below the vertex count.
pub fn obj_to_buffers(bytes: &[u8]) -> (r: Result<RawMesh, MeshError>)
    ensures
        r is Ok <==> (face_refs_bounded(bytes@) && (obj_meshes_of(bytes@) matches Some(parsed)
            && parsed.len() == 1 && !mesh_absent(parsed[0]))),
        r matches Ok(m) ==> ({
            let parsed = obj_meshes_of(bytes@)->0;
            &&& m.positions@ == parsed[0].0
            &&& m.indices@ == parsed[0].1
            &&& m.positions@.len() % 3 == 0
            &&& m.indices@.len() % 3 == 0
            &&& forall|k: int| 0 <= k < m.indices@.len() ==> (#[trigger] m.indices@[k]) as int
                * 3 < m.positions@.len()
        }),
        r == Err::<RawMesh, MeshError>(MeshError::Malformed) <==> (!face_refs_bounded(bytes@)
            || obj_meshes_of(bytes@) is None),
        r == Err::<RawMesh, MeshError>(MeshError::NotExactlyOneMesh) <==> (face_refs_bounded(
            bytes@,
        ) && (obj_meshes_of(bytes@) matches Some(parsed) && (parsed.len() != 1 || mesh_absent(
            parsed[0],
        )))),
{
    if !has_bounded_face_refs(bytes) {
        return Err(MeshError::Malformed);
    }
    match parse_obj(bytes) {
        None => Err(MeshError::Malformed),
        Some(mut meshes) => {
            if meshes.len() == 1 {
                match meshes.pop() {
                    Some(mesh) => {
                        if mesh.positions.len() == 0 && mesh.indices.len() == 0 {
                            Err(MeshError::NotExactlyOneMesh)
                        } else {
                            Ok(mesh)
                        }
                    }
                    None => Err(MeshError::NotExactlyOneMesh),
                }
            } else {
                Err(MeshError::NotExactlyOneMesh)
            }
        }
    }
}

/// A three-component vector as laid out in the GPU geometry buffers: one
/// vertex position (as f32 bit patterns) or one triangle's indices.
#[derive(Clone, Copy, Debug, PartialEq, Eq, Structural)]
pub struct Triple {
    pub v0: u32,
    pub v1: u32,
    pub v2: u32,
}

/// Groups a flat scalar buffer into consecutive triples, three scalars per
/// entry in order, exactly when the scalar count is a multiple of three.
pub fn group_triples(scalars: &Vec<u32>) -> (r: Option<Vec<Triple>>)
    ensures
        r is Some <==> scalars@.len() % 3 == 0,
        r matches Some(triples) ==> ({
            &&& triples@.len() * 3 == scalars@.len()
            &&& forall|i: int| 0 <= i < triples@.len() ==> #[trigger] triples@[i] == (Triple {
                v0: scalars@[3 * i],
                v1: scalars@[3 * i + 1],
                v2: scalars@[3 * i + 2],
            })
        }),
{
    if scalars.len() % 3 != 0 {
        return None;
    }
    let mut triples: Vec<Triple> = Vec::new();
    let mut i: usize = 0;
    while i < scalars.len()
        invariant
            i <= scalars@.len(),
            i % 3 == 0,
            scalars@.len() % 3 == 0,
            triples@.len() * 3 == i,
            forall|j: int| 0 <= j < triples@.len() ==> #[trigger] triples@[j] == (Triple {
                v0: scalars@[3 * j],
                v1: scalars@[3 * j + 1],
                v2: scalars@[3 * j + 2],
            }),
        decreases scalars@.len() - i,
    {
        triples.push(Triple { v0: scalars[i], v1: scalars[i + 1], v2: scalars[i + 2] });
        i = i + 3;
    }
    Some(triples)
}

} // verus!
