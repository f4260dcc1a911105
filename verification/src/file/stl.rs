use vstd::prelude::*;
use vstd::slice::slice_subrange;
use byteorder::{ByteOrder, LittleEndian};
use crate::geom::d3::prim::vect::Vect;

verus! {

/// One facet of an STL file: its normal, its three corners and its attribute
/// byte count. The scalar `A` is whatever stands for a coordinate; the parser
/// returns the 32 bits of each single precision number as they are stored.
pub struct Tri<A> {
    pub normal: Vect<A>,
    pub vertices: (Vect<A>, Vect<A>, Vect<A>),
    pub attr_byte_count: u16,
}

/// The content of a binary STL file: its header of 80 bytes and its facets.
pub struct Stl<A> {
    pub head: Vec<u8>,
    pub triangles: Vec<Tri<A>>,
}

/// Why a byte string is no binary STL file.
#[derive(Clone, Copy, PartialEq, Eq, Structural, Debug)]
pub enum StlError {
    /// The length is not that of a header, a count and at least one facet of 50 bytes each.
    InvalidSize,
    /// The header starts with `solid `, as a text file does.
    Ascii,
    /// Fewer than 13 bytes are left where a vector is read.
    InvalidLength,
}

/// bytes of the header
pub const HEAD_LEN: usize = 80;

/// bytes before the first facet: the header and the facet count
pub const FACETS_AT: usize = 84;

/// bytes of one facet
pub const FACET_LEN: usize = 50;

/// The unsigned number that the four bytes at `at` hold, lowest byte first.
pub open spec fn le32_at(bytes: Seq<u8>, at: int) -> u32 {
    (bytes[at] + bytes[at + 1] * 0x100 + bytes[at + 2] * 0x1_0000 + bytes[at + 3] * 0x100_0000) as u32
}

/// The unsigned number that the two bytes at `at` hold, lowest byte first.
pub open spec fn le16_at(bytes: Seq<u8>, at: int) -> u16 {
    (bytes[at] + bytes[at + 1] * 0x100) as u16
}

/// The vector of three numbers of 32 bits that the twelve bytes at `at` hold.
pub open spec fn vect_at(bytes: Seq<u8>, at: int) -> Vect<u32> {
    (le32_at(bytes, at), le32_at(bytes, at + 4), le32_at(bytes, at + 8))
}

/// The facet that the fifty bytes at `at` hold.
pub open spec fn facet_at(bytes: Seq<u8>, at: int) -> Tri<u32> {
    Tri {
        normal: vect_at(bytes, at),
        vertices: (vect_at(bytes, at + 12), vect_at(bytes, at + 24), vect_at(bytes, at + 36)),
        attr_byte_count: le16_at(bytes, at + 48),
    }
}

/// The length is that of a binary STL file with at least one facet.
pub open spec fn valid_size(len: int) -> bool {
    len > FACETS_AT && (len - FACETS_AT) % (FACET_LEN as int) == 0
}

/// The bytes start with the word `solid` and a blank.
pub open spec fn starts_as_text(bytes: Seq<u8>) -> bool {
    bytes.len() >= 6 && bytes[0] == 0x73 && bytes[1] == 0x6f && bytes[2] == 0x6c && bytes[3]
        == 0x69 && bytes[4] == 0x64 && bytes[5] == 0x20
}

/// Reads with `byteorder::LittleEndian::read_u32`: the unsigned number that
/// the first four bytes of `buf` hold, lowest byte first. The call panics on
/// fewer than four bytes.
#[verifier::external_body]
fn read_u32_le(buf: &[u8]) -> (r: u32)
    requires
        buf@.len() >= 4,
    ensures
        r == le32_at(buf@, 0),
{
    LittleEndian::read_u32(buf)
}

/// Reads with `byteorder::LittleEndian::read_u16`: the unsigned number that
/// the first two bytes of `buf` hold, lowest byte first. The call panics on
/// fewer than two bytes.
#[verifier::external_body]
fn read_u16_le(buf: &[u8]) -> (r: u16)
    requires
        buf@.len() >= 2,
    ensures
        r == le16_at(buf@, 0),
{
    LittleEndian::read_u16(buf)
}

impl<A> Tri<A> {
    pub fn new(normal: Vect<A>, vertices: (Vect<A>, Vect<A>, Vect<A>), attr_byte_count: u16) -> (tri:
        Tri<A>)
        ensures
            tri.normal == normal,
            tri.vertices == vertices,
            tri.attr_byte_count == attr_byte_count,
    {
        Tri { normal: normal, vertices: vertices, attr_byte_count: attr_byte_count }
    }

    pub fn attr_byte_count(&self) -> (r: u16)
        ensures
            r == self.attr_byte_count,
    {
        self.attr_byte_count
    }
}

impl<A: Copy> Tri<A> {
    pub fn normal(&self) -> (r: Vect<A>)
        ensures
            r == self.normal,
    {
        self.normal
    }

    pub fn vertices(&self) -> (r: (Vect<A>, Vect<A>, Vect<A>))
        ensures
            r == self.vertices,
    {
        self.vertices
    }
}

impl<A> Stl<A> {
    pub fn new(head: Vec<u8>, triangles: Vec<Tri<A>>) -> (stl: Stl<A>)
        ensures
            stl.head == head,
            stl.triangles == triangles,
    {
        Stl { head: head, triangles: triangles }
    }

    pub fn head(&self) -> (r: &Vec<u8>)
        ensures
            r == &self.head,
    {
        &self.head
    }

    pub fn triangles(&self) -> (r: &Vec<Tri<A>>)
        ensures
            r == &self.triangles,
    {
        &self.triangles
    }
}

impl Stl<u32> {
    /// The vector that starts at byte `at`; an error where no more than
    /// twelve bytes follow.
    pub fn read_vect_from_bytes(bytes: &[u8], at: usize) -> (r: Result<Vect<u32>, StlError>)
        requires
            at <= bytes@.len(),
        ensures
            bytes@.len() - at <= 12 ==> r == Err::<Vect<u32>, StlError>(StlError::InvalidLength),
            bytes@.len() - at > 12 ==> r == Ok::<Vect<u32>, StlError>(vect_at(bytes@, at as int)),
    {
        if bytes.len() - at <= 12 {
            return Err(StlError::InvalidLength);
        }
        let x = read_u32_le(slice_subrange(bytes, at, at + 4));
        let y = read_u32_le(slice_subrange(bytes, at + 4, at + 8));
        let z = read_u32_le(slice_subrange(bytes, at + 8, at + 12));

        Ok((x, y, z))
    }

    /// The content of a binary STL file.
    ///
    /// The bytes are a header of 80 bytes, a count of 4 bytes that is not
    /// looked at, and facets of 50 bytes each, of which there is at least
    /// one. A header that starts with `solid ` marks a text file.
    pub fn parse_binary(bytes: &[u8]) -> (r: Result<Stl<u32>, StlError>)
        ensures
            !valid_size(bytes@.len() as int) ==> r is Err && r->Err_0 == StlError::InvalidSize,
            valid_size(bytes@.len() as int) && starts_as_text(bytes@) ==> r is Err && r->Err_0
                == StlError::Ascii,
            valid_size(bytes@.len() as int) && !starts_as_text(bytes@) ==> r is Ok && {
                let stl = r->Ok_0;
                &&& stl.head@ == bytes@.subrange(0, HEAD_LEN as int)
                &&& stl.triangles@.len() == (bytes@.len() - FACETS_AT) / (FACET_LEN as int)
                &&& forall|i: int|
                    0 <= i < stl.triangles@.len() ==> #[trigger] stl.triangles@[i] == facet_at(
                        bytes@,
                        FACETS_AT + i * FACET_LEN,
                    )
            },
    {
        if bytes.len() <= FACETS_AT || (bytes.len() - FACETS_AT) % FACET_LEN != 0 {
            return Err(StlError::InvalidSize);
        }
        if bytes[0] == 0x73 && bytes[1] == 0x6f && bytes[2] == 0x6c && bytes[3] == 0x69 && bytes[4]
            == 0x64 && bytes[5] == 0x20 {
            return Err(StlError::Ascii);
        }
        let mut head: Vec<u8> = Vec::new();
        let mut k: usize = 0;
        while k < HEAD_LEN
            invariant
                k <= HEAD_LEN,
                bytes@.len() > 84,
                head@ == bytes@.subrange(0, k as int),
            decreases HEAD_LEN - k,
        {
            head.push(bytes[k]);
            assert(bytes@.subrange(0, k as int).push(bytes@[k as int]) == bytes@.subrange(
                0,
                k + 1,
            ));
            k += 1;
        }

        let triangle_count = (bytes.len() - FACETS_AT) / FACET_LEN;
        let mut triangles: Vec<Tri<u32>> = Vec::new();

        let mut i: usize = 0;
        while i < triangle_count
            invariant
                i <= triangle_count,
                bytes@.len() > 84,
                (bytes@.len() - 84) % 50 == 0,
                triangle_count == (bytes@.len() - 84) / 50,
                bytes@.len() <= usize::MAX,
                triangles@.len() == i,
                forall|j: int|
                    0 <= j < i ==> #[trigger] triangles@[j] == facet_at(bytes@, 84 + j * 50),
            decreases triangle_count - i,
        {
            assert(i * FACET_LEN == i * 50 && 84 + i * 50 + 50 <= bytes@.len()) by (nonlinear_arith)
                requires
                    FACET_LEN == 50,
                    i < triangle_count,
                    triangle_count == (bytes@.len() - 84) / 50,
                    (bytes@.len() - 84) % 50 == 0,
                    bytes@.len() > 84,
            ;
            let start = FACETS_AT + i * FACET_LEN;

            let normal = match Stl::read_vect_from_bytes(bytes, start) {
                Ok(vect) => vect,
                Err(err) => {
                    return Err(err);
                },
            };
            let a = match Stl::read_vect_from_bytes(bytes, start + 12) {
                Ok(vect) => vect,
                Err(err) => {
                    return Err(err);
                },
            };
            let b = match Stl::read_vect_from_bytes(bytes, start + 24) {
                Ok(vect) => vect,
                Err(err) => {
                    return Err(err);
                },
            };
            let c = match Stl::read_vect_from_bytes(bytes, start + 36) {
                Ok(vect) => vect,
                Err(err) => {
                    return Err(err);
                },
            };
            let attr_byte_count = read_u16_le(slice_subrange(bytes, start + 48, start + 50));

            let triangle = Tri::new(normal, (a, b, c), attr_byte_count);
            assert(triangle == facet_at(bytes@, 84 + i * 50));
            triangles.push(triangle);
            i += 1;
        }

        Ok(Stl::new(head, triangles))
    }
}

} // verus!
