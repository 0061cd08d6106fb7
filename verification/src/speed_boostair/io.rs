//! Plain values in and out of bytes, the least significant byte first.

use vstd::prelude::*;
use vstd::slice::slice_subrange;

verus! {

/// Why a read fails.
#[derive(Debug, Clone, Copy, PartialEq, Eq, Structural)]
pub enum IoError {
    /// Fewer bytes are left than were asked for.
    UnexpectedEof,
    /// The size asked for cannot be counted in bytes.
    InvalidInput,
}

/// The number that the four bytes at `at` stand for.
pub open spec fn le_u32(bytes: Seq<u8>, at: int) -> u32 {
    (bytes[at] as int + bytes[at + 1] as int * 0x100 + bytes[at + 2] as int * 0x1_0000 + bytes[at
        + 3] as int * 0x100_0000) as u32
}

/// The signed number that the four bytes at `at` stand for.
pub open spec fn le_i32(bytes: Seq<u8>, at: int) -> i32 {
    if le_u32(bytes, at) < 0x8000_0000 {
        le_u32(bytes, at) as i32
    } else {
        (le_u32(bytes, at) - 0x1_0000_0000) as i32
    }
}

/// The four bytes that stand for `value`: what is left of it each time it
/// is divided by two hundred and fifty-six.
pub open spec fn u32_bytes(value: u32) -> Seq<u8> {
    seq![
        (value % 0x100) as u8,
        (value / 0x100 % 0x100) as u8,
        (value / 0x100 / 0x100 % 0x100) as u8,
        (value / 0x100 / 0x100 / 0x100) as u8,
    ]
}

/// The four bytes that stand for the signed `value`.
pub open spec fn i32_bytes(value: i32) -> Seq<u8> {
    if value >= 0 {
        u32_bytes(value as u32)
    } else {
        u32_bytes((value + 0x1_0000_0000) as u32)
    }
}

/// Reading the bytes of a number gives the number back.
pub proof fn lemma_u32_round_trip(value: u32)
    ensures
        u32_bytes(value).len() == 4,
        le_u32(u32_bytes(value), 0) == value,
{
    let v = value as int;
    let q1 = v / 0x100;
    let q2 = q1 / 0x100;
    let q3 = q2 / 0x100;
    assert(v == q1 * 0x100 + v % 0x100);
    assert(q1 == q2 * 0x100 + q1 % 0x100);
    assert(q2 == q3 * 0x100 + q2 % 0x100);
    assert(0 <= q3 < 0x100);
    let bytes = u32_bytes(value);
    assert(bytes[0] == v % 0x100);
    assert(bytes[1] == q1 % 0x100);
    assert(bytes[2] == q2 % 0x100);
    assert(bytes[3] == q3);
}

/// Reading the bytes of a signed number gives the number back.
pub proof fn lemma_i32_round_trip(value: i32)
    ensures
        i32_bytes(value).len() == 4,
        le_i32(i32_bytes(value), 0) == value,
{
    if value >= 0 {
        lemma_u32_round_trip(value as u32);
    } else {
        lemma_u32_round_trip((value + 0x1_0000_0000) as u32);
    }
}

/// Four bytes that were written for a number read back as the number,
/// wherever they stand.
pub proof fn lemma_read_back(data: Seq<u8>, at: int, value: u32)
    requires
        0 <= at,
        at + 4 <= data.len(),
        data.subrange(at, at + 4) == u32_bytes(value),
    ensures
        le_u32(data, at) == value,
{
    let written = data.subrange(at, at + 4);
    assert(data[at] == written[0]);
    assert(data[at + 1] == written[1]);
    assert(data[at + 2] == written[2]);
    assert(data[at + 3] == written[3]);
    assert(le_u32(data, at) == le_u32(written, 0));
    lemma_u32_round_trip(value);
}

/// Four bytes that were written for a signed number read back as the
/// number, wherever they stand.
pub proof fn lemma_read_back_signed(data: Seq<u8>, at: int, value: i32)
    requires
        0 <= at,
        at + 4 <= data.len(),
        data.subrange(at, at + 4) == i32_bytes(value),
    ensures
        le_i32(data, at) == value,
{
    let written = data.subrange(at, at + 4);
    assert(data[at] == written[0]);
    assert(data[at + 1] == written[1]);
    assert(data[at + 2] == written[2]);
    assert(data[at + 3] == written[3]);
    assert(le_u32(data, at) == le_u32(written, 0));
    lemma_i32_round_trip(value);
}

/// Bytes that are read one at a time from the front.
pub struct ByteStream<'a> {
    data: &'a [u8],
    pos: usize,
}

impl<'a> ByteStream<'a> {
    #[verifier::type_invariant]
    spec fn within(&self) -> bool {
        self.pos <= self.data@.len()
    }

    /// All the bytes, read or not.
    pub closed spec fn bytes(&self) -> Seq<u8> {
        self.data@
    }

    /// How many bytes have been read.
    pub closed spec fn position(&self) -> int {
        self.pos as int
    }

    /// The bytes that have not been read.
    pub open spec fn remaining(&self) -> Seq<u8> {
        self.bytes().skip(self.position())
    }

    /// A stream over `data`, with nothing read.
    pub fn new(data: &'a [u8]) -> (stream: Self)
        ensures
            stream.bytes() == data@,
            stream.position() == 0,
    {
        ByteStream { data, pos: 0 }
    }

    /// Returns how many bytes have been read.
    pub fn pos(&self) -> (p: usize)
        ensures
            p == self.position(),
            p <= self.bytes().len(),
    {
        proof {
            use_type_invariant(self);
        }
        self.pos
    }

    /// Reads exactly `count` bytes, or nothing where fewer are left.
    pub fn read_exact(&mut self, count: usize) -> (r: Result<&'a [u8], IoError>)
        ensures
            final(self).bytes() == old(self).bytes(),
            0 <= old(self).position() <= old(self).bytes().len(),
            match r {
                Ok(bytes) => {
                    &&& old(self).position() + count <= old(self).bytes().len()
                    &&& final(self).position() == old(self).position() + count
                    &&& bytes@ == old(self).bytes().subrange(
                        old(self).position(),
                        old(self).position() + count,
                    )
                },
                Err(e) => {
                    &&& old(self).position() + count > old(self).bytes().len()
                    &&& e == IoError::UnexpectedEof
                    &&& final(self).position() == old(self).position()
                },
            },
    {
        proof {
            use_type_invariant(&*self);
        }
        if count > self.data.len() - self.pos {
            return Err(IoError::UnexpectedEof);
        }
        let bytes = slice_subrange(self.data, self.pos, self.pos + count);
        self.pos = self.pos + count;
        Ok(bytes)
    }
}

/// Reads the number that stands at `at`.
pub fn u32_at(bytes: &[u8], at: usize) -> (value: u32)
    requires
        at + 4 <= bytes.len(),
    ensures
        value == le_u32(bytes@, at as int),
{
    let b0 = bytes[at] as u32;
    let b1 = bytes[at + 1] as u32;
    let b2 = bytes[at + 2] as u32;
    let b3 = bytes[at + 3] as u32;
    b0 + b1 * 0x100 + b2 * 0x1_0000 + b3 * 0x100_0000
}

/// Reads the signed number that stands at `at`.
pub fn i32_at(bytes: &[u8], at: usize) -> (value: i32)
    requires
        at + 4 <= bytes.len(),
    ensures
        value == le_i32(bytes@, at as int),
{
    let v = u32_at(bytes, at);
    if v < 0x8000_0000 {
        v as i32
    } else {
        (v - 0x8000_0000) as i32 + i32::MIN
    }
}

/// Reads a number from a stream.
pub fn read_val(stream: &mut ByteStream) -> (r: Result<u32, IoError>)
    ensures
        final(stream).bytes() == old(stream).bytes(),
        0 <= old(stream).position() <= old(stream).bytes().len(),
        match r {
            Ok(value) => {
                &&& old(stream).position() + 4 <= old(stream).bytes().len()
                &&& final(stream).position() == old(stream).position() + 4
                &&& value == le_u32(old(stream).bytes(), old(stream).position())
            },
            Err(e) => {
                &&& old(stream).position() + 4 > old(stream).bytes().len()
                &&& e == IoError::UnexpectedEof
                &&& final(stream).position() == old(stream).position()
            },
        },
{
    match stream.read_exact(4) {
        Ok(bytes) => Ok(u32_at(bytes, 0)),
        Err(e) => Err(e),
    }
}

/// Reads a signed number from a stream.
pub fn read_signed(stream: &mut ByteStream) -> (r: Result<i32, IoError>)
    ensures
        final(stream).bytes() == old(stream).bytes(),
        0 <= old(stream).position() <= old(stream).bytes().len(),
        match r {
            Ok(value) => {
                &&& old(stream).position() + 4 <= old(stream).bytes().len()
                &&& final(stream).position() == old(stream).position() + 4
                &&& value == le_i32(old(stream).bytes(), old(stream).position())
            },
            Err(e) => {
                &&& old(stream).position() + 4 > old(stream).bytes().len()
                &&& e == IoError::UnexpectedEof
                &&& final(stream).position() == old(stream).position()
            },
        },
{
    match stream.read_exact(4) {
        Ok(bytes) => Ok(i32_at(bytes, 0)),
        Err(e) => Err(e),
    }
}

/// Reads `count` values of `size` bytes each from a stream, as bytes. A
/// number of bytes that cannot be counted is refused before anything is
/// read.
pub fn read_array(stream: &mut ByteStream, size: usize, count: usize) -> (r: Result<
    Vec<u8>,
    IoError,
>)
    ensures
        final(stream).bytes() == old(stream).bytes(),
        0 <= old(stream).position() <= old(stream).bytes().len(),
        match r {
            Ok(values) => {
                &&& size * count <= usize::MAX
                &&& old(stream).position() + size * count <= old(stream).bytes().len()
                &&& final(stream).position() == old(stream).position() + size * count
                &&& values@ == old(stream).bytes().subrange(
                    old(stream).position(),
                    old(stream).position() + size * count,
                )
            },
            Err(e) => {
                &&& final(stream).position() == old(stream).position()
                &&& e == if size * count > usize::MAX {
                    IoError::InvalidInput
                } else {
                    IoError::UnexpectedEof
                }
                &&& size * count > usize::MAX || old(stream).position() + size * count > old(
                    stream,
                ).bytes().len()
            },
        },
{
    let total = match size.checked_mul(count) {
        Some(total) => total,
        None => {
            proof {
                use_type_invariant(&*stream);
            }
            return Err(IoError::InvalidInput);
        },
    };
    match stream.read_exact(total) {
        Ok(bytes) => Ok(vstd::slice::slice_to_vec(bytes)),
        Err(e) => Err(e),
    }
}

/// Writes a number at the end of `out`.
pub fn write_val(out: &mut Vec<u8>, value: u32)
    ensures
        final(out)@ == old(out)@ + u32_bytes(value),
{
    out.push((value % 0x100) as u8);
    out.push((value / 0x100 % 0x100) as u8);
    out.push((value / 0x100 / 0x100 % 0x100) as u8);
    out.push((value / 0x100 / 0x100 / 0x100) as u8);
    assert(out@ =~= old(out)@ + u32_bytes(value));
}

/// Writes a signed number at the end of `out`.
pub fn write_signed(out: &mut Vec<u8>, value: i32)
    ensures
        final(out)@ == old(out)@ + i32_bytes(value),
{
    if value >= 0 {
        write_val(out, value as u32);
    } else {
        let low = (value - i32::MIN) as u32;
        write_val(out, low + 0x8000_0000);
    }
}

/// Writes `values` at the end of `out`.
pub fn write_array(out: &mut Vec<u8>, values: &[u8])
    ensures
        final(out)@ == old(out)@ + values@,
{
    let mut i: usize = 0;
    while i < values.len()
        invariant
            i <= values@.len(),
            out@ == old(out)@ + values@.take(i as int),
        decreases values@.len() - i,
    {
        out.push(values[i]);
        assert(out@ =~= old(out)@ + values@.take(i + 1));
        i += 1;
    }
    assert(values@.take(values@.len() as int) =~= values@);
}

} // verus!
