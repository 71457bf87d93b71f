//! The byte reader that snapshot loading runs on: `binary_reader::BinaryReader`,
//! an in-memory buffer with a cursor and a byte order.
//!
//! Nothing in this file is proved. Each function hands one call to the
//! reader, and its contract says what that call does to the three things
//! named below.

use vstd::prelude::*;
use binary_reader::BinaryReader;
use binary_reader::Endian;

verus! {

/// `binary_reader::BinaryReader`, carried through verified code as an opaque
/// value.
#[verifier::external_type_specification]
#[verifier::external_body]
pub struct ExBinaryReader(BinaryReader);

/// `std::io::Error`, carried through verified code as an opaque value.
#[verifier::external_type_specification]
#[verifier::external_body]
pub struct ExIoError(std::io::Error);

/// The bytes that a reader holds (its `data`).
pub uninterp spec fn reader_data(reader: BinaryReader) -> Seq<u8>;

/// Where a reader's cursor stands (its `pos`).
pub uninterp spec fn reader_pos(reader: BinaryReader) -> usize;

/// Whether a reader decodes numbers least significant byte first (its
/// `endian` is `Endian::Little`).
pub uninterp spec fn reader_little_endian(reader: BinaryReader) -> bool;

/// The number that the two bytes at `at` and `at + 1` spell, low byte first.
pub open spec fn little_endian_u16(data: Seq<u8>, at: int) -> int {
    data[at] + 256 * data[at + 1]
}

/// `BinaryReader::from_u8`: the reader holds a copy of `bytes`, its cursor
/// stands at the start, and its byte order is the big-endian default.
#[verifier::external_body]
pub(crate) fn reader_open(bytes: &[u8]) -> (reader: BinaryReader)
    ensures
        reader_data(reader) == bytes@,
        reader_pos(reader) == 0,
        !reader_little_endian(reader),
{
    BinaryReader::from_u8(bytes)
}

/// `BinaryReader::set_endian` with `Endian::Little`: only the byte order
/// changes.
#[verifier::external_body]
pub(crate) fn reader_set_little_endian(reader: &mut BinaryReader)
    ensures
        reader_data(*final(reader)) == reader_data(*old(reader)),
        reader_pos(*final(reader)) == reader_pos(*old(reader)),
        reader_little_endian(*final(reader)),
{
    reader.set_endian(Endian::Little)
}

/// `BinaryReader::jmp`: the cursor moves to `pos`, whether or not the buffer
/// reaches that far.
#[verifier::external_body]
pub(crate) fn reader_jump(reader: &mut BinaryReader, pos: usize)
    ensures
        reader_data(*final(reader)) == reader_data(*old(reader)),
        reader_pos(*final(reader)) == pos,
        reader_little_endian(*final(reader)) == reader_little_endian(*old(reader)),
{
    reader.jmp(pos)
}

/// `BinaryReader::read_bytes`, with the bytes copied out. Where `len` bytes
/// lie between the cursor and the end of the buffer they are returned and the
/// cursor moves past them; otherwise the call fails and the cursor stays.
#[verifier::external_body]
pub(crate) fn reader_read_bytes(reader: &mut BinaryReader, len: usize) -> (result: Result<
    Vec<u8>,
    std::io::Error,
>)
    requires
        reader_pos(*old(reader)) + len <= usize::MAX,
    ensures
        reader_data(*final(reader)) == reader_data(*old(reader)),
        reader_little_endian(*final(reader)) == reader_little_endian(*old(reader)),
        result is Ok <==> reader_pos(*old(reader)) + len <= reader_data(*old(reader)).len(),
        result matches Ok(bytes) ==> {
            &&& bytes@ == reader_data(*old(reader)).subrange(
                reader_pos(*old(reader)) as int,
                reader_pos(*old(reader)) + len,
            )
            &&& reader_pos(*final(reader)) == reader_pos(*old(reader)) + len
        },
        result is Err ==> reader_pos(*final(reader)) == reader_pos(*old(reader)),
{
    reader.read_bytes(len).map(|bytes| bytes.to_vec())
}

/// `BinaryReader::read_u8`: the byte under the cursor, and the cursor moves
/// past it; at or beyond the end of the buffer the call fails and the cursor
/// stays.
#[verifier::external_body]
pub(crate) fn reader_read_u8(reader: &mut BinaryReader) -> (result: Result<u8, std::io::Error>)
    requires
        reader_pos(*old(reader)) + 1 <= usize::MAX,
    ensures
        reader_data(*final(reader)) == reader_data(*old(reader)),
        reader_little_endian(*final(reader)) == reader_little_endian(*old(reader)),
        result is Ok <==> reader_pos(*old(reader)) + 1 <= reader_data(*old(reader)).len(),
        result matches Ok(value) ==> {
            &&& value == reader_data(*old(reader))[reader_pos(*old(reader)) as int]
            &&& reader_pos(*final(reader)) == reader_pos(*old(reader)) + 1
        },
        result is Err ==> reader_pos(*final(reader)) == reader_pos(*old(reader)),
{
    reader.read_u8()
}

/// `BinaryReader::read_u16`: the two bytes under the cursor as one number,
/// and the cursor moves past them; with fewer than two bytes left the call
/// fails and the cursor stays. For a little-endian reader the first byte is
/// the low one; of the other byte orders nothing is said about the value.
#[verifier::external_body]
pub(crate) fn reader_read_u16(reader: &mut BinaryReader) -> (result: Result<u16, std::io::Error>)
    requires
        reader_pos(*old(reader)) + 2 <= usize::MAX,
    ensures
        reader_data(*final(reader)) == reader_data(*old(reader)),
        reader_little_endian(*final(reader)) == reader_little_endian(*old(reader)),
        result is Ok <==> reader_pos(*old(reader)) + 2 <= reader_data(*old(reader)).len(),
        result matches Ok(value) ==> {
            &&& reader_little_endian(*old(reader)) ==> value == little_endian_u16(
                reader_data(*old(reader)),
                reader_pos(*old(reader)) as int,
            )
            &&& reader_pos(*final(reader)) == reader_pos(*old(reader)) + 2
        },
        result is Err ==> reader_pos(*final(reader)) == reader_pos(*old(reader)),
{
    reader.read_u16()
}

} // verus!
