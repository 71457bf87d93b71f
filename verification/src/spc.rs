//! Snapshot files: the state of the audio unit at one moment, as a file of
//! fixed layout.
//!
//! | offset  | length | field                                        |
//! |---------|--------|----------------------------------------------|
//! | 0x00    | 33     | signature                                    |
//! | 0x21    | 2      | magic, 0x1a1a                                |
//! | 0x23    | 1      | 0x1a with a metadata tag, 0x1b without       |
//! | 0x24    | 1      | minor version                                |
//! | 0x25    | 2      | PC                                           |
//! | 0x27    | 5      | A, X, Y, PSW, SP                             |
//! | 0x100   | 65536  | RAM                                          |
//! | 0x10100 | 128    | register region                              |
//! | 0x101c0 | 64     | boot ROM                                     |
//!
//! Numbers of more than one byte are stored low byte first.

use vstd::prelude::*;
use binary_reader::BinaryReader;
use crate::reader::little_endian_u16;
use crate::reader::reader_jump;
use crate::reader::reader_open;
use crate::reader::reader_read_bytes;
use crate::reader::reader_read_u16;
use crate::reader::reader_read_u8;
use crate::reader::reader_set_little_endian;

verus! {

pub const RAM_LEN: usize = 0x10000;

pub const REG_LEN: usize = 128;

pub const IPL_ROM_LEN: usize = 64;

pub const HEADER_LEN: usize = 33;

/// Where the RAM image starts.
pub const RAM_OFFSET: usize = 0x100;

/// Where the boot ROM image starts.
pub const IPL_ROM_OFFSET: usize = 0x101c0;

/// The length of the shortest file that holds every field.
pub const FILE_LEN: usize = 0x10200;

/// The ASCII text "SNES-SPC700 Sound File Data v0.30".
pub const SPC_HEADER: [u8; HEADER_LEN] = [
    0x53, 0x4e, 0x45, 0x53, 0x2d, 0x53, 0x50, 0x43, 0x37, 0x30, 0x30, 0x20, 0x53, 0x6f, 0x75, 0x6e,
    0x64, 0x20, 0x46, 0x69, 0x6c, 0x65, 0x20, 0x44, 0x61, 0x74, 0x61, 0x20, 0x76, 0x30, 0x2e, 0x33,
    0x30,
];

/// The tool that wrote a snapshot.
pub enum Emulator {
    Unknown,
    ZSnes,
    Snes9x,
}

/// The metadata tag of a snapshot.
pub struct Id666 {
    pub song_title: String,
    pub game_title: String,
    pub dumper_name: String,
    pub date_dumped: String,
    pub seconds_to_play_before_fading_out: i32,
    pub fade_out_length: i32,
    pub artist_name: String,
    pub default_channel_disables: u8,
    pub dumping_emulator: Emulator,
}

pub struct Spc {
    pub header: [u8; HEADER_LEN],
    pub version_minor: u8,
    pub pc: u16,
    pub a: u8,
    pub x: u8,
    pub y: u8,
    pub psw: u8,
    pub sp: u8,
    /// Loading leaves the tag undecoded: the bytes between the registers and
    /// the RAM image play no part in the state of the machine.
    pub id666_tag: Option<Id666>,
    pub ram: [u8; RAM_LEN],
    pub regs: [u8; REG_LEN],
    pub ipl_rom: [u8; IPL_ROM_LEN],
}

/// The machine state that a snapshot holds.
pub struct SpcImage {
    pub header: Seq<u8>,
    pub version_minor: u8,
    pub pc: u16,
    pub a: u8,
    pub x: u8,
    pub y: u8,
    pub psw: u8,
    pub sp: u8,
    pub ram: Seq<u8>,
    pub regs: Seq<u8>,
    pub ipl_rom: Seq<u8>,
}

impl View for Spc {
    type V = SpcImage;

    open spec fn view(&self) -> SpcImage {
        SpcImage {
            header: self.header@,
            version_minor: self.version_minor,
            pc: self.pc,
            a: self.a,
            x: self.x,
            y: self.y,
            psw: self.psw,
            sp: self.sp,
            ram: self.ram@,
            regs: self.regs@,
            ipl_rom: self.ipl_rom@,
        }
    }
}

/// Which part of the header was not as it must be, with the value found.
#[derive(Debug, Clone, Copy, PartialEq, Eq, Structural)]
pub enum HeaderDetail {
    /// The first 33 bytes are not the signature.
    Signature,
    /// The two bytes at 0x21 are not 0x1a1a.
    Magic(u16),
    /// The byte at 0x23 is neither 0x1a nor 0x1b.
    TagMarker(u8),
}

#[derive(Debug)]
pub enum SpcError {
    InvalidHeader(HeaderDetail),
    /// The metadata tag cannot be decoded. Loading never reports this: it
    /// does not decode the tag.
    InvalidMetadata(String),
    /// The file ends before a field does.
    IoError(std::io::Error),
}

/// Why a sequence of bytes is no snapshot.
pub enum Fault {
    InvalidHeader(HeaderDetail),
    ShortRead,
}

/// What loading makes of a file's bytes. The fields are checked in the order
/// in which they lie in the file, and the first fault found is the one
/// reported.
pub open spec fn parse(bytes: Seq<u8>) -> Result<SpcImage, Fault> {
    if bytes.len() < HEADER_LEN {
        Err(Fault::ShortRead)
    } else if bytes.subrange(0, HEADER_LEN as int) != SPC_HEADER@ {
        Err(Fault::InvalidHeader(HeaderDetail::Signature))
    } else if bytes.len() < 0x23 {
        Err(Fault::ShortRead)
    } else if little_endian_u16(bytes, 0x21) != 0x1a1a {
        Err(Fault::InvalidHeader(HeaderDetail::Magic(little_endian_u16(bytes, 0x21) as u16)))
    } else if bytes.len() < 0x24 {
        Err(Fault::ShortRead)
    } else if bytes[0x23] != 0x1a && bytes[0x23] != 0x1b {
        Err(Fault::InvalidHeader(HeaderDetail::TagMarker(bytes[0x23])))
    } else if bytes.len() < FILE_LEN {
        Err(Fault::ShortRead)
    } else {
        Ok(
            SpcImage {
                header: bytes.subrange(0, HEADER_LEN as int),
                version_minor: bytes[0x24],
                pc: little_endian_u16(bytes, 0x25) as u16,
                a: bytes[0x27],
                x: bytes[0x28],
                y: bytes[0x29],
                psw: bytes[0x2a],
                sp: bytes[0x2b],
                ram: bytes.subrange(RAM_OFFSET as int, RAM_OFFSET + RAM_LEN),
                regs: bytes.subrange(RAM_OFFSET + RAM_LEN, RAM_OFFSET + RAM_LEN + REG_LEN),
                ipl_rom: bytes.subrange(IPL_ROM_OFFSET as int, IPL_ROM_OFFSET + IPL_ROM_LEN),
            },
        )
    }
}

/// Copies `bytes` into an array of their length.
fn to_array<const N: usize>(bytes: &Vec<u8>) -> (array: [u8; N])
    requires
        bytes.len() == N,
    ensures
        array@ == bytes@,
{
    let mut array: [u8; N] = [0u8; N];
    let mut i: usize = 0;
    while i < N
        invariant
            i <= N,
            bytes.len() == N,
            forall|j: int| 0 <= j < i ==> array@[j] == bytes@[j],
        decreases N - i,
    {
        array[i] = bytes[i];
        i += 1;
    }
    assert(array@ =~= bytes@);
    array
}

/// Whether `header` is the signature.
fn is_signature(header: &[u8; HEADER_LEN]) -> (same: bool)
    ensures
        same == (header@ == SPC_HEADER@),
{
    let mut i: usize = 0;
    while i < HEADER_LEN
        invariant
            i <= HEADER_LEN,
            forall|j: int| 0 <= j < i ==> header@[j] == SPC_HEADER@[j],
        decreases HEADER_LEN - i,
    {
        if header[i] != SPC_HEADER[i] {
            return false;
        }
        i += 1;
    }
    assert(header@ =~= SPC_HEADER@);
    true
}

impl Spc {
    /// Reads a snapshot from the bytes of a file.
    pub fn load(bytes: &[u8]) -> (result: Result<Spc, SpcError>)
        ensures
            match (result, parse(bytes@)) {
                (Ok(spc), Ok(image)) => spc@ == image && spc.id666_tag is None,
                (Err(SpcError::InvalidHeader(found)), Err(Fault::InvalidHeader(detail))) => found
                    == detail,
                (Err(SpcError::IoError(_)), Err(Fault::ShortRead)) => true,
                _ => false,
            },
    {
        let mut r: BinaryReader = reader_open(bytes);
        reader_set_little_endian(&mut r);

        let header: [u8; HEADER_LEN] = match reader_read_bytes(&mut r, HEADER_LEN) {
            Ok(read) => to_array(&read),
            Err(e) => {
                return Err(SpcError::IoError(e));
            },
        };
        if !is_signature(&header) {
            return Err(SpcError::InvalidHeader(HeaderDetail::Signature));
        }
        let magic: u16 = match reader_read_u16(&mut r) {
            Ok(value) => value,
            Err(e) => {
                return Err(SpcError::IoError(e));
            },
        };
        if magic != 0x1a1a {
            return Err(SpcError::InvalidHeader(HeaderDetail::Magic(magic)));
        }
        let marker: u8 = match reader_read_u8(&mut r) {
            Ok(value) => value,
            Err(e) => {
                return Err(SpcError::IoError(e));
            },
        };
        if marker != 0x1a && marker != 0x1b {
            return Err(SpcError::InvalidHeader(HeaderDetail::TagMarker(marker)));
        }
        let version_minor: u8 = match reader_read_u8(&mut r) {
            Ok(value) => value,
            Err(e) => {
                return Err(SpcError::IoError(e));
            },
        };
        let pc: u16 = match reader_read_u16(&mut r) {
            Ok(value) => value,
            Err(e) => {
                return Err(SpcError::IoError(e));
            },
        };
        let a: u8 = match reader_read_u8(&mut r) {
            Ok(value) => value,
            Err(e) => {
                return Err(SpcError::IoError(e));
            },
        };
        let x: u8 = match reader_read_u8(&mut r) {
            Ok(value) => value,
            Err(e) => {
                return Err(SpcError::IoError(e));
            },
        };
        let y: u8 = match reader_read_u8(&mut r) {
            Ok(value) => value,
            Err(e) => {
                return Err(SpcError::IoError(e));
            },
        };
        let psw: u8 = match reader_read_u8(&mut r) {
            Ok(value) => value,
            Err(e) => {
                return Err(SpcError::IoError(e));
            },
        };
        let sp: u8 = match reader_read_u8(&mut r) {
            Ok(value) => value,
            Err(e) => {
                return Err(SpcError::IoError(e));
            },
        };

        reader_jump(&mut r, RAM_OFFSET);
        let ram: [u8; RAM_LEN] = match reader_read_bytes(&mut r, RAM_LEN) {
            Ok(read) => to_array(&read),
            Err(e) => {
                return Err(SpcError::IoError(e));
            },
        };
        let regs: [u8; REG_LEN] = match reader_read_bytes(&mut r, REG_LEN) {
            Ok(read) => to_array(&read),
            Err(e) => {
                return Err(SpcError::IoError(e));
            },
        };
        reader_jump(&mut r, IPL_ROM_OFFSET);
        let ipl_rom: [u8; IPL_ROM_LEN] = match reader_read_bytes(&mut r, IPL_ROM_LEN) {
            Ok(read) => to_array(&read),
            Err(e) => {
                return Err(SpcError::IoError(e));
            },
        };

        Ok(
            Spc {
                header,
                version_minor,
                pc,
                a,
                x,
                y,
                psw,
                sp,
                id666_tag: None,
                ram,
                regs,
                ipl_rom,
            },
        )
    }
}

} // verus!
