//! Errors reported while decoding, and the outside error types they carry.
use vstd::prelude::*;
use crate::bspfile::{Header, LumpEntry, LumpType};
use crate::game::GameLump;

verus! {

/// `std::io::Error`, carried through opaquely.
#[verifier::external_type_specification]
#[verifier::external_body]
pub struct ExIoError(std::io::Error);

/// `std::str::Utf8Error`, carried through opaquely.
#[verifier::external_type_specification]
#[verifier::external_body]
pub struct ExUtf8Error(std::str::Utf8Error);

/// `std::num::ParseFloatError`, carried through opaquely.
#[verifier::external_type_specification]
#[verifier::external_body]
pub struct ExParseFloatError(std::num::ParseFloatError);

/// `std::num::ParseIntError`, carried through opaquely.
#[verifier::external_type_specification]
#[verifier::external_body]
pub struct ExParseIntError(std::num::ParseIntError);

/// `lzma_rs::error::Error`, the codec's own failure, carried through opaquely.
#[verifier::external_type_specification]
#[verifier::external_body]
pub struct ExLzmaError(lzma_rs::error::Error);

/// `zip::result::ZipError`, a failure of the embedded pak archive.
#[verifier::external_type_specification]
#[verifier::external_body]
pub struct ExZipError(zip::result::ZipError);

/// Every way decoding a map file can fail.
#[non_exhaustive]
#[derive(Debug)]
pub enum BspError {
    /// The magic bytes or the version are not the supported pair; carries the magic read.
    UnexpectedHeader(Header),
    /// A directory entry names bytes beyond the end of the file.
    LumpOutOfBounds(LumpEntry),
    /// A game-lump entry names bytes beyond the end of its source.
    GameLumpOutOfBounds(GameLump),
    MalformedCompressedGameLump,
    /// A lump's length is not a whole number of elements.
    InvalidLumpSize { lump: LumpType, element_size: usize, lump_size: usize },
    /// A compressed frame declares another uncompressed size than the one expected.
    UnexpectedUncompressedLumpSize { got: u32, expected: u64 },
    /// A compressed frame holds another number of payload bytes than it declares.
    UnexpectedCompressedLumpSize { got: u64, expected: u32 },
    /// The LZMA codec rejected the compressed stream.
    LumpDecompressError(lzma_rs::error::Error),
    /// Reading the compressed stream failed.
    IO(std::io::Error),
    String(StringError),
    /// A fixed-size record could not be decoded (truncated input, a value outside its range).
    MalformedData,
    Validation(ValidationError),
    LumpVersion(UnsupportedLumpVersion),
    Zip(zip::result::ZipError),
}

#[derive(Debug)]
pub enum StringError {
    NonUTF8(std::str::Utf8Error),
    NotNullTerminated,
}

/// A record carries a version tag that has no known layout.
#[derive(Debug)]
pub struct UnsupportedLumpVersion {
    pub lump_type: &'static str,
    pub version: u16,
}

/// Findings on data that decoded but is inconsistent.
#[derive(Debug)]
pub enum ValidationError {
    ReferenceOutOfRange { source_: &'static str, target: &'static str, index: i64, size: usize },
    NoRootNode,
    NonSquareDisplacement(i16),
    NoStaticPropLump,
    Neighbour(InvalidNeighbourError),
}

#[derive(Debug)]
pub enum InvalidNeighbourError {
    InvalidNeighbourIndex,
    InvalidNeighbourSpan(u8),
    InvalidNeighbourOrientation(u8),
}

#[derive(Debug)]
pub enum EntityParseError {
    NoSuchProperty(&'static str),
    ElementCount,
    Float(std::num::ParseFloatError),
    Int(std::num::ParseIntError),
}

} // verus!
