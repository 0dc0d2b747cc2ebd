//! Decoding of Source-engine compiled map files (BSP): header, lump
//! directory, compressed lumps, the game-lump sub-directory and the
//! versioned static-prop records it carries.
use vstd::prelude::*;

pub mod bspfile;
pub mod bytes;
pub mod error;
pub mod game;
pub mod lzma;
pub mod static_prop;

pub use bspfile::{BspFile, Directories, Header, LumpEntry, LumpReader, LumpType};
pub use error::{
    BspError, EntityParseError, InvalidNeighbourError, StringError, UnsupportedLumpVersion,
    ValidationError,
};
pub use game::{GameLump, GameLumpFlags, GameLumpHeader, GameLumpType};
pub use static_prop::{
    FixedString, PropStaticGameLump, SolidType, StaticPropDictLump, StaticPropLeafLump,
    StaticPropLump, StaticPropLumpFlags, StaticPropLumps, Vector,
};
pub use lzma::lzma_decompress_with_header;

verus! {

} // verus!
