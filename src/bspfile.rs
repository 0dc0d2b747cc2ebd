//! The file header, the lump directory and access to lump bytes.
use vstd::prelude::*;
use std::borrow::Cow;
use crate::bytes::{le_u32, read_u32, slice_range};
use crate::error::BspError;
use crate::lzma::{frame_outcome, lzma_decompress_with_header, viewed};
use crate::game::is_borrowed;

verus! {

/// Number of entries in the lump directory.
pub const LUMP_COUNT: usize = 64;

/// The kinds of lump, in directory order.
#[derive(Clone, Copy, Debug, PartialEq, Eq, Hash, Structural)]
pub enum LumpType {
    Entities,
    Planes,
    TextureData,
    Vertices,
    Visibility,
    Nodes,
    TextureInfo,
    Faces,
    Lighting,
    Occlusion,
    Leaves,
    FaceIds,
    Edges,
    SurfaceEdges,
    Models,
    WorldLights,
    LeafFaces,
    LeafBrushes,
    Brushes,
    BrushSides,
    Areas,
    AreaPortals,
    Unused0,
    Unused1,
    Unused2,
    Unused3,
    DisplacementInfo,
    OriginalFaces,
    PhysDisplacement,
    PhysCollide,
    VertNormals,
    VertNormalIndices,
    DisplacementLightMapAlphas,
    DisplacementVertices,
    DisplacementLightMapSamplePositions,
    GameLump,
    LeafWaterData,
    Primitives,
    PrimVertices,
    PrimIndices,
    PakFile,
    ClipPortalVertices,
    CubeMaps,
    TextureDataStringData,
    TextureDataStringTable,
    Overlays,
    LeafMinimumDistanceToWater,
    FaceMacroTextureInfo,
    DisplacementTris,
    PhysicsCollideSurface,
    WaterOverlays,
    LeafAmbientIndexHdr,
    LeafAmbientIndex,
    LightingHdr,
    WorldLightsHdr,
    LeafAmbientLightingHdr,
    LeafAmbientLighting,
    XZipPakFile,
    FacesHdr,
    MapFlags,
    OverlayFades,
    OverlaySystemLevels,
    PhysLevel,
    DisplacementMultiBlend,
}

/// Position of a lump kind in the directory.
pub open spec fn lump_index(k: LumpType) -> int {
    match k {
        LumpType::Entities => 0,
        LumpType::Planes => 1,
        LumpType::TextureData => 2,
        LumpType::Vertices => 3,
        LumpType::Visibility => 4,
        LumpType::Nodes => 5,
        LumpType::TextureInfo => 6,
        LumpType::Faces => 7,
        LumpType::Lighting => 8,
        LumpType::Occlusion => 9,
        LumpType::Leaves => 10,
        LumpType::FaceIds => 11,
        LumpType::Edges => 12,
        LumpType::SurfaceEdges => 13,
        LumpType::Models => 14,
        LumpType::WorldLights => 15,
        LumpType::LeafFaces => 16,
        LumpType::LeafBrushes => 17,
        LumpType::Brushes => 18,
        LumpType::BrushSides => 19,
        LumpType::Areas => 20,
        LumpType::AreaPortals => 21,
        LumpType::Unused0 => 22,
        LumpType::Unused1 => 23,
        LumpType::Unused2 => 24,
        LumpType::Unused3 => 25,
        LumpType::DisplacementInfo => 26,
        LumpType::OriginalFaces => 27,
        LumpType::PhysDisplacement => 28,
        LumpType::PhysCollide => 29,
        LumpType::VertNormals => 30,
        LumpType::VertNormalIndices => 31,
        LumpType::DisplacementLightMapAlphas => 32,
        LumpType::DisplacementVertices => 33,
        LumpType::DisplacementLightMapSamplePositions => 34,
        LumpType::GameLump => 35,
        LumpType::LeafWaterData => 36,
        LumpType::Primitives => 37,
        LumpType::PrimVertices => 38,
        LumpType::PrimIndices => 39,
        LumpType::PakFile => 40,
        LumpType::ClipPortalVertices => 41,
        LumpType::CubeMaps => 42,
        LumpType::TextureDataStringData => 43,
        LumpType::TextureDataStringTable => 44,
        LumpType::Overlays => 45,
        LumpType::LeafMinimumDistanceToWater => 46,
        LumpType::FaceMacroTextureInfo => 47,
        LumpType::DisplacementTris => 48,
        LumpType::PhysicsCollideSurface => 49,
        LumpType::WaterOverlays => 50,
        LumpType::LeafAmbientIndexHdr => 51,
        LumpType::LeafAmbientIndex => 52,
        LumpType::LightingHdr => 53,
        LumpType::WorldLightsHdr => 54,
        LumpType::LeafAmbientLightingHdr => 55,
        LumpType::LeafAmbientLighting => 56,
        LumpType::XZipPakFile => 57,
        LumpType::FacesHdr => 58,
        LumpType::MapFlags => 59,
        LumpType::OverlayFades => 60,
        LumpType::OverlaySystemLevels => 61,
        LumpType::PhysLevel => 62,
        LumpType::DisplacementMultiBlend => 63,
    }
}

/// The lump kind at position `i` of the directory.
pub open spec fn lump_at(i: int) -> LumpType {
    if i == 0 {
        LumpType::Entities
    } else if i == 1 {
        LumpType::Planes
    } else if i == 2 {
        LumpType::TextureData
    } else if i == 3 {
        LumpType::Vertices
    } else if i == 4 {
        LumpType::Visibility
    } else if i == 5 {
        LumpType::Nodes
    } else if i == 6 {
        LumpType::TextureInfo
    } else if i == 7 {
        LumpType::Faces
    } else if i == 8 {
        LumpType::Lighting
    } else if i == 9 {
        LumpType::Occlusion
    } else if i == 10 {
        LumpType::Leaves
    } else if i == 11 {
        LumpType::FaceIds
    } else if i == 12 {
        LumpType::Edges
    } else if i == 13 {
        LumpType::SurfaceEdges
    } else if i == 14 {
        LumpType::Models
    } else if i == 15 {
        LumpType::WorldLights
    } else if i == 16 {
        LumpType::LeafFaces
    } else if i == 17 {
        LumpType::LeafBrushes
    } else if i == 18 {
        LumpType::Brushes
    } else if i == 19 {
        LumpType::BrushSides
    } else if i == 20 {
        LumpType::Areas
    } else if i == 21 {
        LumpType::AreaPortals
    } else if i == 22 {
        LumpType::Unused0
    } else if i == 23 {
        LumpType::Unused1
    } else if i == 24 {
        LumpType::Unused2
    } else if i == 25 {
        LumpType::Unused3
    } else if i == 26 {
        LumpType::DisplacementInfo
    } else if i == 27 {
        LumpType::OriginalFaces
    } else if i == 28 {
        LumpType::PhysDisplacement
    } else if i == 29 {
        LumpType::PhysCollide
    } else if i == 30 {
        LumpType::VertNormals
    } else if i == 31 {
        LumpType::VertNormalIndices
    } else if i == 32 {
        LumpType::DisplacementLightMapAlphas
    } else if i == 33 {
        LumpType::DisplacementVertices
    } else if i == 34 {
        LumpType::DisplacementLightMapSamplePositions
    } else if i == 35 {
        LumpType::GameLump
    } else if i == 36 {
        LumpType::LeafWaterData
    } else if i == 37 {
        LumpType::Primitives
    } else if i == 38 {
        LumpType::PrimVertices
    } else if i == 39 {
        LumpType::PrimIndices
    } else if i == 40 {
        LumpType::PakFile
    } else if i == 41 {
        LumpType::ClipPortalVertices
    } else if i == 42 {
        LumpType::CubeMaps
    } else if i == 43 {
        LumpType::TextureDataStringData
    } else if i == 44 {
        LumpType::TextureDataStringTable
    } else if i == 45 {
        LumpType::Overlays
    } else if i == 46 {
        LumpType::LeafMinimumDistanceToWater
    } else if i == 47 {
        LumpType::FaceMacroTextureInfo
    } else if i == 48 {
        LumpType::DisplacementTris
    } else if i == 49 {
        LumpType::PhysicsCollideSurface
    } else if i == 50 {
        LumpType::WaterOverlays
    } else if i == 51 {
        LumpType::LeafAmbientIndexHdr
    } else if i == 52 {
        LumpType::LeafAmbientIndex
    } else if i == 53 {
        LumpType::LightingHdr
    } else if i == 54 {
        LumpType::WorldLightsHdr
    } else if i == 55 {
        LumpType::LeafAmbientLightingHdr
    } else if i == 56 {
        LumpType::LeafAmbientLighting
    } else if i == 57 {
        LumpType::XZipPakFile
    } else if i == 58 {
        LumpType::FacesHdr
    } else if i == 59 {
        LumpType::MapFlags
    } else if i == 60 {
        LumpType::OverlayFades
    } else if i == 61 {
        LumpType::OverlaySystemLevels
    } else if i == 62 {
        LumpType::PhysLevel
    } else {
        LumpType::DisplacementMultiBlend
    }
}

impl LumpType {
    /// Position of this kind in the directory.
    pub fn index(self) -> (r: usize)
        ensures
            r as int == lump_index(self),
            r < LUMP_COUNT,
    {
        match self {
            LumpType::Entities => 0,
            LumpType::Planes => 1,
            LumpType::TextureData => 2,
            LumpType::Vertices => 3,
            LumpType::Visibility => 4,
            LumpType::Nodes => 5,
            LumpType::TextureInfo => 6,
            LumpType::Faces => 7,
            LumpType::Lighting => 8,
            LumpType::Occlusion => 9,
            LumpType::Leaves => 10,
            LumpType::FaceIds => 11,
            LumpType::Edges => 12,
            LumpType::SurfaceEdges => 13,
            LumpType::Models => 14,
            LumpType::WorldLights => 15,
            LumpType::LeafFaces => 16,
            LumpType::LeafBrushes => 17,
            LumpType::Brushes => 18,
            LumpType::BrushSides => 19,
            LumpType::Areas => 20,
            LumpType::AreaPortals => 21,
            LumpType::Unused0 => 22,
            LumpType::Unused1 => 23,
            LumpType::Unused2 => 24,
            LumpType::Unused3 => 25,
            LumpType::DisplacementInfo => 26,
            LumpType::OriginalFaces => 27,
            LumpType::PhysDisplacement => 28,
            LumpType::PhysCollide => 29,
            LumpType::VertNormals => 30,
            LumpType::VertNormalIndices => 31,
            LumpType::DisplacementLightMapAlphas => 32,
            LumpType::DisplacementVertices => 33,
            LumpType::DisplacementLightMapSamplePositions => 34,
            LumpType::GameLump => 35,
            LumpType::LeafWaterData => 36,
            LumpType::Primitives => 37,
            LumpType::PrimVertices => 38,
            LumpType::PrimIndices => 39,
            LumpType::PakFile => 40,
            LumpType::ClipPortalVertices => 41,
            LumpType::CubeMaps => 42,
            LumpType::TextureDataStringData => 43,
            LumpType::TextureDataStringTable => 44,
            LumpType::Overlays => 45,
            LumpType::LeafMinimumDistanceToWater => 46,
            LumpType::FaceMacroTextureInfo => 47,
            LumpType::DisplacementTris => 48,
            LumpType::PhysicsCollideSurface => 49,
            LumpType::WaterOverlays => 50,
            LumpType::LeafAmbientIndexHdr => 51,
            LumpType::LeafAmbientIndex => 52,
            LumpType::LightingHdr => 53,
            LumpType::WorldLightsHdr => 54,
            LumpType::LeafAmbientLightingHdr => 55,
            LumpType::LeafAmbientLighting => 56,
            LumpType::XZipPakFile => 57,
            LumpType::FacesHdr => 58,
            LumpType::MapFlags => 59,
            LumpType::OverlayFades => 60,
            LumpType::OverlaySystemLevels => 61,
            LumpType::PhysLevel => 62,
            LumpType::DisplacementMultiBlend => 63,
        }
    }

    /// The kind at position `i` of the directory, if there is one.
    pub fn from_index(i: usize) -> (r: Option<LumpType>)
        ensures
            i < LUMP_COUNT ==> r == Some(lump_at(i as int)),
            i >= LUMP_COUNT ==> r is None,
    {
        match i {
            0 => Some(LumpType::Entities),
            1 => Some(LumpType::Planes),
            2 => Some(LumpType::TextureData),
            3 => Some(LumpType::Vertices),
            4 => Some(LumpType::Visibility),
            5 => Some(LumpType::Nodes),
            6 => Some(LumpType::TextureInfo),
            7 => Some(LumpType::Faces),
            8 => Some(LumpType::Lighting),
            9 => Some(LumpType::Occlusion),
            10 => Some(LumpType::Leaves),
            11 => Some(LumpType::FaceIds),
            12 => Some(LumpType::Edges),
            13 => Some(LumpType::SurfaceEdges),
            14 => Some(LumpType::Models),
            15 => Some(LumpType::WorldLights),
            16 => Some(LumpType::LeafFaces),
            17 => Some(LumpType::LeafBrushes),
            18 => Some(LumpType::Brushes),
            19 => Some(LumpType::BrushSides),
            20 => Some(LumpType::Areas),
            21 => Some(LumpType::AreaPortals),
            22 => Some(LumpType::Unused0),
            23 => Some(LumpType::Unused1),
            24 => Some(LumpType::Unused2),
            25 => Some(LumpType::Unused3),
            26 => Some(LumpType::DisplacementInfo),
            27 => Some(LumpType::OriginalFaces),
            28 => Some(LumpType::PhysDisplacement),
            29 => Some(LumpType::PhysCollide),
            30 => Some(LumpType::VertNormals),
            31 => Some(LumpType::VertNormalIndices),
            32 => Some(LumpType::DisplacementLightMapAlphas),
            33 => Some(LumpType::DisplacementVertices),
            34 => Some(LumpType::DisplacementLightMapSamplePositions),
            35 => Some(LumpType::GameLump),
            36 => Some(LumpType::LeafWaterData),
            37 => Some(LumpType::Primitives),
            38 => Some(LumpType::PrimVertices),
            39 => Some(LumpType::PrimIndices),
            40 => Some(LumpType::PakFile),
            41 => Some(LumpType::ClipPortalVertices),
            42 => Some(LumpType::CubeMaps),
            43 => Some(LumpType::TextureDataStringData),
            44 => Some(LumpType::TextureDataStringTable),
            45 => Some(LumpType::Overlays),
            46 => Some(LumpType::LeafMinimumDistanceToWater),
            47 => Some(LumpType::FaceMacroTextureInfo),
            48 => Some(LumpType::DisplacementTris),
            49 => Some(LumpType::PhysicsCollideSurface),
            50 => Some(LumpType::WaterOverlays),
            51 => Some(LumpType::LeafAmbientIndexHdr),
            52 => Some(LumpType::LeafAmbientIndex),
            53 => Some(LumpType::LightingHdr),
            54 => Some(LumpType::WorldLightsHdr),
            55 => Some(LumpType::LeafAmbientLightingHdr),
            56 => Some(LumpType::LeafAmbientLighting),
            57 => Some(LumpType::XZipPakFile),
            58 => Some(LumpType::FacesHdr),
            59 => Some(LumpType::MapFlags),
            60 => Some(LumpType::OverlayFades),
            61 => Some(LumpType::OverlaySystemLevels),
            62 => Some(LumpType::PhysLevel),
            63 => Some(LumpType::DisplacementMultiBlend),
            _ => None,
        }
    }
}

/// The directory has one position per lump kind: every kind has a position
/// below 64, distinct kinds have distinct positions, and every position
/// below 64 belongs to a kind.
pub proof fn lemma_lump_kinds_fill_directory()
    ensures
        forall|k: LumpType| 0 <= #[trigger] lump_index(k) < LUMP_COUNT,
        forall|k: LumpType| #[trigger] lump_at(lump_index(k)) == k,
        forall|i: int| 0 <= i < LUMP_COUNT ==> #[trigger] lump_index(lump_at(i)) == i,
        forall|k1: LumpType, k2: LumpType|
            #[trigger] lump_index(k1) == #[trigger] lump_index(k2) ==> k1 == k2,
{
    assert forall|k1: LumpType, k2: LumpType|
        #[trigger] lump_index(k1) == #[trigger] lump_index(k2) implies k1 == k2 by {
        assert(lump_at(lump_index(k1)) == k1);
        assert(lump_at(lump_index(k2)) == k2);
    }
}

} // verus!

verus! {

/// The four magic bytes at the start of a map file.
#[derive(Clone, Copy, Debug, PartialEq, Eq, Hash, Structural)]
pub struct Header {
    pub v: u8,
    pub b: u8,
    pub s: u8,
    pub p: u8,
}

/// One entry of the lump directory.
#[derive(Clone, Copy, Debug, PartialEq, Eq, Hash, Structural)]
pub struct LumpEntry {
    pub offset: u32,
    pub length: u32,
    /// Zero when the bytes are stored verbatim, else the uncompressed size of
    /// the compressed frame they hold.
    pub ident: u32,
    pub version: u32,
}


/// Version of the only supported file format.
pub const BSP_VERSION: u32 = 0x14;

/// Length of the magic, the version and the directory together.
pub const PREAMBLE_LEN: usize = 1032;

/// The magic bytes at the start of `s`.
pub open spec fn header_of(s: Seq<u8>) -> Header {
    Header { v: s[0], b: s[1], s: s[2], p: s[3] }
}

/// `s` starts with the ASCII magic `"VBSP"` and the supported version.
pub open spec fn header_supported(s: Seq<u8>) -> bool {
    &&& header_of(s) == (Header { v: 0x56, b: 0x42, s: 0x53, p: 0x50 })
    &&& le_u32(s, 4) == BSP_VERSION
}

/// The directory entry whose 16 bytes start at `p`.
pub open spec fn entry_at(s: Seq<u8>, p: int) -> LumpEntry {
    LumpEntry {
        offset: le_u32(s, p),
        length: le_u32(s, p + 4),
        ident: le_u32(s, p + 8),
        version: le_u32(s, p + 12),
    }
}

/// The `i`-th directory entry of the file `s`.
pub open spec fn directory_entry(s: Seq<u8>, i: int) -> LumpEntry {
    entry_at(s, 8 + 16 * i)
}

/// The lump directory: one entry per lump kind, in the order of `LumpType`.
#[derive(Debug, Clone)]
pub struct Directories {
    entries: Vec<LumpEntry>,
}

impl View for Directories {
    type V = Seq<LumpEntry>;

    closed spec fn view(&self) -> Seq<LumpEntry> {
        self.entries@
    }
}

impl Directories {
    /// Holds exactly one entry per lump kind.
    pub open spec fn wf(&self) -> bool {
        self@.len() == LUMP_COUNT
    }

    /// The entry of `lump`.
    pub fn get(&self, lump: LumpType) -> (r: &LumpEntry)
        requires
            self.wf(),
        ensures
            *r == self@[lump_index(lump)],
    {
        &self.entries[lump.index()]
    }
}

/// A map file: the bytes, its magic and its decoded directory.
pub struct BspFile<'a> {
    data: &'a [u8],
    directories: Directories,
    header: Header,
}

impl<'a> BspFile<'a> {
    /// The bytes of the file.
    pub closed spec fn spec_data(&self) -> Seq<u8> {
        self.data@
    }

    /// The entries of the directory, in the order of `LumpType`.
    pub closed spec fn spec_entries(&self) -> Seq<LumpEntry> {
        self.directories@
    }

    pub closed spec fn spec_header(&self) -> Header {
        self.header
    }

    pub open spec fn wf(&self) -> bool {
        self.spec_entries().len() == LUMP_COUNT
    }

    /// The directory entry of `lump`.
    pub open spec fn spec_entry(&self, lump: LumpType) -> LumpEntry {
        self.spec_entries()[lump_index(lump)]
    }

    /// What reading `lump` gives: `r` the bytes or the error, `borrowed`
    /// whether the bytes are a slice of the file.
    pub open spec fn lump_outcome(&self, lump: LumpType, r: Result<Seq<u8>, BspError>, borrowed: bool) -> bool {
        let e = self.spec_entry(lump);
        let end = e.offset + e.length;
        let raw = self.spec_data().subrange(e.offset as int, end);
        &&& end > self.spec_data().len() ==> r == Err::<Seq<u8>, BspError>(
            BspError::LumpOutOfBounds(e),
        )
        &&& end <= self.spec_data().len() && e.ident == 0 ==> r == Ok::<Seq<u8>, BspError>(raw)
            && borrowed
        &&& end <= self.spec_data().len() && e.ident != 0 ==> frame_outcome(
            raw,
            e.ident as u64,
            r,
        ) && (r is Ok ==> !borrowed)
    }

    /// Checks the magic and the version and reads the directory.
    pub fn new(data: &'a [u8]) -> (r: Result<BspFile<'a>, BspError>)
        ensures
            data@.len() < 8 ==> r == Err::<BspFile, BspError>(BspError::MalformedData),
            data@.len() >= 8 && !header_supported(data@) ==> r == Err::<BspFile, BspError>(
                BspError::UnexpectedHeader(header_of(data@)),
            ),
            data@.len() >= 8 && header_supported(data@) && data@.len() < PREAMBLE_LEN ==> r
                == Err::<BspFile, BspError>(BspError::MalformedData),
            data@.len() >= PREAMBLE_LEN && header_supported(data@) ==> r is Ok,
            r is Ok ==> {
                let f = r->Ok_0;
                &&& f.wf()
                &&& f.spec_data() == data@
                &&& f.spec_header() == header_of(data@)
                &&& forall|i: int|
                    0 <= i < LUMP_COUNT ==> #[trigger] f.spec_entries()[i] == directory_entry(
                        data@,
                        i,
                    )
            },
    {
        if data.len() < 8 {
            return Err(BspError::MalformedData);
        }
        let header = Header { v: data[0], b: data[1], s: data[2], p: data[3] };
        let version = read_u32(data, 4);
        if header.v != 0x56 || header.b != 0x42 || header.s != 0x53 || header.p != 0x50
            || version != BSP_VERSION {
            return Err(BspError::UnexpectedHeader(header));
        }
        if data.len() < PREAMBLE_LEN {
            return Err(BspError::MalformedData);
        }
        let mut entries: Vec<LumpEntry> = Vec::new();
        let mut i: usize = 0;
        while i < LUMP_COUNT
            invariant
                i <= LUMP_COUNT,
                data@.len() >= PREAMBLE_LEN,
                entries@.len() == i,
                forall|j: int| 0 <= j < i ==> #[trigger] entries@[j] == directory_entry(data@, j),
            decreases LUMP_COUNT - i,
        {
            let p: usize = 8 + 16 * i;
            let entry = LumpEntry {
                offset: read_u32(data, p),
                length: read_u32(data, p + 4),
                ident: read_u32(data, p + 8),
                version: read_u32(data, p + 12),
            };
            entries.push(entry);
            i += 1;
        }
        Ok(BspFile { data, directories: Directories { entries }, header })
    }

    /// The magic bytes the file starts with.
    pub fn header(&self) -> (r: &Header)
        ensures
            *r == self.spec_header(),
    {
        &self.header
    }

    /// The bytes of `lump`: borrowed from the file when stored verbatim,
    /// decompressed into a new buffer when its entry declares a compressed frame.
    pub fn get_lump(&self, lump: LumpType) -> (r: Result<Cow<'a, [u8]>, BspError>)
        requires
            self.wf(),
        ensures
            self.lump_outcome(lump, viewed(r), is_borrowed(r)),
    {
        let entry = self.directories.get(lump);
        let end: u64 = entry.offset as u64 + entry.length as u64;
        if end > self.data.len() as u64 {
            return Err(BspError::LumpOutOfBounds(*entry));
        }
        let raw = slice_range(self.data, entry.offset as usize, end as usize);
        if entry.ident == 0 {
            Ok(Cow::Borrowed(raw))
        } else {
            match lzma_decompress_with_header(raw, entry.ident as u64) {
                Ok(data) => Ok(Cow::Owned(data)),
                Err(e) => Err(e),
            }
        }
    }
}


/// The bytes of one lump together with its kind, for decoding the lump's
/// records.
pub struct LumpReader<'a> {
    data: Cow<'a, [u8]>,
    lump: LumpType,
}

impl<'a> LumpReader<'a> {
    pub closed spec fn spec_data(&self) -> Seq<u8> {
        self.data@
    }

    pub closed spec fn spec_lump(&self) -> LumpType {
        self.lump
    }

    /// The bytes are a slice of the file.
    pub closed spec fn spec_borrowed(&self) -> bool {
        self.data is Borrowed
    }

    pub fn new(data: Cow<'a, [u8]>, lump: LumpType) -> (r: LumpReader<'a>)
        ensures
            r.spec_data() == data@,
            r.spec_lump() == lump,
            r.spec_borrowed() == data is Borrowed,
    {
        LumpReader { data, lump }
    }

    /// The lump's bytes.
    pub fn data(&self) -> (r: &[u8])
        ensures
            r@ == self.spec_data(),
    {
        match &self.data {
            Cow::Borrowed(b) => b,
            Cow::Owned(v) => v.as_slice(),
        }
    }

    /// The kind of the lump.
    pub fn lump(&self) -> (r: LumpType)
        ensures
            r == self.spec_lump(),
    {
        self.lump
    }
}

/// The reader's bytes, or its error.
pub open spec fn reader_bytes(r: Result<LumpReader, BspError>) -> Result<Seq<u8>, BspError> {
    match r {
        Ok(l) => Ok(l.spec_data()),
        Err(e) => Err(e),
    }
}

impl<'a> BspFile<'a> {
    /// A reader over the bytes of `lump`, resolved as `get_lump` does.
    pub fn lump_reader(&self, lump: LumpType) -> (r: Result<LumpReader<'a>, BspError>)
        requires
            self.wf(),
        ensures
            self.lump_outcome(lump, reader_bytes(r), r is Ok && r->Ok_0.spec_borrowed()),
            r is Ok ==> r->Ok_0.spec_lump() == lump,
    {
        match self.get_lump(lump) {
            Ok(data) => Ok(LumpReader::new(data, lump)),
            Err(e) => Err(e),
        }
    }
}

} // verus!
