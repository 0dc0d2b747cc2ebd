//! Static props: the record layouts of each version, their normalization
//! into one record, and the dictionary, leaf and record tables of the
//! static-prop game lump.
use vstd::prelude::*;
use crate::bytes::{le_i32, le_u16, le_u32, read_i32, read_u16, read_u32, read_u8, slice_range};
use crate::error::{BspError, StringError, UnsupportedLumpVersion};
use crate::game::GameLumpType;

verus! {

/// Three single-precision floats, each held as its IEEE-754 bit pattern.
#[derive(Clone, Copy, Debug, PartialEq, Eq, Structural)]
pub struct Vector {
    pub x: u32,
    pub y: u32,
    pub z: u32,
}

/// How a prop collides.
#[derive(Clone, Copy, Debug, PartialEq, Eq, Structural)]
pub enum SolidType {
    NotSolid,
    Bsp,
    Bbox,
    Obb,
    ObbYaw,
    Custom,
    Physics,
    Last,
}

/// The solid type stored as `b`, if `b` names one.
pub open spec fn solid_of(b: u8) -> Option<SolidType> {
    if b == 0 {
        Some(SolidType::NotSolid)
    } else if b == 1 {
        Some(SolidType::Bsp)
    } else if b == 2 {
        Some(SolidType::Bbox)
    } else if b == 3 {
        Some(SolidType::Obb)
    } else if b == 4 {
        Some(SolidType::ObbYaw)
    } else if b == 5 {
        Some(SolidType::Custom)
    } else if b == 6 {
        Some(SolidType::Physics)
    } else if b == 7 {
        Some(SolidType::Last)
    } else {
        None
    }
}

impl SolidType {
    pub fn from_u8(b: u8) -> (r: Option<SolidType>)
        ensures
            r == solid_of(b),
    {
        match b {
            0 => Some(SolidType::NotSolid),
            1 => Some(SolidType::Bsp),
            2 => Some(SolidType::Bbox),
            3 => Some(SolidType::Obb),
            4 => Some(SolidType::ObbYaw),
            5 => Some(SolidType::Custom),
            6 => Some(SolidType::Physics),
            7 => Some(SolidType::Last),
            _ => None,
        }
    }
}

/// Flags of a static prop, 32 bits wide.
#[derive(Clone, Copy, Debug, PartialEq, Eq, Structural)]
pub struct StaticPropLumpFlags {
    pub bits: u32,
}

impl StaticPropLumpFlags {
    pub const FLAG_FADES: u32 = 0x1;
    pub const USE_LIGHTING_ORIGIN: u32 = 0x2;
    pub const NO_DRAW: u32 = 0x4;
    pub const IGNORE_NORMALS: u32 = 0x8;
    pub const NO_SHADOW: u32 = 0x10;
    pub const SCREEN_SPACE_FADE: u32 = 0x20;
    pub const NO_PER_VERTEX_LIGHTING: u32 = 0x40;
    pub const NO_SELF_SHADOWING: u32 = 0x80;
    pub const NO_PER_TEXEL_LIGHTING: u32 = 0x100;

    pub fn bits(&self) -> (r: u32)
        ensures
            r == self.bits,
    {
        self.bits
    }

    /// Every bit of `flag` is set.
    pub fn contains(&self, flag: u32) -> (r: bool)
        ensures
            r == (self.bits & flag == flag),
    {
        self.bits & flag == flag
    }
}

/// Flags of a version-6 static prop, 8 bits wide; their bits are the low
/// bits of `StaticPropLumpFlags`.
#[derive(Clone, Copy, Debug)]
struct StaticPropLumpFlagsV6 {
    bits: u8,
}

/// A placed static prop, whatever layout it was stored in. Floats are held as
/// their IEEE-754 bit patterns.
#[derive(Clone, Copy, Debug)]
pub struct StaticPropLump {
    pub origin: Vector,
    /// Pitch, yaw and roll in degrees, applied yaw first, then pitch, then roll.
    pub angles: [u32; 3],
    pub prop_type: u16,
    pub first_leaf: u16,
    pub leaf_count: u16,
    pub solid: SolidType,
    pub skin: i32,
    pub fade_min_distance: u32,
    pub fade_max_distance: u32,
    pub lighting_origin: Vector,
    pub forced_fade_scale: u32,
    pub min_dx_level: u16,
    pub max_dx_level: u16,
    pub flags: StaticPropLumpFlags,
    pub lightmap_resolution: [u16; 2],
}

/// The layout of version 6: no pad byte, flags 8 bits wide, no lightmap resolution.
struct StaticPropLumpV6 {
    origin: Vector,
    angles: [u32; 3],
    prop_type: u16,
    first_leaf: u16,
    leaf_count: u16,
    solid: SolidType,
    flags: StaticPropLumpFlagsV6,
    skin: i32,
    fade_min_distance: u32,
    fade_max_distance: u32,
    lighting_origin: Vector,
    forced_fade_scale: u32,
    min_dx_level: u16,
    max_dx_level: u16,
}

/// The layout shared by versions 7, 9 and 10: a pad byte after the solid
/// type, flags 32 bits wide and a lightmap resolution at the end.
struct StaticPropLumpV10 {
    origin: Vector,
    angles: [u32; 3],
    prop_type: u16,
    first_leaf: u16,
    leaf_count: u16,
    solid: SolidType,
    skin: i32,
    fade_min_distance: u32,
    fade_max_distance: u32,
    lighting_origin: Vector,
    forced_fade_scale: u32,
    min_dx_level: u16,
    max_dx_level: u16,
    flags: StaticPropLumpFlags,
    lightmap_resolution: [u16; 2],
}

/// Length of a version-6 record.
pub const STATIC_PROP_V6_LEN: usize = 64;

/// Length of a record of version 7, 9 or 10.
pub const STATIC_PROP_V10_LEN: usize = 72;

/// The version tags that a static-prop record layout is known for.
pub open spec fn static_prop_version_known(version: u16) -> bool {
    version == 6 || version == 7 || version == 9 || version == 10
}

/// Length of a record of a known version.
pub open spec fn static_prop_len(version: u16) -> int {
    if version == 6 {
        STATIC_PROP_V6_LEN as int
    } else {
        STATIC_PROP_V10_LEN as int
    }
}

/// The vector whose 12 bytes start at `p`.
pub open spec fn vector_at(s: Seq<u8>, p: int) -> Vector {
    Vector { x: le_u32(s, p), y: le_u32(s, p + 4), z: le_u32(s, p + 8) }
}

/// The record at `p` of `s` with the fields that both layouts store at the
/// same place, and the given solid type, flags and lightmap resolution.
pub open spec fn static_prop_with(
    s: Seq<u8>,
    p: int,
    solid: SolidType,
    flags: u32,
    lightmap_resolution: [u16; 2],
) -> StaticPropLump {
    StaticPropLump {
        origin: vector_at(s, p),
        angles: [le_u32(s, p + 12), le_u32(s, p + 16), le_u32(s, p + 20)],
        prop_type: le_u16(s, p + 24),
        first_leaf: le_u16(s, p + 26),
        leaf_count: le_u16(s, p + 28),
        solid,
        skin: le_i32(s, p + 32),
        fade_min_distance: le_u32(s, p + 36),
        fade_max_distance: le_u32(s, p + 40),
        lighting_origin: vector_at(s, p + 44),
        forced_fade_scale: le_u32(s, p + 56),
        min_dx_level: le_u16(s, p + 60),
        max_dx_level: le_u16(s, p + 62),
        flags: StaticPropLumpFlags { bits: flags },
        lightmap_resolution,
    }
}

/// The record of version `version` stored at `p` of `s`, normalized.
pub open spec fn static_prop_at(s: Seq<u8>, p: int, version: u16) -> Result<
    StaticPropLump,
    BspError,
> {
    if !static_prop_version_known(version) {
        Err(BspError::LumpVersion(UnsupportedLumpVersion { lump_type: "static props", version }))
    } else if p + static_prop_len(version) > s.len() {
        Err(BspError::MalformedData)
    } else {
        match solid_of(s[p + 30]) {
            None => Err(BspError::MalformedData),
            Some(solid) => if version == 6 {
                Ok(static_prop_with(s, p, solid, s[p + 31] as u32, [0u16, 0u16]))
            } else {
                Ok(
                    static_prop_with(
                        s,
                        p,
                        solid,
                        le_u32(s, p + 64),
                        [le_u16(s, p + 68), le_u16(s, p + 70)],
                    ),
                )
            },
        }
    }
}

fn read_vector(data: &[u8], p: usize) -> (r: Vector)
    requires
        p + 12 <= data@.len() <= usize::MAX,
    ensures
        r == vector_at(data@, p as int),
{
    Vector { x: read_u32(data, p), y: read_u32(data, p + 4), z: read_u32(data, p + 8) }
}

impl StaticPropLumpV6 {
    fn read(data: &[u8], p: usize) -> (r: Result<StaticPropLumpV6, BspError>)
        requires
            p + STATIC_PROP_V6_LEN <= data@.len() <= usize::MAX,
        ensures
            solid_of(data@[p + 30]) is None ==> r == Err::<StaticPropLumpV6, BspError>(BspError::MalformedData),
            solid_of(data@[p + 30]) is Some ==> r is Ok,
            r is Ok ==> solid_of(data@[p + 30]) == Some(r->Ok_0.solid) && ({
                let v = r->Ok_0;
                let c = static_prop_with(data@, p as int, v.solid, 0, [0u16, 0u16]);
                &&& v.origin == c.origin && v.angles == c.angles && v.prop_type == c.prop_type
                &&& v.first_leaf == c.first_leaf && v.leaf_count == c.leaf_count
                &&& v.flags.bits == data@[p + 31]
                &&& v.skin == c.skin && v.fade_min_distance == c.fade_min_distance
                &&& v.fade_max_distance == c.fade_max_distance
                &&& v.lighting_origin == c.lighting_origin
                &&& v.forced_fade_scale == c.forced_fade_scale
                &&& v.min_dx_level == c.min_dx_level && v.max_dx_level == c.max_dx_level
            }),
    {
        let solid = match SolidType::from_u8(read_u8(data, p + 30)) {
            Some(solid) => solid,
            None => return Err(BspError::MalformedData),
        };
        Ok(StaticPropLumpV6 {
            origin: read_vector(data, p),
            angles: [read_u32(data, p + 12), read_u32(data, p + 16), read_u32(data, p + 20)],
            prop_type: read_u16(data, p + 24),
            first_leaf: read_u16(data, p + 26),
            leaf_count: read_u16(data, p + 28),
            solid,
            flags: StaticPropLumpFlagsV6 { bits: read_u8(data, p + 31) },
            skin: read_i32(data, p + 32),
            fade_min_distance: read_u32(data, p + 36),
            fade_max_distance: read_u32(data, p + 40),
            lighting_origin: read_vector(data, p + 44),
            forced_fade_scale: read_u32(data, p + 56),
            min_dx_level: read_u16(data, p + 60),
            max_dx_level: read_u16(data, p + 62),
        })
    }
}

impl StaticPropLumpV10 {
    fn read(data: &[u8], p: usize) -> (r: Result<StaticPropLumpV10, BspError>)
        requires
            p + STATIC_PROP_V10_LEN <= data@.len() <= usize::MAX,
        ensures
            solid_of(data@[p + 30]) is None ==> r == Err::<StaticPropLumpV10, BspError>(BspError::MalformedData),
            solid_of(data@[p + 30]) is Some ==> r is Ok,
            r is Ok ==> solid_of(data@[p + 30]) == Some(r->Ok_0.solid) && ({
                let v = r->Ok_0;
                let c = static_prop_with(
                    data@,
                    p as int,
                    v.solid,
                    le_u32(data@, p + 64),
                    [le_u16(data@, p + 68), le_u16(data@, p + 70)],
                );
                &&& v.origin == c.origin && v.angles == c.angles && v.prop_type == c.prop_type
                &&& v.first_leaf == c.first_leaf && v.leaf_count == c.leaf_count
                &&& v.flags == c.flags && v.lightmap_resolution == c.lightmap_resolution
                &&& v.skin == c.skin && v.fade_min_distance == c.fade_min_distance
                &&& v.fade_max_distance == c.fade_max_distance
                &&& v.lighting_origin == c.lighting_origin
                &&& v.forced_fade_scale == c.forced_fade_scale
                &&& v.min_dx_level == c.min_dx_level && v.max_dx_level == c.max_dx_level
            }),
    {
        let solid = match SolidType::from_u8(read_u8(data, p + 30)) {
            Some(solid) => solid,
            None => return Err(BspError::MalformedData),
        };
        // byte p + 31 is padding
        Ok(StaticPropLumpV10 {
            origin: read_vector(data, p),
            angles: [read_u32(data, p + 12), read_u32(data, p + 16), read_u32(data, p + 20)],
            prop_type: read_u16(data, p + 24),
            first_leaf: read_u16(data, p + 26),
            leaf_count: read_u16(data, p + 28),
            solid,
            skin: read_i32(data, p + 32),
            fade_min_distance: read_u32(data, p + 36),
            fade_max_distance: read_u32(data, p + 40),
            lighting_origin: read_vector(data, p + 44),
            forced_fade_scale: read_u32(data, p + 56),
            min_dx_level: read_u16(data, p + 60),
            max_dx_level: read_u16(data, p + 62),
            flags: StaticPropLumpFlags { bits: read_u32(data, p + 64) },
            lightmap_resolution: [read_u16(data, p + 68), read_u16(data, p + 70)],
        })
    }
}

impl StaticPropLumpFlagsV6 {
    /// The same flags in the 32-bit set.
    fn widen(self) -> (r: StaticPropLumpFlags)
        ensures
            r.bits == self.bits as u32,
    {
        StaticPropLumpFlags { bits: self.bits as u32 }
    }
}

impl StaticPropLump {
    /// Normalizes a version-6 record: flags widened, lightmap resolution zero.
    fn from_v6(from: StaticPropLumpV6) -> (r: StaticPropLump)
        ensures
            r == (StaticPropLump {
                origin: from.origin,
                angles: from.angles,
                prop_type: from.prop_type,
                first_leaf: from.first_leaf,
                leaf_count: from.leaf_count,
                solid: from.solid,
                skin: from.skin,
                fade_min_distance: from.fade_min_distance,
                fade_max_distance: from.fade_max_distance,
                lighting_origin: from.lighting_origin,
                forced_fade_scale: from.forced_fade_scale,
                min_dx_level: from.min_dx_level,
                max_dx_level: from.max_dx_level,
                flags: StaticPropLumpFlags { bits: from.flags.bits as u32 },
                lightmap_resolution: [0u16, 0u16],
            }),
    {
        StaticPropLump {
            origin: from.origin,
            angles: from.angles,
            prop_type: from.prop_type,
            first_leaf: from.first_leaf,
            leaf_count: from.leaf_count,
            solid: from.solid,
            skin: from.skin,
            fade_min_distance: from.fade_min_distance,
            fade_max_distance: from.fade_max_distance,
            lighting_origin: from.lighting_origin,
            forced_fade_scale: from.forced_fade_scale,
            min_dx_level: from.min_dx_level,
            max_dx_level: from.max_dx_level,
            flags: from.flags.widen(),
            lightmap_resolution: [0, 0],
        }
    }

    /// Takes over a record of version 7, 9 or 10 field by field.
    fn from_v10(from: StaticPropLumpV10) -> (r: StaticPropLump)
        ensures
            r == (StaticPropLump {
                origin: from.origin,
                angles: from.angles,
                prop_type: from.prop_type,
                first_leaf: from.first_leaf,
                leaf_count: from.leaf_count,
                solid: from.solid,
                skin: from.skin,
                fade_min_distance: from.fade_min_distance,
                fade_max_distance: from.fade_max_distance,
                lighting_origin: from.lighting_origin,
                forced_fade_scale: from.forced_fade_scale,
                min_dx_level: from.min_dx_level,
                max_dx_level: from.max_dx_level,
                flags: from.flags,
                lightmap_resolution: from.lightmap_resolution,
            }),
    {
        StaticPropLump {
            origin: from.origin,
            angles: from.angles,
            prop_type: from.prop_type,
            first_leaf: from.first_leaf,
            leaf_count: from.leaf_count,
            solid: from.solid,
            skin: from.skin,
            fade_min_distance: from.fade_min_distance,
            fade_max_distance: from.fade_max_distance,
            lighting_origin: from.lighting_origin,
            forced_fade_scale: from.forced_fade_scale,
            min_dx_level: from.min_dx_level,
            max_dx_level: from.max_dx_level,
            flags: from.flags,
            lightmap_resolution: from.lightmap_resolution,
        }
    }

    /// Reads the record of version `version` at `p` of `data` in the layout
    /// of that version, and normalizes it.
    pub fn read_options(data: &[u8], p: usize, version: u16) -> (r: Result<StaticPropLump, BspError>)
        ensures
            r == static_prop_at(data@, p as int, version),
    {
        if version == 6 {
            if data.len() < STATIC_PROP_V6_LEN || p > data.len() - STATIC_PROP_V6_LEN {
                return Err(BspError::MalformedData);
            }
            match StaticPropLumpV6::read(data, p) {
                Ok(v6) => Ok(StaticPropLump::from_v6(v6)),
                Err(e) => Err(e),
            }
        } else if version == 7 || version == 9 || version == 10 {
            if data.len() < STATIC_PROP_V10_LEN || p > data.len() - STATIC_PROP_V10_LEN {
                return Err(BspError::MalformedData);
            }
            match StaticPropLumpV10::read(data, p) {
                Ok(v10) => Ok(StaticPropLump::from_v10(v10)),
                Err(e) => Err(e),
            }
        } else {
            Err(BspError::LumpVersion(UnsupportedLumpVersion { lump_type: "static props", version }))
        }
    }
}


/// The shared fields of two normalized records are equal.
pub open spec fn same_shared_fields(a: StaticPropLump, b: StaticPropLump) -> bool {
    &&& a.origin == b.origin
    &&& a.angles == b.angles
    &&& a.prop_type == b.prop_type
    &&& a.first_leaf == b.first_leaf
    &&& a.leaf_count == b.leaf_count
    &&& a.solid == b.solid
    &&& a.skin == b.skin
    &&& a.fade_min_distance == b.fade_min_distance
    &&& a.fade_max_distance == b.fade_max_distance
    &&& a.lighting_origin == b.lighting_origin
    &&& a.forced_fade_scale == b.forced_fade_scale
    &&& a.min_dx_level == b.min_dx_level
    &&& a.max_dx_level == b.max_dx_level
}

/// Equal bytes at `p6 + k .. p6 + k + 4` and `p10 + k .. p10 + k + 4` read as
/// equal integers.
proof fn lemma_le_u32_same(s6: Seq<u8>, p6: int, s10: Seq<u8>, p10: int, k: int)
    requires
        forall|i: int| k <= i < k + 4 ==> #[trigger] s6[p6 + i] == s10[p10 + i],
    ensures
        le_u32(s6, p6 + k) == le_u32(s10, p10 + k),
{
    assert(s6[p6 + k] == s10[p10 + k]);
    assert(s6[p6 + (k + 1)] == s10[p10 + (k + 1)]);
    assert(s6[p6 + (k + 2)] == s10[p10 + (k + 2)]);
    assert(s6[p6 + (k + 3)] == s10[p10 + (k + 3)]);
    assert(p6 + k + 1 == p6 + (k + 1) && p10 + k + 1 == p10 + (k + 1));
    assert(p6 + k + 2 == p6 + (k + 2) && p10 + k + 2 == p10 + (k + 2));
    assert(p6 + k + 3 == p6 + (k + 3) && p10 + k + 3 == p10 + (k + 3));
}

/// Equal bytes at `p6 + k .. p6 + k + 2` and `p10 + k .. p10 + k + 2` read as
/// equal integers.
proof fn lemma_le_u16_same(s6: Seq<u8>, p6: int, s10: Seq<u8>, p10: int, k: int)
    requires
        forall|i: int| k <= i < k + 2 ==> #[trigger] s6[p6 + i] == s10[p10 + i],
    ensures
        le_u16(s6, p6 + k) == le_u16(s10, p10 + k),
{
    assert(s6[p6 + k] == s10[p10 + k]);
    assert(s6[p6 + (k + 1)] == s10[p10 + (k + 1)]);
    assert(p6 + k + 1 == p6 + (k + 1) && p10 + k + 1 == p10 + (k + 1));
}

/// A version-6 record and an extended record (version 7, 9 or 10) that
/// store the same bytes for the fields they share normalize to records with
/// equal shared fields; the version-6 record's lightmap resolution is zero.
pub proof fn lemma_v6_and_extended_agree(s6: Seq<u8>, p6: int, s10: Seq<u8>, p10: int, version: u16)
    requires
        version == 7 || version == 9 || version == 10,
        0 <= p6,
        p6 + STATIC_PROP_V6_LEN <= s6.len(),
        0 <= p10,
        p10 + STATIC_PROP_V10_LEN <= s10.len(),
        forall|i: int| 0 <= i < STATIC_PROP_V6_LEN && i != 31 ==> #[trigger] s6[p6 + i] == s10[p10 + i],
    ensures
        static_prop_at(s6, p6, 6) is Ok <==> static_prop_at(s10, p10, version) is Ok,
        static_prop_at(s6, p6, 6) is Ok ==> {
            let a = static_prop_at(s6, p6, 6)->Ok_0;
            let b = static_prop_at(s10, p10, version)->Ok_0;
            &&& same_shared_fields(a, b)
            &&& a.lightmap_resolution == [0u16, 0u16]
        },
{
    assert(s6[p6 + 30] == s10[p10 + 30]);
    lemma_le_u32_same(s6, p6, s10, p10, 0);
    lemma_le_u32_same(s6, p6, s10, p10, 4);
    lemma_le_u32_same(s6, p6, s10, p10, 8);
    lemma_le_u32_same(s6, p6, s10, p10, 12);
    lemma_le_u32_same(s6, p6, s10, p10, 16);
    lemma_le_u32_same(s6, p6, s10, p10, 20);
    lemma_le_u16_same(s6, p6, s10, p10, 24);
    lemma_le_u16_same(s6, p6, s10, p10, 26);
    lemma_le_u16_same(s6, p6, s10, p10, 28);
    lemma_le_u32_same(s6, p6, s10, p10, 32);
    lemma_le_u32_same(s6, p6, s10, p10, 36);
    lemma_le_u32_same(s6, p6, s10, p10, 40);
    lemma_le_u32_same(s6, p6, s10, p10, 44);
    lemma_le_u32_same(s6, p6, s10, p10, 48);
    lemma_le_u32_same(s6, p6, s10, p10, 52);
    lemma_le_u32_same(s6, p6, s10, p10, 56);
    lemma_le_u16_same(s6, p6, s10, p10, 60);
    lemma_le_u16_same(s6, p6, s10, p10, 62);
}

/// Width of a name in the static-prop dictionary.
pub const NAME_LEN: usize = 128;

/// The characters that the UTF-8 bytes `b` encode.
pub uninterp spec fn utf8_decoded(b: Seq<u8>) -> Seq<char>;

/// The bytes `b` are valid UTF-8.
pub uninterp spec fn utf8_valid(b: Seq<u8>) -> bool;

/// Relies on `std::str::from_utf8`: it succeeds exactly on valid UTF-8, which
/// every ASCII sequence is, and the string then holds the characters that the
/// bytes encode, which depend on the bytes alone.
#[verifier::external_body]
fn utf8_string(b: &[u8]) -> (r: Result<String, std::str::Utf8Error>)
    ensures
        r is Ok <==> utf8_valid(b@),
        (forall|i: int| 0 <= i < b@.len() ==> #[trigger] b@[i] < 0x80) ==> r is Ok,
        r is Ok ==> r->Ok_0@ == utf8_decoded(b@),
{
    std::str::from_utf8(b).map(|v| v.to_string())
}

/// A null-terminated name stored in a field of `NAME_LEN` bytes.
#[derive(Debug, Clone)]
pub struct FixedString {
    pub value: String,
}

/// `n` is the position of the first zero byte in the name field at `p`.
pub open spec fn first_nul(s: Seq<u8>, p: int, n: int) -> bool {
    &&& 0 <= n < NAME_LEN
    &&& s[p + n] == 0
    &&& forall|j: int| 0 <= j < n ==> #[trigger] s[p + j] != 0
}

/// `v` is what the name field at `p` holds: the bytes before its first zero
/// byte, decoded as UTF-8.
pub open spec fn name_decoded(s: Seq<u8>, p: int, v: Seq<char>) -> bool {
    exists|n: int| #[trigger] first_nul(s, p, n) && v == utf8_decoded(s.subrange(p, p + n))
}

/// The name field at `p` holds a zero byte and the bytes before the first
/// one are valid UTF-8.
pub open spec fn name_valid(s: Seq<u8>, p: int) -> bool {
    exists|n: int| #[trigger] first_nul(s, p, n) && utf8_valid(s.subrange(p, p + n))
}

/// `e` is the error for the name field at `p` that does not decode.
pub open spec fn name_error(s: Seq<u8>, p: int, e: BspError) -> bool {
    &&& !has_nul(s, p) ==> e == BspError::String(StringError::NotNullTerminated)
    &&& has_nul(s, p) ==> e is String && e->String_0 is NonUTF8
}

/// The name field at `p` holds a zero byte.
pub open spec fn has_nul(s: Seq<u8>, p: int) -> bool {
    exists|j: int| 0 <= j < NAME_LEN && #[trigger] s[p + j] == 0
}

impl FixedString {
    /// Reads the name field at `p`: the bytes before its first zero byte,
    /// decoded as UTF-8.
    pub fn read(data: &[u8], p: usize) -> (r: Result<FixedString, BspError>)
        requires
            p + NAME_LEN <= data@.len() <= usize::MAX,
        ensures
            !has_nul(data@, p as int) ==> r == Err::<FixedString, BspError>(
                BspError::String(StringError::NotNullTerminated),
            ),
            r is Ok <==> name_valid(data@, p as int),
            r is Ok ==> name_decoded(data@, p as int, r->Ok_0.value@),
            r is Err ==> name_error(data@, p as int, r->Err_0),
    {
        let mut n: usize = 0;
        while n < NAME_LEN
            invariant
                n <= NAME_LEN,
                p + NAME_LEN <= data@.len() <= usize::MAX,
                forall|j: int| 0 <= j < n ==> #[trigger] data@[p + j] != 0,
            decreases NAME_LEN - n,
        {
            if data[p + n] == 0 {
                let bytes = slice_range(data, p, p + n);
                assert(first_nul(data@, p as int, n as int));
                assert(has_nul(data@, p as int));
                proof {
                    assert forall|m: int| #[trigger] first_nul(data@, p as int, m) implies m == n by {
                        if m < n {
                            assert(data@[p + m] != 0);
                        } else if m > n {
                            assert(data@[p + (n as int)] != 0);
                        }
                    }
                }
                return match utf8_string(bytes) {
                    Ok(value) => Ok(FixedString { value }),
                    Err(e) => Err(BspError::String(StringError::NonUTF8(e))),
                };
            }
            n += 1;
        }
        Err(BspError::String(StringError::NotNullTerminated))
    }

    pub fn as_str(&self) -> (r: &str)
        ensures
            r@ == self.value@,
    {
        self.value.as_str()
    }
}

/// Position of name field `i` of the name table at `p`.
pub open spec fn name_pos(p: int, i: int) -> int {
    p + 4 + NAME_LEN * i
}

/// Every name field of the name table at `p` decodes.
pub open spec fn names_valid(s: Seq<u8>, p: int) -> bool {
    forall|i: int| 0 <= i < le_i32(s, p) ==> #[trigger] name_valid(s, name_pos(p, i))
}

/// `j` is the first name field of the name table at `p` that does not decode.
pub open spec fn first_invalid_name(s: Seq<u8>, p: int, j: int) -> bool {
    &&& 0 <= j < le_i32(s, p)
    &&& !name_valid(s, name_pos(p, j))
    &&& forall|k: int| 0 <= k < j ==> #[trigger] name_valid(s, name_pos(p, k))
}

/// The names of the models that static props use, indexed by `prop_type`.
#[derive(Debug, Clone)]
pub struct StaticPropDictLump {
    pub entries: i32,
    pub name: Vec<FixedString>,
}

/// The leaves that static props stand in, indexed by their leaf ranges.
#[derive(Debug, Clone)]
pub struct StaticPropLeafLump {
    pub entries: i32,
    pub leaves: Vec<u16>,
}

/// The static-prop records.
#[derive(Debug, Clone)]
pub struct StaticPropLumps {
    pub entries: i32,
    pub props: Vec<StaticPropLump>,
}

/// The whole static-prop game lump: dictionary, leaves and records, one
/// after the other.
#[derive(Debug, Clone)]
pub struct PropStaticGameLump {
    pub dict: StaticPropDictLump,
    pub leaf: StaticPropLeafLump,
    pub props: StaticPropLumps,
}

/// A table of `count` elements of `width` bytes after a 4-byte count at `p`
/// fits in `s`.
pub open spec fn table_fits(s: Seq<u8>, p: int, width: int) -> bool {
    &&& p + 4 <= s.len()
    &&& le_i32(s, p) >= 0
    &&& p + 4 + width * le_i32(s, p) <= s.len()
}

/// Position just after the table of elements of `width` bytes at `p`.
pub open spec fn table_end(s: Seq<u8>, p: int, width: int) -> int {
    p + 4 + width * le_i32(s, p)
}

/// Reads the count at `p` of a table of elements `width` bytes wide, and
/// checks that the table fits.
fn read_table_count(data: &[u8], p: usize, width: usize) -> (r: Result<usize, BspError>)
    requires
        1 <= width <= NAME_LEN,
    ensures
        !table_fits(data@, p as int, width as int) ==> r == Err::<usize, BspError>(
            BspError::MalformedData,
        ),
        table_fits(data@, p as int, width as int) ==> r == Ok::<usize, BspError>(
            le_i32(data@, p as int) as usize,
        ),
        data@.len() <= usize::MAX,
{
    if data.len() < 4 || p > data.len() - 4 {
        return Err(BspError::MalformedData);
    }
    let count = read_i32(data, p);
    if count < 0 || (data.len() - p - 4) / width < count as usize {
        proof {
            if count >= 0 {
                let q = (data@.len() - p - 4) / (width as int);
                assert(width * (q + 1) > data@.len() - p - 4) by (nonlinear_arith)
                    requires
                        q == (data@.len() - p - 4) / (width as int),
                        data@.len() >= p + 4,
                        width >= 1,
                ;
                assert(width * (q + 1) <= width * count) by (nonlinear_arith)
                    requires
                        q < count,
                        width >= 1,
                ;
            }
        }
        return Err(BspError::MalformedData);
    }
    proof {
        let q = (data@.len() - p - 4) / (width as int);
        assert(width * count <= width * q) by (nonlinear_arith)
            requires
                count <= q,
                width >= 1,
        ;
        assert(width * q <= data@.len() - p - 4) by (nonlinear_arith)
            requires
                q == (data@.len() - p - 4) / (width as int),
                data@.len() >= p + 4,
                width >= 1,
        ;
    }
    Ok(count as usize)
}

impl StaticPropLeafLump {
    /// Reads the leaf table at `p`; also gives the position after it.
    pub fn read(data: &[u8], p: usize) -> (r: Result<(StaticPropLeafLump, usize), BspError>)
        ensures
            !table_fits(data@, p as int, 2) ==> r == Err::<(StaticPropLeafLump, usize), BspError>(
                BspError::MalformedData,
            ),
            table_fits(data@, p as int, 2) ==> r is Ok,
            r is Ok ==> {
                let (l, next) = r->Ok_0;
                &&& l.entries == le_i32(data@, p as int)
                &&& l.leaves@.len() == l.entries
                &&& next == table_end(data@, p as int, 2)
                &&& forall|i: int|
                    0 <= i < l.entries ==> #[trigger] l.leaves@[i] == le_u16(data@, p + 4 + 2 * i)
            },
    {
        let n = match read_table_count(data, p, 2) {
            Ok(n) => n,
            Err(e) => return Err(e),
        };
        let mut leaves: Vec<u16> = Vec::new();
        let mut i: usize = 0;
        while i < n
            invariant
                i <= n,
                table_fits(data@, p as int, 2),
                n == le_i32(data@, p as int),
                data@.len() <= usize::MAX,
                leaves@.len() == i,
                forall|j: int| 0 <= j < i ==> #[trigger] leaves@[j] == le_u16(data@, p + 4 + 2 * j),
            decreases n - i,
        {
            leaves.push(read_u16(data, p + 4 + 2 * i));
            i += 1;
        }
        Ok((StaticPropLeafLump { entries: n as i32, leaves }, p + 4 + 2 * n))
    }
}

impl StaticPropDictLump {
    /// Reads the name table at `p`; also gives the position after it.
    pub fn read(data: &[u8], p: usize) -> (r: Result<(StaticPropDictLump, usize), BspError>)
        ensures
            !table_fits(data@, p as int, NAME_LEN as int) ==> r == Err::<
                (StaticPropDictLump, usize),
                BspError,
            >(BspError::MalformedData),
            r is Ok ==> {
                let (d, next) = r->Ok_0;
                &&& table_fits(data@, p as int, NAME_LEN as int)
                &&& d.entries == le_i32(data@, p as int)
                &&& d.name@.len() == d.entries
                &&& next == table_end(data@, p as int, NAME_LEN as int)
                &&& forall|i: int|
                    0 <= i < d.entries ==> name_decoded(
                        data@,
                        p + 4 + NAME_LEN * i,
                        (#[trigger] d.name@[i]).value@,
                    )
            },
            table_fits(data@, p as int, NAME_LEN as int) ==> (r is Ok <==> names_valid(data@, p as int)),
            r is Err && table_fits(data@, p as int, NAME_LEN as int) ==> exists|j: int|
                #[trigger] first_invalid_name(data@, p as int, j) && name_error(
                    data@,
                    name_pos(p as int, j),
                    r->Err_0,
                ),
    {
        let n = match read_table_count(data, p, NAME_LEN) {
            Ok(n) => n,
            Err(e) => return Err(e),
        };
        let mut name: Vec<FixedString> = Vec::new();
        let mut i: usize = 0;
        while i < n
            invariant
                i <= n,
                table_fits(data@, p as int, NAME_LEN as int),
                n == le_i32(data@, p as int),
                data@.len() <= usize::MAX,
                name@.len() == i,
                forall|j: int| 0 <= j < i ==> #[trigger] name_valid(data@, name_pos(p as int, j)),
                forall|j: int|
                    0 <= j < i ==> name_decoded(
                        data@,
                        p + 4 + NAME_LEN * j,
                        (#[trigger] name@[j]).value@,
                    ),
            decreases n - i,
        {
            assert(NAME_LEN * i + NAME_LEN <= NAME_LEN * n) by (nonlinear_arith)
                requires
                    i < n,
            ;
            let at = p + 4 + NAME_LEN * i;
            match FixedString::read(data, at) {
                Ok(s) => name.push(s),
                Err(e) => {
                    assert(first_invalid_name(data@, p as int, i as int));
                    return Err(e);
                },
            }
            assert(name_valid(data@, name_pos(p as int, i as int)));
            i += 1;
        }
        Ok((StaticPropDictLump { entries: n as i32, name }, p + 4 + NAME_LEN * n))
    }
}

/// Position of record `i` of the record table at `p`.
pub open spec fn record_pos(p: int, version: u16, i: int) -> int {
    p + 4 + static_prop_len(version) * i
}

/// `j` is the first record of the record table at `p` that does not decode.
pub open spec fn first_bad_record(s: Seq<u8>, p: int, version: u16, j: int) -> bool {
    &&& 0 <= j < le_i32(s, p)
    &&& static_prop_at(s, record_pos(p, version, j), version) is Err
    &&& forall|k: int|
        0 <= k < j ==> (#[trigger] static_prop_at(s, record_pos(p, version, k), version)) is Ok
}

impl StaticPropLumps {
    /// Reads the record table at `p`, each record in the layout of `version`.
    pub fn read(data: &[u8], p: usize, version: u16) -> (r: Result<StaticPropLumps, BspError>)
        ensures
            (p + 4 > data@.len() || le_i32(data@, p as int) < 0) ==> r == Err::<
                StaticPropLumps,
                BspError,
            >(BspError::MalformedData),
            r is Ok ==> {
                let l = r->Ok_0;
                &&& p + 4 <= data@.len()
                &&& l.entries == le_i32(data@, p as int)
                &&& l.props@.len() == l.entries
                &&& forall|i: int|
                    0 <= i < l.entries ==> static_prop_at(data@, record_pos(p as int, version, i), version)
                        == Ok::<StaticPropLump, BspError>(#[trigger] l.props@[i])
            },
            p + 4 <= data@.len() && le_i32(data@, p as int) >= 0 && (forall|i: int|
                0 <= i < le_i32(data@, p as int) ==> (#[trigger] static_prop_at(
                    data@,
                    record_pos(p as int, version, i),
                    version,
                )) is Ok) ==> r is Ok,
            r is Err && p + 4 <= data@.len() && le_i32(data@, p as int) >= 0 ==> exists|j: int|
                #[trigger] first_bad_record(data@, p as int, version, j) && r
                    == Err::<StaticPropLumps, BspError>(
                    static_prop_at(data@, record_pos(p as int, version, j), version)->Err_0,
                ),
    {
        if data.len() < 4 || p > data.len() - 4 {
            return Err(BspError::MalformedData);
        }
        let count = read_i32(data, p);
        if count < 0 {
            return Err(BspError::MalformedData);
        }
        let width: usize = if version == 6 {
            STATIC_PROP_V6_LEN
        } else {
            STATIC_PROP_V10_LEN
        };
        let n = count as usize;
        let mut props: Vec<StaticPropLump> = Vec::new();
        let mut i: usize = 0;
        let mut at: usize = p + 4;
        while i < n
            invariant
                i <= n,
                n == le_i32(data@, p as int),
                width == static_prop_len(version),
                at == record_pos(p as int, version, i as int),
                at <= data@.len() <= usize::MAX,
                props@.len() == i,
                forall|j: int|
                    0 <= j < i ==> static_prop_at(data@, record_pos(p as int, version, j), version)
                        == Ok::<StaticPropLump, BspError>(#[trigger] props@[j]),
            decreases n - i,
        {
            let rec = StaticPropLump::read_options(data, at, version);
            match rec {
                Ok(prop) => props.push(prop),
                Err(e) => {
                    assert forall|k: int| 0 <= k < i implies (#[trigger] static_prop_at(
                        data@,
                        record_pos(p as int, version, k),
                        version,
                    )) is Ok by {
                        assert(static_prop_at(data@, record_pos(p as int, version, k), version)
                            == Ok::<StaticPropLump, BspError>(props@[k]));
                    }
                    assert(first_bad_record(data@, p as int, version, i as int));
                    return Err(e);
                },
            }
            assert(record_pos(p as int, version, i + 1) == at + width) by (nonlinear_arith)
                requires
                    at == record_pos(p as int, version, i as int),
                    width == static_prop_len(version),
            ;
            at = at + width;
            i += 1;
        }
        Ok(StaticPropLumps { entries: count, props })
    }
}


/// The tag `"sprp"` read as a big-endian integer.
pub const STATIC_PROP_ID: i32 = 0x7370_7270;

/// What reading the static-prop game lump `s` gives: the dictionary at the
/// start, the leaf table after it, the records after that.
pub open spec fn prop_static_outcome(s: Seq<u8>, version: u16, r: Result<PropStaticGameLump, BspError>) -> bool {
    let d = table_end(s, 0, NAME_LEN as int);
    let e = table_end(s, d, 2);
    &&& !table_fits(s, 0, NAME_LEN as int) ==> r == Err::<PropStaticGameLump, BspError>(
        BspError::MalformedData,
    )
    // a name that does not decode: the first one's error
    &&& table_fits(s, 0, NAME_LEN as int) && !names_valid(s, 0) ==> r is Err && exists|j: int|
        #[trigger] first_invalid_name(s, 0, j) && name_error(s, name_pos(0, j), r->Err_0)
    // the leaf table does not fit
    &&& table_fits(s, 0, NAME_LEN as int) && names_valid(s, 0) && !table_fits(s, d, 2) ==> r
        == Err::<PropStaticGameLump, BspError>(BspError::MalformedData)
    // the record table's count is missing or negative
    &&& table_fits(s, 0, NAME_LEN as int) && names_valid(s, 0) && table_fits(s, d, 2) && (e + 4
        > s.len() || le_i32(s, e) < 0) ==> r == Err::<PropStaticGameLump, BspError>(
        BspError::MalformedData,
    )
    // the records: the first one that does not decode gives the error
    &&& table_fits(s, 0, NAME_LEN as int) && names_valid(s, 0) && table_fits(s, d, 2) && e + 4
        <= s.len() && le_i32(s, e) >= 0 ==> {
        &&& (forall|i: int|
            0 <= i < le_i32(s, e) ==> (#[trigger] static_prop_at(s, record_pos(e, version, i), version))
                is Ok) ==> r is Ok
        &&& r is Err ==> exists|j: int|
            #[trigger] first_bad_record(s, e, version, j) && r == Err::<PropStaticGameLump, BspError>(
                static_prop_at(s, record_pos(e, version, j), version)->Err_0,
            )
    }
    &&& r is Ok ==> {
        let g = r->Ok_0;
        &&& table_fits(s, 0, NAME_LEN as int)
        &&& g.dict.entries == le_i32(s, 0)
        &&& g.dict.name@.len() == g.dict.entries
        &&& forall|i: int|
            0 <= i < g.dict.entries ==> name_decoded(
                s,
                4 + NAME_LEN * i,
                (#[trigger] g.dict.name@[i]).value@,
            )
        &&& table_fits(s, d, 2)
        &&& g.leaf.entries == le_i32(s, d)
        &&& g.leaf.leaves@.len() == g.leaf.entries
        &&& forall|i: int|
            0 <= i < g.leaf.entries ==> #[trigger] g.leaf.leaves@[i] == le_u16(s, d + 4 + 2 * i)
        &&& e + 4 <= s.len()
        &&& g.props.entries == le_i32(s, e)
        &&& g.props.props@.len() == g.props.entries
        &&& forall|i: int|
            0 <= i < g.props.entries ==> static_prop_at(s, record_pos(e, version, i), version)
                == Ok::<StaticPropLump, BspError>(#[trigger] g.props.props@[i])
    }
}

impl PropStaticGameLump {
    /// Reads the dictionary, the leaf table and the records of version `version`.
    pub fn read(data: &[u8], version: u16) -> (r: Result<PropStaticGameLump, BspError>)
        ensures
            prop_static_outcome(data@, version, r),
    {
        let (dict, after_dict) = match StaticPropDictLump::read(data, 0) {
            Ok(v) => v,
            Err(e) => return Err(e),
        };
        let (leaf, after_leaf) = match StaticPropLeafLump::read(data, after_dict) {
            Ok(v) => v,
            Err(e) => return Err(e),
        };
        let props = match StaticPropLumps::read(data, after_leaf, version) {
            Ok(v) => v,
            Err(e) => return Err(e),
        };
        Ok(PropStaticGameLump { dict, leaf, props })
    }
}

impl GameLumpType for PropStaticGameLump {
    open spec fn spec_id() -> i32 {
        STATIC_PROP_ID
    }

    open spec fn read_outcome(data: Seq<u8>, version: u16, r: Result<Self, BspError>) -> bool {
        prop_static_outcome(data, version, r)
    }

    fn id() -> (r: i32) {
        STATIC_PROP_ID
    }

    fn read_versioned(data: &[u8], version: u16) -> (r: Result<Self, BspError>) {
        PropStaticGameLump::read(data, version)
    }
}

} // verus!
