//! The game-lump sub-directory: its entries, the bytes each one names, and
//! lookup of a record type by its tag.
use vstd::prelude::*;
use std::borrow::Cow;
use crate::bytes::{le_i32, le_u16, read_i32, read_u16, slice_range};
use crate::error::BspError;
use crate::lzma::{frame_outcome, lzma_decompress_with_header, viewed};

verus! {

/// Length of one entry of the game-lump directory.
pub const GAME_LUMP_ENTRY_LEN: usize = 16;

/// Bytes of zeros added after a decompressed game lump.
pub const COMPRESSED_PADDING: usize = 8;

/// The game-lump directory: a count and that many entries, in ascending
/// order of offset.
#[derive(Debug, Clone)]
pub struct GameLumpHeader {
    pub count: i32,
    pub lumps: Vec<GameLump>,
}

/// One entry of the game-lump directory.
#[derive(Clone, Copy, Debug, PartialEq, Eq, Structural)]
pub struct GameLump {
    /// Four ASCII bytes read as a big-endian integer.
    pub id: i32,
    pub flags: GameLumpFlags,
    pub version: u16,
    pub offset: i32,
    pub length: i32,
}

/// Flags of a game-lump entry.
#[derive(Clone, Copy, Debug, PartialEq, Eq, Structural)]
pub struct GameLumpFlags {
    pub bits: u16,
}

impl GameLumpFlags {
    /// The flag of an entry whose bytes are a compressed frame.
    pub fn compressed() -> (r: GameLumpFlags)
        ensures
            r.bits == 1,
    {
        GameLumpFlags { bits: 0x1 }
    }

    pub fn bits(&self) -> (r: u16)
        ensures
            r == self.bits,
    {
        self.bits
    }

    /// Every flag of `other` is set in `self`.
    pub fn contains(&self, other: GameLumpFlags) -> (r: bool)
        ensures
            r == (self.bits & other.bits == other.bits),
    {
        self.bits & other.bits == other.bits
    }
}

/// The game-lump entry whose 16 bytes start at `p`.
pub open spec fn game_lump_at(s: Seq<u8>, p: int) -> GameLump {
    GameLump {
        id: le_i32(s, p),
        flags: GameLumpFlags { bits: le_u16(s, p + 4) },
        version: le_u16(s, p + 6),
        offset: le_i32(s, p + 8),
        length: le_i32(s, p + 12),
    }
}

/// The entry's bytes are a compressed frame.
pub open spec fn is_compressed(l: GameLump) -> bool {
    l.flags.bits & 1 == 1
}

/// The uncompressed size a compressed entry must decode to; a negative
/// length can match no frame.
pub open spec fn expected_size(l: GameLump) -> u64 {
    if l.length >= 0 {
        l.length as u64
    } else {
        u64::MAX
    }
}

/// `[start, end)` is a range of a buffer of `len` bytes.
pub open spec fn span_in_bounds(start: int, end: int, len: int) -> bool {
    0 <= start <= end <= len
}

/// The result with its last `COMPRESSED_PADDING` bytes taken off.
pub open spec fn unpadded(r: Result<Seq<u8>, BspError>) -> Result<Seq<u8>, BspError> {
    match r {
        Ok(s) => Ok(s.subrange(0, s.len() - COMPRESSED_PADDING)),
        Err(e) => Err(e),
    }
}

/// `s` ends with `COMPRESSED_PADDING` zero bytes.
pub open spec fn zero_padded(s: Seq<u8>) -> bool {
    &&& s.len() >= COMPRESSED_PADDING
    &&& forall|j: int| s.len() - COMPRESSED_PADDING <= j < s.len() ==> #[trigger] s[j] == 0
}

/// What `get_game_lump_data` gives for entry `lump` at index `i` of `lumps`,
/// with `data` the bytes the offsets count from.
pub open spec fn game_lump_data_outcome(
    lumps: Seq<GameLump>,
    i: int,
    lump: GameLump,
    data: Seq<u8>,
    r: Result<Seq<u8>, BspError>,
    borrowed: bool,
) -> bool {
    if is_compressed(lump) {
        if i + 1 >= lumps.len() {
            r == Err::<Seq<u8>, BspError>(BspError::GameLumpOutOfBounds(lump))
        } else {
            // the compressed size is the distance to the next entry
            let start = lump.offset as int;
            let end = start + (lumps[i + 1].offset - lump.offset);
            if !span_in_bounds(start, end, data.len() as int) {
                r == Err::<Seq<u8>, BspError>(BspError::GameLumpOutOfBounds(lump))
            } else {
                &&& frame_outcome(data.subrange(start, end), expected_size(lump), unpadded(r))
                &&& r is Ok ==> zero_padded(r->Ok_0) && !borrowed
            }
        }
    } else {
        let start = lump.offset as int;
        let end = lump.offset + lump.length;
        if !span_in_bounds(start, end, data.len() as int) {
            r == Err::<Seq<u8>, BspError>(BspError::GameLumpOutOfBounds(lump))
        } else {
            r == Ok::<Seq<u8>, BspError>(data.subrange(start, end)) && borrowed
        }
    }
}

/// The result is a slice borrowed from the source.
pub open spec fn is_borrowed<T: ?Sized + ToOwned>(r: Result<Cow<T>, BspError>) -> bool {
    r is Ok && r->Ok_0 is Borrowed
}

/// Appends `COMPRESSED_PADDING` zero bytes.
fn pad_zeros(v: &mut Vec<u8>)
    ensures
        final(v)@ == old(v)@ + Seq::new(COMPRESSED_PADDING as nat, |j: int| 0u8),
{
    let mut k: usize = 0;
    while k < COMPRESSED_PADDING
        invariant
            k <= COMPRESSED_PADDING,
            v@ == old(v)@ + Seq::new(k as nat, |j: int| 0u8),
        decreases COMPRESSED_PADDING - k,
    {
        v.push(0);
        k += 1;
        assert(v@ =~= old(v)@ + Seq::new(k as nat, |j: int| 0u8));
    }
}

impl GameLumpHeader {
    /// Reads the count and the entries from the start of `data`.
    pub fn read(data: &[u8]) -> (r: Result<GameLumpHeader, BspError>)
        ensures
            data@.len() < 4 ==> r == Err::<GameLumpHeader, BspError>(BspError::MalformedData),
            data@.len() >= 4 && (le_i32(data@, 0) < 0 || 4 + GAME_LUMP_ENTRY_LEN * le_i32(
                data@,
                0,
            ) > data@.len()) ==> r == Err::<GameLumpHeader, BspError>(BspError::MalformedData),
            data@.len() >= 4 && 0 <= le_i32(data@, 0) && 4 + GAME_LUMP_ENTRY_LEN * le_i32(data@, 0)
                <= data@.len() ==> r is Ok,
            r is Ok ==> {
                let h = r->Ok_0;
                &&& h.count == le_i32(data@, 0)
                &&& h.lumps@.len() == h.count
                &&& forall|i: int|
                    0 <= i < h.count ==> #[trigger] h.lumps@[i] == game_lump_at(data@, 4 + 16 * i)
            },
    {
        if data.len() < 4 {
            return Err(BspError::MalformedData);
        }
        let count = read_i32(data, 0);
        if count < 0 || (data.len() - 4) / GAME_LUMP_ENTRY_LEN < count as usize {
            proof {
                if count >= 0 {
                    let q = (data@.len() - 4) / 16;
                    assert(16 * (q + 1) > data@.len() - 4) by (nonlinear_arith)
                        requires
                            q == (data@.len() - 4) / 16,
                            data@.len() >= 4,
                    ;
                    assert(16 * (q + 1) <= 16 * count) by (nonlinear_arith)
                        requires
                            q < count,
                    ;
                }
            }
            return Err(BspError::MalformedData);
        }
        let n = count as usize;
        proof {
            let q = (data@.len() - 4) / 16;
            assert(n <= q);
            assert(16 * n <= 16 * q) by (nonlinear_arith)
                requires
                    n <= q,
            ;
            assert(16 * q <= data@.len() - 4) by (nonlinear_arith)
                requires
                    q == (data@.len() - 4) / 16,
                    data@.len() >= 4,
            ;
        }
        let mut lumps: Vec<GameLump> = Vec::new();
        let mut i: usize = 0;
        while i < n
            invariant
                i <= n,
                n == count,
                4 + 16 * n <= data@.len() <= usize::MAX,
                lumps@.len() == i,
                forall|j: int| 0 <= j < i ==> #[trigger] lumps@[j] == game_lump_at(data@, 4 + 16 * j),
            decreases n - i,
        {
            assert(16 * i + 16 <= 16 * n) by (nonlinear_arith)
                requires
                    i < n,
            ;
            let p: usize = 4 + GAME_LUMP_ENTRY_LEN * i;
            let lump = GameLump {
                id: read_i32(data, p),
                flags: GameLumpFlags { bits: read_u16(data, p + 4) },
                version: read_u16(data, p + 6),
                offset: read_i32(data, p + 8),
                length: read_i32(data, p + 12),
            };
            lumps.push(lump);
            i += 1;
        }
        Ok(GameLumpHeader { count, lumps })
    }

    /// The bytes of entry `lump`, which stands at index `i` of the directory:
    /// decompressed and padded with zeros when it is flagged compressed, else
    /// borrowed from `data`.
    pub fn get_game_lump_data<'a>(&self, i: usize, lump: &GameLump, data: &'a [u8]) -> (r: Result<
        Cow<'a, [u8]>,
        BspError,
    >)
        ensures
            game_lump_data_outcome(
                self.lumps@,
                i as int,
                *lump,
                data@,
                viewed(r),
                is_borrowed(r),
            ),
    {
        if lump.flags.contains(GameLumpFlags::compressed()) {
            if self.lumps.len() == 0 || i >= self.lumps.len() - 1 {
                return Err(BspError::GameLumpOutOfBounds(*lump));
            }
            let next_lump = &self.lumps[i + 1];
            let start = lump.offset as i64;
            let compressed_size = next_lump.offset as i64 - lump.offset as i64;
            let end = start + compressed_size;
            if start < 0 || end < start || end as u64 > data.len() as u64 {
                return Err(BspError::GameLumpOutOfBounds(*lump));
            }
            let raw = slice_range(data, start as usize, end as usize);
            let expected: u64 = if lump.length >= 0 {
                lump.length as u64
            } else {
                u64::MAX
            };
            let mut output = match lzma_decompress_with_header(raw, expected) {
                Ok(output) => output,
                Err(e) => return Err(e),
            };
            // some compressed entries are a few bytes short of their records
            let ghost decoded = output@;
            pad_zeros(&mut output);
            assert(output@.subrange(0, output@.len() - COMPRESSED_PADDING) =~= decoded);
            Ok(Cow::Owned(output))
        } else {
            let start = lump.offset as i64;
            let end = start + lump.length as i64;
            if start < 0 || end < start || end as u64 > data.len() as u64 {
                return Err(BspError::GameLumpOutOfBounds(*lump));
            }
            Ok(Cow::Borrowed(slice_range(data, start as usize, end as usize)))
        }
    }
}


/// A compressed entry with a successor is decoded from exactly the bytes
/// between its offset and its successor's offset; one without a successor
/// fails as out of bounds.
pub proof fn lemma_compressed_span_is_gap_to_next(
    lumps: Seq<GameLump>,
    i: int,
    data: Seq<u8>,
    r: Result<Seq<u8>, BspError>,
    borrowed: bool,
)
    requires
        0 <= i < lumps.len(),
        is_compressed(lumps[i]),
        game_lump_data_outcome(lumps, i, lumps[i], data, r, borrowed),
    ensures
        i + 1 == lumps.len() ==> r == Err::<Seq<u8>, BspError>(
            BspError::GameLumpOutOfBounds(lumps[i]),
        ),
        i + 1 < lumps.len() && span_in_bounds(
            lumps[i].offset as int,
            lumps[i + 1].offset as int,
            data.len() as int,
        ) ==> {
            let span = data.subrange(lumps[i].offset as int, lumps[i + 1].offset as int);
            &&& span.len() == lumps[i + 1].offset - lumps[i].offset
            &&& frame_outcome(span, expected_size(lumps[i]), unpadded(r))
        },
{
}


/// A record type stored in a game lump under a 4-byte tag.
pub trait GameLumpType: Sized {
    /// The tag of the entries that hold this type.
    spec fn spec_id() -> i32;

    /// `r` is what reading `data` with version tag `version` gives.
    spec fn read_outcome(data: Seq<u8>, version: u16, r: Result<Self, BspError>) -> bool;

    fn id() -> (r: i32)
        ensures
            r == Self::spec_id(),
    ;

    fn read_versioned(data: &[u8], version: u16) -> (r: Result<Self, BspError>)
        ensures
            Self::read_outcome(data@, version, r),
    ;
}

/// `i` is the first entry of `lumps` tagged `id`.
pub open spec fn first_with_id(lumps: Seq<GameLump>, id: i32, i: int) -> bool {
    &&& 0 <= i < lumps.len()
    &&& lumps[i].id == id
    &&& forall|j: int| 0 <= j < i ==> #[trigger] lumps[j].id != id
}

/// `r` is what reading entry `i` of `lumps` as a `T` gives: the entry's bytes
/// are resolved, and read with the entry's version tag when that succeeded.
pub open spec fn found_outcome<T: GameLumpType>(
    lumps: Seq<GameLump>,
    i: int,
    data: Seq<u8>,
    r: Result<T, BspError>,
) -> bool {
    exists|d: Result<Seq<u8>, BspError>, b: bool|
        #[trigger] game_lump_data_outcome(lumps, i, lumps[i], data, d, b) && (d is Err ==> r
            == Err::<T, BspError>(d->Err_0)) && (d is Ok ==> T::read_outcome(
            d->Ok_0,
            lumps[i].version,
            r,
        ))
}

impl GameLumpHeader {
    /// Reads the first entry tagged with `T`'s tag as a `T`; `None` when no
    /// entry has that tag.
    pub fn find<T: GameLumpType>(&self, data: &[u8]) -> (r: Option<Result<T, BspError>>)
        ensures
            r is None <==> forall|i: int|
                0 <= i < self.lumps@.len() ==> (#[trigger] self.lumps@[i]).id != T::spec_id(),
            r is Some ==> exists|i: int|
                #[trigger] first_with_id(self.lumps@, T::spec_id(), i) && found_outcome(
                    self.lumps@,
                    i,
                    data@,
                    r->0,
                ),
    {
        let id = T::id();
        let mut i: usize = 0;
        while i < self.lumps.len()
            invariant
                i <= self.lumps@.len(),
                id == T::spec_id(),
                forall|j: int| 0 <= j < i ==> (#[trigger] self.lumps@[j]).id != id,
            decreases self.lumps@.len() - i,
        {
            if self.lumps[i].id == id {
                let lump = &self.lumps[i];
                let res = self.get_game_lump_data(i, lump, data);
                assert(first_with_id(self.lumps@, id, i as int));
                assert(game_lump_data_outcome(
                    self.lumps@,
                    i as int,
                    self.lumps@[i as int],
                    data@,
                    viewed(res),
                    is_borrowed(res),
                ));
                let read = match res {
                    Ok(bytes) => {
                        let slice: &[u8] = match &bytes {
                            Cow::Borrowed(b) => b,
                            Cow::Owned(v) => v.as_slice(),
                        };
                        T::read_versioned(slice, lump.version)
                    },
                    Err(e) => Err(e),
                };
                return Some(read);
            }
            i += 1;
        }
        None
    }
}

} // verus!
