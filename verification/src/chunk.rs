//! The on-disk chunk format: a 32-byte header followed by the payload, the
//! in-memory manifest of a session's chunks, the storage interface, and the
//! writer that moves each chunk through `.partial`, `.written` and `.bin`.

use vstd::prelude::*;
use crate::error::RecordingError;
use crate::text::{decimal, zero_pad, hex_list, push_decimal, push_padded_decimal, push_hex_list};

verus! {

broadcast use vstd::array::group_array_axioms;

// ---------------------------------------------------------------------------
// Checksum
// ---------------------------------------------------------------------------

/// The 64-bit XXH3 hash (seed 0, default secret) of `data`, as computed by
/// `xxhash_rust::xxh3::xxh3_64`.
pub uninterp spec fn spec_xxh3_64(data: Seq<u8>) -> u64;

/// Calls `xxhash_rust::xxh3::xxh3_64`, a total, deterministic function of
/// its input; its result is named `spec_xxh3_64`.
#[verifier::external_body]
fn xxh3_64(data: &[u8]) -> (r: u64)
    ensures
        r == spec_xxh3_64(data@),
{
    xxhash_rust::xxh3::xxh3_64(data)
}

/// The header checksum of a payload: the low 32 bits of its XXH3-64 hash.
pub open spec fn checksum_of(payload: Seq<u8>) -> u32 {
    (spec_xxh3_64(payload) & 0xffff_ffff) as u32
}

// ---------------------------------------------------------------------------
// ChunkStatus
// ---------------------------------------------------------------------------

/// Where a chunk stands in its lifecycle.
#[derive(Debug, Clone, Copy, PartialEq, Eq, Structural)]
pub enum ChunkStatus {
    /// Created but not validated (extension `.partial`).
    Partial,
    /// Validated and flushed (extension `.written`).
    Written,
    /// Durable, recorded in the committed manifest (extension `.bin`).
    Committed,
}

// ---------------------------------------------------------------------------
// ChunkHeader
// ---------------------------------------------------------------------------

/// Version of the header layout written by this library.
pub const CURRENT_VERSION: u8 = 1;

/// The magic bytes that open every chunk: `CFCH`.
pub open spec fn magic_bytes() -> Seq<u8> {
    seq![0x43u8, 0x46u8, 0x43u8, 0x48u8]
}

/// The 32-byte header of a chunk.
///
/// `timestamp_ms` holds the bit pattern of an IEEE-754 binary64 number of
/// milliseconds; on disk it occupies the same eight little-endian bytes as
/// the floating-point value itself.
#[derive(Debug, Clone, Copy, PartialEq, Eq)]
pub struct ChunkHeader {
    pub magic: [u8; 4],
    pub version: u8,
    pub chunk_index: u32,
    pub timestamp_ms: u64,
    pub payload_size: u64,
    pub checksum: u32,
    pub reserved: [u8; 3],
}

/// Little-endian bytes of a 32-bit value.
pub open spec fn le4(x: u32) -> Seq<u8> {
    seq![
        (x & 0xff) as u8,
        ((x >> 8u32) & 0xff) as u8,
        ((x >> 16u32) & 0xff) as u8,
        ((x >> 24u32) & 0xff) as u8,
    ]
}

/// Little-endian bytes of a 64-bit value.
pub open spec fn le8(x: u64) -> Seq<u8> {
    seq![
        (x & 0xff) as u8,
        ((x >> 8u64) & 0xff) as u8,
        ((x >> 16u64) & 0xff) as u8,
        ((x >> 24u64) & 0xff) as u8,
        ((x >> 32u64) & 0xff) as u8,
        ((x >> 40u64) & 0xff) as u8,
        ((x >> 48u64) & 0xff) as u8,
        ((x >> 56u64) & 0xff) as u8,
    ]
}

/// The 32-bit value whose little-endian bytes are `b[off..off + 4]`.
pub open spec fn read_le4(b: Seq<u8>, off: int) -> u32 {
    (b[off] as u32) | ((b[off + 1] as u32) << 8u32) | ((b[off + 2] as u32) << 16u32)
        | ((b[off + 3] as u32) << 24u32)
}

/// The 64-bit value whose little-endian bytes are `b[off..off + 8]`.
pub open spec fn read_le8(b: Seq<u8>, off: int) -> u64 {
    (b[off] as u64) | ((b[off + 1] as u64) << 8u64) | ((b[off + 2] as u64) << 16u64)
        | ((b[off + 3] as u64) << 24u64) | ((b[off + 4] as u64) << 32u64)
        | ((b[off + 5] as u64) << 40u64) | ((b[off + 6] as u64) << 48u64)
        | ((b[off + 7] as u64) << 56u64)
}

/// The on-disk layout of a header: magic (4 bytes), version (1), chunk
/// index (4, little-endian), timestamp (8, LE), payload size (8, LE),
/// checksum (4, LE) and three zero bytes.  The `reserved` field is not
/// written: those bytes are always zero.
pub open spec fn encode_spec(h: ChunkHeader) -> Seq<u8> {
    h.magic@ + seq![h.version] + le4(h.chunk_index) + le8(h.timestamp_ms) + le8(h.payload_size)
        + le4(h.checksum) + seq![0u8, 0u8, 0u8]
}

/// `h` is the header that the 32 bytes `b` describe, field by field.
pub open spec fn decodes_to(b: Seq<u8>, h: ChunkHeader) -> bool {
    &&& h.magic@ == b.subrange(0, 4)
    &&& h.version == b[4]
    &&& h.chunk_index == read_le4(b, 5)
    &&& h.timestamp_ms == read_le8(b, 9)
    &&& h.payload_size == read_le8(b, 17)
    &&& h.checksum == read_le4(b, 25)
    &&& h.reserved@ == b.subrange(29, 32)
}

/// A header that this library writes and reads back: the expected magic,
/// the current version and zero reserved bytes.
pub open spec fn header_well_formed(h: ChunkHeader) -> bool {
    &&& h.magic@ == magic_bytes()
    &&& h.version == CURRENT_VERSION
    &&& h.reserved@ == seq![0u8, 0u8, 0u8]
}

/// The header written for chunk `index` with timestamp bits `ts` and the
/// given payload.
pub open spec fn header_for(h: ChunkHeader, index: u32, ts: u64, payload: Seq<u8>) -> bool {
    &&& header_well_formed(h)
    &&& h.chunk_index == index
    &&& h.timestamp_ms == ts
    &&& h.payload_size == payload.len()
    &&& h.checksum == checksum_of(payload)
}

/// Message of a header whose magic bytes are wrong.
pub open spec fn bad_magic_message(magic: Seq<u8>) -> Seq<char> {
    "Invalid chunk header magic: expected CFCH, got "@ + hex_list(magic)
}

/// Message of a header whose version is unknown.
pub open spec fn bad_version_message(version: u8) -> Seq<char> {
    "Unsupported chunk header version: "@ + decimal(version as nat)
}

proof fn lemma_le4(x: u32)
    ensures
        read_le4(le4(x), 0) == x,
{
    assert(((x & 0xff) as u8) as u32 | (((((x >> 8u32) & 0xff) as u8) as u32) << 8u32)
        | (((((x >> 16u32) & 0xff) as u8) as u32) << 16u32)
        | (((((x >> 24u32) & 0xff) as u8) as u32) << 24u32) == x) by (bit_vector);
}

proof fn lemma_le8(x: u64)
    ensures
        read_le8(le8(x), 0) == x,
{
    assert(((x & 0xff) as u8) as u64 | (((((x >> 8u64) & 0xff) as u8) as u64) << 8u64)
        | (((((x >> 16u64) & 0xff) as u8) as u64) << 16u64)
        | (((((x >> 24u64) & 0xff) as u8) as u64) << 24u64)
        | (((((x >> 32u64) & 0xff) as u8) as u64) << 32u64)
        | (((((x >> 40u64) & 0xff) as u8) as u64) << 40u64)
        | (((((x >> 48u64) & 0xff) as u8) as u64) << 48u64)
        | (((((x >> 56u64) & 0xff) as u8) as u64) << 56u64) == x) by (bit_vector);
}

proof fn lemma_read_le4(b0: u8, b1: u8, b2: u8, b3: u8)
    ensures
        le4(read_le4(seq![b0, b1, b2, b3], 0)) == seq![b0, b1, b2, b3],
{
    let x = (b0 as u32) | ((b1 as u32) << 8u32) | ((b2 as u32) << 16u32) | ((b3 as u32) << 24u32);
    assert(read_le4(seq![b0, b1, b2, b3], 0) == x);
    assert((x & 0xff) as u8 == b0 && ((x >> 8u32) & 0xff) as u8 == b1
        && ((x >> 16u32) & 0xff) as u8 == b2 && ((x >> 24u32) & 0xff) as u8 == b3) by (bit_vector)
        requires x == (b0 as u32) | ((b1 as u32) << 8u32) | ((b2 as u32) << 16u32) | ((b3 as u32) << 24u32);
    assert(le4(x) =~= seq![b0, b1, b2, b3]);
}

proof fn lemma_read_le8(b0: u8, b1: u8, b2: u8, b3: u8, b4: u8, b5: u8, b6: u8, b7: u8)
    ensures
        le8(read_le8(seq![b0, b1, b2, b3, b4, b5, b6, b7], 0)) == seq![b0, b1, b2, b3, b4, b5, b6, b7],
{
    let x = (b0 as u64) | ((b1 as u64) << 8u64) | ((b2 as u64) << 16u64) | ((b3 as u64) << 24u64)
        | ((b4 as u64) << 32u64) | ((b5 as u64) << 40u64) | ((b6 as u64) << 48u64)
        | ((b7 as u64) << 56u64);
    assert(read_le8(seq![b0, b1, b2, b3, b4, b5, b6, b7], 0) == x);
    assert((x & 0xff) as u8 == b0 && ((x >> 8u64) & 0xff) as u8 == b1
        && ((x >> 16u64) & 0xff) as u8 == b2 && ((x >> 24u64) & 0xff) as u8 == b3
        && ((x >> 32u64) & 0xff) as u8 == b4 && ((x >> 40u64) & 0xff) as u8 == b5
        && ((x >> 48u64) & 0xff) as u8 == b6 && ((x >> 56u64) & 0xff) as u8 == b7) by (bit_vector)
        requires x == (b0 as u64) | ((b1 as u64) << 8u64) | ((b2 as u64) << 16u64)
            | ((b3 as u64) << 24u64) | ((b4 as u64) << 32u64) | ((b5 as u64) << 40u64)
            | ((b6 as u64) << 48u64) | ((b7 as u64) << 56u64);
    assert(le8(x) =~= seq![b0, b1, b2, b3, b4, b5, b6, b7]);
}

/// Law: a header decodes back from its encoding.  The encoding of a
/// well-formed header is described, field by field, by the header itself,
/// and by no other header.
#[verifier::spinoff_prover]
#[verifier::rlimit(50)]
pub proof fn lemma_header_roundtrip(h: ChunkHeader, other: ChunkHeader)
    requires
        header_well_formed(h),
    ensures
        encode_spec(h).len() == 32,
        decodes_to(encode_spec(h), h),
        decodes_to(encode_spec(h), other) ==> other == h,
{
    let b = encode_spec(h);
    lemma_le4(h.chunk_index);
    lemma_le8(h.timestamp_ms);
    lemma_le8(h.payload_size);
    lemma_le4(h.checksum);
    assert(b.subrange(0, 4) =~= h.magic@);
    assert(b.subrange(29, 32) =~= h.reserved@);
    assert(read_le4(b, 5) == read_le4(le4(h.chunk_index), 0));
    assert(read_le8(b, 9) == read_le8(le8(h.timestamp_ms), 0));
    assert(read_le8(b, 17) == read_le8(le8(h.payload_size), 0));
    assert(read_le4(b, 25) == read_le4(le4(h.checksum), 0));
    if decodes_to(b, other) {
        assert(other.magic@ =~= h.magic@);
        assert(other.reserved@ =~= h.reserved@);
        assert(other.magic =~= h.magic);
        assert(other.reserved =~= h.reserved);
    }
}


/// Law: a 32-byte header whose reserved bytes are zero is re-encoded to
/// exactly the same bytes by the header it decodes to.
pub proof fn lemma_header_reencode(b: Seq<u8>, h: ChunkHeader)
    requires
        b.len() == 32,
        decodes_to(b, h),
        b.subrange(29, 32) == seq![0u8, 0u8, 0u8],
    ensures
        encode_spec(h) == b,
{
    lemma_read_le4(b[5], b[6], b[7], b[8]);
    lemma_read_le8(b[9], b[10], b[11], b[12], b[13], b[14], b[15], b[16]);
    lemma_read_le8(b[17], b[18], b[19], b[20], b[21], b[22], b[23], b[24]);
    lemma_read_le4(b[25], b[26], b[27], b[28]);
    assert(read_le4(b, 5) == read_le4(seq![b[5], b[6], b[7], b[8]], 0));
    assert(read_le8(b, 9) == read_le8(seq![b[9], b[10], b[11], b[12], b[13], b[14], b[15], b[16]], 0));
    assert(read_le8(b, 17) == read_le8(seq![b[17], b[18], b[19], b[20], b[21], b[22], b[23], b[24]], 0));
    assert(read_le4(b, 25) == read_le4(seq![b[25], b[26], b[27], b[28]], 0));
    assert(seq![0u8, 0u8, 0u8] =~= b.subrange(29, 32));
    assert(encode_spec(h) =~= b);
}

/// The bytes `CFCH`.
pub fn magic() -> (m: [u8; 4])
    ensures
        m@ == magic_bytes(),
{
    let m: [u8; 4] = [0x43u8, 0x46u8, 0x43u8, 0x48u8];
    assert(m@ =~= magic_bytes());
    m
}

impl ChunkHeader {
    /// Build the header of chunk `chunk_index`, recorded at the timestamp
    /// whose IEEE-754 binary64 bit pattern is `timestamp_ms`, for `payload`.
    pub fn new(chunk_index: u32, timestamp_ms: u64, payload: &[u8]) -> (h: Self)
        ensures
            header_for(h, chunk_index, timestamp_ms, payload@),
    {
        let reserved: [u8; 3] = [0u8, 0u8, 0u8];
        assert(reserved@ =~= seq![0u8, 0u8, 0u8]);
        ChunkHeader {
            magic: magic(),
            version: CURRENT_VERSION,
            chunk_index,
            timestamp_ms,
            payload_size: payload.len() as u64,
            checksum: Self::calc_checksum(payload),
            reserved,
        }
    }

    /// Encode the header into its 32-byte on-disk form.
    pub fn encode(&self) -> (b: [u8; 32])
        ensures
            b@ == encode_spec(*self),
    {
        let i = self.chunk_index;
        let t = self.timestamp_ms;
        let p = self.payload_size;
        let c = self.checksum;
        let b: [u8; 32] = [
            self.magic[0], self.magic[1], self.magic[2], self.magic[3],
            self.version,
            (i & 0xff) as u8, ((i >> 8u32) & 0xff) as u8, ((i >> 16u32) & 0xff) as u8,
            ((i >> 24u32) & 0xff) as u8,
            (t & 0xff) as u8, ((t >> 8u64) & 0xff) as u8, ((t >> 16u64) & 0xff) as u8,
            ((t >> 24u64) & 0xff) as u8, ((t >> 32u64) & 0xff) as u8, ((t >> 40u64) & 0xff) as u8,
            ((t >> 48u64) & 0xff) as u8, ((t >> 56u64) & 0xff) as u8,
            (p & 0xff) as u8, ((p >> 8u64) & 0xff) as u8, ((p >> 16u64) & 0xff) as u8,
            ((p >> 24u64) & 0xff) as u8, ((p >> 32u64) & 0xff) as u8, ((p >> 40u64) & 0xff) as u8,
            ((p >> 48u64) & 0xff) as u8, ((p >> 56u64) & 0xff) as u8,
            (c & 0xff) as u8, ((c >> 8u32) & 0xff) as u8, ((c >> 16u32) & 0xff) as u8,
            ((c >> 24u32) & 0xff) as u8,
            0u8, 0u8, 0u8,
        ];
        assert(b@ =~= encode_spec(*self));
        b
    }

    /// Decode a header from its 32-byte on-disk form.  Fails with
    /// `WriteError` when the magic bytes are not `CFCH` (checked first) or
    /// the version is not the current one.
    pub fn decode(bytes: &[u8; 32]) -> (r: Result<Self, RecordingError>)
        ensures
            bytes@.subrange(0, 4) != magic_bytes() ==> (r matches Err(RecordingError::WriteError {
                details }) && details@ == bad_magic_message(bytes@.subrange(0, 4))),
            bytes@.subrange(0, 4) == magic_bytes() && bytes@[4] != CURRENT_VERSION ==> (r matches Err(
                RecordingError::WriteError { details }) && details@ == bad_version_message(bytes@[4])),
            bytes@.subrange(0, 4) == magic_bytes() && bytes@[4] == CURRENT_VERSION ==> (r matches Ok(h)
                && decodes_to(bytes@, h)),
    {
        let magic: [u8; 4] = [bytes[0], bytes[1], bytes[2], bytes[3]];
        assert(magic@ =~= bytes@.subrange(0, 4));
        let expected = crate::chunk::magic();
        if !(magic[0] == expected[0] && magic[1] == expected[1] && magic[2] == expected[2]
            && magic[3] == expected[3]) {
            assert(magic@ != magic_bytes());
            let mut details = String::from_str("Invalid chunk header magic: expected CFCH, got ");
            push_hex_list(&mut details, magic.as_slice());
            return Err(RecordingError::WriteError { details });
        }
        assert(magic@ =~= magic_bytes());
        let version = bytes[4];
        if version != CURRENT_VERSION {
            let mut details = String::from_str("Unsupported chunk header version: ");
            push_decimal(&mut details, version as u64);
            return Err(RecordingError::WriteError { details });
        }
        let chunk_index = (bytes[5] as u32) | ((bytes[6] as u32) << 8u32)
            | ((bytes[7] as u32) << 16u32) | ((bytes[8] as u32) << 24u32);
        let timestamp_ms = (bytes[9] as u64) | ((bytes[10] as u64) << 8u64)
            | ((bytes[11] as u64) << 16u64) | ((bytes[12] as u64) << 24u64)
            | ((bytes[13] as u64) << 32u64) | ((bytes[14] as u64) << 40u64)
            | ((bytes[15] as u64) << 48u64) | ((bytes[16] as u64) << 56u64);
        let payload_size = (bytes[17] as u64) | ((bytes[18] as u64) << 8u64)
            | ((bytes[19] as u64) << 16u64) | ((bytes[20] as u64) << 24u64)
            | ((bytes[21] as u64) << 32u64) | ((bytes[22] as u64) << 40u64)
            | ((bytes[23] as u64) << 48u64) | ((bytes[24] as u64) << 56u64);
        let checksum = (bytes[25] as u32) | ((bytes[26] as u32) << 8u32)
            | ((bytes[27] as u32) << 16u32) | ((bytes[28] as u32) << 24u32);
        let reserved: [u8; 3] = [bytes[29], bytes[30], bytes[31]];
        assert(reserved@ =~= bytes@.subrange(29, 32));
        Ok(ChunkHeader { magic, version, chunk_index, timestamp_ms, payload_size, checksum, reserved })
    }

    /// Return `true` exactly when the stored checksum is the checksum of
    /// `payload`.
    pub fn verify_checksum(&self, payload: &[u8]) -> (r: bool)
        ensures
            r == (self.checksum == checksum_of(payload@)),
    {
        self.checksum == Self::calc_checksum(payload)
    }

    /// The checksum of `payload`: the low 32 bits of its XXH3-64 hash.
    pub fn calc_checksum(payload: &[u8]) -> (c: u32)
        ensures
            c == checksum_of(payload@),
    {
        let h = xxh3_64(payload);
        (h & 0xffff_ffff) as u32
    }
}


// ---------------------------------------------------------------------------
// ManifestEntry & ChunkManifest
// ---------------------------------------------------------------------------

/// One chunk recorded in the manifest.  `timestamp_ms` holds the bit
/// pattern of an IEEE-754 binary64 number of milliseconds.
#[derive(Debug, Clone, Copy, PartialEq, Eq, Structural)]
pub struct ManifestEntry {
    pub chunk_index: u32,
    pub payload_size: u64,
    pub checksum: u32,
    pub status: ChunkStatus,
    pub timestamp_ms: u64,
}

/// The in-memory manifest of a session's chunks.
#[derive(Debug, Clone)]
pub struct ChunkManifest {
    pub session_id: String,
    pub entries: Vec<ManifestEntry>,
}

/// Some entry carries chunk index `idx`.
pub open spec fn has_index(entries: Seq<ManifestEntry>, idx: u32) -> bool {
    exists|i: int| 0 <= i < entries.len() && #[trigger] entries[i].chunk_index == idx
}

/// `new` is `old` with the status of the first entry of index `idx` set to
/// `status`.
pub open spec fn status_updated(
    old: Seq<ManifestEntry>,
    idx: u32,
    status: ChunkStatus,
    new: Seq<ManifestEntry>,
) -> bool {
    exists|i: int|
        0 <= i < old.len() && #[trigger] old[i].chunk_index == idx && (forall|j: int|
            0 <= j < i ==> old[j].chunk_index != idx) && new == old.update(
            i,
            ManifestEntry { status: status, ..old[i] },
        )
}

/// Message of a status update for an index that no entry carries.
pub open spec fn missing_entry_message(idx: u32) -> Seq<char> {
    "Cannot update status for chunk index "@ + decimal(idx as nat) + ": entry not found"@
}

impl ChunkManifest {
    /// Create an empty manifest for the given session.
    pub fn new(session_id: String) -> (m: Self)
        ensures
            m.session_id@ == session_id@,
            m.entries@ == Seq::<ManifestEntry>::empty(),
    {
        ChunkManifest { session_id, entries: Vec::new() }
    }

    /// Append an entry.
    pub fn add_entry(&mut self, entry: ManifestEntry)
        ensures
            final(self).entries@ == old(self).entries@.push(entry),
            final(self).session_id@ == old(self).session_id@,
    {
        self.entries.push(entry);
    }

    /// Set the status of the first entry carrying `chunk_index`.  Fails with
    /// `WriteError`, changing nothing, when no entry carries it.
    pub fn update_status(&mut self, chunk_index: u32, status: ChunkStatus) -> (r: Result<(), RecordingError>)
        ensures
            final(self).session_id@ == old(self).session_id@,
            has_index(old(self).entries@, chunk_index) ==> r is Ok && status_updated(
                old(self).entries@,
                chunk_index,
                status,
                final(self).entries@,
            ),
            !has_index(old(self).entries@, chunk_index) ==> final(self).entries@ == old(
                self,
            ).entries@ && (r matches Err(RecordingError::WriteError { details }) && details@
                == missing_entry_message(chunk_index)),
    {
        let mut i: usize = 0;
        while i < self.entries.len()
            invariant
                i <= self.entries@.len(),
                self.entries@ == old(self).entries@,
                self.session_id@ == old(self).session_id@,
                forall|j: int| 0 <= j < i ==> self.entries@[j].chunk_index != chunk_index,
            decreases self.entries@.len() - i,
        {
            if self.entries[i].chunk_index == chunk_index {
                let mut e = self.entries[i];
                e.status = status;
                self.entries.set(i, e);
                assert(old(self).entries@[i as int].chunk_index == chunk_index);
                assert(self.entries@ == old(self).entries@.update(
                    i as int,
                    ManifestEntry { status: status, ..old(self).entries@[i as int] },
                ));
                return Ok(());
            }
            i = i + 1;
        }
        let mut details = String::from_str("Cannot update status for chunk index ");
        push_decimal(&mut details, chunk_index as u64);
        details.append(": entry not found");
        Err(RecordingError::WriteError { details })
    }

    /// Return `true` when some entry carries `idx`.
    fn holds_index(&self, idx: u32) -> (b: bool)
        ensures
            b == has_index(self.entries@, idx),
    {
        let mut k: usize = 0;
        while k < self.entries.len()
            invariant
                k <= self.entries@.len(),
                forall|j: int| 0 <= j < k ==> self.entries@[j].chunk_index != idx,
            decreases self.entries@.len() - k,
        {
            if self.entries[k].chunk_index == idx {
                return true;
            }
            k = k + 1;
        }
        false
    }

    /// Return `true` when some entry of index `idx` is committed.
    fn holds_committed(&self, idx: u32) -> (b: bool)
        ensures
            b == already_committed(self.entries@, idx),
    {
        let mut k: usize = 0;
        while k < self.entries.len()
            invariant
                k <= self.entries@.len(),
                forall|j: int| 0 <= j < k ==> !(self.entries@[j].chunk_index == idx
                    && self.entries@[j].status == ChunkStatus::Committed),
            decreases self.entries@.len() - k,
        {
            if self.entries[k].chunk_index == idx && self.entries[k].status == ChunkStatus::Committed {
                return true;
            }
            k = k + 1;
        }
        false
    }

    /// Return the number of entries.
    pub fn len(&self) -> (n: usize)
        ensures
            n == self.entries@.len(),
    {
        self.entries.len()
    }

    /// Return `true` when the manifest has no entry.
    pub fn is_empty(&self) -> (b: bool)
        ensures
            b <==> self.entries@.len() == 0,
    {
        self.entries.len() == 0
    }
}


// ---------------------------------------------------------------------------
// Chunk paths
// ---------------------------------------------------------------------------

/// The file name of chunk `index` with extension `ext`: `chunk_`, the index
/// zero-padded to six digits, a dot and the extension.
pub open spec fn chunk_path(index: u32, ext: Seq<char>) -> Seq<char> {
    "chunk_"@ + zero_pad(decimal(index as nat), 6) + "."@ + ext
}

/// File name of a chunk being written.
pub open spec fn partial_path(index: u32) -> Seq<char> {
    chunk_path(index, "partial"@)
}

/// File name of a validated chunk.
pub open spec fn written_path(index: u32) -> Seq<char> {
    chunk_path(index, "written"@)
}

/// File name of a committed chunk.
pub open spec fn bin_path(index: u32) -> Seq<char> {
    chunk_path(index, "bin"@)
}

/// Build the file name of chunk `index` with extension `ext`.
pub fn make_chunk_path(index: u32, ext: &str) -> (p: String)
    ensures
        p@ == chunk_path(index, ext@),
{
    let mut p = String::from_str("chunk_");
    push_padded_decimal(&mut p, index as u64, 6);
    p.append(".");
    p.append(ext);
    p
}

// ---------------------------------------------------------------------------
// ChunkStorage
// ---------------------------------------------------------------------------

/// A stored file: its path and its bytes.
pub type StoredFile = (Seq<char>, Seq<u8>);

/// Some file is stored under `path`.
pub open spec fn has_path(files: Seq<StoredFile>, path: Seq<char>) -> bool {
    exists|i: int| 0 <= i < files.len() && #[trigger] files[i].0 == path
}

/// `new` is `old` with the first file stored under `from` moved to `to`.
pub open spec fn renamed(
    old: Seq<StoredFile>,
    from: Seq<char>,
    to: Seq<char>,
    new: Seq<StoredFile>,
) -> bool {
    exists|i: int|
        0 <= i < old.len() && #[trigger] old[i].0 == from && (forall|j: int|
            0 <= j < i ==> old[j].0 != from) && new == old.update(i, (to, old[i].1))
}

/// A call made to a storage backend, with what it returned.
pub enum StorageCall {
    /// `write_chunk` of `bytes` (header and payload) under `path`.
    Write { path: Seq<char>, bytes: Seq<u8>, outcome: Result<(), RecordingError> },
    /// `rename_chunk` from `from` to `to`.
    Rename { from: Seq<char>, to: Seq<char>, outcome: Result<(), RecordingError> },
}

/// What a recorded storage call returned.
pub open spec fn outcome_of(c: StorageCall) -> Result<(), RecordingError> {
    match c {
        StorageCall::Write { outcome, .. } => outcome,
        StorageCall::Rename { outcome, .. } => outcome,
    }
}

/// Where chunks are stored.  Every call is recorded, with its result, in
/// the backend's call log.  A successful write appends the file; a
/// successful rename moves the first file stored under the old path; a
/// failed operation stores nothing.
pub trait ChunkStorage {
    /// The files held, in the order they were written.
    spec fn stored(&self) -> Seq<StoredFile>;

    /// Every call made to the backend, in order, with what it returned.
    spec fn calls(&self) -> Seq<StorageCall>;

    /// Store `header` followed by `payload` under `path`.
    fn write_chunk(&mut self, path: &str, header: &[u8; 32], payload: &[u8]) -> (r: Result<(), RecordingError>)
        ensures
            final(self).calls() == old(self).calls().push(
                StorageCall::Write { path: path@, bytes: header@ + payload@, outcome: r },
            ),
            r is Ok ==> final(self).stored() == old(self).stored().push((path@, header@ + payload@)),
            r is Err ==> final(self).stored() == old(self).stored(),
    ;

    /// Move the file stored under `from` to `to`.
    fn rename_chunk(&mut self, from: &str, to: &str) -> (r: Result<(), RecordingError>)
        ensures
            final(self).calls() == old(self).calls().push(
                StorageCall::Rename { from: from@, to: to@, outcome: r },
            ),
            r is Ok ==> renamed(old(self).stored(), from@, to@, final(self).stored()),
            r is Err ==> final(self).stored() == old(self).stored(),
    ;
}

/// Message of a rename whose source does not exist.
pub open spec fn missing_chunk_message(from: Seq<char>) -> Seq<char> {
    "Cannot rename "@ + from + ": chunk not found"@
}

/// An in-memory storage backend: a list of (path, bytes) pairs, and the
/// log of the calls made to it.
#[derive(Clone)]
pub struct MockChunkStorage {
    pub chunks: Vec<(String, Vec<u8>)>,
    log: Ghost<Seq<StorageCall>>,
}

impl MockChunkStorage {
    /// Create an empty storage, to which no call was made yet.
    pub fn new() -> (s: Self)
        ensures
            s.stored() == Seq::<StoredFile>::empty(),
            s.calls() == Seq::<StorageCall>::empty(),
    {
        let s = MockChunkStorage { chunks: Vec::new(), log: Ghost(Seq::empty()) };
        assert(s.stored() =~= Seq::<StoredFile>::empty());
        s
    }
}

impl ChunkStorage for MockChunkStorage {
    closed spec fn stored(&self) -> Seq<StoredFile> {
        self.chunks@.map_values(|c: (String, Vec<u8>)| (c.0@, c.1@))
    }

    closed spec fn calls(&self) -> Seq<StorageCall> {
        self.log@
    }

    /// Always succeeds.
    fn write_chunk(&mut self, path: &str, header: &[u8; 32], payload: &[u8]) -> (r: Result<(), RecordingError>)
        ensures
            r is Ok,
    {
        let mut data: Vec<u8> = Vec::new();
        let mut i: usize = 0;
        while i < 32
            invariant
                i <= 32,
                data@ == header@.subrange(0, i as int),
            decreases 32 - i,
        {
            data.push(header[i]);
            i = i + 1;
            assert(data@ =~= header@.subrange(0, i as int));
        }
        let mut j: usize = 0;
        while j < payload.len()
            invariant
                j <= payload@.len(),
                data@ == header@ + payload@.subrange(0, j as int),
            decreases payload@.len() - j,
        {
            data.push(payload[j]);
            j = j + 1;
            assert(data@ =~= header@ + payload@.subrange(0, j as int));
        }
        assert(data@ =~= header@ + payload@);
        self.chunks.push((String::from_str(path), data));
        assert(self.stored() =~= old(self).stored().push((path@, header@ + payload@)));
        let r = Ok(());
        proof {
            self.log@ = self.log@.push(StorageCall::Write { path: path@, bytes: header@ + payload@, outcome: r });
        }
        r
    }

    /// Fails with `WriteError`, storing nothing, when no file is stored
    /// under `from`.
    fn rename_chunk(&mut self, from: &str, to: &str) -> (r: Result<(), RecordingError>)
        ensures
            r is Ok <==> has_path(old(self).stored(), from@),
            r is Err ==> final(self).stored() == old(self).stored() && (r matches Err(
                RecordingError::WriteError { details }) && details@ == missing_chunk_message(from@)),
    {
        let wanted = String::from_str(from);
        let mut i: usize = 0;
        while i < self.chunks.len()
            invariant
                i <= self.chunks@.len(),
                *self == *old(self),
                wanted@ == from@,
                forall|j: int| 0 <= j < i ==> self.stored()[j].0 != from@,
            decreases self.chunks@.len() - i,
        {
            if self.chunks[i].0 == wanted {
                let ghost old_files = self.stored();
                assert(old_files[i as int].0 == from@);
                let (_, data) = self.chunks.remove(i);
                self.chunks.insert(i, (String::from_str(to), data));
                assert(self.stored() =~= old_files.update(i as int, (to@, old_files[i as int].1)));
                assert(renamed(old_files, from@, to@, self.stored()));
                let r = Ok(());
                proof {
                    self.log@ = self.log@.push(StorageCall::Rename { from: from@, to: to@, outcome: r });
                }
                return r;
            }
            i = i + 1;
        }
        assert(!has_path(old(self).stored(), from@));
        let mut details = String::from_str("Cannot rename ");
        details.append(from);
        details.append(": chunk not found");
        let r = Err(RecordingError::WriteError { details });
        proof {
            self.log@ = self.log@.push(StorageCall::Rename { from: from@, to: to@, outcome: r });
        }
        r
    }
}

/// Storage in the browser's origin-private file system.  This backend opens
/// no file handle yet: every write and rename is refused.
pub struct OpfsChunkStorage {
    pub session_id: String,
    log: Ghost<Seq<StorageCall>>,
}

impl OpfsChunkStorage {
    /// The session whose chunks the storage holds.
    pub closed spec fn spec_session_id(&self) -> Seq<char> {
        self.session_id@
    }

    /// Open the storage of a session; no call was made to it yet.
    pub fn init(session_id: &str) -> (r: Result<Self, RecordingError>)
        ensures
            r matches Ok(s) && s.spec_session_id() == session_id@ && s.calls() == Seq::<StorageCall>::empty(),
    {
        Ok(OpfsChunkStorage { session_id: String::from_str(session_id), log: Ghost(Seq::empty()) })
    }
}

impl ChunkStorage for OpfsChunkStorage {
    open spec fn stored(&self) -> Seq<StoredFile> {
        Seq::empty()
    }

    closed spec fn calls(&self) -> Seq<StorageCall> {
        self.log@
    }

    /// Always refused with `WriteError`.
    fn write_chunk(&mut self, path: &str, header: &[u8; 32], payload: &[u8]) -> (r: Result<(), RecordingError>)
        ensures
            r matches Err(RecordingError::WriteError { details })
                && details@ == "OPFS write_chunk not yet implemented (Story 2.1)"@,
    {
        let r = Err(RecordingError::WriteError {
            details: String::from_str("OPFS write_chunk not yet implemented (Story 2.1)"),
        });
        proof {
            self.log@ = self.log@.push(StorageCall::Write { path: path@, bytes: header@ + payload@, outcome: r });
        }
        r
    }

    /// Always refused with `WriteError`.
    fn rename_chunk(&mut self, from: &str, to: &str) -> (r: Result<(), RecordingError>)
        ensures
            r matches Err(RecordingError::WriteError { details })
                && details@ == "OPFS rename_chunk not yet implemented (Story 2.1)"@,
    {
        let r = Err(RecordingError::WriteError {
            details: String::from_str("OPFS rename_chunk not yet implemented (Story 2.1)"),
        });
        proof {
            self.log@ = self.log@.push(StorageCall::Rename { from: from@, to: to@, outcome: r });
        }
        r
    }
}

// ---------------------------------------------------------------------------
// ChunkWriter
// ---------------------------------------------------------------------------

/// Largest chunk index that the six-digit file names can hold.
pub const MAX_CHUNK_INDEX: u32 = 999999;

/// A timestamp, given as the bit pattern of an IEEE-754 binary64 number, is
/// accepted when it is finite and not less than zero: the exponent field is
/// not all ones, and the sign bit is clear unless the value is negative
/// zero.
pub open spec fn timestamp_valid(bits: u64) -> bool {
    &&& (bits >> 52u64) & 0x7ff != 0x7ff
    &&& (bits >> 63u64 == 0 || bits == 0x8000_0000_0000_0000)
}

/// The 32 header bytes written for chunk `index`, timestamp bits `ts` and
/// `payload`.
pub open spec fn header_bytes(index: u32, ts: u64, payload: Seq<u8>) -> Seq<u8> {
    magic_bytes() + seq![CURRENT_VERSION] + le4(index) + le8(ts) + le8(payload.len() as u64)
        + le4(checksum_of(payload)) + seq![0u8, 0u8, 0u8]
}

/// The manifest entry recorded for a freshly written chunk.
pub open spec fn written_entry(index: u32, ts: u64, payload: Seq<u8>) -> ManifestEntry {
    ManifestEntry {
        chunk_index: index,
        payload_size: payload.len() as u64,
        checksum: checksum_of(payload),
        status: ChunkStatus::Written,
        timestamp_ms: ts,
    }
}

/// Some entry of index `idx` is already committed.
pub open spec fn already_committed(entries: Seq<ManifestEntry>, idx: u32) -> bool {
    exists|i: int|
        0 <= i < entries.len() && #[trigger] entries[i].chunk_index == idx && entries[i].status
            == ChunkStatus::Committed
}

/// Message of an empty payload.
pub open spec fn empty_chunk_message(index: u32) -> Seq<char> {
    "Cannot write empty chunk (index "@ + decimal(index as nat) + ")"@
}

/// Message of a rejected timestamp.
pub open spec fn bad_timestamp_message(index: u32, timestamp_text: Seq<char>) -> Seq<char> {
    "Invalid timestamp for chunk index "@ + decimal(index as nat) + ": "@ + timestamp_text
}

/// Message of an index beyond `MAX_CHUNK_INDEX`.
pub open spec fn index_overflow_message(index: u32) -> Seq<char> {
    "Chunk index "@ + decimal(index as nat) + " exceeds maximum ("@ + decimal(MAX_CHUNK_INDEX as nat)
        + ")"@
}

/// Message of an index that the manifest already holds.
pub open spec fn duplicate_index_message(index: u32) -> Seq<char> {
    "Duplicate chunk index "@ + decimal(index as nat) + " in manifest"@
}

proof fn lemma_header_bytes(h: ChunkHeader, index: u32, ts: u64, payload: Seq<u8>)
    requires
        header_for(h, index, ts, payload),
    ensures
        encode_spec(h) == header_bytes(index, ts, payload),
{
    assert(encode_spec(h) =~= header_bytes(index, ts, payload));
}

/// Law: the header bytes written for a chunk decode to a well-formed header
/// of that index and timestamp, whose payload size and checksum match the
/// payload written after it.
pub proof fn lemma_written_header_readable(index: u32, ts: u64, payload: Seq<u8>, h: ChunkHeader)
    requires
        payload.len() <= u64::MAX,
        decodes_to(header_bytes(index, ts, payload), h),
    ensures
        header_for(h, index, ts, payload),
{
    let b = header_bytes(index, ts, payload);
    lemma_le4(index);
    lemma_le8(ts);
    lemma_le8(payload.len() as u64);
    lemma_le4(checksum_of(payload));
    assert(b.subrange(0, 4) =~= magic_bytes());
    assert(b.subrange(29, 32) =~= seq![0u8, 0u8, 0u8]);
    assert(read_le4(b, 5) == read_le4(le4(index), 0));
    assert(read_le8(b, 9) == read_le8(le8(ts), 0));
    assert(read_le8(b, 17) == read_le8(le8(payload.len() as u64), 0));
    assert(read_le4(b, 25) == read_le4(le4(checksum_of(payload)), 0));
}

/// Writes recorder blobs as chunks (header + payload) and moves each one
/// through `.partial`, `.written` and `.bin`, keeping the manifest in step.
pub struct ChunkWriter<S: ChunkStorage> {
    session_id: String,
    manifest: ChunkManifest,
    /// Index that the next written chunk receives.
    pub next_chunk_index: u32,
    storage: S,
}

impl<S: ChunkStorage> ChunkWriter<S> {
    /// The session the chunks belong to.
    pub closed spec fn spec_session_id(&self) -> Seq<char> {
        self.session_id@
    }

    /// Index that the next written chunk receives.
    pub closed spec fn spec_next(&self) -> u32 {
        self.next_chunk_index
    }

    /// The manifest.
    pub closed spec fn spec_manifest(&self) -> ChunkManifest {
        self.manifest
    }

    /// The storage backend.
    pub closed spec fn spec_storage(&self) -> S {
        self.storage
    }

    /// Create a writer for a session, over the given storage.
    pub fn new(session_id: String, storage: S) -> (w: Self)
        ensures
            w.spec_session_id() == session_id@,
            w.spec_manifest().session_id@ == session_id@,
            w.spec_manifest().entries@ == Seq::<ManifestEntry>::empty(),
            w.spec_next() == 0,
            w.spec_storage() == storage,
    {
        let manifest = ChunkManifest::new(session_id.clone());
        ChunkWriter { session_id, manifest, next_chunk_index: 0, storage }
    }

    /// Write a recorder blob as the next chunk: validate it, store
    /// `chunk_NNNNNN.partial` (header + blob), promote it to `.written` and
    /// record a `Written` entry in the manifest.
    ///
    /// `timestamp_ms` is the bit pattern of an IEEE-754 binary64 number of
    /// milliseconds, and `timestamp_text` that number in its `Display` form,
    /// which the message of a refused timestamp shows.  An empty blob, a timestamp that is not finite or is
    /// negative, or an index beyond `MAX_CHUNK_INDEX` is refused with
    /// `WriteError` and changes nothing.  Otherwise the partial file is
    /// written, and renamed to `.written` only when the write succeeded; the
    /// storage's own error is returned as it is, both calls succeeding gives
    /// `Ok` unless the manifest already holds the index.  On any error the manifest
    /// and the next index stay as they were.
    pub fn write_blob(&mut self, blob: &[u8], timestamp_ms: u64, timestamp_text: &str) -> (r: Result<(), RecordingError>)
        ensures
            final(self).spec_session_id() == old(self).spec_session_id(),
            final(self).spec_manifest().session_id@ == old(self).spec_manifest().session_id@,
            r is Err ==> final(self).spec_manifest().entries@ == old(self).spec_manifest().entries@
                && final(self).spec_next() == old(self).spec_next(),
            blob@.len() == 0 ==> *final(self) == *old(self) && (r matches Err(
                RecordingError::WriteError { details }) && details@ == empty_chunk_message(
                old(self).spec_next(),
            )),
            blob@.len() > 0 && !timestamp_valid(timestamp_ms) ==> *final(self) == *old(self) && (
            r matches Err(RecordingError::WriteError { details }) && details@
                == bad_timestamp_message(old(self).spec_next(), timestamp_text@)),
            blob@.len() > 0 && timestamp_valid(timestamp_ms) && old(self).spec_next()
                > MAX_CHUNK_INDEX ==> *final(self) == *old(self) && (r matches Err(
                RecordingError::WriteError { details }) && details@ == index_overflow_message(
                old(self).spec_next(),
            )),
            ({
                let i = old(self).spec_next();
                let bytes = header_bytes(i, timestamp_ms, blob@) + blob@;
                let log0 = old(self).spec_storage().calls();
                let log1 = final(self).spec_storage().calls();
                let write_call = StorageCall::Write { path: partial_path(i), bytes: bytes, outcome: outcome_of(log1[log0.len() as int]) };
                let w = outcome_of(log1[log0.len() as int]);
                let m = outcome_of(log1[log0.len() + 1int]);
                let pushed = old(self).spec_storage().stored().push((partial_path(i), bytes));
                blob@.len() > 0 && timestamp_valid(timestamp_ms) && i <= MAX_CHUNK_INDEX ==> {
                    &&& w is Err ==> log1 == log0.push(write_call) && r == w
                        && final(self).spec_storage().stored() == old(self).spec_storage().stored()
                    &&& w is Ok ==> log1 == log0.push(write_call).push(
                        StorageCall::Rename { from: partial_path(i), to: written_path(i), outcome: m },
                    )
                    &&& w is Ok && m is Err ==> r == m && final(self).spec_storage().stored() == pushed
                    &&& w is Ok && m is Ok ==> renamed(pushed, partial_path(i), written_path(i), final(self).spec_storage().stored())
                    &&& w is Ok && m is Ok && has_index(old(self).spec_manifest().entries@, i) ==> (r matches Err(
                        RecordingError::WriteError { details }) && details@ == duplicate_index_message(i))
                    &&& w is Ok && m is Ok && !has_index(old(self).spec_manifest().entries@, i) ==> r is Ok
                        && final(self).spec_manifest().entries@ == old(self).spec_manifest().entries@.push(
                        written_entry(i, timestamp_ms, blob@),
                    ) && final(self).spec_next() == i + 1
                }
            }),
    {
        let index = self.next_chunk_index;
        if blob.len() == 0 {
            let mut details = String::from_str("Cannot write empty chunk (index ");
            push_decimal(&mut details, index as u64);
            details.append(")");
            return Err(RecordingError::WriteError { details });
        }
        let exponent = (timestamp_ms >> 52u64) & 0x7ff;
        if exponent == 0x7ff || (timestamp_ms >> 63u64 != 0 && timestamp_ms != 0x8000_0000_0000_0000) {
            let mut details = String::from_str("Invalid timestamp for chunk index ");
            push_decimal(&mut details, index as u64);
            details.append(": ");
            details.append(timestamp_text);
            return Err(RecordingError::WriteError { details });
        }
        if index > MAX_CHUNK_INDEX {
            let mut details = String::from_str("Chunk index ");
            push_decimal(&mut details, index as u64);
            details.append(" exceeds maximum (");
            push_decimal(&mut details, MAX_CHUNK_INDEX as u64);
            details.append(")");
            return Err(RecordingError::WriteError { details });
        }
        let header = ChunkHeader::new(index, timestamp_ms, blob);
        let header_bytes = header.encode();
        proof {
            lemma_header_bytes(header, index, timestamp_ms, blob@);
        }
        let partial = make_chunk_path(index, "partial");
        let written = make_chunk_path(index, "written");
        let w = self.storage.write_chunk(partial.as_str(), &header_bytes, blob);
        if w.is_err() {
            return w;
        }
        let m = self.storage.rename_chunk(partial.as_str(), written.as_str());
        if m.is_err() {
            return m;
        }
        if self.manifest.holds_index(index) {
            let mut details = String::from_str("Duplicate chunk index ");
            push_decimal(&mut details, index as u64);
            details.append(" in manifest");
            return Err(RecordingError::WriteError { details });
        }
        let entry = ManifestEntry {
            chunk_index: index,
            payload_size: blob.len() as u64,
            checksum: header.checksum,
            status: ChunkStatus::Written,
            timestamp_ms,
        };
        self.manifest.add_entry(entry);
        self.next_chunk_index = index + 1;
        Ok(())
    }

    /// Commit the most recently written chunk: rename it from `.written` to
    /// `.bin`, then mark its manifest entry `Committed`.
    ///
    /// Nothing happens when no chunk was written yet, or when that chunk is
    /// already committed (so a repeated call is harmless).  A failed rename
    /// is returned with nothing changed; a missing manifest entry is
    /// reported after the rename.
    pub fn commit_chunk(&mut self) -> (r: Result<(), RecordingError>)
        ensures
            final(self).spec_session_id() == old(self).spec_session_id(),
            final(self).spec_manifest().session_id@ == old(self).spec_manifest().session_id@,
            final(self).spec_next() == old(self).spec_next(),
            r is Err ==> final(self).spec_manifest().entries@ == old(self).spec_manifest().entries@,
            old(self).spec_next() == 0 ==> r is Ok && *final(self) == *old(self),
            ({
                let i = (old(self).spec_next() - 1) as u32;
                let log0 = old(self).spec_storage().calls();
                let log1 = final(self).spec_storage().calls();
                let m = outcome_of(log1[log0.len() as int]);
                &&& old(self).spec_next() > 0 && already_committed(old(self).spec_manifest().entries@, i)
                    ==> r is Ok && *final(self) == *old(self)
                &&& old(self).spec_next() > 0 && !already_committed(old(self).spec_manifest().entries@, i)
                    ==> {
                    &&& log1 == log0.push(StorageCall::Rename { from: written_path(i), to: bin_path(i), outcome: m })
                    &&& m is Err ==> r == m && final(self).spec_storage().stored() == old(
                        self,
                    ).spec_storage().stored()
                    &&& m is Ok ==> renamed(
                        old(self).spec_storage().stored(),
                        written_path(i),
                        bin_path(i),
                        final(self).spec_storage().stored(),
                    )
                    &&& m is Ok && has_index(old(self).spec_manifest().entries@, i) ==> r is Ok
                        && status_updated(
                        old(self).spec_manifest().entries@,
                        i,
                        ChunkStatus::Committed,
                        final(self).spec_manifest().entries@,
                    )
                    &&& m is Ok && !has_index(old(self).spec_manifest().entries@, i) ==> (r matches Err(
                        RecordingError::WriteError { details }) && details@ == missing_entry_message(i))
                }
            }),
    {
        if self.next_chunk_index == 0 {
            return Ok(());
        }
        let index = self.next_chunk_index - 1;
        if self.manifest.holds_committed(index) {
            return Ok(());
        }
        let written = make_chunk_path(index, "written");
        let bin = make_chunk_path(index, "bin");
        let m = self.storage.rename_chunk(written.as_str(), bin.as_str());
        if m.is_err() {
            return m;
        }
        self.manifest.update_status(index, ChunkStatus::Committed)
    }

    /// Return the manifest.
    pub fn manifest(&self) -> (m: &ChunkManifest)
        ensures
            *m == self.spec_manifest(),
    {
        &self.manifest
    }

    /// Return the storage backend.
    pub fn storage(&self) -> (s: &S)
        ensures
            *s == self.spec_storage(),
    {
        &self.storage
    }

    /// Return the file name that the next chunk would get with extension
    /// `status`.
    pub fn next_chunk_path(&self, status: &str) -> (p: String)
        ensures
            p@ == chunk_path(self.spec_next(), status@),
    {
        make_chunk_path(self.next_chunk_index, status)
    }
}


/// Law: once the status of an index has been set to `Committed`, that index
/// counts as committed, so a further `commit_chunk` for it changes nothing.
pub proof fn lemma_commit_idempotent(before: Seq<ManifestEntry>, idx: u32, after: Seq<ManifestEntry>)
    requires
        status_updated(before, idx, ChunkStatus::Committed, after),
    ensures
        already_committed(after, idx),
{
    let i = choose|i: int|
        0 <= i < before.len() && #[trigger] before[i].chunk_index == idx && (forall|j: int|
            0 <= j < i ==> before[j].chunk_index != idx) && after == before.update(
            i,
            ManifestEntry { status: ChunkStatus::Committed, ..before[i] },
        );
    assert(after[i].chunk_index == idx && after[i].status == ChunkStatus::Committed);
}

/// The entries carry the indices `0, 1, 2, ...` in order, as a writer
/// started with `ChunkWriter::new` records them.
pub open spec fn indices_contiguous(entries: Seq<ManifestEntry>) -> bool {
    forall|k: int| 0 <= k < entries.len() ==> #[trigger] entries[k].chunk_index == k
}

/// Law: appending the entry that `write_blob` records for the next index
/// keeps the manifest's indices contiguous, and that index is never already
/// present, so a writer started empty never meets a duplicate index.
pub proof fn lemma_written_entries_contiguous(entries: Seq<ManifestEntry>, ts: u64, payload: Seq<u8>)
    requires
        indices_contiguous(entries),
        entries.len() <= MAX_CHUNK_INDEX,
    ensures
        !has_index(entries, entries.len() as u32),
        indices_contiguous(entries.push(written_entry(entries.len() as u32, ts, payload))),
{
    let n = entries.len();
    if has_index(entries, n as u32) {
        let k = choose|k: int| 0 <= k < entries.len() && #[trigger] entries[k].chunk_index == n as u32;
        assert(entries[k].chunk_index == k);
    }
    let e = entries.push(written_entry(n as u32, ts, payload));
    assert forall|k: int| 0 <= k < e.len() implies #[trigger] e[k].chunk_index == k by {
        if k < n {
            assert(e[k] == entries[k]);
        }
    }
}

} // verus!
