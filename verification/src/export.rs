//! The export pipeline: validation of a session's chunk sequence and
//! concatenation of the committed payloads into one WebM stream.

use vstd::prelude::*;
use crate::chunk::{ChunkHeader, ChunkStatus, CURRENT_VERSION, checksum_of, magic_bytes, magic, header_for};
use crate::error::RecordingError;
use crate::text::{decimal, hex_list, push_decimal, push_hex_list};

verus! {

broadcast use vstd::array::group_array_axioms;

/// A chunk read back for export: its index, its parsed header, its payload
/// and its commit status.
#[derive(Debug, Clone)]
pub struct ExportChunk {
    pub index: u32,
    pub header: ChunkHeader,
    pub payload: Vec<u8>,
    pub status: ChunkStatus,
}

/// The first problem found with the chunk at position `pos` of a sequence,
/// checked in this order: its index is not `pos`, its magic bytes are not
/// `CFCH`, its version is unknown, its checksum does not match its payload,
/// its payload size does not match its payload, its payload is empty.
pub open spec fn chunk_problem(index: u32, h: ChunkHeader, payload: Seq<u8>, pos: u32) -> Option<Seq<char>> {
    if index != pos {
        Some("Chunk sequence gap: expected index "@ + decimal(pos as nat) + ", got "@ + decimal(index as nat))
    } else if h.magic@ != magic_bytes() {
        Some("Chunk "@ + decimal(pos as nat) + ": invalid magic, expected CFCH, got "@ + hex_list(h.magic@))
    } else if h.version != CURRENT_VERSION {
        Some("Chunk "@ + decimal(pos as nat) + ": unsupported version "@ + decimal(h.version as nat))
    } else if h.checksum != checksum_of(payload) {
        Some("Chunk "@ + decimal(pos as nat) + ": checksum mismatch (expected "@ + decimal(h.checksum as nat)
            + ", got "@ + decimal(checksum_of(payload) as nat) + ")"@)
    } else if h.payload_size != payload.len() {
        Some("Chunk "@ + decimal(pos as nat) + ": header payload_size "@ + decimal(h.payload_size as nat)
            + " != actual "@ + decimal(payload.len()))
    } else if payload.len() == 0 {
        Some("Chunk "@ + decimal(pos as nat) + ": empty payload in export"@)
    } else {
        None
    }
}

/// The problem of the chunk at position `k` of `chunks`.
pub open spec fn problem_at(chunks: Seq<ExportChunk>, k: int) -> Option<Seq<char>> {
    chunk_problem(chunks[k].index, chunks[k].header, chunks[k].payload@, k as u32)
}

/// Every chunk of the sequence passes the checks.
pub open spec fn all_chunks_valid(chunks: Seq<ExportChunk>) -> bool {
    forall|k: int| 0 <= k < chunks.len() ==> #[trigger] problem_at(chunks, k) is None
}

/// The message of an export with nothing to export.
pub open spec fn no_chunks_message() -> Seq<char> {
    "No chunks to export"@
}

/// The payloads of the committed chunks, concatenated in sequence order.
pub open spec fn committed_payload(chunks: Seq<ExportChunk>) -> Seq<u8>
    decreases chunks.len(),
{
    if chunks.len() == 0 {
        Seq::empty()
    } else {
        committed_payload(chunks.drop_last()) + if chunks.last().status == ChunkStatus::Committed {
            chunks.last().payload@
        } else {
            Seq::empty()
        }
    }
}

/// Some chunk of the sequence is committed.
pub open spec fn has_committed(chunks: Seq<ExportChunk>) -> bool {
    exists|k: int| 0 <= k < chunks.len() && #[trigger] chunks[k].status == ChunkStatus::Committed
}

/// Law: a chunk whose header was built by `ChunkHeader::new` for its own
/// position and non-empty payload passes every check.
pub proof fn lemma_built_chunk_valid(pos: u32, ts: u64, payload: Seq<u8>, h: ChunkHeader)
    requires
        header_for(h, pos, ts, payload),
        payload.len() > 0,
    ensures
        chunk_problem(pos, h, payload, pos) is None,
{
}

/// Law: the export is exactly as long as the committed payloads together.
pub proof fn lemma_committed_payload_len(chunks: Seq<ExportChunk>)
    ensures
        committed_payload(chunks).len() <= total_payload_len(chunks),
        (forall|k: int| 0 <= k < chunks.len() ==> #[trigger] chunks[k].status == ChunkStatus::Committed)
            ==> committed_payload(chunks).len() == total_payload_len(chunks),
    decreases chunks.len(),
{
    if chunks.len() > 0 {
        let d = chunks.drop_last();
        assert forall|k: int| 0 <= k < d.len() implies #[trigger] d[k] == chunks[k] by {}
        lemma_committed_payload_len(d);
    }
}

/// The payloads of all chunks of the sequence, concatenated in order.
pub open spec fn all_payloads(chunks: Seq<ExportChunk>) -> Seq<u8>
    decreases chunks.len(),
{
    if chunks.len() == 0 {
        Seq::empty()
    } else {
        all_payloads(chunks.drop_last()) + chunks.last().payload@
    }
}

/// The chunk at position `k` was built by `ChunkHeader::new` for position
/// `k` and its own non-empty payload, and was committed.
pub open spec fn built_and_committed(chunks: Seq<ExportChunk>, k: int) -> bool {
    &&& chunks[k].index == k
    &&& header_for(chunks[k].header, k as u32, chunks[k].header.timestamp_ms, chunks[k].payload@)
    &&& chunks[k].payload@.len() > 0
    &&& chunks[k].status == ChunkStatus::Committed
}

/// Law: a session whose chunks were built in order by `ChunkHeader::new`,
/// each for its own non-empty payload, and all committed, passes every check
/// of the export, and what the export gives back is exactly the payloads,
/// concatenated in the order they were written.
pub proof fn lemma_export_of_built_session(chunks: Seq<ExportChunk>)
    requires
        forall|k: int| 0 <= k < chunks.len() ==> #[trigger] built_and_committed(chunks, k),
    ensures
        all_chunks_valid(chunks),
        chunks.len() > 0 ==> has_committed(chunks),
        committed_payload(chunks) == all_payloads(chunks),
    decreases chunks.len(),
{
    assert forall|k: int| 0 <= k < chunks.len() implies #[trigger] problem_at(chunks, k) is None by {
        assert(built_and_committed(chunks, k));
        lemma_built_chunk_valid(k as u32, chunks[k].header.timestamp_ms, chunks[k].payload@, chunks[k].header);
    }
    if chunks.len() > 0 {
        assert(built_and_committed(chunks, 0));
        assert(chunks[0].status == ChunkStatus::Committed);
        let d = chunks.drop_last();
        assert forall|k: int| 0 <= k < d.len() implies #[trigger] built_and_committed(d, k) by {
            assert(d[k] == chunks[k]);
            assert(built_and_committed(chunks, k));
        }
        lemma_export_of_built_session(d);
        assert(built_and_committed(chunks, chunks.len() - 1));
    }
}

/// Law: the export of two sequences one after the other is the export of
/// the first followed by the export of the second.
pub proof fn lemma_committed_payload_append(a: Seq<ExportChunk>, b: Seq<ExportChunk>)
    ensures
        committed_payload(a + b) == committed_payload(a) + committed_payload(b),
    decreases b.len(),
{
    if b.len() == 0 {
        assert(a + b =~= a);
        assert(committed_payload(a) + committed_payload(b) =~= committed_payload(a));
    } else {
        assert((a + b).drop_last() =~= a + b.drop_last());
        assert((a + b).last() == b.last());
        lemma_committed_payload_append(a, b.drop_last());
        assert(committed_payload(a + b) =~= committed_payload(a) + committed_payload(b));
    }
}

/// Law: a committed chunk at any position of the sequence, not only the
/// last, makes the sequence one with committed chunks, and its payload
/// stands in the export between the committed payloads before it and those
/// after it; a sequence whose export is not empty has committed chunks.
pub proof fn lemma_committed_anywhere(chunks: Seq<ExportChunk>, k: int)
    requires
        0 <= k < chunks.len(),
        chunks[k].status == ChunkStatus::Committed,
    ensures
        has_committed(chunks),
        committed_payload(chunks) == committed_payload(chunks.subrange(0, k)) + chunks[k].payload@
            + committed_payload(chunks.subrange(k + 1, chunks.len() as int)),
{
    let pre = chunks.subrange(0, k);
    let one = seq![chunks[k]];
    let post = chunks.subrange(k + 1, chunks.len() as int);
    assert(chunks =~= pre + one + post);
    lemma_committed_payload_append(pre + one, post);
    lemma_committed_payload_append(pre, one);
    assert(one.drop_last() =~= Seq::<ExportChunk>::empty());
    assert(committed_payload(one.drop_last()) == Seq::<u8>::empty());
    assert(one.last() == chunks[k]);
    assert(committed_payload(one) =~= chunks[k].payload@);
}

/// Law: a sequence whose committed payloads are not all empty has committed
/// chunks.
pub proof fn lemma_nonempty_export_has_committed(chunks: Seq<ExportChunk>)
    requires
        committed_payload(chunks).len() > 0,
    ensures
        has_committed(chunks),
    decreases chunks.len(),
{
    if chunks.len() > 0 {
        if chunks.last().status == ChunkStatus::Committed {
            lemma_committed_anywhere(chunks, chunks.len() - 1);
        } else {
            let d = chunks.drop_last();
            assert(committed_payload(chunks) =~= committed_payload(d));
            lemma_nonempty_export_has_committed(d);
            let k = choose|k: int| 0 <= k < d.len() && #[trigger] d[k].status == ChunkStatus::Committed;
            lemma_committed_anywhere(chunks, k);
        }
    }
}

/// Law: a sequence that passes validation carries the indices 0, 1, 2, ...
/// in order, and each of its chunks opens with `CFCH`, has version 1, a
/// checksum and a payload size that match its payload, and a non-empty
/// payload.
pub proof fn lemma_valid_sequence_is_well_formed(chunks: Seq<ExportChunk>, k: int)
    requires
        all_chunks_valid(chunks),
        0 <= k < chunks.len(),
    ensures
        chunks[k].index == k as u32,
        chunks[k].header.magic@ == seq![0x43u8, 0x46u8, 0x43u8, 0x48u8],
        chunks[k].header.version == 1,
        chunks[k].header.checksum == checksum_of(chunks[k].payload@),
        chunks[k].header.payload_size == chunks[k].payload@.len(),
        chunks[k].payload@.len() > 0,
{
    assert(problem_at(chunks, k) is None);
}

/// The lengths of all payloads of the sequence, added up.
pub open spec fn total_payload_len(chunks: Seq<ExportChunk>) -> nat
    decreases chunks.len(),
{
    if chunks.len() == 0 {
        0
    } else {
        total_payload_len(chunks.drop_last()) + chunks.last().payload@.len()
    }
}

fn check_chunk(chunk: &ExportChunk, pos: u32) -> (r: Option<String>)
    ensures
        match r {
            Some(s) => chunk_problem(chunk.index, chunk.header, chunk.payload@, pos) == Some(s@),
            None => chunk_problem(chunk.index, chunk.header, chunk.payload@, pos) is None,
        },
{
    if chunk.index != pos {
        let mut s = String::from_str("Chunk sequence gap: expected index ");
        push_decimal(&mut s, pos as u64);
        s.append(", got ");
        push_decimal(&mut s, chunk.index as u64);
        return Some(s);
    }
    let m = magic();
    let hm = chunk.header.magic;
    if !(hm[0] == m[0] && hm[1] == m[1] && hm[2] == m[2] && hm[3] == m[3]) {
        assert(hm@ != magic_bytes());
        let mut s = String::from_str("Chunk ");
        push_decimal(&mut s, pos as u64);
        s.append(": invalid magic, expected CFCH, got ");
        push_hex_list(&mut s, hm.as_slice());
        return Some(s);
    }
    assert(hm@ =~= magic_bytes());
    if chunk.header.version != CURRENT_VERSION {
        let mut s = String::from_str("Chunk ");
        push_decimal(&mut s, pos as u64);
        s.append(": unsupported version ");
        push_decimal(&mut s, chunk.header.version as u64);
        return Some(s);
    }
    if !chunk.header.verify_checksum(chunk.payload.as_slice()) {
        let actual = ChunkHeader::calc_checksum(chunk.payload.as_slice());
        let mut s = String::from_str("Chunk ");
        push_decimal(&mut s, pos as u64);
        s.append(": checksum mismatch (expected ");
        push_decimal(&mut s, chunk.header.checksum as u64);
        s.append(", got ");
        push_decimal(&mut s, actual as u64);
        s.append(")");
        return Some(s);
    }
    let actual_size = chunk.payload.len() as u64;
    if chunk.header.payload_size != actual_size {
        let mut s = String::from_str("Chunk ");
        push_decimal(&mut s, pos as u64);
        s.append(": header payload_size ");
        push_decimal(&mut s, chunk.header.payload_size);
        s.append(" != actual ");
        push_decimal(&mut s, actual_size);
        return Some(s);
    }
    if chunk.payload.len() == 0 {
        let mut s = String::from_str("Chunk ");
        push_decimal(&mut s, pos as u64);
        s.append(": empty payload in export");
        return Some(s);
    }
    None
}

/// The export pipeline.
pub struct ExportPipeline;

impl ExportPipeline {
    /// Validate a chunk sequence.  An empty sequence gives `EmptySession`;
    /// otherwise the first chunk (in sequence order) that fails a check
    /// gives `ExportError` with that check's message; else `Ok`.
    pub fn validate_sequence(chunks: &[ExportChunk]) -> (r: Result<(), RecordingError>)
        ensures
            chunks@.len() == 0 ==> (r matches Err(RecordingError::EmptySession { details })
                && details@ == no_chunks_message()),
            chunks@.len() > 0 ==> (r is Ok <==> all_chunks_valid(chunks@)),
            chunks@.len() > 0 && !all_chunks_valid(chunks@) ==> exists|k: int|
                #![trigger problem_at(chunks@, k)]
                0 <= k < chunks@.len() && (forall|j: int| 0 <= j < k ==> #[trigger] problem_at(chunks@, j) is None)
                && (r matches Err(RecordingError::ExportError { details }) && Some(details@)
                == problem_at(chunks@, k)),
    {
        if chunks.len() == 0 {
            return Err(RecordingError::EmptySession { details: String::from_str("No chunks to export") });
        }
        let mut i: usize = 0;
        while i < chunks.len()
            invariant
                i <= chunks@.len(),
                forall|j: int| 0 <= j < i ==> #[trigger] problem_at(chunks@, j) is None,
            decreases chunks@.len() - i,
        {
            let p = check_chunk(&chunks[i], i as u32);
            match p {
                Some(details) => {
                    assert(problem_at(chunks@, i as int) == Some(details@));
                    return Err(RecordingError::ExportError { details });
                }
                None => {}
            }
            i = i + 1;
        }
        Ok(())
    }

    /// Validate the sequence, then concatenate the payloads of its
    /// committed chunks in order.  Validation errors are returned as they
    /// are; a valid sequence without committed chunk gives `EmptySession`.
    pub fn concat(chunks: &[ExportChunk]) -> (r: Result<Vec<u8>, RecordingError>)
        ensures
            chunks@.len() == 0 ==> (r matches Err(RecordingError::EmptySession { details })
                && details@ == no_chunks_message()),
            chunks@.len() > 0 && !all_chunks_valid(chunks@) ==> exists|k: int|
                #![trigger problem_at(chunks@, k)]
                0 <= k < chunks@.len() && (forall|j: int| 0 <= j < k ==> #[trigger] problem_at(chunks@, j) is None)
                && (r matches Err(RecordingError::ExportError { details }) && Some(details@)
                == problem_at(chunks@, k)),
            chunks@.len() > 0 && all_chunks_valid(chunks@) && !has_committed(chunks@) ==> (r matches Err(
                RecordingError::EmptySession { details }) && details@ == no_chunks_message()),
            chunks@.len() > 0 && all_chunks_valid(chunks@) && has_committed(chunks@) ==> (r matches Ok(out)
                && out@ == committed_payload(chunks@)),
    {
        match Self::validate_sequence(chunks) {
            Err(e) => return Err(e),
            Ok(()) => {}
        }
        let mut output: Vec<u8> = Vec::new();
        let mut any = false;
        let mut i: usize = 0;
        while i < chunks.len()
            invariant
                i <= chunks@.len(),
                output@ == committed_payload(chunks@.subrange(0, i as int)),
                any <==> has_committed(chunks@.subrange(0, i as int)),
            decreases chunks@.len() - i,
        {
            let ghost prefix = chunks@.subrange(0, i + 1);
            assert(prefix.drop_last() =~= chunks@.subrange(0, i as int));
            if chunks[i].status == ChunkStatus::Committed {
                let payload = &chunks[i].payload;
                let mut j: usize = 0;
                let ghost base = output@;
                while j < payload.len()
                    invariant
                        j <= payload@.len(),
                        output@ == base + payload@.subrange(0, j as int),
                    decreases payload@.len() - j,
                {
                    output.push(payload[j]);
                    j = j + 1;
                    assert(output@ =~= base + payload@.subrange(0, j as int));
                }
                assert(payload@.subrange(0, payload@.len() as int) =~= payload@);
                any = true;
                assert(prefix[i as int].status == ChunkStatus::Committed);
            } else {
                assert(output@ =~= committed_payload(prefix));
            }
            proof {
                if has_committed(prefix) && prefix[i as int].status != ChunkStatus::Committed {
                    let k = choose|k: int| 0 <= k < prefix.len() && #[trigger] prefix[k].status == ChunkStatus::Committed;
                    assert(chunks@.subrange(0, i as int)[k].status == ChunkStatus::Committed);
                }
                if has_committed(chunks@.subrange(0, i as int)) {
                    let k = choose|k: int| 0 <= k < i && #[trigger] chunks@.subrange(0, i as int)[k].status == ChunkStatus::Committed;
                    assert(prefix[k].status == ChunkStatus::Committed);
                }
                if prefix[i as int].status == ChunkStatus::Committed {
                    assert(has_committed(prefix));
                }
            }
            i = i + 1;
        }
        assert(chunks@.subrange(0, chunks@.len() as int) =~= chunks@);
        if !any {
            return Err(RecordingError::EmptySession { details: String::from_str("No chunks to export") });
        }
        Ok(output)
    }
}

} // verus!
