//! The background's own logic: the store of exported recordings waiting for
//! their preview page, the handling of the preview page's and recovery
//! toast's requests, and the decision to propose a crash recovery.

use vstd::prelude::*;
use crate::error::RecordingError;
use crate::recorder::{RecordingSession, SessionState, transition_allowed};

verus! {

/// An exported recording kept for its preview page.
#[derive(Debug, Clone)]
pub struct PreviewDataEntry {
    pub session_id: String,
    pub webm_data: Vec<u8>,
    /// Integrity label: `Clean`, `Partial` or `Incomplete`.
    pub integrity: String,
    /// Detail shown under the integrity badge.
    pub detail_message: Option<String>,
}

/// What the store keeps for one session: bytes, integrity label, detail.
pub type PreviewData = (Seq<u8>, Seq<char>, Option<Seq<char>>);

/// The data of an entry.
pub open spec fn entry_data(e: PreviewDataEntry) -> PreviewData {
    (e.webm_data@, e.integrity@, match e.detail_message {
        Some(d) => Some(d@),
        None => None,
    })
}

/// The exported recordings waiting for their preview page, one per
/// session.
#[derive(Debug)]
pub struct PreviewStore {
    entries: Vec<PreviewDataEntry>,
}

/// Position of the entry of session `k`.
pub open spec fn slot_of(entries: Seq<PreviewDataEntry>, k: Seq<char>) -> int {
    choose|i: int| 0 <= i < entries.len() && #[trigger] entries[i].session_id@ == k
}

/// Some entry belongs to session `k`.
pub open spec fn holds_session(entries: Seq<PreviewDataEntry>, k: Seq<char>) -> bool {
    exists|i: int| 0 <= i < entries.len() && #[trigger] entries[i].session_id@ == k
}

/// No two entries belong to the same session.
pub open spec fn sessions_distinct(entries: Seq<PreviewDataEntry>) -> bool {
    forall|i: int, j: int|
        0 <= i < entries.len() && 0 <= j < entries.len() && i != j ==> #[trigger] entries[i].session_id@
            != #[trigger] entries[j].session_id@
}

/// The entries as a map from session identifier to data.
pub open spec fn entries_map(entries: Seq<PreviewDataEntry>) -> Map<Seq<char>, PreviewData> {
    Map::new(|k: Seq<char>| holds_session(entries, k), |k: Seq<char>| entry_data(entries[slot_of(entries, k)]))
}

proof fn lemma_slot(entries: Seq<PreviewDataEntry>, i: int)
    requires
        sessions_distinct(entries),
        0 <= i < entries.len(),
    ensures
        holds_session(entries, entries[i].session_id@),
        slot_of(entries, entries[i].session_id@) == i,
{
    let k = entries[i].session_id@;
    assert(holds_session(entries, k));
    let j = slot_of(entries, k);
    if j != i {
        assert(entries[i].session_id@ != entries[j].session_id@);
    }
}

impl PreviewStore {
    #[verifier::type_invariant]
    spec fn inv(self) -> bool {
        sessions_distinct(self.entries@)
    }

    /// The stored recordings, by session identifier.
    pub closed spec fn view(&self) -> Map<Seq<char>, PreviewData> {
        entries_map(self.entries@)
    }

    /// An empty store.
    pub fn new() -> (s: Self)
        ensures
            s.view() == Map::<Seq<char>, PreviewData>::empty(),
    {
        let s = PreviewStore { entries: Vec::new() };
        assert(s.view() =~= Map::<Seq<char>, PreviewData>::empty());
        s
    }

    fn find(&self, session_id: &str) -> (r: Option<usize>)
        requires
            sessions_distinct(self.entries@),
        ensures
            match r {
                Some(i) => i < self.entries@.len() && self.entries@[i as int].session_id@ == session_id@,
                None => !holds_session(self.entries@, session_id@),
            },
    {
        let wanted = String::from_str(session_id);
        let mut i: usize = 0;
        while i < self.entries.len()
            invariant
                i <= self.entries@.len(),
                wanted@ == session_id@,
                forall|j: int| 0 <= j < i ==> self.entries@[j].session_id@ != session_id@,
            decreases self.entries@.len() - i,
        {
            if self.entries[i].session_id == wanted {
                return Some(i);
            }
            i = i + 1;
        }
        None
    }

    /// Keep the exported recording of a session, replacing any earlier one.
    pub fn store(&mut self, session_id: &str, webm_data: &[u8], integrity: &str, detail: Option<String>)
        ensures
            final(self).view() == old(self).view().insert(
                session_id@,
                (webm_data@, integrity@, match detail {
                    Some(d) => Some(d@),
                    None => None,
                }),
            ),
    {
        proof { use_type_invariant(&*self); }
        let mut data: Vec<u8> = Vec::new();
        let mut i: usize = 0;
        while i < webm_data.len()
            invariant
                i <= webm_data@.len(),
                data@ == webm_data@.subrange(0, i as int),
            decreases webm_data@.len() - i,
        {
            data.push(webm_data[i]);
            i = i + 1;
            assert(data@ =~= webm_data@.subrange(0, i as int));
        }
        assert(data@ =~= webm_data@);
        let entry = PreviewDataEntry {
            session_id: String::from_str(session_id),
            webm_data: data,
            integrity: String::from_str(integrity),
            detail_message: detail,
        };
        let ghost old_entries = self.entries@;
        let ghost v = entry_data(entry);
        let ghost k = session_id@;
        match self.find(session_id) {
            Some(pos) => {
                let mut entries: Vec<PreviewDataEntry> = Vec::new();
                std::mem::swap(&mut entries, &mut self.entries);
                assert(entries@ == old_entries);
                entries.set(pos, entry);
                let ghost ne = entries@;
                proof {
                    assert forall|a: int, b: int|
                        0 <= a < ne.len() && 0 <= b < ne.len() && a != b implies #[trigger] ne[a].session_id@
                            != #[trigger] ne[b].session_id@ by {
                        if a != pos && b != pos {
                            assert(ne[a] == old_entries[a] && ne[b] == old_entries[b]);
                        } else if a == pos {
                            assert(ne[b] == old_entries[b]);
                            assert(old_entries[pos as int].session_id@ == k);
                        } else {
                            assert(ne[a] == old_entries[a]);
                            assert(old_entries[pos as int].session_id@ == k);
                        }
                    }
                    assert forall|key: Seq<char>| holds_session(ne, key) <==> (holds_session(old_entries, key)
                        || key == k) by {
                        if holds_session(ne, key) {
                            let j = choose|j: int| 0 <= j < ne.len() && #[trigger] ne[j].session_id@ == key;
                            if j != pos {
                                assert(old_entries[j].session_id@ == key);
                            }
                        }
                        if key == k {
                            assert(ne[pos as int].session_id@ == key);
                        } else if holds_session(old_entries, key) {
                            let j = choose|j: int| 0 <= j < old_entries.len() && #[trigger] old_entries[j].session_id@ == key;
                            assert(ne[j].session_id@ == key);
                        }
                    }
                    assert forall|key: Seq<char>| #[trigger] holds_session(ne, key) implies entry_data(
                        ne[slot_of(ne, key)]) == (if key == k { v } else { entry_data(
                        old_entries[slot_of(old_entries, key)]) }) by {
                        let j = slot_of(ne, key);
                        lemma_slot(ne, j);
                        if key != k {
                            lemma_slot(old_entries, j);
                        }
                    }
                    assert(entries_map(ne) =~= entries_map(old_entries).insert(k, v));
                }
                self.entries = entries;
            },
            None => {
                let mut entries: Vec<PreviewDataEntry> = Vec::new();
                std::mem::swap(&mut entries, &mut self.entries);
                assert(entries@ == old_entries);
                entries.push(entry);
                let ghost ne = entries@;
                proof {
                    assert forall|a: int, b: int|
                        0 <= a < ne.len() && 0 <= b < ne.len() && a != b implies #[trigger] ne[a].session_id@
                            != #[trigger] ne[b].session_id@ by {
                        if a < old_entries.len() && b < old_entries.len() {
                            assert(ne[a] == old_entries[a] && ne[b] == old_entries[b]);
                        } else if a < old_entries.len() {
                            assert(ne[a] == old_entries[a]);
                        } else {
                            assert(ne[b] == old_entries[b]);
                        }
                    }
                    assert forall|key: Seq<char>| holds_session(ne, key) <==> (holds_session(old_entries, key)
                        || key == k) by {
                        if holds_session(ne, key) {
                            let j = choose|j: int| 0 <= j < ne.len() && #[trigger] ne[j].session_id@ == key;
                            if j < old_entries.len() {
                                assert(old_entries[j].session_id@ == key);
                            }
                        }
                        if key == k {
                            assert(ne[old_entries.len() as int].session_id@ == key);
                        } else if holds_session(old_entries, key) {
                            let j = choose|j: int| 0 <= j < old_entries.len() && #[trigger] old_entries[j].session_id@ == key;
                            assert(ne[j].session_id@ == key);
                        }
                    }
                    assert forall|key: Seq<char>| #[trigger] holds_session(ne, key) implies entry_data(
                        ne[slot_of(ne, key)]) == (if key == k { v } else { entry_data(
                        old_entries[slot_of(old_entries, key)]) }) by {
                        let j = slot_of(ne, key);
                        lemma_slot(ne, j);
                        if key != k {
                            lemma_slot(old_entries, j);
                        }
                    }
                    assert(entries_map(ne) =~= entries_map(old_entries).insert(k, v));
                }
                self.entries = entries;
            },
        }
    }

    /// Return the exported recording of a session, if it is kept.
    pub fn get(&self, session_id: &str) -> (r: Option<&PreviewDataEntry>)
        ensures
            match r {
                Some(e) => self.view().contains_key(session_id@) && self.view()[session_id@] == entry_data(*e),
                None => !self.view().contains_key(session_id@),
            },
    {
        proof { use_type_invariant(self); }
        match self.find(session_id) {
            Some(i) => {
                proof { lemma_slot(self.entries@, i as int); }
                Some(&self.entries[i])
            },
            None => None,
        }
    }

    /// Forget the exported recording of a session.
    pub fn remove(&mut self, session_id: &str)
        ensures
            final(self).view() == old(self).view().remove(session_id@),
    {
        proof { use_type_invariant(&*self); }
        let ghost old_entries = self.entries@;
        let ghost k = session_id@;
        match self.find(session_id) {
            Some(pos) => {
                let mut entries: Vec<PreviewDataEntry> = Vec::new();
                std::mem::swap(&mut entries, &mut self.entries);
                assert(entries@ == old_entries);
                let _ = entries.remove(pos);
                let ghost ne = entries@;
                proof {
                    assert forall|j: int| 0 <= j < ne.len() implies #[trigger] ne[j] == (if j < pos {
                        old_entries[j] } else { old_entries[j + 1] }) by {}
                    assert forall|a: int, b: int|
                        0 <= a < ne.len() && 0 <= b < ne.len() && a != b implies #[trigger] ne[a].session_id@
                            != #[trigger] ne[b].session_id@ by {
                        let oa = if a < pos { a } else { a + 1 };
                        let ob = if b < pos { b } else { b + 1 };
                        assert(ne[a] == old_entries[oa] && ne[b] == old_entries[ob]);
                    }
                    assert forall|key: Seq<char>| holds_session(ne, key) <==> (holds_session(old_entries, key)
                        && key != k) by {
                        if holds_session(ne, key) {
                            let j = choose|j: int| 0 <= j < ne.len() && #[trigger] ne[j].session_id@ == key;
                            let oj = if j < pos { j } else { j + 1 };
                            assert(old_entries[oj].session_id@ == key);
                            assert(oj != pos);
                        }
                        if holds_session(old_entries, key) && key != k {
                            let j = choose|j: int| 0 <= j < old_entries.len() && #[trigger] old_entries[j].session_id@ == key;
                            assert(j != pos);
                            let nj = if j < pos { j } else { j - 1 };
                            assert(ne[nj].session_id@ == key);
                        }
                    }
                    assert forall|key: Seq<char>| #[trigger] holds_session(ne, key) implies entry_data(
                        ne[slot_of(ne, key)]) == entry_data(old_entries[slot_of(old_entries, key)]) by {
                        let j = slot_of(ne, key);
                        lemma_slot(ne, j);
                        let oj = if j < pos { j } else { j + 1 };
                        lemma_slot(old_entries, oj);
                    }
                    assert(entries_map(ne) =~= entries_map(old_entries).remove(k));
                }
                self.entries = entries;
            },
            None => {
                assert(entries_map(old_entries) =~= entries_map(old_entries).remove(k));
            },
        }
    }
}

/// Law: after `store` of `v` for session `k`, `get(k)` reads back `v` and
/// every other session reads as before; after a following `remove(k)`,
/// nothing is read for `k`.  The `requires` are what `store` and `remove`
/// ensure of the stores before and after them; `get` reads the view.
pub proof fn lemma_store_then_read(
    before: PreviewStore,
    after_store: PreviewStore,
    after_remove: PreviewStore,
    k: Seq<char>,
    v: PreviewData,
    other: Seq<char>,
)
    requires
        after_store.view() == before.view().insert(k, v),
        after_remove.view() == after_store.view().remove(k),
        other != k,
    ensures
        after_store.view().contains_key(k) && after_store.view()[k] == v,
        !after_remove.view().contains_key(k),
        after_store.view().contains_key(other) == before.view().contains_key(other),
        before.view().contains_key(other) ==> after_store.view()[other] == before.view()[other],
        after_remove.view().contains_key(other) == before.view().contains_key(other),
{
}


/// How the background answers a request.
#[derive(Debug, Clone, Copy, PartialEq, Eq, Structural)]
pub enum BackgroundReply {
    /// Answer with the stored preview of the requested session.
    Preview,
    /// Answer that no preview is stored for the requested session.
    NotFound,
    /// The request needs no answer.
    NoAnswer,
}

/// What handling a request did, for the caller to finish.
#[derive(Debug)]
pub struct BackgroundOutcome {
    pub reply: BackgroundReply,
    /// The recovery toast is to be taken down.
    pub clear_toast: bool,
    /// The session could not return to `Idle`.
    pub transition_error: Option<RecordingError>,
}

/// The effect of a request on the session: the requests that end a preview
/// or a recovery move it to `Idle` when that is allowed.
pub open spec fn idles_session(kind: Seq<char>) -> bool {
    kind == "DELETE_RECORDING"@ || kind == "PREVIEW_CLOSED"@ || kind == "RESTORE_RECORDING"@
        || kind == "DISMISS_RECOVERY"@
}

proof fn lemma_request_kinds_distinct()
    ensures
        "GET_PREVIEW_DATA"@ != "DELETE_RECORDING"@,
        "GET_PREVIEW_DATA"@ != "PREVIEW_CLOSED"@,
        "GET_PREVIEW_DATA"@ != "RESTORE_RECORDING"@,
        "GET_PREVIEW_DATA"@ != "DISMISS_RECOVERY"@,
        "DELETE_RECORDING"@ != "PREVIEW_CLOSED"@,
        "DELETE_RECORDING"@ != "RESTORE_RECORDING"@,
        "DELETE_RECORDING"@ != "DISMISS_RECOVERY"@,
        "PREVIEW_CLOSED"@ != "RESTORE_RECORDING"@,
        "PREVIEW_CLOSED"@ != "DISMISS_RECOVERY"@,
        "RESTORE_RECORDING"@ != "DISMISS_RECOVERY"@,
{
    reveal_strlit("GET_PREVIEW_DATA");
    reveal_strlit("DELETE_RECORDING");
    reveal_strlit("PREVIEW_CLOSED");
    reveal_strlit("RESTORE_RECORDING");
    reveal_strlit("DISMISS_RECOVERY");
    assert("GET_PREVIEW_DATA"@[0] != "DELETE_RECORDING"@[0]);
    assert("GET_PREVIEW_DATA"@[0] != "PREVIEW_CLOSED"@[0]);
    assert("GET_PREVIEW_DATA"@[0] != "RESTORE_RECORDING"@[0]);
    assert("GET_PREVIEW_DATA"@[0] != "DISMISS_RECOVERY"@[0]);
    assert("DELETE_RECORDING"@[0] != "PREVIEW_CLOSED"@[0]);
    assert("DELETE_RECORDING"@[0] != "RESTORE_RECORDING"@[0]);
    assert("DELETE_RECORDING"@[1] != "DISMISS_RECOVERY"@[1]);
    assert("PREVIEW_CLOSED"@[0] != "RESTORE_RECORDING"@[0]);
    assert("PREVIEW_CLOSED"@[0] != "DISMISS_RECOVERY"@[0]);
    assert("RESTORE_RECORDING"@[0] != "DISMISS_RECOVERY"@[0]);
}

/// Handle a request sent to the background by the preview page or the
/// recovery toast, identified by its `type` (`kind`) and, where it names
/// one, its session.
///
/// `GET_PREVIEW_DATA` answers whether a preview is stored for the session;
/// `DELETE_RECORDING` forgets the session's preview (when a non-empty
/// session is named) and returns the session to `Idle`; `PREVIEW_CLOSED`
/// returns it to `Idle`; `RESTORE_RECORDING` and `DISMISS_RECOVERY` take the
/// toast down and return it to `Idle`.  Other requests are ignored.
pub fn handle_background_request(
    kind: &str,
    session_id: Option<&str>,
    session: &mut RecordingSession,
    store: &mut PreviewStore,
) -> (out: BackgroundOutcome)
    ensures
        kind@ == "GET_PREVIEW_DATA"@ ==> *final(session) == *old(session) && final(store).view()
            == old(store).view() && !out.clear_toast && out.transition_error is None && match session_id {
            Some(id) => out.reply == (if old(store).view().contains_key(id@) {
                BackgroundReply::Preview
            } else {
                BackgroundReply::NotFound
            }),
            None => out.reply == BackgroundReply::NotFound,
        },
        kind@ == "DELETE_RECORDING"@ ==> final(store).view() == (match session_id {
            Some(id) => if id@.len() > 0 {
                old(store).view().remove(id@)
            } else {
                old(store).view()
            },
            None => old(store).view(),
        }),
        kind@ != "DELETE_RECORDING"@ ==> final(store).view() == old(store).view(),
        idles_session(kind@) ==> {
            &&& out.reply == BackgroundReply::NoAnswer
            &&& out.clear_toast == (kind@ == "RESTORE_RECORDING"@ || kind@ == "DISMISS_RECOVERY"@)
            &&& transition_allowed(old(session).spec_state(), SessionState::Idle) ==> out.transition_error is None
                && final(session).spec_state() == SessionState::Idle && final(session).same_but_state(old(session))
            &&& !transition_allowed(old(session).spec_state(), SessionState::Idle) ==> (out.transition_error
                matches Some(RecordingError::StateViolation { .. })) && *final(session) == *old(session)
        },
        kind@ != "GET_PREVIEW_DATA"@ && !idles_session(kind@) ==> *final(session) == *old(session)
            && out.reply == BackgroundReply::NoAnswer && !out.clear_toast && out.transition_error is None,
{
    proof { lemma_request_kinds_distinct(); }
    let k = String::from_str(kind);
    if k == String::from_str("GET_PREVIEW_DATA") {
        let reply = match session_id {
            Some(id) => match store.get(id) {
                Some(_) => BackgroundReply::Preview,
                None => BackgroundReply::NotFound,
            },
            None => BackgroundReply::NotFound,
        };
        return BackgroundOutcome { reply, clear_toast: false, transition_error: None };
    }
    let is_delete = k == String::from_str("DELETE_RECORDING");
    let is_closed = k == String::from_str("PREVIEW_CLOSED");
    let is_restore = k == String::from_str("RESTORE_RECORDING");
    let is_dismiss = k == String::from_str("DISMISS_RECOVERY");
    if !(is_delete || is_closed || is_restore || is_dismiss) {
        return BackgroundOutcome { reply: BackgroundReply::NoAnswer, clear_toast: false, transition_error: None };
    }
    if is_delete {
        match session_id {
            Some(id) => {
                if !id.is_empty() {
                    store.remove(id);
                }
            },
            None => {},
        }
    }
    let transition_error = match session.transition(SessionState::Idle) {
        Ok(()) => None,
        Err(e) => Some(e),
    };
    BackgroundOutcome { reply: BackgroundReply::NoAnswer, clear_toast: is_restore || is_dismiss, transition_error }
}

/// A session left behind by an interrupted recording.
#[derive(Debug, Clone)]
pub struct OrphanSession {
    pub session_id: String,
    /// Number of chunk files found for it.
    pub chunk_files: usize,
}

/// A recovery offered to the user.
#[derive(Debug, Clone)]
pub struct RecoveryProposal {
    pub session_id: String,
    pub chunk_count: u32,
}

/// Decide whether to offer the recovery of an orphaned session.  Nothing is
/// offered when no orphan was found, or when the session cannot enter
/// `CrashRecovery` (it can only from `Idle`: in particular not while a
/// recording is active).  Otherwise the session enters `CrashRecovery` and
/// the first orphan is offered, with its chunk count.
pub fn propose_recovery(session: &mut RecordingSession, orphans: &[OrphanSession]) -> (p: Option<RecoveryProposal>)
    ensures
        orphans@.len() == 0 || old(session).spec_state() != SessionState::Idle ==> p is None
            && *final(session) == *old(session),
        orphans@.len() > 0 && old(session).spec_state() == SessionState::Idle ==> (p matches Some(prop)
            && prop.session_id@ == orphans@[0].session_id@ && prop.chunk_count == orphans@[0].chunk_files as u32)
            && final(session).spec_state() == SessionState::CrashRecovery && final(session).same_but_state(old(session)),
{
    if orphans.len() == 0 {
        return None;
    }
    if session.state().is_active() {
        return None;
    }
    match session.transition(SessionState::CrashRecovery) {
        Ok(()) => {},
        Err(_) => return None,
    }
    let first = &orphans[0];
    Some(RecoveryProposal { session_id: first.session_id.clone(), chunk_count: first.chunk_files as u32 })
}

} // verus!
