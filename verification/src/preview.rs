//! The state of the preview page shown after a recording: integrity badge,
//! delete confirmation dialog, error state and keyboard handling.

use vstd::prelude::*;
use crate::error::RecordingError;
use crate::text::{decimal, zero_pad, push_padded_decimal};

verus! {

/// How complete the previewed recording is.
#[derive(Debug, Clone, Copy, PartialEq, Eq, Structural)]
pub enum IntegrityState {
    /// Every chunk was committed and exported.
    Clean,
    /// Some chunks were recovered; playback may end early.
    Partial,
    /// The recording could not be fully recovered.
    Incomplete,
}

/// The badge label of a state.
pub open spec fn integrity_label(s: IntegrityState) -> Seq<char> {
    match s {
        IntegrityState::Clean => "Clean"@,
        IntegrityState::Partial => "Partial"@,
        IntegrityState::Incomplete => "Incomplete"@,
    }
}

/// The state named by a label: `Partial` and `Incomplete` name themselves,
/// any other label means `Clean`.
pub open spec fn integrity_from_label(label: Seq<char>) -> IntegrityState {
    if label == "Partial"@ {
        IntegrityState::Partial
    } else if label == "Incomplete"@ {
        IntegrityState::Incomplete
    } else {
        IntegrityState::Clean
    }
}

impl IntegrityState {
    /// Return the badge label.
    pub fn as_label(&self) -> (l: &'static str)
        ensures
            l@ == integrity_label(*self),
    {
        match self {
            IntegrityState::Clean => "Clean",
            IntegrityState::Partial => "Partial",
            IntegrityState::Incomplete => "Incomplete",
        }
    }

    /// Return the CSS class of the badge.
    pub fn css_class(&self) -> (c: &'static str)
        ensures
            c@ == match *self {
                IntegrityState::Clean => "integrity-clean"@,
                IntegrityState::Partial => "integrity-partial"@,
                IntegrityState::Incomplete => "integrity-incomplete"@,
            },
    {
        match self {
            IntegrityState::Clean => "integrity-clean",
            IntegrityState::Partial => "integrity-partial",
            IntegrityState::Incomplete => "integrity-incomplete",
        }
    }

    /// Return the accessible label of the badge.
    pub fn aria_label(&self) -> (l: &'static str)
        ensures
            l@ == integrity_label(*self),
    {
        match self {
            IntegrityState::Clean => "Clean",
            IntegrityState::Partial => "Partial",
            IntegrityState::Incomplete => "Incomplete",
        }
    }

    /// Read a state from its label; unknown labels mean `Clean`.
    pub fn from_label(label: &str) -> (s: IntegrityState)
        ensures
            s == integrity_from_label(label@),
    {
        let l = String::from_str(label);
        if l == String::from_str("Partial") {
            IntegrityState::Partial
        } else if l == String::from_str("Incomplete") {
            IntegrityState::Incomplete
        } else {
            IntegrityState::Clean
        }
    }
}

/// Law: every state is read back from its own label.
pub proof fn lemma_integrity_label_roundtrip(s: IntegrityState)
    ensures
        integrity_from_label(integrity_label(s)) == s,
{
    reveal_strlit("Clean");
    reveal_strlit("Partial");
    reveal_strlit("Incomplete");
    assert("Clean"@.len() == 5 && "Partial"@.len() == 7 && "Incomplete"@.len() == 10);
}

/// What the Escape key did.
#[derive(Debug, Clone, Copy, PartialEq, Eq, Structural)]
pub enum EscapeOutcome {
    /// The delete dialog was open and is now closed.
    DialogClosed,
    /// No dialog was open: the preview page is to be closed.
    ClosePage,
}

/// The preview page's state.
#[derive(Debug)]
pub struct PreviewPage {
    session_id: Option<String>,
    /// The exported WebM bytes.
    pub webm_data: Option<Vec<u8>>,
    integrity: IntegrityState,
    detail_message: Option<String>,
    dialog_visible: bool,
    error_message: Option<String>,
    error_suggestion: Option<String>,
    rendered: bool,
    destroyed: bool,
}

/// The view of an optional string.
pub open spec fn opt_view(s: Option<String>) -> Option<Seq<char>> {
    match s {
        Some(v) => Some(v@),
        None => None,
    }
}

/// The download file name: `CaptureForge-<session id>.webm`, or, without a
/// session identifier, `Recording-<date>.webm`.
pub open spec fn download_name(session_id: Option<Seq<char>>, fallback_date: Seq<char>) -> Seq<char> {
    match session_id {
        Some(id) => "CaptureForge-"@ + id + ".webm"@,
        None => "Recording-"@ + fallback_date + ".webm"@,
    }
}

/// The `YYYY-MM-DD` text of a calendar date.
pub open spec fn date_text(year: nat, month: nat, day: nat) -> Seq<char> {
    zero_pad(decimal(year), 4) + "-"@ + zero_pad(decimal(month), 2) + "-"@ + zero_pad(decimal(day), 2)
}

/// The date used in a download name when no session identifier is set:
/// `month_index` counts from 0 (January), as the browser's clock gives it.
pub fn date_stamp(year: u32, month_index: u32, day: u32) -> (s: String)
    ensures
        s@ == date_text(year as nat, month_index as nat + 1, day as nat),
{
    let mut s = String::new();
    push_padded_decimal(&mut s, year as u64, 4);
    s.append("-");
    push_padded_decimal(&mut s, month_index as u64 + 1, 2);
    s.append("-");
    push_padded_decimal(&mut s, day as u64, 2);
    s
}

fn opt_str(s: &Option<String>) -> (r: Option<&str>)
    ensures
        match r {
            Some(v) => opt_view(*s) == Some(v@),
            None => s is None,
        },
{
    match s {
        Some(v) => Some(v.as_str()),
        None => None,
    }
}

impl PreviewPage {
    /// The session identifier.
    pub closed spec fn spec_session_id(&self) -> Option<Seq<char>> {
        opt_view(self.session_id)
    }

    /// The exported bytes, if set.
    pub closed spec fn spec_webm_data(&self) -> Option<Seq<u8>> {
        match self.webm_data {
            Some(d) => Some(d@),
            None => None,
        }
    }

    /// The integrity state.
    pub closed spec fn spec_integrity(&self) -> IntegrityState {
        self.integrity
    }

    /// The badge detail message.
    pub closed spec fn spec_detail_message(&self) -> Option<Seq<char>> {
        opt_view(self.detail_message)
    }

    /// Whether the delete dialog is open.
    pub closed spec fn spec_dialog_visible(&self) -> bool {
        self.dialog_visible
    }

    /// The error message shown in place of the player.
    pub closed spec fn spec_error_message(&self) -> Option<Seq<char>> {
        opt_view(self.error_message)
    }

    /// The suggestion shown with the error.
    pub closed spec fn spec_error_suggestion(&self) -> Option<Seq<char>> {
        opt_view(self.error_suggestion)
    }

    /// Whether the page is rendered.
    pub closed spec fn spec_rendered(&self) -> bool {
        self.rendered
    }

    /// Whether the page was destroyed (it is then never rendered again).
    pub closed spec fn spec_destroyed(&self) -> bool {
        self.destroyed
    }

    /// Everything but the dialog's visibility is as in `other`.
    pub open spec fn same_but_dialog(&self, other: &PreviewPage) -> bool {
        &&& self.spec_session_id() == other.spec_session_id()
        &&& self.spec_webm_data() == other.spec_webm_data()
        &&& self.spec_integrity() == other.spec_integrity()
        &&& self.spec_detail_message() == other.spec_detail_message()
        &&& self.spec_error_message() == other.spec_error_message()
        &&& self.spec_error_suggestion() == other.spec_error_suggestion()
        &&& self.spec_rendered() == other.spec_rendered()
        &&& self.spec_destroyed() == other.spec_destroyed()
    }

    /// A new, unrendered page: `Clean`, no data, no dialog, no error.
    pub open spec fn is_fresh(&self) -> bool {
        &&& self.spec_session_id() is None
        &&& self.spec_webm_data() is None
        &&& self.spec_integrity() == IntegrityState::Clean
        &&& self.spec_detail_message() is None
        &&& !self.spec_dialog_visible()
        &&& self.spec_error_message() is None
        &&& self.spec_error_suggestion() is None
        &&& !self.spec_rendered()
        &&& !self.spec_destroyed()
    }

    /// Create a new, unrendered page.
    pub fn new() -> (p: Self)
        ensures
            p.is_fresh(),
    {
        PreviewPage {
            session_id: None,
            webm_data: None,
            integrity: IntegrityState::Clean,
            detail_message: None,
            dialog_visible: false,
            error_message: None,
            error_suggestion: None,
            rendered: false,
            destroyed: false,
        }
    }

    /// Return the integrity state.
    pub fn integrity_state(&self) -> (s: &IntegrityState)
        ensures
            *s == self.spec_integrity(),
    {
        &self.integrity
    }

    /// Return the badge label.
    pub fn integrity_text(&self) -> (t: &'static str)
        ensures
            t@ == integrity_label(self.spec_integrity()),
    {
        self.integrity.as_label()
    }

    /// Set the integrity state.
    pub fn set_integrity(&mut self, state: IntegrityState)
        ensures
            final(self).spec_integrity() == state,
            final(self).spec_session_id() == old(self).spec_session_id(),
            final(self).spec_webm_data() == old(self).spec_webm_data(),
            final(self).spec_detail_message() == old(self).spec_detail_message(),
            final(self).spec_dialog_visible() == old(self).spec_dialog_visible(),
            final(self).spec_error_message() == old(self).spec_error_message(),
            final(self).spec_error_suggestion() == old(self).spec_error_suggestion(),
            final(self).spec_rendered() == old(self).spec_rendered(),
            final(self).spec_destroyed() == old(self).spec_destroyed(),
    {
        self.integrity = state;
    }

    /// Return the badge detail message, if any.
    pub fn detail_message(&self) -> (m: Option<&str>)
        ensures
            match m {
                Some(v) => self.spec_detail_message() == Some(v@),
                None => self.spec_detail_message() is None,
            },
    {
        opt_str(&self.detail_message)
    }

    /// Set or clear the badge detail message.
    pub fn set_detail_message(&mut self, msg: Option<String>)
        ensures
            final(self).spec_detail_message() == opt_view(msg),
            final(self).spec_session_id() == old(self).spec_session_id(),
            final(self).spec_webm_data() == old(self).spec_webm_data(),
            final(self).spec_integrity() == old(self).spec_integrity(),
            final(self).spec_dialog_visible() == old(self).spec_dialog_visible(),
            final(self).spec_error_message() == old(self).spec_error_message(),
            final(self).spec_error_suggestion() == old(self).spec_error_suggestion(),
            final(self).spec_rendered() == old(self).spec_rendered(),
            final(self).spec_destroyed() == old(self).spec_destroyed(),
    {
        self.detail_message = msg;
    }

    /// Return whether the delete dialog is open.
    pub fn is_dialog_visible(&self) -> (b: bool)
        ensures
            b == self.spec_dialog_visible(),
    {
        self.dialog_visible
    }

    /// Return the session identifier, if set.
    pub fn session_id(&self) -> (s: Option<&str>)
        ensures
            match s {
                Some(v) => self.spec_session_id() == Some(v@),
                None => self.spec_session_id() is None,
            },
    {
        opt_str(&self.session_id)
    }

    /// Set the session identifier.
    pub fn set_session_id(&mut self, id: String)
        ensures
            final(self).spec_session_id() == Some(id@),
            final(self).spec_webm_data() == old(self).spec_webm_data(),
            final(self).spec_integrity() == old(self).spec_integrity(),
            final(self).spec_detail_message() == old(self).spec_detail_message(),
            final(self).spec_dialog_visible() == old(self).spec_dialog_visible(),
            final(self).spec_error_message() == old(self).spec_error_message(),
            final(self).spec_error_suggestion() == old(self).spec_error_suggestion(),
            final(self).spec_rendered() == old(self).spec_rendered(),
            final(self).spec_destroyed() == old(self).spec_destroyed(),
    {
        self.session_id = Some(id);
    }

    /// Set the exported WebM bytes.
    pub fn set_webm_data(&mut self, data: Vec<u8>)
        ensures
            final(self).spec_webm_data() == Some(data@),
            final(self).spec_session_id() == old(self).spec_session_id(),
            final(self).spec_integrity() == old(self).spec_integrity(),
            final(self).spec_detail_message() == old(self).spec_detail_message(),
            final(self).spec_dialog_visible() == old(self).spec_dialog_visible(),
            final(self).spec_error_message() == old(self).spec_error_message(),
            final(self).spec_error_suggestion() == old(self).spec_error_suggestion(),
            final(self).spec_rendered() == old(self).spec_rendered(),
            final(self).spec_destroyed() == old(self).spec_destroyed(),
    {
        self.webm_data = Some(data);
    }

    /// Return the error message, if any.
    pub fn error_message(&self) -> (m: Option<&str>)
        ensures
            match m {
                Some(v) => self.spec_error_message() == Some(v@),
                None => self.spec_error_message() is None,
            },
    {
        opt_str(&self.error_message)
    }

    /// Return the error suggestion, if any.
    pub fn error_suggestion(&self) -> (m: Option<&str>)
        ensures
            match m {
                Some(v) => self.spec_error_suggestion() == Some(v@),
                None => self.spec_error_suggestion() is None,
            },
    {
        opt_str(&self.error_suggestion)
    }

    /// Return whether the page is rendered.
    pub fn is_rendered(&self) -> (b: bool)
        ensures
            b == self.spec_rendered(),
    {
        self.rendered
    }

    /// The file name offered for download; `fallback_date` (such as
    /// `2026-06-20`) is used when no session identifier is set.
    pub fn download_filename(&self, fallback_date: &str) -> (n: String)
        ensures
            n@ == download_name(self.spec_session_id(), fallback_date@),
    {
        match &self.session_id {
            Some(id) => {
                let mut n = String::from_str("CaptureForge-");
                n.append(id.as_str());
                n.append(".webm");
                n
            },
            None => {
                let mut n = String::from_str("Recording-");
                n.append(fallback_date);
                n.append(".webm");
                n
            },
        }
    }

    /// Open the delete confirmation dialog.
    pub fn show_delete_dialog(&mut self)
        ensures
            final(self).spec_dialog_visible(),
            final(self).same_but_dialog(old(self)),
    {
        self.dialog_visible = true;
    }

    /// Close the delete confirmation dialog without deleting.
    pub fn hide_delete_dialog(&mut self)
        ensures
            !final(self).spec_dialog_visible(),
            final(self).same_but_dialog(old(self)),
    {
        self.dialog_visible = false;
    }

    /// The user confirmed the deletion: close the dialog and return the
    /// session identifier to hand to the delete handler (none when no
    /// identifier is set).
    pub fn confirm_delete(&mut self) -> (id: Option<String>)
        ensures
            !final(self).spec_dialog_visible(),
            final(self).same_but_dialog(old(self)),
            opt_view(id) == old(self).spec_session_id(),
    {
        self.dialog_visible = false;
        self.session_id.clone()
    }

    /// Show the error state in place of the player.
    pub fn show_error(&mut self, message: &str, suggestion: &str)
        ensures
            final(self).spec_error_message() == Some(message@),
            final(self).spec_error_suggestion() == Some(suggestion@),
            final(self).spec_session_id() == old(self).spec_session_id(),
            final(self).spec_webm_data() == old(self).spec_webm_data(),
            final(self).spec_integrity() == old(self).spec_integrity(),
            final(self).spec_detail_message() == old(self).spec_detail_message(),
            final(self).spec_dialog_visible() == old(self).spec_dialog_visible(),
            final(self).spec_rendered() == old(self).spec_rendered(),
            final(self).spec_destroyed() == old(self).spec_destroyed(),
    {
        self.error_message = Some(String::from_str(message));
        self.error_suggestion = Some(String::from_str(suggestion));
    }

    /// Hide the error state and show the player again.
    pub fn hide_error(&mut self)
        ensures
            final(self).spec_error_message() is None,
            final(self).spec_error_suggestion() is None,
            final(self).spec_session_id() == old(self).spec_session_id(),
            final(self).spec_webm_data() == old(self).spec_webm_data(),
            final(self).spec_integrity() == old(self).spec_integrity(),
            final(self).spec_detail_message() == old(self).spec_detail_message(),
            final(self).spec_dialog_visible() == old(self).spec_dialog_visible(),
            final(self).spec_rendered() == old(self).spec_rendered(),
            final(self).spec_destroyed() == old(self).spec_destroyed(),
    {
        self.error_message = None;
        self.error_suggestion = None;
    }

    /// The Escape key: closes the dialog when it is open, otherwise asks for
    /// the page to be closed.
    pub fn handle_escape(&mut self) -> (o: EscapeOutcome)
        ensures
            old(self).spec_dialog_visible() ==> o == EscapeOutcome::DialogClosed
                && !final(self).spec_dialog_visible() && final(self).same_but_dialog(old(self)),
            !old(self).spec_dialog_visible() ==> o == EscapeOutcome::ClosePage && *final(self)
                == *old(self),
    {
        if self.dialog_visible {
            self.hide_delete_dialog();
            EscapeOutcome::DialogClosed
        } else {
            EscapeOutcome::ClosePage
        }
    }

    /// The Space key: play and pause are left to the browser's own video
    /// controls, so the page state does not change.
    pub fn handle_space(&mut self)
        ensures
            *final(self) == *old(self),
    {
    }

    /// Whether the page still has to be rendered: it is neither rendered
    /// nor destroyed.
    pub fn needs_render(&self) -> (b: bool)
        ensures
            b <==> !self.spec_rendered() && !self.spec_destroyed(),
    {
        !self.rendered && !self.destroyed
    }

    /// Mark the page rendered; a destroyed page stays unrendered, and a
    /// second call changes nothing.
    pub fn render(&mut self) -> (r: Result<(), RecordingError>)
        ensures
            r is Ok,
            final(self).spec_rendered() == (old(self).spec_rendered() || !old(self).spec_destroyed()),
            final(self).spec_destroyed() == old(self).spec_destroyed(),
            final(self).spec_session_id() == old(self).spec_session_id(),
            final(self).spec_webm_data() == old(self).spec_webm_data(),
            final(self).spec_integrity() == old(self).spec_integrity(),
            final(self).spec_detail_message() == old(self).spec_detail_message(),
            final(self).spec_dialog_visible() == old(self).spec_dialog_visible(),
            final(self).spec_error_message() == old(self).spec_error_message(),
            final(self).spec_error_suggestion() == old(self).spec_error_suggestion(),
    {
        if !self.destroyed {
            self.rendered = true;
        }
        Ok(())
    }

    /// Take the page down for good: it is unrendered and destroyed; a
    /// second call changes nothing.
    pub fn destroy(&mut self)
        ensures
            !final(self).spec_rendered(),
            final(self).spec_destroyed(),
            final(self).spec_session_id() == old(self).spec_session_id(),
            final(self).spec_webm_data() == old(self).spec_webm_data(),
            final(self).spec_integrity() == old(self).spec_integrity(),
            final(self).spec_detail_message() == old(self).spec_detail_message(),
            final(self).spec_dialog_visible() == old(self).spec_dialog_visible(),
            final(self).spec_error_message() == old(self).spec_error_message(),
            final(self).spec_error_suggestion() == old(self).spec_error_suggestion(),
    {
        self.destroyed = true;
        self.rendered = false;
    }
}

impl Default for PreviewPage {
    fn default() -> (p: Self)
        ensures
            p.is_fresh(),
    {
        Self::new()
    }
}

/// The page state that the preview entry point starts from: the session,
/// its data, the integrity read from `integrity` and the detail message when
/// it is given and not empty.
pub fn init_preview_page(session_id: &str, webm_data: &[u8], integrity: &str, detail: Option<String>) -> (p: PreviewPage)
    ensures
        p.spec_session_id() == Some(session_id@),
        p.spec_webm_data() == Some(webm_data@),
        p.spec_integrity() == integrity_from_label(integrity@),
        match detail {
            Some(m) => m@.len() > 0 ==> p.spec_detail_message() == Some(m@),
            None => true,
        },
        (detail is None || detail->0@.len() == 0) ==> p.spec_detail_message() is None,
        !p.spec_dialog_visible(),
        p.spec_error_message() is None,
        !p.spec_rendered(),
        !p.spec_destroyed(),
{
    let mut page = PreviewPage::new();
    page.set_session_id(String::from_str(session_id));
    let mut data: Vec<u8> = Vec::new();
    let mut i: usize = 0;
    while i < webm_data.len()
        invariant
            i <= webm_data@.len(),
            data@ == webm_data@.subrange(0, i as int),
        decreases webm_data@.len() - i,
    {
        data.push(webm_data[i]);
        i = i + 1;
        assert(data@ =~= webm_data@.subrange(0, i as int));
    }
    assert(data@ =~= webm_data@);
    page.set_webm_data(data);
    page.set_integrity(IntegrityState::from_label(integrity));
    match detail {
        Some(msg) => {
            if msg.as_str().unicode_len() > 0 {
                page.set_detail_message(Some(msg));
            }
        },
        None => {},
    }
    page
}

} // verus!
