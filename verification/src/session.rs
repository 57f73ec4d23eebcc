//! The playback session controller: the state machine that owns the chosen
//! library root, the scanned file list, the single playback session and the
//! displayed track metadata.
//!
//! The interactive surface delivers user intents and the results of
//! asynchronous work as discrete calls on [`SessionController`], one at a
//! time; each call moves the controller to its next state. The caller owns
//! the real output device and sink and keeps them in step with the
//! controller: it must tear the old sink down before attempting a new
//! pipeline, and reports the attempt's outcome through [`SessionController::play_audio`].

use vstd::prelude::*;

use crate::metadata::{normalized_metadata, TrackMetadata};

verus! {

/// Whether the active sink is currently audible or suspended.
#[derive(Clone, Copy, Debug, PartialEq, Eq, Structural)]
pub enum PlayMode {
    Playing,
    Paused,
}

/// The single active playback context: the file being played and whether it
/// is paused. At most one exists at a time; the real device handle and sink
/// that back it live with the caller and share its lifetime.
#[derive(Debug, Clone)]
pub struct PlaybackSession {
    pub path: String,
    pub mode: PlayMode,
}

/// The named states of the controller, derived from its fields.
#[derive(Clone, Copy, Debug, PartialEq, Eq, Structural)]
pub enum Phase {
    Idle,
    Scanning,
    Browsing,
    Playing,
    Paused,
}

/// The whole session state: chosen folder, scan progress and results,
/// current playback session and the metadata shown for it.
#[derive(Debug)]
pub struct SessionController {
    pub selected_folder: Option<String>,
    pub scanning: bool,
    pub audio_files: Vec<String>,
    pub scan_status: String,
    pub session: Option<PlaybackSession>,
    pub metadata: Option<TrackMetadata>,
}

/// The digit character of a value below ten.
pub open spec fn digit_char(d: nat) -> char {
    if d == 0 {
        '0'
    } else if d == 1 {
        '1'
    } else if d == 2 {
        '2'
    } else if d == 3 {
        '3'
    } else if d == 4 {
        '4'
    } else if d == 5 {
        '5'
    } else if d == 6 {
        '6'
    } else if d == 7 {
        '7'
    } else if d == 8 {
        '8'
    } else {
        '9'
    }
}

/// The usual decimal rendering of a number, without leading zeros.
pub open spec fn decimal_digits(n: nat) -> Seq<char>
    decreases n,
{
    if n < 10 {
        seq![digit_char(n)]
    } else {
        decimal_digits(n / 10) + seq![digit_char(n % 10)]
    }
}

/// The scan summary line shown once a scan has completed.
pub open spec fn found_message(n: nat) -> Seq<char> {
    "Found "@ + decimal_digits(n) + " audio files"@
}

fn digit_str(d: usize) -> (s: &'static str)
    requires
        d < 10,
    ensures
        s@ == seq![digit_char(d as nat)],
{
    if d == 0 {
        proof {
            reveal_strlit("0");
            assert("0"@ =~= seq![digit_char(0)]);
        }
        "0"
    } else if d == 1 {
        proof {
            reveal_strlit("1");
            assert("1"@ =~= seq![digit_char(1)]);
        }
        "1"
    } else if d == 2 {
        proof {
            reveal_strlit("2");
            assert("2"@ =~= seq![digit_char(2)]);
        }
        "2"
    } else if d == 3 {
        proof {
            reveal_strlit("3");
            assert("3"@ =~= seq![digit_char(3)]);
        }
        "3"
    } else if d == 4 {
        proof {
            reveal_strlit("4");
            assert("4"@ =~= seq![digit_char(4)]);
        }
        "4"
    } else if d == 5 {
        proof {
            reveal_strlit("5");
            assert("5"@ =~= seq![digit_char(5)]);
        }
        "5"
    } else if d == 6 {
        proof {
            reveal_strlit("6");
            assert("6"@ =~= seq![digit_char(6)]);
        }
        "6"
    } else if d == 7 {
        proof {
            reveal_strlit("7");
            assert("7"@ =~= seq![digit_char(7)]);
        }
        "7"
    } else if d == 8 {
        proof {
            reveal_strlit("8");
            assert("8"@ =~= seq![digit_char(8)]);
        }
        "8"
    } else {
        proof {
            reveal_strlit("9");
            assert("9"@ =~= seq![digit_char(9)]);
        }
        "9"
    }
}

fn usize_to_decimal(n: usize) -> (s: String)
    ensures
        s@ == decimal_digits(n as nat),
    decreases n,
{
    if n < 10 {
        digit_str(n).to_owned()
    } else {
        assert(n / 10 < n) by (nonlinear_arith)
            requires
                n >= 10,
        ;
        let mut s = usize_to_decimal(n / 10);
        s.append(digit_str(n % 10));
        s
    }
}

fn found_message_exec(n: usize) -> (s: String)
    ensures
        s@ == found_message(n as nat),
{
    let mut s = String::from_str("Found ");
    let digits = usize_to_decimal(n);
    s.append(digits.as_str());
    s.append(" audio files");
    s
}

/// Pausing suspends an active session and is a no-op without one.
pub open spec fn spec_pause(s: SessionController) -> SessionController {
    match s.session {
        Some(p) => SessionController {
            session: Some(PlaybackSession { path: p.path, mode: PlayMode::Paused }),
            ..s
        },
        None => s,
    }
}

/// Resuming continues an active session and is a no-op without one.
pub open spec fn spec_resume(s: SessionController) -> SessionController {
    match s.session {
        Some(p) => SessionController {
            session: Some(PlaybackSession { path: p.path, mode: PlayMode::Playing }),
            ..s
        },
        None => s,
    }
}

/// Stopping clears the playback session and the metadata together.
pub open spec fn spec_stop(s: SessionController) -> SessionController {
    SessionController { session: None, metadata: None, ..s }
}

/// Starting a track replaces any previous session: on a successful pipeline
/// the new file plays, on a failed one nothing is active. Either way the
/// previous track's metadata is cleared until a new extraction arrives.
pub open spec fn spec_play_audio(s: SessionController, path: String, pipeline_ok: bool) -> SessionController {
    SessionController {
        session: if pipeline_ok {
            Some(PlaybackSession { path: path, mode: PlayMode::Playing })
        } else {
            None
        },
        metadata: None,
        ..s
    }
}

/// An extraction result is applied only when it is still relevant: it must
/// name the file of the current session, else it is discarded. A partial
/// result is normalized to a fully absent one.
pub open spec fn spec_apply_metadata(
    s: SessionController,
    path: Seq<char>,
    title: Option<String>,
    artist: Option<String>,
    artwork: Option<Vec<u8>>,
) -> SessionController {
    match s.session {
        Some(p) => if p.path@ == path {
            SessionController { metadata: normalized_metadata(title, artist, artwork), ..s }
        } else {
            s
        },
        None => s,
    }
}

impl SessionController {
    /// The state the controller is in, for rendering: an active session is
    /// `Playing` or `Paused`; otherwise a scan in flight is `Scanning`, a
    /// chosen folder is `Browsing`, and nothing at all is `Idle`.
    pub open spec fn phase(self) -> Phase {
        match self.session {
            Some(p) => if p.mode is Playing {
                Phase::Playing
            } else {
                Phase::Paused
            },
            None => {
                if self.scanning {
                    Phase::Scanning
                } else if self.selected_folder is Some {
                    Phase::Browsing
                } else {
                    Phase::Idle
                }
            },
        }
    }

    /// The controller's invariant: metadata is only ever present for an
    /// active session, and while a scan is in flight a folder is chosen and
    /// the stale file list has already been cleared.
    pub open spec fn wf(self) -> bool {
        &&& self.session is None ==> self.metadata is None
        &&& self.scanning ==> self.selected_folder is Some && self.audio_files@.len() == 0
    }

    /// The initial state: nothing chosen, nothing scanned, nothing playing.
    pub fn new() -> (s: SessionController)
        ensures
            s.wf(),
            s.phase() == Phase::Idle,
            s.selected_folder is None,
            !s.scanning,
            s.audio_files@.len() == 0,
            s.scan_status@ == Seq::<char>::empty(),
            s.session is None,
            s.metadata is None,
    {
        SessionController {
            selected_folder: None,
            scanning: false,
            audio_files: Vec::new(),
            scan_status: String::new(),
            session: None,
            metadata: None,
        }
    }

    /// The user chose a folder, or dismissed the dialog. A chosen folder
    /// replaces the previous root, clears the stale file list at once and
    /// asks the caller to start an asynchronous scan (the return value); a
    /// dismissed dialog changes nothing. Playback is not affected.
    pub fn select_folder(&mut self, choice: Option<String>) -> (scan_needed: bool)
        requires
            old(self).wf(),
        ensures
            final(self).wf(),
            scan_needed == (choice is Some),
            choice matches Some(path) ==> {
                &&& final(self).selected_folder == Some(path)
                &&& final(self).scanning
                &&& final(self).audio_files@.len() == 0
                &&& final(self).scan_status@ == "Scanning..."@
                &&& final(self).session == old(self).session
                &&& final(self).metadata == old(self).metadata
            },
            choice is None ==> *final(self) == *old(self),
    {
        match choice {
            Some(path) => {
                self.selected_folder = Some(path);
                self.audio_files = Vec::new();
                self.scan_status = String::from_str("Scanning...");
                self.scanning = true;
                true
            },
            None => false,
        }
    }

    /// A finished scan delivers its whole result at once: the file list and
    /// the human-readable count summary are set together, and the scan is no
    /// longer in flight. Playback is not affected.
    pub fn scan_complete(&mut self, files: Vec<String>)
        requires
            old(self).wf(),
        ensures
            final(self).wf(),
            final(self).audio_files == files,
            !final(self).scanning,
            final(self).scan_status@ == found_message(files@.len() as nat),
            final(self).selected_folder == old(self).selected_folder,
            final(self).session == old(self).session,
            final(self).metadata == old(self).metadata,
    {
        self.scan_status = found_message_exec(files.len());
        self.audio_files = files;
        self.scanning = false;
    }

    /// The user selected a track and the caller attempted the audio output
    /// pipeline for it, after tearing down any previous session's sink and
    /// device; `pipeline_ok` reports the attempt. The previous session is
    /// gone either way, the previous metadata is cleared, and on success the
    /// new track is playing.
    pub fn play_audio(&mut self, path: String, pipeline_ok: bool)
        requires
            old(self).wf(),
        ensures
            final(self).wf(),
            *final(self) == spec_play_audio(*old(self), path, pipeline_ok),
            final(self).phase() == if pipeline_ok {
                Phase::Playing
            } else {
                spec_stop(*old(self)).phase()
            },
    {
        self.metadata = None;
        if pipeline_ok {
            self.session = Some(PlaybackSession { path: path, mode: PlayMode::Playing });
        } else {
            self.session = None;
        }
    }

    /// A pause intent: suspends the active session, or does nothing.
    pub fn pause(&mut self)
        requires
            old(self).wf(),
        ensures
            final(self).wf(),
            *final(self) == spec_pause(*old(self)),
    {
        match self.session.take() {
            Some(p) => {
                self.session = Some(PlaybackSession { path: p.path, mode: PlayMode::Paused });
            },
            None => {},
        }
    }

    /// A resume intent: continues the active session, or does nothing.
    pub fn resume(&mut self)
        requires
            old(self).wf(),
        ensures
            final(self).wf(),
            *final(self) == spec_resume(*old(self)),
    {
        match self.session.take() {
            Some(p) => {
                self.session = Some(PlaybackSession { path: p.path, mode: PlayMode::Playing });
            },
            None => {},
        }
    }

    /// A stop intent: the session and the displayed metadata are cleared
    /// together. The caller releases the sink and device alongside.
    pub fn stop(&mut self)
        requires
            old(self).wf(),
        ensures
            final(self).wf(),
            *final(self) == spec_stop(*old(self)),
    {
        self.session = None;
        self.metadata = None;
    }

    /// An asynchronous extraction result arrived for the file at `path`. It
    /// is applied only when that file is still the active session's; a stale
    /// result for a stopped or replaced track is discarded unchanged.
    pub fn apply_metadata(
        &mut self,
        path: &String,
        title: Option<String>,
        artist: Option<String>,
        artwork: Option<Vec<u8>>,
    )
        requires
            old(self).wf(),
        ensures
            final(self).wf(),
            *final(self) == spec_apply_metadata(*old(self), path@, title, artist, artwork),
    {
        let relevant = match &self.session {
            Some(p) => p.path == *path,
            None => false,
        };
        if relevant {
            self.metadata = crate::metadata::normalize_metadata(title, artist, artwork);
        }
    }
}

/// Law: starting playback of one track and then immediately of another
/// leaves exactly one active session, the second track's, playing; the first
/// track's session is gone. (The caller releases the first sink and device
/// before the second pipeline is built; the controller never records both.)
pub proof fn lemma_single_session_after_replacement(s: SessionController, a: String, b: String)
    requires
        s.wf(),
    ensures
        spec_play_audio(spec_play_audio(s, a, true), b, true).session == Some(
            PlaybackSession { path: b, mode: PlayMode::Playing },
        ),
        spec_play_audio(spec_play_audio(s, a, true), b, true).phase() == Phase::Playing,
{
}

/// Law: pause followed by resume returns an actively playing session to
/// exactly the state it had before the pause — the same file, nothing
/// restarted or lost — and pause or resume without a session changes
/// nothing at all.
pub proof fn lemma_pause_resume_round_trip(s: SessionController)
    requires
        s.wf(),
    ensures
        s.session matches Some(p) && p.mode is Playing ==> spec_resume(spec_pause(s)) == s,
        s.session is None ==> spec_pause(s) == s && spec_resume(s) == s,
{
    match s.session {
        Some(p) => {
            if p.mode is Playing {
                assert(p == PlaybackSession { path: p.path, mode: PlayMode::Playing });
            }
        },
        None => {},
    }
}

/// Law: a stop clears the playback session and the displayed metadata
/// together, whatever the state was, and keeps the controller well-formed.
pub proof fn lemma_stop_clears_playback_and_metadata(s: SessionController)
    requires
        s.wf(),
    ensures
        spec_stop(s).session is None,
        spec_stop(s).metadata is None,
        spec_stop(s).wf(),
{
}

/// Law: in every well-formed state, metadata is absent whenever no track is
/// active — metadata is never displayed without a playing or paused session.
pub proof fn lemma_no_session_no_metadata(s: SessionController)
    requires
        s.wf(),
        s.session is None,
    ensures
        s.metadata is None,
{
}

impl SessionController {
    /// The named state the controller is in, for rendering.
    pub fn current_phase(&self) -> (p: Phase)
        ensures
            p == self.phase(),
    {
        match &self.session {
            Some(ps) => match ps.mode {
                PlayMode::Playing => Phase::Playing,
                PlayMode::Paused => Phase::Paused,
            },
            None => {
                if self.scanning {
                    Phase::Scanning
                } else if self.selected_folder.is_some() {
                    Phase::Browsing
                } else {
                    Phase::Idle
                }
            },
        }
    }
}

} // verus!
