//! The session supervisor: the decisions of the launch, listen and tear-down
//! cycle, as a state machine. The caller runs the processes; each step takes
//! what happened and says what to do next.
use vstd::prelude::*;

verus! {

use crate::keys::{decode, event_key_name, is_enter, key_name_of_line, swipe_text};
use crate::launch::{classify, launch_command, platform_of, Launch};
use crate::library::{lookup, normalized_selection, selection_key, LibraryIndex};
use crate::text::before;

#[derive(PartialEq, Eq, Structural, Clone, Copy, Debug)]
pub enum Phase {
    /// About to start the emulator of the current game.
    Launching,
    /// The reader runs; its lines are being collected.
    Listening,
    /// The reader and the emulator are being stopped.
    TearingDown,
}

/// What happened since the last step.
pub enum Event {
    /// The first iteration starts.
    Begin,
    /// The emulator asked for was started (`true`) or could not be (`false`).
    EmulatorStarted(bool),
    /// One line of the reader's output.
    Line(String),
    /// The reader's output ended.
    StreamEnded,
    /// The reader, and the emulator if asked, were stopped.
    TornDown,
}

/// What to do next.
pub enum Action {
    /// Start this emulator, then report `EmulatorStarted`.
    Spawn(Launch),
    /// Report that no game is stored under this key, then start the reader.
    NotFound(String),
    /// Report that this path belongs to no known platform, then start the reader.
    InvalidSystem(String),
    /// Start the reader and report its lines.
    Listen,
    /// Go on reading lines.
    Read,
    /// Stop the reader, and the emulator when the flag is set; then report `TornDown`.
    TearDown(bool),
    /// The event does not apply in the current phase; nothing changed.
    Ignore,
}

/// The state of a supervisor.
pub struct SessionView {
    pub phase: Phase,
    /// The key of the game to launch next.
    pub key: Seq<char>,
    /// An emulator started by this supervisor may still run.
    pub emulator_live: bool,
    /// An emulator was asked for and its outcome is not known yet.
    pub awaiting_spawn: bool,
    /// Key names collected from the reader since the last swipe ended.
    pub codes: Seq<Seq<char>>,
}

/// At most one emulator: none runs while a launch is decided or awaited.
pub open spec fn session_wf(s: SessionView) -> bool {
    &&& s.awaiting_spawn ==> s.phase == Phase::Launching && !s.emulator_live
    &&& s.phase == Phase::Launching ==> !s.emulator_live
}

/// The launch decision for the current key.
pub open spec fn launched(
    s: SessionView,
    games: Seq<(Seq<char>, Seq<char>)>,
    r: Action,
    t: SessionView,
) -> bool {
    match lookup(games, s.key) {
        None => r matches Action::NotFound(k) && k@ == s.key && t == SessionView {
            phase: Phase::Listening,
            ..s
        },
        Some(p) => match platform_of(p) {
            None => r matches Action::InvalidSystem(q) && q@ == p && t == SessionView {
                phase: Phase::Listening,
                ..s
            },
            Some(pl) => r matches Action::Spawn(l) && l.runs(pl, p) && t == SessionView {
                awaiting_spawn: true,
                ..s
            },
        },
    }
}

/// A swipe ended with these key names: the next key is the normalized
/// selection of its text, and the processes are torn down.
pub open spec fn finished(s: SessionView, codes: Seq<Seq<char>>, r: Action, t: SessionView) -> bool {
    &&& r matches Action::TearDown(kill) && kill == s.emulator_live
    &&& t == SessionView {
        phase: Phase::TearingDown,
        key: normalized_selection(before(decode(codes), "?"@)),
        codes: Seq::empty(),
        ..s
    }
}

pub open spec fn unchanged(s: SessionView, r: Action, t: SessionView) -> bool {
    r is Ignore && t == s
}

/// One step of the supervisor: from state `s` and event `e`, action `r` and state `t`.
pub open spec fn transition(
    s: SessionView,
    games: Seq<(Seq<char>, Seq<char>)>,
    e: Event,
    r: Action,
    t: SessionView,
) -> bool {
    match e {
        Event::Begin => if s.phase == Phase::Launching && !s.awaiting_spawn {
            launched(s, games, r, t)
        } else {
            unchanged(s, r, t)
        },
        Event::EmulatorStarted(ok) => if s.awaiting_spawn {
            r is Listen && t == SessionView {
                phase: Phase::Listening,
                emulator_live: ok,
                awaiting_spawn: false,
                ..s
            }
        } else {
            unchanged(s, r, t)
        },
        Event::Line(l) => if s.phase == Phase::Listening {
            match event_key_name(l@) {
                None => r is Read && t == s,
                Some(k) => if k == "ENTER"@ {
                    finished(s, s.codes.push(k), r, t)
                } else {
                    r is Read && t == SessionView { codes: s.codes.push(k), ..s }
                },
            }
        } else {
            unchanged(s, r, t)
        },
        Event::StreamEnded => if s.phase == Phase::Listening {
            finished(s, s.codes, r, t)
        } else {
            unchanged(s, r, t)
        },
        Event::TornDown => if s.phase == Phase::TearingDown {
            launched(
                SessionView { phase: Phase::Launching, emulator_live: false, ..s },
                games,
                r,
                t,
            )
        } else {
            unchanged(s, r, t)
        },
    }
}

/// No step ever lets two emulators run: an emulator is asked for only while
/// none runs (or on the report that the last one was stopped), one runs only
/// after it was reported started, and a tear-down stops the emulator exactly
/// when one may run. Every step keeps the state well formed.
pub proof fn lemma_single_emulator(
    s: SessionView,
    games: Seq<(Seq<char>, Seq<char>)>,
    e: Event,
    r: Action,
    t: SessionView,
)
    requires
        session_wf(s),
        transition(s, games, e, r, t),
    ensures
        session_wf(t),
        r is Spawn ==> !t.emulator_live && t.awaiting_spawn && (s.emulator_live ==> e is TornDown),
        t.emulator_live && !s.emulator_live ==> s.awaiting_spawn && (e matches Event::EmulatorStarted(
            ok,
        ) && ok),
        r matches Action::TearDown(kill) ==> kill == s.emulator_live && t.phase
            == Phase::TearingDown,
{
}

pub struct Supervisor {
    phase: Phase,
    key: String,
    emulator_live: bool,
    awaiting_spawn: bool,
    codes: Vec<String>,
}

impl View for Supervisor {
    type V = SessionView;

    closed spec fn view(&self) -> SessionView {
        SessionView {
            phase: self.phase,
            key: self.key@,
            emulator_live: self.emulator_live,
            awaiting_spawn: self.awaiting_spawn,
            codes: self.codes@.map_values(|c: String| c@),
        }
    }
}

impl Supervisor {
    /// A supervisor about to launch the game stored under `key`.
    pub fn new(key: String) -> (r: Supervisor)
        ensures
            session_wf(r@),
            r@.phase == Phase::Launching,
            r@.key == key@,
            !r@.emulator_live,
            !r@.awaiting_spawn,
            r@.codes == Seq::<Seq<char>>::empty(),
    {
        let r = Supervisor {
            phase: Phase::Launching,
            key,
            emulator_live: false,
            awaiting_spawn: false,
            codes: Vec::new(),
        };
        assert(r@.codes =~= Seq::<Seq<char>>::empty());
        r
    }

    /// The key of the game to launch next.
    pub fn current_key(&self) -> (r: &str)
        ensures
            r@ == self@.key,
    {
        self.key.as_str()
    }

    /// The current phase.
    pub fn phase(&self) -> (r: Phase)
        ensures
            r == self@.phase,
    {
        self.phase
    }

    /// Whether an emulator started by this supervisor may still run.
    pub fn emulator_live(&self) -> (r: bool)
        ensures
            r == self@.emulator_live,
    {
        self.emulator_live
    }

    fn launch(&mut self, games: &LibraryIndex) -> (r: Action)
        requires
            old(self).phase == Phase::Launching,
            !old(self).awaiting_spawn,
            !old(self).emulator_live,
        ensures
            launched(old(self)@, games@, r, final(self)@),
    {
        match games.get(self.key.as_str()) {
            None => {
                self.phase = Phase::Listening;
                Action::NotFound(self.key.clone())
            },
            Some(path) => match classify(path.as_str()) {
                None => {
                    self.phase = Phase::Listening;
                    Action::InvalidSystem(path)
                },
                Some(pl) => {
                    self.awaiting_spawn = true;
                    Action::Spawn(launch_command(pl, path.as_str()))
                },
            },
        }
    }

    fn finish(&mut self) -> (r: Action)
        requires
            old(self).phase == Phase::Listening,
        ensures
            finished(old(self)@, old(self)@.codes, r, final(self)@),
    {
        let mut codes: Vec<String> = Vec::new();
        std::mem::swap(&mut codes, &mut self.codes);
        let text = swipe_text(codes);
        self.key = selection_key(text.as_str());
        self.phase = Phase::TearingDown;
        assert(self@.codes =~= Seq::<Seq<char>>::empty());
        Action::TearDown(self.emulator_live)
    }

    /// Takes one event and says what to do next.
    pub fn step(&mut self, games: &LibraryIndex, event: Event) -> (r: Action)
        requires
            session_wf(old(self)@),
        ensures
            session_wf(final(self)@),
            transition(old(self)@, games@, event, r, final(self)@),
    {
        match event {
            Event::Begin => {
                if self.phase == Phase::Launching && !self.awaiting_spawn {
                    self.launch(games)
                } else {
                    Action::Ignore
                }
            },
            Event::EmulatorStarted(ok) => {
                if self.awaiting_spawn {
                    self.awaiting_spawn = false;
                    self.emulator_live = ok;
                    self.phase = Phase::Listening;
                    Action::Listen
                } else {
                    Action::Ignore
                }
            },
            Event::Line(l) => {
                if self.phase == Phase::Listening {
                    match key_name_of_line(l.as_str()) {
                        None => Action::Read,
                        Some(k) => {
                            let done = is_enter(k.as_str());
                            self.codes.push(k);
                            assert(self@.codes =~= old(self)@.codes.push(k@));
                            if done {
                                self.finish()
                            } else {
                                Action::Read
                            }
                        },
                    }
                } else {
                    Action::Ignore
                }
            },
            Event::StreamEnded => {
                if self.phase == Phase::Listening {
                    self.finish()
                } else {
                    Action::Ignore
                }
            },
            Event::TornDown => {
                if self.phase == Phase::TearingDown {
                    self.phase = Phase::Launching;
                    self.emulator_live = false;
                    self.launch(games)
                } else {
                    Action::Ignore
                }
            },
        }
    }
}

} // verus!
