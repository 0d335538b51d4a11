//! The pseudo-terminal execution session as a state machine.
//!
//! Allocating the terminal pair, switching the controlling terminal to raw
//! mode, spawning the child, and moving bytes are outside work; what is
//! verified here is the session's control law: which action follows which
//! outcome, that restoration of the terminal mode is reached on every exit
//! path, that a restoration failure never masks an earlier fault, and that
//! the child's output is streamed verbatim, byte for byte, in order.
//!
//! The surroundings drive the machine: perform the returned action, report
//! its outcome as the next event. The child's exit status is not surfaced.

use vstd::prelude::*;
use super::ShellError;

verus! {

/// The strictly sequential phases of one external-command session.
#[derive(Clone, Copy, Debug, PartialEq, Eq, Structural)]
pub enum PtyPhase {
    EnterRaw,
    AllocatePty,
    Spawn,
    ReleaseSubordinate,
    StreamOutput,
    WriteOutput,
    Wait,
    RestoreMode,
    Done,
}

/// An outcome the surroundings report, at the specification level: a read
/// chunk is a byte sequence, and a zero-length read is end-of-stream.
pub enum PtyEv {
    RawEntered,
    RawFailed,
    PtyOpened,
    PtyOpenFailed,
    ChildSpawned,
    SpawnFailed,
    SubordinateReleased,
    BytesRead(Seq<u8>),
    ReadFailed,
    ChunkWritten,
    ChildExited,
    WaitFailed,
    ModeRestored,
    RestoreFailed,
}

/// The next piece of outside work, at the specification level.
pub enum PtyAct {
    EnterRawMode,
    OpenPty,
    SpawnChild,
    CloseSubordinate,
    ReadChunk,
    WriteChunk(Seq<u8>),
    WaitChild,
    RestoreTermMode,
    Finish,
}

/// The session's mathematical state: the phase, whether raw mode was ever
/// entered, whether restoration was attempted, the first fault, and every
/// byte handed to the terminal so far.
pub struct PtyModel {
    pub phase: PtyPhase,
    pub raw_entered: bool,
    pub restore_attempted: bool,
    pub fault: Option<ShellError>,
    pub streamed: Seq<u8>,
}

/// A fresh session: about to switch the terminal to raw mode.
pub open spec fn init_model() -> PtyModel {
    PtyModel {
        phase: PtyPhase::EnterRaw,
        raw_entered: false,
        restore_attempted: false,
        fault: None,
        streamed: Seq::empty(),
    }
}

/// Which event answers the action pending in a phase.
pub open spec fn accepts(phase: PtyPhase, e: PtyEv) -> bool {
    match (phase, e) {
        (PtyPhase::EnterRaw, PtyEv::RawEntered) => true,
        (PtyPhase::EnterRaw, PtyEv::RawFailed) => true,
        (PtyPhase::AllocatePty, PtyEv::PtyOpened) => true,
        (PtyPhase::AllocatePty, PtyEv::PtyOpenFailed) => true,
        (PtyPhase::Spawn, PtyEv::ChildSpawned) => true,
        (PtyPhase::Spawn, PtyEv::SpawnFailed) => true,
        (PtyPhase::ReleaseSubordinate, PtyEv::SubordinateReleased) => true,
        (PtyPhase::StreamOutput, PtyEv::BytesRead(_)) => true,
        (PtyPhase::StreamOutput, PtyEv::ReadFailed) => true,
        (PtyPhase::WriteOutput, PtyEv::ChunkWritten) => true,
        (PtyPhase::Wait, PtyEv::ChildExited) => true,
        (PtyPhase::Wait, PtyEv::WaitFailed) => true,
        (PtyPhase::RestoreMode, PtyEv::ModeRestored) => true,
        (PtyPhase::RestoreMode, PtyEv::RestoreFailed) => true,
        _ => false,
    }
}

/// The transition law. A fault in any phase after raw mode was entered
/// routes through RestoreMode before Done, and is recorded so that the
/// session's outcome surfaces it: a failed read ends the stream like
/// end-of-stream but leaves `OutputStreamError` pending, a failed wait
/// leaves `ChildWaitError` pending, and everywhere the first fault wins, so
/// a later failure (restoration included) never masks an earlier one. An
/// event that answers no pending action leaves the state unchanged.
pub open spec fn step_model(m: PtyModel, e: PtyEv) -> (PtyModel, PtyAct) {
    match (m.phase, e) {
        (PtyPhase::EnterRaw, PtyEv::RawEntered) => (
            PtyModel { phase: PtyPhase::AllocatePty, raw_entered: true, ..m },
            PtyAct::OpenPty,
        ),
        (PtyPhase::EnterRaw, PtyEv::RawFailed) => (
            PtyModel { phase: PtyPhase::Done, fault: Some(ShellError::TerminalModeError), ..m },
            PtyAct::Finish,
        ),
        (PtyPhase::AllocatePty, PtyEv::PtyOpened) => (
            PtyModel { phase: PtyPhase::Spawn, ..m },
            PtyAct::SpawnChild,
        ),
        (PtyPhase::AllocatePty, PtyEv::PtyOpenFailed) => (
            PtyModel {
                phase: PtyPhase::RestoreMode,
                fault: Some(ShellError::PtyAllocationError),
                ..m
            },
            PtyAct::RestoreTermMode,
        ),
        (PtyPhase::Spawn, PtyEv::ChildSpawned) => (
            PtyModel { phase: PtyPhase::ReleaseSubordinate, ..m },
            PtyAct::CloseSubordinate,
        ),
        (PtyPhase::Spawn, PtyEv::SpawnFailed) => (
            PtyModel { phase: PtyPhase::RestoreMode, fault: Some(ShellError::SpawnError), ..m },
            PtyAct::RestoreTermMode,
        ),
        (PtyPhase::ReleaseSubordinate, PtyEv::SubordinateReleased) => (
            PtyModel { phase: PtyPhase::StreamOutput, ..m },
            PtyAct::ReadChunk,
        ),
        (PtyPhase::StreamOutput, PtyEv::BytesRead(b)) => if b.len() == 0 {
            (PtyModel { phase: PtyPhase::Wait, ..m }, PtyAct::WaitChild)
        } else {
            (
                PtyModel { phase: PtyPhase::WriteOutput, streamed: m.streamed + b, ..m },
                PtyAct::WriteChunk(b),
            )
        },
        (PtyPhase::StreamOutput, PtyEv::ReadFailed) => (
            PtyModel {
                phase: PtyPhase::Wait,
                fault: if m.fault is Some {
                    m.fault
                } else {
                    Some(ShellError::OutputStreamError)
                },
                ..m
            },
            PtyAct::WaitChild,
        ),
        (PtyPhase::WriteOutput, PtyEv::ChunkWritten) => (
            PtyModel { phase: PtyPhase::StreamOutput, ..m },
            PtyAct::ReadChunk,
        ),
        (PtyPhase::Wait, PtyEv::ChildExited) => (
            PtyModel { phase: PtyPhase::RestoreMode, ..m },
            PtyAct::RestoreTermMode,
        ),
        (PtyPhase::Wait, PtyEv::WaitFailed) => (
            PtyModel {
                phase: PtyPhase::RestoreMode,
                fault: if m.fault is Some {
                    m.fault
                } else {
                    Some(ShellError::ChildWaitError)
                },
                ..m
            },
            PtyAct::RestoreTermMode,
        ),
        (PtyPhase::RestoreMode, PtyEv::ModeRestored) => (
            PtyModel { phase: PtyPhase::Done, restore_attempted: true, ..m },
            PtyAct::Finish,
        ),
        (PtyPhase::RestoreMode, PtyEv::RestoreFailed) => (
            PtyModel {
                phase: PtyPhase::Done,
                restore_attempted: true,
                fault: if m.fault is Some {
                    m.fault
                } else {
                    Some(ShellError::TerminalModeError)
                },
                ..m
            },
            PtyAct::Finish,
        ),
        _ => (m, PtyAct::Finish),
    }
}

/// An outcome the surroundings report, as an executable value.
#[derive(Debug, PartialEq, Eq)]
pub enum PtyEvent {
    RawEntered,
    RawFailed,
    PtyOpened,
    PtyOpenFailed,
    ChildSpawned,
    SpawnFailed,
    SubordinateReleased,
    BytesRead(Vec<u8>),
    ReadFailed,
    ChunkWritten,
    ChildExited,
    WaitFailed,
    ModeRestored,
    RestoreFailed,
}

impl View for PtyEvent {
    type V = PtyEv;

    open spec fn view(&self) -> PtyEv {
        match self {
            PtyEvent::RawEntered => PtyEv::RawEntered,
            PtyEvent::RawFailed => PtyEv::RawFailed,
            PtyEvent::PtyOpened => PtyEv::PtyOpened,
            PtyEvent::PtyOpenFailed => PtyEv::PtyOpenFailed,
            PtyEvent::ChildSpawned => PtyEv::ChildSpawned,
            PtyEvent::SpawnFailed => PtyEv::SpawnFailed,
            PtyEvent::SubordinateReleased => PtyEv::SubordinateReleased,
            PtyEvent::BytesRead(b) => PtyEv::BytesRead(b@),
            PtyEvent::ReadFailed => PtyEv::ReadFailed,
            PtyEvent::ChunkWritten => PtyEv::ChunkWritten,
            PtyEvent::ChildExited => PtyEv::ChildExited,
            PtyEvent::WaitFailed => PtyEv::WaitFailed,
            PtyEvent::ModeRestored => PtyEv::ModeRestored,
            PtyEvent::RestoreFailed => PtyEv::RestoreFailed,
        }
    }
}

/// The next piece of outside work, as an executable value.
#[derive(Debug, PartialEq, Eq)]
pub enum PtyAction {
    EnterRawMode,
    OpenPty,
    SpawnChild,
    CloseSubordinate,
    ReadChunk,
    WriteChunk(Vec<u8>),
    WaitChild,
    RestoreTermMode,
    Finish,
}

impl View for PtyAction {
    type V = PtyAct;

    open spec fn view(&self) -> PtyAct {
        match self {
            PtyAction::EnterRawMode => PtyAct::EnterRawMode,
            PtyAction::OpenPty => PtyAct::OpenPty,
            PtyAction::SpawnChild => PtyAct::SpawnChild,
            PtyAction::CloseSubordinate => PtyAct::CloseSubordinate,
            PtyAction::ReadChunk => PtyAct::ReadChunk,
            PtyAction::WriteChunk(b) => PtyAct::WriteChunk(b@),
            PtyAction::WaitChild => PtyAct::WaitChild,
            PtyAction::RestoreTermMode => PtyAct::RestoreTermMode,
            PtyAction::Finish => PtyAct::Finish,
        }
    }
}

/// One external-command session: the command to run, its arguments, and the
/// machine state. Exactly one is live at a time.
pub struct PtyExec {
    pub cmd_name: String,
    pub args: Vec<String>,
    pub phase: PtyPhase,
    pub raw_entered: bool,
    pub restore_attempted: bool,
    pub fault: Option<ShellError>,
    pub streamed: Ghost<Seq<u8>>,
}

impl View for PtyExec {
    type V = PtyModel;

    open spec fn view(&self) -> PtyModel {
        PtyModel {
            phase: self.phase,
            raw_entered: self.raw_entered,
            restore_attempted: self.restore_attempted,
            fault: self.fault,
            streamed: self.streamed@,
        }
    }
}

impl PtyExec {
    /// Starts a session for one external command; the first piece of
    /// outside work is switching the terminal to raw mode.
    pub fn new(cmd_name: String, args: Vec<String>) -> (r: (PtyExec, PtyAction))
        ensures
            r.0@ == init_model(),
            r.1@ == PtyAct::EnterRawMode,
            r.0.cmd_name == cmd_name,
            r.0.args == args,
    {
        (
            PtyExec {
                cmd_name,
                args,
                phase: PtyPhase::EnterRaw,
                raw_entered: false,
                restore_attempted: false,
                fault: None,
                streamed: Ghost(Seq::empty()),
            },
            PtyAction::EnterRawMode,
        )
    }

    /// Feeds the outcome of the pending action in and hands the next
    /// action out, as `step_model` directs.
    pub fn step(&mut self, ev: PtyEvent) -> (a: PtyAction)
        requires
            accepts(old(self)@.phase, ev@),
        ensures
            final(self)@ == step_model(old(self)@, ev@).0,
            a@ == step_model(old(self)@, ev@).1,
            final(self).cmd_name == old(self).cmd_name,
            final(self).args == old(self).args,
    {
        match ev {
            PtyEvent::RawEntered => {
                self.raw_entered = true;
                self.phase = PtyPhase::AllocatePty;
                PtyAction::OpenPty
            },
            PtyEvent::RawFailed => {
                self.fault = Some(ShellError::TerminalModeError);
                self.phase = PtyPhase::Done;
                PtyAction::Finish
            },
            PtyEvent::PtyOpened => {
                self.phase = PtyPhase::Spawn;
                PtyAction::SpawnChild
            },
            PtyEvent::PtyOpenFailed => {
                self.fault = Some(ShellError::PtyAllocationError);
                self.phase = PtyPhase::RestoreMode;
                PtyAction::RestoreTermMode
            },
            PtyEvent::ChildSpawned => {
                self.phase = PtyPhase::ReleaseSubordinate;
                PtyAction::CloseSubordinate
            },
            PtyEvent::SpawnFailed => {
                self.fault = Some(ShellError::SpawnError);
                self.phase = PtyPhase::RestoreMode;
                PtyAction::RestoreTermMode
            },
            PtyEvent::SubordinateReleased => {
                self.phase = PtyPhase::StreamOutput;
                PtyAction::ReadChunk
            },
            PtyEvent::BytesRead(b) => {
                if b.len() == 0 {
                    self.phase = PtyPhase::Wait;
                    PtyAction::WaitChild
                } else {
                    self.streamed = Ghost(self.streamed@ + b@);
                    self.phase = PtyPhase::WriteOutput;
                    PtyAction::WriteChunk(b)
                }
            },
            PtyEvent::ReadFailed => {
                if self.fault.is_none() {
                    self.fault = Some(ShellError::OutputStreamError);
                }
                self.phase = PtyPhase::Wait;
                PtyAction::WaitChild
            },
            PtyEvent::ChunkWritten => {
                self.phase = PtyPhase::StreamOutput;
                PtyAction::ReadChunk
            },
            PtyEvent::ChildExited => {
                self.phase = PtyPhase::RestoreMode;
                PtyAction::RestoreTermMode
            },
            PtyEvent::WaitFailed => {
                if self.fault.is_none() {
                    self.fault = Some(ShellError::ChildWaitError);
                }
                self.phase = PtyPhase::RestoreMode;
                PtyAction::RestoreTermMode
            },
            PtyEvent::ModeRestored => {
                self.restore_attempted = true;
                self.phase = PtyPhase::Done;
                PtyAction::Finish
            },
            PtyEvent::RestoreFailed => {
                self.restore_attempted = true;
                if self.fault.is_none() {
                    self.fault = Some(ShellError::TerminalModeError);
                }
                self.phase = PtyPhase::Done;
                PtyAction::Finish
            },
        }
    }

    /// The session's result once it is done: the first fault, or success.
    pub fn outcome(&self) -> (r: Result<(), ShellError>)
        requires
            self@.phase == PtyPhase::Done,
        ensures
            match self@.fault {
                Some(f) => r == Result::<(), ShellError>::Err(f),
                None => r == Result::<(), ShellError>::Ok(()),
            },
    {
        match self.fault {
            Some(f) => Err(f),
            None => Ok(()),
        }
    }
}

/// The state after a whole run of reported outcomes.
pub open spec fn run_model(m: PtyModel, evs: Seq<PtyEv>) -> PtyModel
    decreases evs.len(),
{
    if evs.len() == 0 {
        m
    } else {
        run_model(step_model(m, evs[0]).0, evs.drop_first())
    }
}

/// Once past EnterRaw the terminal is raw, and a session only ends after
/// raw mode was either never entered or its restoration was attempted.
pub open spec fn session_inv(m: PtyModel) -> bool {
    &&& (m.phase == PtyPhase::EnterRaw ==> !m.raw_entered)
    &&& (m.phase == PtyPhase::Done ==> (m.raw_entered ==> m.restore_attempted))
    &&& ((m.phase == PtyPhase::AllocatePty || m.phase == PtyPhase::Spawn || m.phase
        == PtyPhase::ReleaseSubordinate || m.phase == PtyPhase::StreamOutput || m.phase
        == PtyPhase::WriteOutput || m.phase == PtyPhase::Wait || m.phase == PtyPhase::RestoreMode)
        ==> m.raw_entered)
}

proof fn lemma_step_preserves_inv(m: PtyModel, e: PtyEv)
    requires
        session_inv(m),
    ensures
        session_inv(step_model(m, e).0),
{
}

proof fn lemma_run_preserves_inv(m: PtyModel, evs: Seq<PtyEv>)
    requires
        session_inv(m),
    ensures
        session_inv(run_model(m, evs)),
    decreases evs.len(),
{
    if evs.len() > 0 {
        lemma_step_preserves_inv(m, evs[0]);
        lemma_run_preserves_inv(step_model(m, evs[0]).0, evs.drop_first());
    }
}

/// Mode restoration is unconditional: however a session ran, if it has
/// ended and the terminal was ever switched to raw mode, then the restore
/// action was issued before finishing.
pub proof fn lemma_restore_unconditional(evs: Seq<PtyEv>)
    ensures
        run_model(init_model(), evs).phase == PtyPhase::Done ==> (run_model(
            init_model(),
            evs,
        ).raw_entered ==> run_model(init_model(), evs).restore_attempted),
{
    lemma_run_preserves_inv(init_model(), evs);
}

/// A restoration failure is reported, but never masks an earlier fault.
pub proof fn lemma_restore_failure_masks_nothing(m: PtyModel)
    requires
        m.fault is Some,
    ensures
        step_model(m, PtyEv::RestoreFailed).0.fault == m.fault,
{
}

/// The outcomes of a child that writes the given chunks and closes.
pub open spec fn stream_events(chunks: Seq<Seq<u8>>) -> Seq<PtyEv>
    decreases chunks.len(),
{
    if chunks.len() == 0 {
        Seq::empty()
    } else {
        seq![PtyEv::BytesRead(chunks[0]), PtyEv::ChunkWritten] + stream_events(chunks.drop_first())
    }
}

/// A whole session in which every outside action succeeds and the child
/// writes the given chunks before exiting.
pub open spec fn session_events(chunks: Seq<Seq<u8>>) -> Seq<PtyEv> {
    seq![PtyEv::RawEntered, PtyEv::PtyOpened, PtyEv::ChildSpawned, PtyEv::SubordinateReleased]
        + stream_events(chunks) + seq![
        PtyEv::BytesRead(Seq::empty()),
        PtyEv::ChildExited,
        PtyEv::ModeRestored,
    ]
}

proof fn lemma_run_append(m: PtyModel, a: Seq<PtyEv>, b: Seq<PtyEv>)
    ensures
        run_model(m, a + b) == run_model(run_model(m, a), b),
    decreases a.len(),
{
    if a.len() == 0 {
        assert(a + b =~= b);
    } else {
        assert((a + b)[0] == a[0]);
        assert((a + b).drop_first() =~= a.drop_first() + b);
        lemma_run_append(step_model(m, a[0]).0, a.drop_first(), b);
    }
}

proof fn lemma_stream_loop(m: PtyModel, chunks: Seq<Seq<u8>>)
    requires
        m.phase == PtyPhase::StreamOutput,
        forall|i: int| 0 <= i < chunks.len() ==> chunks[i].len() > 0,
    ensures
        run_model(m, stream_events(chunks)) == (PtyModel {
            streamed: m.streamed + chunks.flatten(),
            ..m
        }),
    decreases chunks.len(),
{
    reveal_with_fuel(run_model, 4);
    if chunks.len() == 0 {
        assert(chunks.flatten() =~= Seq::<u8>::empty());
        assert(m.streamed + chunks.flatten() =~= m.streamed);
    } else {
        let e0 = PtyEv::BytesRead(chunks[0]);
        let two = seq![e0, PtyEv::ChunkWritten];
        let rest = stream_events(chunks.drop_first());
        assert(stream_events(chunks) == two + rest);
        lemma_run_append(m, two, rest);
        let m1 = step_model(m, e0).0;
        assert(two.drop_first() =~= seq![PtyEv::ChunkWritten]);
        assert(seq![PtyEv::ChunkWritten].drop_first() =~= Seq::<PtyEv>::empty());
        let m2 = step_model(m1, PtyEv::ChunkWritten).0;
        assert(run_model(m, two) == m2);
        lemma_stream_loop(m2, chunks.drop_first());
        assert(chunks.flatten() == chunks[0] + chunks.drop_first().flatten());
        assert((m.streamed + chunks[0]) + chunks.drop_first().flatten() =~= m.streamed
            + chunks.flatten());
    }
}

/// A child that writes the given byte chunks and exits leaves exactly those
/// bytes, in order and unaltered, streamed to the terminal; the session
/// ends cleanly with the terminal mode restored.
pub proof fn lemma_output_verbatim(chunks: Seq<Seq<u8>>)
    requires
        forall|i: int| 0 <= i < chunks.len() ==> chunks[i].len() > 0,
    ensures
        ({
            let m = run_model(init_model(), session_events(chunks));
            m.phase == PtyPhase::Done && m.fault is None && m.streamed == chunks.flatten()
                && m.raw_entered && m.restore_attempted
        }),
{
    reveal_with_fuel(run_model, 6);
    let p = seq![
        PtyEv::RawEntered,
        PtyEv::PtyOpened,
        PtyEv::ChildSpawned,
        PtyEv::SubordinateReleased,
    ];
    let s = stream_events(chunks);
    let t = seq![PtyEv::BytesRead(Seq::<u8>::empty()), PtyEv::ChildExited, PtyEv::ModeRestored];
    assert(session_events(chunks) == (p + s) + t);
    lemma_run_append(init_model(), p + s, t);
    lemma_run_append(init_model(), p, s);
    let m0 = init_model();
    let m1 = step_model(m0, PtyEv::RawEntered).0;
    let m2 = step_model(m1, PtyEv::PtyOpened).0;
    let m3 = step_model(m2, PtyEv::ChildSpawned).0;
    let m4 = step_model(m3, PtyEv::SubordinateReleased).0;
    assert(p.drop_first() =~= seq![PtyEv::PtyOpened, PtyEv::ChildSpawned, PtyEv::SubordinateReleased]);
    assert(p.drop_first().drop_first() =~= seq![PtyEv::ChildSpawned, PtyEv::SubordinateReleased]);
    assert(p.drop_first().drop_first().drop_first() =~= seq![PtyEv::SubordinateReleased]);
    assert(seq![PtyEv::SubordinateReleased].drop_first() =~= Seq::<PtyEv>::empty());
    assert(run_model(m0, p) == m4);
    lemma_stream_loop(m4, chunks);
    let m5 = run_model(m4, s);
    assert(m5.streamed =~= chunks.flatten());
    let m6 = step_model(m5, PtyEv::BytesRead(Seq::<u8>::empty())).0;
    let m7 = step_model(m6, PtyEv::ChildExited).0;
    let m8 = step_model(m7, PtyEv::ModeRestored).0;
    assert(t.drop_first() =~= seq![PtyEv::ChildExited, PtyEv::ModeRestored]);
    assert(t.drop_first().drop_first() =~= seq![PtyEv::ModeRestored]);
    assert(seq![PtyEv::ModeRestored].drop_first() =~= Seq::<PtyEv>::empty());
    assert(run_model(m5, t) == m8);
}

} // verus!
