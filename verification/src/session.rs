//! The life of a session, once it is connected.
//!
//! A session is driven from outside: the driver performs the action that it is
//! given (waits for a frame, hands a frame to the decoder, writes a reply,
//! saves a screenshot) and reports what came of it as an event, which gives
//! the next action. A session that runs once ends when the server falls silent
//! or terminates it, and is saved then. A session that is kept open is saved
//! under a new number whenever the last screenshot is old enough, whether the
//! server is busy or silent, until it is interrupted or terminated. An
//! interruption is seen between two reads; a screenshot that is due when a read
//! ends in silence is still taken.

use std::path::Path;
use std::path::PathBuf;
use vstd::prelude::*;

use crate::output_path::is_numbered_path;
use crate::output_path::numbered_output_path;
use crate::output_path::path_buf_bytes;
use crate::output_path::path_bytes;

verus! {

/// The time from one screenshot of a session that is kept open to the next, in
/// nanoseconds.
pub const SAVE_INTERVAL: u128 = 5_000_000_000;

/// How long a session lasts.
#[derive(Clone, Copy, Debug, PartialEq, Eq, Structural)]
pub enum Mode {
    /// Until the server has nothing more to send.
    Once,
    /// Until it is interrupted.
    KeepOpen,
}

impl Mode {
    /// The mode that the user asked for.
    pub fn of(keep_open: bool) -> (mode: Mode)
        ensures
            mode == mode_of(keep_open),
    {
        if keep_open {
            Mode::KeepOpen
        } else {
            Mode::Once
        }
    }
}

/// Why no frame could be read.
#[derive(Clone, Copy, Debug, PartialEq, Eq, Structural)]
pub enum ReadError {
    WouldBlock,
    TimedOut,
    Other,
}

/// What the decoder asks for after a frame.
#[derive(Debug)]
pub enum Output {
    /// To send these bytes to the server.
    ResponseFrame(Vec<u8>),
    /// To end the session, as the server does.
    Terminate,
    /// Something that concerns a user at the screen only.
    Other,
}

/// The model of an [`Output`].
pub enum OutputView {
    ResponseFrame(Seq<u8>),
    Terminate,
    Other,
}

impl View for Output {
    type V = OutputView;

    open spec fn view(&self) -> OutputView {
        match self {
            Output::ResponseFrame(frame) => OutputView::ResponseFrame(frame@),
            Output::Terminate => OutputView::Terminate,
            Output::Other => OutputView::Other,
        }
    }
}

/// The model of a list of outputs.
pub open spec fn outputs_view(outputs: Seq<Output>) -> Seq<OutputView> {
    outputs.map_values(|output: Output| output@)
}

/// Whether the decoder asks to end the session.
pub open spec fn terminates(outputs: Seq<OutputView>) -> bool {
    exists|i: int| 0 <= i < outputs.len() && #[trigger] outputs[i] is Terminate
}

/// The frames that the decoder asks to send, in order, up to where it asks to
/// end the session.
pub open spec fn replies_of(outputs: Seq<OutputView>) -> Seq<Seq<u8>>
    decreases outputs.len(),
{
    if outputs.len() == 0 {
        Seq::empty()
    } else {
        match outputs[0] {
            OutputView::ResponseFrame(frame) => seq![frame] + replies_of(outputs.drop_first()),
            OutputView::Terminate => Seq::empty(),
            OutputView::Other => replies_of(outputs.drop_first()),
        }
    }
}

/// The model of a list of frames.
pub open spec fn frames_view(frames: Seq<Vec<u8>>) -> Seq<Seq<u8>> {
    frames.map_values(|frame: Vec<u8>| frame@)
}

/// What is to be sent after a frame, and whether the session ends then.
pub fn plan_replies(outputs: Vec<Output>) -> (plan: (Vec<Vec<u8>>, bool))
    ensures
        frames_view(plan.0@) == replies_of(outputs_view(outputs@)),
        plan.1 == terminates(outputs_view(outputs@)),
{
    let ghost all = outputs_view(outputs@);
    let mut rest = outputs;
    let mut replies: Vec<Vec<u8>> = Vec::new();
    let ghost mut done: int = 0;
    assert(all.skip(0) =~= all);
    while rest.len() > 0
        invariant
            all == outputs_view(outputs@),
            0 <= done <= all.len(),
            outputs_view(rest@) == all.skip(done),
            frames_view(replies@) + replies_of(all.skip(done)) == replies_of(all),
            forall|i: int| 0 <= i < done ==> !(#[trigger] all[i] is Terminate),
        decreases rest.len(),
    {
        let ghost before = rest@;
        let ghost sent = replies@;
        let output = rest.remove(0);
        proof {
            assert(output@ == all.skip(done)[0]) by {
                assert(outputs_view(before)[0] == before[0]@);
            }
            assert(outputs_view(rest@) =~= outputs_view(before).drop_first());
            assert(all.skip(done).drop_first() =~= all.skip(done + 1));
            assert(all[done] == output@);
        }
        match output {
            Output::ResponseFrame(frame) => {
                replies.push(frame);
                proof {
                    assert(frames_view(replies@) =~= frames_view(sent) + seq![frame@]);
                    assert(frames_view(replies@) + replies_of(all.skip(done + 1)) =~= frames_view(
                        sent,
                    ) + (seq![frame@] + replies_of(all.skip(done + 1))));
                }
            },
            Output::Terminate => {
                assert(frames_view(replies@) + replies_of(all.skip(done)) =~= frames_view(replies@));
                return (replies, true);
            },
            Output::Other => {},
        }
        proof {
            done = done + 1;
        }
    }
    assert(outputs_view(rest@).len() == 0);
    assert(frames_view(replies@) + replies_of(all.skip(done)) =~= frames_view(replies@));
    (replies, false)
}

/// Which screenshot is to be saved.
#[derive(Clone, Copy, Debug, PartialEq, Eq, Structural)]
pub enum SaveTarget {
    /// The one of a session that runs once, under the output path.
    Output,
    /// The one with this number, next to the output path.
    Numbered(u64),
}

/// What the driver reports to the session.
#[derive(Debug)]
pub enum Event {
    /// Whether the user has interrupted the session, and the time in
    /// nanoseconds.
    Turn { interrupted: bool, now: u128 },
    /// A frame was read.
    FrameRead,
    /// No frame was read, by this time in nanoseconds.
    ReadFailed { error: ReadError, now: u128 },
    /// The decoder took the frame and asks for this.
    Processed { outputs: Vec<Output> },
    /// The decoder refused the frame.
    ProcessFailed,
    /// The reply was written.
    Written,
    /// The reply could not be written.
    WriteFailed,
    /// The screenshot was saved, by this time in nanoseconds.
    Saved { now: u128 },
    /// The screenshot could not be saved.
    SaveFailed,
}

/// The model of an [`Event`].
pub enum EventView {
    Turn { interrupted: bool, now: u128 },
    FrameRead,
    ReadFailed { error: ReadError, now: u128 },
    Processed { outputs: Seq<OutputView> },
    ProcessFailed,
    Written,
    WriteFailed,
    Saved { now: u128 },
    SaveFailed,
}

impl View for Event {
    type V = EventView;

    open spec fn view(&self) -> EventView {
        match self {
            Event::Turn { interrupted, now } => EventView::Turn {
                interrupted: *interrupted,
                now: *now,
            },
            Event::FrameRead => EventView::FrameRead,
            Event::ReadFailed { error, now } => EventView::ReadFailed { error: *error, now: *now },
            Event::Processed { outputs } => EventView::Processed {
                outputs: outputs_view(outputs@),
            },
            Event::ProcessFailed => EventView::ProcessFailed,
            Event::Written => EventView::Written,
            Event::WriteFailed => EventView::WriteFailed,
            Event::Saved { now } => EventView::Saved { now: *now },
            Event::SaveFailed => EventView::SaveFailed,
        }
    }
}

/// What a session broke on.
#[derive(Clone, Copy, Debug, PartialEq, Eq, Structural)]
pub enum Failure {
    ReadFrame,
    ProcessFrame,
    WriteResponse,
    SaveScreenshot,
}

/// What the error of a failure is reported as, from the inside out.
pub open spec fn contexts_of(mode: Mode, failure: Failure) -> Seq<Seq<char>> {
    match (failure, mode) {
        (Failure::ReadFrame, _) => seq!["read frame"@, "active stage"@],
        (Failure::ProcessFrame, _) => seq!["active stage"@],
        (Failure::WriteResponse, _) => seq!["write response"@, "active stage"@],
        (Failure::SaveScreenshot, Mode::KeepOpen) => seq!["active stage"@],
        (Failure::SaveScreenshot, Mode::Once) => Seq::empty(),
    }
}

/// What the error of a failure is reported as, from the inside out. The
/// screenshot of a session that runs once is saved when the session itself is
/// past.
pub fn failure_contexts(mode: Mode, failure: Failure) -> (contexts: Vec<&'static str>)
    ensures
        contexts@.map_values(|context: &'static str| context@) == contexts_of(mode, failure),
{
    let contexts: Vec<&'static str> = match (failure, mode) {
        (Failure::ReadFrame, _) => vec!["read frame", "active stage"],
        (Failure::ProcessFrame, _) => vec!["active stage"],
        (Failure::WriteResponse, _) => vec!["write response", "active stage"],
        (Failure::SaveScreenshot, Mode::KeepOpen) => vec!["active stage"],
        (Failure::SaveScreenshot, Mode::Once) => Vec::new(),
    };
    assert(contexts@.map_values(|context: &'static str| context@) =~= contexts_of(mode, failure));
    contexts
}

/// What the driver has to do next.
#[derive(Debug)]
pub enum Action {
    /// Look whether the user has interrupted the session, and at the clock.
    Check,
    /// Wait for a frame.
    Read,
    /// Hand the frame to the decoder.
    Process,
    /// Write this frame to the server.
    Write(Vec<u8>),
    /// Save a screenshot.
    Save(SaveTarget),
    /// Nothing: the session is over.
    Finish,
    /// Nothing: the session broke.
    Fail(Failure),
}

/// The model of an [`Action`].
pub enum ActionView {
    Check,
    Read,
    Process,
    Write(Seq<u8>),
    Save(SaveTarget),
    Finish,
    Fail(Failure),
}

impl View for Action {
    type V = ActionView;

    open spec fn view(&self) -> ActionView {
        match self {
            Action::Check => ActionView::Check,
            Action::Read => ActionView::Read,
            Action::Process => ActionView::Process,
            Action::Write(frame) => ActionView::Write(frame@),
            Action::Save(target) => ActionView::Save(*target),
            Action::Finish => ActionView::Finish,
            Action::Fail(failure) => ActionView::Fail(*failure),
        }
    }
}

/// What a session waits for.
#[derive(Clone, Copy, Debug, PartialEq, Eq, Structural)]
pub enum Phase {
    /// To learn whether it is interrupted, and what time it is.
    Turning,
    /// A frame.
    Reading,
    /// The decoder.
    Processing,
    /// A reply to be written.
    Writing,
    /// A screenshot to be saved.
    Saving,
    /// Nothing any more.
    Over,
}

/// The state of a session.
#[derive(Debug)]
pub struct Session {
    mode: Mode,
    has_output: bool,
    saved: u64,
    last_save: u128,
    replies: Vec<Vec<u8>>,
    closing: bool,
    phase: Phase,
}

/// The model of a [`Session`].
#[verifier::ext_equal]
pub struct SessionView {
    /// How long the session lasts.
    pub mode: Mode,
    /// Whether there is a path to save screenshots to.
    pub has_output: bool,
    /// How many numbered screenshots were asked for.
    pub saved: nat,
    /// Since when the next numbered screenshot is waited for.
    pub last_save: u128,
    /// The replies that are still to be written.
    pub replies: Seq<Seq<u8>>,
    /// Whether the session ends when the replies are written.
    pub closing: bool,
    /// What the session waits for.
    pub phase: Phase,
}

impl View for Session {
    type V = SessionView;

    closed spec fn view(&self) -> SessionView {
        SessionView {
            mode: self.mode,
            has_output: self.has_output,
            saved: self.saved as nat,
            last_save: self.last_save,
            replies: frames_view(self.replies@),
            closing: self.closing,
            phase: self.phase,
        }
    }
}

/// The mode that the user asked for.
pub open spec fn mode_of(keep_open: bool) -> Mode {
    if keep_open {
        Mode::KeepOpen
    } else {
        Mode::Once
    }
}

impl SessionView {
    /// A session at its start.
    pub open spec fn start(keep_open: bool, has_output: bool, now: u128) -> (
        SessionView,
        ActionView,
    ) {
        SessionView {
            mode: mode_of(keep_open),
            has_output,
            saved: 0,
            last_save: now,
            replies: Seq::empty(),
            closing: false,
            phase: Phase::Over,
        }.turn()
    }

    /// On to the next frame.
    pub open spec fn turn(self) -> (SessionView, ActionView) {
        match self.mode {
            Mode::Once => (SessionView { phase: Phase::Reading, ..self }, ActionView::Read),
            Mode::KeepOpen => (
                SessionView { phase: Phase::Turning, ..self },
                ActionView::Check,
            ),
        }
    }

    /// To the end: a session that runs once is saved first.
    pub open spec fn close(self) -> (SessionView, ActionView) {
        if self.mode == Mode::Once && self.has_output {
            (
                SessionView { phase: Phase::Saving, ..self },
                ActionView::Save(SaveTarget::Output),
            )
        } else {
            (SessionView { phase: Phase::Over, ..self }, ActionView::Finish)
        }
    }

    /// To a broken end.
    pub open spec fn fail(self, failure: Failure) -> (SessionView, ActionView) {
        (SessionView { phase: Phase::Over, ..self }, ActionView::Fail(failure))
    }

    /// On to the next reply, or past the last one.
    pub open spec fn reply(self) -> (SessionView, ActionView) {
        if self.replies.len() > 0 {
            (
                SessionView {
                    replies: self.replies.drop_first(),
                    phase: Phase::Writing,
                    ..self
                },
                ActionView::Write(self.replies[0]),
            )
        } else if self.closing {
            self.close()
        } else {
            self.turn()
        }
    }

    /// Whether the next numbered screenshot is due at this time.
    pub open spec fn save_due(self, now: u128) -> bool {
        now - self.last_save >= SAVE_INTERVAL
    }

    /// To the next numbered screenshot.
    pub open spec fn save(self) -> (SessionView, ActionView) {
        (
            SessionView { saved: self.saved + 1, phase: Phase::Saving, ..self },
            ActionView::Save(SaveTarget::Numbered((self.saved + 1) as u64)),
        )
    }

    /// At this time there is no screenshot to take: where there is no output
    /// path, the session waits on from when one would have been due.
    pub open spec fn waits(self, now: u128) -> SessionView {
        if self.save_due(now) {
            SessionView { last_save: now, ..self }
        } else {
            self
        }
    }

    /// A session that is kept open was told whether it is interrupted, and the
    /// time.
    pub open spec fn check(self, interrupted: bool, now: u128) -> (SessionView, ActionView) {
        if interrupted {
            (SessionView { phase: Phase::Over, ..self }, ActionView::Finish)
        } else if self.save_due(now) && self.has_output {
            self.save()
        } else {
            (SessionView { phase: Phase::Reading, ..self.waits(now) }, ActionView::Read)
        }
    }

    /// The server was silent. A screenshot that is due is taken first, then
    /// comes the next turn.
    pub open spec fn idle(self, now: u128) -> (SessionView, ActionView) {
        if self.save_due(now) && self.has_output {
            self.save()
        } else {
            self.waits(now).turn()
        }
    }

    /// No frame was read.
    pub open spec fn read_failed(self, error: ReadError, now: u128) -> (SessionView, ActionView) {
        match (self.mode, error) {
            (Mode::Once, ReadError::WouldBlock) => self.close(),
            (Mode::KeepOpen, ReadError::WouldBlock | ReadError::TimedOut) => self.idle(now),
            _ => self.fail(Failure::ReadFrame),
        }
    }

    /// Whether the session waits for such an event.
    pub open spec fn expects(self, event: EventView) -> bool {
        match event {
            EventView::Turn { .. } => self.phase == Phase::Turning,
            EventView::FrameRead | EventView::ReadFailed { .. } => self.phase == Phase::Reading,
            EventView::Processed { .. } | EventView::ProcessFailed => self.phase
                == Phase::Processing,
            EventView::Written | EventView::WriteFailed => self.phase == Phase::Writing,
            EventView::Saved { .. } | EventView::SaveFailed => self.phase == Phase::Saving,
        }
    }

    /// What an event that the session waits for does to it.
    pub open spec fn step(self, event: EventView) -> (SessionView, ActionView) {
        match event {
            EventView::Turn { interrupted, now } => self.check(interrupted, now),
            EventView::FrameRead => (
                SessionView { phase: Phase::Processing, ..self },
                ActionView::Process,
            ),
            EventView::ReadFailed { error, now } => self.read_failed(error, now),
            EventView::Processed { outputs } => SessionView {
                replies: replies_of(outputs),
                closing: terminates(outputs),
                ..self
            }.reply(),
            EventView::ProcessFailed => self.fail(Failure::ProcessFrame),
            EventView::Written => self.reply(),
            EventView::WriteFailed => self.fail(Failure::WriteResponse),
            EventView::Saved { now } => match self.mode {
                Mode::Once => (SessionView { phase: Phase::Over, ..self }, ActionView::Finish),
                Mode::KeepOpen => SessionView { last_save: now, ..self }.turn(),
            },
            EventView::SaveFailed => self.fail(Failure::SaveScreenshot),
        }
    }
}

impl Session {
    /// A session at its start, and the first action. Time is measured in
    /// nanoseconds from any fixed moment.
    pub fn start(keep_open: bool, has_output: bool, now: u128) -> (started: (Session, Action))
        ensures
            (started.0@, started.1@) == SessionView::start(keep_open, has_output, now),
    {
        let mut session = Session {
            mode: Mode::of(keep_open),
            has_output,
            saved: 0,
            last_save: now,
            replies: Vec::new(),
            closing: false,
            phase: Phase::Over,
        };
        assert(frames_view(session.replies@) =~= Seq::empty());
        let action = session.turn();
        (session, action)
    }

    /// Whether the session waits for such an event.
    pub fn expects(&self, event: &Event) -> (expected: bool)
        ensures
            expected == self@.expects(event@),
    {
        match event {
            Event::Turn { .. } => self.phase == Phase::Turning,
            Event::FrameRead | Event::ReadFailed { .. } => self.phase == Phase::Reading,
            Event::Processed { .. } | Event::ProcessFailed => self.phase == Phase::Processing,
            Event::Written | Event::WriteFailed => self.phase == Phase::Writing,
            Event::Saved { .. } | Event::SaveFailed => self.phase == Phase::Saving,
        }
    }

    /// How many numbered screenshots were asked for.
    pub fn saved(&self) -> (saved: u64)
        ensures
            saved == self@.saved,
    {
        self.saved
    }

    fn turn(&mut self) -> (action: Action)
        ensures
            (final(self)@, action@) == old(self)@.turn(),
    {
        match self.mode {
            Mode::Once => {
                self.phase = Phase::Reading;
                Action::Read
            },
            Mode::KeepOpen => {
                self.phase = Phase::Turning;
                Action::Check
            },
        }
    }

    fn close(&mut self) -> (action: Action)
        ensures
            (final(self)@, action@) == old(self)@.close(),
    {
        if self.mode == Mode::Once && self.has_output {
            self.phase = Phase::Saving;
            Action::Save(SaveTarget::Output)
        } else {
            self.phase = Phase::Over;
            Action::Finish
        }
    }

    fn fail(&mut self, failure: Failure) -> (action: Action)
        ensures
            (final(self)@, action@) == old(self)@.fail(failure),
    {
        self.phase = Phase::Over;
        Action::Fail(failure)
    }

    fn reply(&mut self) -> (action: Action)
        ensures
            (final(self)@, action@) == old(self)@.reply(),
    {
        if self.replies.len() > 0 {
            let frame = self.replies.remove(0);
            self.phase = Phase::Writing;
            proof {
                assert(frames_view(self.replies@) =~= old(self)@.replies.drop_first());
                assert(frame@ == old(self)@.replies[0]);
            }
            Action::Write(frame)
        } else if self.closing {
            self.close()
        } else {
            self.turn()
        }
    }

    /// Whether a numbered screenshot is to be taken at this time. Where one would
    /// be but there is no output path, the session waits on from this time.
    fn take_due(&mut self, now: u128) -> (due: bool)
        ensures
            due == (old(self)@.save_due(now) && old(self)@.has_output),
            final(self)@ == if due {
                old(self)@
            } else {
                old(self)@.waits(now)
            },
    {
        if now >= self.last_save && now - self.last_save >= SAVE_INTERVAL {
            if self.has_output {
                true
            } else {
                self.last_save = now;
                false
            }
        } else {
            false
        }
    }

    fn save(&mut self) -> (action: Action)
        requires
            old(self)@.saved < u64::MAX,
        ensures
            (final(self)@, action@) == old(self)@.save(),
    {
        self.saved = self.saved + 1;
        self.phase = Phase::Saving;
        Action::Save(SaveTarget::Numbered(self.saved))
    }

    fn check(&mut self, interrupted: bool, now: u128) -> (action: Action)
        requires
            old(self)@.check(interrupted, now).0.saved <= u64::MAX,
        ensures
            (final(self)@, action@) == old(self)@.check(interrupted, now),
    {
        if interrupted {
            self.phase = Phase::Over;
            Action::Finish
        } else if self.take_due(now) {
            self.save()
        } else {
            self.phase = Phase::Reading;
            Action::Read
        }
    }

    fn idle(&mut self, now: u128) -> (action: Action)
        requires
            old(self)@.idle(now).0.saved <= u64::MAX,
        ensures
            (final(self)@, action@) == old(self)@.idle(now),
    {
        if self.take_due(now) {
            self.save()
        } else {
            self.turn()
        }
    }

    fn read_failed(&mut self, error: ReadError, now: u128) -> (action: Action)
        requires
            old(self)@.read_failed(error, now).0.saved <= u64::MAX,
        ensures
            (final(self)@, action@) == old(self)@.read_failed(error, now),
    {
        match (self.mode, error) {
            (Mode::Once, ReadError::WouldBlock) => self.close(),
            (Mode::KeepOpen, ReadError::WouldBlock | ReadError::TimedOut) => self.idle(now),
            _ => self.fail(Failure::ReadFrame),
        }
    }

    /// What an event that the session waits for does to it, and the next
    /// action. Screenshots are counted with 64 bits.
    pub fn step(&mut self, event: Event) -> (action: Action)
        requires
            old(self)@.expects(event@),
            old(self)@.step(event@).0.saved <= u64::MAX,
        ensures
            (final(self)@, action@) == old(self)@.step(event@),
    {
        match event {
            Event::Turn { interrupted, now } => self.check(interrupted, now),
            Event::FrameRead => {
                self.phase = Phase::Processing;
                Action::Process
            },
            Event::ReadFailed { error, now } => self.read_failed(error, now),
            Event::Processed { outputs } => {
                let (replies, closing) = plan_replies(outputs);
                self.replies = replies;
                self.closing = closing;
                self.reply()
            },
            Event::ProcessFailed => self.fail(Failure::ProcessFrame),
            Event::Written => self.reply(),
            Event::WriteFailed => self.fail(Failure::WriteResponse),
            Event::Saved { now } => match self.mode {
                Mode::Once => {
                    self.phase = Phase::Over;
                    Action::Finish
                },
                Mode::KeepOpen => {
                    self.last_save = now;
                    self.turn()
                },
            },
            Event::SaveFailed => self.fail(Failure::SaveScreenshot),
        }
    }
}

/// This is the path that a screenshot of a session with this output path goes
/// to.
pub open spec fn is_save_path(path: Seq<u8>, output: Seq<u8>, target: SaveTarget) -> bool {
    match target {
        SaveTarget::Output => path == output,
        SaveTarget::Numbered(n) => is_numbered_path(path, output, n as nat),
    }
}

/// The path that a screenshot of a session with this output path goes to.
pub fn save_path(output: &Path, target: SaveTarget) -> (path: PathBuf)
    ensures
        is_save_path(path_buf_bytes(&path), path_bytes(output), target),
{
    match target {
        SaveTarget::Output => output.to_path_buf(),
        SaveTarget::Numbered(n) => numbered_output_path(output, n),
    }
}

} // verus!
