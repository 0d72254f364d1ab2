//! How a session answers, event by event.
//!
//! Each law speaks of one call: of what it was given, the state that it found,
//! and what came back. Together they say for every event that a session waits
//! for what the next action is and what the session remembers.

use std::path::Path;
use std::path::PathBuf;
use vstd::prelude::*;

use crate::output_path::numbered_output_path;
use crate::output_path::path_buf_bytes;
use crate::output_path::path_bytes;
use crate::session::failure_contexts;
use crate::session::frames_view;
use crate::session::outputs_view;
use crate::session::plan_replies;
use crate::session::replies_of;
use crate::session::save_path;
use crate::session::terminates;
use crate::session::Action;
use crate::session::Event;
use crate::session::Failure;
use crate::session::Mode;
use crate::session::Output;
use crate::session::OutputView;
use crate::session::Phase;
use crate::session::ReadError;
use crate::session::SaveTarget;
use crate::session::Session;
use crate::session::SessionView;
use crate::trace::law_every_reply_is_sent;

verus! {

/// The payloads of the outputs that a predicate picks out, in their order.
spec fn payloads(outputs: Seq<Output>, asked: spec_fn(Output) -> bool) -> Seq<Seq<u8>> {
    outputs.filter(asked).map_values(|output: Output| output->ResponseFrame_0@)
}

/// Before any termination, the replies to some outputs are their response
/// frames.
proof fn lemma_replies_are_frames(outputs: Seq<Output>, asked: spec_fn(Output) -> bool)
    requires
        forall|output: Output| #[trigger] asked(output) == (output is ResponseFrame),
        forall|i: int| 0 <= i < outputs.len() ==> !(#[trigger] outputs[i] is Terminate),
    ensures
        replies_of(outputs_view(outputs)) == payloads(outputs, asked),
        !terminates(outputs_view(outputs)),
    decreases outputs.len(),
{
    reveal(Seq::filter);
    let view = outputs_view(outputs);
    if outputs.len() == 0 {
        assert(replies_of(view) =~= payloads(outputs, asked));
    } else {
        let earlier = outputs.drop_last();
        let last = outputs.last();
        assert forall|i: int| 0 <= i < earlier.len() implies !(#[trigger] earlier[i]
            is Terminate) by {
            assert(earlier[i] == outputs[i]);
        }
        lemma_replies_are_frames(earlier, asked);
        assert(!(outputs[outputs.len() - 1] is Terminate));
        assert(view =~= outputs_view(earlier) + seq![last@]);
        law_every_reply_is_sent(outputs_view(earlier), seq![last@]);
        assert(seq![last@].drop_first() =~= Seq::<OutputView>::empty());
        assert(replies_of(seq![last@].drop_first()) =~= Seq::empty());
        assert(payloads(outputs, asked) =~= payloads(earlier, asked) + replies_of(seq![last@]));
    }
}

/// The replies to some outputs are the response frames before the first
/// termination.
proof fn lemma_replies(outputs: Seq<Output>, end: int, asked: spec_fn(Output) -> bool)
    requires
        forall|output: Output| #[trigger] asked(output) == (output is ResponseFrame),
        0 <= end <= outputs.len(),
        forall|i: int| 0 <= i < end ==> !(#[trigger] outputs[i] is Terminate),
        end < outputs.len() ==> outputs[end] is Terminate,
    ensures
        replies_of(outputs_view(outputs)) == payloads(outputs.take(end), asked),
        terminates(outputs_view(outputs)) == (end < outputs.len()),
{
    let view = outputs_view(outputs);
    let before = outputs.take(end);
    assert forall|i: int| 0 <= i < before.len() implies !(#[trigger] before[i] is Terminate) by {
        assert(before[i] == outputs[i]);
    }
    lemma_replies_are_frames(before, asked);
    if end < outputs.len() {
        let behind = view.skip(end);
        assert(view =~= outputs_view(before) + behind);
        law_every_reply_is_sent(outputs_view(before), behind);
        assert(behind[0] is Terminate);
        assert(replies_of(outputs_view(before)) + replies_of(behind) =~= replies_of(
            outputs_view(before),
        ));
    } else {
        assert(before =~= outputs);
    }
}

/// Every response frame that the decoder asks for before the first termination
/// is written, unchanged and in order, and nothing else: there are as many
/// replies as such frames, and the replies are their payloads. The session ends
/// then exactly where there is a termination.
pub proof fn law_replies_are_the_response_frames(
    outputs: Vec<Output>,
    plan: (Vec<Vec<u8>>, bool),
    end: int,
)
    requires
        call_ensures(plan_replies, (outputs,), plan),
        0 <= end <= outputs@.len(),
        forall|i: int| 0 <= i < end ==> !(#[trigger] outputs@[i] is Terminate),
        end < outputs@.len() ==> outputs@[end] is Terminate,
    ensures
        ({
            let asked = outputs@.take(end).filter(|output: Output| output is ResponseFrame);
            &&& plan.0@.len() == asked.len()
            &&& forall|k: int|
                0 <= k < asked.len() ==> (#[trigger] plan.0@[k])@ == asked[k]->ResponseFrame_0@
        }),
        plan.1 == (end < outputs@.len()),
{
    let asked = |output: Output| output is ResponseFrame;
    lemma_replies(outputs@, end, asked);
    let frames = frames_view(plan.0@);
    let chosen = outputs@.take(end).filter(asked);
    assert(frames == payloads(outputs@.take(end), asked));
    assert(frames.len() == plan.0@.len());
    assert forall|k: int| 0 <= k < chosen.len() implies (#[trigger] plan.0@[k])@
        == chosen[k]->ResponseFrame_0@ by {
        assert(frames[k] == plan.0@[k]@);
    }
}

/// The replies to one output: a response frame is the one reply, of whatever
/// length, and anything else has none.
pub proof fn law_reply_to_one_output(
    output: Output,
    outputs: Vec<Output>,
    plan: (Vec<Vec<u8>>, bool),
)
    requires
        call_ensures(plan_replies, (outputs,), plan),
        outputs@ == seq![output],
    ensures
        match output {
            Output::ResponseFrame(frame) => plan.0@.len() == 1 && plan.0@[0]@ == frame@ && !plan.1,
            Output::Terminate => plan.0@.len() == 0 && plan.1,
            Output::Other => plan.0@.len() == 0 && !plan.1,
        },
{
    reveal(Seq::filter);
    let end: int = if output is Terminate {
        0
    } else {
        1
    };
    law_replies_are_the_response_frames(outputs, plan, end);
    let asked = outputs@.take(end).filter(|output: Output| output is ResponseFrame);
    assert(outputs@.take(end).len() == end);
    if end == 1 {
        assert(outputs@.take(1).drop_last() =~= Seq::empty());
        assert(outputs@.take(1).drop_last().filter(|output: Output| output is ResponseFrame).len()
            == 0);
        assert(outputs@.take(1).last() == output);
        if output is ResponseFrame {
            assert(asked.len() == 1 && asked[0] == output);
        }
    }
}

/// A session starts with nothing saved and nothing to write. One that is kept
/// open first looks whether it is interrupted, one that runs once first reads.
/// The first screenshot is waited for from the start on.
pub proof fn law_start(
    keep_open: bool,
    has_output: bool,
    now: u128,
    started: (Session, Action),
)
    requires
        call_ensures(Session::start, (keep_open, has_output, now), started),
    ensures
        started.0@.has_output == has_output,
        started.0@.saved == 0,
        started.0@.last_save == now,
        started.0@.replies.len() == 0,
        !started.0@.closing,
        keep_open ==> started.0@.mode == Mode::KeepOpen && started.0@.phase == Phase::Turning
            && started.1 == Action::Check,
        !keep_open ==> started.0@.mode == Mode::Once && started.0@.phase == Phase::Reading
            && started.1 == Action::Read,
{
}

/// Each phase waits for the events that its action can lead to, whatever they
/// carry, and for no others.
pub proof fn law_phase_decides_events(session: &Session, event: &Event, expected: bool)
    requires
        call_ensures(Session::expects, (session, event), expected),
    ensures
        session@.phase == Phase::Turning ==> expected == (event is Turn),
        session@.phase == Phase::Reading ==> expected == (event is FrameRead
            || event is ReadFailed),
        session@.phase == Phase::Processing ==> expected == (event is Processed
            || event is ProcessFailed),
        session@.phase == Phase::Writing ==> expected == (event is Written
            || event is WriteFailed),
        session@.phase == Phase::Saving ==> expected == (event is Saved || event is SaveFailed),
        session@.phase == Phase::Over ==> !expected,
{
}

/// Every event that is expected can be handed on, but for one that asks for a
/// screenshot when the numbers are used up.
pub proof fn law_expected_events_are_taken(session: &mut Session, event: Event)
    requires
        call_ensures(Session::expects, (&*old(session), &event), true),
        old(session)@.saved == u64::MAX && old(session)@.has_output ==> {
            &&& event matches Event::Turn { interrupted, now } ==> interrupted || now
                < old(session)@.last_save + 5_000_000_000
            &&& event matches Event::ReadFailed { error, now } ==> old(session)@.mode == Mode::Once
                || error == ReadError::Other || now < old(session)@.last_save + 5_000_000_000
        },
        old(session)@.saved <= u64::MAX,
    ensures
        call_requires(Session::step, (old(session), event)),
{
}

/// The number of saved screenshots is the one that the session counts.
pub proof fn law_saved_is_the_count(session: &Session, saved: u64)
    requires
        call_ensures(Session::saved, (session,), saved),
    ensures
        saved == session@.saved,
{
}

/// A frame that was read is handed to the decoder, whatever the mode, the
/// number of screenshots and the time of the last one. Nothing else changes.
pub proof fn law_frame_is_processed(session: &mut Session, event: Event, action: Action)
    requires
        call_ensures(Session::step, (session, event), action),
        event is FrameRead,
    ensures
        action == Action::Process,
        final(session)@.phase == Phase::Processing,
        final(session)@ == (SessionView { phase: Phase::Processing, ..old(session)@ }),
{
}

/// A session that runs once takes a read that would block as its end, at any
/// time: it saves to its output path where it has one and is over where it has
/// none.
pub proof fn law_silence_ends_single_run(
    session: &mut Session,
    event: Event,
    action: Action,
    now: u128,
)
    requires
        call_ensures(Session::step, (session, event), action),
        old(session)@.mode == Mode::Once,
        event == (Event::ReadFailed { error: ReadError::WouldBlock, now }),
    ensures
        old(session)@.has_output ==> action == Action::Save(SaveTarget::Output)
            && final(session)@ == (SessionView { phase: Phase::Saving, ..old(session)@ }),
        !old(session)@.has_output ==> action == Action::Finish && final(session)@ == (SessionView {
            phase: Phase::Over,
            ..old(session)@
        }),
{
}

/// A read that fails breaks the session exactly where the failure is no
/// silence: a session that runs once knows only a read that would block as
/// silence, one that is kept open a read that timed out too. When it fails has
/// no say.
pub proof fn law_read_breaks_session(
    session: &mut Session,
    event: Event,
    action: Action,
    error: ReadError,
    now: u128,
)
    requires
        call_ensures(Session::step, (session, event), action),
        event == (Event::ReadFailed { error, now }),
    ensures
        (action is Fail) == (error == ReadError::Other || (error == ReadError::TimedOut
            && old(session)@.mode == Mode::Once)),
        action is Fail ==> action == Action::Fail(Failure::ReadFrame) && final(session)@ == (
        SessionView { phase: Phase::Over, ..old(session)@ }),
{
}

/// A session that is kept open meets silence with the next numbered screenshot
/// where one is due, five seconds after the last, and with the next turn
/// otherwise. Without an output path it only starts to wait anew.
pub proof fn law_silence_while_kept_open(
    session: &mut Session,
    event: Event,
    action: Action,
    error: ReadError,
    now: u128,
)
    requires
        call_ensures(Session::step, (session, event), action),
        old(session)@.mode == Mode::KeepOpen,
        event == (Event::ReadFailed { error, now }),
        error != ReadError::Other,
    ensures
        ({
            let due = now >= old(session)@.last_save + 5_000_000_000;
            &&& due && old(session)@.has_output && old(session)@.saved < u64::MAX ==> {
                &&& action matches Action::Save(SaveTarget::Numbered(n))
                &&& n == old(session)@.saved + 1
                &&& final(session)@ == (SessionView {
                    saved: old(session)@.saved + 1,
                    phase: Phase::Saving,
                    ..old(session)@
                })
            }
            &&& due && !old(session)@.has_output ==> action == Action::Check && final(session)@ == (
            SessionView { last_save: now, phase: Phase::Turning, ..old(session)@ })
            &&& !due ==> action == Action::Check && final(session)@ == (SessionView {
                phase: Phase::Turning,
                ..old(session)@
            })
        }),
{
}

/// A turn ends a session that is interrupted. Otherwise it takes the next
/// numbered screenshot where one is due, five seconds after the last, and reads
/// where none is. Without an output path it only starts to wait anew.
pub proof fn law_turn(
    session: &mut Session,
    event: Event,
    action: Action,
    interrupted: bool,
    now: u128,
)
    requires
        call_ensures(Session::step, (session, event), action),
        event == (Event::Turn { interrupted, now }),
    ensures
        interrupted ==> action == Action::Finish && final(session)@ == (SessionView {
            phase: Phase::Over,
            ..old(session)@
        }),
        !interrupted ==> {
            let due = now >= old(session)@.last_save + 5_000_000_000;
            &&& due && old(session)@.has_output && old(session)@.saved < u64::MAX ==> {
                &&& action matches Action::Save(SaveTarget::Numbered(n))
                &&& n == old(session)@.saved + 1
                &&& final(session)@ == (SessionView {
                    saved: old(session)@.saved + 1,
                    phase: Phase::Saving,
                    ..old(session)@
                })
            }
            &&& due && !old(session)@.has_output ==> action == Action::Read && final(session)@ == (
            SessionView { last_save: now, phase: Phase::Reading, ..old(session)@ })
            &&& !due ==> action == Action::Read && final(session)@ == (SessionView {
                phase: Phase::Reading,
                ..old(session)@
            })
        },
{
}

/// After a frame, the session writes the first of the response frames that the
/// decoder asked for before the first termination, and keeps the others to be
/// written, in their order. It remembers whether it was terminated.
pub proof fn law_replies_are_begun(
    session: &mut Session,
    event: Event,
    action: Action,
    outputs: Vec<Output>,
    end: int,
)
    requires
        call_ensures(Session::step, (session, event), action),
        event == (Event::Processed { outputs }),
        0 <= end <= outputs@.len(),
        forall|i: int| 0 <= i < end ==> !(#[trigger] outputs@[i] is Terminate),
        end < outputs@.len() ==> outputs@[end] is Terminate,
        exists|i: int| 0 <= i < end && #[trigger] outputs@[i] is ResponseFrame,
    ensures
        ({
            let asked = outputs@.take(end).filter(|output: Output| output is ResponseFrame);
            &&& asked.len() > 0
            &&& action matches Action::Write(frame)
            &&& frame@ == asked[0]->ResponseFrame_0@
            &&& final(session)@.replies.len() == asked.len() - 1
            &&& forall|k: int|
                0 <= k < asked.len() - 1 ==> #[trigger] final(session)@.replies[k] == asked[k
                    + 1]->ResponseFrame_0@
        }),
        final(session)@ == (SessionView {
            replies: final(session)@.replies,
            closing: end < outputs@.len(),
            phase: Phase::Writing,
            ..old(session)@
        }),
{
    let asked = |output: Output| output is ResponseFrame;
    lemma_replies(outputs@, end, asked);
    let chosen = outputs@.take(end).filter(asked);
    let i = choose|i: int| 0 <= i < end && #[trigger] outputs@[i] is ResponseFrame;
    assert(outputs@.take(end)[i] == outputs@[i]);
    outputs@.take(end).lemma_filter_contains(asked, i);
    assert(chosen.len() > 0);
    assert(payloads(outputs@.take(end), asked).len() == chosen.len());
}

/// A frame to which nothing is to be written leads straight on: at a
/// termination to the end, otherwise to the next frame.
pub proof fn law_frame_without_reply(
    session: &mut Session,
    event: Event,
    action: Action,
    outputs: Vec<Output>,
    end: int,
)
    requires
        call_ensures(Session::step, (session, event), action),
        event == (Event::Processed { outputs }),
        0 <= end <= outputs@.len(),
        forall|i: int| 0 <= i < end ==> #[trigger] outputs@[i] is Other,
        end < outputs@.len() ==> outputs@[end] is Terminate,
    ensures
        ({
            let closing = end < outputs@.len();
            let once = old(session)@.mode == Mode::Once;
            let (expected, phase) = if closing && once && old(session)@.has_output {
                (Action::Save(SaveTarget::Output), Phase::Saving)
            } else if closing {
                (Action::Finish, Phase::Over)
            } else if once {
                (Action::Read, Phase::Reading)
            } else {
                (Action::Check, Phase::Turning)
            };
            &&& action == expected
            &&& final(session)@ == (SessionView {
                replies: Seq::empty(),
                closing,
                phase,
                ..old(session)@
            })
        }),
{
    let asked = |output: Output| output is ResponseFrame;
    lemma_replies(outputs@, end, asked);
    let chosen = outputs@.take(end).filter(asked);
    if chosen.len() > 0 {
        outputs@.take(end).lemma_filter_pred(asked, 0);
        outputs@.take(end).lemma_filter_contains_rev(asked, chosen[0]);
        let i = choose|i: int| 0 <= i < end && outputs@.take(end)[i] == chosen[0];
        assert(outputs@[i] is Other);
    }
    assert(payloads(outputs@.take(end), asked) =~= Seq::empty());
}

/// A reply that was written is followed by the next one, while there is one.
/// After the last, a session that was terminated ends, and any other goes on to
/// the next frame.
pub proof fn law_replies_go_on(session: &mut Session, event: Event, action: Action)
    requires
        call_ensures(Session::step, (session, event), action),
        event is Written,
    ensures
        old(session)@.replies.len() > 0 ==> {
            &&& action matches Action::Write(frame)
            &&& frame@ == old(session)@.replies[0]
            &&& final(session)@ == (SessionView {
                replies: old(session)@.replies.skip(1),
                phase: Phase::Writing,
                ..old(session)@
            })
        },
        old(session)@.replies.len() == 0 ==> {
            let closing = old(session)@.closing;
            let once = old(session)@.mode == Mode::Once;
            let (expected, phase) = if closing && once && old(session)@.has_output {
                (Action::Save(SaveTarget::Output), Phase::Saving)
            } else if closing {
                (Action::Finish, Phase::Over)
            } else if once {
                (Action::Read, Phase::Reading)
            } else {
                (Action::Check, Phase::Turning)
            };
            &&& action == expected
            &&& final(session)@ == (SessionView { phase, ..old(session)@ })
        },
{
    assert(old(session)@.replies.len() > 0 ==> old(session)@.replies.skip(1)
        =~= old(session)@.replies.drop_first());
}

/// A screenshot that was saved ends a session that runs once. One that is kept
/// open goes on, and waits for the next from then on.
pub proof fn law_saved_screenshot(session: &mut Session, event: Event, action: Action, now: u128)
    requires
        call_ensures(Session::step, (session, event), action),
        event == (Event::Saved { now }),
    ensures
        old(session)@.mode == Mode::Once ==> action == Action::Finish && final(session)@ == (
        SessionView { phase: Phase::Over, ..old(session)@ }),
        old(session)@.mode == Mode::KeepOpen ==> action == Action::Check && final(session)@ == (
        SessionView { last_save: now, phase: Phase::Turning, ..old(session)@ }),
{
}

/// What the driver could not do breaks the session, and is what it is reported
/// as.
pub proof fn law_failed_work_breaks_session(session: &mut Session, event: Event, action: Action)
    requires
        call_ensures(Session::step, (session, event), action),
        event is ProcessFailed || event is WriteFailed || event is SaveFailed,
    ensures
        event is ProcessFailed ==> action == Action::Fail(Failure::ProcessFrame),
        event is WriteFailed ==> action == Action::Fail(Failure::WriteResponse),
        event is SaveFailed ==> action == Action::Fail(Failure::SaveScreenshot),
        final(session)@ == (SessionView { phase: Phase::Over, ..old(session)@ }),
{
}

/// Every failure is reported as one of the active stage, with the frame that
/// could not be read or the response that could not be written inside it. Only
/// the screenshot of a session that runs once is taken outside that stage.
pub proof fn law_failure_contexts(mode: Mode, failure: Failure, contexts: Vec<&'static str>)
    requires
        call_ensures(failure_contexts, (mode, failure), contexts),
    ensures
        (contexts@.len() == 0) == (failure == Failure::SaveScreenshot && mode == Mode::Once),
        contexts@.len() > 0 ==> contexts@.last()@ == "active stage"@,
        (contexts@.len() == 2) == (failure == Failure::ReadFrame || failure
            == Failure::WriteResponse),
        contexts@.len() <= 2,
        failure == Failure::ReadFrame ==> contexts@[0]@ == "read frame"@,
        failure == Failure::WriteResponse ==> contexts@[0]@ == "write response"@,
{
    let views = contexts@.map_values(|context: &'static str| context@);
    assert(views.len() == contexts@.len());
    assert(forall|i: int| 0 <= i < contexts@.len() ==> views[i] == #[trigger] contexts@[i]@);
}

/// A mode is the one that the user asked for.
pub proof fn law_mode(keep_open: bool, mode: Mode)
    requires
        call_ensures(Mode::of, (keep_open,), mode),
    ensures
        (mode == Mode::KeepOpen) == keep_open,
        (mode == Mode::Once) == !keep_open,
{
}

/// The one screenshot of a session that runs once goes to the output path
/// itself. A numbered one goes where [`numbered_output_path`] puts that number.
pub proof fn law_save_path(output: &Path, target: SaveTarget, path: PathBuf)
    requires
        call_ensures(save_path, (output, target), path),
    ensures
        target == SaveTarget::Output ==> path_buf_bytes(&path) == path_bytes(output),
        forall|n: u64, numbered: PathBuf|
            target == SaveTarget::Numbered(n) && #[trigger] call_ensures(
                numbered_output_path,
                (output, n),
                numbered,
            ) ==> path_buf_bytes(&path) == path_buf_bytes(&numbered),
{
}

} // verus!
