//! What holds of whole sessions.
//!
//! A session is seen here as the events that its driver reported and the
//! actions that it was given for them, one for each event.

use vstd::prelude::*;

use crate::output_path::extension_text;
use crate::output_path::has_plain_file_name;
use crate::output_path::law_numbered_names_differ;
use crate::output_path::law_numbered_paths_differ;
use crate::output_path::numbered_name;
use crate::output_path::stem_text;
use crate::session::is_save_path;
use crate::session::replies_of;
use crate::session::terminates;
use crate::session::ActionView;
use crate::session::EventView;
use crate::session::Failure;
use crate::session::Mode;
use crate::session::OutputView;
use crate::session::Phase;
use crate::session::ReadError;
use crate::session::SaveTarget;
use crate::session::SessionView;
use crate::session::SAVE_INTERVAL;

verus! {

/// The state that the events lead to.
pub open spec fn after(start: SessionView, events: Seq<EventView>) -> SessionView
    decreases events.len(),
{
    if events.len() == 0 {
        start
    } else {
        after(start, events.drop_last()).step(events.last()).0
    }
}

/// Every event is one that the session waited for.
pub open spec fn legal(start: SessionView, events: Seq<EventView>) -> bool
    decreases events.len(),
{
    events.len() == 0 || (legal(start, events.drop_last()) && after(
        start,
        events.drop_last(),
    ).expects(events.last()))
}

/// The actions that the events were answered with.
pub open spec fn actions(start: SessionView, events: Seq<EventView>) -> Seq<ActionView>
    decreases events.len(),
{
    if events.len() == 0 {
        Seq::empty()
    } else {
        actions(start, events.drop_last()).push(
            after(start, events.drop_last()).step(events.last()).1,
        )
    }
}

/// The screenshots among the actions.
pub open spec fn saves(actions: Seq<ActionView>) -> Seq<SaveTarget>
    decreases actions.len(),
{
    if actions.len() == 0 {
        Seq::empty()
    } else {
        match actions.last() {
            ActionView::Save(target) => saves(actions.drop_last()).push(target),
            _ => saves(actions.drop_last()),
        }
    }
}

/// The first `count` screenshots that go under a number.
pub open spec fn numbered_targets(count: nat) -> Seq<SaveTarget> {
    Seq::new(count, |i: int| SaveTarget::Numbered((i + 1) as u64))
}

/// The time that an event tells.
pub open spec fn time_of(event: EventView) -> Option<u128> {
    match event {
        EventView::Turn { now, .. } => Some(now),
        EventView::ReadFailed { now, .. } => Some(now),
        EventView::Saved { now } => Some(now),
        _ => None,
    }
}

/// The times that the events tell never go back.
pub open spec fn clock_advances(events: Seq<EventView>) -> bool {
    forall|i: int, j: int|
        0 <= i <= j < events.len() && (#[trigger] time_of(events[i])) is Some && (
        #[trigger] time_of(events[j])) is Some ==> time_of(events[i])->0 <= time_of(events[j])->0
}

/// There is one action for each event.
proof fn lemma_actions_len(start: SessionView, events: Seq<EventView>)
    ensures
        actions(start, events).len() == events.len(),
    decreases events.len(),
{
    if events.len() > 0 {
        lemma_actions_len(start, events.drop_last());
    }
}

/// What happened up to some event does not depend on what follows.
proof fn lemma_prefix(start: SessionView, events: Seq<EventView>, i: int)
    requires
        0 <= i < events.len(),
    ensures
        actions(start, events)[i] == after(start, events.take(i)).step(events[i]).1,
        after(start, events.take(i + 1)) == after(start, events.take(i)).step(events[i]).0,
        legal(start, events) ==> legal(start, events.take(i)) && after(
            start,
            events.take(i),
        ).expects(events[i]),
    decreases events.len(),
{
    lemma_actions_len(start, events.drop_last());
    assert(events.take(i + 1).drop_last() =~= events.take(i));
    if i == events.len() - 1 {
        assert(events.take(i) =~= events.drop_last());
    } else {
        lemma_prefix(start, events.drop_last(), i);
        assert(events.drop_last().take(i) =~= events.take(i));
    }
}

/// The mode and the output of a session never change, and its count of
/// screenshots never falls.
proof fn lemma_step_keeps(session: SessionView, event: EventView)
    ensures
        session.step(event).0.mode == session.mode,
        session.step(event).0.has_output == session.has_output,
        session.step(event).0.saved >= session.saved,
{
}

/// The mode and the output of a session never change.
proof fn lemma_after_keeps(start: SessionView, events: Seq<EventView>)
    ensures
        after(start, events).mode == start.mode,
        after(start, events).has_output == start.has_output,
    decreases events.len(),
{
    if events.len() > 0 {
        lemma_after_keeps(start, events.drop_last());
        lemma_step_keeps(after(start, events.drop_last()), events.last());
    }
}

/// The screenshots of a session that is kept open are numbered from one on,
/// without a gap and without a repetition, as long as 64 bits can count them.
pub proof fn law_screenshots_are_numbered_in_order(
    has_output: bool,
    now: u128,
    events: Seq<EventView>,
)
    requires
        legal(SessionView::start(true, has_output, now).0, events),
        after(SessionView::start(true, has_output, now).0, events).saved <= u64::MAX,
    ensures
        saves(actions(SessionView::start(true, has_output, now).0, events)) == numbered_targets(
            after(SessionView::start(true, has_output, now).0, events).saved,
        ),
    decreases events.len(),
{
    let start = SessionView::start(true, has_output, now).0;
    if events.len() == 0 {
        assert(saves(actions(start, events)) =~= numbered_targets(0));
    } else {
        let before = after(start, events.drop_last());
        lemma_step_keeps(before, events.last());
        lemma_after_keeps(start, events.drop_last());
        law_screenshots_are_numbered_in_order(has_output, now, events.drop_last());
        let all = actions(start, events);
        assert(all.drop_last() =~= actions(start, events.drop_last()));
        assert(saves(all) =~= numbered_targets(after(start, events).saved));
    }
}

/// No two screenshots of a session that is kept open go under one file name,
/// whatever its output path, nor to one path, where the file name of the output
/// path has no separator.
pub proof fn law_screenshots_do_not_collide(
    has_output: bool,
    now: u128,
    events: Seq<EventView>,
    output: Seq<u8>,
    i: int,
    j: int,
    left: Seq<u8>,
    right: Seq<u8>,
)
    requires
        legal(SessionView::start(true, has_output, now).0, events),
        after(SessionView::start(true, has_output, now).0, events).saved <= u64::MAX,
        0 <= i < j < saves(actions(SessionView::start(true, has_output, now).0, events)).len(),
        is_save_path(
            left,
            output,
            saves(actions(SessionView::start(true, has_output, now).0, events))[i],
        ),
        is_save_path(
            right,
            output,
            saves(actions(SessionView::start(true, has_output, now).0, events))[j],
        ),
    ensures
        ({
            let taken = saves(actions(SessionView::start(true, has_output, now).0, events));
            match (taken[i], taken[j]) {
                (SaveTarget::Numbered(a), SaveTarget::Numbered(b)) => {
                    let stem = stem_text(output);
                    let extension = extension_text(output);
                    let first = numbered_name(stem, a as nat, extension);
                    let second = numbered_name(stem, b as nat, extension);
                    &&& first != second
                    &&& has_plain_file_name(output) ==> left != right
                },
                _ => false,
            }
        }),
{
    let a = (i + 1) as nat;
    let b = (j + 1) as nat;
    let stem = stem_text(output);
    let extension = extension_text(output);
    law_screenshots_are_numbered_in_order(has_output, now, events);
    law_numbered_names_differ(stem, extension, a, b);
    if has_plain_file_name(output) {
        law_numbered_paths_differ(output, left, right, a, b);
    }
}

/// A session without an output path never saves a screenshot.
pub proof fn law_no_output_no_screenshot(keep_open: bool, now: u128, events: Seq<EventView>)
    ensures
        saves(actions(SessionView::start(keep_open, false, now).0, events)) == Seq::<
            SaveTarget,
        >::empty(),
    decreases events.len(),
{
    let start = SessionView::start(keep_open, false, now).0;
    if events.len() > 0 {
        law_no_output_no_screenshot(keep_open, now, events.drop_last());
        lemma_after_keeps(start, events.drop_last());
        assert(actions(start, events).drop_last() =~= actions(start, events.drop_last()));
    }
}

/// How far a session that runs once has come with its screenshot.
proof fn lemma_once(has_output: bool, now: u128, events: Seq<EventView>)
    requires
        legal(SessionView::start(false, has_output, now).0, events),
    ensures
        ({
            let start = SessionView::start(false, has_output, now).0;
            let taken = saves(actions(start, events));
            match after(start, events).phase {
                Phase::Saving => has_output && taken == seq![SaveTarget::Output],
                Phase::Over => match actions(start, events).last() {
                    ActionView::Finish => taken == if has_output {
                        seq![SaveTarget::Output]
                    } else {
                        Seq::empty()
                    },
                    ActionView::Fail(Failure::SaveScreenshot) => taken == seq![SaveTarget::Output],
                    ActionView::Fail(_) => taken == Seq::<SaveTarget>::empty(),
                    _ => false,
                },
                _ => taken == Seq::<SaveTarget>::empty(),
            }
        }),
    decreases events.len(),
{
    let start = SessionView::start(false, has_output, now).0;
    if events.len() > 0 {
        lemma_once(has_output, now, events.drop_last());
        lemma_after_keeps(start, events.drop_last());
        assert(actions(start, events).drop_last() =~= actions(start, events.drop_last()));
        assert(Seq::<SaveTarget>::empty().push(SaveTarget::Output) =~= seq![SaveTarget::Output]);
    }
}

/// A session that runs once and comes to a good end has saved one screenshot
/// where it has an output path, and none where it has not. One that breaks has
/// saved none, unless it broke on saving it.
pub proof fn law_once_saves_once(has_output: bool, now: u128, events: Seq<EventView>)
    requires
        legal(SessionView::start(false, has_output, now).0, events),
        events.len() > 0,
    ensures
        ({
            let given = actions(SessionView::start(false, has_output, now).0, events);
            &&& given.last() is Finish ==> saves(given) == if has_output {
                seq![SaveTarget::Output]
            } else {
                Seq::empty()
            }
            &&& given.last() matches ActionView::Fail(failure) ==> saves(given) == if failure
                == Failure::SaveScreenshot {
                seq![SaveTarget::Output]
            } else {
                Seq::empty()
            }
        }),
{
    lemma_once(has_output, now, events);
}

/// A session is over exactly when its last action was to finish or to fail, and
/// a session that is over waits for no event.
pub proof fn law_end_is_final(
    keep_open: bool,
    has_output: bool,
    now: u128,
    events: Seq<EventView>,
    event: EventView,
)
    requires
        events.len() > 0,
    ensures
        ({
            let start = SessionView::start(keep_open, has_output, now).0;
            let last = actions(start, events).last();
            let session = after(start, events);
            &&& last is Finish || last is Fail <==> session.phase == Phase::Over
            &&& session.phase == Phase::Over ==> !session.expects(event)
        }),
{
}

/// A session breaks only on what its driver could not do, and says on what.
pub proof fn law_failures_are_reported(session: SessionView, event: EventView)
    ensures
        session.step(event).1 matches ActionView::Fail(failure) ==> match failure {
            Failure::ReadFrame => event is ReadFailed,
            Failure::ProcessFrame => event is ProcessFailed,
            Failure::WriteResponse => event is WriteFailed,
            Failure::SaveScreenshot => event is SaveFailed,
        },
        event is ProcessFailed || event is WriteFailed || event is SaveFailed
            ==> session.step(event).1 is Fail,
{
}

/// A session that is interrupted ends at its next turn, with nothing more read,
/// written or saved from there.
pub proof fn law_interrupt_ends(session: SessionView, now: u128)
    ensures
        session.step(EventView::Turn { interrupted: true, now }).1 is Finish,
        session.step(EventView::Turn { interrupted: true, now }).0.phase == Phase::Over,
        session.step(EventView::Turn { interrupted: true, now }).0.saved == session.saved,
{
}

/// An interruption that comes during a read leaves the screenshot that is due
/// when that read ends in silence: it is saved, and then the session ends. Where
/// none is due, the session ends without one.
pub proof fn law_due_screenshot_survives_interruption(
    session: SessionView,
    error: ReadError,
    now: u128,
    done: u128,
    later: u128,
)
    requires
        session.mode == Mode::KeepOpen,
        session.phase == Phase::Reading,
        !(error is Other),
    ensures
        ({
            let silent = EventView::ReadFailed { error, now };
            let saved = EventView::Saved { now: done };
            let interrupted = EventView::Turn { interrupted: true, now: later };
            if session.has_output && session.save_due(now) {
                &&& legal(session, seq![silent, saved, interrupted])
                &&& actions(session, seq![silent, saved, interrupted]) == seq![
                    ActionView::Save(SaveTarget::Numbered((session.saved + 1) as u64)),
                    ActionView::Check,
                    ActionView::Finish,
                ]
            } else {
                &&& legal(session, seq![silent, interrupted])
                &&& actions(session, seq![silent, interrupted]) == seq![
                    ActionView::Check,
                    ActionView::Finish,
                ]
            }
        }),
{
    let silent = EventView::ReadFailed { error, now };
    let saved = EventView::Saved { now: done };
    let interrupted = EventView::Turn { interrupted: true, now: later };
    reveal_with_fuel(after, 4);
    reveal_with_fuel(legal, 4);
    reveal_with_fuel(actions, 4);
    assert(seq![silent].drop_last() =~= Seq::empty());
    assert(seq![silent, saved].drop_last() =~= seq![silent]);
    assert(seq![silent, saved, interrupted].drop_last() =~= seq![silent, saved]);
    assert(seq![silent, interrupted].drop_last() =~= seq![silent]);
}

/// A session that is kept open asks for a screenshot at every turn at which it
/// is not interrupted, and at every read that ends in silence, where it has an
/// output path and the last screenshot was done at least the interval ago. It
/// asks for none elsewhere.
pub proof fn law_screenshot_when_due(session: SessionView, event: EventView)
    requires
        session.mode == Mode::KeepOpen,
        session.expects(event),
    ensures
        session.step(event).1 is Save <==> session.has_output && match event {
            EventView::Turn { interrupted, now } => !interrupted && now - session.last_save
                >= SAVE_INTERVAL,
            EventView::ReadFailed { error, now } => !(error is Other) && now - session.last_save
                >= SAVE_INTERVAL,
            _ => false,
        },
{
}

/// A session that is kept open comes to a turn after every frame, however busy
/// the server is: when a frame is read, decoded and answered, the next action
/// is to look at the clock.
pub proof fn law_every_frame_leads_to_a_turn(session: SessionView, outputs: Seq<OutputView>)
    requires
        session.mode == Mode::KeepOpen,
        session.phase == Phase::Processing,
        !terminates(outputs),
    ensures
        ({
            let events = seq![EventView::Processed { outputs }] + written(replies_of(outputs).len());
            &&& legal(session, events)
            &&& actions(session, events).last() is Check
            &&& after(session, events).last_save == session.last_save
        }),
{
    law_replies_are_written_in_order(session, outputs);
}

/// What a screenshot is followed by: it is done at some time, and from then on
/// the session waits since that time or a later one.
proof fn lemma_waits_since(start: SessionView, events: Seq<EventView>, i: int, j: int)
    requires
        legal(start, events),
        start.mode == Mode::KeepOpen,
        clock_advances(events),
        0 <= i,
        i + 1 < j <= events.len(),
        actions(start, events)[i] is Save,
    ensures
        ({
            let session = after(start, events.take(j));
            ||| session.phase == Phase::Over
            ||| events[i + 1] matches EventView::Saved { now: done } && session.last_save >= done
        }),
    decreases j,
{
    lemma_prefix(start, events, i);
    lemma_after_keeps(start, events.take(i));
    lemma_prefix(start, events, j - 1);
    lemma_after_keeps(start, events.take(j - 1));
    if j > i + 2 {
        lemma_waits_since(start, events, i, j - 1);
        if let EventView::Saved { now: done } = events[i + 1] {
            assert(time_of(events[i + 1]) == Some(done));
            assert(time_of(events[j - 1]) is Some ==> done <= time_of(events[j - 1])->0);
        }
    }
}

/// From when a screenshot of a session that is kept open is done to when the
/// next one is asked for lies at least the interval, where the clock of the
/// driver never goes back.
pub proof fn law_screenshots_keep_their_distance(
    has_output: bool,
    now: u128,
    events: Seq<EventView>,
    i: int,
    j: int,
)
    requires
        legal(SessionView::start(true, has_output, now).0, events),
        clock_advances(events),
        0 <= i < j < events.len(),
        actions(SessionView::start(true, has_output, now).0, events)[i] is Save,
        actions(SessionView::start(true, has_output, now).0, events)[j] is Save,
    ensures
        i + 1 < j,
        events[i + 1] is Saved,
        time_of(events[j]) is Some,
        time_of(events[j])->0 - time_of(events[i + 1])->0 >= SAVE_INTERVAL,
{
    let start = SessionView::start(true, has_output, now).0;
    lemma_prefix(start, events, i);
    lemma_after_keeps(start, events.take(i));
    lemma_prefix(start, events, j);
    lemma_after_keeps(start, events.take(j));
    assert(i + 1 < j);
    lemma_waits_since(start, events, i, j);
}

/// Until the first screenshot is asked for, a session with an output path waits
/// since its start.
proof fn lemma_first_wait(now: u128, events: Seq<EventView>)
    requires
        legal(SessionView::start(true, true, now).0, events),
        forall|k: int|
            0 <= k < events.len() ==> !(#[trigger] actions(
                SessionView::start(true, true, now).0,
                events,
            )[k] is Save),
    ensures
        ({
            let session = after(SessionView::start(true, true, now).0, events);
            session.last_save == now && session.phase != Phase::Saving
        }),
    decreases events.len(),
{
    let start = SessionView::start(true, true, now).0;
    if events.len() > 0 {
        let earlier = events.drop_last();
        lemma_actions_len(start, events);
        lemma_actions_len(start, earlier);
        assert forall|k: int| 0 <= k < earlier.len() implies !(#[trigger] actions(
            start,
            earlier,
        )[k] is Save) by {
            assert(actions(start, events)[k] == actions(start, earlier)[k]);
        }
        lemma_first_wait(now, earlier);
        lemma_after_keeps(start, earlier);
        assert(!(actions(start, events)[events.len() - 1] is Save));
    }
}

/// The first screenshot of a session that is kept open is asked for no earlier
/// than the interval after its start.
pub proof fn law_first_screenshot_waits(
    has_output: bool,
    now: u128,
    events: Seq<EventView>,
    first: int,
)
    requires
        legal(SessionView::start(true, has_output, now).0, events),
        0 <= first < events.len(),
        actions(SessionView::start(true, has_output, now).0, events)[first] is Save,
        forall|k: int|
            0 <= k < first ==> !(#[trigger] actions(
                SessionView::start(true, has_output, now).0,
                events,
            )[k] is Save),
    ensures
        time_of(events[first]) is Some,
        time_of(events[first])->0 - now >= SAVE_INTERVAL,
{
    let start = SessionView::start(true, has_output, now).0;
    let earlier = events.take(first);
    lemma_prefix(start, events, first);
    lemma_after_keeps(start, earlier);
    lemma_actions_len(start, earlier);
    assert(has_output);
    assert forall|k: int| 0 <= k < earlier.len() implies !(#[trigger] actions(start, earlier)[k]
        is Save) by {
        lemma_prefix(start, events, k);
        lemma_prefix(start, earlier, k);
        assert(earlier.take(k) =~= events.take(k));
        assert(actions(start, earlier)[k] == actions(start, events)[k]);
    }
    lemma_first_wait(now, earlier);
}

/// The last time that was told, `start` where none was.
pub open spec fn last_time(start: u128, events: Seq<EventView>) -> u128
    decreases events.len(),
{
    if events.len() == 0 {
        start
    } else {
        match time_of(events.last()) {
            Some(now) => now,
            None => last_time(start, events.drop_last()),
        }
    }
}

/// The driver keeps up with the clock to within `delay`: the times that it tells
/// never go back, a turn or the end of a read comes no later than `delay` after
/// a screenshot falls due, and a screenshot is done no later than `delay` after
/// it was asked for.
pub open spec fn punctual(start: SessionView, events: Seq<EventView>, delay: nat) -> bool
    decreases events.len(),
{
    events.len() == 0 || {
        let session = after(start, events.drop_last());
        let before = last_time(start.last_save, events.drop_last());
        &&& punctual(start, events.drop_last(), delay)
        &&& match events.last() {
            EventView::Turn { now, .. } | EventView::ReadFailed { now, .. } => before <= now
                <= session.last_save + SAVE_INTERVAL + delay,
            EventView::Saved { now } => before <= now <= before + delay,
            _ => true,
        }
    }
}

/// How many screenshots of a session that is kept open are done.
spec fn done_of(session: SessionView) -> int {
    if session.phase == Phase::Saving {
        session.saved - 1
    } else {
        session.saved as int
    }
}

/// Where a session that is kept open stands against the clock.
spec fn on_time(session: SessionView, start: u128, now: u128, delay: nat) -> bool {
    let done = done_of(session);
    &&& done >= 0
    &&& done * SAVE_INTERVAL <= session.last_save - start <= done * (SAVE_INTERVAL + 2 * delay)
    &&& session.last_save <= now
    &&& if session.phase == Phase::Saving {
        SAVE_INTERVAL <= now - session.last_save <= SAVE_INTERVAL + delay
    } else {
        now - session.last_save < SAVE_INTERVAL
    }
}

/// A session that is kept open never falls behind the clock.
proof fn lemma_on_time(now: u128, events: Seq<EventView>, delay: nat)
    requires
        legal(SessionView::start(true, true, now).0, events),
        punctual(SessionView::start(true, true, now).0, events, delay),
        after(SessionView::start(true, true, now).0, events).phase != Phase::Over,
    ensures
        on_time(
            after(SessionView::start(true, true, now).0, events),
            now,
            last_time(now, events),
            delay,
        ),
    decreases events.len(),
{
    let start = SessionView::start(true, true, now).0;
    if events.len() == 0 {
        assert(0 * (SAVE_INTERVAL + 2 * delay) == 0);
    } else {
        let session = after(start, events.drop_last());
        lemma_after_keeps(start, events.drop_last());
        lemma_on_time(now, events.drop_last(), delay);
        if events.last() is Saved {
            let done = done_of(session);
            let longest = SAVE_INTERVAL + 2 * delay;
            assert((done + 1) * longest == done * longest + longest) by (nonlinear_arith);
        }
    }
}

/// A session that is kept open with an output path saves a screenshot every
/// interval, whatever the server sends: as long as it stays up, the number of
/// screenshots is the time that passed divided by the interval, but for the
/// delay with which its driver follows the clock. Without such a delay there is
/// one screenshot for each whole interval that passed.
pub proof fn law_screenshot_every_interval(now: u128, events: Seq<EventView>, delay: nat)
    requires
        legal(SessionView::start(true, true, now).0, events),
        punctual(SessionView::start(true, true, now).0, events, delay),
        after(SessionView::start(true, true, now).0, events).phase != Phase::Over,
    ensures
        ({
            let saved = after(SessionView::start(true, true, now).0, events).saved;
            let passed = last_time(now, events) - now;
            &&& saved * SAVE_INTERVAL <= passed < (saved + 1) * (SAVE_INTERVAL + 2 * delay)
            &&& delay == 0 ==> saved == passed / SAVE_INTERVAL as int
        }),
{
    let session = after(SessionView::start(true, true, now).0, events);
    let saved = session.saved as int;
    let passed = last_time(now, events) - now;
    let longest = SAVE_INTERVAL + 2 * delay;
    lemma_on_time(now, events, delay);
    assert((saved + 1) * longest == saved * longest + longest) by (nonlinear_arith);
    assert((saved - 1) * longest == saved * longest - longest) by (nonlinear_arith);
}

/// What the decoder asks for behind its request to end the session is ignored.
pub proof fn law_nothing_follows_termination(before: Seq<OutputView>, behind: Seq<OutputView>)
    requires
        terminates(before),
    ensures
        replies_of(before + behind) == replies_of(before),
        terminates(before + behind),
    decreases before.len(),
{
    let i = choose|i: int| 0 <= i < before.len() && #[trigger] before[i] is Terminate;
    assert((before + behind)[i] is Terminate);
    assert((before + behind).drop_first() =~= before.drop_first() + behind);
    if !(before[0] is Terminate) {
        assert(before.drop_first()[i - 1] is Terminate);
        law_nothing_follows_termination(before.drop_first(), behind);
    }
}

/// Without such a request every frame that the decoder asks to send is sent,
/// in its order.
pub proof fn law_every_reply_is_sent(before: Seq<OutputView>, behind: Seq<OutputView>)
    requires
        !terminates(before),
    ensures
        replies_of(before + behind) == replies_of(before) + replies_of(behind),
        terminates(before + behind) == terminates(behind),
    decreases before.len(),
{
    let all = before + behind;
    if terminates(behind) {
        let i = choose|i: int| 0 <= i < behind.len() && #[trigger] behind[i] is Terminate;
        assert(all[before.len() + i] is Terminate);
    }
    if terminates(all) {
        let i = choose|i: int| 0 <= i < all.len() && #[trigger] all[i] is Terminate;
        assert(i >= before.len()) by {
            if i < before.len() {
                assert(before[i] is Terminate);
            }
        }
        assert(behind[i - before.len()] is Terminate);
    }
    if before.len() == 0 {
        assert(all =~= behind);
        assert(replies_of(before) + replies_of(behind) =~= replies_of(behind));
    } else {
        assert(!(before[0] is Terminate));
        assert(all.drop_first() =~= before.drop_first() + behind);
        assert(!terminates(before.drop_first())) by {
            if terminates(before.drop_first()) {
                let i = choose|i: int|
                    0 <= i < before.drop_first().len() && #[trigger] before.drop_first()[i]
                        is Terminate;
                assert(before[i + 1] is Terminate);
            }
        }
        law_every_reply_is_sent(before.drop_first(), behind);
        assert(replies_of(all) =~= replies_of(before) + replies_of(behind));
    }
}

/// The events of a driver that writes so many replies.
pub open spec fn written(count: nat) -> Seq<EventView> {
    Seq::new(count, |i: int| EventView::Written)
}

/// The actions that write these replies.
pub open spec fn writes(replies: Seq<Seq<u8>>) -> Seq<ActionView> {
    replies.map_values(|reply: Seq<u8>| ActionView::Write(reply))
}

/// Where a session is when it has given out so many of the replies to a frame.
proof fn lemma_replying(session: SessionView, outputs: Seq<OutputView>, sent: nat)
    requires
        session.phase == Phase::Processing,
        sent <= replies_of(outputs).len(),
    ensures
        ({
            let events = seq![EventView::Processed { outputs }] + written(sent);
            let replies = replies_of(outputs);
            let told = SessionView { replies, closing: terminates(outputs), ..session };
            &&& legal(session, events)
            &&& after(session, events) == SessionView {
                replies: replies.skip(sent as int),
                ..told
            }.reply().0
            &&& actions(session, events) == writes(replies.take(sent as int)).push(
                SessionView { replies: replies.skip(sent as int), ..told }.reply().1,
            )
        }),
    decreases sent,
{
    let events = seq![EventView::Processed { outputs }] + written(sent);
    let replies = replies_of(outputs);
    reveal_with_fuel(after, 2);
    reveal_with_fuel(legal, 2);
    reveal_with_fuel(actions, 2);
    if sent == 0 {
        assert(events.drop_last() =~= Seq::empty());
        assert(replies.skip(0) =~= replies);
        assert(writes(replies.take(0)) =~= Seq::empty());
    } else {
        let earlier = (sent - 1) as nat;
        lemma_replying(session, outputs, earlier);
        assert(events.drop_last() =~= seq![EventView::Processed { outputs }] + written(earlier));
        assert(events.last() is Written);
        assert(replies.skip(earlier as int).drop_first() =~= replies.skip(sent as int));
        assert(writes(replies.take(sent as int)) =~= writes(replies.take(earlier as int)).push(
            ActionView::Write(replies[earlier as int]),
        ));
    }
}

/// The frames that the decoder asks to send after a frame are written one by
/// one, in order and unchanged. When the last of them is written, the session
/// ends where the decoder asked for it, and waits for the next frame elsewhere.
pub proof fn law_replies_are_written_in_order(session: SessionView, outputs: Seq<OutputView>)
    requires
        session.phase == Phase::Processing,
    ensures
        ({
            let events = seq![EventView::Processed { outputs }] + written(replies_of(outputs).len());
            let ending = SessionView {
                replies: Seq::empty(),
                closing: terminates(outputs),
                ..session
            };
            let next = if terminates(outputs) {
                ending.close()
            } else {
                ending.turn()
            };
            &&& legal(session, events)
            &&& actions(session, events) == writes(replies_of(outputs)).push(next.1)
            &&& after(session, events) == next.0
        }),
{
    let replies = replies_of(outputs);
    lemma_replying(session, outputs, replies.len());
    assert(replies.skip(replies.len() as int) =~= Seq::empty());
    assert(replies.take(replies.len() as int) =~= replies);
}

} // verus!
