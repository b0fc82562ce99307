//! What the supervisor of the player connection decides, and what the
//! reconnect budget hands out, stated directly over attempts and times.
use vstd::prelude::*;

use crate::player::{spec_handles_event, spec_routes, Link, LinkEvent, PlayerCommand, PlayerError, PlayerUpdate, Route, Supervisor};
use crate::reconnect::spec_next_delay;

verus! {

/// The attempts among `attempts` that were made less than ten minutes
/// before `now` (or after it), in order.
pub open spec fn recent(attempts: Seq<u64>, now: u64) -> Seq<u64> {
    attempts.filter(|at: u64| at > now || now - at < 600_000)
}

/// The wait before the automatic attempt that follows `earlier` recent
/// attempts: one, five, fifteen, thirty seconds, then a minute.
pub open spec fn backoff_ms(earlier: nat) -> u64 {
    if earlier == 0 {
        1_000
    } else if earlier == 1 {
        5_000
    } else if earlier == 2 {
        15_000
    } else if earlier == 3 {
        30_000
    } else {
        60_000
    }
}

/// The automatic step after a failure or a drop, at `now`: while fewer than
/// five attempts are recent, wait the backoff and count one more attempt at
/// `now`, reporting nothing; otherwise give up and report the loss.
pub open spec fn retries(before: Supervisor, now: u64, after: Supervisor, updates: Seq<PlayerUpdate>) -> bool {
    let kept = recent(before.reconnector@, now);
    if kept.len() < 5 {
        &&& after.link == (Link::Waiting { delay_ms: backoff_ms(kept.len()) })
        &&& after.reconnector@ == kept.push(now)
        &&& updates.len() == 0
    } else {
        &&& after.link == Link::Down
        &&& after.reconnector@ == kept
        &&& updates == seq![PlayerUpdate::ConnectionLost(None)]
    }
}

proof fn lemma_same_window(attempts: Seq<u64>, now: u64)
    ensures
        crate::reconnect::spec_kept(attempts, now) == recent(attempts, now),
{
    assert(crate::reconnect::in_window_at(now) =~= (|at: u64| at > now || now - at < 600_000));
}

/// A failed attempt that the user did not ask for, for any reason but
/// missing credentials, is retried with backoff while fewer than five
/// attempts are recent, and only then given up.
pub proof fn lemma_failed_automatic_attempts_are_retried(
    before: Supervisor,
    error: PlayerError,
    now: u64,
    after: Supervisor,
    stop: bool,
    updates: Seq<PlayerUpdate>,
)
    requires
        !(error is NoCredentials),
        spec_handles_event(before, LinkEvent::AttemptFinished { result: Err(error), manual: false }, now, after, stop, updates),
    ensures
        !stop,
        retries(before, now, after, updates),
{
    lemma_same_window(before.reconnector@, now);
}

/// A failed attempt that the user asked for, or one that found no
/// credentials, gives up at once: the link goes down, the budget is kept, and
/// the loss is reported with the error's text.
pub proof fn lemma_hopeless_failures_give_up(
    before: Supervisor,
    error: PlayerError,
    manual: bool,
    now: u64,
    after: Supervisor,
    stop: bool,
    updates: Seq<PlayerUpdate>,
)
    requires
        manual || error is NoCredentials,
        spec_handles_event(before, LinkEvent::AttemptFinished { result: Err(error), manual }, now, after, stop, updates),
    ensures
        !stop,
        after.link == Link::Down,
        after.reconnector@ == before.reconnector@,
        updates.len() == 1,
        updates[0] matches PlayerUpdate::ConnectionLost(Some(text)) && text@ == error_text(error),
{
}

/// The text reported for each error.
pub open spec fn error_text(error: PlayerError) -> Seq<char> {
    match error {
        PlayerError::NoBackend => "no audio backend available"@,
        PlayerError::NoMixer => "no mixer available"@,
        PlayerError::Mixer(cause) => "could not create mixer: "@ + cause@,
        PlayerError::Spirc(cause) => "could not start spotify connect device: "@ + cause@,
        PlayerError::NoCredentials => "no cached credentials; restart lightify to log in again"@,
        PlayerError::Timeout => "connection attempt timed out"@,
    }
}

/// A connection that dies while the device still runs stops the player,
/// reports the drop and waits for the device to clean up, keeping the
/// budget; when the device already stopped, or the connection was not up,
/// it reports the drop and goes straight to the automatic step.
pub proof fn lemma_dead_connections(
    before: Supervisor,
    task_finished: bool,
    now: u64,
    after: Supervisor,
    stop: bool,
    updates: Seq<PlayerUpdate>,
)
    requires
        spec_handles_event(before, LinkEvent::ConnectionDead { task_finished }, now, after, stop, updates),
    ensures
        stop,
        updates.len() >= 1,
        updates[0] == PlayerUpdate::Disconnected,
        before.link == Link::Up && !task_finished ==> {
            &&& after.link == Link::Draining
            &&& after.reconnector@ == before.reconnector@
            &&& updates == seq![PlayerUpdate::Disconnected]
        },
        !(before.link == Link::Up && !task_finished) ==> retries(before, now, after, updates.drop_first()),
{
    lemma_same_window(before.reconnector@, now);
    if !(before.link == Link::Up && !task_finished) {
        let rest = crate::player::spec_retry_updates(before.reconnector@, now);
        assert(updates == seq![PlayerUpdate::Disconnected] + rest);
        assert(updates.drop_first() =~= rest);
    }
}

/// Once the old device is gone (in time or not), the automatic step runs
/// without stopping the player again; when the wait is over, an automatic
/// attempt starts with the budget and nothing reported.
pub proof fn lemma_draining_and_waiting(
    before: Supervisor,
    event: LinkEvent,
    now: u64,
    after: Supervisor,
    stop: bool,
    updates: Seq<PlayerUpdate>,
)
    requires
        event is Drained || event is RetryDue,
        spec_handles_event(before, event, now, after, stop, updates),
    ensures
        !stop,
        event is Drained ==> retries(before, now, after, updates),
        event is RetryDue ==> {
            &&& after.link == (Link::Connecting { manual: false })
            &&& after.reconnector@ == before.reconnector@
            &&& updates.len() == 0
        },
{
    lemma_same_window(before.reconnector@, now);
}

/// Commands reach the device only while connected and are dropped
/// otherwise; a reconnect request starts a manual attempt while waiting or
/// down and is ignored otherwise. Only a started attempt changes the link.
pub proof fn lemma_commands_by_link(before: Link, command: PlayerCommand, after: Link, route: Route)
    requires
        spec_routes(before, command, after, route),
    ensures
        !(command is Reconnect) ==> after == before,
        !(command is Reconnect) && before == Link::Up ==> route == Route::Forward(command),
        !(command is Reconnect) && before != Link::Up ==> route == Route::Dropped(command),
        command is Reconnect && (before is Waiting || before is Down) ==> {
            &&& route == Route::StartAttempt
            &&& after == (Link::Connecting { manual: true })
        },
        command is Reconnect && !(before is Waiting || before is Down) ==> route == Route::Ignored && after == before,
{
}

/// One call of the budget at `now` drops the attempts older than ten
/// minutes; while fewer than five remain it hands out the backoff and
/// counts `now`, and otherwise it hands out nothing and counts nothing.
pub proof fn lemma_budget_step(before: Seq<u64>, now: u64, delay: Option<u64>, after: Seq<u64>)
    requires
        spec_next_delay(before, now, delay, after),
    ensures
        recent(before, now).len() < 5 ==> delay == Some(backoff_ms(recent(before, now).len()))
            && after == recent(before, now).push(now),
        recent(before, now).len() >= 5 ==> delay is None && after == recent(before, now),
{
    lemma_same_window(before, now);
}

} // verus!
