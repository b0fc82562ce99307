//! Properties of the library that span calls or hold of every state.
use std::time::Instant;

use vstd::prelude::*;

use crate::action::Action;
use crate::app::{
    answer_generation, spec_applied, spec_applied_at, spec_position_reading, focused_index, focused_len, is_motion, spec_is_showing, spec_moved, spec_push_digit, spec_row,
    spec_input_fails, spec_update, spec_update_action, spec_update_message, App, ConnectionStatus, Effect, Focus, Input,
    LibraryRequest, NowPlaying, Playback, SEEK_STEP_MS,
};
use crate::message::Message;
use crate::model::PAGE_SIZE;
use crate::player::{
    spec_handles_event, spec_routes, Link, DEFAULT_VOLUME, LinkEvent, PlayerCommand, PlayerError, PlayerUpdate, Route,
    Supervisor,
};
use crate::reconnect::{
    in_window_at, spec_delay_ms, spec_in_window, spec_kept, spec_next_delay, MAX_ATTEMPTS, WINDOW_MS,
};

verus! {

// ---------------------------------------------------------------------------
// The reconnect budget
// ---------------------------------------------------------------------------

/// Each further attempt within the window waits longer than the one before.
pub proof fn lemma_delays_increase(earlier: nat, later: nat)
    requires
        earlier < later < MAX_ATTEMPTS,
    ensures
        spec_delay_ms(earlier) < spec_delay_ms(later),
{
}

/// An attempt counts against the budget at the instant it is made, so attempts
/// made at one instant use up the budget one by one.
pub proof fn lemma_attempt_counts_at_once(attempts: Seq<u64>, now: u64)
    ensures
        spec_kept(spec_kept(attempts, now).push(now), now) == spec_kept(attempts, now).push(now),
{
    let kept = spec_kept(attempts, now);
    lemma_kept_twice(attempts, now);
    kept.lemma_filter_push(now, in_window_at(now));
}

/// Filtering the recent attempts again keeps them all.
pub proof fn lemma_kept_twice(attempts: Seq<u64>, now: u64)
    ensures
        spec_kept(spec_kept(attempts, now), now) == spec_kept(attempts, now),
    decreases attempts.len(),
{
    reveal(Seq::filter);
    if attempts.len() > 0 {
        let rest = attempts.drop_last();
        lemma_kept_twice(rest, now);
        if spec_in_window(now, attempts.last()) {
            spec_kept(rest, now).lemma_filter_push(attempts.last(), in_window_at(now));
        }
    }
}

/// Once every attempt lies a whole window or more in the past, the whole
/// budget is available again: none of them counts.
pub proof fn lemma_budget_returns(attempts: Seq<u64>, now: u64)
    requires
        forall|i: int| 0 <= i < attempts.len() ==> attempts[i] + WINDOW_MS <= now,
    ensures
        spec_kept(attempts, now).len() == 0,
    decreases attempts.len(),
{
    reveal(Seq::filter);
    if attempts.len() > 0 {
        lemma_budget_returns(attempts.drop_last(), now);
    }
}

/// After a reset, the next attempt is the first of a fresh budget: it waits one second.
pub proof fn lemma_fresh_budget(now: u64)
    ensures
        spec_kept(Seq::<u64>::empty(), now).len() == 0,
        spec_delay_ms(spec_kept(Seq::<u64>::empty(), now).len()) == 1_000,
{
    reveal(Seq::filter);
}

/// A run of calls of `next_delay` on one budget that starts empty, fresh or
/// just reset: call `i` is made when the clock reads `nows[i]`, finds the
/// attempts `budgets[i]` and answers `delays[i]`.
pub open spec fn spec_retries(budgets: Seq<Seq<u64>>, nows: Seq<u64>, delays: Seq<Option<u64>>) -> bool {
    &&& budgets.len() == nows.len() + 1
    &&& delays.len() == nows.len()
    &&& budgets[0].len() == 0
    &&& forall|i: int|
        #![trigger nows[i]]
        0 <= i < nows.len() ==> spec_next_delay(budgets[i], nows[i], delays[i], budgets[i + 1])
}

/// The clock never goes back from one call to a later one.
pub open spec fn spec_monotonic(nows: Seq<u64>) -> bool {
    forall|i: int, j: int| 0 <= i <= j < nows.len() ==> nows[i] <= nows[j]
}

/// When the calls among the first `k` that handed out a delay were made,
/// in order.
pub open spec fn spec_granted(nows: Seq<u64>, delays: Seq<Option<u64>>, k: int) -> Seq<u64>
    decreases k,
{
    if k <= 0 {
        Seq::empty()
    } else {
        let earlier = spec_granted(nows, delays, k - 1);
        if delays[k - 1] is Some {
            earlier.push(nows[k - 1])
        } else {
            earlier
        }
    }
}

/// The instants of the window of `WINDOW_MS` that opens at `start`.
pub open spec fn in_span_from(start: u64) -> spec_fn(u64) -> bool {
    |at: u64| start <= at && at < start + WINDOW_MS
}

proof fn lemma_granted_below(nows: Seq<u64>, delays: Seq<Option<u64>>, k: int, bound: u64)
    requires
        forall|i: int| 0 <= i < k ==> #[trigger] nows[i] <= bound,
    ensures
        forall|j: int|
            0 <= j < spec_granted(nows, delays, k).len() ==> #[trigger] spec_granted(nows, delays, k)[j] <= bound,
    decreases k,
{
    if k > 0 {
        lemma_granted_below(nows, delays, k - 1, bound);
        assert(nows[k - 1] <= bound);
        let earlier = spec_granted(nows, delays, k - 1);
        assert forall|j: int| 0 <= j < spec_granted(nows, delays, k).len() implies #[trigger] spec_granted(
            nows,
            delays,
            k,
        )[j] <= bound by {
            if j < earlier.len() {
                assert(earlier[j] <= bound);
            }
        }
    }
}

proof fn lemma_kept_later(attempts: Seq<u64>, earlier: u64, later: u64)
    requires
        earlier <= later,
        forall|j: int| 0 <= j < attempts.len() ==> #[trigger] attempts[j] <= earlier,
    ensures
        spec_kept(spec_kept(attempts, earlier), later) == spec_kept(attempts, later),
    decreases attempts.len(),
{
    reveal(Seq::filter);
    if attempts.len() > 0 {
        let rest = attempts.drop_last();
        lemma_kept_later(rest, earlier, later);
        if spec_in_window(earlier, attempts.last()) {
            spec_kept(rest, earlier).lemma_filter_push(attempts.last(), in_window_at(later));
        }
    }
}

proof fn lemma_filter_narrower(s: Seq<u64>, p: spec_fn(u64) -> bool, q: spec_fn(u64) -> bool)
    requires
        forall|j: int| 0 <= j < s.len() && #[trigger] p(s[j]) ==> q(s[j]),
    ensures
        s.filter(p).len() <= s.filter(q).len(),
    decreases s.len(),
{
    reveal(Seq::filter);
    if s.len() > 0 {
        let rest = s.drop_last();
        assert forall|j: int| 0 <= j < rest.len() && #[trigger] p(rest[j]) implies q(rest[j]) by {
            assert(rest[j] == s[j]);
        }
        lemma_filter_narrower(rest, p, q);
    }
}

/// Over a run of calls on one budget with a clock that never goes back,
/// each call counts exactly the delays handed out earlier in the run that
/// are still in the window: it hands out the wait for one more while fewer
/// than `MAX_ATTEMPTS` count, and nothing otherwise (and a call that hands
/// out nothing counts against nothing later). No wait is longer than a
/// minute.
pub proof fn lemma_budget_over_a_run(budgets: Seq<Seq<u64>>, nows: Seq<u64>, delays: Seq<Option<u64>>, k: int)
    requires
        spec_retries(budgets, nows, delays),
        spec_monotonic(nows),
        0 <= k < nows.len(),
    ensures
        spec_kept(budgets[k], nows[k]) == spec_kept(spec_granted(nows, delays, k), nows[k]),
        spec_kept(spec_granted(nows, delays, k), nows[k]).len() >= MAX_ATTEMPTS ==> delays[k] is None,
        spec_kept(spec_granted(nows, delays, k), nows[k]).len() < MAX_ATTEMPTS ==> delays[k] == Some(
            spec_delay_ms(spec_kept(spec_granted(nows, delays, k), nows[k]).len()),
        ),
        delays[k] matches Some(d) ==> d <= 60_000,
    decreases k,
{
    reveal(Seq::filter);
    let granted = spec_granted(nows, delays, k);
    if k == 0 {
        assert(budgets[0] =~= Seq::<u64>::empty());
    } else {
        let n = nows[k - 1];
        lemma_budget_over_a_run(budgets, nows, delays, k - 1);
        let earlier = spec_granted(nows, delays, k - 1);
        assert(spec_next_delay(budgets[k - 1], nows[k - 1], delays[k - 1], budgets[k]));
        if delays[k - 1] is Some {
            earlier.lemma_filter_push(n, in_window_at(n));
        }
        assert(budgets[k] == spec_kept(granted, n));
        assert forall|i: int| 0 <= i < k implies #[trigger] nows[i] <= n by {
            assert(nows[i] <= nows[k - 1]);
        }
        lemma_granted_below(nows, delays, k, n);
        lemma_kept_later(granted, n, nows[k]);
    }
    assert(spec_next_delay(budgets[k], nows[k], delays[k], budgets[k + 1]));
}

proof fn lemma_granted_in_a_window(
    budgets: Seq<Seq<u64>>,
    nows: Seq<u64>,
    delays: Seq<Option<u64>>,
    start: u64,
    k: int,
)
    requires
        spec_retries(budgets, nows, delays),
        spec_monotonic(nows),
        0 <= k <= nows.len(),
    ensures
        spec_granted(nows, delays, k).filter(in_span_from(start)).len() <= MAX_ATTEMPTS,
    decreases k,
{
    if k > 0 {
        let n = nows[k - 1];
        let span = in_span_from(start);
        lemma_granted_in_a_window(budgets, nows, delays, start, k - 1);
        lemma_budget_over_a_run(budgets, nows, delays, k - 1);
        let earlier = spec_granted(nows, delays, k - 1);
        let granted = spec_granted(nows, delays, k);
        if delays[k - 1] is Some {
            earlier.lemma_filter_push(n, span);
            if span(n) {
                assert forall|i: int| 0 <= i < k implies #[trigger] nows[i] <= n by {
                    assert(nows[i] <= nows[k - 1]);
                }
                lemma_granted_below(nows, delays, k, n);
                assert forall|j: int| 0 <= j < granted.len() && #[trigger] span(granted[j]) implies in_window_at(n)(
                    granted[j],
                ) by {
                    assert(granted[j] <= n);
                }
                lemma_filter_narrower(granted, span, in_window_at(n));
                earlier.lemma_filter_push(n, in_window_at(n));
            }
        }
    }
}

/// With a clock that never goes back, at most `MAX_ATTEMPTS` of the calls
/// made within any window of `WINDOW_MS` hand out a delay.
pub proof fn lemma_at_most_a_budget_per_window(
    budgets: Seq<Seq<u64>>,
    nows: Seq<u64>,
    delays: Seq<Option<u64>>,
    start: u64,
)
    requires
        spec_retries(budgets, nows, delays),
        spec_monotonic(nows),
    ensures
        spec_granted(nows, delays, nows.len() as int).filter(in_span_from(start)).len() <= MAX_ATTEMPTS,
{
    lemma_granted_in_a_window(budgets, nows, delays, start, nows.len() as int);
}

// ---------------------------------------------------------------------------
// Keeping the player connected
// ---------------------------------------------------------------------------

/// Whenever the supervisor stops trying (it ends up down from any other
/// link), the application is told that the connection is lost.
pub proof fn lemma_giving_up_is_announced(
    before: Supervisor,
    event: LinkEvent,
    now: u64,
    after: Supervisor,
    stop: bool,
    updates: Seq<PlayerUpdate>,
)
    requires
        spec_handles_event(before, event, now, after, stop, updates),
        after.link == Link::Down,
    ensures
        exists|i: int| 0 <= i < updates.len() && updates[i] is ConnectionLost,
{
    let lost = updates.len() - 1;
    assert(updates[lost] is ConnectionLost);
}

/// The loss of the connection is reported only when the supervisor stops
/// trying: whenever an update says so, the link ends up down.
pub proof fn lemma_loss_is_reported_only_when_down(
    before: Supervisor,
    event: LinkEvent,
    now: u64,
    after: Supervisor,
    stop: bool,
    updates: Seq<PlayerUpdate>,
    i: int,
)
    requires
        spec_handles_event(before, event, now, after, stop, updates),
        0 <= i < updates.len(),
        updates[i] is ConnectionLost,
    ensures
        after.link == Link::Down,
{
}

/// A failed attempt that the user asked for is never retried automatically.
pub proof fn lemma_manual_failures_are_final(
    before: Supervisor,
    error: PlayerError,
    now: u64,
    after: Supervisor,
    stop: bool,
    updates: Seq<PlayerUpdate>,
)
    requires
        spec_handles_event(
            before,
            LinkEvent::AttemptFinished { result: Err(error), manual: true },
            now,
            after,
            stop,
            updates,
        ),
    ensures
        after.link == Link::Down,
        updates.len() == 1,
        updates[0] is ConnectionLost,
{
}

/// A connection that comes back restores the whole budget and is announced.
pub proof fn lemma_success_restores_budget(
    before: Supervisor,
    manual: bool,
    now: u64,
    after: Supervisor,
    stop: bool,
    updates: Seq<PlayerUpdate>,
)
    requires
        spec_handles_event(
            before,
            LinkEvent::AttemptFinished { result: Ok(()), manual },
            now,
            after,
            stop,
            updates,
        ),
    ensures
        after.link == Link::Up,
        after.reconnector@.len() == 0,
        updates == seq![PlayerUpdate::Reconnected],
{
}

/// A manual reconnect starts an attempt exactly when the supervisor is
/// waiting or down; otherwise nothing changes.
pub proof fn lemma_reconnect_only_when_idle(before: Link, after: Link, route: Route)
    requires
        spec_routes(before, PlayerCommand::Reconnect, after, route),
    ensures
        (route == Route::StartAttempt) == (before is Waiting || before is Down),
        route != Route::StartAttempt ==> after == before,
{
}

// ---------------------------------------------------------------------------
// The application
// ---------------------------------------------------------------------------

/// A motion in a non-empty list always leaves a row of the list selected.
pub proof fn lemma_motion_stays_in_list(index: Option<usize>, len: usize, delta: int, row: usize)
    requires
        len > 0,
    ensures
        spec_moved(index, len, delta) matches Some(i) && i < len,
        spec_row(index, len, row) matches Some(i) && i < len,
{
}

/// After a motion, the focused list's cursor is on one of its rows, whenever
/// the list has rows.
pub proof fn lemma_motion_keeps_cursor_on_a_row(before: App, action: Action, after: App, effects: Seq<Effect>)
    requires
        is_motion(action),
        focused_len(before) > 0,
        spec_update_action(before, action, after, effects),
    ensures
        focused_index(after) matches Some(i) && i < focused_len(after),
{
}

/// A request for more track details asks for the uris right after the
/// loaded tracks, at least one and at most a page, of the shown source.
pub proof fn lemma_page_requests_are_bounded(before: App, action: Action, after: App, effects: Seq<Effect>)
    requires
        spec_update_action(before, action, after, effects),
        effects.len() > 0,
        effects[0] matches Effect::Api(LibraryRequest::MoreTracks { .. }),
    ensures
        effects[0] matches Effect::Api(LibraryRequest::MoreTracks { source, uris }) && {
            &&& 0 < uris@.len() <= PAGE_SIZE
            &&& uris@ == before.track_uris@.subrange(
                before.tracks@.len() as int,
                (before.tracks@.len() + uris@.len()) as int,
            )
            &&& before.tracks_for == Some(source)
        },
        after.loading_more,
{
}

/// Motions in an empty list keep the selection as it is.
pub proof fn lemma_motion_in_empty_list(index: Option<usize>, delta: int, row: usize)
    ensures
        spec_moved(index, 0, delta) == index,
        spec_row(index, 0, row) == index,
{
}

/// Going to the top selects the first row, and going to the bottom without a
/// count the last one (for any list whose rows are numbered within `isize`).
pub proof fn lemma_top_and_bottom(index: Option<usize>, len: usize)
    requires
        0 < len <= isize::MAX,
        index matches Some(i) ==> i < len,
    ensures
        spec_moved(index, len, isize::MIN as int) == Some(0usize),
        spec_moved(index, len, isize::MAX as int) == Some((len - 1) as usize),
{
}

/// Every action but a digit clears the pending count.
pub proof fn lemma_actions_consume_the_count(before: App, action: Action, after: App, effects: Seq<Effect>)
    requires
        spec_update_action(before, action, after, effects),
        !(action is Digit),
    ensures
        after.pending_count is None,
{
}

/// A leading zero starts no count, and digits build the count in decimal
/// while it fits.
pub proof fn lemma_digits_build_a_count(count: usize, digit: u8)
    requires
        count * 10 + digit <= usize::MAX,
    ensures
        spec_push_digit(None, 0) is None,
        spec_push_digit(Some(count), digit) == Some((count * 10 + digit) as usize),
{
}

/// While a further page is being loaded, no motion asks for another one.
pub proof fn lemma_one_page_at_a_time(before: App, action: Action, after: App, effects: Seq<Effect>)
    requires
        before.loading_more,
        is_motion(action),
        spec_update_action(before, action, after, effects),
    ensures
        effects.len() == 0,
        after.loading_more,
{
}

/// An answer from the library that was asked on an earlier connection
/// changes nothing and asks for nothing.
pub proof fn lemma_stale_answers_are_ignored(before: App, message: Message, after: App, effects: Seq<Effect>)
    requires
        answer_generation(message) matches Some(g) && g != before.library_generation,
        spec_update_message(before, message, after, effects),
    ensures
        after == before,
        effects.len() == 0,
{
}

/// A dropped connection makes every answer asked on it stale, and forgets a
/// pending page request.
pub proof fn lemma_disconnect_starts_a_generation(before: App, after: App, effects: Seq<Effect>)
    requires
        before.library_generation < u64::MAX,
        spec_update_message(before, Message::Player(PlayerUpdate::Disconnected), after, effects),
    ensures
        after.library_generation == before.library_generation + 1,
        !after.loading_more,
        after.connection == ConnectionStatus::Reconnecting,
        after.playback.track is None,
        after.playback.position_at is None,
{
}

/// While the connection is down, library errors leave the status line (and
/// its reconnect instructions) alone.
pub proof fn lemma_errors_keep_reconnect_instructions(
    before: App,
    message: Message,
    after: App,
    effects: Seq<Effect>,
)
    requires
        before.connection != ConnectionStatus::Connected,
        match message {
            Message::Playlists { result: Err(_), .. } => true,
            Message::Tracks { result: Err(_), .. } => true,
            Message::MoreTracks { result: Err(_), .. } => true,
            _ => false,
        },
        spec_update_message(before, message, after, effects),
    ensures
        after.status == before.status,
        effects.len() == 0,
{
}

/// Tracks that arrive for a source that is no longer shown are ignored.
pub proof fn lemma_tracks_for_other_sources_are_ignored(
    before: App,
    message: Message,
    after: App,
    effects: Seq<Effect>,
)
    requires
        match message {
            Message::Tracks { source, .. } => !spec_is_showing(before, source),
            Message::MoreTracks { source, .. } => !spec_is_showing(before, source),
            _ => false,
        },
        spec_update_message(before, message, after, effects),
    ensures
        after == before,
        effects.len() == 0,
{
}

/// Selecting a playlist while the connection is down does nothing.
pub proof fn lemma_no_selection_while_down(before: App, after: App, effects: Seq<Effect>)
    requires
        before.focus == Focus::Sidebar,
        before.connection != ConnectionStatus::Connected,
        spec_update_action(before, Action::Select, after, effects),
    ensures
        after == (App { pending_count: None, ..before }),
        effects.len() == 0,
{
}

/// Refreshing asks for the playlists while connected, for one reconnect
/// while the connection is lost, and for nothing while reconnecting.
pub proof fn lemma_refresh_by_connection(before: App, after: App, effects: Seq<Effect>)
    requires
        spec_update_action(before, Action::Refresh, after, effects),
    ensures
        before.connection == ConnectionStatus::Connected ==> effects == seq![Effect::Api(LibraryRequest::Playlists)],
        before.connection == ConnectionStatus::Lost ==> {
            &&& effects == seq![Effect::Player(PlayerCommand::Reconnect)]
            &&& after.connection == ConnectionStatus::Reconnecting
        },
        before.connection == ConnectionStatus::Reconnecting ==> effects.len() == 0,
{
}

/// While paused, the position shown is exactly the one reported, and a seek
/// moves it by one step.
pub proof fn lemma_paused_position_is_frozen(before: App, after: App, effects: Seq<Effect>)
    requires
        before.playback.position_at is None,
        spec_update_action(before, Action::SeekForward, after, effects),
    ensures
        effects == seq![Effect::Player(PlayerCommand::Seek(before.playback.position_ms.saturating_add(SEEK_STEP_MS)))],
{
    assert(effects[0] matches Effect::Player(PlayerCommand::Seek(t)) && t == before.playback.position_ms.saturating_add(SEEK_STEP_MS));
    assert(effects =~= seq![Effect::Player(PlayerCommand::Seek(before.playback.position_ms.saturating_add(SEEK_STEP_MS)))]);
}


/// A run of the application: each input can be handled in its state, and
/// `states[i + 1]` and `effects[i]` are what an update makes of `states[i]`
/// and `inputs[i]`.
pub open spec fn spec_run(states: Seq<App>, inputs: Seq<Input>, effects: Seq<Seq<Effect>>) -> bool {
    &&& states.len() == inputs.len() + 1
    &&& effects.len() == inputs.len()
    &&& forall|i: int|
        #![trigger inputs[i]]
        0 <= i < inputs.len() ==> {
            &&& !spec_input_fails(states[i], inputs[i])
            &&& spec_update(states[i], inputs[i], states[i + 1], effects[i])
        }
}

/// No update lowers the generation of library answers.
pub proof fn lemma_generation_never_decreases(before: App, input: Input, after: App, effects: Seq<Effect>)
    requires
        !spec_input_fails(before, input),
        spec_update(before, input, after, effects),
    ensures
        before.library_generation <= after.library_generation,
{
}

/// Over a run the generation never goes back, so an answer that is stale in
/// one state stays stale: every later state ignores it.
pub proof fn lemma_stale_stays_stale(
    states: Seq<App>,
    inputs: Seq<Input>,
    effects: Seq<Seq<Effect>>,
    message: Message,
    i: int,
    j: int,
)
    requires
        spec_run(states, inputs, effects),
        0 <= i <= j < states.len(),
    ensures
        states[i].library_generation <= states[j].library_generation,
        answer_generation(message) matches Some(g) && g < states[i].library_generation ==> forall|after: App, e: Seq<Effect>|
            #[trigger] spec_update_message(states[j], message, after, e) ==> after == states[j] && e.len() == 0,
    decreases j - i,
{
    if i < j {
        lemma_stale_stays_stale(states, inputs, effects, message, i, j - 1);
        assert(spec_update(states[j - 1], inputs[j - 1], states[j], effects[j - 1]) && !spec_input_fails(
            states[j - 1],
            inputs[j - 1],
        ));
        lemma_generation_never_decreases(states[j - 1], inputs[j - 1], states[j], effects[j - 1]);
    }
}


// ---------------------------------------------------------------------------
// The playback over a run of reports
// ---------------------------------------------------------------------------

/// The playback before any report: nothing playing, at the start, at the
/// default volume.
pub open spec fn spec_initial_playback() -> Playback {
    Playback { track: None, position_ms: 0, position_at: None, volume: DEFAULT_VOLUME }
}

/// A run of reports: `states[i + 1]` is what `states[i]` becomes when it
/// takes in `updates[i]`.
pub open spec fn spec_played(states: Seq<Playback>, updates: Seq<PlayerUpdate>) -> bool {
    &&& states.len() == updates.len() + 1
    &&& forall|i: int| #![trigger updates[i]] 0 <= i < updates.len() ==> spec_applied(states[i], states[i + 1], updates[i])
}

/// The position given by the last report that sets one: zero after a stop
/// or a dropped connection, and zero when there is none.
pub open spec fn spec_last_position(updates: Seq<PlayerUpdate>) -> u32
    decreases updates.len(),
{
    if updates.len() == 0 {
        0
    } else {
        match updates.last() {
            PlayerUpdate::Playing { position_ms } => position_ms,
            PlayerUpdate::Paused { position_ms } => position_ms,
            PlayerUpdate::Seeked { position_ms } => position_ms,
            PlayerUpdate::Stopped => 0,
            PlayerUpdate::Disconnected => 0,
            _ => spec_last_position(updates.drop_last()),
        }
    }
}

/// Whether the last report among playing, paused, stopped and disconnected
/// says playing.
pub open spec fn spec_last_playing(updates: Seq<PlayerUpdate>) -> bool
    decreases updates.len(),
{
    if updates.len() == 0 {
        false
    } else {
        match updates.last() {
            PlayerUpdate::Playing { .. } => true,
            PlayerUpdate::Paused { .. } => false,
            PlayerUpdate::Stopped => false,
            PlayerUpdate::Disconnected => false,
            _ => spec_last_playing(updates.drop_last()),
        }
    }
}

/// The volume of the last volume report, or the default.
pub open spec fn spec_last_volume(updates: Seq<PlayerUpdate>) -> u16
    decreases updates.len(),
{
    if updates.len() == 0 {
        DEFAULT_VOLUME
    } else {
        match updates.last() {
            PlayerUpdate::Volume(volume) => volume,
            _ => spec_last_volume(updates.drop_last()),
        }
    }
}

/// The track of the last track change, unless a stop or a dropped
/// connection came after it.
pub open spec fn spec_last_track(updates: Seq<PlayerUpdate>) -> Option<NowPlaying>
    decreases updates.len(),
{
    if updates.len() == 0 {
        None
    } else {
        match updates.last() {
            PlayerUpdate::TrackChanged { name, artists, album, duration_ms, uri } => Some(
                NowPlaying { name, artists, album, duration_ms, uri },
            ),
            PlayerUpdate::Stopped => None,
            PlayerUpdate::Disconnected => None,
            _ => spec_last_track(updates.drop_last()),
        }
    }
}

/// After any run of reports from the initial playback, the playback is
/// determined by the reports alone: the position is the last one reported
/// (zero after a stop or a dropped connection), the clock runs exactly when
/// the last of playing, paused, stopped and disconnected was playing, the
/// volume is the last one reported, and the track the last one that changed
/// in and was not stopped since. While not playing, the position shown is
/// exactly the last one reported, however much time passes.
pub proof fn lemma_playback_follows_reports(states: Seq<Playback>, updates: Seq<PlayerUpdate>)
    requires
        spec_played(states, updates),
        states[0] == spec_initial_playback(),
    ensures
        states.last().position_ms == spec_last_position(updates),
        (states.last().position_at is Some) == spec_last_playing(updates),
        states.last().volume == spec_last_volume(updates),
        states.last().track == spec_last_track(updates),
        !spec_last_playing(updates) ==> forall|reading: u32|
            #[trigger] spec_position_reading(states.last(), reading) ==> reading == spec_last_position(updates),
    decreases updates.len(),
{
    if updates.len() > 0 {
        let n = updates.len() - 1;
        let earlier = states.drop_last();
        assert forall|i: int| #![trigger updates.drop_last()[i]] 0 <= i < updates.drop_last().len() implies spec_applied(
            earlier[i],
            earlier[i + 1],
            updates.drop_last()[i],
        ) by {
            assert(updates.drop_last()[i] == updates[i]);
        }
        lemma_playback_follows_reports(earlier, updates.drop_last());
        assert(earlier.last() == states[n]);
        assert(spec_applied(states[n], states[n + 1], updates[n]));
        let now = choose|now: Instant| #[trigger] spec_applied_at(states[n], states[n + 1], updates[n], now);
        assert(spec_applied_at(states[n], states[n + 1], updates[n], now));
        assert(states.last() == states[n + 1]);
        assert(updates.last() == updates[n]);
    }
}

} // verus!
