//! Asynchronous work, seen from the verified side: the results background
//! tasks deliver over the channel, how an arriving result mutates the UI
//! state, the decision steps of one background refresh, and the cache
//! projection shown in the cache-info dialog. The shell owns the channel
//! and the task runtime; every decision stands here.

use vstd::prelude::*;
use crate::api::{
    models_correct, spec_percentage, sum_gross, sum_net, try_calculate_stats,
    COST_PER_REQUEST_CENTS, TOTAL_LIMIT,
};
use crate::cache::{spec_status, Cache, CacheReadOutcome};
use crate::clock;
use crate::models::{UsageData, UsageStats};
use super::state::{AppState, AppStateManager, CacheInfo};

verus! {

/// A failure carried to the UI: a short user-facing message and the full
/// diagnostic text, both derived from the same underlying failure.
#[derive(Debug, Clone)]
pub struct ErrorInfo {
    pub message: String,
    pub debug_message: String,
}

/// The result of one background operation, produced exactly once per
/// spawned task and consumed exactly once by the render loop.
#[derive(Debug)]
pub enum AsyncResult {
    /// A refresh finished, with fresh statistics or the failure to show.
    RefreshComplete(Result<UsageStats, ErrorInfo>),
    /// The cache projection for the cache-info dialog is ready.
    CacheInfoReady(CacheInfo),
    /// The theme preference was persisted (failures are swallowed: the
    /// visual change already took effect).
    ThemeSaved(Result<(), ErrorInfo>),
}

/// The modal state after a result is applied: fresh statistics return to
/// the dashboard, a failed refresh opens the error dialog with the
/// diagnostic view off, cache information opens its dialog, and a persisted
/// theme changes nothing.
pub open spec fn result_state(prev: AppState, result: AsyncResult) -> AppState {
    match result {
        AsyncResult::RefreshComplete(res) => match res {
            Ok(_) => AppState::Dashboard,
            Err(e) => AppState::ShowError {
                message: e.message,
                debug_message: e.debug_message,
                show_debug: false,
            },
        },
        AsyncResult::CacheInfoReady(info) => AppState::ShowCacheInfo(info),
        AsyncResult::ThemeSaved(_) => prev,
    }
}

/// Applies one arriving result to the UI state and the displayed
/// statistics; returns whether a redraw is due (always, once a result
/// arrived).
pub fn apply_async_result(
    app: &mut AppStateManager,
    stats: &mut UsageStats,
    result: AsyncResult,
) -> (redraw: bool)
    ensures
        final(app).state == result_state(old(app).state, result),
        (match result {
            AsyncResult::RefreshComplete(res) => match res {
                Ok(s) => *final(stats) == s,
                Err(_) => *final(stats) == *old(stats),
            },
            _ => *final(stats) == *old(stats),
        }),
        final(app).selected_command == old(app).selected_command,
        final(app).command_scroll_offset == old(app).command_scroll_offset,
        final(app).selected_theme == old(app).selected_theme,
        final(app).theme_scroll_offset == old(app).theme_scroll_offset,
        final(app).model_scroll_offset == old(app).model_scroll_offset,
        final(app).commands == old(app).commands,
        final(app).themes == old(app).themes,
        final(app).action_taken == old(app).action_taken,
        final(app).spinner_state == old(app).spinner_state,
        final(app).pending_theme_change == old(app).pending_theme_change,
        old(app).wf() ==> final(app).wf(),
        redraw,
{
    match result {
        AsyncResult::RefreshComplete(res) => match res {
            Ok(new_stats) => {
                *stats = new_stats;
                app.state = AppState::Dashboard;
            },
            Err(e) => {
                app.state = AppState::ShowError {
                    message: e.message,
                    debug_message: e.debug_message,
                    show_debug: false,
                };
            },
        },
        AsyncResult::CacheInfoReady(info) => {
            app.state = AppState::ShowCacheInfo(info);
        },
        AsyncResult::ThemeSaved(_) => {},
    }
    true
}

/// A failed refresh always lands in the error dialog with the diagnostic
/// view off, whatever state the UI was in when the result arrived.
pub proof fn lemma_error_result_shows_error(prev: AppState, e: ErrorInfo)
    ensures
        result_state(prev, AsyncResult::RefreshComplete(Err(e))) == (AppState::ShowError {
            message: e.message,
            debug_message: e.debug_message,
            show_debug: false,
        }),
{
}

/// The cache projection shown in the cache-info dialog: the rendered time
/// of the last update if an entry can be decoded, freshness against the TTL
/// at `now`, and the TTL itself.
pub fn build_cache_info(cache: &Cache, read: &CacheReadOutcome, now: i64) -> (info: CacheInfo)
    ensures
        info.ttl_minutes == cache.ttl_minutes,
        info.is_fresh == (spec_status(cache.ttl_minutes, *read, now) is Fresh),
        (match read {
            CacheReadOutcome::Entry(e) => info.last_updated matches Some(s) && s@
                == clock::utc_display(e.timestamp as int),
            _ => info.last_updated is None,
        }),
{
    let last = cache.last_updated(read);
    let last_updated = match last {
        Some(ts) => Some(clock::format_timestamp(ts)),
        None => None,
    };
    let is_fresh = cache.is_fresh_at(read, now);
    CacheInfo { last_updated, is_fresh, ttl_minutes: cache.ttl_minutes }
}

/// Where one background refresh stands. The shell performs the outside
/// operation the phase asks for and feeds the outcome back through
/// `refresh_step`; every decision in between is made here.
#[derive(Debug)]
pub enum RefreshPhase {
    /// Invalidate the cache store.
    Start,
    /// Resolve the account name the credential belongs to.
    NeedUser,
    /// Fetch usage for the resolved account.
    NeedUsage { username: String },
    /// Persist the fetched snapshot as the new cache entry.
    NeedStore { data: UsageData },
    /// Finished: the result to push onto the channel.
    Done(Result<UsageStats, ErrorInfo>),
}

/// The outcome of the outside operation a phase asked for.
#[derive(Debug)]
pub enum RefreshEvent {
    /// The cache store was invalidated.
    Invalidated,
    /// Account resolution finished.
    UserResolved(Result<String, ErrorInfo>),
    /// The fetch finished.
    UsageFetched(Result<UsageData, ErrorInfo>),
    /// The snapshot was persisted.
    Stored,
}

/// The guidance shown when the credential cannot name its own account.
pub open spec fn no_username_text() -> Seq<char> {
    "Could not determine username from token. Please reconfigure with a valid token."@
}

/// Whether an event answers what the phase asked for.
pub open spec fn answers(phase: RefreshPhase, event: RefreshEvent) -> bool {
    ||| (phase is Start && event is Invalidated)
    ||| (phase is NeedUser && event is UserResolved)
    ||| (phase is NeedUsage && event is UsageFetched)
    ||| (phase is NeedStore && event is Stored)
}

/// Advances one background refresh by one step: invalidation leads to
/// account resolution, a resolved account to the fetch, a fetched snapshot
/// to persistence, and a persisted snapshot to aggregation; every failure
/// ends the refresh with that failure. An event that does not answer the
/// current phase changes nothing.
pub fn refresh_step(phase: RefreshPhase, event: RefreshEvent) -> (next: RefreshPhase)
    ensures
        !answers(phase, event) ==> next == phase,
        phase is Start && event is Invalidated ==> next is NeedUser,
        phase is NeedUser ==> (event matches RefreshEvent::UserResolved(Ok(u)) ==> (
        next matches RefreshPhase::NeedUsage { username } && username == u)),
        phase is NeedUser ==> (event matches RefreshEvent::UserResolved(Err(_)) ==> (
        next matches RefreshPhase::Done(Err(e)) && e.message@ == no_username_text()
            && e.debug_message@ == no_username_text())),
        phase is NeedUsage ==> (event matches RefreshEvent::UsageFetched(Ok(d)) ==> (
        next matches RefreshPhase::NeedStore { data } && data == d)),
        phase is NeedUsage ==> (event matches RefreshEvent::UsageFetched(Err(e)) ==> (
        next matches RefreshPhase::Done(Err(e2)) && e2 == e)),
        phase matches RefreshPhase::NeedStore { data } ==> (event is Stored ==> (
        next matches RefreshPhase::Done(res) && {
            let fits = sum_gross(data.usage_items@) * 10000 + 150 <= u64::MAX && sum_net(
                data.usage_items@,
            ) * 4 <= u64::MAX;
            &&& fits <==> res is Ok
            &&& (res matches Ok(s) ==> s.total_used == sum_gross(data.usage_items@)
                && s.total_limit == TOTAL_LIMIT && s.percentage == spec_percentage(
                sum_gross(data.usage_items@),
            ) && s.estimated_cost == COST_PER_REQUEST_CENTS * sum_net(data.usage_items@)
                && s.username == data.user && models_correct(data.usage_items@, s.models@))
            &&& (res matches Err(e) ==> e.message@ == overflow_text())
        })),
{
    match (phase, event) {
        (RefreshPhase::Start, RefreshEvent::Invalidated) => RefreshPhase::NeedUser,
        (RefreshPhase::NeedUser, RefreshEvent::UserResolved(res)) => match res {
            Ok(u) => RefreshPhase::NeedUsage { username: u },
            Err(_) => RefreshPhase::Done(
                Err(
                    ErrorInfo {
                        message:
                            "Could not determine username from token. Please reconfigure with a valid token.".to_owned(),
                        debug_message:
                            "Could not determine username from token. Please reconfigure with a valid token.".to_owned(),
                    },
                ),
            ),
        },
        (RefreshPhase::NeedUsage { username: _ }, RefreshEvent::UsageFetched(res)) => match res {
            Ok(d) => RefreshPhase::NeedStore { data: d },
            Err(e) => RefreshPhase::Done(Err(e)),
        },
        (RefreshPhase::NeedStore { data }, RefreshEvent::Stored) => {
            match try_calculate_stats(&data) {
                Some(stats) => RefreshPhase::Done(Ok(stats)),
                None => RefreshPhase::Done(
                    Err(
                        ErrorInfo {
                            message: "Usage quantities are too large to aggregate.".to_owned(),
                            debug_message: "Usage quantities are too large to aggregate.".to_owned(),
                        },
                    ),
                ),
            }
        },
        (other, _) => other,
    }
}

/// The message shown when quantities are too large for exact aggregation.
pub open spec fn overflow_text() -> Seq<char> {
    "Usage quantities are too large to aggregate."@
}

} // verus!
