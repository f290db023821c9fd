use vstd::prelude::*;

verus! {

/// Delay between visibility polls while the window is shown.
pub const IDLE_POLL_MS: u64 = 1000;

/// Delay between visibility polls while counting down.
pub const FINE_POLL_MS: u64 = 200;

/// Delay before looking again when there are no tasks.
pub const EMPTY_BACKOFF_MS: u64 = 60000;

/// Delay before resolving the window again when it could not be found.
pub const MISSING_RETRY_MS: u64 = 1000;

/// Where the popup cycle of one watched window stands.
#[derive(PartialEq, Eq, Structural, Clone, Copy, Debug)]
pub enum PopupState {
    /// Waiting for the window to be hidden.
    WaitHidden,
    /// The window is hidden; waiting for the number of open tasks.
    CheckTasks,
    /// There are tasks; waiting for the reminder interval.
    AwaitInterval,
    /// Counting down from `start_ms` until `interval_ms` have passed while
    /// the window stays hidden.
    CountingDown { start_ms: u64, interval_ms: u64 },
}

/// What the caller observed after performing the last action. Times are
/// readings of one monotonic clock, in milliseconds.
#[derive(PartialEq, Eq, Structural, Clone, Copy, Debug)]
pub enum PopupEvent {
    /// The window was polled: `None` when its label resolved to no window,
    /// otherwise its visibility (a failed query counts as visible).
    Window { visible: Option<bool>, now_ms: u64 },
    /// The number of open tasks for today; a failed query counts as none.
    Tasks { count: usize },
    /// The reminder interval in minutes, read at `now_ms`.
    Interval { minutes: u64, now_ms: u64 },
}

/// What the caller must do next.
#[derive(PartialEq, Eq, Structural, Clone, Copy, Debug)]
pub enum PopupAction {
    /// Sleep `after_ms`, then poll the window and report `Window`.
    PollWindow { after_ms: u64 },
    /// Query today's open tasks and report `Tasks`.
    LoadTasks,
    /// Read the reminder interval and report `Interval`.
    ReadInterval,
    /// Show and focus the window, then poll it at once and report `Window`.
    Reveal,
}

/// Milliseconds in a reminder interval of `minutes`, saturating.
pub open spec fn interval_ms_of(minutes: u64) -> u64 {
    if minutes * 60000 <= u64::MAX {
        (minutes * 60000) as u64
    } else {
        u64::MAX
    }
}

/// Milliseconds from `start_ms` to `now_ms`; 0 if the clock reads earlier.
pub open spec fn elapsed_ms(start_ms: u64, now_ms: u64) -> u64 {
    if now_ms >= start_ms {
        (now_ms - start_ms) as u64
    } else {
        0
    }
}

/// The request that a state is waiting on, repeated when an event arrives
/// that the state does not expect.
pub open spec fn pending(s: PopupState) -> PopupAction {
    match s {
        PopupState::CheckTasks => PopupAction::LoadTasks,
        PopupState::AwaitInterval => PopupAction::ReadInterval,
        _ => PopupAction::PollWindow { after_ms: 0 },
    }
}

/// The transition table of the popup cycle.
pub open spec fn next(s: PopupState, e: PopupEvent) -> (PopupState, PopupAction) {
    match (s, e) {
        (PopupState::WaitHidden, PopupEvent::Window { visible, now_ms }) => match visible {
            None => (PopupState::WaitHidden, PopupAction::PollWindow { after_ms: MISSING_RETRY_MS }),
            Some(true) => (PopupState::WaitHidden, PopupAction::PollWindow { after_ms: IDLE_POLL_MS }),
            Some(false) => (PopupState::CheckTasks, PopupAction::LoadTasks),
        },
        (PopupState::CheckTasks, PopupEvent::Tasks { count }) => if count == 0 {
            (PopupState::WaitHidden, PopupAction::PollWindow { after_ms: EMPTY_BACKOFF_MS })
        } else {
            (PopupState::AwaitInterval, PopupAction::ReadInterval)
        },
        (PopupState::AwaitInterval, PopupEvent::Interval { minutes, now_ms }) => (
            PopupState::CountingDown { start_ms: now_ms, interval_ms: interval_ms_of(minutes) },
            PopupAction::PollWindow { after_ms: 0 },
        ),
        (
            PopupState::CountingDown { start_ms, interval_ms },
            PopupEvent::Window { visible, now_ms },
        ) => match visible {
            None => (PopupState::WaitHidden, PopupAction::PollWindow { after_ms: MISSING_RETRY_MS }),
            Some(true) => (PopupState::WaitHidden, PopupAction::PollWindow { after_ms: 0 }),
            Some(false) => if elapsed_ms(start_ms, now_ms) >= interval_ms {
                (PopupState::WaitHidden, PopupAction::Reveal)
            } else {
                (s, PopupAction::PollWindow { after_ms: FINE_POLL_MS })
            },
        },
        _ => (s, pending(s)),
    }
}

/// The state and first request of a new popup cycle.
pub fn start_cycle() -> (r: (PopupState, PopupAction))
    ensures
        r == (PopupState::WaitHidden, PopupAction::PollWindow { after_ms: 0 }),
{
    (PopupState::WaitHidden, PopupAction::PollWindow { after_ms: 0 })
}

fn interval_ms(minutes: u64) -> (r: u64)
    ensures
        r == interval_ms_of(minutes),
{
    if minutes > u64::MAX / 60000 {
        u64::MAX
    } else {
        minutes * 60000
    }
}

fn elapsed(start_ms: u64, now_ms: u64) -> (r: u64)
    ensures
        r == elapsed_ms(start_ms, now_ms),
{
    if now_ms >= start_ms {
        now_ms - start_ms
    } else {
        0
    }
}

/// Advance the popup cycle by one observed event.
pub fn step(s: PopupState, e: PopupEvent) -> (r: (PopupState, PopupAction))
    ensures
        r == next(s, e),
{
    match (s, e) {
        (PopupState::WaitHidden, PopupEvent::Window { visible, now_ms: _ }) => match visible {
            None => (PopupState::WaitHidden, PopupAction::PollWindow { after_ms: MISSING_RETRY_MS }),
            Some(true) => (PopupState::WaitHidden, PopupAction::PollWindow { after_ms: IDLE_POLL_MS }),
            Some(false) => (PopupState::CheckTasks, PopupAction::LoadTasks),
        },
        (PopupState::CheckTasks, PopupEvent::Tasks { count }) => {
            if count == 0 {
                (PopupState::WaitHidden, PopupAction::PollWindow { after_ms: EMPTY_BACKOFF_MS })
            } else {
                (PopupState::AwaitInterval, PopupAction::ReadInterval)
            }
        },
        (PopupState::AwaitInterval, PopupEvent::Interval { minutes, now_ms }) => (
            PopupState::CountingDown { start_ms: now_ms, interval_ms: interval_ms(minutes) },
            PopupAction::PollWindow { after_ms: 0 },
        ),
        (
            PopupState::CountingDown { start_ms, interval_ms },
            PopupEvent::Window { visible, now_ms },
        ) => match visible {
            None => (PopupState::WaitHidden, PopupAction::PollWindow { after_ms: MISSING_RETRY_MS }),
            Some(true) => (PopupState::WaitHidden, PopupAction::PollWindow { after_ms: 0 }),
            Some(false) => {
                if elapsed(start_ms, now_ms) >= interval_ms {
                    (PopupState::WaitHidden, PopupAction::Reveal)
                } else {
                    (s, PopupAction::PollWindow { after_ms: FINE_POLL_MS })
                }
            },
        },
        (PopupState::CheckTasks, _) => (s, PopupAction::LoadTasks),
        (PopupState::AwaitInterval, _) => (s, PopupAction::ReadInterval),
        _ => (s, PopupAction::PollWindow { after_ms: 0 }),
    }
}


/// A poll that found the window hidden, or an event that is not a poll.
pub open spec fn hidden_or_not_a_poll(e: PopupEvent) -> bool {
    match e {
        PopupEvent::Window { visible, .. } => visible == Some(false),
        _ => true,
    }
}

/// The state reached after a sequence of events.
pub open spec fn run(s: PopupState, es: Seq<PopupEvent>) -> PopupState
    decreases es.len(),
{
    if es.len() == 0 {
        s
    } else {
        run(next(s, es[0]).0, es.drop_first())
    }
}

/// With the window hidden and no tasks, the cycle sleeps the full backoff
/// without revealing anything, and the next poll that finds the window hidden
/// queries the tasks again.
pub proof fn lemma_no_tasks_backs_off(now_ms: u64)
    ensures
        next(PopupState::CheckTasks, PopupEvent::Tasks { count: 0 }) == (
            PopupState::WaitHidden,
            PopupAction::PollWindow { after_ms: EMPTY_BACKOFF_MS },
        ),
        EMPTY_BACKOFF_MS == 60000,
        next(PopupState::WaitHidden, PopupEvent::Window { visible: Some(false), now_ms }) == (
            PopupState::CheckTasks,
            PopupAction::LoadTasks,
        ),
{
}

/// A countdown starts only when tasks exist: the state that waits for the
/// interval is entered only from a task query that found tasks.
pub proof fn lemma_countdown_needs_tasks(s: PopupState, e: PopupEvent)
    ensures
        next(s, e).0 is AwaitInterval && !(s is AwaitInterval) ==> s is CheckTasks && (match e {
            PopupEvent::Tasks { count } => count > 0,
            _ => false,
        }),
        next(s, e).0 is CountingDown ==> s is CountingDown || s is AwaitInterval,
{
}

/// The window is revealed only from a countdown, by a poll that found it
/// hidden once the interval had passed; a poll that finds it visible or
/// missing ends the countdown without revealing it.
pub proof fn lemma_reveal_only_when_due(s: PopupState, e: PopupEvent)
    ensures
        next(s, e).1 is Reveal ==> (match (s, e) {
            (
                PopupState::CountingDown { start_ms, interval_ms },
                PopupEvent::Window { visible, now_ms },
            ) => visible == Some(false) && elapsed_ms(start_ms, now_ms) >= interval_ms,
            _ => false,
        }),
        s is CountingDown && e is Window && !hidden_or_not_a_poll(e) ==> next(s, e).0 is WaitHidden
            && !(next(s, e).1 is Reveal),
{
}

/// A poll that finds the window visible once the interval has passed skips
/// the reveal.
pub proof fn lemma_visible_at_deadline_skips(start_ms: u64, interval_ms: u64, now_ms: u64)
    requires
        elapsed_ms(start_ms, now_ms) >= interval_ms,
    ensures
        next(
            PopupState::CountingDown { start_ms, interval_ms },
            PopupEvent::Window { visible: Some(true), now_ms },
        ) == (PopupState::WaitHidden, PopupAction::PollWindow { after_ms: 0 }),
{
}

proof fn lemma_countdown_run(s: PopupState, es: Seq<PopupEvent>)
    requires
        s is CountingDown,
        forall|k: int| 0 <= k <= es.len() ==> #[trigger] run(s, es.take(k)) is CountingDown,
    ensures
        run(s, es) == s,
        forall|i: int| 0 <= i < es.len() ==> hidden_or_not_a_poll(#[trigger] es[i]),
    decreases es.len(),
{
    if es.len() > 0 {
        let s1 = next(s, es[0]).0;
        assert(es.take(1).drop_first() =~= Seq::<PopupEvent>::empty());
        assert(es.take(1)[0] == es[0]);
        assert(run(s1, Seq::<PopupEvent>::empty()) == s1);
        assert(run(s, es.take(1)) == s1);
        assert(s1 == s);
        let rest = es.drop_first();
        assert forall|k: int| 0 <= k <= rest.len() implies #[trigger] run(s1, rest.take(k)) is CountingDown by {
            assert(es.take(k + 1).drop_first() =~= rest.take(k));
            assert(es.take(k + 1)[0] == es[0]);
            assert(run(s, es.take(k + 1)) is CountingDown);
        }
        lemma_countdown_run(s1, rest);
        assert forall|i: int| 0 <= i < es.len() implies hidden_or_not_a_poll(#[trigger] es[i]) by {
            if i > 0 {
                assert(es[i] == rest[i - 1]);
            }
        }
        assert(es.take(es.len() as int) =~= es);
    }
}

/// Over one countdown that started at `start_ms` with `interval_ms`, the
/// window is revealed only if every poll of the countdown found it hidden
/// and the revealing poll came once the interval had passed.
pub proof fn lemma_reveal_after_continuous_hidden(
    start_ms: u64,
    interval_ms: u64,
    es: Seq<PopupEvent>,
    e: PopupEvent,
)
    requires
        forall|k: int|
            0 <= k <= es.len() ==> #[trigger] run(
                PopupState::CountingDown { start_ms, interval_ms },
                es.take(k),
            ) is CountingDown,
        next(run(PopupState::CountingDown { start_ms, interval_ms }, es), e).1 is Reveal,
    ensures
        forall|i: int| 0 <= i < es.len() ==> hidden_or_not_a_poll(#[trigger] es[i]),
        match e {
            PopupEvent::Window { visible, now_ms } => visible == Some(false) && elapsed_ms(
                start_ms,
                now_ms,
            ) >= interval_ms,
            _ => false,
        },
{
    let s = PopupState::CountingDown { start_ms, interval_ms };
    lemma_countdown_run(s, es);
}

} // verus!
