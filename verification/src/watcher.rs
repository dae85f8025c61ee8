//! The decisions of the statistics watcher of a room: what one answer of the
//! streaming backend does to the error count and to the sample history, and
//! what the watcher does next.

use crate::stats::{
    history_after, record_sample, sample_rate, sample_rate_value, trimmed_mean,
    trimmed_mean_value, HISTORY_LIMIT,
};
use vstd::prelude::*;

verus! {

/// The failures in a row after which a watcher gives up.
pub const ERROR_BUDGET: usize = 3;

/// The seconds between two polls.
pub const NOMINAL_INTERVAL: u64 = 60;

/// The seconds until the next poll when the backend knows of no stream.
pub const IDLE_INTERVAL: u64 = 10;

/// What the streaming backend reports of a running stream.
pub struct StreamStats {
    pub key: String,
    pub url: String,
    pub stream_id: u32,
    pub video_total_bytes: usize,
    pub video_speed: usize,
    pub audio_total_bytes: usize,
    pub audio_speed: usize,
}

/// How one poll of the streaming backend ended.
pub enum PollOutcome {
    /// The request did not get through.
    TransportError,
    /// The backend knows of no stream for the room.
    NotFound,
    /// The backend answered with another status that is no success.
    Rejected,
    /// The backend answered with success, but its statistics cannot be read.
    Undecodable,
    /// The backend answered with success and these statistics.
    Sample(StreamStats),
}

/// What the watcher does after a poll.
#[derive(Clone, Copy, PartialEq, Eq, Structural, Debug)]
pub enum WatcherAction {
    /// End for good.
    Stop,
    /// Poll again after so many seconds.
    Sleep(u64),
}

/// Whether a poll that ended so counts against the error budget.
pub open spec fn is_failure(outcome: PollOutcome) -> bool {
    match outcome {
        PollOutcome::TransportError => true,
        PollOutcome::Rejected => true,
        PollOutcome::Undecodable => true,
        _ => false,
    }
}

/// Whether a poll that ended so shows the stream to be live.
pub open spec fn shows_live(outcome: PollOutcome) -> bool {
    match outcome {
        PollOutcome::Undecodable => true,
        PollOutcome::Sample(_) => true,
        _ => false,
    }
}

/// The failures in a row after a poll: one more after a failure, none
/// after a sample, as many as before when there was no stream.
pub open spec fn errors_after(errors: nat, outcome: PollOutcome) -> nat {
    match outcome {
        PollOutcome::NotFound => errors,
        PollOutcome::Sample(_) => 0,
        _ => errors + 1,
    }
}

/// What the watcher does after a poll: it stops with the failure that uses
/// up the budget, polls again soon when there was no stream, and otherwise
/// polls again after the nominal interval.
pub open spec fn action_after(errors: nat, outcome: PollOutcome) -> WatcherAction {
    match outcome {
        PollOutcome::NotFound => WatcherAction::Sleep(IDLE_INTERVAL),
        PollOutcome::Sample(_) => WatcherAction::Sleep(NOMINAL_INTERVAL),
        _ => if errors + 1 >= ERROR_BUDGET {
            WatcherAction::Stop
        } else {
            WatcherAction::Sleep(NOMINAL_INTERVAL)
        },
    }
}

/// The sample history after a poll: a sample adds its rate.
pub open spec fn history_after_poll(history: Seq<usize>, outcome: PollOutcome) -> Seq<usize> {
    match outcome {
        PollOutcome::Sample(stats) => history_after(
            history,
            sample_rate_value(stats.video_speed as nat, stats.audio_speed as nat) as usize,
        ),
        _ => history,
    }
}

/// The memory of a watcher between two polls.
pub struct WatcherState {
    errors: usize,
    rates: Vec<usize>,
    stopped: bool,
}

impl WatcherState {
    /// The failures in a row so far.
    pub closed spec fn errors(&self) -> nat {
        self.errors as nat
    }

    /// The bitrate samples that are kept, oldest first.
    pub closed spec fn history(&self) -> Seq<usize> {
        self.rates@
    }

    /// Whether the watcher has ended.
    pub closed spec fn stopped(&self) -> bool {
        self.stopped
    }

    /// A running watcher is within its budget, and the history within its
    /// limit.
    pub open spec fn wf(&self) -> bool {
        &&& self.history().len() <= HISTORY_LIMIT
        &&& self.errors() <= ERROR_BUDGET
        &&& !self.stopped() ==> self.errors() < ERROR_BUDGET
    }

    pub fn new() -> (state: Self)
        ensures
            state.wf(),
            state.errors() == 0,
            state.history() == Seq::<usize>::empty(),
            !state.stopped(),
    {
        WatcherState { errors: 0, rates: Vec::new(), stopped: false }
    }

    /// Whether the watcher has ended.
    pub fn is_stopped(&self) -> (stopped: bool)
        ensures
            stopped == self.stopped(),
    {
        self.stopped
    }

    /// The failures in a row so far.
    pub fn error_count(&self) -> (errors: usize)
        ensures
            errors == self.errors(),
    {
        self.errors
    }

    /// Takes note of a poll and says what to do next. A watcher that has
    /// ended stays as it is and says `Stop`.
    pub fn observe(&mut self, outcome: &PollOutcome) -> (action: WatcherAction)
        requires
            old(self).wf(),
        ensures
            final(self).wf(),
            old(self).stopped() ==> {
                &&& action == WatcherAction::Stop
                &&& final(self).stopped()
                &&& final(self).errors() == old(self).errors()
                &&& final(self).history() == old(self).history()
            },
            !old(self).stopped() ==> {
                &&& action == action_after(old(self).errors(), *outcome)
                &&& final(self).stopped() == (action == WatcherAction::Stop)
                &&& final(self).errors() == errors_after(old(self).errors(), *outcome)
                &&& final(self).history() == history_after_poll(old(self).history(), *outcome)
            },
    {
        if self.stopped {
            return WatcherAction::Stop;
        }
        match outcome {
            PollOutcome::NotFound => WatcherAction::Sleep(IDLE_INTERVAL),
            PollOutcome::Sample(stats) => {
                self.errors = 0;
                let rate = sample_rate(stats.video_speed, stats.audio_speed);
                record_sample(&mut self.rates, rate);
                WatcherAction::Sleep(NOMINAL_INTERVAL)
            },
            _ => {
                self.errors = self.errors + 1;
                if self.errors >= ERROR_BUDGET {
                    self.stopped = true;
                    WatcherAction::Stop
                } else {
                    WatcherAction::Sleep(NOMINAL_INTERVAL)
                }
            },
        }
    }

    /// The trimmed mean of the samples that are kept.
    pub fn average_rate(&self) -> (rate: usize)
        ensures
            rate == trimmed_mean_value(self.history()),
    {
        trimmed_mean(&self.rates)
    }
}


/// Three failures in a row end a watcher, wherever it stood before: the
/// third of them, at the latest, is answered with `Stop`, and none of them
/// is answered with `Stop` before the budget is used up.
pub proof fn lemma_three_failures_stop(errors: nat, first: PollOutcome, second: PollOutcome, third: PollOutcome)
    requires
        errors < ERROR_BUDGET,
        is_failure(first),
        is_failure(second),
        is_failure(third),
    ensures
        ({
            let e1 = errors_after(errors, first);
            let e2 = errors_after(e1, second);
            ||| action_after(errors, first) == WatcherAction::Stop
            ||| action_after(e1, second) == WatcherAction::Stop
            ||| action_after(e2, third) == WatcherAction::Stop
        }),
        errors == 0 ==> ({
            let e1 = errors_after(errors, first);
            let e2 = errors_after(e1, second);
            &&& action_after(errors, first) == WatcherAction::Sleep(NOMINAL_INTERVAL)
            &&& action_after(e1, second) == WatcherAction::Sleep(NOMINAL_INTERVAL)
            &&& action_after(e2, third) == WatcherAction::Stop
        }),
{
}

/// A poll that finds no stream neither counts as a failure nor ends the
/// watcher.
pub proof fn lemma_not_found_is_no_failure(errors: nat)
    ensures
        errors_after(errors, PollOutcome::NotFound) == errors,
        action_after(errors, PollOutcome::NotFound) == WatcherAction::Sleep(IDLE_INTERVAL),
{
}

} // verus!
