//! The polling schedule as a state machine: what to do next, given what has
//! just happened. Whoever drives it fetches, publishes and sleeps as told and
//! reports back; the cost itself is carried, never looked into.

use crate::clock::{Deadline, Timestamp, NANOS_PER_SECOND};
use vstd::prelude::*;

verus! {

/// How often the cost is fetched anew and how often it is published.
#[derive(Clone, Copy, Debug, PartialEq, Eq)]
pub struct Schedule {
    /// Seconds from one fetch to the deadline of the next.
    pub update_frequency: i64,
    /// Seconds of sleep between two publications.
    pub publish_frequency: u64,
}

impl Schedule {
    /// A fetch every twelve hours, a publication every minute.
    pub fn standard() -> (schedule: Schedule)
        ensures
            schedule.update_frequency == 43200,
            schedule.publish_frequency == 60,
    {
        Schedule { update_frequency: 43200, publish_frequency: 60 }
    }
}

/// What the poller is waiting for.
#[derive(Debug, PartialEq)]
pub enum Phase<C> {
    /// For the billing service to answer.
    Fetching,
    /// For the relay to take a cost that was just fetched.
    PublishingFresh { cost: C },
    /// For the relay to take the cost that was fetched earlier.
    PublishingCached { cost: C, next_update: Deadline },
    /// For the sleep between two publications to end.
    Sleeping { cost: C, next_update: Deadline },
    /// For nothing: a fetch has failed.
    Stopped,
}

/// What has just happened.
#[derive(Debug, PartialEq)]
pub enum Event<C> {
    /// The billing service gave a cost.
    Fetched { cost: C },
    /// The billing service gave none, or one that cannot be read.
    FetchFailed,
    /// The attempt to publish ended at `now`, well or badly.
    PublishFinished { delivered: bool, now: Timestamp },
    /// The sleep ended at `now`.
    Woke { now: Timestamp },
}

/// What to do next.
#[derive(Debug, PartialEq)]
pub enum Action<C> {
    /// Ask the billing service for the cost.
    Fetch,
    /// Send `cost` to the relay.
    Publish { cost: C },
    /// Sleep for `seconds` seconds.
    Sleep { seconds: u64 },
    /// Give up.
    Abort,
}

impl<C: Copy> Clone for Phase<C> {
    fn clone(&self) -> (copy: Self)
        ensures
            copy == *self,
    {
        *self
    }
}

impl<C: Copy> Copy for Phase<C> {

}

impl<C: Copy> Clone for Event<C> {
    fn clone(&self) -> (copy: Self)
        ensures
            copy == *self,
    {
        *self
    }
}

impl<C: Copy> Copy for Event<C> {

}

impl<C: Copy> Clone for Action<C> {
    fn clone(&self) -> (copy: Self)
        ensures
            copy == *self,
    {
        *self
    }
}

impl<C: Copy> Copy for Action<C> {

}

/// The number of calls to the billing service that an action makes.
pub open spec fn fetches<C>(action: Action<C>) -> nat {
    if action is Fetch {
        1
    } else {
        0
    }
}

/// The phase that follows `phase` on `event`, and the action to take; `None`
/// where `phase` does not wait for `event`.
pub open spec fn transition<C>(schedule: Schedule, phase: Phase<C>, event: Event<C>) -> Option<
    (Phase<C>, Action<C>),
> {
    match (phase, event) {
        (Phase::Fetching, Event::Fetched { cost }) => Some(
            (Phase::PublishingFresh { cost }, Action::Publish { cost }),
        ),
        (Phase::Fetching, Event::FetchFailed) => Some((Phase::Stopped, Action::Abort)),
        (Phase::PublishingFresh { cost }, Event::PublishFinished { delivered, now }) => Some(
            (
                Phase::Sleeping {
                    cost,
                    next_update: Deadline::due_after(now, schedule.update_frequency),
                },
                Action::Sleep { seconds: schedule.publish_frequency },
            ),
        ),
        (
            Phase::PublishingCached { cost, next_update },
            Event::PublishFinished { delivered, now },
        ) => Some(
            (
                Phase::Sleeping { cost, next_update },
                Action::Sleep { seconds: schedule.publish_frequency },
            ),
        ),
        (Phase::Sleeping { cost, next_update }, Event::Woke { now }) => if next_update.is_reached(
            now,
        ) {
            Some((Phase::Fetching, Action::Fetch))
        } else {
            Some((Phase::PublishingCached { cost, next_update }, Action::Publish { cost }))
        },
        _ => None,
    }
}

/// While the deadline lies ahead, a tick has the cached cost published again:
/// its one action is to publish, which is no call to the billing service, and
/// when the attempt has ended, cost and deadline are what they were.
pub proof fn lemma_tick_before_deadline<C>(
    schedule: Schedule,
    cost: C,
    next_update: Deadline,
    now: Timestamp,
    delivered: bool,
    done: Timestamp,
)
    requires
        now@ < next_update@,
    ensures
        transition(schedule, Phase::Sleeping { cost, next_update }, Event::Woke { now }) == Some(
            (Phase::PublishingCached { cost, next_update }, Action::Publish { cost }),
        ),
        fetches(Action::Publish { cost }) == 0,
        fetches(Action::<C>::Sleep { seconds: schedule.publish_frequency }) == 0,
        transition(
            schedule,
            Phase::PublishingCached { cost, next_update },
            Event::PublishFinished { delivered, now: done },
        ) == Some(
            (
                Phase::Sleeping { cost, next_update },
                Action::<C>::Sleep { seconds: schedule.publish_frequency },
            ),
        ),
{
}

/// Once the deadline is reached, a tick has the cost fetched anew: its one
/// action is one call to the billing service, and until the next tick no
/// other is made. The cost that comes back is published and takes the place
/// of the cached one, and the next deadline lies `update_frequency` seconds
/// after the end of that publication.
pub proof fn lemma_tick_at_deadline<C>(
    schedule: Schedule,
    cost: C,
    next_update: Deadline,
    now: Timestamp,
    fresh: C,
    delivered: bool,
    done: Timestamp,
)
    requires
        next_update@ <= now@,
    ensures
        transition(schedule, Phase::Sleeping { cost, next_update }, Event::Woke { now }) == Some(
            (Phase::<C>::Fetching, Action::<C>::Fetch),
        ),
        fetches(Action::<C>::Fetch) == 1,
        fetches(Action::Publish { cost: fresh }) == 0,
        fetches(Action::<C>::Sleep { seconds: schedule.publish_frequency }) == 0,
        transition(schedule, Phase::<C>::Fetching, Event::Fetched { cost: fresh }) == Some(
            (Phase::PublishingFresh { cost: fresh }, Action::Publish { cost: fresh }),
        ),
        transition(
            schedule,
            Phase::PublishingFresh { cost: fresh },
            Event::PublishFinished { delivered, now: done },
        ) == Some(
            (
                Phase::Sleeping {
                    cost: fresh,
                    next_update: Deadline::due_after(done, schedule.update_frequency),
                },
                Action::<C>::Sleep { seconds: schedule.publish_frequency },
            ),
        ),
        Deadline::due_after(done, schedule.update_frequency)@ == done@ + schedule.update_frequency
            * NANOS_PER_SECOND,
        schedule.update_frequency == 43200 ==> Deadline::due_after(
            done,
            schedule.update_frequency,
        )@ == done@ + 43_200_000_000_000,
{
    Deadline::lemma_due_after(done, schedule.update_frequency);
}

/// A publication that fails is taken as one that succeeds: the poller goes to
/// sleep all the same, keeps the cost, and takes the next tick.
pub proof fn lemma_failed_publication_is_passed_over<C>(
    schedule: Schedule,
    phase: Phase<C>,
    done: Timestamp,
    next_tick: Timestamp,
)
    requires
        phase is PublishingFresh || phase is PublishingCached,
    ensures
        transition(schedule, phase, Event::PublishFinished { delivered: false, now: done })
            == transition(schedule, phase, Event::PublishFinished { delivered: true, now: done }),
        transition(schedule, phase, Event::PublishFinished { delivered: false, now: done })
            matches Some((after, action)) && {
            &&& after is Sleeping
            &&& action == Action::<C>::Sleep { seconds: schedule.publish_frequency }
            &&& phase matches Phase::PublishingFresh { cost } ==> after->Sleeping_cost == cost
            &&& phase matches Phase::PublishingCached { cost, next_update } ==> after
                == Phase::Sleeping { cost, next_update }
            &&& transition(schedule, after, Event::<C>::Woke { now: next_tick }) is Some
        },
{
}

/// Only a failed fetch stops the poller, and once stopped it takes no event.
pub proof fn lemma_only_a_failed_fetch_stops<C>(
    schedule: Schedule,
    phase: Phase<C>,
    event: Event<C>,
)
    ensures
        transition(schedule, phase, event) matches Some((after, action)) ==> (after is Stopped
            <==> phase is Fetching && event is FetchFailed) && (action is Abort <==> after
            is Stopped),
        phase is Stopped ==> transition(schedule, phase, event) is None,
{
}

/// A schedule and the phase it is in.
#[derive(Debug, PartialEq)]
pub struct Poller<C> {
    pub schedule: Schedule,
    pub phase: Phase<C>,
}

impl<C: Copy> Clone for Poller<C> {
    fn clone(&self) -> (copy: Self)
        ensures
            copy == *self,
    {
        *self
    }
}

impl<C: Copy> Copy for Poller<C> {

}

impl<C: Copy> Poller<C> {
    /// A poller at its start, and its first action: to fetch.
    pub fn start(schedule: Schedule) -> (begun: (Poller<C>, Action<C>))
        ensures
            begun.0.schedule == schedule,
            begun.0.phase == Phase::<C>::Fetching,
            begun.1 == Action::<C>::Fetch,
    {
        (Poller { schedule, phase: Phase::Fetching }, Action::Fetch)
    }

    /// Takes in `event` and says what to do next. An event that the poller
    /// does not wait for changes nothing and gets no action.
    pub fn step(&mut self, event: Event<C>) -> (action: Option<Action<C>>)
        ensures
            final(self).schedule == old(self).schedule,
            match transition(old(self).schedule, old(self).phase, event) {
                Some((phase, next)) => final(self).phase == phase && action == Some(next),
                None => final(self).phase == old(self).phase && action.is_none(),
            },
    {
        match (self.phase, event) {
            (Phase::Fetching, Event::Fetched { cost }) => {
                self.phase = Phase::PublishingFresh { cost };
                Some(Action::Publish { cost })
            },
            (Phase::Fetching, Event::FetchFailed) => {
                self.phase = Phase::Stopped;
                Some(Action::Abort)
            },
            (Phase::PublishingFresh { cost }, Event::PublishFinished { delivered: _, now }) => {
                let next_update = Deadline::after(now, self.schedule.update_frequency);
                self.phase = Phase::Sleeping { cost, next_update };
                Some(Action::Sleep { seconds: self.schedule.publish_frequency })
            },
            (
                Phase::PublishingCached { cost, next_update },
                Event::PublishFinished { delivered: _, now: _ },
            ) => {
                self.phase = Phase::Sleeping { cost, next_update };
                Some(Action::Sleep { seconds: self.schedule.publish_frequency })
            },
            (Phase::Sleeping { cost, next_update }, Event::Woke { now }) => {
                if next_update.has_passed(now) {
                    self.phase = Phase::Fetching;
                    Some(Action::Fetch)
                } else {
                    self.phase = Phase::PublishingCached { cost, next_update };
                    Some(Action::Publish { cost })
                }
            },
            _ => None,
        }
    }
}

} // verus!
