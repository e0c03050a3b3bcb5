//! The state poller: what the samples of one tick do to the input lines.
//! The caller reads the hardware and sends what a step asks for.

use vstd::prelude::*;
use crate::notify::{deliveries, notification_bytes, DeliveryView, Notification};
use crate::pins::{distinct_pins, store_level, PinState};

verus! {

/// What one sample does to one line. A sample that differs from the
/// stored level is stored and reported; an equal sample, or a read that
/// failed (`None`), changes and reports nothing.
pub open spec fn observe_effect(state: PinState, reading: Option<bool>) -> (
    PinState,
    Option<Notification>,
) {
    match reading {
        Some(level) => if level != state.state {
            (
                PinState { pin: state.pin, state: level },
                Some(Notification { pin: state.pin, level: level }),
            )
        } else {
            (state, None)
        },
        None => (state, None),
    }
}

/// What one sample of the line at `index` does to the input lines.
pub open spec fn observation_effect(pins: Seq<PinState>, index: int, reading: Option<bool>) -> (
    Seq<PinState>,
    Option<Notification>,
) {
    if 0 <= index < pins.len() {
        (
            pins.update(index, observe_effect(pins[index], reading).0),
            observe_effect(pins[index], reading).1,
        )
    } else {
        (pins, None)
    }
}

/// The sample of the line at `i` in a tick: a line without a sample
/// counts as one whose read failed.
pub open spec fn reading_at(readings: Seq<Option<bool>>, i: int) -> Option<bool> {
    if 0 <= i < readings.len() {
        readings[i]
    } else {
        None
    }
}

/// What each line reports in a tick, line by line.
pub open spec fn tick_reports(pins: Seq<PinState>, readings: Seq<Option<bool>>) -> Seq<
    Option<Notification>,
> {
    Seq::new(pins.len(), |i: int| observe_effect(pins[i], reading_at(readings, i)).1)
}

/// The input lines after a tick.
pub open spec fn tick_levels(pins: Seq<PinState>, readings: Seq<Option<bool>>) -> Seq<PinState> {
    Seq::new(pins.len(), |i: int| observe_effect(pins[i], reading_at(readings, i)).0)
}

/// Keeps the reports that hold a notification.
pub open spec fn reported() -> spec_fn(Option<Notification>) -> Option<Notification> {
    |report: Option<Notification>| report
}

/// The notifications of a tick: one for each line that changed, in the
/// order of the lines.
pub open spec fn tick_notifications(pins: Seq<PinState>, readings: Seq<Option<bool>>) -> Seq<
    Notification,
> {
    tick_reports(pins, readings).filter_map(reported())
}

/// What a run of samples, one a tick, does to one line: the level it
/// ends at and the notifications along the way.
pub open spec fn observe_run(state: PinState, samples: Seq<Option<bool>>) -> (
    PinState,
    Seq<Notification>,
)
    decreases samples.len(),
{
    if samples.len() == 0 {
        (state, Seq::empty())
    } else {
        let before = observe_run(state, samples.drop_last());
        let step = observe_effect(before.0, samples.last());
        (
            step.0,
            match step.1 {
                Some(notification) => before.1.push(notification),
                None => before.1,
            },
        )
    }
}

/// The input lines after a run of ticks, each with its samples.
pub open spec fn levels_after_ticks(pins: Seq<PinState>, ticks: Seq<Seq<Option<bool>>>) -> Seq<PinState>
    decreases ticks.len(),
{
    if ticks.len() == 0 {
        pins
    } else {
        tick_levels(levels_after_ticks(pins, ticks.drop_last()), ticks.last())
    }
}

/// The samples that a run of ticks holds for the line at `index`.
pub open spec fn samples_of(ticks: Seq<Seq<Option<bool>>>, index: int) -> Seq<Option<bool>> {
    Seq::new(ticks.len(), |k: int| reading_at(ticks[k], index))
}

/// The owner of the input lines.
#[derive(Debug)]
pub struct Poller {
    pins: Vec<PinState>,
}

impl View for Poller {
    type V = Seq<PinState>;

    closed spec fn view(&self) -> Seq<PinState> {
        self.pins@
    }
}

impl Poller {
    #[verifier::type_invariant]
    closed spec fn inv(self) -> bool {
        distinct_pins(self.pins@)
    }

    /// Takes ownership of the input lines.
    pub(crate) fn over(pins: Vec<PinState>) -> (p: Poller)
        requires
            distinct_pins(pins@),
        ensures
            p@ == pins@,
    {
        Poller { pins }
    }

    /// The input lines with the levels last observed.
    pub fn pins(&self) -> (r: &Vec<PinState>)
        ensures
            r@ == self@,
            distinct_pins(self@),
    {
        proof {
            use_type_invariant(self);
        }
        &self.pins
    }

    /// Takes in one sample of the line at `index`: `Some` with the level
    /// read, `None` for a read that failed. Returns the notification to
    /// send, if the level changed. An index past the last line is ignored.
    pub fn observe(&mut self, index: usize, reading: Option<bool>) -> (r: Option<Notification>)
        ensures
            (final(self)@, r) == observation_effect(old(self)@, index as int, reading),
    {
        proof {
            use_type_invariant(&*self);
        }
        if index >= self.pins.len() {
            return None;
        }
        let state = self.pins[index];
        match reading {
            Some(level) => {
                if level != state.state {
                    store_level(&mut self.pins, index, level);
                    Some(Notification { pin: state.pin, level: level })
                } else {
                    None
                }
            },
            None => None,
        }
    }

    /// Takes in the samples of one tick, `readings[i]` being the sample
    /// of the line at `i`, and returns the notifications to send, in the
    /// order of the lines.
    pub fn tick(&mut self, readings: &Vec<Option<bool>>) -> (r: Vec<Notification>)
        ensures
            final(self)@ == tick_levels(old(self)@, readings@),
            r@ == tick_notifications(old(self)@, readings@),
    {
        let ghost before = self@;
        let ghost reports = tick_reports(before, readings@);
        let mut out: Vec<Notification> = Vec::new();
        let mut i: usize = 0;
        while i < self.pins.len()
            invariant
                i <= before.len(),
                self@.len() == before.len(),
                reports == tick_reports(before, readings@),
                forall|k: int| 0 <= k < i ==> self@[k] == tick_levels(before, readings@)[k],
                forall|k: int| i <= k < before.len() ==> self@[k] == before[k],
                out@ == reports.take(i as int).filter_map(reported()),
            decreases before.len() - i,
        {
            let reading = if i < readings.len() {
                readings[i]
            } else {
                None
            };
            proof {
                reports.lemma_filter_map_take_succ(reported(), i as int);
            }
            match self.observe(i, reading) {
                Some(notification) => out.push(notification),
                None => {},
            }
            i += 1;
        }
        proof {
            assert(reports.take(i as int) == reports);
        }
        out
    }
}

/// While every sample of a line equals its stored level, over however
/// many ticks, nothing is reported and the stored level stays.
pub proof fn law_steady_samples_are_silent(state: PinState, samples: Seq<Option<bool>>)
    requires
        forall|i: int| 0 <= i < samples.len() ==> samples[i] == Some(state.state),
    ensures
        observe_run(state, samples) == (state, Seq::<Notification>::empty()),
    decreases samples.len(),
{
    if samples.len() > 0 {
        law_steady_samples_are_silent(state, samples.drop_last());
    }
}

/// On the tick where the sample of a line changes, after any number of
/// unchanged samples, exactly one notification is reported, with the new
/// level, and it is fanned out once to each client of the registry.
pub proof fn law_change_is_reported_once(
    state: PinState,
    samples: Seq<Option<bool>>,
    level: bool,
    clients: nat,
)
    requires
        forall|i: int| 0 <= i < samples.len() ==> samples[i] == Some(state.state),
        level != state.state,
    ensures
        observe_run(state, samples.push(Some(level))) == (
            PinState { pin: state.pin, state: level },
            seq![Notification { pin: state.pin, level: level }],
        ),
        deliveries(Notification { pin: state.pin, level: level }, clients).len() == clients,
        forall|c: int|
            0 <= c < clients ==> #[trigger] deliveries(
                Notification { pin: state.pin, level: level },
                clients,
            )[c] == (DeliveryView {
                client: c as nat,
                payload: notification_bytes(Notification { pin: state.pin, level: level }),
            }),
{
    law_steady_samples_are_silent(state, samples);
    assert(samples.push(Some(level)).drop_last() == samples);
}

/// A read that fails leaves the stored level as it was and reports
/// nothing, and the ticks after it go as if it had not happened.
pub proof fn law_failed_read_keeps_level(state: PinState, later: Seq<Option<bool>>)
    ensures
        observe_effect(state, None) == (state, None::<Notification>),
        observe_run(state, seq![None::<bool>] + later) == observe_run(state, later),
    decreases later.len(),
{
    let samples = seq![None::<bool>] + later;
    if later.len() == 0 {
        assert(samples.drop_last() == later);
    } else {
        law_failed_read_keeps_level(state, later.drop_last());
        assert(samples.drop_last() == seq![None::<bool>] + later.drop_last());
    }
}

/// A read that fails in a tick leaves every line of the poller as it
/// was, and a tick in which every read fails or returns the stored level
/// reports nothing.
pub proof fn law_quiet_tick_changes_nothing(
    pins: Seq<PinState>,
    index: int,
    readings: Seq<Option<bool>>,
)
    requires
        forall|i: int|
            0 <= i < pins.len() ==> reading_at(readings, i).is_none() || reading_at(readings, i)
                == Some(pins[i].state),
    ensures
        observation_effect(pins, index, None) == (pins, None::<Notification>),
        tick_levels(pins, readings) == pins,
        tick_notifications(pins, readings) == Seq::<Notification>::empty(),
{
    lemma_no_reports(tick_reports(pins, readings));
}

/// Where no line reports, there is no notification.
proof fn lemma_no_reports(reports: Seq<Option<Notification>>)
    requires
        forall|i: int| 0 <= i < reports.len() ==> reports[i].is_none(),
    ensures
        reports.filter_map(reported()) == Seq::<Notification>::empty(),
    decreases reports.len(),
{
    if reports.len() > 0 {
        lemma_no_reports(reports.drop_last());
    }
}

/// Each line is polled for itself: over any run of ticks, the level a
/// line ends at is the one its own samples lead to, whatever the other
/// lines are sampled as.
pub proof fn law_lines_are_polled_independently(
    pins: Seq<PinState>,
    ticks: Seq<Seq<Option<bool>>>,
    index: int,
)
    requires
        0 <= index < pins.len(),
    ensures
        levels_after_ticks(pins, ticks).len() == pins.len(),
        levels_after_ticks(pins, ticks)[index] == observe_run(pins[index], samples_of(ticks, index)).0,
    decreases ticks.len(),
{
    if ticks.len() > 0 {
        law_lines_are_polled_independently(pins, ticks.drop_last(), index);
        assert(samples_of(ticks, index).drop_last() == samples_of(ticks.drop_last(), index));
    }
}

} // verus!
