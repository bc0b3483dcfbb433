//! The sampler: what is written into the gauges on each tick, and in which
//! order the sampler fetches, writes and sleeps.
//!
//! The sampler itself performs no call and does not sleep. It is driven from
//! outside: the driver asks for the next action, performs it, and hands the
//! outcome back as an event. Since the sampler is the only writer of the
//! gauges, its readings are the values that the gauges hold once the driver
//! has performed the writes.

use crate::metrics::GaugeId;
use vstd::prelude::*;

verus! {

/// Seconds that the sampler sleeps at the end of each tick.
pub const TICK_INTERVAL_SECS: u64 = 15;

/// Number of wei in one gwei.
pub const WEI_PER_GWEI: u64 = 1_000_000_000;

/// The exact value of a gauge: the rational `numerator / denominator`.
#[derive(Clone, Copy, Debug, PartialEq, Eq)]
pub struct GaugeValue {
    pub numerator: u64,
    pub denominator: u64,
}

impl GaugeValue {
    /// The value of the latest block gauge for a block number.
    pub open spec fn spec_block(number: u64) -> GaugeValue {
        GaugeValue { numerator: number, denominator: 1 }
    }

    /// The value of the gas price gauge, in gwei, for a price in wei.
    pub open spec fn spec_gwei(wei: u64) -> GaugeValue {
        GaugeValue { numerator: wei, denominator: WEI_PER_GWEI }
    }

    /// The value of the latest block gauge for a block number: the number
    /// itself.
    pub fn block(number: u64) -> (r: GaugeValue)
        ensures
            r == GaugeValue::spec_block(number),
    {
        GaugeValue { numerator: number, denominator: 1 }
    }

    /// The value of the gas price gauge for a price in wei: the price divided
    /// by the number of wei in one gwei.
    pub fn gwei(wei: u64) -> (r: GaugeValue)
        ensures
            r == GaugeValue::spec_gwei(wei),
    {
        GaugeValue { numerator: wei, denominator: WEI_PER_GWEI }
    }
}

/// An instruction to overwrite one gauge.
#[derive(Clone, Copy, Debug, PartialEq, Eq)]
pub struct GaugeWrite {
    pub gauge: GaugeId,
    pub value: GaugeValue,
}

/// What one tick fetched from the chain. `None` stands for a call that
/// failed.
#[derive(Clone, Copy, Debug, PartialEq, Eq)]
pub struct Sample {
    pub block_number: Option<u64>,
    pub gas_price_wei: Option<u64>,
}

/// The values of the two gauges: the latest block number and the gas price
/// in wei. Both gauges start at zero.
#[derive(Clone, Copy, Debug, PartialEq, Eq)]
pub struct Readings {
    pub latest_block: u64,
    pub gas_price_wei: u64,
}

impl Readings {
    /// The readings after a block number call with the given outcome.
    pub open spec fn spec_with_block(self, outcome: Option<u64>) -> Readings {
        match outcome {
            Some(number) => Readings { latest_block: number, ..self },
            None => self,
        }
    }

    /// The readings after a gas price call with the given outcome.
    pub open spec fn spec_with_gas_price(self, outcome: Option<u64>) -> Readings {
        match outcome {
            Some(wei) => Readings { gas_price_wei: wei, ..self },
            None => self,
        }
    }

    /// The readings after one tick that fetched `sample`.
    pub open spec fn spec_apply(self, sample: Sample) -> Readings {
        self.spec_with_block(sample.block_number).spec_with_gas_price(sample.gas_price_wei)
    }

    /// The exact value of the gauge `id`.
    pub open spec fn spec_value(self, id: GaugeId) -> GaugeValue {
        match id {
            GaugeId::LatestBlock => GaugeValue::spec_block(self.latest_block),
            GaugeId::GasPrice => GaugeValue::spec_gwei(self.gas_price_wei),
        }
    }

    /// The readings of a metric set that was just built: both gauges at zero.
    pub fn new() -> (r: Readings)
        ensures
            r == (Readings { latest_block: 0, gas_price_wei: 0 }),
    {
        Readings { latest_block: 0, gas_price_wei: 0 }
    }

    /// The readings after a block number call: a call that succeeded
    /// overwrites the latest block, a call that failed leaves it as it was.
    /// The gas price is not touched.
    pub fn with_block(self, outcome: Option<u64>) -> (r: Readings)
        ensures
            r == self.spec_with_block(outcome),
            outcome is None ==> r == self,
            r.gas_price_wei == self.gas_price_wei,
    {
        match outcome {
            Some(number) => Readings { latest_block: number, gas_price_wei: self.gas_price_wei },
            None => self,
        }
    }

    /// The readings after a gas price call: a call that succeeded overwrites
    /// the gas price, a call that failed leaves it as it was. The latest
    /// block is not touched.
    pub fn with_gas_price(self, outcome: Option<u64>) -> (r: Readings)
        ensures
            r == self.spec_with_gas_price(outcome),
            outcome is None ==> r == self,
            r.latest_block == self.latest_block,
    {
        match outcome {
            Some(wei) => Readings { latest_block: self.latest_block, gas_price_wei: wei },
            None => self,
        }
    }

    /// The readings after one tick that fetched `sample`: first the block
    /// number call, then the gas price call.
    pub fn apply(self, sample: Sample) -> (r: Readings)
        ensures
            r == self.spec_apply(sample),
            sample.block_number is None ==> r.latest_block == self.latest_block,
            sample.gas_price_wei is None ==> r.gas_price_wei == self.gas_price_wei,
    {
        self.with_block(sample.block_number).with_gas_price(sample.gas_price_wei)
    }

    /// The exact value of the gauge `id`.
    pub fn value(&self, id: GaugeId) -> (r: GaugeValue)
        ensures
            r == self.spec_value(id),
    {
        match id {
            GaugeId::LatestBlock => GaugeValue::block(self.latest_block),
            GaugeId::GasPrice => GaugeValue::gwei(self.gas_price_wei),
        }
    }
}

/// The readings after the ticks that fetched `samples`, in order.
pub open spec fn after_ticks(start: Readings, samples: Seq<Sample>) -> Readings
    decreases samples.len(),
{
    if samples.len() == 0 {
        start
    } else {
        after_ticks(start, samples.drop_last()).spec_apply(samples.last())
    }
}

/// Where the sampler stands within a tick.
#[derive(Clone, Copy, Debug, PartialEq, Eq)]
pub enum SamplerPhase {
    /// The block number is to be fetched.
    AwaitingBlockNumber,
    /// The gas price is to be fetched.
    AwaitingGasPrice,
    /// Both calls of the tick are done; the sampler is to sleep.
    Sleeping,
}

/// What the driver is to do next.
#[derive(Clone, Copy, Debug, PartialEq, Eq)]
pub enum SamplerAction {
    FetchBlockNumber,
    FetchGasPrice,
    Sleep { seconds: u64 },
}

/// The outcome of an action.
#[derive(Clone, Copy, Debug, PartialEq, Eq)]
pub enum SamplerEvent {
    /// The block number call returned; `None` if it failed.
    BlockNumber(Option<u64>),
    /// The gas price call returned, in wei; `None` if it failed.
    GasPrice(Option<u64>),
    /// The sleep is over.
    TimerElapsed,
}

/// The sampler's state: its place in the tick and the values of the gauges.
#[derive(Clone, Copy, Debug, PartialEq, Eq)]
pub struct Sampler {
    pub phase: SamplerPhase,
    pub readings: Readings,
}

impl Sampler {
    /// The action that belongs to the sampler's phase.
    pub open spec fn spec_next_action(self) -> SamplerAction {
        match self.phase {
            SamplerPhase::AwaitingBlockNumber => SamplerAction::FetchBlockNumber,
            SamplerPhase::AwaitingGasPrice => SamplerAction::FetchGasPrice,
            SamplerPhase::Sleeping => SamplerAction::Sleep { seconds: TICK_INTERVAL_SECS },
        }
    }

    /// Whether `event` is the outcome of the action that the sampler asked
    /// for.
    pub open spec fn spec_expects(self, event: SamplerEvent) -> bool {
        match (self.phase, event) {
            (SamplerPhase::AwaitingBlockNumber, SamplerEvent::BlockNumber(_)) => true,
            (SamplerPhase::AwaitingGasPrice, SamplerEvent::GasPrice(_)) => true,
            (SamplerPhase::Sleeping, SamplerEvent::TimerElapsed) => true,
            _ => false,
        }
    }

    /// The sampler after `event`. An event that the sampler did not ask for
    /// leaves it as it is.
    pub open spec fn spec_step(self, event: SamplerEvent) -> Sampler {
        match (self.phase, event) {
            (SamplerPhase::AwaitingBlockNumber, SamplerEvent::BlockNumber(outcome)) => Sampler {
                phase: SamplerPhase::AwaitingGasPrice,
                readings: self.readings.spec_with_block(outcome),
            },
            (SamplerPhase::AwaitingGasPrice, SamplerEvent::GasPrice(outcome)) => Sampler {
                phase: SamplerPhase::Sleeping,
                readings: self.readings.spec_with_gas_price(outcome),
            },
            (SamplerPhase::Sleeping, SamplerEvent::TimerElapsed) => Sampler {
                phase: SamplerPhase::AwaitingBlockNumber,
                readings: self.readings,
            },
            _ => self,
        }
    }

    /// The write that `event` calls for: the fetched value where a call that
    /// the sampler asked for succeeded, none otherwise.
    pub open spec fn spec_write(self, event: SamplerEvent) -> Option<GaugeWrite> {
        match (self.phase, event) {
            (SamplerPhase::AwaitingBlockNumber, SamplerEvent::BlockNumber(Some(number))) => Some(
                GaugeWrite { gauge: GaugeId::LatestBlock, value: GaugeValue::spec_block(number) },
            ),
            (SamplerPhase::AwaitingGasPrice, SamplerEvent::GasPrice(Some(wei))) => Some(
                GaugeWrite { gauge: GaugeId::GasPrice, value: GaugeValue::spec_gwei(wei) },
            ),
            _ => None,
        }
    }

    /// The sampler after a whole tick that began in `self` and fetched
    /// `sample`.
    pub open spec fn spec_tick(self, sample: Sample) -> Sampler {
        self.spec_step(SamplerEvent::BlockNumber(sample.block_number)).spec_step(
            SamplerEvent::GasPrice(sample.gas_price_wei),
        ).spec_step(SamplerEvent::TimerElapsed)
    }

    /// A sampler at the start of its first tick, over gauges at zero.
    pub open spec fn spec_new() -> Sampler {
        Sampler {
            phase: SamplerPhase::AwaitingBlockNumber,
            readings: Readings { latest_block: 0, gas_price_wei: 0 },
        }
    }

    /// A sampler at the start of its first tick, over gauges at zero.
    pub fn new() -> (r: Sampler)
        ensures
            r == Sampler::spec_new(),
    {
        Sampler { phase: SamplerPhase::AwaitingBlockNumber, readings: Readings::new() }
    }

    /// What the driver is to do next: fetch the block number, then fetch the
    /// gas price, then sleep for the tick interval, and so on without end.
    pub fn next_action(&self) -> (r: SamplerAction)
        ensures
            r == self.spec_next_action(),
    {
        match self.phase {
            SamplerPhase::AwaitingBlockNumber => SamplerAction::FetchBlockNumber,
            SamplerPhase::AwaitingGasPrice => SamplerAction::FetchGasPrice,
            SamplerPhase::Sleeping => SamplerAction::Sleep { seconds: TICK_INTERVAL_SECS },
        }
    }

    /// Takes the outcome of the last action and returns the gauge write that
    /// it calls for, if any.
    ///
    /// A call that succeeded overwrites its gauge with the fetched value; a
    /// call that failed writes nothing and leaves the reading as it was. In
    /// both cases the sampler moves on to its next phase. An event that the
    /// sampler did not ask for changes nothing and writes nothing.
    pub fn step(&mut self, event: SamplerEvent) -> (r: Option<GaugeWrite>)
        ensures
            *final(self) == old(self).spec_step(event),
            r == old(self).spec_write(event),
            r matches Some(write) ==> final(self).readings.spec_value(write.gauge) == write.value,
            r is None ==> final(self).readings == old(self).readings,
    {
        match (self.phase, event) {
            (SamplerPhase::AwaitingBlockNumber, SamplerEvent::BlockNumber(outcome)) => {
                self.phase = SamplerPhase::AwaitingGasPrice;
                self.readings = self.readings.with_block(outcome);
                match outcome {
                    Some(number) => Some(
                        GaugeWrite { gauge: GaugeId::LatestBlock, value: GaugeValue::block(number) },
                    ),
                    None => None,
                }
            },
            (SamplerPhase::AwaitingGasPrice, SamplerEvent::GasPrice(outcome)) => {
                self.phase = SamplerPhase::Sleeping;
                self.readings = self.readings.with_gas_price(outcome);
                match outcome {
                    Some(wei) => Some(
                        GaugeWrite { gauge: GaugeId::GasPrice, value: GaugeValue::gwei(wei) },
                    ),
                    None => None,
                }
            },
            (SamplerPhase::Sleeping, SamplerEvent::TimerElapsed) => {
                self.phase = SamplerPhase::AwaitingBlockNumber;
                None
            },
            _ => None,
        }
    }
}

/// A whole tick, taken step by step, ends where it began, at the start of the
/// next tick, and leaves the readings that the tick's sample gives.
pub proof fn lemma_tick_is_three_steps(sampler: Sampler, sample: Sample)
    requires
        sampler.phase == SamplerPhase::AwaitingBlockNumber,
    ensures
        sampler.spec_tick(sample) == (Sampler {
            phase: SamplerPhase::AwaitingBlockNumber,
            readings: sampler.readings.spec_apply(sample),
        }),
{
}

/// The sampler has no final state: whatever it has seen, it asks for a next
/// action, and the outcome of that action moves it to another phase.
pub proof fn lemma_sampler_never_stops(sampler: Sampler, event: SamplerEvent)
    requires
        sampler.spec_expects(event),
    ensures
        sampler.spec_step(event).phase != sampler.phase,
        sampler.spec_step(event).phase == match sampler.phase {
            SamplerPhase::AwaitingBlockNumber => SamplerPhase::AwaitingGasPrice,
            SamplerPhase::AwaitingGasPrice => SamplerPhase::Sleeping,
            SamplerPhase::Sleeping => SamplerPhase::AwaitingBlockNumber,
        },
{
}

/// After `n` ticks whose calls all succeeded, the latest block gauge holds
/// the block number that the `n`-th tick fetched, and the gas price gauge
/// holds the gas price that the `n`-th tick fetched, in gwei.
pub proof fn lemma_successful_ticks(start: Readings, samples: Seq<Sample>, n: int)
    requires
        1 <= n <= samples.len(),
        forall|i: int|
            0 <= i < samples.len() ==> (#[trigger] samples[i]).block_number is Some
                && samples[i].gas_price_wei is Some,
    ensures
        after_ticks(start, samples.take(n)).spec_value(GaugeId::LatestBlock)
            == GaugeValue::spec_block(samples[n - 1].block_number.unwrap()),
        after_ticks(start, samples.take(n)).spec_value(GaugeId::GasPrice) == GaugeValue::spec_gwei(
            samples[n - 1].gas_price_wei.unwrap(),
        ),
{
    let taken = samples.take(n);
    assert(taken.last() == samples[n - 1]);
}

/// A tick whose block number call failed leaves the latest block gauge as it
/// was, and one whose gas price call failed leaves the gas price gauge as it
/// was, whatever the other call returned and whatever came before.
pub proof fn lemma_failed_call_keeps_value(start: Readings, samples: Seq<Sample>, n: int)
    requires
        1 <= n <= samples.len(),
    ensures
        samples[n - 1].block_number is None ==> after_ticks(start, samples.take(n)).spec_value(
            GaugeId::LatestBlock,
        ) == after_ticks(start, samples.take(n - 1)).spec_value(GaugeId::LatestBlock),
        samples[n - 1].gas_price_wei is None ==> after_ticks(start, samples.take(n)).spec_value(
            GaugeId::GasPrice,
        ) == after_ticks(start, samples.take(n - 1)).spec_value(GaugeId::GasPrice),
{
    let taken = samples.take(n);
    assert(taken.last() == samples[n - 1]);
    assert(taken.drop_last() =~= samples.take(n - 1));
}

/// The sampler after the events `events`, in order, from `start`.
pub open spec fn after_steps(start: Sampler, events: Seq<SamplerEvent>) -> Sampler
    decreases events.len(),
{
    if events.len() == 0 {
        start
    } else {
        after_steps(start, events.drop_last()).spec_step(events.last())
    }
}

/// No reading is ever a value that was not written: whatever the sampler has
/// seen, each reading is the one it started with or a value that one of the
/// calls returned.
pub proof fn lemma_readings_were_fetched(start: Sampler, events: Seq<SamplerEvent>)
    ensures
        ({
            let number = after_steps(start, events).readings.latest_block;
            number == start.readings.latest_block || exists|i: int|
                0 <= i < events.len() && #[trigger] events[i] == SamplerEvent::BlockNumber(
                    Some(number),
                )
        }),
        ({
            let wei = after_steps(start, events).readings.gas_price_wei;
            wei == start.readings.gas_price_wei || exists|i: int|
                0 <= i < events.len() && #[trigger] events[i] == SamplerEvent::GasPrice(Some(wei))
        }),
    decreases events.len(),
{
    if events.len() > 0 {
        let earlier = events.drop_last();
        let before = after_steps(start, earlier);
        let after = before.spec_step(events.last());
        lemma_readings_were_fetched(start, earlier);
        let last = events.len() - 1;
        assert(events[last] == events.last());

        let number = after.readings.latest_block;
        if number != start.readings.latest_block {
            if number == before.readings.latest_block {
                let i = choose|i: int|
                    0 <= i < earlier.len() && #[trigger] earlier[i] == SamplerEvent::BlockNumber(
                        Some(number),
                    );
                assert(events[i] == earlier[i]);
            } else {
                assert(events[last] == SamplerEvent::BlockNumber(Some(number)));
            }
        }
        let wei = after.readings.gas_price_wei;
        if wei != start.readings.gas_price_wei {
            if wei == before.readings.gas_price_wei {
                let i = choose|i: int|
                    0 <= i < earlier.len() && #[trigger] earlier[i] == SamplerEvent::GasPrice(
                        Some(wei),
                    );
                assert(events[i] == earlier[i]);
            } else {
                assert(events[last] == SamplerEvent::GasPrice(Some(wei)));
            }
        }
    }
}

} // verus!
