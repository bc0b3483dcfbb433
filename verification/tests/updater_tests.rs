use arbitrum_exporter::metrics::{ArbitrumMetrics, GaugeId};
use arbitrum_exporter::updater::{
    GaugeValue, GaugeWrite, Readings, Sample, Sampler, SamplerAction, SamplerEvent, SamplerPhase,
    TICK_INTERVAL_SECS, WEI_PER_GWEI,
};

fn perform(metrics: &ArbitrumMetrics, write: Option<GaugeWrite>) {
    if let Some(write) = write {
        let value = write.value.numerator as f64 / write.value.denominator as f64;
        metrics.gauge(write.gauge).inner.set(value);
    }
}

fn tick(sampler: &mut Sampler, metrics: &ArbitrumMetrics, sample: Sample) {
    assert_eq!(sampler.next_action(), SamplerAction::FetchBlockNumber);
    perform(metrics, sampler.step(SamplerEvent::BlockNumber(sample.block_number)));
    assert_eq!(sampler.next_action(), SamplerAction::FetchGasPrice);
    perform(metrics, sampler.step(SamplerEvent::GasPrice(sample.gas_price_wei)));
    assert_eq!(sampler.next_action(), SamplerAction::Sleep { seconds: 15 });
    perform(metrics, sampler.step(SamplerEvent::TimerElapsed));
}

#[test]
fn constants_of_the_sampler() {
    assert_eq!(TICK_INTERVAL_SECS, 15);
    assert_eq!(WEI_PER_GWEI, 1_000_000_000);
}

#[test]
fn block_value_is_the_number_itself() {
    assert_eq!(GaugeValue::block(12345), GaugeValue { numerator: 12345, denominator: 1 });
    assert_eq!(GaugeValue::block(0), GaugeValue { numerator: 0, denominator: 1 });
    assert_eq!(GaugeValue::block(u64::MAX), GaugeValue { numerator: u64::MAX, denominator: 1 });
}

#[test]
fn gwei_value_divides_wei_by_a_billion() {
    assert_eq!(
        GaugeValue::gwei(1_500_000_000),
        GaugeValue { numerator: 1_500_000_000, denominator: 1_000_000_000 }
    );
    assert_eq!(GaugeValue::gwei(0), GaugeValue { numerator: 0, denominator: 1_000_000_000 });
    assert_eq!(
        GaugeValue::gwei(u64::MAX),
        GaugeValue { numerator: u64::MAX, denominator: 1_000_000_000 }
    );
}

#[test]
fn readings_start_at_zero() {
    assert_eq!(Readings::new(), Readings { latest_block: 0, gas_price_wei: 0 });
    assert_eq!(Sampler::new().readings, Readings { latest_block: 0, gas_price_wei: 0 });
    assert_eq!(Sampler::new().phase, SamplerPhase::AwaitingBlockNumber);
}

#[test]
fn readings_value_of_each_gauge() {
    let readings = Readings { latest_block: 100, gas_price_wei: 500_000_000 };
    assert_eq!(
        readings.value(GaugeId::LatestBlock),
        GaugeValue { numerator: 100, denominator: 1 }
    );
    assert_eq!(
        readings.value(GaugeId::GasPrice),
        GaugeValue { numerator: 500_000_000, denominator: 1_000_000_000 }
    );
}

#[test]
fn successful_call_overwrites_its_reading_only() {
    let start = Readings { latest_block: 7, gas_price_wei: 9 };
    assert_eq!(start.with_block(Some(8)), Readings { latest_block: 8, gas_price_wei: 9 });
    assert_eq!(start.with_gas_price(Some(10)), Readings { latest_block: 7, gas_price_wei: 10 });
}

#[test]
fn failed_call_leaves_readings_unchanged() {
    let start = Readings { latest_block: 7, gas_price_wei: 9 };
    assert_eq!(start.with_block(None), start);
    assert_eq!(start.with_gas_price(None), start);
    assert_eq!(start.apply(Sample { block_number: None, gas_price_wei: None }), start);
}

#[test]
fn apply_takes_both_outcomes() {
    let start = Readings { latest_block: 7, gas_price_wei: 9 };
    assert_eq!(
        start.apply(Sample { block_number: Some(8), gas_price_wei: Some(10) }),
        Readings { latest_block: 8, gas_price_wei: 10 }
    );
    assert_eq!(
        start.apply(Sample { block_number: None, gas_price_wei: Some(10) }),
        Readings { latest_block: 7, gas_price_wei: 10 }
    );
    assert_eq!(
        start.apply(Sample { block_number: Some(8), gas_price_wei: None }),
        Readings { latest_block: 8, gas_price_wei: 9 }
    );
}

#[test]
fn after_each_successful_tick_gauges_hold_that_ticks_values() {
    let samples = [
        (1u64, 1_000_000_000u64),
        (2, 2_500_000_000),
        (3, 100_000_000),
        (1, 0),
    ];
    let mut readings = Readings::new();
    for (block, wei) in samples {
        readings = readings.apply(Sample { block_number: Some(block), gas_price_wei: Some(wei) });
        assert_eq!(readings.latest_block, block);
        assert_eq!(readings.gas_price_wei, wei);
        assert_eq!(readings.value(GaugeId::LatestBlock), GaugeValue::block(block));
        assert_eq!(readings.value(GaugeId::GasPrice), GaugeValue::gwei(wei));
    }
}

#[test]
fn successful_ticks_reach_the_gauges() {
    let metrics = ArbitrumMetrics::new().unwrap();
    let mut sampler = Sampler::new();
    tick(
        &mut sampler,
        &metrics,
        Sample { block_number: Some(100), gas_price_wei: Some(500_000_000) },
    );
    assert_eq!(metrics.latest_block_gauge().inner.get(), 100.0);
    assert_eq!(metrics.gas_price_gauge().inner.get(), 0.5);
    tick(
        &mut sampler,
        &metrics,
        Sample { block_number: Some(101), gas_price_wei: Some(1_250_000_000) },
    );
    assert_eq!(metrics.latest_block_gauge().inner.get(), 101.0);
    assert_eq!(metrics.gas_price_gauge().inner.get(), 1.25);
}

#[test]
fn block_succeeds_then_gas_price_fails() {
    let metrics = ArbitrumMetrics::new().unwrap();
    let mut sampler = Sampler::new();
    tick(
        &mut sampler,
        &metrics,
        Sample { block_number: Some(1), gas_price_wei: Some(2_000_000_000) },
    );
    let gas_before = metrics.gas_price_gauge().inner.get();
    let wei_before = sampler.readings.gas_price_wei;
    tick(&mut sampler, &metrics, Sample { block_number: Some(12345), gas_price_wei: None });
    assert_eq!(sampler.readings.latest_block, 12345);
    assert_eq!(sampler.readings.gas_price_wei, wei_before);
    assert_eq!(metrics.latest_block_gauge().inner.get(), 12345.0);
    assert_eq!(metrics.gas_price_gauge().inner.get(), gas_before);
    assert_eq!(gas_before, 2.0);
}

#[test]
fn block_succeeds_then_gas_price_fails_on_a_fresh_set() {
    let metrics = ArbitrumMetrics::new().unwrap();
    let mut sampler = Sampler::new();
    tick(&mut sampler, &metrics, Sample { block_number: Some(12345), gas_price_wei: None });
    assert_eq!(sampler.readings, Readings { latest_block: 12345, gas_price_wei: 0 });
    assert_eq!(metrics.latest_block_gauge().inner.get(), 12345.0);
    assert_eq!(metrics.gas_price_gauge().inner.get(), 0.0);
}

#[test]
fn failed_block_call_is_not_written_and_not_zeroed() {
    let metrics = ArbitrumMetrics::new().unwrap();
    let mut sampler = Sampler::new();
    tick(&mut sampler, &metrics, Sample { block_number: Some(9), gas_price_wei: Some(1) });
    assert_eq!(sampler.step(SamplerEvent::BlockNumber(None)), None);
    assert_eq!(sampler.readings.latest_block, 9);
    assert_eq!(metrics.latest_block_gauge().inner.get(), 9.0);
    assert_eq!(sampler.phase, SamplerPhase::AwaitingGasPrice);
}

#[test]
fn sampler_goes_on_after_failures() {
    let metrics = ArbitrumMetrics::new().unwrap();
    let mut sampler = Sampler::new();
    for _ in 0..5 {
        tick(&mut sampler, &metrics, Sample { block_number: None, gas_price_wei: None });
        assert_eq!(sampler.phase, SamplerPhase::AwaitingBlockNumber);
        assert_eq!(sampler.next_action(), SamplerAction::FetchBlockNumber);
    }
    tick(&mut sampler, &metrics, Sample { block_number: Some(4), gas_price_wei: Some(3) });
    assert_eq!(sampler.readings, Readings { latest_block: 4, gas_price_wei: 3 });
}

#[test]
fn step_returns_the_write_for_a_successful_call() {
    let mut sampler = Sampler::new();
    assert_eq!(
        sampler.step(SamplerEvent::BlockNumber(Some(12345))),
        Some(GaugeWrite {
            gauge: GaugeId::LatestBlock,
            value: GaugeValue { numerator: 12345, denominator: 1 },
        })
    );
    assert_eq!(
        sampler.step(SamplerEvent::GasPrice(Some(100_000_000))),
        Some(GaugeWrite {
            gauge: GaugeId::GasPrice,
            value: GaugeValue { numerator: 100_000_000, denominator: 1_000_000_000 },
        })
    );
    assert_eq!(sampler.step(SamplerEvent::TimerElapsed), None);
}

#[test]
fn sampler_sleeps_for_the_tick_interval() {
    let mut sampler = Sampler::new();
    sampler.step(SamplerEvent::BlockNumber(None));
    sampler.step(SamplerEvent::GasPrice(None));
    assert_eq!(sampler.phase, SamplerPhase::Sleeping);
    assert_eq!(sampler.next_action(), SamplerAction::Sleep { seconds: 15 });
}

#[test]
fn event_that_was_not_asked_for_changes_nothing() {
    let mut sampler = Sampler::new();
    let before = sampler;
    assert_eq!(sampler.step(SamplerEvent::GasPrice(Some(5))), None);
    assert_eq!(sampler, before);
    assert_eq!(sampler.step(SamplerEvent::TimerElapsed), None);
    assert_eq!(sampler, before);
    sampler.step(SamplerEvent::BlockNumber(Some(1)));
    let before = sampler;
    assert_eq!(sampler.step(SamplerEvent::BlockNumber(Some(2))), None);
    assert_eq!(sampler, before);
    sampler.step(SamplerEvent::GasPrice(Some(1)));
    let before = sampler;
    assert_eq!(sampler.step(SamplerEvent::GasPrice(Some(2))), None);
    assert_eq!(sampler.step(SamplerEvent::BlockNumber(Some(2))), None);
    assert_eq!(sampler, before);
}

#[test]
fn largest_values_pass_through() {
    let mut sampler = Sampler::new();
    sampler.step(SamplerEvent::BlockNumber(Some(u64::MAX)));
    sampler.step(SamplerEvent::GasPrice(Some(u64::MAX)));
    assert_eq!(sampler.readings, Readings { latest_block: u64::MAX, gas_price_wei: u64::MAX });
}
