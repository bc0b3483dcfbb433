use arbitrum_exporter::descriptor::{
    descriptor_id_of, dimension_hash_of, FNV_BASIS, FNV_PRIME, SEPARATOR,
};
use arbitrum_exporter::metrics::{ArbitrumMetrics, GaugeId};

#[test]
fn constants_of_the_hasher() {
    assert_eq!(FNV_BASIS, 0xcbf29ce484222325);
    assert_eq!(FNV_PRIME, 0x100000001b3);
    assert_eq!(SEPARATOR, 0xFF);
}

#[test]
fn id_of_the_empty_name_hashes_the_separator_alone() {
    assert_eq!(descriptor_id_of(""), (0xcbf29ce484222325u64 ^ 0xFF).wrapping_mul(0x100000001b3));
    assert_eq!(descriptor_id_of(""), 0xaf64724c8602eb6e);
}

#[test]
fn id_of_a_name_of_one_byte() {
    let after_a = (0xcbf29ce484222325u64 ^ 0x61).wrapping_mul(0x100000001b3);
    assert_eq!(descriptor_id_of("a"), (after_a ^ 0xFF).wrapping_mul(0x100000001b3));
}

#[test]
fn ids_of_the_two_gauges() {
    assert_eq!(descriptor_id_of("arbitrum_gas_price_gwei"), 0x3a5cd319ab13ad7d);
    assert_eq!(descriptor_id_of("arbitrum_latest_block"), 0x4545c07c34f90246);
    assert_eq!(descriptor_id_of("arbitrum_gas_price_gwei") % 2, 1);
    assert_eq!(descriptor_id_of("arbitrum_latest_block") % 2, 0);
}

#[test]
fn id_is_the_one_that_the_registry_sees() {
    let names = [
        "arbitrum_gas_price_gwei",
        "arbitrum_latest_block",
        "a",
        "_",
        ":x:y",
        "some_gauge_with_a_longer_name_0123456789",
    ];
    for name in names {
        let gauge = prometheus::Gauge::new(name, "Some help").unwrap();
        assert_eq!(prometheus::core::Collector::desc(&gauge)[0].id, descriptor_id_of(name));
    }
}

#[test]
fn id_does_not_depend_on_the_help_text() {
    let first = prometheus::Gauge::new("some_gauge", "One help").unwrap();
    let second = prometheus::Gauge::new("some_gauge", "Another help").unwrap();
    assert_eq!(prometheus::core::Collector::desc(&first)[0].id, prometheus::core::Collector::desc(&second)[0].id);
    assert_eq!(prometheus::core::Collector::desc(&first)[0].id, descriptor_id_of("some_gauge"));
}

#[test]
fn handles_carry_name_help_and_id() {
    let metrics = ArbitrumMetrics::new().unwrap();
    for id in [GaugeId::GasPrice, GaugeId::LatestBlock] {
        let gauge = &metrics.gauge(id).inner;
        let descriptors = prometheus::core::Collector::desc(gauge);
        assert_eq!(descriptors.len(), 1);
        assert_eq!(descriptors[0].fq_name, id.name());
        assert_eq!(descriptors[0].help, id.help());
        assert_eq!(descriptors[0].id, descriptor_id_of(id.name()));
        assert!(descriptors[0].const_label_pairs.is_empty());
        assert!(descriptors[0].variable_labels.is_empty());
    }
}

#[test]
fn registry_refuses_an_id_that_is_taken() {
    let registry = prometheus::Registry::new();
    let first = prometheus::Gauge::new("some_gauge", "Some help").unwrap();
    let second = prometheus::Gauge::new("some_gauge", "Some help").unwrap();
    let other = prometheus::Gauge::new("other_gauge", "Some help").unwrap();
    assert!(registry.register(Box::new(first)).is_ok());
    assert!(registry.register(Box::new(second)).is_err());
    assert!(registry.register(Box::new(other)).is_ok());
    assert_eq!(registry.gather().len(), 2);
}

#[test]
fn dimension_hash_is_the_one_that_the_registry_records() {
    let helps = [
        "Current Arbitrum Gas Price in Gwei",
        "Latest Arbitrum Block Number",
        "h",
        "Some help with a \\ and more",
        "H\u{e9}lp",
    ];
    for help in helps {
        let gauge = prometheus::Gauge::new("some_gauge", help).unwrap();
        assert_eq!(prometheus::core::Collector::desc(&gauge)[0].dim_hash, dimension_hash_of(help));
    }
}

#[test]
fn dimension_hash_does_not_depend_on_the_name() {
    let first = prometheus::Gauge::new("some_gauge", "Some help").unwrap();
    let second = prometheus::Gauge::new("other_gauge", "Some help").unwrap();
    assert_eq!(
        prometheus::core::Collector::desc(&first)[0].dim_hash,
        prometheus::core::Collector::desc(&second)[0].dim_hash
    );
    assert_eq!(dimension_hash_of("Some help"), descriptor_id_of("Some help"));
}

#[test]
fn handles_carry_their_dimension_hash() {
    let metrics = ArbitrumMetrics::new().unwrap();
    for id in [GaugeId::GasPrice, GaugeId::LatestBlock] {
        let descriptors = prometheus::core::Collector::desc(&metrics.gauge(id).inner);
        assert_eq!(descriptors[0].dim_hash, dimension_hash_of(id.help()));
    }
}

#[test]
fn registry_refuses_another_help_text_under_a_recorded_name() {
    let registry = prometheus::Registry::new();
    let first = prometheus::Gauge::new("some_gauge", "Some help").unwrap();
    assert!(registry.register(Box::new(first.clone())).is_ok());
    assert!(registry.unregister(Box::new(first)).is_ok());
    let other_help = prometheus::Gauge::new("some_gauge", "Another help").unwrap();
    assert!(registry.register(Box::new(other_help)).is_err());
    let same_help = prometheus::Gauge::new("some_gauge", "Some help").unwrap();
    assert!(registry.register(Box::new(same_help)).is_ok());
}
