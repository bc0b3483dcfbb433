//! The metric set: the two gauges and the registry that exports them.

use crate::descriptor::{descriptor_id, lemma_ids_differ_by_parity, odd_bytes};
use crate::exposition::{
    all_written_as_is, blocks, encode_registry, family_block, family_head, gauge_help, gauge_name,
    holds_gauge, holds_only_gauges, is_rendering, is_text_of, lemma_name_occurs,
    lemma_heads_occur, lemma_order_by_first_difference, lemma_order_is_strict, lists_in_order, new_gauge, new_registry, occurs_in, register_gauge,
    registered_gauges, stands_before, valid_metric_name, written_as_is, Gauge,
};
use vstd::prelude::*;

verus! {

/// Export name of the gas price gauge.
pub const GAS_PRICE_NAME: &'static str = "arbitrum_gas_price_gwei";

/// Help text of the gas price gauge.
pub const GAS_PRICE_HELP: &'static str = "Current Arbitrum Gas Price in Gwei";

/// Export name of the latest block gauge.
pub const LATEST_BLOCK_NAME: &'static str = "arbitrum_latest_block";

/// Help text of the latest block gauge.
pub const LATEST_BLOCK_HELP: &'static str = "Latest Arbitrum Block Number";

/// The two gauges of the exporter.
#[derive(Clone, Copy, Debug, PartialEq, Eq, Structural)]
pub enum GaugeId {
    GasPrice,
    LatestBlock,
}

impl GaugeId {
    /// The name under which the gauge is exported.
    pub open spec fn spec_name(self) -> Seq<char> {
        match self {
            GaugeId::GasPrice => GAS_PRICE_NAME@,
            GaugeId::LatestBlock => LATEST_BLOCK_NAME@,
        }
    }

    /// The help text that is exported with the gauge.
    pub open spec fn spec_help(self) -> Seq<char> {
        match self {
            GaugeId::GasPrice => GAS_PRICE_HELP@,
            GaugeId::LatestBlock => LATEST_BLOCK_HELP@,
        }
    }

    /// The name under which the gauge is exported.
    pub fn name(self) -> (r: &'static str)
        ensures
            r@ == self.spec_name(),
    {
        match self {
            GaugeId::GasPrice => GAS_PRICE_NAME,
            GaugeId::LatestBlock => LATEST_BLOCK_NAME,
        }
    }

    /// The help text that is exported with the gauge.
    pub fn help(self) -> (r: &'static str)
        ensures
            r@ == self.spec_help(),
    {
        match self {
            GaugeId::GasPrice => GAS_PRICE_HELP,
            GaugeId::LatestBlock => LATEST_BLOCK_HELP,
        }
    }
}

/// The gauges that a metric set exports: the help text of each, by its name.
pub open spec fn exported_gauges() -> Map<Seq<char>, Seq<char>> {
    map![
        GaugeId::GasPrice.spec_name() => GaugeId::GasPrice.spec_help(),
        GaugeId::LatestBlock.spec_name() => GaugeId::LatestBlock.spec_help(),
    ]
}

/// Both export names are accepted by the registry's rules for names, both
/// help texts are non-empty and are written out as they are, and the two
/// names differ.
pub proof fn lemma_gauge_names_valid()
    ensures
        valid_metric_name(GaugeId::GasPrice.spec_name()),
        valid_metric_name(GaugeId::LatestBlock.spec_name()),
        GaugeId::GasPrice.spec_help().len() > 0,
        GaugeId::LatestBlock.spec_help().len() > 0,
        written_as_is(GaugeId::GasPrice.spec_help()),
        written_as_is(GaugeId::LatestBlock.spec_help()),
        GaugeId::GasPrice.spec_name() != GaugeId::LatestBlock.spec_name(),
{
    reveal_strlit("arbitrum_gas_price_gwei");
    reveal_strlit("arbitrum_latest_block");
    reveal_strlit("Current Arbitrum Gas Price in Gwei");
    reveal_strlit("Latest Arbitrum Block Number");
    assert(GaugeId::GasPrice.spec_name().len() == 23);
    assert(GaugeId::LatestBlock.spec_name().len() == 21);
}

/// The descriptors of the two gauges have different ids, so one registry
/// takes both: the gas price gauge's name has 17 odd bytes, the latest block
/// gauge's has 12.
pub proof fn lemma_gauge_ids_differ()
    ensures
        descriptor_id(GaugeId::GasPrice.spec_name()) != descriptor_id(
            GaugeId::LatestBlock.spec_name(),
        ),
{
    reveal_strlit("arbitrum_gas_price_gwei");
    reveal_strlit("arbitrum_latest_block");
    let gas = GaugeId::GasPrice.spec_name();
    let block = GaugeId::LatestBlock.spec_name();
    assert(gas.len() == 23);
    assert(block.len() == 21);
    vstd::utf8::is_ascii_chars_encode_utf8(gas);
    vstd::utf8::is_ascii_chars_encode_utf8(block);
    reveal_with_fuel(odd_bytes, 24);
    assert(odd_bytes(vstd::utf8::encode_utf8(gas), 23) == 17);
    assert(odd_bytes(vstd::utf8::encode_utf8(block), 21) == 12);
    lemma_ids_differ_by_parity(gas, block);
}

/// The text of a scrape in which the values of the two gauges are written
/// as given: the block of the gas price gauge, then that of the latest block
/// gauge, and nothing else.
pub open spec fn scrape_text(gas_price: Seq<u8>, latest_block: Seq<u8>) -> Seq<u8> {
    family_block(GaugeId::GasPrice.spec_name(), GaugeId::GasPrice.spec_help(), gas_price)
        + family_block(
        GaugeId::LatestBlock.spec_name(),
        GaugeId::LatestBlock.spec_help(),
        latest_block,
    )
}

/// Whether a text is the text of a scrape, for some texts of the two values.
pub open spec fn is_scrape_text(text: Seq<u8>) -> bool {
    exists|gas_price: Seq<u8>, latest_block: Seq<u8>|
        text == #[trigger] scrape_text(gas_price, latest_block)
}

/// In the order of strings the name of the gas price gauge stands before
/// that of the latest block gauge: the two agree in their first nine bytes,
/// and then `g` stands before `l`.
pub proof fn lemma_gauge_names_in_order()
    ensures
        stands_before(
            vstd::utf8::encode_utf8(GaugeId::GasPrice.spec_name()),
            vstd::utf8::encode_utf8(GaugeId::LatestBlock.spec_name()),
        ),
        !stands_before(
            vstd::utf8::encode_utf8(GaugeId::LatestBlock.spec_name()),
            vstd::utf8::encode_utf8(GaugeId::GasPrice.spec_name()),
        ),
{
    reveal_strlit("arbitrum_gas_price_gwei");
    reveal_strlit("arbitrum_latest_block");
    let gas = GaugeId::GasPrice.spec_name();
    let block = GaugeId::LatestBlock.spec_name();
    assert(gas.len() == 23);
    assert(block.len() == 21);
    vstd::utf8::is_ascii_chars_encode_utf8(gas);
    vstd::utf8::is_ascii_chars_encode_utf8(block);
    let first = vstd::utf8::encode_utf8(gas);
    let second = vstd::utf8::encode_utf8(block);
    assert(first.subrange(0, 9) =~= second.subrange(0, 9));
    assert(first[9] == 'g' as u8);
    assert(second[9] == 'l' as u8);
    lemma_order_by_first_difference(first, second, 9);
}

/// A text that is made of one block for each exported gauge, in the order of
/// their names, is the text of a scrape.
pub proof fn lemma_text_of_exported_gauges(text: Seq<u8>)
    requires
        is_text_of(exported_gauges(), text),
    ensures
        is_scrape_text(text),
{
    let gauges = exported_gauges();
    let gas = GaugeId::GasPrice.spec_name();
    let block = GaugeId::LatestBlock.spec_name();
    let (names, values) = choose|names: Seq<Seq<char>>, values: Seq<Seq<u8>>|
        lists_in_order(gauges, names) && values.len() == names.len() && text == #[trigger] blocks(
            gauges,
            names,
            values,
            names.len(),
        );
    lemma_gauge_names_valid();
    lemma_gauge_names_in_order();
    lemma_order_is_strict(vstd::utf8::encode_utf8(gas));
    lemma_order_is_strict(vstd::utf8::encode_utf8(block));
    assert(gauges.dom() =~= set![gas, block]);
    assert(set![gas, block].len() == 2);
    assert(names.len() == 2);
    assert(gauges.contains_key(names[0]));
    assert(gauges.contains_key(names[1]));
    assert(stands_before(
        vstd::utf8::encode_utf8(names[0]),
        vstd::utf8::encode_utf8(names[1]),
    ));
    assert(names[0] == gas);
    assert(names[1] == block);
    reveal_with_fuel(blocks, 3);
    assert(blocks(gauges, names, values, 2) =~= scrape_text(values[0], values[1]));
}

/// The text of a scrape holds the head of each gauge's block.
pub proof fn lemma_scrape_text_holds_heads(gas_price: Seq<u8>, latest_block: Seq<u8>)
    ensures
        forall|id: GaugeId|
            occurs_in(
                family_head(#[trigger] id.spec_name(), id.spec_help()),
                scrape_text(gas_price, latest_block),
            ),
{
    lemma_heads_occur(
        family_head(GaugeId::GasPrice.spec_name(), GaugeId::GasPrice.spec_help()),
        gas_price,
        family_head(GaugeId::LatestBlock.spec_name(), GaugeId::LatestBlock.spec_help()),
        latest_block,
        vstd::utf8::encode_utf8("\n"@),
    );
    assert forall|id: GaugeId|
        occurs_in(
            family_head(#[trigger] id.spec_name(), id.spec_help()),
            scrape_text(gas_price, latest_block),
        ) by {
        match id {
            GaugeId::GasPrice => {},
            GaugeId::LatestBlock => {},
        }
    }
}

/// Why a metric set could not be built.
#[derive(Debug)]
pub enum MetricsError {
    /// The gauge's name or help text was refused.
    InvalidGauge { gauge: GaugeId, cause: prometheus::Error },
    /// The registry refused the gauge.
    Registration { gauge: GaugeId, cause: prometheus::Error },
}

/// The outcome of creating the gauge `gauge`, given what the creation
/// returned: the gauge itself, or the error under the gauge's name.
pub fn creation_outcome(gauge: GaugeId, created: Result<Gauge, prometheus::Error>) -> (r: Result<
    Gauge,
    MetricsError,
>)
    ensures
        match created {
            Ok(handle) => r == Ok::<Gauge, MetricsError>(handle),
            Err(cause) => r == Err::<Gauge, MetricsError>(
                MetricsError::InvalidGauge { gauge, cause },
            ),
        },
{
    match created {
        Ok(handle) => Ok(handle),
        Err(cause) => Err(MetricsError::InvalidGauge { gauge, cause }),
    }
}

/// The outcome of registering the gauge `gauge`, given what the registry
/// returned: success, or the error under the gauge's name.
pub fn registration_outcome(gauge: GaugeId, registered: Result<(), prometheus::Error>) -> (r:
    Result<(), MetricsError>)
    ensures
        match registered {
            Ok(_) => r is Ok,
            Err(cause) => r == Err::<(), MetricsError>(
                MetricsError::Registration { gauge, cause },
            ),
        },
{
    match registered {
        Ok(()) => Ok(()),
        Err(cause) => Err(MetricsError::Registration { gauge, cause }),
    }
}

/// The text encoder failed on the current state of the gauges.
#[derive(Debug)]
pub struct EncodeError {
    pub cause: prometheus::Error,
}

/// The shared state of the exporter: the gas price gauge, the latest block
/// gauge, and the registry that enumerates them for export.
///
/// Every value of this type holds a registry in which exactly these two
/// gauges are registered, each under its export name and help text, and the
/// two handles of the value are the very gauges that its registry holds.
pub struct ArbitrumMetrics {
    gas_price_gauge: Gauge,
    latest_block_gauge: Gauge,
    registry: prometheus::Registry,
}

impl ArbitrumMetrics {
    /// The invariant of the metric set.
    #[verifier::type_invariant]
    pub closed spec fn well_formed(self) -> bool {
        &&& gauge_name(self.gas_price_gauge) == GaugeId::GasPrice.spec_name()
        &&& gauge_name(self.latest_block_gauge) == GaugeId::LatestBlock.spec_name()
        &&& gauge_help(self.gas_price_gauge) == GaugeId::GasPrice.spec_help()
        &&& gauge_help(self.latest_block_gauge) == GaugeId::LatestBlock.spec_help()
        &&& registered_gauges(self.registry) == exported_gauges()
        &&& holds_only_gauges(self.registry)
        &&& holds_gauge(self.registry, self.gas_price_gauge)
        &&& holds_gauge(self.registry, self.latest_block_gauge)
    }

    /// The gauge handle that stands for `id` in this set.
    pub closed spec fn spec_gauge(self, id: GaugeId) -> Gauge {
        match id {
            GaugeId::GasPrice => self.gas_price_gauge,
            GaugeId::LatestBlock => self.latest_block_gauge,
        }
    }

    /// The registry of this set.
    pub closed spec fn spec_registry(self) -> prometheus::Registry {
        self.registry
    }

    /// What holds of every metric set: each handle is the gauge of its export
    /// name and help text, the registry holds the very gauges of the two
    /// handles, and it holds no other collector.
    pub proof fn lemma_well_formed(self)
        requires
            self.well_formed(),
        ensures
            forall|id: GaugeId| gauge_name(#[trigger] self.spec_gauge(id)) == id.spec_name(),
            forall|id: GaugeId| gauge_help(#[trigger] self.spec_gauge(id)) == id.spec_help(),
            forall|id: GaugeId| holds_gauge(self.spec_registry(), #[trigger] self.spec_gauge(id)),
            registered_gauges(self.spec_registry()) == exported_gauges(),
            holds_only_gauges(self.spec_registry()),
    {
    }

    /// Creates the two gauges, each at zero, and registers them in a fresh
    /// registry, the gas price gauge first.
    ///
    /// This always succeeds. Creating the gauges cannot fail, since their
    /// names and help texts are valid. The fresh registry takes the first
    /// gauge, and it takes the second because the ids of the two descriptors
    /// differ. The handles of the set are the gauges that the registry holds.
    pub fn new() -> (r: Result<ArbitrumMetrics, MetricsError>)
        ensures
            r is Ok,
            r matches Ok(m) ==> m.well_formed() && registered_gauges(m.spec_registry())
                == exported_gauges() && holds_only_gauges(m.spec_registry()),
            r matches Ok(m) ==> forall|id: GaugeId|
                gauge_name(#[trigger] m.spec_gauge(id)) == id.spec_name() && gauge_help(
                    m.spec_gauge(id),
                ) == id.spec_help(),
            r matches Ok(m) ==> forall|id: GaugeId|
                holds_gauge(m.spec_registry(), #[trigger] m.spec_gauge(id)),
    {
        proof {
            lemma_gauge_names_valid();
            lemma_gauge_ids_differ();
        }
        let gas_price_gauge = match creation_outcome(
            GaugeId::GasPrice,
            new_gauge(GaugeId::GasPrice.name(), GaugeId::GasPrice.help()),
        ) {
            Ok(gauge) => gauge,
            Err(error) => {
                return Err(error);
            },
        };
        let latest_block_gauge = match creation_outcome(
            GaugeId::LatestBlock,
            new_gauge(GaugeId::LatestBlock.name(), GaugeId::LatestBlock.help()),
        ) {
            Ok(gauge) => gauge,
            Err(error) => {
                return Err(error);
            },
        };
        let mut registry = new_registry();
        match registration_outcome(
            GaugeId::GasPrice,
            register_gauge(&mut registry, &gas_price_gauge),
        ) {
            Ok(()) => {},
            Err(error) => {
                return Err(error);
            },
        }
        match registration_outcome(
            GaugeId::LatestBlock,
            register_gauge(&mut registry, &latest_block_gauge),
        ) {
            Ok(()) => {},
            Err(error) => {
                return Err(error);
            },
        }
        assert(registered_gauges(registry) =~= exported_gauges());
        Ok(ArbitrumMetrics { gas_price_gauge, latest_block_gauge, registry })
    }

    /// The handle on the gauge `id`, through which its value is written.
    pub fn gauge(&self, id: GaugeId) -> (r: &Gauge)
        ensures
            *r == self.spec_gauge(id),
            gauge_name(*r) == id.spec_name(),
    {
        proof {
            use_type_invariant(self);
        }
        match id {
            GaugeId::GasPrice => &self.gas_price_gauge,
            GaugeId::LatestBlock => &self.latest_block_gauge,
        }
    }

    /// The handle on the gas price gauge.
    pub fn gas_price_gauge(&self) -> (r: &Gauge)
        ensures
            *r == self.spec_gauge(GaugeId::GasPrice),
            gauge_name(*r) == GaugeId::GasPrice.spec_name(),
    {
        self.gauge(GaugeId::GasPrice)
    }

    /// The handle on the latest block gauge.
    pub fn latest_block_gauge(&self) -> (r: &Gauge)
        ensures
            *r == self.spec_gauge(GaugeId::LatestBlock),
            gauge_name(*r) == GaugeId::LatestBlock.spec_name(),
    {
        self.gauge(GaugeId::LatestBlock)
    }

    /// Renders the current values of the gauges in the text exposition
    /// format.
    ///
    /// The text is computed anew from the gauges on every call, and the
    /// encoder succeeds on every state of the gauges. It is the encoder's
    /// rendering of this set's registry: the block of the gas price gauge,
    /// then that of the latest block gauge, and nothing else. Each block is
    /// made of the gauge's help line, the line that declares its family, and
    /// one sample line with the gauge's name and the text of its value.
    pub fn encode(&self) -> (r: Result<Vec<u8>, EncodeError>)
        ensures
            r is Ok,
            r matches Ok(body) ==> is_rendering(self.spec_registry(), body@),
            r matches Ok(body) ==> is_scrape_text(body@),
            r matches Ok(body) ==> forall|id: GaugeId|
                occurs_in(family_head(#[trigger] id.spec_name(), id.spec_help()), body@),
            r matches Ok(body) ==> forall|id: GaugeId|
                occurs_in(vstd::utf8::encode_utf8(#[trigger] id.spec_name()), body@),
    {
        proof {
            use_type_invariant(self);
            lemma_gauge_names_valid();
            assert(all_written_as_is(exported_gauges()));
        }
        let r = encode_registry(&self.registry);
        proof {
            let text = r.unwrap()@;
            lemma_text_of_exported_gauges(text);
            let (gas_price, latest_block) = choose|gas_price: Seq<u8>, latest_block: Seq<u8>|
                text == #[trigger] scrape_text(gas_price, latest_block);
            lemma_scrape_text_holds_heads(gas_price, latest_block);
            assert forall|id: GaugeId|
                occurs_in(vstd::utf8::encode_utf8(#[trigger] id.spec_name()), text) by {
                lemma_name_occurs(id.spec_name(), id.spec_help(), text);
            }
        }
        encoding_outcome(r)
    }
}

/// The outcome of a rendering, given what the encoder returned: its text as it
/// is, or its error as the cause of an `EncodeError`.
pub fn encoding_outcome(encoded: Result<Vec<u8>, prometheus::Error>) -> (r: Result<
    Vec<u8>,
    EncodeError,
>)
    ensures
        match encoded {
            Ok(body) => r == Ok::<Vec<u8>, EncodeError>(body),
            Err(cause) => r == Err::<Vec<u8>, EncodeError>(EncodeError { cause }),
        },
{
    match encoded {
        Ok(body) => Ok(body),
        Err(cause) => Err(EncodeError { cause }),
    }
}

} // verus!
