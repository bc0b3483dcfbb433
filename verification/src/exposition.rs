//! The boundary to the `prometheus` crate: its registry, its gauges and its
//! text encoder. The contracts of the functions that call into that crate are
//! not proved: each is a statement about that crate's code, and the rest of the
//! library is verified against these statements.

use crate::descriptor::{descriptor_id, dimension_hash};
use prometheus::Encoder;
use vstd::prelude::*;

verus! {

/// `prometheus::Registry`, carried as an opaque value.
#[verifier::external_type_specification]
#[verifier::external_body]
pub struct ExRegistry(prometheus::Registry);

/// `prometheus::Error`, carried as an opaque value.
#[verifier::external_type_specification]
#[verifier::external_body]
pub struct ExError(prometheus::Error);

/// A float-valued gauge of the `prometheus` crate.
///
/// `prometheus::Gauge` is an instance of a generic type whose parameter is
/// bounded by a trait of that crate, so it is held here as an opaque field.
/// The field is public because writing a gauge takes a floating-point value,
/// which is done by the caller on `inner` directly.
#[verifier::external_body]
pub struct Gauge {
    pub inner: prometheus::Gauge,
}

/// The fully-qualified name under which a gauge is exported.
pub uninterp spec fn gauge_name(gauge: Gauge) -> Seq<char>;

/// The help text that is exported with a gauge.
pub uninterp spec fn gauge_help(gauge: Gauge) -> Seq<char>;

/// The id of a gauge's descriptor: a hash of its name and of the values of
/// its constant labels, by which a registry tells descriptors apart.
pub uninterp spec fn gauge_id(gauge: Gauge) -> u64;

/// The dimension hash of a gauge's descriptor: a hash of its help text and of
/// the names of its labels.
pub uninterp spec fn gauge_dim_hash(gauge: Gauge) -> u64;

/// Whether a gauge has no labels.
pub uninterp spec fn gauge_is_plain(gauge: Gauge) -> bool;

/// The single gauges without labels that a registry holds: the help text of
/// each, by its fully-qualified name.
pub uninterp spec fn registered_gauges(registry: prometheus::Registry) -> Map<
    Seq<char>,
    Seq<char>,
>;

/// Whether every collector that a registry holds is a single gauge without
/// labels, as opposed to a gauge vector, a counter, a histogram or a collector
/// of the caller's own, and the registry adds neither a prefix nor labels of
/// its own to what it gathers.
pub uninterp spec fn holds_only_gauges(registry: prometheus::Registry) -> bool;

/// Whether a registry holds this very gauge: a collector that shares the
/// gauge's cell, so that what is written through the one is read through the
/// other.
pub uninterp spec fn holds_gauge(registry: prometheus::Registry, gauge: Gauge) -> bool;

/// Whether a text is one that the text encoder writes for what this very
/// registry gathers, at some values of its gauges.
pub uninterp spec fn is_rendering(registry: prometheus::Registry, text: Seq<u8>) -> bool;

/// The ids that a registry refuses to take again: those of the descriptors
/// that it holds, and the keys under which it holds its collectors.
pub uninterp spec fn taken_ids(registry: prometheus::Registry) -> Set<u64>;

/// The dimension hash that a registry has recorded for each name that it has
/// seen.
pub uninterp spec fn dimension_hashes(registry: prometheus::Registry) -> Map<Seq<char>, u64>;

/// First character of a metric name: an ASCII letter, `_` or `:`.
pub open spec fn is_name_start(c: char) -> bool {
    ('a' <= c && c <= 'z') || ('A' <= c && c <= 'Z') || c == '_' || c == ':'
}

/// Any later character of a metric name: as the first, or an ASCII digit.
pub open spec fn is_name_char(c: char) -> bool {
    is_name_start(c) || ('0' <= c && c <= '9')
}

/// The names that the `prometheus` crate accepts for a metric.
pub open spec fn valid_metric_name(name: Seq<char>) -> bool {
    &&& name.len() > 0
    &&& is_name_start(name[0])
    &&& forall|i: int| 1 <= i < name.len() ==> is_name_char(#[trigger] name[i])
}

/// `needle` is a contiguous part of `text`.
pub open spec fn occurs_in(needle: Seq<u8>, text: Seq<u8>) -> bool {
    exists|i: int|
        0 <= i && i + needle.len() <= text.len() && #[trigger] text.subrange(
            i,
            i + needle.len(),
        ) == needle
}

/// Whether a help text is written out as it is: it holds neither a backslash
/// nor a line feed, which the text encoder would escape.
pub open spec fn written_as_is(help: Seq<char>) -> bool {
    forall|i: int| 0 <= i < help.len() ==> #[trigger] help[i] != '\\' && help[i] != '\n'
}

/// The head of the block that the text encoder writes for a gauge without
/// labels: the help line, the line that declares the family, and the start
/// of the sample line, up to the value.
pub open spec fn family_head(name: Seq<char>, help: Seq<char>) -> Seq<u8> {
    vstd::utf8::encode_utf8("# HELP "@) + vstd::utf8::encode_utf8(name) + vstd::utf8::encode_utf8(
        " "@,
    ) + vstd::utf8::encode_utf8(help) + vstd::utf8::encode_utf8("\n# TYPE "@)
        + vstd::utf8::encode_utf8(name) + vstd::utf8::encode_utf8(" gauge\n"@)
        + vstd::utf8::encode_utf8(name) + vstd::utf8::encode_utf8(" "@)
}

/// The block that the text encoder writes for a gauge without labels: the
/// head, the text of the gauge's value, and a line feed.
pub open spec fn family_block(name: Seq<char>, help: Seq<char>, value: Seq<u8>) -> Seq<u8> {
    family_head(name, help) + value + vstd::utf8::encode_utf8("\n"@)
}

/// Whether `first` stands before `second` in the order of strings: the two
/// are compared byte by byte, and a text stands before what extends it.
pub open spec fn stands_before(first: Seq<u8>, second: Seq<u8>) -> bool {
    exists|k: int|
        0 <= k <= first.len() && k <= second.len() && #[trigger] first.subrange(0, k)
            == second.subrange(0, k) && (if k == first.len() {
            k < second.len()
        } else {
            k < second.len() && first[k] < second[k]
        })
}

/// Whether `names` lists each of `gauges` once, in the order of strings.
pub open spec fn lists_in_order(gauges: Map<Seq<char>, Seq<char>>, names: Seq<Seq<char>>) -> bool {
    &&& names.len() == gauges.dom().len()
    &&& forall|i: int| 0 <= i < names.len() ==> gauges.contains_key(#[trigger] names[i])
    &&& forall|i: int, j: int|
        0 <= i < j < names.len() ==> stands_before(
            vstd::utf8::encode_utf8(#[trigger] names[i]),
            vstd::utf8::encode_utf8(#[trigger] names[j]),
        )
}

/// The blocks of the first `n` of `names`, one after the other, with
/// `values` as the texts of the values.
pub open spec fn blocks(
    gauges: Map<Seq<char>, Seq<char>>,
    names: Seq<Seq<char>>,
    values: Seq<Seq<u8>>,
    n: nat,
) -> Seq<u8>
    decreases n,
{
    if n == 0 {
        Seq::empty()
    } else {
        blocks(gauges, names, values, (n - 1) as nat) + family_block(
            names[n - 1],
            gauges[names[n - 1]],
            values[n - 1],
        )
    }
}

/// Whether every help text of `gauges` is written out as it is.
pub open spec fn all_written_as_is(gauges: Map<Seq<char>, Seq<char>>) -> bool {
    forall|name: Seq<char>| #[trigger] gauges.contains_key(name) ==> written_as_is(gauges[name])
}

/// Whether `text` is made of one block for each of `gauges`, in the order of
/// their names, with some texts for the values, and holds nothing else.
pub open spec fn is_text_of(gauges: Map<Seq<char>, Seq<char>>, text: Seq<u8>) -> bool {
    exists|names: Seq<Seq<char>>, values: Seq<Seq<u8>>|
        lists_in_order(gauges, names) && values.len() == names.len() && text == #[trigger] blocks(
            gauges,
            names,
            values,
            names.len(),
        )
}

/// The gauges of a registry that holds nothing.
pub open spec fn no_gauges() -> Map<Seq<char>, Seq<char>> {
    Map::empty()
}

/// The record of a registry that has seen no name.
pub open spec fn no_hashes() -> Map<Seq<char>, u64> {
    Map::empty()
}

/// Whether a registry would take a gauge: its id is not taken, and the
/// dimension hash recorded for its name, if there is one, is its own.
pub open spec fn accepts(registry: prometheus::Registry, gauge: Gauge) -> bool {
    &&& !taken_ids(registry).contains(gauge_id(gauge))
    &&& (dimension_hashes(registry).contains_key(gauge_name(gauge)) ==> dimension_hashes(
        registry,
    )[gauge_name(gauge)] == gauge_dim_hash(gauge))
}

/// Calls `prometheus::Gauge::new`.
///
/// That function builds a descriptor without labels from `name` and `help`. It
/// fails exactly when the help text is empty or the name is not a valid metric
/// name; otherwise the gauge carries `name` as its fully-qualified name and
/// `help` as its help text. Its id is the hash of the name and the separator
/// byte, and its dimension hash that of the help text and the separator byte.
#[verifier::external_body]
pub(crate) fn new_gauge(name: &str, help: &str) -> (r: Result<Gauge, prometheus::Error>)
    ensures
        (r is Ok) == (valid_metric_name(name@) && help@.len() != 0),
        r matches Ok(gauge) ==> gauge_name(gauge) == name@,
        r matches Ok(gauge) ==> gauge_help(gauge) == help@,
        r matches Ok(gauge) ==> gauge_id(gauge) == descriptor_id(name@),
        r matches Ok(gauge) ==> gauge_dim_hash(gauge) == dimension_hash(help@),
        r matches Ok(gauge) ==> gauge_is_plain(gauge),
{
    match prometheus::Gauge::new(name, help) {
        Ok(inner) => Ok(Gauge { inner }),
        Err(e) => Err(e),
    }
}

/// Calls `prometheus::Registry::new`, which returns a registry without any
/// collector, recorded hash, prefix or common label.
#[verifier::external_body]
pub(crate) fn new_registry() -> (registry: prometheus::Registry)
    ensures
        registered_gauges(registry) == no_gauges(),
        holds_only_gauges(registry),
        taken_ids(registry) == Set::<u64>::empty(),
        dimension_hashes(registry) == no_hashes(),
{
    prometheus::Registry::new()
}

/// Calls `prometheus::Registry::register` with a handle on `gauge`.
///
/// The registry takes the gauge exactly when the id of the gauge's one
/// descriptor is neither among the ids of its descriptors nor among the keys
/// of its collectors, and no other dimension hash is recorded for the gauge's
/// name. It then holds the gauge in addition to what it held, with the id
/// taken and the dimension hash recorded. Where it refuses, it holds the
/// collectors and ids that it held before; the dimension hash may have been
/// recorded all the same. What it takes is a handle on the gauge's own cell,
/// and it lets go of nothing.
#[verifier::external_body]
pub(crate) fn register_gauge(registry: &mut prometheus::Registry, gauge: &Gauge) -> (r: Result<
    (),
    prometheus::Error,
>)
    requires
        gauge_is_plain(*gauge),
    ensures
        (r is Ok) == accepts(*old(registry), *gauge),
        r is Ok ==> registered_gauges(*final(registry)) == registered_gauges(
            *old(registry),
        ).insert(gauge_name(*gauge), gauge_help(*gauge)),
        r is Ok ==> taken_ids(*final(registry)) == taken_ids(*old(registry)).insert(
            gauge_id(*gauge),
        ),
        r is Ok ==> dimension_hashes(*final(registry)) == dimension_hashes(*old(registry)).insert(
            gauge_name(*gauge),
            gauge_dim_hash(*gauge),
        ),
        r is Err ==> registered_gauges(*final(registry)) == registered_gauges(*old(registry)),
        r is Err ==> taken_ids(*final(registry)) == taken_ids(*old(registry)),
        r is Err ==> (dimension_hashes(*final(registry)) == dimension_hashes(*old(registry))
            || dimension_hashes(*final(registry)) == dimension_hashes(*old(registry)).insert(
            gauge_name(*gauge),
            gauge_dim_hash(*gauge),
        )),
        holds_only_gauges(*final(registry)) == holds_only_gauges(*old(registry)),
        r is Ok ==> holds_gauge(*final(registry), *gauge),
        forall|held: Gauge| #[trigger]
            holds_gauge(*old(registry), held) ==> holds_gauge(*final(registry), held),
{
    registry.register(Box::new(gauge.inner.clone()))
}

/// Calls `prometheus::Registry::gather` and hands the families to
/// `prometheus::TextEncoder::encode`, which writes them into a fresh buffer.
///
/// The encoder fails only on a family without metrics or without a name, or
/// where the writer fails. A gauge yields one metric under its valid name, and
/// the writer is a vector, so on a registry of gauges the encoder succeeds.
/// The registry gathers one family for each gauge, in the order of their
/// names, and the encoder writes one block for each family and nothing else:
/// the help line, the line that declares the family, and one sample line made
/// of the name, a space and the text of the value. The values are those that
/// the gauges hold at the time of the call, so their texts are not fixed.
#[verifier::external_body]
pub(crate) fn encode_registry(registry: &prometheus::Registry) -> (r: Result<
    Vec<u8>,
    prometheus::Error,
>)
    requires
        holds_only_gauges(*registry),
    ensures
        r is Ok,
        r matches Ok(body) ==> is_rendering(*registry, body@),
        r matches Ok(body) ==> (all_written_as_is(registered_gauges(*registry)) ==> is_text_of(
            registered_gauges(*registry),
            body@,
        )),
{
    let mut buffer = Vec::new();
    match prometheus::TextEncoder::new().encode(&registry.gather(), &mut buffer) {
        Ok(()) => Ok(buffer),
        Err(e) => Err(e),
    }
}

/// A part of a text that occurs in another text occurs in that text too.
pub proof fn lemma_part_occurs(before: Seq<u8>, part: Seq<u8>, after: Seq<u8>, text: Seq<u8>)
    requires
        occurs_in(before + part + after, text),
    ensures
        occurs_in(part, text),
{
    let whole = before + part + after;
    let i = choose|i: int|
        0 <= i && i + whole.len() <= text.len() && #[trigger] text.subrange(i, i + whole.len())
            == whole;
    let j = i + before.len();
    assert forall|k: int| 0 <= k < part.len() implies text[j + k] == part[k] by {
        assert(text.subrange(i, i + whole.len())[before.len() + k] == whole[before.len() + k]);
    }
    assert(text.subrange(j, j + part.len()) =~= part);
}

/// Where the head of a gauge's block stands in a text, the gauge's name
/// stands in that text.
pub proof fn lemma_name_occurs(name: Seq<char>, help: Seq<char>, text: Seq<u8>)
    requires
        occurs_in(family_head(name, help), text),
    ensures
        occurs_in(vstd::utf8::encode_utf8(name), text),
{
    let before = vstd::utf8::encode_utf8("# HELP "@);
    let part = vstd::utf8::encode_utf8(name);
    let after = vstd::utf8::encode_utf8(" "@) + vstd::utf8::encode_utf8(help)
        + vstd::utf8::encode_utf8("\n# TYPE "@) + vstd::utf8::encode_utf8(name)
        + vstd::utf8::encode_utf8(" gauge\n"@) + vstd::utf8::encode_utf8(name)
        + vstd::utf8::encode_utf8(" "@);
    assert(before + part + after =~= family_head(name, help));
    lemma_part_occurs(before, part, after, text);
}

/// A text occurs in what is made of it and of texts before and after it.
pub proof fn lemma_occurs_between(before: Seq<u8>, part: Seq<u8>, after: Seq<u8>)
    ensures
        occurs_in(part, before + part + after),
{
    let text = before + part + after;
    let i = before.len() as int;
    assert(text.subrange(i, i + part.len()) =~= part);
}

/// In a text made of two blocks, the head of each block occurs.
pub proof fn lemma_heads_occur(
    first_head: Seq<u8>,
    first_value: Seq<u8>,
    second_head: Seq<u8>,
    second_value: Seq<u8>,
    feed: Seq<u8>,
)
    ensures
        occurs_in(
            first_head,
            (first_head + first_value + feed) + (second_head + second_value + feed),
        ),
        occurs_in(
            second_head,
            (first_head + first_value + feed) + (second_head + second_value + feed),
        ),
{
    let text = (first_head + first_value + feed) + (second_head + second_value + feed);
    let none = Seq::<u8>::empty();
    let rest = first_value + feed + (second_head + second_value + feed);
    assert(text == none + first_head + rest) by {
        assert(text =~= none + first_head + rest);
    }
    lemma_occurs_between(none, first_head, rest);
    let before = first_head + first_value + feed;
    let after = second_value + feed;
    assert(text == before + second_head + after) by {
        assert(text =~= before + second_head + after);
    }
    lemma_occurs_between(before, second_head, after);
}

/// Two texts that agree up to a byte in which the first is the smaller are
/// in order, and not in the opposite order.
pub proof fn lemma_order_by_first_difference(first: Seq<u8>, second: Seq<u8>, k: int)
    requires
        0 <= k < first.len(),
        k < second.len(),
        first.subrange(0, k) == second.subrange(0, k),
        first[k] < second[k],
    ensures
        stands_before(first, second),
        !stands_before(second, first),
{
    assert forall|m: int|
        0 <= m <= second.len() && m <= first.len() && #[trigger] second.subrange(0, m)
            == first.subrange(0, m) implies !(if m == second.len() {
        m < first.len()
    } else {
        m < first.len() && second[m] < first[m]
    }) by {
        if m > k {
            assert(second.subrange(0, m)[k] == second[k]);
            assert(first.subrange(0, m)[k] == first[k]);
        } else if m < k {
            assert(first.subrange(0, k)[m] == first[m]);
            assert(second.subrange(0, k)[m] == second[m]);
        }
    }
}

/// No text stands before itself.
pub proof fn lemma_order_is_strict(text: Seq<u8>)
    ensures
        !stands_before(text, text),
{
}

/// The content type that the text encoder declares for its output.
pub open spec fn text_format() -> Seq<char> {
    "text/plain; version=0.0.4"@
}

/// Calls `prometheus::TextEncoder::format_type`, which returns the constant
/// `TEXT_FORMAT` of that crate.
#[verifier::external_body]
pub(crate) fn text_format_type() -> (r: String)
    ensures
        r@ == text_format(),
{
    prometheus::TextEncoder::new().format_type().to_string()
}

} // verus!
