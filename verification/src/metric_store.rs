//! Families of labelled Prometheus counters, seen by the verified code as a
//! map from label values to counts.
use vstd::prelude::*;

verus! {

/// A family of Prometheus counters partitioned by label values
/// (`prometheus::CounterVec`). That type names a builder type which the crate
/// does not export, so the family is held in an opaque field here.
#[verifier::external_body]
pub struct CounterFamily {
    inner: prometheus::CounterVec,
}

/// The value read back from each counter of the family, by label values;
/// label values never incremented read zero.
pub uninterp spec fn counter_counts(c: CounterFamily) -> Map<Seq<Seq<char>>, nat>;

/// The number of label names the family was created with.
pub uninterp spec fn counter_arity(c: CounterFamily) -> nat;

/// The metric name the family was created with.
pub uninterp spec fn counter_name(c: CounterFamily) -> Seq<char>;

/// The help text the family was created with.
pub uninterp spec fn counter_help(c: CounterFamily) -> Seq<char>;

/// The label names the family was created with, in order.
pub uninterp spec fn counter_label_names(c: CounterFamily) -> Seq<Seq<char>>;

/// A family's name, help text and label names.
pub open spec fn description(c: CounterFamily) -> (Seq<char>, Seq<char>, Seq<Seq<char>>) {
    (counter_name(c), counter_help(c), counter_label_names(c))
}

/// `prometheus::Error`.
#[verifier::external_type_specification]
#[verifier::external_body]
pub struct ExPrometheusError(prometheus::Error);

/// A Prometheus counter holds a 64-bit float; counting by one is exact up to 2^53,
/// where the value stops growing.
pub const EXACT_COUNT_LIMIT: u64 = 0x20_0000_0000_0000;

/// The count at `labels`.
pub open spec fn count_at(m: Map<Seq<Seq<char>>, nat>, labels: Seq<Seq<char>>) -> nat {
    if m.contains_key(labels) {
        m[labels]
    } else {
        0
    }
}

/// A family in which nothing was counted.
pub open spec fn no_counts() -> Map<Seq<Seq<char>>, nat> {
    Map::empty()
}

/// A count after one increment.
pub open spec fn next_count(n: nat) -> nat {
    if n < EXACT_COUNT_LIMIT {
        n + 1
    } else {
        n
    }
}

/// The label values of a call, as character sequences.
pub open spec fn label_view(labels: Seq<&str>) -> Seq<Seq<char>> {
    labels.map_values(|s: &str| s@)
}

/// The label values joined end to end, the text a family hashes them by.
pub open spec fn joined(labels: Seq<Seq<char>>) -> Seq<char>
    decreases labels.len(),
{
    if labels.len() == 0 {
        Seq::empty()
    } else {
        joined(labels.drop_last()) + labels.last()
    }
}

/// Names the 64-bit hash by which a counter family finds the counter of a list
/// of label values: FNV-1a over the UTF-8 bytes of the values joined end to end
/// (`MetricVecCore::hash_label_values`), a function of that text alone.
pub uninterp spec fn label_hash(text: Seq<char>) -> u64;

/// `after` is `before` with the counter at `labels` incremented: that count
/// grew by one; a count whose label values hash differently stayed as it was,
/// and one whose label values hash alike (the family then shares one counter
/// between them) stayed or grew by one.
pub open spec fn incremented(before: Map<Seq<Seq<char>>, nat>, after: Map<Seq<Seq<char>>, nat>, labels: Seq<Seq<char>>) -> bool {
    &&& count_at(after, labels) == next_count(count_at(before, labels))
    &&& forall|l: Seq<Seq<char>>| #[trigger] count_at(after, l) == count_at(before, l)
        || (label_hash(joined(l)) == label_hash(joined(labels)) && count_at(after, l) == next_count(count_at(before, l)))
}

/// A character that may start a metric name (an ASCII letter, `_` or `:`) or,
/// without the colon, a label name.
pub open spec fn ident_start(c: char, colon: bool) -> bool {
    ('a' <= c && c <= 'z') || ('A' <= c && c <= 'Z') || c == '_' || (colon && c == ':')
}

/// The characters of `s` from position `i` on may follow the first one:
/// starting characters or ASCII digits.
pub open spec fn ident_rest(s: Seq<char>, i: nat, colon: bool) -> bool
    decreases s.len() - i,
{
    if i >= s.len() {
        true
    } else {
        (ident_start(s[i as int], colon) || ('0' <= s[i as int] && s[i as int] <= '9')) && ident_rest(s, i + 1, colon)
    }
}

/// A valid metric name (`colon`) or label name: a starting character followed
/// by starting characters and digits.
pub open spec fn valid_ident(s: Seq<char>, colon: bool) -> bool {
    s.len() > 0 && ident_start(s[0], colon) && ident_rest(s, 1, colon)
}

/// What the crate accepts for a counter family: a non-empty help text, a valid
/// metric name and valid, pairwise distinct label names.
pub open spec fn valid_family(name: Seq<char>, help: Seq<char>, labels: Seq<Seq<char>>) -> bool {
    &&& help.len() > 0
    &&& valid_ident(name, true)
    &&& forall|i: int| 0 <= i < labels.len() ==> valid_ident(#[trigger] labels[i], false)
    &&& forall|i: int, j: int| 0 <= i < j < labels.len() ==> #[trigger] labels[i] != #[trigger] labels[j]
}

/// Creates a counter family (`CounterVec::new` with `Opts::new(name, help)`).
/// The crate accepts exactly a non-empty help, a valid metric name and valid,
/// distinct label names (`Desc::new`); on success no counter of the family has
/// been incremented, it expects one value per label name, and it carries the
/// given name, help text and label names.
#[verifier::external_body]
pub(crate) fn counter_family_new(name: &str, help: &str, label_names: &[&str]) -> (r: Result<CounterFamily, prometheus::Error>)
    ensures
        r is Ok <==> valid_family(name@, help@, label_view(label_names@)),
        r matches Ok(c) ==> counter_counts(c) == no_counts(),
        r matches Ok(c) ==> counter_arity(c) == label_names@.len(),
        r matches Ok(c) ==> counter_name(c) == name@,
        r matches Ok(c) ==> counter_help(c) == help@,
        r matches Ok(c) ==> counter_label_names(c) == label_view(label_names@),
{
    match prometheus::CounterVec::new(prometheus::Opts::new(name, help), label_names) {
        Ok(inner) => Ok(CounterFamily { inner }),
        Err(e) => Err(e),
    }
}

/// Registers the family with the process-wide default registry
/// (`prometheus::register`). Whether that succeeds depends on what was
/// registered before, so nothing is stated of the result.
#[verifier::external_body]
pub(crate) fn register_counter_family(c: &CounterFamily) -> (r: Result<(), prometheus::Error>) {
    prometheus::register(Box::new(c.inner.clone()))
}

/// Increments the counter for the given label values
/// (`with_label_values(..).inc()`, which panics unless there is one value per
/// label name). The family tells label values apart only by the 64-bit hash of
/// their concatenation (`label_hash`), so label values that hash alike share a
/// counter; no other counter changes.
#[verifier::external_body]
pub(crate) fn counter_inc(c: &mut CounterFamily, label_values: &[&str])
    requires
        label_values@.len() == counter_arity(*old(c)),
    ensures
        counter_arity(*final(c)) == counter_arity(*old(c)),
        counter_name(*final(c)) == counter_name(*old(c)),
        counter_help(*final(c)) == counter_help(*old(c)),
        counter_label_names(*final(c)) == counter_label_names(*old(c)),
        incremented(counter_counts(*old(c)), counter_counts(*final(c)), label_view(label_values@)),
        forall|l: Seq<Seq<char>>| label_hash(joined(l)) != label_hash(joined(label_view(label_values@)))
            ==> #[trigger] count_at(counter_counts(*final(c)), l) == count_at(counter_counts(*old(c)), l),
{
    c.inner.with_label_values(label_values).inc();
}

/// Why a set of metrics could not be set up.
#[derive(Debug, Clone, PartialEq, Eq)]
pub enum MetricsError {
    /// The named family could not be created.
    Creation(String),
    /// The named family could not be registered (most often: it already was).
    Registration(String),
}

/// Creates and registers a counter family.
pub(crate) fn registered_family(name: &str, help: &str, label_names: &[&str]) -> (r: Result<CounterFamily, MetricsError>)
    ensures
        r matches Ok(c) ==> counter_counts(c) == Map::<Seq<Seq<char>>, nat>::empty() && counter_arity(c) == label_names@.len(),
        r matches Ok(c) ==> description(c) == (name@, help@, label_view(label_names@)),
        (r matches Err(MetricsError::Creation(_))) <==> !valid_family(name@, help@, label_view(label_names@)),
        r matches Err(MetricsError::Creation(n)) ==> n@ == name@,
        r matches Err(MetricsError::Registration(n)) ==> n@ == name@,
{
    match counter_family_new(name, help, label_names) {
        Ok(c) => match register_counter_family(&c) {
            Ok(()) => Ok(c),
            Err(_) => Err(MetricsError::Registration(String::from_str(name))),
        },
        Err(_) => Err(MetricsError::Creation(String::from_str(name))),
    }
}

/// `after` differs from `before` only in family `f`, whose counter at `labels`
/// was incremented.
pub open spec fn bumped(before: Seq<Map<Seq<Seq<char>>, nat>>, after: Seq<Map<Seq<Seq<char>>, nat>>, f: int, labels: Seq<Seq<char>>) -> bool {
    &&& after == before.update(f, after[f])
    &&& incremented(before[f], after[f], labels)
}

} // verus!
