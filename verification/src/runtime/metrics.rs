//! The counters that functions keep, each registered under the name of its function.
use vstd::prelude::*;

use crate::function::id::FunctionId;
use crate::order;
use crate::runtime::error::MetricsError;
use crate::table::Table;
use crate::text;
use crate::text::{concat3, owned, replace_char};

verus! {

/// A registry of metrics.
#[verifier::external_type_specification]
#[verifier::external_body]
pub struct ExRegistry(prometheus::Registry);

/// Counters of one name that differ in the values of their labels.
#[verifier::external_body]
pub struct LabelledCounter {
    inner: prometheus::IntCounterVec,
}

/// The hashes under which a registry holds its metrics and its collectors of metrics, none of which
/// it takes a second time. Clones of a registry are one registry: this is what it holds at the time
/// of a call, so what is stated from one call to the next holds while metrics are registered and
/// taken out through this handle alone. Other handles are for reading.
pub uninterp spec fn held_hashes(registry: prometheus::Registry) -> Set<u64>;

/// The names that a registry has seen, each with the hash of the help text and the labels that it
/// came with first; with others it is refused. It is to be read with the same reserve about
/// clones.
pub uninterp spec fn seen_names(registry: prometheus::Registry) -> Map<Seq<char>, u64>;

/// What is counted, by the hash of the label values.
pub uninterp spec fn counts(counter: LabelledCounter) -> Map<u64, u64>;

/// The name that the counters share.
pub uninterp spec fn metric_name(counter: LabelledCounter) -> Seq<char>;

/// How many labels the counters have.
pub uninterp spec fn label_count(counter: LabelledCounter) -> nat;

/// The hash of the help text and the labels of the counters.
pub uninterp spec fn label_hash(counter: LabelledCounter) -> u64;

/// The hash of bytes by which metrics and label values are told apart: 64 bits, by the method of
/// Fowler, Noll and Vo that takes each byte in before it multiplies.
pub open spec fn fnv(bytes: Seq<u8>) -> u64
    decreases bytes.len(),
{
    if bytes.len() == 0 {
        0xcbf2_9ce4_8422_2325
    } else {
        (((fnv(bytes.drop_last()) ^ (bytes.last() as u64)) * 0x100_0000_01b3)
            % 0x1_0000_0000_0000_0000) as u64
    }
}

/// The bytes of a text, and one that no text holds behind them.
pub open spec fn separated(text: Seq<char>) -> Seq<u8> {
    vstd::utf8::encode_utf8(text).push(0xff)
}

/// The hash that stands for the values of the labels: that of all of them one behind the other, so
/// that values which read the same one behind the other are counted together.
pub open spec fn values_hash(values: Seq<Seq<char>>) -> u64 {
    fnv(vstd::utf8::encode_utf8(joined_texts(values)))
}

/// The hash under which a registry holds a metric.
pub open spec fn name_hash(name: Seq<char>) -> u64 {
    fnv(separated(name))
}

/// The hash of a help text and labels, whatever the order of the labels.
pub open spec fn dimension_hash(help: Seq<char>, labels: Seq<Seq<char>>) -> u64 {
    fnv(
        separated(help) + labels.sort_by(
            |a: Seq<char>, b: Seq<char>| order::text_le(a, b),
        ).map_values(|label: Seq<char>| separated("$"@ + label)).flatten(),
    )
}

/// Whether a registry refuses a metric: it holds one with the hash of its name, or has seen the
/// name with another help text or other labels.
pub open spec fn refuses(registry: prometheus::Registry, name: Seq<char>, dimension: u64) -> bool {
    ||| held_hashes(registry).contains(name_hash(name))
    ||| seen_names(registry).dom().contains(name) && seen_names(registry)[name] != dimension
}

/// The letters that a name of a label is made of.
pub open spec fn is_label_letter(c: char) -> bool {
    'a' <= c <= 'z' || 'A' <= c <= 'Z' || c == '_'
}

/// Whether a text is a name of a label: letters and digits, and no digit in front.
pub open spec fn is_label_name(name: Seq<char>) -> bool {
    &&& name.len() > 0
    &&& is_label_letter(name[0])
    &&& forall|i: int|
        0 <= i < name.len() ==> is_label_letter(#[trigger] name[i]) || '0' <= name[i] <= '9'
}

/// Whether a text is a name of a metric: it may hold colons too.
pub open spec fn is_metric_name(name: Seq<char>) -> bool {
    &&& name.len() > 0
    &&& is_label_letter(name[0]) || name[0] == ':'
    &&& forall|i: int|
        0 <= i < name.len() ==> is_label_letter(#[trigger] name[i]) || name[i] == ':' || '0'
            <= name[i] <= '9'
}

/// Whether there can be counters of a name with the given labels.
pub open spec fn is_counter(name: Seq<char>, labels: Seq<Seq<char>>) -> bool {
    &&& is_metric_name(name)
    &&& forall|i: int| 0 <= i < labels.len() ==> is_label_name(#[trigger] labels[i])
    &&& labels.no_duplicates()
}

/// The texts in a list.
pub open spec fn texts(list: Seq<String>) -> Seq<Seq<char>> {
    list.map_values(|t: String| t@)
}

/// A count after another `delta`; it starts over when it is full.
pub open spec fn counted(count: u64, delta: u64) -> u64 {
    ((count + delta) % 0x1_0000_0000_0000_0000) as u64
}

/// What is counted after another `delta` for some values.
pub open spec fn counts_after(before: Map<u64, u64>, hash: u64, delta: u64) -> Map<u64, u64> {
    before.insert(
        hash,
        counted(
            if before.dom().contains(hash) {
                before[hash]
            } else {
                0
            },
            delta,
        ),
    )
}

/// `prometheus::IntCounterVec::new`, with a help text: it fails where the name or a label is none,
/// or a label comes twice. The counters start with nothing counted.
#[verifier::external_body]
fn counter_new(name: &str, help: &str, labels: &Vec<String>) -> (counter: Result<
    LabelledCounter,
    String,
>)
    requires
        help@.len() > 0,
    ensures
        counter is Ok == is_counter(name@, texts(labels@)),
        counter matches Ok(c) ==> counts(c).dom() == Set::<u64>::empty() && metric_name(c) == name@
            && label_count(c) == labels@.len() && label_hash(c) == dimension_hash(
            help@,
            texts(labels@),
        ),
{
    let names: Vec<&str> = labels.iter().map(|label| label.as_str()).collect();
    match prometheus::IntCounterVec::new(prometheus::Opts::new(name, help), &names) {
        Ok(inner) => Ok(LabelledCounter { inner }),
        Err(err) => Err(format!("{err:?}")),
    }
}

/// `with_label_values` and `inc_by` of `prometheus::IntCounterVec`: `delta` more for the values,
/// of which there are as many as the counter has labels.
#[verifier::external_body]
fn counter_add(counter: &mut LabelledCounter, values: &Vec<String>, delta: u64)
    requires
        values@.len() == label_count(*old(counter)),
    ensures
        counts(*final(counter)) == counts_after(
            counts(*old(counter)),
            values_hash(texts(values@)),
            delta,
        ),
        metric_name(*final(counter)) == metric_name(*old(counter)),
        label_count(*final(counter)) == label_count(*old(counter)),
        label_hash(*final(counter)) == label_hash(*old(counter)),
{
    counter.inner.with_label_values(values.as_slice()).inc_by(delta)
}

/// `prometheus::Registry::register` of the counters: they are refused where the registry holds
/// something under the hash of their name, or has seen the name with another help text or other
/// labels, and only there. A name that is refused on account of its hash may count as seen.
#[verifier::external_body]
fn registry_add(registry: &mut prometheus::Registry, counter: &LabelledCounter) -> (added: Result<
    (),
    String,
>)
    ensures
        added is Err == refuses(*old(registry), metric_name(*counter), label_hash(*counter)),
        match added {
            Ok(()) => held_hashes(*final(registry)) == held_hashes(*old(registry)).insert(
                name_hash(metric_name(*counter)),
            ) && seen_names(*final(registry)) == seen_names(*old(registry)).insert(
                metric_name(*counter),
                label_hash(*counter),
            ),
            Err(_) => held_hashes(*final(registry)) == held_hashes(*old(registry)) && (seen_names(
                *final(registry),
            ) == seen_names(*old(registry)) || !seen_names(*old(registry)).dom().contains(
                metric_name(*counter),
            ) && seen_names(*final(registry)) == seen_names(*old(registry)).insert(
                metric_name(*counter),
                label_hash(*counter),
            )),
        },
{
    match registry.register(Box::new(counter.inner.clone())) {
        Ok(()) => Ok(()),
        Err(err) => Err(format!("{err:?}")),
    }
}

/// Counters, and how many labels they have.
pub struct TaggedCounter {
    pub counter: LabelledCounter,
    pub labels: usize,
}

/// The counters of all functions.
pub struct FunctionMetrics {
    pub registry: prometheus::Registry,
    pub counters: Table<String, TaggedCounter>,
}

/// The name under which a counter of a function is registered.
pub open spec fn counter_metric(function_id: Seq<char>, counter_name: Seq<char>) -> Seq<char> {
    text::replaced(function_id, '-', '_') + "_"@ + counter_name
}

/// The names of tags.
pub open spec fn tag_names(tags: Seq<(String, String)>) -> Seq<Seq<char>> {
    tags.map_values(|tag: (String, String)| tag.0@)
}

/// The values of tags.
pub open spec fn tag_values(tags: Seq<(String, String)>) -> Seq<Seq<char>> {
    tags.map_values(|tag: (String, String)| tag.1@)
}

/// Texts one behind the other.
pub open spec fn joined_texts(list: Seq<Seq<char>>) -> Seq<char>
    decreases list.len(),
{
    if list.len() == 0 {
        Seq::empty()
    } else {
        joined_texts(list.drop_last()) + list.last()
    }
}

/// The key of a counter with the given tags.
pub open spec fn counter_key(
    function_id: Seq<char>,
    counter_name: Seq<char>,
    tags: Seq<(String, String)>,
) -> Seq<char> {
    counter_metric(function_id, counter_name) + "_"@ + joined_texts(tag_names(tags))
}

/// The help text of the counters of a function.
pub open spec fn counter_help(function_id: Seq<char>) -> Seq<char> {
    "metric exported by "@ + function_id
}

/// Whether a registry takes a new counter of a function.
pub open spec fn takes(
    registry: prometheus::Registry,
    function_id: Seq<char>,
    counter_name: Seq<char>,
    tags: Seq<(String, String)>,
) -> bool {
    let name = counter_metric(function_id, counter_name);
    let labels = tag_names(tags);
    is_counter(name, labels) && !refuses(
        registry,
        name,
        dimension_hash(counter_help(function_id), labels),
    )
}

/// Whether a text begins with another.
pub open spec fn begins_with(text: Seq<char>, start: Seq<char>) -> bool {
    start.len() <= text.len() && text.subrange(0, start.len() as int) == start
}

fn names_of(tags: &Vec<(String, String)>) -> (names: Vec<String>)
    ensures
        texts(names@) == tag_names(tags@),
{
    let mut names: Vec<String> = Vec::new();
    let mut i: usize = 0;
    while i < tags.len()
        invariant
            i <= tags@.len(),
            texts(names@) =~= tag_names(tags@).take(i as int),
        decreases tags@.len() - i,
    {
        let ghost before = texts(names@);
        names.push(tags[i].0.clone());
        assert(texts(names@) =~= before.push(tag_names(tags@)[i as int]));
        i = i + 1;
    }
    assert(texts(names@) =~= tag_names(tags@));
    names
}

fn values_of(tags: &Vec<(String, String)>) -> (values: Vec<String>)
    ensures
        texts(values@) == tag_values(tags@),
        values@.len() == tags@.len(),
{
    let mut values: Vec<String> = Vec::new();
    let mut i: usize = 0;
    while i < tags.len()
        invariant
            i <= tags@.len(),
            values@.len() == i,
            texts(values@) =~= tag_values(tags@).take(i as int),
        decreases tags@.len() - i,
    {
        let ghost before = texts(values@);
        values.push(tags[i].1.clone());
        assert(texts(values@) =~= before.push(tag_values(tags@)[i as int]));
        i = i + 1;
    }
    assert(texts(values@) =~= tag_values(tags@));
    values
}

fn metric_of(function_id: &FunctionId, counter_name: &str) -> (name: String)
    ensures
        name@ == counter_metric(function_id@, counter_name@),
{
    let prefix = replace_char(function_id.as_str(), '-', '_');
    concat3(prefix.as_str(), "_", counter_name)
}

fn key_of(function_id: &FunctionId, counter_name: &str, tags: &Vec<(String, String)>) -> (key:
    String)
    ensures
        key@ == counter_key(function_id@, counter_name@, tags@),
{
    let mut joined = String::new();
    let mut i: usize = 0;
    while i < tags.len()
        invariant
            i <= tags@.len(),
            joined@ == joined_texts(tag_names(tags@).take(i as int)),
        decreases tags@.len() - i,
    {
        proof {
            let next = tag_names(tags@).take(i + 1);
            assert(next.drop_last() =~= tag_names(tags@).take(i as int));
            assert(next.last() == tags@[i as int].0@);
        }
        joined.push_str(tags[i].0.as_str());
        i = i + 1;
    }
    assert(tag_names(tags@).take(i as int) =~= tag_names(tags@));
    let name = metric_of(function_id, counter_name);
    concat3(name.as_str(), "_", joined.as_str())
}

/// How counters are after `delta` more was asked for, with the outcome `done`. One that is known
/// counts; a new one does where the registry takes it, and only there.
pub open spec fn incremented(
    before: FunctionMetrics,
    after: FunctionMetrics,
    function_id: Seq<char>,
    counter_name: Seq<char>,
    tags: Seq<(String, String)>,
    delta: u64,
    done: Result<(), MetricsError>,
) -> bool {
    let name = counter_metric(function_id, counter_name);
    let key = counter_key(function_id, counter_name, tags);
    let hash = values_hash(tag_values(tags));
    let dimension = dimension_hash(counter_help(function_id), tag_names(tags));
    let known = before.counters@;
    let now = after.counters@;
    if known.dom().contains(key) {
        &&& done is Ok
        &&& now.dom() == known.dom()
        &&& counts(now[key].counter) == counts_after(counts(known[key].counter), hash, delta)
        &&& metric_name(now[key].counter) == metric_name(known[key].counter)
        &&& now[key].labels == known[key].labels
        &&& now.remove(key) == known.remove(key)
        &&& after.registry == before.registry
    } else if takes(before.registry, function_id, counter_name, tags) {
        &&& done is Ok
        &&& held_hashes(after.registry) == held_hashes(before.registry).insert(name_hash(name))
        &&& seen_names(after.registry) == seen_names(before.registry).insert(name, dimension)
        &&& now.dom() == known.dom().insert(key)
        &&& now.remove(key) == known
        &&& metric_name(now[key].counter) == name
        &&& now[key].labels == tags.len()
        &&& counts(now[key].counter) == counts_after(Map::empty(), hash, delta)
    } else if is_counter(name, tag_names(tags)) {
        &&& after.counters == before.counters
        &&& held_hashes(after.registry) == held_hashes(before.registry)
        &&& seen_names(after.registry) == seen_names(before.registry) || !seen_names(
            before.registry,
        ).dom().contains(name) && seen_names(after.registry) == seen_names(before.registry).insert(
            name,
            dimension,
        )
        &&& done matches Err(MetricsError::FailedToRegister { reason }) && begins_with(
            reason@,
            "failed to register counter in registry: "@,
        )
    } else {
        &&& after == before
        &&& done matches Err(MetricsError::FailedToRegister { reason }) && begins_with(
            reason@,
            "failed to create counter: "@,
        )
    }
}

impl FunctionMetrics {
    /// Every counter is registered, and has as many labels as is known of it.
    pub open spec fn wf(&self) -> bool {
        &&& self.counters.wf()
        &&& forall|k: Seq<char>| #[trigger]
            self.counters@.dom().contains(k) ==> label_count(self.counters@[k].counter)
                == self.counters@[k].labels && held_hashes(self.registry).contains(
                name_hash(metric_name(self.counters@[k].counter)),
            )
    }

    /// No counters yet, to be registered with a registry.
    pub fn new(registry: prometheus::Registry) -> (metrics: Self)
        ensures
            metrics.wf(),
            metrics.registry == registry,
            metrics.counters@ == Map::<Seq<char>, TaggedCounter>::empty(),
    {
        FunctionMetrics { registry, counters: Table::new() }
    }

    /// Whether a counter can be incremented with the given tags: the one that their names lead to,
    /// if there is one, has as many.
    pub open spec fn fits(
        &self,
        function_id: Seq<char>,
        counter_name: Seq<char>,
        tags: Seq<(String, String)>,
    ) -> bool {
        let key = counter_key(function_id, counter_name, tags);
        self.counters@.dom().contains(key) ==> self.counters@[key].labels == tags.len()
    }

    /// Whether a counter can be incremented with the given tags.
    pub fn tags_fit(
        &self,
        function_id: &FunctionId,
        counter_name: &str,
        tags: &Vec<(String, String)>,
    ) -> (fit: bool)
        requires
            self.wf(),
        ensures
            fit == self.fits(function_id@, counter_name@, tags@),
    {
        match self.counters.get(&key_of(function_id, counter_name, tags)) {
            Some(tagged) => tagged.labels == tags.len(),
            None => true,
        }
    }

    /// Counts `delta` more for a counter of a function and the values of its tags. A counter that
    /// is new is registered first.
    pub fn counter_increment(
        &mut self,
        function_id: &FunctionId,
        counter_name: &str,
        tags: &Vec<(String, String)>,
        delta: u64,
    ) -> (done: Result<(), MetricsError>)
        requires
            old(self).wf(),
            old(self).fits(function_id@, counter_name@, tags@),
        ensures
            final(self).wf(),
            incremented(
                *old(self),
                *final(self),
                function_id@,
                counter_name@,
                tags@,
                delta,
                done,
            ),
    {
        let name = metric_of(function_id, counter_name);
        let key = key_of(function_id, counter_name, tags);
        let values = values_of(tags);
        let ghost before = self.counters@;
        let ghost gkey = key@;
        if let Some(tagged) = self.counters.get_mut(&key) {
            counter_add(&mut tagged.counter, &values, delta);
            proof {
                let after = after_borrow(self).counters@;
                assert(after.remove(gkey) =~= before.remove(gkey));
                assert(after.dom() =~= before.dom());
            }
            return Ok(());
        }
        let names = names_of(tags);
        let help = {
            let mut help = owned("metric exported by ");
            proof {
                reveal_strlit("metric exported by ");
            }
            help.push_str(function_id.as_str());
            help
        };
        let mut counter = match counter_new(name.as_str(), help.as_str(), &names) {
            Ok(counter) => counter,
            Err(fault) => {
                let mut reason = owned("failed to create counter: ");
                let ghost start = reason@;
                reason.push_str(fault.as_str());
                assert(reason@.subrange(0, start.len() as int) =~= start);
                return Err(MetricsError::FailedToRegister { reason });
            },
        };
        if let Err(fault) = registry_add(&mut self.registry, &counter) {
            let mut reason = owned("failed to register counter in registry: ");
            let ghost start = reason@;
            reason.push_str(fault.as_str());
            assert(reason@.subrange(0, start.len() as int) =~= start);
            return Err(MetricsError::FailedToRegister { reason });
        }
        proof {
            assert(names@.len() == texts(names@).len());
            assert(tags@.len() == tag_names(tags@).len());
            assert(counts(counter) =~= Map::empty());
        }
        counter_add(&mut counter, &values, delta);
        self.counters.insert(key, TaggedCounter { counter, labels: tags.len() });
        proof {
            assert(self.counters@.remove(gkey) =~= before);
            assert(self.counters@.dom() =~= before.dom().insert(gkey));
        }
        Ok(())
    }
}

/// A counter keeps the names of its tags: once there are counters of a name, a request that does
/// not lead to them, as one with other tags, is refused, and all counters stay as they are.
pub proof fn counters_keep_their_tags(
    before: FunctionMetrics,
    after: FunctionMetrics,
    key: Seq<char>,
    function_id: Seq<char>,
    counter_name: Seq<char>,
    tags: Seq<(String, String)>,
    delta: u64,
    done: Result<(), MetricsError>,
)
    requires
        before.wf(),
        before.counters@.dom().contains(key),
        metric_name(before.counters@[key].counter) == counter_metric(function_id, counter_name),
        !before.counters@.dom().contains(counter_key(function_id, counter_name, tags)),
        incremented(before, after, function_id, counter_name, tags, delta, done),
    ensures
        done is Err,
        after.counters == before.counters,
{
}

proof fn lemma_joined_texts(list: Seq<Seq<char>>)
    ensures
        joined_texts(list) == list.flatten(),
    decreases list.len(),
{
    if list.len() == 0 {
        assert(joined_texts(list) =~= list.flatten());
    } else {
        let rest = list.drop_last();
        lemma_joined_texts(rest);
        assert(list =~= rest.push(list.last()));
        rest.lemma_flatten_push(list.last());
    }
}

/// The text under which the counters of a function are kept: its name, with underscores for hyphens, the
/// name of the counter and the names of the tags one after the other.
pub open spec fn kept_under(
    key: Seq<char>,
    function_id: Seq<char>,
    counter_name: Seq<char>,
    tags: Seq<(String, String)>,
) -> bool {
    let names = tags.map_values(|tag: (String, String)| tag.0@).flatten();
    let start = (function_id.len() + 1) as int;
    &&& key.len() == function_id.len() + 1 + counter_name.len() + 1 + names.len()
    &&& forall|i: int|
        0 <= i < function_id.len() && function_id[i] != '-' ==> #[trigger] key[i] == function_id[i]
    &&& forall|i: int|
        0 <= i < function_id.len() && function_id[i] == '-' ==> #[trigger] key[i] == '_'
    &&& key[function_id.len() as int] == '_'
    &&& key.subrange(start, start + counter_name.len()) == counter_name
    &&& key[start + counter_name.len()] == '_'
    &&& key.subrange(start + counter_name.len() + 1, key.len() as int) == names
}

proof fn lemma_kept_under(
    function_id: Seq<char>,
    counter_name: Seq<char>,
    tags: Seq<(String, String)>,
)
    ensures
        kept_under(counter_key(function_id, counter_name, tags), function_id, counter_name, tags),
{
    reveal_strlit("_");
    lemma_joined_texts(tag_names(tags));
    let names = tags.map_values(|tag: (String, String)| tag.0@).flatten();
    let key = counter_key(function_id, counter_name, tags);
    let start = (function_id.len() + 1) as int;
    assert(tag_names(tags) =~= tags.map_values(|tag: (String, String)| tag.0@));
    assert(key.subrange(start, start + counter_name.len()) =~= counter_name);
    assert(key.subrange(start + counter_name.len() + 1, key.len() as int) =~= names);
}

/// Counting goes to the counter that is kept for the function, the name and the tags, under the values of
/// the tags: that count goes up by the given amount, wrapping around, and all others stay.
pub proof fn counts_go_up_where_they_belong(
    function_id: &FunctionId,
    counter_name: &str,
    tags: &Vec<(String, String)>,
    delta: u64,
    done: Result<(), MetricsError>,
    key: Seq<char>,
    other: Seq<char>,
    cell: u64,
)
    requires
        kept_under(key, function_id@, counter_name@, tags@),
    ensures
        forall|metrics: &mut FunctionMetrics| #[trigger]
            call_ensures(
                FunctionMetrics::counter_increment,
                (metrics, function_id, counter_name, tags, delta),
                done,
            ) ==> {
                let hash = values_hash(tags@.map_values(|tag: (String, String)| tag.1@));
                &&& metrics.counters@.dom().contains(key) ==> done is Ok
                &&& done is Ok ==> final(metrics).counters@.dom().contains(key)
                &&& done is Ok && metrics.counters@.dom().contains(key) && counts(
                    metrics.counters@[key].counter,
                ).dom().contains(hash) && counts(metrics.counters@[key].counter)[hash] + delta
                    <= u64::MAX ==> counts(final(metrics).counters@[key].counter)[hash] == counts(
                    metrics.counters@[key].counter,
                )[hash] + delta
                &&& done is Ok && (!metrics.counters@.dom().contains(key) || !counts(
                    metrics.counters@[key].counter,
                ).dom().contains(hash)) ==> counts(final(metrics).counters@[key].counter)[hash]
                    == delta
                &&& done is Ok && cell != hash && metrics.counters@.dom().contains(key) ==> counts(
                    final(metrics).counters@[key].counter,
                )[cell] == counts(metrics.counters@[key].counter)[cell]
                &&& other != key && metrics.counters@.dom().contains(other) ==> final(
                    metrics
                ).counters@.dom().contains(other) && final(metrics).counters@[other]
                    == metrics.counters@[other]
                &&& done is Err ==> final(metrics).counters == metrics.counters
            },
{
    lemma_kept_under(function_id@, counter_name@, tags@);
    lemma_same_key(
        key,
        counter_key(function_id@, counter_name@, tags@),
        function_id@,
        counter_name@,
        tags@,
    );
    assert(tag_values(tags@) =~= tags@.map_values(|tag: (String, String)| tag.1@));
    assert forall|metrics: &mut FunctionMetrics| #[trigger]
        call_ensures(
            FunctionMetrics::counter_increment,
            (metrics, function_id, counter_name, tags, delta),
            done,
        ) && other != key && metrics.counters@.dom().contains(other) implies final(
        metrics
    ).counters@.dom().contains(other) && final(metrics).counters@[other]
        == metrics.counters@[other] by {
        let known = metrics.counters@;
        let now = final(metrics).counters@;
        assert(known.remove(key).dom().contains(other));
        assert(known.remove(key)[other] == known[other]);
        assert(now.remove(key)[other] == now[other]);
    }
}

proof fn lemma_same_key(
    a: Seq<char>,
    b: Seq<char>,
    function_id: Seq<char>,
    counter_name: Seq<char>,
    tags: Seq<(String, String)>,
)
    requires
        kept_under(a, function_id, counter_name, tags),
        kept_under(b, function_id, counter_name, tags),
    ensures
        a == b,
{
    let start = (function_id.len() + 1) as int;
    let middle = start + counter_name.len();
    assert forall|i: int| 0 <= i < a.len() implies a[i] == b[i] by {
        if i < function_id.len() {
            assert(function_id[i] == '-' || function_id[i] != '-');
        } else if start <= i < middle {
            assert(a.subrange(start, middle)[i - start] == a[i]);
            assert(b.subrange(start, middle)[i - start] == b[i]);
        } else if middle < i {
            assert(a.subrange(middle + 1, a.len() as int)[i - middle - 1] == a[i]);
            assert(b.subrange(middle + 1, b.len() as int)[i - middle - 1] == b[i]);
        }
    }
    assert(a =~= b);
}

/// A counter can be counted with the tags that it has: exactly as many as it was made with, where it was
/// made.
pub proof fn tags_fit_by_their_number(
    metrics: FunctionMetrics,
    function_id: &FunctionId,
    counter_name: &str,
    tags: &Vec<(String, String)>,
    fit: bool,
    key: Seq<char>,
)
    requires
        kept_under(key, function_id@, counter_name@, tags@),
        call_ensures(
            FunctionMetrics::tags_fit,
            (&metrics, function_id, counter_name, tags),
            fit,
        ),
    ensures
        fit <==> !metrics.counters@.dom().contains(key) || metrics.counters@[key].labels
            == tags@.len(),
{
    lemma_kept_under(function_id@, counter_name@, tags@);
    lemma_same_key(
        key,
        counter_key(function_id@, counter_name@, tags@),
        function_id@,
        counter_name@,
        tags@,
    );
}

/// A counter that is not there yet is made exactly where its names are such as counters have and the
/// registry does not refuse it: under the name of the function and its own, with as many labels as there
/// are tags and the help that names the function.
pub proof fn counters_are_made_where_the_registry_takes_them(
    function_id: &FunctionId,
    counter_name: &str,
    tags: &Vec<(String, String)>,
    delta: u64,
    done: Result<(), MetricsError>,
    key: Seq<char>,
)
    requires
        kept_under(key, function_id@, counter_name@, tags@),
    ensures
        forall|metrics: &mut FunctionMetrics| #[trigger]
            call_ensures(
                FunctionMetrics::counter_increment,
                (metrics, function_id, counter_name, tags, delta),
                done,
            ) && !metrics.counters@.dom().contains(key) ==> {
                let name = key.subrange(
                    0,
                    function_id@.len() as int + 1 + counter_name@.len() as int,
                );
                let labels = tags@.map_values(|tag: (String, String)| tag.0@);
                &&& done is Ok <==> is_counter(name, labels) && !refuses(
                    metrics.registry,
                    name,
                    dimension_hash("metric exported by "@ + function_id@, labels),
                )
                &&& done is Ok ==> metric_name(final(metrics).counters@[key].counter) == name
                    && final(metrics).counters@[key].labels == tags@.len()
            },
{
    lemma_kept_under(function_id@, counter_name@, tags@);
    lemma_same_key(
        key,
        counter_key(function_id@, counter_name@, tags@),
        function_id@,
        counter_name@,
        tags@,
    );
    reveal_strlit("_");
    assert(key.subrange(0, function_id@.len() as int + 1 + counter_name@.len() as int)
        =~= counter_metric(function_id@, counter_name@));
    assert(tag_names(tags@) =~= tags@.map_values(|tag: (String, String)| tag.0@));
}

/// A count that would exceed what a counter can hold goes on from zero.
pub proof fn counts_wrap_around(
    function_id: &FunctionId,
    counter_name: &str,
    tags: &Vec<(String, String)>,
    delta: u64,
    done: Result<(), MetricsError>,
    key: Seq<char>,
)
    requires
        kept_under(key, function_id@, counter_name@, tags@),
    ensures
        forall|metrics: &mut FunctionMetrics| #[trigger]
            call_ensures(
                FunctionMetrics::counter_increment,
                (metrics, function_id, counter_name, tags, delta),
                done,
            ) && metrics.counters@.dom().contains(key) ==> {
                let hash = values_hash(tags@.map_values(|tag: (String, String)| tag.1@));
                let before = counts(metrics.counters@[key].counter);
                let after = counts(final(metrics).counters@[key].counter);
                before.dom().contains(hash) && before[hash] + delta > u64::MAX ==> after[hash]
                    == before[hash] + delta - 0x1_0000_0000_0000_0000
            },
{
    lemma_kept_under(function_id@, counter_name@, tags@);
    lemma_same_key(
        key,
        counter_key(function_id@, counter_name@, tags@),
        function_id@,
        counter_name@,
        tags@,
    );
    assert(tag_values(tags@) =~= tags@.map_values(|tag: (String, String)| tag.1@));
}

} // verus!
