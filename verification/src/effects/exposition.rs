//! The text format in which counters are exposed.
use vstd::prelude::*;

use crate::effects::metrics;
use crate::effects::metrics::{CounterListing, FunctionMetricsDelta, MetricKey, MetricKeyView};
use crate::function::id::FunctionId;
use crate::text;
use crate::text::{chars_of, decimal_text, owned, push_char};

verus! {

pub open spec fn is_ascii_letter(c: char) -> bool {
    ('a' <= c && c <= 'z') || ('A' <= c && c <= 'Z')
}

pub open spec fn is_ascii_digit(c: char) -> bool {
    '0' <= c && c <= '9'
}

/// The characters that a metric name may hold.
pub open spec fn is_metric_char(c: char) -> bool {
    is_ascii_letter(c) || is_ascii_digit(c) || c == '_' || c == ':'
}

/// The characters that a label name may hold at position `i`.
pub open spec fn is_label_char(i: int, c: char) -> bool {
    is_ascii_letter(c) || c == '_' || (i > 0 && is_ascii_digit(c))
}

/// `name` with each character that a metric name may not hold replaced by an underscore.
pub open spec fn sanitized_metric(name: Seq<char>) -> Seq<char> {
    Seq::new(
        name.len(),
        |i: int|
            if is_metric_char(name[i]) {
                name[i]
            } else {
                '_'
            },
    )
}

/// `name` with each character that a label name may not hold replaced by an underscore.
pub open spec fn sanitized_label(name: Seq<char>) -> Seq<char> {
    Seq::new(
        name.len(),
        |i: int|
            if is_label_char(i, name[i]) {
                name[i]
            } else {
                '_'
            },
    )
}

/// What stands for a character between the quotes of a label value.
pub open spec fn escape_char(c: char) -> Seq<char> {
    if c == '\\' {
        seq!['\\', '\\']
    } else if c == '"' {
        seq!['\\', '"']
    } else if c == '\n' {
        seq!['\\', 'n']
    } else {
        seq![c]
    }
}

/// A label value as it stands between its quotes.
pub open spec fn escaped(value: Seq<char>) -> Seq<char>
    decreases value.len(),
{
    if value.len() == 0 {
        Seq::empty()
    } else {
        escape_char(value[0]) + escaped(value.drop_first())
    }
}

/// The name under which a counter of a function is exposed.
pub open spec fn exposed_name(function: Seq<char>, counter: Seq<char>) -> Seq<char> {
    "function_"@ + sanitized_metric(function) + "_"@ + sanitized_metric(counter)
}

/// The labels of a counter, each as `name="value"`, with commas between them.
pub open spec fn labels_text(labels: Seq<(Seq<char>, Seq<char>)>) -> Seq<char>
    decreases labels.len(),
{
    if labels.len() == 0 {
        Seq::empty()
    } else {
        let (name, value) = labels.last();
        let comma = if labels.len() > 1 {
            ","@
        } else {
            Seq::empty()
        };
        labels_text(labels.drop_last()) + comma + sanitized_label(name) + "=\""@ + escaped(value)
            + "\""@
    }
}

/// The two lines that expose one counter: its type and its value.
pub open spec fn counter_text(function: Seq<char>, key: MetricKeyView, value: u64) -> Seq<char> {
    let name = exposed_name(function, key.name);
    let labels = if key.labels.len() > 0 {
        "{"@ + labels_text(key.labels) + "}"@
    } else {
        Seq::empty()
    };
    "# TYPE "@ + name + " counter\n"@ + name + labels + " "@ + text::decimal(value as nat) + "\n"@
}

/// The counters of one function, one after the other.
pub open spec fn counters_text(function: Seq<char>, counters: CounterListing) -> Seq<char>
    decreases counters.len(),
{
    if counters.len() == 0 {
        Seq::empty()
    } else {
        counters_text(function, counters.drop_last()) + counter_text(
            function,
            counters.last().0,
            counters.last().1,
        )
    }
}

/// The counters of all functions, function by function.
pub open spec fn registry_text(functions: Seq<(Seq<char>, CounterListing)>) -> Seq<char>
    decreases functions.len(),
{
    if functions.len() == 0 {
        Seq::empty()
    } else {
        registry_text(functions.drop_last()) + counters_text(
            functions.last().0,
            functions.last().1,
        )
    }
}

fn ascii_letter(c: char) -> (yes: bool)
    ensures
        yes == is_ascii_letter(c),
{
    ('a' <= c && c <= 'z') || ('A' <= c && c <= 'Z')
}

fn ascii_digit(c: char) -> (yes: bool)
    ensures
        yes == is_ascii_digit(c),
{
    '0' <= c && c <= '9'
}

pub fn sanitize_metric_name(s: &str) -> (name: String)
    ensures
        name@ == sanitized_metric(s@),
{
    let chars = chars_of(s);
    let mut name = String::new();
    let mut i: usize = 0;
    while i < chars.len()
        invariant
            i <= chars@.len(),
            chars@ == s@,
            name@ == sanitized_metric(s@).take(i as int),
        decreases chars@.len() - i,
    {
        let c = chars[i];
        let kept = ascii_letter(c) || ascii_digit(c) || c == '_' || c == ':';
        push_char(
            &mut name,
            if kept {
                c
            } else {
                '_'
            },
        );
        assert(sanitized_metric(s@).take(i + 1) =~= sanitized_metric(s@).take(i as int).push(
            sanitized_metric(s@)[i as int],
        ));
        i = i + 1;
    }
    assert(sanitized_metric(s@).take(s@.len() as int) =~= sanitized_metric(s@));
    name
}

pub fn sanitize_label_name(s: &str) -> (name: String)
    ensures
        name@ == sanitized_label(s@),
{
    let chars = chars_of(s);
    let mut name = String::new();
    let mut i: usize = 0;
    while i < chars.len()
        invariant
            i <= chars@.len(),
            chars@ == s@,
            name@ == sanitized_label(s@).take(i as int),
        decreases chars@.len() - i,
    {
        let c = chars[i];
        let kept = ascii_letter(c) || c == '_' || (i > 0 && ascii_digit(c));
        push_char(
            &mut name,
            if kept {
                c
            } else {
                '_'
            },
        );
        assert(sanitized_label(s@).take(i + 1) =~= sanitized_label(s@).take(i as int).push(
            sanitized_label(s@)[i as int],
        ));
        i = i + 1;
    }
    assert(sanitized_label(s@).take(s@.len() as int) =~= sanitized_label(s@));
    name
}

proof fn lemma_escaped_push(value: Seq<char>, c: char)
    ensures
        escaped(value.push(c)) == escaped(value) + escape_char(c),
    decreases value.len(),
{
    let whole = value.push(c);
    if value.len() == 0 {
        assert(whole.drop_first() =~= Seq::<char>::empty());
        assert(escaped(value) =~= Seq::<char>::empty());
        assert(escaped(whole.drop_first()) =~= Seq::<char>::empty());
        assert(escaped(whole) =~= escaped(value) + escape_char(c));
    } else {
        assert(whole.drop_first() =~= value.drop_first().push(c));
        lemma_escaped_push(value.drop_first(), c);
        assert(escaped(whole) =~= escaped(value) + escape_char(c));
    }
}

pub fn escape_label_value(s: &str) -> (out: String)
    ensures
        out@ == escaped(s@),
{
    let chars = chars_of(s);
    let mut out = String::new();
    let mut i: usize = 0;
    while i < chars.len()
        invariant
            i <= chars@.len(),
            chars@ == s@,
            out@ == escaped(s@.take(i as int)),
        decreases chars@.len() - i,
    {
        let c = chars[i];
        let ghost before = out@;
        if c == '\\' {
            push_char(&mut out, '\\');
            push_char(&mut out, '\\');
        } else if c == '"' {
            push_char(&mut out, '\\');
            push_char(&mut out, '"');
        } else if c == '\n' {
            push_char(&mut out, '\\');
            push_char(&mut out, 'n');
        } else {
            push_char(&mut out, c);
        }
        proof {
            assert(out@ =~= before + escape_char(c));
            lemma_escaped_push(s@.take(i as int), c);
            assert(s@.take(i + 1) =~= s@.take(i as int).push(c));
        }
        i = i + 1;
    }
    assert(s@.take(s@.len() as int) =~= s@);
    out
}

fn write_labels(labels: &Vec<(String, String)>) -> (out: String)
    ensures
        out@ == labels_text(metrics::pair_texts(labels@)),
{
    let ghost whole = metrics::pair_texts(labels@);
    let mut out = String::new();
    let mut i: usize = 0;
    while i < labels.len()
        invariant
            i <= labels@.len(),
            whole == metrics::pair_texts(labels@),
            out@ == labels_text(whole.take(i as int)),
        decreases labels@.len() - i,
    {
        let (name, value) = &labels[i];
        let ghost before = out@;
        out.push_str(
            if i > 0 {
                ","
            } else {
                ""
            },
        );
        out.push_str(sanitize_label_name(name.as_str()).as_str());
        out.push_str("=\"");
        out.push_str(escape_label_value(value.as_str()).as_str());
        out.push_str("\"");
        proof {
            reveal_strlit("");
            assert(""@ =~= Seq::<char>::empty());
            let next = whole.take(i + 1);
            assert(next.drop_last() =~= whole.take(i as int));
            assert(next.last() == whole[i as int]);
        }
        i = i + 1;
    }
    assert(whole.take(whole.len() as int) =~= whole);
    out
}

/// Writes the two lines of one counter.
pub fn write_counter(function: &str, key: &MetricKey, value: u64) -> (out: String)
    ensures
        out@ == counter_text(function@, key@, value),
{
    let mut name = owned("function_");
    name.push_str(sanitize_metric_name(function).as_str());
    name.push_str("_");
    name.push_str(sanitize_metric_name(key.name.as_str()).as_str());
    let mut labels = String::new();
    if key.labels.len() > 0 {
        labels = owned("{");
        labels.push_str(write_labels(&key.labels).as_str());
        labels.push_str("}");
    }
    let mut out = owned("# TYPE ");
    out.push_str(name.as_str());
    out.push_str(" counter\n");
    out.push_str(name.as_str());
    out.push_str(labels.as_str());
    out.push_str(" ");
    out.push_str(decimal_text(value).as_str());
    out.push_str("\n");
    out
}

proof fn lemma_sanitized_metric_again(name: Seq<char>)
    ensures
        sanitized_metric(sanitized_metric(name)) == sanitized_metric(name),
{
    assert(sanitized_metric(sanitized_metric(name)) =~= sanitized_metric(name));
}

/// Writes the counters of one function.
pub fn write_counters(function: &FunctionId, delta: &FunctionMetricsDelta) -> (out: String)
    ensures
        out@ == counters_text(function@, metrics::counter_listing(delta.counters_delta.entries@)),
{
    let entries = &delta.counters_delta.entries;
    let ghost whole = metrics::counter_listing(entries@);
    let mut out = String::new();
    let mut i: usize = 0;
    while i < entries.len()
        invariant
            i <= entries@.len(),
            whole == metrics::counter_listing(entries@),
            out@ == counters_text(function@, whole.take(i as int)),
        decreases entries@.len() - i,
    {
        out.push_str(
            write_counter(function.as_str(), &entries[i].0, entries[i].1).as_str(),
        );
        proof {
            let next = whole.take(i + 1);
            assert(next.drop_last() =~= whole.take(i as int));
            assert(next.last() == whole[i as int]);
        }
        i = i + 1;
    }
    assert(whole.take(whole.len() as int) =~= whole);
    out
}

/// Writes the counters of all functions.
pub fn write_functions(entries: &Vec<(FunctionId, FunctionMetricsDelta)>) -> (out: String)
    ensures
        out@ == registry_text(metrics::function_listing(entries@)),
{
    let ghost whole = metrics::function_listing(entries@);
    let mut out = String::new();
    let mut i: usize = 0;
    while i < entries.len()
        invariant
            i <= entries@.len(),
            whole == metrics::function_listing(entries@),
            out@ == registry_text(whole.take(i as int)),
        decreases entries@.len() - i,
    {
        out.push_str(write_counters(&entries[i].0, &entries[i].1).as_str());
        proof {
            let next = whole.take(i + 1);
            assert(next.drop_last() =~= whole.take(i as int));
            assert(next.last() == whole[i as int]);
        }
        i = i + 1;
    }
    assert(whole.take(whole.len() as int) =~= whole);
    out
}

/// A metric name that was sanitized holds only characters that a metric name may hold, as many
/// as it held before, and sanitizing it again changes nothing.
pub proof fn sanitized_metric_names_are_valid(name: Seq<char>)
    ensures
        sanitized_metric(name).len() == name.len(),
        forall|i: int|
            0 <= i < name.len() ==> is_metric_char(#[trigger] sanitized_metric(name)[i]),
        sanitized_metric(sanitized_metric(name)) == sanitized_metric(name),
{
    lemma_sanitized_metric_again(name);
}

/// A label name that was sanitized holds only characters that a label name may hold where they
/// stand, as many as it held before, and sanitizing it again changes nothing.
pub proof fn sanitized_label_names_are_valid(name: Seq<char>)
    ensures
        sanitized_label(name).len() == name.len(),
        forall|i: int|
            0 <= i < name.len() ==> is_label_char(i, #[trigger] sanitized_label(name)[i]),
        sanitized_label(sanitized_label(name)) == sanitized_label(name),
{
    assert(sanitized_label(sanitized_label(name)) =~= sanitized_label(name));
}

/// A name that is valid already is left as it is.
pub proof fn valid_metric_names_are_kept(name: Seq<char>)
    requires
        forall|i: int| 0 <= i < name.len() ==> is_metric_char(#[trigger] name[i]),
    ensures
        sanitized_metric(name) == name,
{
    assert(sanitized_metric(name) =~= name);
}

/// Two label values that are written the same are the same: nothing is lost in escaping.
pub proof fn escaping_loses_nothing(a: Seq<char>, b: Seq<char>)
    requires
        escaped(a) == escaped(b),
    ensures
        a == b,
    decreases a.len(),
{
    if a.len() == 0 || b.len() == 0 {
        if a.len() > 0 {
            assert(escaped(a).len() >= escape_char(a[0]).len());
        }
        if b.len() > 0 {
            assert(escaped(b).len() >= escape_char(b[0]).len());
        }
        assert(a =~= b);
    } else {
        let ea = escape_char(a[0]);
        let eb = escape_char(b[0]);
        let ra = escaped(a.drop_first());
        let rb = escaped(b.drop_first());
        assert(escaped(a) == ea + ra);
        assert(escaped(b) == eb + rb);
        assert(escaped(a)[0] == ea[0]);
        assert(escaped(b)[0] == eb[0]);
        if ea.len() == 2 {
            assert(escaped(a)[1] == ea[1]);
        }
        if eb.len() == 2 {
            assert(escaped(b)[1] == eb[1]);
        }
        assert(a[0] == b[0]);
        assert(ra =~= escaped(a).skip(ea.len() as int));
        assert(rb =~= escaped(b).skip(eb.len() as int));
        escaping_loses_nothing(a.drop_first(), b.drop_first());
        assert(a =~= seq![a[0]] + a.drop_first());
        assert(b =~= seq![b[0]] + b.drop_first());
    }
}

/// A written label value holds no line break, and no quote but behind a backslash, so it ends
/// neither its line nor its quotes.
pub proof fn escaped_values_stay_in_their_quotes(value: Seq<char>)
    ensures
        forall|i: int| 0 <= i < escaped(value).len() ==> #[trigger] escaped(value)[i] != '\n',
        forall|i: int|
            0 <= i < escaped(value).len() && #[trigger] escaped(value)[i] == '"' ==> i > 0
                && escaped(value)[i - 1] == '\\',
    decreases value.len(),
{
    if value.len() > 0 {
        let head = escape_char(value[0]);
        let rest = escaped(value.drop_first());
        escaped_values_stay_in_their_quotes(value.drop_first());
        assert(escaped(value) == head + rest);
        assert forall|i: int| 0 <= i < escaped(value).len() implies #[trigger] escaped(value)[i]
            != '\n' by {
            if i >= head.len() {
                assert(escaped(value)[i] == rest[i - head.len()]);
            }
        }
        assert forall|i: int|
            0 <= i < escaped(value).len() && #[trigger] escaped(value)[i] == '"' implies i > 0
            && escaped(value)[i - 1] == '\\' by {
            if i >= head.len() {
                assert(escaped(value)[i] == rest[i - head.len()]);
                assert(escaped(value)[i - 1] == rest[i - head.len() - 1]);
            }
        }
    }
}

/// The name of a counter of a function: both names, with an underscore for each character that is
/// no letter, no digit, no underscore and no colon.
pub open spec fn plain_name(function: Seq<char>, counter: Seq<char>) -> Seq<char> {
    let kept = |c: char|
        if 'a' <= c <= 'z' || 'A' <= c <= 'Z' || '0' <= c <= '9' || c == '_' || c == ':' {
            c
        } else {
            '_'
        };
    "function_"@ + function.map_values(kept) + "_"@ + counter.map_values(kept)
}

/// A label as it is written: its name, and its value between quotes.
pub open spec fn plain_label(label: (Seq<char>, Seq<char>)) -> Seq<char> {
    let name = Seq::new(
        label.0.len(),
        |i: int|
            if 'a' <= label.0[i] <= 'z' || 'A' <= label.0[i] <= 'Z' || label.0[i] == '_' || (i > 0
                && '0' <= label.0[i] <= '9') {
                label.0[i]
            } else {
                '_'
            },
    );
    let value = label.1.map_values(
        |c: char|
            if c == '\\' {
                seq!['\\', '\\']
            } else if c == '"' {
                seq!['\\', '"']
            } else if c == '\n' {
                seq!['\\', 'n']
            } else {
                seq![c]
            },
    ).flatten();
    name + "=\""@ + value + "\""@
}

/// Labels with a comma between each and the next.
pub open spec fn plain_labels(labels: Seq<(Seq<char>, Seq<char>)>) -> Seq<char> {
    Seq::new(
        labels.len(),
        |i: int|
            if i == 0 {
                plain_label(labels[i])
            } else {
                ","@ + plain_label(labels[i])
            },
    ).flatten()
}

/// The block of a counter of a function with its value.
pub open spec fn plain_block(function: Seq<char>, key: MetricKeyView, value: u64) -> Seq<char> {
    let name = plain_name(function, key.name);
    if key.labels.len() == 0 {
        "# TYPE "@ + name + " counter\n"@ + name + " "@ + text::decimal(value as nat) + "\n"@
    } else {
        "# TYPE "@ + name + " counter\n"@ + name + "{"@ + plain_labels(key.labels) + "} "@
            + text::decimal(value as nat) + "\n"@
    }
}

/// The text of a list of functions with their counters is made of one block for each counter, in the
/// order of the list, and each block is named after the function that the counter stands beside.
pub open spec fn blocks_of(functions: Seq<(Seq<char>, CounterListing)>) -> Seq<char> {
    functions.map_values(
        |function: (Seq<char>, CounterListing)|
            function.1.map_values(
                |counter: (MetricKeyView, u64)| plain_block(function.0, counter.0, counter.1),
            ).flatten(),
    ).flatten()
}

/// A counter is written as its block, with its own name, labels and value.
pub proof fn counters_are_written_as_blocks(
    function: &str,
    key: &MetricKey,
    value: u64,
    out: String,
)
    requires
        call_ensures(write_counter, (function, key, value), out),
    ensures
        out@ == plain_block(
            function@,
            MetricKeyView {
                name: key.name@,
                labels: key.labels@.map_values(|label: (String, String)| (label.0@, label.1@)),
            },
            value,
        ),
{
    assert(key@.labels =~= key.labels@.map_values(
        |label: (String, String)| (label.0@, label.1@),
    ));
    lemma_block(function@, key@, value);
}

/// The counters of functions are written block by block: each of a function under the name of that
/// function, with its own value, and nothing else.
pub proof fn functions_are_written_with_their_own_counters(
    entries: &Vec<(FunctionId, FunctionMetricsDelta)>,
    out: String,
)
    requires
        call_ensures(write_functions, (entries,), out),
    ensures
        out@ == entries@.map_values(
            |entry: (FunctionId, FunctionMetricsDelta)|
                entry.1.counters_delta.entries@.map_values(
                    |counter: (MetricKey, u64)| plain_block(entry.0@, counter.0@, counter.1),
                ).flatten(),
        ).flatten(),
{
    let listing = metrics::function_listing(entries@);
    lemma_registry_text(listing);
    let texts = entries@.map_values(
        |entry: (FunctionId, FunctionMetricsDelta)|
            entry.1.counters_delta.entries@.map_values(
                |counter: (MetricKey, u64)| plain_block(entry.0@, counter.0@, counter.1),
            ).flatten(),
    );
    let listed = listing.map_values(
        |function: (Seq<char>, CounterListing)|
            function.1.map_values(
                |counter: (MetricKeyView, u64)| plain_block(function.0, counter.0, counter.1),
            ).flatten(),
    );
    assert forall|i: int| 0 <= i < entries@.len() implies texts[i] == listed[i] by {
        let own = entries@[i].1.counters_delta.entries@;
        let function = entries@[i].0@;
        assert(own.map_values(
            |counter: (MetricKey, u64)| plain_block(function, counter.0@, counter.1),
        ) =~= metrics::counter_listing(own).map_values(
            |counter: (MetricKeyView, u64)| plain_block(function, counter.0, counter.1),
        ));
    }
    assert(texts =~= listed);
}

/// What is written for a list of functions is made of the blocks of their counters.
pub proof fn lemma_registry_text(functions: Seq<(Seq<char>, CounterListing)>)
    ensures
        registry_text(functions) == blocks_of(functions),
    decreases functions.len(),
{
    let text = |function: (Seq<char>, CounterListing)|
        function.1.map_values(
            |counter: (MetricKeyView, u64)| plain_block(function.0, counter.0, counter.1),
        ).flatten();
    let texts = functions.map_values(text);
    if functions.len() > 0 {
        let rest = functions.drop_last();
        lemma_registry_text(rest);
        lemma_counters_text(functions.last().0, functions.last().1);
        assert(texts =~= rest.map_values(text).push(text(functions.last())));
        rest.map_values(text).lemma_flatten_push(text(functions.last()));
    } else {
        assert(texts.flatten() =~= Seq::<char>::empty());
    }
}

proof fn lemma_counters_text(function: Seq<char>, counters: CounterListing)
    ensures
        counters_text(function, counters) == counters.map_values(
            |counter: (MetricKeyView, u64)| plain_block(function, counter.0, counter.1),
        ).flatten(),
    decreases counters.len(),
{
    let text = |counter: (MetricKeyView, u64)| plain_block(function, counter.0, counter.1);
    let texts = counters.map_values(text);
    if counters.len() > 0 {
        let rest = counters.drop_last();
        lemma_counters_text(function, rest);
        lemma_block(function, counters.last().0, counters.last().1);
        assert(texts =~= rest.map_values(text).push(text(counters.last())));
        rest.map_values(text).lemma_flatten_push(text(counters.last()));
    } else {
        assert(texts.flatten() =~= Seq::<char>::empty());
    }
}

proof fn lemma_block(function: Seq<char>, key: MetricKeyView, value: u64)
    ensures
        counter_text(function, key, value) == plain_block(function, key, value),
{
    let name = exposed_name(function, key.name);
    let kept = |c: char|
        if 'a' <= c <= 'z' || 'A' <= c <= 'Z' || '0' <= c <= '9' || c == '_' || c == ':' {
            c
        } else {
            '_'
        };
    assert(sanitized_metric(function) =~= function.map_values(kept));
    assert(sanitized_metric(key.name) =~= key.name.map_values(kept));
    assert(name == plain_name(function, key.name));
    lemma_labels(key.labels);
    reveal_strlit("} ");
    reveal_strlit("}");
    reveal_strlit(" ");
    assert("} "@ =~= "}"@ + " "@);
    assert(counter_text(function, key, value) =~= plain_block(function, key, value));
}

proof fn lemma_labels(labels: Seq<(Seq<char>, Seq<char>)>)
    ensures
        labels_text(labels) == plain_labels(labels),
    decreases labels.len(),
{
    let texts = Seq::new(
        labels.len(),
        |i: int|
            if i == 0 {
                plain_label(labels[i])
            } else {
                ","@ + plain_label(labels[i])
            },
    );
    if labels.len() > 0 {
        let rest = labels.drop_last();
        let shorter = Seq::new(
            rest.len(),
            |i: int|
                if i == 0 {
                    plain_label(rest[i])
                } else {
                    ","@ + plain_label(rest[i])
                },
        );
        lemma_labels(rest);
        let own = texts[labels.len() - 1];
        assert(texts =~= shorter.push(own));
        shorter.lemma_flatten_push(own);
        lemma_label(labels.last());
        assert(labels_text(labels) =~= shorter.flatten() + own);
    } else {
        assert(texts.flatten() =~= Seq::<char>::empty());
    }
}

proof fn lemma_label(label: (Seq<char>, Seq<char>))
    ensures
        sanitized_label(label.0) + "=\""@ + escaped(label.1) + "\""@ == plain_label(label),
{
    lemma_escaped(label.1);
    assert(sanitized_label(label.0) =~= Seq::new(
        label.0.len(),
        |i: int|
            if 'a' <= label.0[i] <= 'z' || 'A' <= label.0[i] <= 'Z' || label.0[i] == '_' || (i > 0
                && '0' <= label.0[i] <= '9') {
                label.0[i]
            } else {
                '_'
            },
    ));
}

proof fn lemma_escaped(value: Seq<char>)
    ensures
        escaped(value) == value.map_values(
            |c: char|
                if c == '\\' {
                    seq!['\\', '\\']
                } else if c == '"' {
                    seq!['\\', '"']
                } else if c == '\n' {
                    seq!['\\', 'n']
                } else {
                    seq![c]
                },
        ).flatten(),
    decreases value.len(),
{
    let text = |c: char|
        if c == '\\' {
            seq!['\\', '\\']
        } else if c == '"' {
            seq!['\\', '"']
        } else if c == '\n' {
            seq!['\\', 'n']
        } else {
            seq![c]
        };
    let texts = value.map_values(text);
    if value.len() > 0 {
        lemma_escaped(value.drop_first());
        assert(texts.drop_first() =~= value.drop_first().map_values(text));
        assert(escape_char(value[0]) =~= text(value[0]));
    } else {
        assert(texts.flatten() =~= Seq::<char>::empty());
    }
}

/// A name keeps the characters that may stand in it at their places and has an underscore for each other
/// one; the first character of the name of a label is no digit.
pub proof fn sanitizing_replaces_other_characters(
    s: &str,
    metric: String,
    label: String,
    i: int,
)
    requires
        call_ensures(sanitize_metric_name, (s,), metric),
        call_ensures(sanitize_label_name, (s,), label),
        0 <= i < s@.len(),
    ensures
        metric@.len() == s@.len(),
        label@.len() == s@.len(),
        metric@[i] == s@[i] || metric@[i] == '_',
        label@[i] == s@[i] || label@[i] == '_',
        'a' <= s@[i] <= 'z' || 'A' <= s@[i] <= 'Z' || '0' <= s@[i] <= '9' || s@[i] == ':'
            <==> metric@[i] != '_',
        'a' <= s@[i] <= 'z' || 'A' <= s@[i] <= 'Z' || (i > 0 && '0' <= s@[i] <= '9') <==> label@[i]
            != '_',
{
}

/// A value is escaped character by character: a backslash, a quote and a line end become a backslash and
/// what tells them, and every other character stays.
pub proof fn values_are_escaped_character_by_character(s: &str, out: String)
    requires
        call_ensures(escape_label_value, (s,), out),
    ensures
        out@ == s@.map_values(
            |c: char|
                if c == '\\' {
                    seq!['\\', '\\']
                } else if c == '"' {
                    seq!['\\', '"']
                } else if c == '\n' {
                    seq!['\\', 'n']
                } else {
                    seq![c]
                },
        ).flatten(),
{
    lemma_escaped(s@);
}

} // verus!
