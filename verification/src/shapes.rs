//! The canonical log record: a set of labels and the lines emitted under them.

use vstd::prelude::*;

verus! {

/// What a [`LogMessage`] stands for: its labels as a mapping and its lines in
/// emission order.
pub struct LogMessageView {
    /// Label name to label value.
    pub stream: Map<Seq<char>, Seq<char>>,
    /// `(timestamp, line)` pairs, oldest first.
    pub values: Seq<(Seq<char>, Seq<char>)>,
}

/// A batch of log lines that share one set of labels.
///
/// No label name occurs twice, and the lines keep the order in which they were
/// given.
#[derive(Debug)]
pub struct LogMessage {
    stream: Vec<(String, String)>,
    values: Vec<(String, String)>,
}

/// Pairs of strings seen as pairs of character sequences.
pub open spec fn pairs_view(pairs: Seq<(String, String)>) -> Seq<(Seq<char>, Seq<char>)> {
    pairs.map_values(|p: (String, String)| (p.0@, p.1@))
}

/// The mapping obtained by inserting `pairs` from first to last, so that of
/// two pairs with one name the later one stays.
pub open spec fn labels_of(pairs: Seq<(Seq<char>, Seq<char>)>) -> Map<Seq<char>, Seq<char>>
    decreases pairs.len(),
{
    if pairs.len() == 0 {
        Map::empty()
    } else {
        labels_of(pairs.drop_last()).insert(pairs.last().0, pairs.last().1)
    }
}

/// No two pairs share a name.
pub open spec fn distinct_names(pairs: Seq<(Seq<char>, Seq<char>)>) -> bool {
    forall|i: int, j: int| 0 <= i < j < pairs.len() ==> pairs[i].0 != pairs[j].0
}

/// Pairs with distinct names keep distinct names when the last is left out.
proof fn lemma_front_distinct(pairs: Seq<(Seq<char>, Seq<char>)>)
    requires
        distinct_names(pairs),
        pairs.len() > 0,
    ensures
        distinct_names(pairs.drop_last()),
{
}

/// A name is bound by `labels_of` exactly when some pair carries it.
pub proof fn lemma_labels_domain(pairs: Seq<(Seq<char>, Seq<char>)>, name: Seq<char>)
    ensures
        labels_of(pairs).contains_key(name) <==> exists|i: int|
            0 <= i < pairs.len() && #[trigger] pairs[i].0 == name,
    decreases pairs.len(),
{
    if pairs.len() > 0 {
        let front = pairs.drop_last();
        lemma_labels_domain(front, name);
        if exists|i: int| 0 <= i < pairs.len() && #[trigger] pairs[i].0 == name {
            let i = choose|i: int| 0 <= i < pairs.len() && #[trigger] pairs[i].0 == name;
            if i < pairs.len() - 1 {
                assert(front[i].0 == name);
            }
        }
    }
}

/// Where no name occurs twice, each pair's name is bound to that pair's value.
pub proof fn lemma_labels_value(pairs: Seq<(Seq<char>, Seq<char>)>, at: int)
    requires
        distinct_names(pairs),
        0 <= at < pairs.len(),
    ensures
        labels_of(pairs).contains_key(pairs[at].0),
        labels_of(pairs)[pairs[at].0] == pairs[at].1,
    decreases pairs.len(),
{
    let front = pairs.drop_last();
    if at < pairs.len() - 1 {
        lemma_front_distinct(pairs);
        lemma_labels_value(front, at);
    }
}

/// Where no name occurs twice, replacing one pair's value rebinds that pair's
/// name and nothing else.
pub proof fn lemma_labels_update(pairs: Seq<(Seq<char>, Seq<char>)>, at: int, value: Seq<char>)
    requires
        distinct_names(pairs),
        0 <= at < pairs.len(),
    ensures
        labels_of(pairs.update(at, (pairs[at].0, value))) == labels_of(pairs).insert(
            pairs[at].0,
            value,
        ),
        distinct_names(pairs.update(at, (pairs[at].0, value))),
    decreases pairs.len(),
{
    let name = pairs[at].0;
    let changed = pairs.update(at, (name, value));
    let front = pairs.drop_last();
    let last = pairs.len() - 1;
    assert(distinct_names(changed));
    if at == last {
        assert(changed.drop_last() =~= front);
    } else {
        lemma_front_distinct(pairs);
        lemma_labels_update(front, at, value);
        assert(changed.drop_last() =~= front.update(at, (name, value)));
    }
}

impl View for LogMessage {
    type V = LogMessageView;

    closed spec fn view(&self) -> LogMessageView {
        LogMessageView {
            stream: labels_of(pairs_view(self.stream@)),
            values: pairs_view(self.values@),
        }
    }
}

/// Binds `name` to `value` in `labels`: the pair that carries the name gets the
/// value, or a new pair is added at the end.
fn bind_label(labels: &mut Vec<(String, String)>, name: String, value: String)
    requires
        distinct_names(pairs_view(old(labels)@)),
    ensures
        distinct_names(pairs_view(final(labels)@)),
        labels_of(pairs_view(final(labels)@)) == labels_of(pairs_view(old(labels)@)).insert(
            name@,
            value@,
        ),
{
    let ghost before = pairs_view(labels@);
    let mut at: usize = 0;
    while at < labels.len()
        invariant
            at <= labels.len(),
            labels@ == old(labels)@,
            before == pairs_view(labels@),
            distinct_names(before),
            forall|i: int| 0 <= i < at ==> #[trigger] before[i].0 != name@,
        decreases labels.len() - at,
    {
        if labels[at].0 == name {
            proof {
                lemma_labels_update(before, at as int, value@);
            }
            labels.set(at, (name, value));
            assert(pairs_view(labels@) =~= before.update(at as int, (name@, value@)));
            return ;
        }
        at = at + 1;
    }
    labels.push((name, value));
    proof {
        let after = pairs_view(labels@);
        assert(after =~= before.push((name@, value@)));
        assert(after.drop_last() =~= before);
    }
}

/// A copy of `pairs`, string by string.
fn copy_pairs(pairs: &Vec<(String, String)>) -> (copy: Vec<(String, String)>)
    ensures
        pairs_view(copy@) == pairs_view(pairs@),
{
    let mut copy: Vec<(String, String)> = Vec::new();
    let mut at: usize = 0;
    while at < pairs.len()
        invariant
            at <= pairs.len(),
            pairs_view(copy@) == pairs_view(pairs@).take(at as int),
        decreases pairs.len() - at,
    {
        let ghost before = copy@;
        let name = pairs[at].0.clone();
        let value = pairs[at].1.clone();
        copy.push((name, value));
        assert(pairs_view(copy@) =~= pairs_view(before).push((name@, value@)));
        at = at + 1;
    }
    copy
}

impl Clone for LogMessage {
    fn clone(&self) -> (copy: LogMessage)
        ensures
            copy@ == self@,
    {
        proof {
            use_type_invariant(self);
        }
        LogMessage { stream: copy_pairs(&self.stream), values: copy_pairs(&self.values) }
    }
}

impl LogMessage {
    #[verifier::type_invariant]
    spec fn well_formed(&self) -> bool {
        distinct_names(pairs_view(self.stream@))
    }

    /// A record with the labels `stream` and the lines `values`.
    ///
    /// The labels are taken from first to last: where a name is given twice,
    /// the later value stays. The lines are kept as given.
    pub fn from_parts(stream: Vec<(String, String)>, values: Vec<(String, String)>) -> (message:
        LogMessage)
        ensures
            message@.stream == labels_of(pairs_view(stream@)),
            message@.values == pairs_view(values@),
    {
        let mut labels: Vec<(String, String)> = Vec::new();
        let mut at: usize = 0;
        while at < stream.len()
            invariant
                at <= stream.len(),
                distinct_names(pairs_view(labels@)),
                labels_of(pairs_view(labels@)) == labels_of(pairs_view(stream@).take(at as int)),
            decreases stream.len() - at,
        {
            let name = stream[at].0.clone();
            let value = stream[at].1.clone();
            bind_label(&mut labels, name, value);
            proof {
                let given = pairs_view(stream@);
                assert(given.take(at + 1).drop_last() =~= given.take(at as int));
            }
            at = at + 1;
        }
        assert(pairs_view(stream@).take(stream.len() as int) =~= pairs_view(stream@));
        LogMessage { stream: labels, values }
    }

    /// The record taken apart again: its labels, each name once, and its
    /// lines in their order.
    pub fn into_parts(self) -> (parts: (Vec<(String, String)>, Vec<(String, String)>))
        ensures
            distinct_names(pairs_view(parts.0@)),
            labels_of(pairs_view(parts.0@)) == self@.stream,
            pairs_view(parts.1@) == self@.values,
    {
        proof {
            use_type_invariant(&self);
        }
        let LogMessage { stream, values } = self;
        (stream, values)
    }

    /// The value of the label `name`, if the record has that label.
    pub fn label(&self, name: &str) -> (found: Option<&String>)
        ensures
            found is Some <==> self@.stream.contains_key(name@),
            found matches Some(value) ==> value@ == self@.stream[name@],
    {
        proof {
            use_type_invariant(self);
        }
        let ghost pairs = pairs_view(self.stream@);
        let wanted = name.to_owned();
        let mut at: usize = 0;
        while at < self.stream.len()
            invariant
                at <= self.stream.len(),
                wanted@ == name@,
                pairs == pairs_view(self.stream@),
                distinct_names(pairs),
                forall|i: int| 0 <= i < at ==> #[trigger] pairs[i].0 != name@,
            decreases self.stream.len() - at,
        {
            if self.stream[at].0 == wanted {
                proof {
                    lemma_labels_value(pairs, at as int);
                }
                return Some(&self.stream[at].1);
            }
            at = at + 1;
        }
        proof {
            lemma_labels_domain(pairs, name@);
        }
        None
    }

    /// How many labels the record has.
    pub fn label_count(&self) -> (count: usize)
        ensures
            count == self@.stream.dom().len(),
            self@.stream.dom().finite(),
    {
        proof {
            use_type_invariant(self);
            lemma_labels_count(pairs_view(self.stream@));
        }
        self.stream.len()
    }

    /// How many lines the record has.
    pub fn value_count(&self) -> (count: usize)
        ensures
            count == self@.values.len(),
    {
        self.values.len()
    }

    /// The `(timestamp, line)` pair at position `at`, counted from the oldest.
    pub fn value(&self, at: usize) -> (found: Option<(&String, &String)>)
        ensures
            found is Some <==> at < self@.values.len(),
            found matches Some(pair) ==> (pair.0@, pair.1@) == self@.values[at as int],
    {
        if at < self.values.len() {
            Some((&self.values[at].0, &self.values[at].1))
        } else {
            None
        }
    }
}

/// Where no name occurs twice, there are as many bound names as pairs.
pub proof fn lemma_labels_count(pairs: Seq<(Seq<char>, Seq<char>)>)
    requires
        distinct_names(pairs),
    ensures
        labels_of(pairs).dom().finite(),
        labels_of(pairs).dom().len() == pairs.len(),
    decreases pairs.len(),
{
    if pairs.len() > 0 {
        let front = pairs.drop_last();
        lemma_front_distinct(pairs);
        lemma_labels_count(front);
        lemma_labels_domain(front, pairs.last().0);
    }
}

} // verus!
