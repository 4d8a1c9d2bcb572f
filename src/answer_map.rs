use vstd::prelude::*;
use vstd::string::*;

use crate::text::same_text;
use crate::value::AnswerValue;

verus! {

/// What a list of `(identifier, value)` entries says, a later entry for an
/// identifier hiding the earlier ones.
pub open spec fn entries_map(s: Seq<(String, AnswerValue)>) -> Map<Seq<char>, AnswerValue>
    decreases s.len(),
{
    if s.len() == 0 {
        Map::empty()
    } else {
        entries_map(s.drop_last()).insert(s.last().0@, s.last().1)
    }
}

/// Answers by identifier. Setting an identifier again replaces its value.
#[derive(Debug)]
pub struct AnswerMap {
    entries: Vec<(String, AnswerValue)>,
}

impl View for AnswerMap {
    type V = Map<Seq<char>, AnswerValue>;

    closed spec fn view(&self) -> Map<Seq<char>, AnswerValue> {
        entries_map(self.entries@)
    }
}

proof fn lemma_entries_concat(a: Seq<(String, AnswerValue)>, b: Seq<(String, AnswerValue)>)
    ensures
        entries_map(a + b) == entries_map(a).union_prefer_right(entries_map(b)),
    decreases b.len(),
{
    if b.len() == 0 {
        assert(a + b =~= a);
        assert(entries_map(a).union_prefer_right(entries_map(b)) =~= entries_map(a));
    } else {
        lemma_entries_concat(a, b.drop_last());
        assert((a + b).drop_last() =~= a + b.drop_last());
        assert(entries_map(a + b) =~= entries_map(a).union_prefer_right(entries_map(b)));
    }
}

proof fn lemma_entries_miss(s: Seq<(String, AnswerValue)>, i: int, k: Seq<char>)
    requires
        0 <= i <= s.len(),
        forall|j: int| i <= j < s.len() ==> (#[trigger] s[j]).0@ != k,
    ensures
        entries_map(s).contains_key(k) == entries_map(s.subrange(0, i)).contains_key(k),
        entries_map(s).contains_key(k) ==> entries_map(s)[k] == entries_map(
            s.subrange(0, i),
        )[k],
    decreases s.len() - i,
{
    if i == s.len() {
        assert(s.subrange(0, i) =~= s);
    } else {
        let t = s.subrange(0, i + 1);
        assert(t.drop_last() =~= s.subrange(0, i));
        lemma_entries_miss(s, i + 1, k);
    }
}

impl AnswerMap {
    /// No answers.
    pub fn new() -> (r: AnswerMap)
        ensures
            r@ == Map::<Seq<char>, AnswerValue>::empty(),
    {
        AnswerMap { entries: Vec::new() }
    }

    /// Sets `key` to `value`, replacing what it had.
    pub fn insert(&mut self, key: String, value: AnswerValue)
        ensures
            final(self)@ == old(self)@.insert(key@, value),
    {
        let ghost before = self.entries@;
        self.entries.push((key, value));
        assert(self.entries@.drop_last() =~= before);
    }

    /// The value of `key`, if it has one.
    pub fn get(&self, key: &str) -> (r: Option<&AnswerValue>)
        ensures
            match r {
                Some(v) => self@.contains_key(key@) && self@[key@] == *v,
                None => !self@.contains_key(key@),
            },
    {
        let mut i = self.entries.len();
        while i > 0
            invariant
                i <= self.entries@.len(),
                forall|j: int| i <= j < self.entries@.len() ==> (#[trigger] self.entries@[j]).0@ != key@,
            decreases i,
        {
            let e = &self.entries[i - 1];
            if same_text(e.0.as_str(), key) {
                proof {
                    let s = self.entries@;
                    lemma_entries_miss(s, i as int, key@);
                    let t = s.subrange(0, i as int);
                    assert(t.drop_last() =~= s.subrange(0, i - 1));
                }
                return Some(&e.1);
            }
            i = i - 1;
        }
        proof {
            lemma_entries_miss(self.entries@, 0, key@);
        }
        None
    }

    /// Lays `other` over these answers: where both have an identifier, `other`'s
    /// value wins.
    pub fn extend(&mut self, other: AnswerMap)
        ensures
            final(self)@ == old(self)@.union_prefer_right(other@),
    {
        let ghost a = self.entries@;
        let mut rest = other.entries;
        let ghost b = rest@;
        self.entries.append(&mut rest);
        proof {
            lemma_entries_concat(a, b);
        }
    }
}

/// Answers laid over one another, each layer taking precedence over the ones
/// before it.
pub open spec fn layered(layers: Seq<Map<Seq<char>, AnswerValue>>) -> Map<Seq<char>, AnswerValue>
    decreases layers.len(),
{
    if layers.len() == 0 {
        Map::empty()
    } else {
        layered(layers.drop_last()).union_prefer_right(layers.last())
    }
}

/// The answers of a run: those of the user's configuration, then those of each
/// answer file in command-line order, then the single `--answer` pairs.
pub open spec fn precedence_order(
    config: Map<Seq<char>, AnswerValue>,
    files: Seq<Map<Seq<char>, AnswerValue>>,
    pairs: Map<Seq<char>, AnswerValue>,
) -> Map<Seq<char>, AnswerValue> {
    layered(seq![config] + files + seq![pairs])
}

/// Merges the answers of a run in precedence order: configuration, then answer
/// files in order, then `--answer` pairs.
pub fn merge_answers(config: AnswerMap, files: Vec<AnswerMap>, pairs: AnswerMap) -> (r: AnswerMap)
    ensures
        r@ == precedence_order(config@, files@.map_values(|f: AnswerMap| f@), pairs@),
{
    let ghost fs = files@.map_values(|f: AnswerMap| f@);
    let mut merged = config;
    let mut rest = files;
    let n = rest.len();
    let mut done: usize = 0;
    proof {
        assert(Map::<Seq<char>, AnswerValue>::empty().union_prefer_right(config@) =~= config@);
        assert(seq![config@].drop_last() =~= Seq::<Map<Seq<char>, AnswerValue>>::empty());
        assert(seq![config@] + fs.subrange(0, 0) =~= seq![config@]);
        assert(layered(Seq::<Map<Seq<char>, AnswerValue>>::empty()) == Map::<Seq<char>, AnswerValue>::empty());
        assert(layered(seq![config@]) == config@);
    }
    while rest.len() > 0
        invariant
            done + rest@.len() == n,
            n == fs.len(),
            forall|j: int| 0 <= j < rest@.len() ==> (#[trigger] rest@[j])@ == fs[done + j],
            merged@ == layered(seq![config@] + fs.subrange(0, done as int)),
        decreases rest@.len(),
    {
        let f = rest.remove(0);
        assert(f@ == fs[done as int]);
        merged.extend(f);
        proof {
            let l = seq![config@] + fs.subrange(0, done + 1);
            assert(l.drop_last() =~= seq![config@] + fs.subrange(0, done as int));
            assert(forall|j: int| 0 <= j < rest@.len() ==> (#[trigger] rest@[j])@ == fs[done + 1 + j]);
        }
        done = done + 1;
    }
    merged.extend(pairs);
    proof {
        let l = seq![config@] + fs + seq![pairs@];
        assert(fs.subrange(0, done as int) =~= fs);
        assert(l.drop_last() =~= seq![config@] + fs);
    }
    merged
}

/// Where an identifier has an `--answer` pair, the merged answers hold that pair's
/// value, whatever the configuration and the answer files say.
pub proof fn lemma_pairs_take_precedence(
    config: Map<Seq<char>, AnswerValue>,
    files: Seq<Map<Seq<char>, AnswerValue>>,
    pairs: Map<Seq<char>, AnswerValue>,
    k: Seq<char>,
)
    requires
        pairs.contains_key(k),
    ensures
        precedence_order(config, files, pairs).contains_key(k),
        precedence_order(config, files, pairs)[k] == pairs[k],
{
    let l = seq![config] + files + seq![pairs];
    assert(l.last() == pairs);
}

/// Where an identifier has no `--answer` pair, the merged answers hold the value
/// of the last answer file that names it, whatever the configuration says.
pub proof fn lemma_last_file_takes_precedence(
    config: Map<Seq<char>, AnswerValue>,
    files: Seq<Map<Seq<char>, AnswerValue>>,
    pairs: Map<Seq<char>, AnswerValue>,
    k: Seq<char>,
    i: int,
)
    requires
        !pairs.contains_key(k),
        0 <= i < files.len(),
        files[i].contains_key(k),
        forall|j: int| i < j < files.len() ==> !(#[trigger] files[j]).contains_key(k),
    ensures
        precedence_order(config, files, pairs).contains_key(k),
        precedence_order(config, files, pairs)[k] == files[i][k],
{
    let l = seq![config] + files + seq![pairs];
    assert(l.drop_last() =~= seq![config] + files);
    lemma_layered_last_holder(seq![config] + files, i + 1, k);
}

/// Where only the configuration names an identifier, the merged answers hold the
/// configuration's value.
pub proof fn lemma_config_answers_stand(
    config: Map<Seq<char>, AnswerValue>,
    files: Seq<Map<Seq<char>, AnswerValue>>,
    pairs: Map<Seq<char>, AnswerValue>,
    k: Seq<char>,
)
    requires
        config.contains_key(k),
        !pairs.contains_key(k),
        forall|j: int| 0 <= j < files.len() ==> !(#[trigger] files[j]).contains_key(k),
    ensures
        precedence_order(config, files, pairs).contains_key(k),
        precedence_order(config, files, pairs)[k] == config[k],
{
    let l = seq![config] + files + seq![pairs];
    assert(l.drop_last() =~= seq![config] + files);
    lemma_layered_last_holder(seq![config] + files, 0, k);
}

proof fn lemma_layered_last_holder(layers: Seq<Map<Seq<char>, AnswerValue>>, i: int, k: Seq<char>)
    requires
        0 <= i < layers.len(),
        layers[i].contains_key(k),
        forall|j: int| i < j < layers.len() ==> !(#[trigger] layers[j]).contains_key(k),
    ensures
        layered(layers).contains_key(k),
        layered(layers)[k] == layers[i][k],
    decreases layers.len(),
{
    if i < layers.len() - 1 {
        let t = layers.drop_last();
        assert forall|j: int| i < j < t.len() implies !(#[trigger] t[j]).contains_key(k) by {
            assert(t[j] == layers[j]);
        }
        lemma_layered_last_holder(t, i, k);
    } else {
        assert(layers.last() == layers[i]);
    }
}

} // verus!
