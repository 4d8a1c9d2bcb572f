use vstd::prelude::*;

use crate::text::same_text;

verus! {

/// Some entry of `v` is `s`.
pub open spec fn holds(v: Seq<String>, s: Seq<char>) -> bool {
    exists|i: int| 0 <= i < v.len() && (#[trigger] v[i])@ == s
}

/// No text stands twice in `v`.
pub open spec fn distinct(v: Seq<String>) -> bool {
    forall|i: int, j: int| 0 <= i < j < v.len() ==> (#[trigger] v[i])@ != (#[trigger] v[j])@
}

proof fn lemma_holds_push(v: Seq<String>, x: String, s: Seq<char>)
    ensures
        holds(v.push(x), s) <==> (holds(v, s) || x@ == s),
{
    let w = v.push(x);
    if holds(w, s) {
        let j = choose|j: int| 0 <= j < w.len() && (#[trigger] w[j])@ == s;
        if j < v.len() {
            assert(v[j] == w[j]);
        }
    }
    if holds(v, s) {
        let j = choose|j: int| 0 <= j < v.len() && (#[trigger] v[j])@ == s;
        assert(w[j] == v[j]);
    }
    if x@ == s {
        assert(w[v.len() as int] == x);
    }
}

/// Whether `v` holds the text `s`.
pub fn contains_text(v: &Vec<String>, s: &str) -> (r: bool)
    ensures
        r == holds(v@, s@),
{
    let mut i: usize = 0;
    while i < v.len()
        invariant
            i <= v@.len(),
            forall|j: int| 0 <= j < i ==> (#[trigger] v@[j])@ != s@,
        decreases v@.len() - i,
    {
        if same_text(v[i].as_str(), s) {
            return true;
        }
        i = i + 1;
    }
    false
}

fn add_all(start_out: Vec<String>, from: &Vec<String>) -> (out: Vec<String>)
    requires
        distinct(start_out@),
    ensures
        distinct(out@),
        forall|s: Seq<char>| holds(out@, s) <==> (holds(start_out@, s) || holds(from@, s)),
{
    let ghost start = start_out@;
    let mut out = start_out;
    let mut i: usize = 0;
    while i < from.len()
        invariant
            i <= from@.len(),
            distinct(out@),
            forall|s: Seq<char>| holds(out@, s) <==> (holds(start, s) || holds(from@.subrange(0, i as int), s)),
        decreases from@.len() - i,
    {
        let ghost before = out@;
        let item = &from[i];
        let ghost pushed = false;
        if !contains_text(&out, item.as_str()) {
            out.push(item.clone());
            proof {
                pushed = true;
            }
            assert forall|a: int, b: int| 0 <= a < b < out@.len() implies (#[trigger] out@[a])@ != (#[trigger] out@[b])@ by {
                if b == out@.len() - 1 {
                    assert(before[a] == out@[a]);
                } else {
                    assert(before[a] == out@[a] && before[b] == out@[b]);
                }
            }
        }
        proof {
            let pre = from@.subrange(0, i as int);
            let post = from@.subrange(0, i + 1);
            assert(post =~= pre.push(from@[i as int]));
            if pushed {
                assert(out@ =~= before.push(from@[i as int]));
            } else {
                assert(out@ == before);
            }
            assert forall|s: Seq<char>| holds(out@, s) <==> (holds(start, s) || holds(post, s)) by {
                assert(holds(before, s) <==> (holds(start, s) || holds(pre, s)));
                lemma_holds_push(pre, from@[i as int], s);
                if !pushed {
                    assert(holds(before, item@));
                }
                if pushed {
                    lemma_holds_push(before, from@[i as int], s);
                }
            }
        }
        i = i + 1;
    }
    assert(from@.subrange(0, from@.len() as int) =~= from@);
    out
}

/// The switches of a run: those of the configuration and those given on the
/// command line, each once.
pub fn merge_switches(config: &Vec<String>, cli: &Vec<String>) -> (r: Vec<String>)
    ensures
        distinct(r@),
        forall|s: Seq<char>| holds(r@, s) <==> (holds(config@, s) || holds(cli@, s)),
{
    let empty: Vec<String> = Vec::new();
    assert forall|s: Seq<char>| !holds(empty@, s) by {}
    let mid = add_all(empty, config);
    add_all(mid, cli)
}

} // verus!
