//! Text helpers: comparing string slices and joining text runs.

use vstd::prelude::*;
use vstd::string::*;

verus! {

/// Whether two string slices hold the same characters.
pub fn same_text(a: &str, b: &str) -> (same: bool)
    ensures
        same == (a@ == b@),
{
    let x = a.as_bytes();
    let y = b.as_bytes();
    proof {
        vstd::utf8::encode_utf8_decode_utf8(a@);
        vstd::utf8::encode_utf8_decode_utf8(b@);
    }
    if x.len() != y.len() {
        return false;
    }
    let mut i: usize = 0;
    while i < x.len()
        invariant
            i <= x.len(),
            x.len() == y.len(),
            x@ == a.spec_bytes(),
            y@ == b.spec_bytes(),
            forall|j: int| 0 <= j < i ==> x@[j] == y@[j],
        decreases x.len() - i,
    {
        if x[i] != y[i] {
            return false;
        }
        i += 1;
    }
    assert(x@ =~= y@);
    true
}

/// The text of a sequence of runs: the runs joined in order, with nothing between them.
pub open spec fn joined(runs: Seq<Seq<char>>) -> Seq<char> {
    runs.flatten()
}

/// Joins text runs into one string, in order.
pub fn join_runs(runs: &Vec<String>) -> (text: String)
    ensures
        text@ == joined(runs.deep_view()),
{
    let mut text = String::new();
    let mut i: usize = 0;
    assert(runs.deep_view().take(0) =~= Seq::<Seq<char>>::empty());
    while i < runs.len()
        invariant
            i <= runs.len(),
            text@ == joined(runs.deep_view().take(i as int)),
        decreases runs.len() - i,
    {
        let ghost before = runs.deep_view().take(i as int);
        text.append(runs[i].as_str());
        proof {
            assert(runs.deep_view().take(i + 1) =~= before.push(runs@[i as int]@));
            before.lemma_flatten_push(runs@[i as int]@);
        }
        i += 1;
    }
    assert(runs.deep_view().take(runs.len() as int) =~= runs.deep_view());
    text
}

} // verus!
