//! Comparing texts, and the prefix filter behind autocompletion.

use vstd::prelude::*;
use vstd::string::StrSliceExecFns;

verus! {

/// Whether `a` and `b` hold the same characters.
pub fn same_text(a: &str, b: &str) -> (r: bool)
    ensures
        r == (a@ == b@),
{
    let n = a.unicode_len();
    if n != b.unicode_len() {
        return false;
    }
    let mut i: usize = 0;
    while i < n
        invariant
            n == a@.len() == b@.len(),
            i <= n,
            forall|j: int| 0 <= j < i ==> a@[j] == b@[j],
        decreases n - i,
    {
        if a.get_char(i) != b.get_char(i) {
            return false;
        }
        i += 1;
    }
    assert(a@ =~= b@);
    true
}

/// Whether `s` begins with `prefix`.
pub fn starts_with(s: &str, prefix: &str) -> (r: bool)
    ensures
        r == prefix@.is_prefix_of(s@),
{
    let n = prefix.unicode_len();
    if n > s.unicode_len() {
        return false;
    }
    let mut i: usize = 0;
    while i < n
        invariant
            n == prefix@.len() <= s@.len(),
            i <= n,
            forall|j: int| 0 <= j < i ==> prefix@[j] == s@[j],
        decreases n - i,
    {
        if prefix.get_char(i) != s.get_char(i) {
            return false;
        }
        i += 1;
    }
    assert(prefix@ =~= s@.subrange(0, n as int));
    true
}

/// Whether `items` holds `s`.
pub fn contains_text(items: &Vec<String>, s: &str) -> (r: bool)
    ensures
        r == texts(items@).contains(s@),
{
    let mut i: usize = 0;
    while i < items.len()
        invariant
            i <= items@.len(),
            forall|j: int| 0 <= j < i ==> #[trigger] items@[j]@ != s@,
        decreases items@.len() - i,
    {
        if same_text(items[i].as_str(), s) {
            proof {
                assert(texts(items@)[i as int] == s@);
            }
            return true;
        }
        i += 1;
    }
    proof {
        if texts(items@).contains(s@) {
            let k = choose|k: int| 0 <= k < texts(items@).len() && texts(items@)[k] == s@;
            assert(items@[k]@ == s@);
        }
    }
    false
}

pub open spec fn texts(items: Seq<String>) -> Seq<Seq<char>> {
    items.map_values(|s: String| s@)
}

/// The entries of `items` that begin with `partial`, in their order.
pub open spec fn prefix_matches(items: Seq<Seq<char>>, partial: Seq<char>) -> Seq<Seq<char>>
    decreases items.len(),
{
    if items.len() == 0 {
        seq![]
    } else {
        let rest = prefix_matches(items.drop_last(), partial);
        if partial.is_prefix_of(items.last()) {
            rest.push(items.last())
        } else {
            rest
        }
    }
}

/// Filtering on an empty prefix keeps every entry, in order.
pub proof fn lemma_empty_prefix_keeps_all(items: Seq<Seq<char>>)
    ensures
        prefix_matches(items, seq![]) == items,
    decreases items.len(),
{
    if items.len() > 0 {
        lemma_empty_prefix_keeps_all(items.drop_last());
        assert(Seq::<char>::empty().is_prefix_of(items.last())) by {
            assert(Seq::<char>::empty() =~= items.last().subrange(0, 0));
        }
        assert(items.drop_last().push(items.last()) =~= items);
    }
}

/// The names offered while a user types: those that begin with what was typed.
pub fn autocomplete_name(candidates: &Vec<String>, partial: &str) -> (r: Vec<String>)
    ensures
        texts(r@) == prefix_matches(texts(candidates@), partial@),
{
    let mut out: Vec<String> = Vec::new();
    let mut i: usize = 0;
    while i < candidates.len()
        invariant
            i <= candidates@.len(),
            texts(out@) == prefix_matches(texts(candidates@.subrange(0, i as int)), partial@),
        decreases candidates@.len() - i,
    {
        proof {
            let all = candidates@.subrange(0, i + 1);
            assert(texts(all).drop_last() =~= texts(candidates@.subrange(0, i as int)));
            assert(texts(all).last() == candidates@[i as int]@);
        }
        if starts_with(candidates[i].as_str(), partial) {
            out.push(candidates[i].clone());
            proof {
                assert(texts(out@) =~= prefix_matches(
                    texts(candidates@.subrange(0, i as int)),
                    partial@,
                ).push(candidates@[i as int]@));
            }
        }
        i += 1;
    }
    assert(candidates@.subrange(0, candidates@.len() as int) =~= candidates@);
    out
}

/// The names that are listed in `wanted`, or equal to `always`, in their order.
pub open spec fn kept_names(
    names: Seq<Seq<char>>,
    wanted: Seq<Seq<char>>,
    always: Option<Seq<char>>,
) -> Seq<Seq<char>>
    decreases names.len(),
{
    if names.len() == 0 {
        seq![]
    } else {
        let rest = kept_names(names.drop_last(), wanted, always);
        if wanted.contains(names.last()) || always == Some(names.last()) {
            rest.push(names.last())
        } else {
            rest
        }
    }
}

/// Keeps the names that are listed in `wanted`, or equal to `always`, in their order.
pub fn keep_names(names: &Vec<String>, wanted: &Vec<String>, always: Option<&str>) -> (r: Vec<
    String,
>)
    ensures
        texts(r@) == kept_names(
            texts(names@),
            texts(wanted@),
            match always {
                Some(a) => Some(a@),
                None => None,
            },
        ),
{
    let ghost always_v = match always {
        Some(a) => Some(a@),
        None => None::<Seq<char>>,
    };
    let mut out: Vec<String> = Vec::new();
    let mut i: usize = 0;
    while i < names.len()
        invariant
            i <= names@.len(),
            always_v == match always {
                Some(a) => Some(a@),
                None => None,
            },
            texts(out@) == kept_names(texts(names@.subrange(0, i as int)), texts(wanted@), always_v),
        decreases names@.len() - i,
    {
        proof {
            let all = names@.subrange(0, i + 1);
            assert(texts(all).drop_last() =~= texts(names@.subrange(0, i as int)));
            assert(texts(all).last() == names@[i as int]@);
        }
        let name = names[i].as_str();
        let is_always = match always {
            Some(a) => same_text(name, a),
            None => false,
        };
        if contains_text(wanted, name) || is_always {
            out.push(names[i].clone());
            proof {
                assert(texts(out@) =~= kept_names(
                    texts(names@.subrange(0, i as int)),
                    texts(wanted@),
                    always_v,
                ).push(names@[i as int]@));
            }
        }
        i += 1;
    }
    assert(names@.subrange(0, names@.len() as int) =~= names@);
    out
}

} // verus!
