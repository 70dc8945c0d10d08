//! Text helpers for tags and identifiers.

use vstd::prelude::*;

verus! {

/// `s` with every `'#'` removed.
pub open spec fn without_hash(s: Seq<char>) -> Seq<char> {
    s.filter(|c: char| c != '#')
}

/// Appends one character to a string (std's `String::push`).
#[verifier::external_body]
fn push_char(s: &mut String, c: char)
    ensures
        final(s)@ == old(s)@.push(c),
{
    s.push(c)
}

/// Removes every `'#'` from a tag.
pub fn remove_hash_signs(s: &String) -> (r: String)
    ensures
        r@ == without_hash(s@),
{
    let mut out = String::new();
    let ghost whole = s@;
    for c in it: s.as_str().chars()
        invariant
            it.seq() == whole,
            out@ == whole.take(it.index() as int).filter(|c: char| c != '#'),
    {
        proof {
            reveal_with_fuel(Seq::<_>::filter, 1);
            assert(whole.take(it.index() + 1).drop_last() =~= whole.take(it.index() as int));
        }
        if c != '#' {
            push_char(&mut out, c);
        }
    }
    proof {
        assert(whole.take(whole.len() as int) =~= whole);
    }
    out
}

/// The character sequences of a list of strings.
pub open spec fn views(s: Seq<String>) -> Seq<Seq<char>> {
    s.map_values(|x: String| x@)
}

/// `s` with every element dropped that equals the element just before it
/// (consecutive repetitions collapse to their first occurrence).
pub open spec fn dedup_seq<A>(s: Seq<A>) -> Seq<A>
    decreases s.len(),
{
    if s.len() <= 1 {
        s
    } else if s[s.len() - 2] == s.last() {
        dedup_seq(s.drop_last())
    } else {
        dedup_seq(s.drop_last()).push(s.last())
    }
}

/// The tags as they are stored: every `'#'` removed from each tag, then
/// consecutive repetitions collapsed.
pub open spec fn cleaned_tags(tags: Seq<String>) -> Seq<Seq<char>> {
    dedup_seq(views(tags).map_values(|t: Seq<char>| without_hash(t)))
}

/// Collapses consecutive repetitions in a list of strings, keeping the
/// first string of each run.
pub fn dedup_strings(v: &Vec<String>) -> (r: Vec<String>)
    ensures
        views(r@) == dedup_seq(views(v@)),
{
    let mut out: Vec<String> = Vec::new();
    let mut i: usize = 0;
    while i < v.len()
        invariant
            0 <= i <= v.len(),
            views(out@) == dedup_seq(views(v@).take(i as int)),
        decreases v.len() - i,
    {
        let ghost before = views(v@).take(i as int);
        let ghost after = views(v@).take(i + 1);
        proof {
            assert(after.drop_last() =~= before);
            assert(after.last() == v@[i as int]@);
            if i > 0 {
                assert(after[after.len() - 2] == v@[i - 1]@);
            }
        }
        if i == 0 || !(v[i] == v[i - 1]) {
            out.push(v[i].clone());
            proof {
                assert(views(out@) =~= views(out@).drop_last().push(v@[i as int]@));
            }
        }
        proof {
            assert(views(out@) =~= dedup_seq(after));
        }
        i += 1;
    }
    proof {
        assert(views(v@).take(v.len() as int) =~= views(v@));
    }
    out
}

/// Cleans tags for storage: removes every `'#'` and collapses consecutive
/// repetitions.
pub fn clean_tags(tags: &Vec<String>) -> (r: Vec<String>)
    ensures
        views(r@) == cleaned_tags(tags@),
{
    let mut stripped: Vec<String> = Vec::new();
    let mut i: usize = 0;
    while i < tags.len()
        invariant
            0 <= i <= tags.len(),
            views(stripped@) =~= views(tags@).take(i as int).map_values(
                |t: Seq<char>| without_hash(t),
            ),
        decreases tags.len() - i,
    {
        let t = remove_hash_signs(&tags[i]);
        let ghost prev = stripped@;
        stripped.push(t);
        proof {
            assert(views(stripped@) =~= views(prev).push(without_hash(tags@[i as int]@)));
            assert(views(tags@).take(i + 1) =~= views(tags@).take(i as int).push(tags@[i as int]@));
        }
        i += 1;
    }
    proof {
        assert(views(tags@).take(tags.len() as int) =~= views(tags@));
    }
    dedup_strings(&stripped)
}

/// No element of `s` equals the one just before it.
pub open spec fn no_adjacent_repeats<A>(s: Seq<A>) -> bool {
    forall|i: int| 1 <= i < s.len() ==> #[trigger] s[i] != s[i - 1]
}

/// Collapsing keeps the last element and removes every adjacent repetition.
pub proof fn lemma_dedup_shape<A>(s: Seq<A>)
    ensures
        dedup_seq(s).len() <= s.len(),
        s.len() > 0 ==> dedup_seq(s).len() > 0 && dedup_seq(s).last() == s.last(),
        no_adjacent_repeats(dedup_seq(s)),
    decreases s.len(),
{
    if s.len() > 1 {
        lemma_dedup_shape(s.drop_last());
        let d = dedup_seq(s.drop_last());
        assert(d.last() == s[s.len() - 2]);
        if s[s.len() - 2] != s.last() {
            let e = d.push(s.last());
            assert forall|i: int| 1 <= i < e.len() implies #[trigger] e[i] != e[i - 1] by {
                if i < e.len() - 1 {
                    assert(e[i] == d[i] && e[i - 1] == d[i - 1]);
                }
            }
        }
    }
}

/// Every element of the collapsed sequence occurs in the sequence it came from.
pub proof fn lemma_dedup_elements<A>(s: Seq<A>)
    ensures
        forall|i: int| 0 <= i < dedup_seq(s).len() ==> s.contains(#[trigger] dedup_seq(s)[i]),
    decreases s.len(),
{
    if s.len() > 1 {
        lemma_dedup_elements(s.drop_last());
        let d = dedup_seq(s.drop_last());
        assert forall|i: int| 0 <= i < dedup_seq(s).len() implies s.contains(
            #[trigger] dedup_seq(s)[i],
        ) by {
            if i < d.len() {
                assert(s.drop_last().contains(d[i]));
                let j = choose|j: int| 0 <= j < s.drop_last().len() && s.drop_last()[j] == d[i];
                assert(s[j] == d[i]);
            } else {
                assert(s[s.len() - 1] == dedup_seq(s)[i]);
            }
        }
    } else {
        assert forall|i: int| 0 <= i < dedup_seq(s).len() implies s.contains(
            #[trigger] dedup_seq(s)[i],
        ) by {
            assert(s[i] == dedup_seq(s)[i]);
        }
    }
}

/// Every element of the original occurs in the collapsed sequence.
pub proof fn lemma_dedup_keeps_elements<A>(s: Seq<A>)
    ensures
        forall|i: int| 0 <= i < s.len() ==> dedup_seq(s).contains(#[trigger] s[i]),
    decreases s.len(),
{
    if s.len() > 1 {
        let t = s.drop_last();
        lemma_dedup_keeps_elements(t);
        lemma_dedup_shape(s);
        assert forall|i: int| 0 <= i < s.len() implies dedup_seq(s).contains(#[trigger] s[i]) by {
            let d = dedup_seq(s);
            if i < s.len() - 1 {
                assert(t[i] == s[i]);
                assert(dedup_seq(t).contains(t[i]));
                let k = choose|k: int| 0 <= k < dedup_seq(t).len() && dedup_seq(t)[k] == t[i];
                if s[s.len() - 2] == s.last() {
                    assert(d == dedup_seq(t));
                } else {
                    assert(d[k] == dedup_seq(t)[k]);
                }
            } else {
                assert(d[d.len() - 1] == s[i]);
            }
        }
    } else {
        assert forall|i: int| 0 <= i < s.len() implies dedup_seq(s).contains(#[trigger] s[i]) by {
            assert(dedup_seq(s)[i] == s[i]);
        }
    }
}

/// A sequence without adjacent repetitions is left as it is by collapsing.
pub proof fn lemma_dedup_fixes_repeat_free<A>(s: Seq<A>)
    requires
        no_adjacent_repeats(s),
    ensures
        dedup_seq(s) == s,
    decreases s.len(),
{
    if s.len() > 1 {
        let t = s.drop_last();
        assert forall|i: int| 1 <= i < t.len() implies #[trigger] t[i] != t[i - 1] by {
            assert(t[i] == s[i] && t[i - 1] == s[i - 1]);
        }
        lemma_dedup_fixes_repeat_free(t);
        assert(s[s.len() - 1] != s[s.len() - 2]);
        assert(t.push(s.last()) =~= s);
    }
}

/// Removing `'#'` leaves no `'#'`, and removing it again changes nothing.
pub proof fn lemma_without_hash(s: Seq<char>)
    ensures
        !without_hash(s).contains('#'),
        without_hash(without_hash(s)) == without_hash(s),
{
    let w = without_hash(s);
    let pred = |c: char| c != '#';
    assert forall|i: int| 0 <= i < w.len() implies w[i] != '#' by {
        s.lemma_filter_pred(pred, i);
    }
    lemma_filter_keeps_all(w, pred);
}

/// Filtering a sequence whose elements all pass keeps it unchanged.
pub proof fn lemma_filter_keeps_all<A>(s: Seq<A>, pred: spec_fn(A) -> bool)
    requires
        forall|i: int| 0 <= i < s.len() ==> pred(#[trigger] s[i]),
    ensures
        s.filter(pred) == s,
    decreases s.len(),
{
    reveal_with_fuel(Seq::<_>::filter, 1);
    if s.len() > 0 {
        let t = s.drop_last();
        assert forall|i: int| 0 <= i < t.len() implies pred(#[trigger] t[i]) by {
            assert(t[i] == s[i]);
        }
        lemma_filter_keeps_all(t, pred);
        assert(pred(s[s.len() - 1]));
        assert(t.push(s.last()) =~= s);
    }
}

/// Removing `'#'` keeps every other character, in order: a character is in
/// the result exactly when it is in the tag and is not `'#'`, a tag without
/// `'#'` is left as it is, and removing from two pieces one after the other
/// gives the two results one after the other.
pub proof fn law_hash_removal(s: Seq<char>, t: Seq<char>, c: char)
    ensures
        without_hash(s).contains(c) <==> (s.contains(c) && c != '#'),
        !s.contains('#') ==> without_hash(s) == s,
        without_hash(s + t) == without_hash(s) + without_hash(t),
{
    let pred = |c: char| c != '#';
    if without_hash(s).contains(c) {
        s.lemma_filter_contains_rev(pred, c);
        let k = choose|k: int| 0 <= k < without_hash(s).len() && without_hash(s)[k] == c;
        s.lemma_filter_pred(pred, k);
    }
    if s.contains(c) && c != '#' {
        let k = choose|k: int| 0 <= k < s.len() && s[k] == c;
        s.lemma_filter_contains(pred, k);
    }
    if !s.contains('#') {
        assert forall|i: int| 0 <= i < s.len() implies pred(#[trigger] s[i]) by {
            if s[i] == '#' {
                assert(s.contains(s[i]));
            }
        }
        lemma_filter_keeps_all(s, pred);
    }
    Seq::filter_distributes_over_add(s, t, pred);
}

} // verus!
