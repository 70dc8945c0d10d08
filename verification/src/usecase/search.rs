//! The parts of a search that do not depend on coordinates: which entries to
//! read, and how the sorted matches are split into the ones inside the
//! requested box and a few more outside it.

use vstd::prelude::*;

verus! {

/// At most this many matches outside the requested box are answered.
pub const MAX_INVISIBLE_RESULTS: usize = 5;

/// Whether a search reads only the entries in the (extended) requested box:
/// so it does when it has neither text nor tags; otherwise it reads all
/// entries.
pub fn search_by_bbox_only(text: &str, tags: &[String]) -> (b: bool)
    ensures
        b == (text@.len() == 0 && tags@.len() == 0),
{
    text.is_empty() && tags.len() == 0
}

/// The items whose flag equals `wanted`, in order.
pub open spec fn select_flagged<T>(items: Seq<T>, flags: Seq<bool>, wanted: bool) -> Seq<T>
    decreases items.len(),
{
    if items.len() == 0 {
        Seq::empty()
    } else {
        let prev = select_flagged(items.drop_last(), flags.take(items.len() - 1), wanted);
        if flags[items.len() - 1] == wanted {
            prev.push(items.last())
        } else {
            prev
        }
    }
}

/// The first `n` elements of `s`, or all of them if there are fewer.
pub open spec fn at_most<T>(s: Seq<T>, n: nat) -> Seq<T> {
    if s.len() <= n {
        s
    } else {
        s.take(n as int)
    }
}

/// Splits sorted search matches by whether each lies in the requested box
/// (`in_bbox[i]` for `items[i]`): answers all matches inside, in order, and
/// the first `MAX_INVISIBLE_RESULTS` matches outside, in order.
pub fn split_search_results<T>(items: Vec<T>, in_bbox: &[bool]) -> (res: (Vec<T>, Vec<T>))
    requires
        in_bbox@.len() == items@.len(),
    ensures
        res.0@ == select_flagged(items@, in_bbox@, true),
        res.1@ == at_most(select_flagged(items@, in_bbox@, false), MAX_INVISIBLE_RESULTS as nat),
{
    let ghost all = items@;
    let ghost flags = in_bbox@;
    let mut visible: Vec<T> = Vec::new();
    let mut invisible: Vec<T> = Vec::new();
    let mut i: usize = 0;
    for x in it: items.into_iter()
        invariant
            it.seq() == all,
            i == it.index(),
            flags == in_bbox@,
            flags.len() == all.len(),
            visible@ == select_flagged(all.take(i as int), flags.take(i as int), true),
            invisible@ == at_most(
                select_flagged(all.take(i as int), flags.take(i as int), false),
                MAX_INVISIBLE_RESULTS as nat,
            ),
    {
        let ghost gx = x;
        proof {
            let t = all.take(i + 1);
            assert(t.drop_last() =~= all.take(i as int));
            assert(flags.take(i + 1).take(i as int) =~= flags.take(i as int));
            assert(t.last() == gx);
            assert(flags.take(i + 1)[i as int] == flags[i as int]);
        }
        let ghost out_before = select_flagged(all.take(i as int), flags.take(i as int), false);
        if in_bbox[i] {
            visible.push(x);
        } else if invisible.len() < MAX_INVISIBLE_RESULTS {
            invisible.push(x);
            proof {
                assert(out_before.len() < MAX_INVISIBLE_RESULTS);
                assert(invisible@ =~= at_most(out_before.push(gx), MAX_INVISIBLE_RESULTS as nat));
            }
        } else {
            proof {
                assert(at_most(out_before.push(gx), MAX_INVISIBLE_RESULTS as nat) =~= at_most(
                    out_before,
                    MAX_INVISIBLE_RESULTS as nat,
                ));
            }
        }
        assert(i < in_bbox.len());
        i = i + 1;
    }
    proof {
        assert(all.take(all.len() as int) =~= all);
        assert(flags.take(flags.len() as int) =~= flags);
    }
    (visible, invisible)
}


/// Which items match a search: an item matches when the text and tag rule
/// accepts it (`by_text[i]`) and, when categories are asked for, the
/// category rule accepts it too (`by_category[i]`).
pub open spec fn match_flags(by_category: Option<&[bool]>, by_text: &[bool]) -> Seq<bool> {
    Seq::new(
        by_text@.len(),
        |i: int|
            (match by_category {
                Some(c) => c@[i],
                None => true,
            }) && by_text@[i],
    )
}

/// The matches of a search, in order, given for each item whether the
/// category rule accepts it (consulted only when categories are asked for)
/// and whether the text and tag rule accepts it.
pub fn search_matches<T>(items: Vec<T>, by_category: Option<&[bool]>, by_text: &[bool]) -> (r: Vec<T>)
    requires
        by_text@.len() == items@.len(),
        by_category matches Some(c) ==> c@.len() == items@.len(),
    ensures
        r@ == select_flagged(items@, match_flags(by_category, by_text), true),
{
    let ghost all = items@;
    let ghost flags = match_flags(by_category, by_text);
    let mut out: Vec<T> = Vec::new();
    let mut i: usize = 0;
    for x in it: items.into_iter()
        invariant
            it.seq() == all,
            i == it.index(),
            by_text@.len() == all.len(),
            by_category matches Some(c) ==> c@.len() == all.len(),
            flags == match_flags(by_category, by_text),
            out@ == select_flagged(all.take(i as int), flags.take(i as int), true),
    {
        let ghost gx = x;
        proof {
            assert(all.take(i + 1).drop_last() =~= all.take(i as int));
            assert(flags.take(i + 1).take(i as int) =~= flags.take(i as int));
            assert(all.take(i + 1).last() == gx);
            assert(flags.take(i + 1)[i as int] == flags[i as int]);
        }
        let in_category = match by_category {
            Some(c) => c[i],
            None => true,
        };
        if in_category && by_text[i] {
            out.push(x);
        }
        assert(i < by_text.len());
        i = i + 1;
    }
    proof {
        assert(all.take(all.len() as int) =~= all);
        assert(flags.take(flags.len() as int) =~= flags);
    }
    out
}

/// Selecting from a single item keeps it exactly when its flag is the wanted
/// one.
pub proof fn law_select_flagged_single<T>(x: T, flag: bool, wanted: bool)
    ensures
        select_flagged(seq![x], seq![flag], wanted) == (if flag == wanted {
            seq![x]
        } else {
            Seq::<T>::empty()
        }),
{
    assert(seq![x].drop_last() =~= Seq::<T>::empty());
    assert(seq![flag].take(0) =~= Seq::<bool>::empty());
    assert(select_flagged(Seq::<T>::empty(), Seq::<bool>::empty(), wanted) == Seq::<T>::empty());
    assert(seq![x].len() == 1 && seq![x].last() == x && seq![flag][0] == flag);
    assert(Seq::<T>::empty().push(x) =~= seq![x]);
}

/// Selecting from two lists one after the other gives the selection from the
/// first followed by the selection from the second, each in order.
pub proof fn law_select_flagged_concat<T>(
    a: Seq<T>,
    b: Seq<T>,
    fa: Seq<bool>,
    fb: Seq<bool>,
    wanted: bool,
)
    requires
        fa.len() == a.len(),
        fb.len() == b.len(),
    ensures
        select_flagged(a + b, fa + fb, wanted) == select_flagged(a, fa, wanted) + select_flagged(
            b,
            fb,
            wanted,
        ),
    decreases b.len(),
{
    if b.len() == 0 {
        assert(a + b =~= a);
        assert(fa + fb =~= fa);
        assert(select_flagged(a, fa, wanted) + select_flagged(b, fb, wanted) =~= select_flagged(
            a,
            fa,
            wanted,
        ));
    } else {
        let n = a.len() + b.len();
        let b1 = b.drop_last();
        let fb1 = fb.take(b.len() - 1);
        law_select_flagged_concat(a, b1, fa, fb1, wanted);
        assert((a + b).drop_last() =~= a + b1);
        assert((fa + fb).take(n - 1) =~= fa + fb1);
        assert((fa + fb)[n - 1] == fb[b.len() - 1]);
        assert((a + b).last() == b.last());
        let x = select_flagged(a, fa, wanted);
        let y = select_flagged(b1, fb1, wanted);
        assert((x + y).push(b.last()) =~= x + y.push(b.last()));
    }
}

/// Every item is selected either as wanted or as not wanted: the two
/// selections together are as long as the list.
pub proof fn law_select_flagged_shares_out<T>(items: Seq<T>, flags: Seq<bool>)
    requires
        flags.len() == items.len(),
    ensures
        select_flagged(items, flags, true).len() + select_flagged(items, flags, false).len()
            == items.len(),
    decreases items.len(),
{
    if items.len() > 0 {
        law_select_flagged_shares_out(items.drop_last(), flags.take(items.len() - 1));
    }
}

/// At most `n` elements are kept, the first ones, in order.
pub proof fn law_at_most<T>(s: Seq<T>, n: nat)
    ensures
        at_most(s, n).len() == (if s.len() <= n {
            s.len()
        } else {
            n
        }),
        forall|i: int| 0 <= i < at_most(s, n).len() ==> #[trigger] at_most(s, n)[i] == s[i],
{
}

/// At most five matches outside the requested box are answered, and all of
/// them when there are no more than five.
pub proof fn law_five_invisible_results<T>(outside: Seq<T>)
    ensures
        at_most(outside, MAX_INVISIBLE_RESULTS as nat).len() <= 5,
        outside.len() <= 5 ==> at_most(outside, MAX_INVISIBLE_RESULTS as nat) == outside,
{
}

/// An item matches exactly when the text and tag rule accepts it and, when
/// categories are asked for, the category rule accepts it too.
pub proof fn law_match_flags(by_category: Option<&[bool]>, by_text: &[bool])
    ensures
        match_flags(by_category, by_text).len() == by_text@.len(),
        forall|i: int|
            0 <= i < by_text@.len() ==> (#[trigger] match_flags(by_category, by_text)[i] <==> (
            by_text@[i] && (by_category matches Some(c) ==> c@[i]))),
{
}

} // verus!
