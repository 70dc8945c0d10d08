//! Looking records up by identifier.

use vstd::prelude::*;
use crate::entities::{Comment, Effect, Entry, Rating, Upstream};
use crate::text::views;

verus! {

/// Whether `id` is among `ids`.
pub open spec fn id_listed(ids: Seq<String>, id: Seq<char>) -> bool {
    views(ids).contains(id)
}

/// Whether `id` is among `ids`.
pub fn contains_id(ids: &[String], id: &String) -> (b: bool)
    ensures
        b == id_listed(ids@, id@),
{
    let mut j: usize = 0;
    while j < ids.len()
        invariant
            0 <= j <= ids@.len(),
            forall|k: int| 0 <= k < j ==> ids@[k]@ != id@,
        decreases ids.len() - j,
    {
        if ids[j] == *id {
            assert(views(ids@)[j as int] == id@);
            return true;
        }
        j += 1;
    }
    false
}

/// The ratings whose identifier is among `ids`, in order.
pub open spec fn ratings_with_ids(ratings: Seq<Rating>, ids: Seq<String>) -> Seq<Rating> {
    ratings.filter(|r: Rating| id_listed(ids, r.id@))
}

/// The entries whose identifier is among `ids`, in order.
pub open spec fn entries_with_ids(entries: Seq<Entry>, ids: Seq<String>) -> Seq<Entry> {
    entries.filter(|e: Entry| id_listed(ids, e.id@))
}

/// The effects whose identifier is among `ids`, in order.
pub open spec fn effects_with_ids(effects: Seq<Effect>, ids: Seq<String>) -> Seq<Effect> {
    effects.filter(|e: Effect| id_listed(ids, e.id@))
}

/// The upstreams of the effects whose identifier is among `ids`, in order.
pub open spec fn upstreams_of_effects(upstreams: Seq<Upstream>, ids: Seq<String>) -> Seq<Upstream> {
    upstreams.filter(|u: Upstream| id_listed(ids, u.effect_id@))
}

/// Whether a rating is one of entry `entry_id`.
pub open spec fn rates_entry(entry_id: Seq<char>) -> spec_fn(Rating) -> bool {
    |r: Rating| r.entry_id@ == entry_id
}

/// Whether a comment is one on rating `rating_id`.
pub open spec fn comments_on(rating_id: Seq<char>) -> spec_fn(Comment) -> bool {
    |c: Comment| c.rating_id@ == rating_id
}

/// The ratings of entry `entry_id`, in order.
pub open spec fn ratings_of_entry(ratings: Seq<Rating>, entry_id: Seq<char>) -> Seq<Rating> {
    ratings.filter(rates_entry(entry_id))
}

/// The comments on rating `rating_id`, in order.
pub open spec fn comments_of_rating(comments: Seq<Comment>, rating_id: Seq<char>) -> Seq<Comment> {
    comments.filter(comments_on(rating_id))
}

/// The ratings whose identifier is among `ids`, given all ratings.
pub fn get_ratings(ratings: Vec<Rating>, ids: &[String]) -> (r: Vec<Rating>)
    ensures
        r@ == ratings_with_ids(ratings@, ids@),
{
    let ghost all = ratings@;
    let mut out: Vec<Rating> = Vec::new();
    for x in it: ratings.into_iter()
        invariant
            it.seq() == all,
            out@ == ratings_with_ids(all.take(it.index() as int), ids@),
    {
        proof {
            reveal_with_fuel(Seq::<_>::filter, 1);
            assert(all.take(it.index() + 1).drop_last() =~= all.take(it.index() as int));
        }
        if contains_id(ids, &x.id) {
            out.push(x);
        }
    }
    proof {
        assert(all.take(all.len() as int) =~= all);
    }
    out
}

/// The entries whose identifier is among `ids`, given all entries.
pub fn get_entries(entries: Vec<Entry>, ids: &[String]) -> (r: Vec<Entry>)
    ensures
        r@ == entries_with_ids(entries@, ids@),
{
    let ghost all = entries@;
    let mut out: Vec<Entry> = Vec::new();
    for x in it: entries.into_iter()
        invariant
            it.seq() == all,
            out@ == entries_with_ids(all.take(it.index() as int), ids@),
    {
        proof {
            reveal_with_fuel(Seq::<_>::filter, 1);
            assert(all.take(it.index() + 1).drop_last() =~= all.take(it.index() as int));
        }
        if contains_id(ids, &x.id) {
            out.push(x);
        }
    }
    proof {
        assert(all.take(all.len() as int) =~= all);
    }
    out
}

/// The effects whose identifier is among `ids`, given all effects.
pub fn get_effects(effects: Vec<Effect>, ids: &[String]) -> (r: Vec<Effect>)
    ensures
        r@ == effects_with_ids(effects@, ids@),
{
    let ghost all = effects@;
    let mut out: Vec<Effect> = Vec::new();
    for x in it: effects.into_iter()
        invariant
            it.seq() == all,
            out@ == effects_with_ids(all.take(it.index() as int), ids@),
    {
        proof {
            reveal_with_fuel(Seq::<_>::filter, 1);
            assert(all.take(it.index() + 1).drop_last() =~= all.take(it.index() as int));
        }
        if contains_id(ids, &x.id) {
            out.push(x);
        }
    }
    proof {
        assert(all.take(all.len() as int) =~= all);
    }
    out
}

/// The upstreams of the effects whose identifier is among `ids`, given all
/// upstreams.
pub fn get_upstreams(upstreams: Vec<Upstream>, ids: &[String]) -> (r: Vec<Upstream>)
    ensures
        r@ == upstreams_of_effects(upstreams@, ids@),
{
    let ghost all = upstreams@;
    let mut out: Vec<Upstream> = Vec::new();
    for x in it: upstreams.into_iter()
        invariant
            it.seq() == all,
            out@ == upstreams_of_effects(all.take(it.index() as int), ids@),
    {
        proof {
            reveal_with_fuel(Seq::<_>::filter, 1);
            assert(all.take(it.index() + 1).drop_last() =~= all.take(it.index() as int));
        }
        if contains_id(ids, &x.effect_id) {
            out.push(x);
        }
    }
    proof {
        assert(all.take(all.len() as int) =~= all);
    }
    out
}

/// A copy of an optional string.
fn copy_option_string(s: &Option<String>) -> (c: Option<String>)
    ensures
        c == *s,
{
    match s {
        Some(x) => Some(x.clone()),
        None => None,
    }
}

/// A copy of a rating.
pub fn copy_rating(r: &Rating) -> (c: Rating)
    ensures
        c == *r,
{
    Rating {
        id: r.id.clone(),
        entry_id: r.entry_id.clone(),
        created: r.created,
        title: r.title.clone(),
        value: r.value,
        context: r.context,
        source: copy_option_string(&r.source),
    }
}

/// A copy of a comment.
pub fn copy_comment(c: &Comment) -> (d: Comment)
    ensures
        d == *c,
{
    Comment { id: c.id.clone(), created: c.created, text: c.text.clone(), rating_id: c.rating_id.clone() }
}

/// The ratings of one entry, given all ratings.
pub fn ratings_for_entry(ratings: &Vec<Rating>, entry_id: &String) -> (r: Vec<Rating>)
    ensures
        r@ == ratings_of_entry(ratings@, entry_id@),
{
    let mut out: Vec<Rating> = Vec::new();
    let mut i: usize = 0;
    while i < ratings.len()
        invariant
            0 <= i <= ratings@.len(),
            out@ == ratings_of_entry(ratings@.take(i as int), entry_id@),
        decreases ratings.len() - i,
    {
        proof {
            reveal_with_fuel(Seq::<_>::filter, 1);
            assert(ratings@.take(i + 1).drop_last() =~= ratings@.take(i as int));
        }
        if ratings[i].entry_id == *entry_id {
            out.push(copy_rating(&ratings[i]));
        }
        i += 1;
    }
    proof {
        assert(ratings@.take(ratings@.len() as int) =~= ratings@);
    }
    out
}

/// The comments on one rating, given all comments.
pub fn comments_for_rating(comments: &Vec<Comment>, rating_id: &String) -> (r: Vec<Comment>)
    ensures
        r@ == comments_of_rating(comments@, rating_id@),
{
    let mut out: Vec<Comment> = Vec::new();
    let mut i: usize = 0;
    while i < comments.len()
        invariant
            0 <= i <= comments@.len(),
            out@ == comments_of_rating(comments@.take(i as int), rating_id@),
        decreases comments.len() - i,
    {
        proof {
            reveal_with_fuel(Seq::<_>::filter, 1);
            assert(comments@.take(i + 1).drop_last() =~= comments@.take(i as int));
        }
        if comments[i].rating_id == *rating_id {
            out.push(copy_comment(&comments[i]));
        }
        i += 1;
    }
    proof {
        assert(comments@.take(comments@.len() as int) =~= comments@);
    }
    out
}

/// For each of the entry identifiers, in order, the identifier and the
/// ratings of that entry, given all ratings. A repeated identifier appears
/// with the same ratings each time.
pub fn get_ratings_by_entry_ids(ratings: &Vec<Rating>, ids: &[String]) -> (r: Vec<(String, Vec<Rating>)>)
    ensures
        r@.len() == ids@.len(),
        forall|i: int|
            0 <= i < ids@.len() ==> (#[trigger] r@[i]).0 == ids@[i] && r@[i].1@ == ratings_of_entry(
                ratings@,
                ids@[i]@,
            ),
{
    let mut out: Vec<(String, Vec<Rating>)> = Vec::new();
    let mut i: usize = 0;
    while i < ids.len()
        invariant
            0 <= i <= ids@.len(),
            out@.len() == i,
            forall|k: int|
                0 <= k < i ==> (#[trigger] out@[k]).0 == ids@[k] && out@[k].1@ == ratings_of_entry(
                    ratings@,
                    ids@[k]@,
                ),
        decreases ids.len() - i,
    {
        out.push((ids[i].clone(), ratings_for_entry(ratings, &ids[i])));
        i += 1;
    }
    out
}

/// For each of the rating identifiers, in order, the identifier and the
/// comments on that rating, given all comments. A repeated identifier appears
/// with the same comments each time.
pub fn get_comments_by_rating_ids(comments: &Vec<Comment>, ids: &[String]) -> (r: Vec<
    (String, Vec<Comment>),
>)
    ensures
        r@.len() == ids@.len(),
        forall|i: int|
            0 <= i < ids@.len() ==> (#[trigger] r@[i]).0 == ids@[i] && r@[i].1@ == comments_of_rating(
                comments@,
                ids@[i]@,
            ),
{
    let mut out: Vec<(String, Vec<Comment>)> = Vec::new();
    let mut i: usize = 0;
    while i < ids.len()
        invariant
            0 <= i <= ids@.len(),
            out@.len() == i,
            forall|k: int|
                0 <= k < i ==> (#[trigger] out@[k]).0 == ids@[k] && out@[k].1@ == comments_of_rating(
                    comments@,
                    ids@[k]@,
                ),
        decreases ids.len() - i,
    {
        out.push((ids[i].clone(), comments_for_rating(comments, &ids[i])));
        i += 1;
    }
    out
}

} // verus!
