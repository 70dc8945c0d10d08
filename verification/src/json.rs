//! The JSON representations the API answers with, and how records become
//! them.

use vstd::prelude::*;
use crate::entities as e;
use crate::entities::{FloatBits, RatingContext};

verus! {

/// An entry as answered, with the identifiers of its ratings.
#[derive(Clone, Debug, PartialEq, Eq)]
pub struct Entry {
    pub id: String,
    pub created: u64,
    pub version: u64,
    pub title: String,
    pub description: String,
    pub lat: FloatBits,
    pub lng: FloatBits,
    pub street: Option<String>,
    pub zip: Option<String>,
    pub city: Option<String>,
    pub country: Option<String>,
    pub email: Option<String>,
    pub telephone: Option<String>,
    pub homepage: Option<String>,
    pub categories: Vec<String>,
    pub tags: Vec<String>,
    pub ratings: Vec<String>,
    pub license: Option<String>,
}

/// An effect as answered, with the identifiers of its ratings.
#[derive(Clone, Debug, PartialEq, Eq)]
pub struct Effect {
    pub id: String,
    pub created: u64,
    pub version: u64,
    pub title: String,
    pub description: String,
    pub origin: Option<String>,
    pub homepage: Option<String>,
    pub tags: Vec<String>,
    pub ratings: Vec<String>,
    pub license: Option<String>,
}

/// A rating as answered, with its comments.
#[derive(Clone, Debug, PartialEq, Eq)]
pub struct Rating {
    pub id: String,
    pub title: String,
    pub created: u64,
    pub value: i8,
    pub context: RatingContext,
    pub comments: Vec<Comment>,
    pub source: String,
}

/// A comment as answered.
#[derive(Clone, Debug, PartialEq, Eq)]
pub struct Comment {
    pub id: String,
    pub created: u64,
    pub text: String,
}

/// An entry's identifier and position.
#[derive(Clone, Debug, PartialEq, Eq)]
pub struct EntryIdWithCoordinates {
    pub id: String,
    pub lat: FloatBits,
    pub lng: FloatBits,
}

/// The answer to a search: the entries inside the box, some outside it, and
/// the matching effects' identifiers.
#[derive(Clone, Debug, PartialEq, Eq)]
pub struct SearchResponse {
    pub visible: Vec<EntryIdWithCoordinates>,
    pub invisible: Vec<EntryIdWithCoordinates>,
    pub effects: Vec<String>,
}

/// A user as answered.
#[derive(Clone, Debug, PartialEq, Eq)]
pub struct User {
    pub username: String,
    pub email: String,
}

/// A subscription as answered, with the corners of its box spelled out.
#[derive(Clone, Debug, PartialEq, Eq)]
pub struct BboxSubscription {
    pub id: String,
    pub south_west_lat: FloatBits,
    pub south_west_lng: FloatBits,
    pub north_east_lat: FloatBits,
    pub north_east_lng: FloatBits,
}

/// The identifiers of the ratings, in order.
pub open spec fn rating_ids(ratings: Seq<e::Rating>) -> Seq<String> {
    ratings.map_values(|r: e::Rating| r.id)
}

/// The identifiers of the ratings, in order.
pub fn collect_rating_ids(ratings: Vec<e::Rating>) -> (ids: Vec<String>)
    ensures
        ids@ == rating_ids(ratings@),
{
    let ghost all = ratings@;
    let mut ids: Vec<String> = Vec::new();
    for r in it: ratings.into_iter()
        invariant
            it.seq() == all,
            ids@ =~= rating_ids(all.take(it.index() as int)),
    {
        proof {
            assert(all.take(it.index() + 1) =~= all.take(it.index() as int).push(all[it.index() as int]));
        }
        ids.push(r.id);
    }
    proof {
        assert(all.take(all.len() as int) =~= all);
    }
    ids
}

impl Entry {
    /// The JSON form of an entry, given its ratings.
    pub fn from_entry_with_ratings(e: e::Entry, ratings: Vec<e::Rating>) -> (r: Entry)
        ensures
            r.id == e.id,
            r.created == e.created,
            r.version == e.version,
            r.title == e.title,
            r.description == e.description,
            r.lat == e.lat,
            r.lng == e.lng,
            r.street == e.street,
            r.zip == e.zip,
            r.city == e.city,
            r.country == e.country,
            r.email == e.email,
            r.telephone == e.telephone,
            r.homepage == e.homepage,
            r.categories == e.categories,
            r.tags == e.tags,
            r.ratings@ == rating_ids(ratings@),
            r.license == e.license,
    {
        Entry {
            id: e.id,
            created: e.created,
            version: e.version,
            title: e.title,
            description: e.description,
            lat: e.lat,
            lng: e.lng,
            street: e.street,
            zip: e.zip,
            city: e.city,
            country: e.country,
            email: e.email,
            telephone: e.telephone,
            homepage: e.homepage,
            categories: e.categories,
            tags: e.tags,
            ratings: collect_rating_ids(ratings),
            license: e.license,
        }
    }
}

impl Effect {
    /// The JSON form of an effect, given its ratings. The effect's origin
    /// reference is not part of it.
    pub fn from_effect_with_ratings(e: e::Effect, ratings: Vec<e::Rating>) -> (r: Effect)
        ensures
            r.id == e.id,
            r.created == e.created,
            r.version == e.version,
            r.title == e.title,
            r.description == e.description,
            r.origin == e.origin,
            r.homepage == e.homepage,
            r.tags == e.tags,
            r.ratings@ == rating_ids(ratings@),
            r.license == e.license,
    {
        Effect {
            id: e.id,
            created: e.created,
            version: e.version,
            title: e.title,
            description: e.description,
            origin: e.origin,
            homepage: e.homepage,
            tags: e.tags,
            ratings: collect_rating_ids(ratings),
            license: e.license,
        }
    }
}

} // verus!
