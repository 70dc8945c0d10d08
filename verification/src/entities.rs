//! The records the repository stores.

use vstd::prelude::*;

verus! {

/// A 64-bit IEEE-754 number carried by its bit pattern (the value of
/// `f64::to_bits`). The library moves such numbers between records and never
/// computes with them.
#[derive(Clone, Copy, Debug, PartialEq, Eq)]
pub struct FloatBits {
    pub bits: u64,
}

/// A geographic position.
#[derive(Clone, Copy, Debug, PartialEq, Eq)]
pub struct Coordinate {
    pub lat: FloatBits,
    pub lng: FloatBits,
}

/// A bounding box given by its south-west and north-east corners.
#[derive(Clone, Copy, Debug, PartialEq, Eq)]
pub struct Bbox {
    pub south_west: Coordinate,
    pub north_east: Coordinate,
}

/// A place on the map.
#[derive(Clone, Debug, PartialEq, Eq)]
pub struct Entry {
    pub id: String,
    pub osm_node: Option<u64>,
    pub created: u64,
    pub version: u64,
    pub title: String,
    pub description: String,
    pub lat: FloatBits,
    pub lng: FloatBits,
    pub street: Option<String>,
    pub zip: Option<String>,
    pub city: Option<String>,
    pub country: Option<String>,
    pub email: Option<String>,
    pub telephone: Option<String>,
    pub homepage: Option<String>,
    pub categories: Vec<String>,
    pub tags: Vec<String>,
    pub license: Option<String>,
}

/// A product or service.
#[derive(Clone, Debug, PartialEq, Eq)]
pub struct Effect {
    pub id: String,
    pub created: u64,
    pub version: u64,
    pub title: String,
    pub description: String,
    pub origin: Option<String>,
    pub origin_id: Option<String>,
    pub homepage: Option<String>,
    pub tags: Vec<String>,
    pub license: Option<String>,
}

/// An input of an effect: what flows into it, from which effect, and how much.
#[derive(Clone, Debug, PartialEq, Eq)]
pub struct Upstream {
    pub id: String,
    pub created: u64,
    pub effect_id: String,
    pub effect_version: u64,
    pub upstream_effect: Option<String>,
    pub upstream_effect_id: Option<String>,
    pub number: Option<u64>,
    pub transfer_unit: Option<String>,
    pub amount: Option<FloatBits>,
    pub comment: Option<String>,
}

/// The aspect under which an entry is rated.
#[derive(Clone, Copy, Debug, PartialEq, Eq)]
pub enum RatingContext {
    Diversity,
    Renewable,
    Fairness,
    Humanity,
    Transparency,
    Solidarity,
}

/// A rating of an entry.
#[derive(Clone, Debug, PartialEq, Eq)]
pub struct Rating {
    pub id: String,
    pub entry_id: String,
    pub created: u64,
    pub title: String,
    pub value: i8,
    pub context: RatingContext,
    pub source: Option<String>,
}

/// A comment attached to a rating.
#[derive(Clone, Debug, PartialEq, Eq)]
pub struct Comment {
    pub id: String,
    pub created: u64,
    pub text: String,
    pub rating_id: String,
}

/// A tag; its id is the tag text.
#[derive(Clone, Debug, PartialEq, Eq)]
pub struct Tag {
    pub id: String,
}

/// A registered user; `password` holds the password hash.
#[derive(Clone, Debug, PartialEq, Eq)]
pub struct User {
    pub id: String,
    pub username: String,
    pub password: String,
    pub email: String,
    pub email_confirmed: bool,
}

/// A user's subscription to changes inside a bounding box.
#[derive(Clone, Debug, PartialEq, Eq)]
pub struct BboxSubscription {
    pub id: String,
    pub bbox: Bbox,
    pub username: String,
}

} // verus!
