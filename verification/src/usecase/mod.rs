//! The use cases. Each one decides, from a request and from what was read
//! from the repository, either an error or the ordered list of storage
//! commands to carry out (stopping at the first that fails) and the value to
//! answer with.

use vstd::prelude::*;
use crate::outside::{is_simple_id, new_id};
use crate::entities::{
    BboxSubscription, Comment, Effect, Entry, FloatBits, Rating, RatingContext, Tag, Upstream, User,
};

pub mod effects;
pub mod entries;
pub mod users;
pub mod ratings;
pub mod subscriptions;
pub mod queries;
pub mod search;

verus! {

/// A new entry as submitted.
#[derive(Clone, Debug, PartialEq, Eq)]
pub struct NewEntry {
    pub title: String,
    pub description: String,
    pub lat: FloatBits,
    pub lng: FloatBits,
    pub street: Option<String>,
    pub zip: Option<String>,
    pub city: Option<String>,
    pub country: Option<String>,
    pub email: Option<String>,
    pub telephone: Option<String>,
    pub homepage: Option<String>,
    pub categories: Vec<String>,
    pub tags: Vec<String>,
    pub license: String,
}

/// Where an effect comes from: a label and an optional reference.
#[derive(Clone, Debug, PartialEq, Eq)]
pub struct NewOrigin {
    pub label: Option<String>,
    pub value: Option<String>,
}

/// The effect an upstream refers to: a label and an optional reference.
#[derive(Clone, Debug, PartialEq, Eq)]
pub struct NewUpstreamEffect {
    pub label: Option<String>,
    pub value: Option<String>,
}

/// An upstream as submitted with an effect.
#[allow(non_snake_case)]
#[derive(Clone, Debug, PartialEq, Eq)]
pub struct NewUpstream {
    pub upstreamNo: u64,
    pub upstreamEffect: Option<NewUpstreamEffect>,
    pub upstreamTransferUnit: Option<String>,
    pub upstreamAmount: FloatBits,
    pub upstreamComment: Option<String>,
}

/// A new effect as submitted.
#[derive(Clone, Debug, PartialEq, Eq)]
pub struct NewEffect {
    pub title: String,
    pub description: String,
    pub origin: Option<NewOrigin>,
    pub homepage: Option<String>,
    pub tags: Vec<String>,
    pub upstreams: Option<Vec<NewUpstream>>,
    pub license: String,
}

/// A new version of an effect as submitted.
#[derive(Clone, Debug, PartialEq, Eq)]
pub struct UpdateEffect {
    pub id: String,
    pub version: u64,
    pub title: String,
    pub description: String,
    pub origin: Option<NewOrigin>,
    pub homepage: Option<String>,
    pub tags: Vec<String>,
    pub upstreams: Option<Vec<NewUpstream>>,
}

/// A registration request.
#[derive(Clone, Debug, PartialEq, Eq)]
pub struct NewUser {
    pub username: String,
    pub password: String,
    pub email: String,
}

/// A login request.
#[derive(Clone, Debug, PartialEq, Eq)]
pub struct Login {
    username: String,
    password: String,
}

impl Login {
    pub closed spec fn spec_username(&self) -> String {
        self.username
    }

    pub closed spec fn spec_password(&self) -> String {
        self.password
    }

    /// A login request for `username` with `password`.
    pub fn new(username: String, password: String) -> (l: Login)
        ensures
            l.spec_username() == username,
            l.spec_password() == password,
    {
        Login { username, password }
    }

    /// The user name of the request.
    pub fn username(&self) -> (s: &String)
        ensures
            *s == self.spec_username(),
    {
        &self.username
    }

    /// The password of the request.
    pub fn password(&self) -> (s: &String)
        ensures
            *s == self.spec_password(),
    {
        &self.password
    }
}

/// A new version of an entry as submitted.
#[derive(Clone, Debug, PartialEq, Eq)]
pub struct UpdateEntry {
    pub id: String,
    pub osm_node: Option<u64>,
    pub version: u64,
    pub title: String,
    pub description: String,
    pub lat: FloatBits,
    pub lng: FloatBits,
    pub street: Option<String>,
    pub zip: Option<String>,
    pub city: Option<String>,
    pub country: Option<String>,
    pub email: Option<String>,
    pub telephone: Option<String>,
    pub homepage: Option<String>,
    pub categories: Vec<String>,
    pub tags: Vec<String>,
}

/// A rating of an entry as submitted, with the comment that explains it.
#[derive(Clone, Debug, PartialEq, Eq)]
pub struct RateEntry {
    pub entry: String,
    pub title: String,
    pub value: i8,
    pub context: RatingContext,
    pub comment: String,
    pub source: Option<String>,
    pub user: Option<String>,
}

/// A storage command. The repository carries out a list of them in order.
#[derive(Clone, Debug, PartialEq, Eq)]
pub enum DbCommand {
    CreateTagIfNotExists(Tag),
    CreateEffect(Effect),
    UpdateEffect(Effect),
    CreateUpstream(Upstream),
    CreateEntry(Entry),
    UpdateEntry(Entry),
    CreateRating(Rating),
    CreateComment(Comment),
    CreateUser(User),
    DeleteUser(String),
    CreateBboxSubscription(BboxSubscription),
    DeleteBboxSubscription(String),
}

/// One `CreateTagIfNotExists` command per tag, in order.
pub open spec fn tag_commands(tags: Seq<String>) -> Seq<DbCommand> {
    tags.map_values(|t: String| DbCommand::CreateTagIfNotExists(Tag { id: t }))
}

/// Whether a stored record of version `stored` may be replaced by one of
/// version `submitted`: the submitted version must be the next one.
pub open spec fn version_follows(stored: u64, submitted: u64) -> bool {
    stored + 1 == submitted
}

/// The commands creating each tag, if missing, in order.
pub fn make_tag_commands(tags: &Vec<String>) -> (cmds: Vec<DbCommand>)
    ensures
        cmds@ == tag_commands(tags@),
{
    let mut cmds: Vec<DbCommand> = Vec::new();
    let mut i: usize = 0;
    while i < tags.len()
        invariant
            0 <= i <= tags.len(),
            cmds@ =~= tag_commands(tags@.take(i as int)),
        decreases tags.len() - i,
    {
        cmds.push(DbCommand::CreateTagIfNotExists(Tag { id: tags[i].clone() }));
        proof {
            assert(tags@.take(i + 1) =~= tags@.take(i as int).push(tags@[i as int]));
        }
        i += 1;
    }
    proof {
        assert(tags@.take(tags.len() as int) =~= tags@);
    }
    cmds
}

/// Fresh identifiers, one per element of a list of `n`.
pub(crate) fn fresh_ids(n: usize) -> (ids: Vec<String>)
    ensures
        ids@.len() == n,
        forall|k: int| 0 <= k < n ==> is_simple_id(#[trigger] ids@[k]@),
{
    let mut ids: Vec<String> = Vec::new();
    while ids.len() < n
        invariant
            ids@.len() <= n,
            forall|k: int| 0 <= k < ids@.len() ==> is_simple_id(#[trigger] ids@[k]@),
        decreases n - ids@.len(),
    {
        ids.push(new_id());
    }
    ids
}

} // verus!
