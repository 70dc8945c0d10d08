//! What the stored records, commands and answers hold, stated directly in
//! terms of the requests they come from.

use vstd::prelude::*;
use crate::entities::{BboxSubscription, Comment, Coordinate, Effect, Entry, Rating, Tag, Upstream, User};
use crate::error::{Error, ParameterError, RepoError};
use crate::text::dedup_seq;
use crate::usecase::{
    tag_commands, version_follows, DbCommand, NewEntry, NewEffect, NewUser, RateEntry, UpdateEffect,
    UpdateEntry,
};
use crate::usecase::entries::{entry_commands, new_entry_record, updated_entry_record};
use crate::usecase::users::{first_refusal, login_answer, new_user_record, password_verified};
use crate::outside::{bcrypt_accepts, hash_chars_in_range};
use crate::usecase::ratings::rating_commands;
use crate::usecase::queries::{
    comments_of_rating, effects_with_ids, entries_with_ids, id_listed, ratings_of_entry,
    ratings_with_ids, upstreams_of_effects,
};
use crate::usecase::subscriptions::{delete_commands, subscription_record, subscriptions_of};
use crate::json::rating_ids;
use crate::usecase::effects::{effect_creation_commands, effect_update_commands};
use crate::usecase::ratings::rating_value_allowed;
use crate::usecase::subscriptions::{has_subscription, subscriber_addresses};

verus! {

/// Creating an effect stores the request: first one command per stored tag,
/// then the effect with the new identifier, the creation time, version 0,
/// and the submitted title, description, origin (label and reference),
/// homepage and license, then one command per submitted upstream, in order,
/// each with its identifier, the creation time, the new effect's identifier
/// and version 0, and the upstream's number, referenced effect, transfer
/// unit, amount and comment.
pub proof fn law_new_effect_stores_the_request(
    e: NewEffect,
    tags: Vec<String>,
    id: String,
    now: u64,
    upstream_ids: Seq<String>,
)
    requires
        upstream_ids.len() == (match e.upstreams {
            Some(v) => v@.len(),
            None => 0,
        }),
    ensures
        effect_creation_commands(e, tags, id, now, upstream_ids).len() == tags@.len() + 1
            + upstream_ids.len(),
        forall|i: int|
            0 <= i < tags@.len() ==> #[trigger] effect_creation_commands(e, tags, id, now, upstream_ids)[i]
                == DbCommand::CreateTagIfNotExists(Tag { id: tags@[i] }),
        effect_creation_commands(e, tags, id, now, upstream_ids)[tags@.len() as int] matches DbCommand::CreateEffect(eff)
            && eff.id == id && eff.created == now && eff.version == 0 && eff.title == e.title
            && eff.description == e.description && eff.homepage == e.homepage && eff.tags == tags
            && eff.license == Some(e.license) && (match e.origin {
            Some(o) => eff.origin == o.label && eff.origin_id == o.value,
            None => eff.origin is None && eff.origin_id is None,
        }),
        forall|i: int|
            0 <= i < upstream_ids.len() ==> (#[trigger] effect_creation_commands(e, tags, id, now, upstream_ids)[tags@.len() + 1 + i] matches DbCommand::CreateUpstream(u)
                && e.upstreams matches Some(v) && u.id == upstream_ids[i] && u.created == now
                && u.effect_id == id && u.effect_version == 0 && u.number == Some(v@[i].upstreamNo)
                && u.amount == Some(v@[i].upstreamAmount) && u.transfer_unit == v@[i].upstreamTransferUnit
                && u.comment == v@[i].upstreamComment && (match v@[i].upstreamEffect {
                Some(x) => u.upstream_effect == x.label && u.upstream_effect_id == x.value,
                None => u.upstream_effect is None && u.upstream_effect_id is None,
            })),
{
}

/// An accepted update of an effect stores the request: first one command
/// per stored tag, then the effect with the submitted identifier, version,
/// title, description, origin (label and reference) and homepage, the update
/// time and the license kept from the stored version, then one command per
/// submitted upstream, in order, each belonging to the submitted identifier
/// and version.
pub proof fn law_effect_update_stores_the_request(
    e: UpdateEffect,
    license: Option<String>,
    tags: Vec<String>,
    now: u64,
    upstream_ids: Seq<String>,
)
    requires
        upstream_ids.len() == (match e.upstreams {
            Some(v) => v@.len(),
            None => 0,
        }),
    ensures
        effect_update_commands(e, license, tags, now, upstream_ids).len() == tags@.len() + 1
            + upstream_ids.len(),
        forall|i: int|
            0 <= i < tags@.len() ==> #[trigger] effect_update_commands(e, license, tags, now, upstream_ids)[i]
                == DbCommand::CreateTagIfNotExists(Tag { id: tags@[i] }),
        effect_update_commands(e, license, tags, now, upstream_ids)[tags@.len() as int] matches DbCommand::UpdateEffect(eff)
            && eff.id == e.id && eff.created == now && eff.version == e.version && eff.title == e.title
            && eff.description == e.description && eff.homepage == e.homepage && eff.tags == tags
            && eff.license == license && (match e.origin {
            Some(o) => eff.origin == o.label && eff.origin_id == o.value,
            None => eff.origin is None && eff.origin_id is None,
        }),
        forall|i: int|
            0 <= i < upstream_ids.len() ==> (#[trigger] effect_update_commands(e, license, tags, now, upstream_ids)[tags@.len() + 1 + i] matches DbCommand::CreateUpstream(u)
                && e.upstreams matches Some(v) && u.id == upstream_ids[i] && u.created == now
                && u.effect_id == e.id && u.effect_version == e.version && u.number == Some(v@[i].upstreamNo)
                && u.amount == Some(v@[i].upstreamAmount) && u.transfer_unit == v@[i].upstreamTransferUnit
                && u.comment == v@[i].upstreamComment && (match v@[i].upstreamEffect {
                Some(x) => u.upstream_effect == x.label && u.upstream_effect_id == x.value,
                None => u.upstream_effect is None && u.upstream_effect_id is None,
            })),
{
}

/// An update is accepted exactly when it carries the version right after the
/// stored one: a stale or skipping version is refused.
pub proof fn law_only_the_next_version_is_accepted(stored: u64, submitted: u64)
    ensures
        version_follows(stored, submitted) <==> submitted as int == stored as int + 1,
{
}

/// The rating values accepted are exactly -1, 0, 1 and 2.
pub proof fn law_rating_values(value: i8)
    ensures
        rating_value_allowed(value) <==> (value == -1 || value == 0 || value == 1 || value == 2),
{
}

/// Every holder of one of the subscriptions is notified: the email address of
/// each user whose name is that of some subscription is answered.
pub proof fn law_every_subscriber_is_notified(users: Seq<User>, subs: Seq<BboxSubscription>, j: int, i: int)
    requires
        0 <= j < users.len(),
        0 <= i < subs.len(),
        subs[i].username@ == users[j].username@,
    ensures
        subscriber_addresses(users, subs).contains(users[j].email@),
{
    let pred = |u: User| has_subscription(subs, u.username@);
    let chosen = users.filter(pred);
    let emails = chosen.map_values(|u: User| u.email@);
    assert(has_subscription(subs, users[j].username@));
    users.lemma_filter_contains(pred, j);
    let k = choose|k: int| 0 <= k < chosen.len() && chosen[k] == users[j];
    assert(emails[k] == users[j].email@);
    crate::text::lemma_dedup_keeps_elements(emails);
    assert(dedup_seq(emails).contains(emails[k]));
}


/// A new entry is stored with a fresh identifier, the creation time, version
/// 0, no OpenStreetMap node, the stored tags, the submitted license, and
/// every other field as submitted.
pub proof fn law_new_entry_stores_the_request(e: NewEntry, tags: Vec<String>, id: String, now: u64)
    ensures
        ({
            let r = new_entry_record(e, tags, id, now);
            &&& r.id == id && r.osm_node is None && r.created == now && r.version == 0
            &&& r.title == e.title && r.description == e.description && r.lat == e.lat && r.lng == e.lng
            &&& r.street == e.street && r.zip == e.zip && r.city == e.city && r.country == e.country
            &&& r.email == e.email && r.telephone == e.telephone && r.homepage == e.homepage
            &&& r.categories == e.categories && r.tags == tags && r.license == Some(e.license)
        }),
{
}

/// An accepted update of an entry stores the submitted identifier, version
/// and fields, the update time, the stored tags and the license kept from the
/// stored version; the submitted OpenStreetMap node is not kept.
pub proof fn law_entry_update_stores_the_request(
    e: UpdateEntry,
    license: Option<String>,
    tags: Vec<String>,
    now: u64,
)
    ensures
        ({
            let r = updated_entry_record(e, license, tags, now);
            &&& r.id == e.id && r.osm_node is None && r.created == now && r.version == e.version
            &&& r.title == e.title && r.description == e.description && r.lat == e.lat && r.lng == e.lng
            &&& r.street == e.street && r.zip == e.zip && r.city == e.city && r.country == e.country
            &&& r.email == e.email && r.telephone == e.telephone && r.homepage == e.homepage
            &&& r.categories == e.categories && r.tags == tags && r.license == license
        }),
{
}

/// Storing an entry writes one command per tag, in order, and then the entry
/// itself, created or updated.
pub proof fn law_entry_commands(entry: Entry, update: bool)
    ensures
        entry_commands(entry, update).len() == entry.tags@.len() + 1,
        forall|i: int|
            0 <= i < entry.tags@.len() ==> #[trigger] entry_commands(entry, update)[i]
                == DbCommand::CreateTagIfNotExists(Tag { id: entry.tags@[i] }),
        entry_commands(entry, update)[entry.tags@.len() as int] == (if update {
            DbCommand::UpdateEntry(entry)
        } else {
            DbCommand::CreateEntry(entry)
        }),
{
}

/// One tag command per tag, in order.
pub proof fn law_tag_commands(tags: Seq<String>)
    ensures
        tag_commands(tags).len() == tags.len(),
        forall|i: int|
            0 <= i < tags.len() ==> #[trigger] tag_commands(tags)[i] == DbCommand::CreateTagIfNotExists(
                Tag { id: tags[i] },
            ),
{
}

/// A new user is stored under the submitted name and email address with the
/// password hash in place of the password, and with the email address not yet
/// confirmed.
pub proof fn law_new_user_stores_the_request(u: NewUser, id: String, hash: String)
    ensures
        new_user_record(u, id, hash) == (User {
            id,
            username: u.username,
            password: hash,
            email: u.email,
            email_confirmed: false,
        }),
{
}

/// Rating an entry stores two things in this order: the rating of that entry
/// with the submitted title, value, context and source, then the comment
/// with the submitted text, attached to the rating; both get the same time.
pub proof fn law_rating_stores_the_request(
    r: RateEntry,
    entry_id: String,
    rating_id: String,
    comment_id: String,
    now: u64,
)
    ensures
        rating_commands(r, entry_id, rating_id, comment_id, now) == seq![
            DbCommand::CreateRating(
                Rating {
                    id: rating_id,
                    entry_id,
                    created: now,
                    title: r.title,
                    value: r.value,
                    context: r.context,
                    source: r.source,
                },
            ),
            DbCommand::CreateComment(
                Comment { id: comment_id, created: now, text: r.comment, rating_id },
            ),
        ],
{
}

/// Which refusal of the user rules is passed on: none exactly when all three
/// rules accept, otherwise that of the user name rule, else the password
/// rule, else the email rule.
pub proof fn law_first_refusal(
    username: Result<(), ParameterError>,
    password: Result<(), ParameterError>,
    email: Result<(), ParameterError>,
)
    ensures
        first_refusal(username, password, email) is None <==> (username is Ok && password is Ok
            && email is Ok),
        match (username, password, email) {
            (Err(p), _, _) => first_refusal(username, password, email) == Some(p),
            (Ok(_), Err(p), _) => first_refusal(username, password, email) == Some(p),
            (Ok(_), Ok(_), Err(p)) => first_refusal(username, password, email) == Some(p),
            (Ok(_), Ok(_), Ok(_)) => true,
        },
{
}

/// A login succeeds exactly when the user exists, the password is verified
/// and the email address is confirmed, and then answers the requested name;
/// an unknown user or an unverified password is answered with `Credentials`,
/// an unconfirmed address with `EmailNotConfirmed`, and any other failure of
/// the read is passed on wrapped in `Other`.
pub proof fn law_login_answers(found: Result<User, RepoError>, username: String, verified: bool)
    ensures
        login_answer(found, username, verified) is Ok <==> (found matches Ok(u) && verified
            && u.email_confirmed),
        login_answer(found, username, verified) matches Ok(name) ==> name == username,
        found is Ok && !verified ==> login_answer(found, username, verified) == Err::<String, Error>(
            Error::Parameter(ParameterError::Credentials),
        ),
        found matches Ok(u) && verified && !u.email_confirmed ==> login_answer(found, username, verified)
            == Err::<String, Error>(Error::Parameter(ParameterError::EmailNotConfirmed)),
        match found {
            Err(r) => if r is NotFound {
                login_answer(found, username, verified) == Err::<String, Error>(
                    Error::Parameter(ParameterError::Credentials),
                )
            } else {
                login_answer(found, username, verified) == Err::<String, Error>(
                    Error::Repo(RepoError::Other(Box::new(r))),
                )
            },
            Ok(_) => true,
        },
{
}

/// A stored user logs in with a password exactly when bcrypt accepts the
/// password against the stored hash, the hash is one that hashing produces,
/// and the email address is confirmed; a password that bcrypt does not
/// accept is refused with `Credentials`.
pub proof fn law_login_with_password(u: User, username: String, password: Seq<char>)
    ensures
        login_answer(Ok(u), username, password_verified(password, u.password@)) is Ok <==> (
        hash_chars_in_range(u.password@) && bcrypt_accepts(password, u.password@)
            && u.email_confirmed),
        !bcrypt_accepts(password, u.password@) ==> login_answer(
            Ok(u),
            username,
            password_verified(password, u.password@),
        ) == Err::<String, Error>(Error::Parameter(ParameterError::Credentials)),
{
}

/// An element is kept by a filter exactly when it is in the sequence and
/// passes.
proof fn lemma_filter_membership<A>(s: Seq<A>, p: spec_fn(A) -> bool, x: A)
    ensures
        s.filter(p).contains(x) <==> s.contains(x) && p(x),
{
    if s.filter(p).contains(x) {
        s.lemma_filter_contains_rev(p, x);
        let k = choose|k: int| 0 <= k < s.filter(p).len() && s.filter(p)[k] == x;
        s.lemma_filter_pred(p, k);
    }
    if s.contains(x) && p(x) {
        let k = choose|k: int| 0 <= k < s.len() && s[k] == x;
        s.lemma_filter_contains(p, k);
    }
}

/// An identifier is listed exactly when some listed string spells it.
pub proof fn law_id_listed(ids: Seq<String>, id: Seq<char>)
    ensures
        id_listed(ids, id) <==> exists|k: int| 0 <= k < ids.len() && #[trigger] ids[k]@ == id,
{
    if id_listed(ids, id) {
        let k = choose|k: int| 0 <= k < ids.len() && crate::text::views(ids)[k] == id;
        assert(ids[k]@ == id);
    }
    if exists|k: int| 0 <= k < ids.len() && #[trigger] ids[k]@ == id {
        let k = choose|k: int| 0 <= k < ids.len() && #[trigger] ids[k]@ == id;
        assert(crate::text::views(ids)[k] == id);
    }
}

/// Looking records up by identifier keeps exactly the records whose
/// identifier (for upstreams, whose effect's identifier) is listed, and the
/// ratings of an entry and the comments on a rating are exactly those that
/// refer to it; each lookup keeps the records' order and answers no more
/// records than it was given.
pub proof fn law_lookups(
    ratings: Seq<Rating>,
    entries: Seq<Entry>,
    effects: Seq<Effect>,
    upstreams: Seq<Upstream>,
    comments: Seq<Comment>,
    ids: Seq<String>,
    id: Seq<char>,
    rating: Rating,
    entry: Entry,
    effect: Effect,
    upstream: Upstream,
    comment: Comment,
)
    ensures
        ratings_with_ids(ratings, ids).contains(rating) <==> ratings.contains(rating) && id_listed(
            ids,
            rating.id@,
        ),
        entries_with_ids(entries, ids).contains(entry) <==> entries.contains(entry) && id_listed(
            ids,
            entry.id@,
        ),
        effects_with_ids(effects, ids).contains(effect) <==> effects.contains(effect) && id_listed(
            ids,
            effect.id@,
        ),
        upstreams_of_effects(upstreams, ids).contains(upstream) <==> upstreams.contains(upstream)
            && id_listed(ids, upstream.effect_id@),
        ratings_of_entry(ratings, id).contains(rating) <==> ratings.contains(rating) && rating.entry_id@
            == id,
        comments_of_rating(comments, id).contains(comment) <==> comments.contains(comment)
            && comment.rating_id@ == id,
        ratings_with_ids(ratings, ids).len() <= ratings.len(),
        entries_with_ids(entries, ids).len() <= entries.len(),
        effects_with_ids(effects, ids).len() <= effects.len(),
        upstreams_of_effects(upstreams, ids).len() <= upstreams.len(),
        ratings_of_entry(ratings, id).len() <= ratings.len(),
        comments_of_rating(comments, id).len() <= comments.len(),
{
    lemma_filter_membership(ratings, |r: Rating| id_listed(ids, r.id@), rating);
    lemma_filter_membership(entries, |e: Entry| id_listed(ids, e.id@), entry);
    lemma_filter_membership(effects, |e: Effect| id_listed(ids, e.id@), effect);
    lemma_filter_membership(upstreams, |u: Upstream| id_listed(ids, u.effect_id@), upstream);
    lemma_filter_membership(ratings, crate::usecase::queries::rates_entry(id), rating);
    lemma_filter_membership(comments, crate::usecase::queries::comments_on(id), comment);
    ratings.lemma_filter_len(|r: Rating| id_listed(ids, r.id@));
    entries.lemma_filter_len(|e: Entry| id_listed(ids, e.id@));
    effects.lemma_filter_len(|e: Effect| id_listed(ids, e.id@));
    upstreams.lemma_filter_len(|u: Upstream| id_listed(ids, u.effect_id@));
    ratings.lemma_filter_len(crate::usecase::queries::rates_entry(id));
    comments.lemma_filter_len(crate::usecase::queries::comments_on(id));
}

/// A user's subscriptions are exactly the stored subscriptions under that
/// user's name; unsubscribing deletes each of them by identifier, in order;
/// a new subscription covers the box between the two given corners.
pub proof fn law_subscriptions_of_a_user(
    subs: Seq<BboxSubscription>,
    name: Seq<char>,
    s: BboxSubscription,
    id: String,
    south_west: Coordinate,
    north_east: Coordinate,
    username: String,
)
    ensures
        subscriptions_of(subs, name).contains(s) <==> subs.contains(s) && s.username@ == name,
        delete_commands(subs).len() == subs.len(),
        forall|i: int|
            0 <= i < subs.len() ==> #[trigger] delete_commands(subs)[i]
                == DbCommand::DeleteBboxSubscription(subs[i].id),
        subscription_record(id, south_west, north_east, username).id == id,
        subscription_record(id, south_west, north_east, username).username == username,
        subscription_record(id, south_west, north_east, username).bbox.south_west == south_west,
        subscription_record(id, south_west, north_east, username).bbox.north_east == north_east,
{
    lemma_filter_membership(subs, crate::usecase::subscriptions::belongs_to(name), s);
}

/// The JSON forms list the identifiers of the ratings, in order.
pub proof fn law_rating_ids(ratings: Seq<Rating>)
    ensures
        rating_ids(ratings).len() == ratings.len(),
        forall|i: int| 0 <= i < ratings.len() ==> #[trigger] rating_ids(ratings)[i] == ratings[i].id,
{
}

} // verus!
