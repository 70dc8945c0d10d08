//! Properties of the library that span several use cases.

use vstd::prelude::*;
use crate::entities::{BboxSubscription, Comment, Rating, User};
use crate::error::{Error, ParameterError};
use crate::text::{
    cleaned_tags, dedup_seq, lemma_dedup_elements, lemma_dedup_fixes_repeat_free,
    lemma_dedup_shape, lemma_filter_keeps_all, lemma_without_hash, no_adjacent_repeats, views,
    without_hash,
};
use crate::usecase::{
    version_follows, DbCommand, Login, NewEffect, NewEntry, NewUser, RateEntry, UpdateEffect,
    UpdateEntry,
};
use crate::usecase::effects::{
    effect_creation_commands, effect_update_commands, new_effect_record, updated_effect_record,
};
use crate::usecase::entries::{entry_commands, new_entry_record, updated_entry_record};
use crate::usecase::users::{login_answer, new_user_record, password_verified};
use crate::usecase::ratings::rating_commands;
use crate::usecase::queries::{comments_of_rating, ratings_of_entry};
use crate::usecase::subscriptions::{
    belongs_to, delete_commands, has_subscription, subscriber_addresses, subscription_commands,
    subscriptions_of, unsubscribe_commands,
};

verus! {

/// A new entry or effect starts at version 0, so the only update it accepts
/// is the one carrying version 1.
pub proof fn law_new_records_accept_version_one(
    e: NewEntry,
    f: NewEffect,
    tags: Vec<String>,
    id: String,
    now: u64,
    v: u64,
)
    ensures
        version_follows(new_entry_record(e, tags, id, now).version, v) <==> v == 1,
        version_follows(new_effect_record(f, tags, id, now).version, v) <==> v == 1,
{
}

/// An accepted update stores the version it carries, so submitting the same
/// update again is refused, and the next accepted one carries the version
/// after it.
pub proof fn law_update_cannot_be_replayed(
    e: UpdateEntry,
    f: UpdateEffect,
    license: Option<String>,
    tags: Vec<String>,
    now: u64,
)
    ensures
        !version_follows(updated_entry_record(e, license, tags, now).version, e.version),
        !version_follows(updated_effect_record(f, license, tags, now).version, f.version),
        e.version < u64::MAX ==> version_follows(
            updated_entry_record(e, license, tags, now).version,
            (e.version + 1) as u64,
        ),
        f.version < u64::MAX ==> version_follows(
            updated_effect_record(f, license, tags, now).version,
            (f.version + 1) as u64,
        ),
{
}

/// The license given when an entry or effect is created is kept by every
/// update.
pub proof fn law_license_survives_update(
    n: NewEntry,
    m: NewEffect,
    created_tags: Vec<String>,
    id: String,
    created: u64,
    u: UpdateEntry,
    v: UpdateEffect,
    updated_tags: Vec<String>,
    updated: u64,
)
    ensures
        updated_entry_record(u, new_entry_record(n, created_tags, id, created).license, updated_tags, updated).license
            == Some(n.license),
        updated_effect_record(v, new_effect_record(m, created_tags, id, created).license, updated_tags, updated).license
            == Some(m.license),
{
}

/// The upstreams stored with an effect refer to the version being stored:
/// those of a new effect to its identifier and version 0, those of an update
/// to the updated effect's identifier and new version; all carry the
/// effect's creation time.
pub proof fn law_upstreams_belong_to_the_stored_version(
    e: NewEffect,
    f: UpdateEffect,
    tags: Vec<String>,
    id: String,
    now: u64,
    license: Option<String>,
    upstream_ids: Seq<String>,
)
    ensures
        forall|i: int|
            tags@.len() < i < effect_creation_commands(e, tags, id, now, upstream_ids).len()
                ==> (#[trigger] effect_creation_commands(e, tags, id, now, upstream_ids)[i] matches DbCommand::CreateUpstream(u)
                && u.effect_id == id && u.effect_version == 0 && u.created == now),
        forall|i: int|
            tags@.len() < i < effect_update_commands(f, license, tags, now, upstream_ids).len()
                ==> (#[trigger] effect_update_commands(f, license, tags, now, upstream_ids)[i] matches DbCommand::CreateUpstream(u)
                && u.effect_id == f.id && u.effect_version == f.version && u.created == now),
{
}

/// Stored tags contain no `'#'`, and no stored tag repeats the one before it.
pub proof fn law_stored_tags_are_clean(tags: Seq<String>)
    ensures
        forall|i: int| 0 <= i < cleaned_tags(tags).len() ==> !(#[trigger] cleaned_tags(tags)[i]).contains('#'),
        no_adjacent_repeats(cleaned_tags(tags)),
{
    let stripped = views(tags).map_values(|t: Seq<char>| without_hash(t));
    lemma_dedup_shape(stripped);
    lemma_dedup_elements(stripped);
    assert forall|i: int| 0 <= i < cleaned_tags(tags).len() implies !(#[trigger] cleaned_tags(tags)[i]).contains('#') by {
        let x = cleaned_tags(tags)[i];
        assert(stripped.contains(x));
        let j = choose|j: int| 0 <= j < stripped.len() && stripped[j] == x;
        lemma_without_hash(views(tags)[j]);
    }
}

/// Tags that were stored come through cleaning, and through the collapsing of
/// repetitions that an update applies, unchanged.
pub proof fn law_tag_cleaning_is_idempotent(stored: Seq<String>, submitted: Seq<String>)
    requires
        views(stored) == cleaned_tags(submitted),
    ensures
        dedup_seq(views(stored)) == views(stored),
        cleaned_tags(stored) == views(stored),
{
    law_stored_tags_are_clean(submitted);
    lemma_dedup_fixes_repeat_free(views(stored));
    let stripped = views(stored).map_values(|t: Seq<char>| without_hash(t));
    assert forall|i: int| 0 <= i < stripped.len() implies stripped[i] == views(stored)[i] by {
        let x = views(stored)[i];
        assert(!x.contains('#'));
        lemma_filter_keeps_all(x, |c: char| c != '#');
    }
    assert(stripped =~= views(stored));
}

/// Every tag of a stored effect or entry is created, if missing, before the
/// record itself is written.
pub proof fn law_tags_are_created_before_the_record(
    e: NewEffect,
    f: UpdateEffect,
    tags: Vec<String>,
    id: String,
    now: u64,
    license: Option<String>,
    upstream_ids: Seq<String>,
    entry: crate::entities::Entry,
    update: bool,
)
    ensures
        forall|i: int|
            0 <= i < tags@.len() ==> #[trigger] effect_creation_commands(e, tags, id, now, upstream_ids)[i]
                == DbCommand::CreateTagIfNotExists(crate::entities::Tag { id: tags@[i] }),
        effect_creation_commands(e, tags, id, now, upstream_ids)[tags@.len() as int]
            == DbCommand::CreateEffect(new_effect_record(e, tags, id, now)),
        new_effect_record(e, tags, id, now).tags == tags,
        forall|i: int|
            0 <= i < tags@.len() ==> #[trigger] effect_update_commands(f, license, tags, now, upstream_ids)[i]
                == DbCommand::CreateTagIfNotExists(crate::entities::Tag { id: tags@[i] }),
        effect_update_commands(f, license, tags, now, upstream_ids)[tags@.len() as int]
            == DbCommand::UpdateEffect(updated_effect_record(f, license, tags, now)),
        updated_effect_record(f, license, tags, now).tags == tags,
        forall|i: int|
            0 <= i < entry.tags@.len() ==> #[trigger] entry_commands(entry, update)[i]
                == DbCommand::CreateTagIfNotExists(crate::entities::Tag { id: entry.tags@[i] }),
        entry_commands(entry, update)[entry.tags@.len() as int] == (if update {
            DbCommand::UpdateEntry(entry)
        } else {
            DbCommand::CreateEntry(entry)
        }),
{
}

/// A newly registered user cannot log in before confirming the email
/// address: the right password is answered with `EmailNotConfirmed`, a
/// password that the stored hash does not verify with `Credentials`.
pub proof fn law_new_user_must_confirm_email(
    u: NewUser,
    id: String,
    hash: String,
    request: Login,
)
    requires
        password_verified(u.password@, hash@),
    ensures
        request.spec_password()@ == u.password@ ==> login_answer(
            Ok(new_user_record(u, id, hash)),
            request.spec_username(),
            password_verified(request.spec_password()@, hash@),
        ) == Err::<String, Error>(Error::Parameter(ParameterError::EmailNotConfirmed)),
        !password_verified(request.spec_password()@, hash@) ==> login_answer(
            Ok(new_user_record(u, id, hash)),
            request.spec_username(),
            password_verified(request.spec_password()@, hash@),
        ) == Err::<String, Error>(Error::Parameter(ParameterError::Credentials)),
{
}

/// How the repository carries out a command on the stored subscriptions:
/// deleting removes the subscriptions with that identifier, creating appends
/// the new one; other commands leave the subscriptions alone.
pub open spec fn apply_subscription_command(store: Seq<BboxSubscription>, c: DbCommand) -> Seq<
    BboxSubscription,
> {
    match c {
        DbCommand::DeleteBboxSubscription(id) => store.filter(|s: BboxSubscription| s.id@ != id@),
        DbCommand::CreateBboxSubscription(s) => store.push(s),
        _ => store,
    }
}

/// The stored subscriptions after the repository carries out `cmds` in order.
pub open spec fn apply_subscription_commands(store: Seq<BboxSubscription>, cmds: Seq<DbCommand>) -> Seq<
    BboxSubscription,
>
    decreases cmds.len(),
{
    if cmds.len() == 0 {
        store
    } else {
        apply_subscription_commands(apply_subscription_command(store, cmds[0]), cmds.drop_first())
    }
}

proof fn lemma_apply_concat(store: Seq<BboxSubscription>, a: Seq<DbCommand>, b: Seq<DbCommand>)
    ensures
        apply_subscription_commands(store, a + b) == apply_subscription_commands(
            apply_subscription_commands(store, a),
            b,
        ),
    decreases a.len(),
{
    if a.len() > 0 {
        assert((a + b).drop_first() =~= a.drop_first() + b);
        assert((a + b)[0] == a[0]);
        lemma_apply_concat(apply_subscription_command(store, a[0]), a.drop_first(), b);
    } else {
        assert(a + b =~= b);
    }
}

/// After deleting the subscriptions with the identifiers of `gone`, every
/// remaining subscription was stored before and has none of those
/// identifiers.
proof fn lemma_apply_deletes(store: Seq<BboxSubscription>, gone: Seq<BboxSubscription>)
    ensures
        forall|i: int|
            0 <= i < apply_subscription_commands(
                store,
                delete_commands(gone),
            ).len() ==> {
                let r = #[trigger] apply_subscription_commands(
                    store,
                    delete_commands(gone),
                )[i];
                &&& store.contains(r)
                &&& forall|k: int| 0 <= k < gone.len() ==> r.id@ != (#[trigger] gone[k]).id@
            },
    decreases gone.len(),
{
    let cmds = delete_commands(gone);
    let result = apply_subscription_commands(store, cmds);
    if gone.len() == 0 {
        assert(result == store);
        assert forall|i: int| 0 <= i < result.len() implies store.contains(#[trigger] result[i]) by {
            assert(store[i] == result[i]);
        }
    } else {
        let pred = |s: BboxSubscription| s.id@ != gone[0].id@;
        let next = store.filter(pred);
        let rest = gone.drop_first();
        assert(cmds[0] == DbCommand::DeleteBboxSubscription(gone[0].id));
        assert(cmds.drop_first() =~= delete_commands(rest));
        assert(apply_subscription_command(store, cmds[0]) == next);
        assert(result == apply_subscription_commands(next, delete_commands(rest)));
        lemma_apply_deletes(next, rest);
        assert forall|i: int| 0 <= i < result.len() implies {
            let r = #[trigger] result[i];
            &&& store.contains(r)
            &&& forall|k: int| 0 <= k < gone.len() ==> r.id@ != (#[trigger] gone[k]).id@
        } by {
            let r = result[i];
            assert(next.contains(r));
            store.lemma_filter_contains_rev(pred, r);
            let j = choose|j: int| 0 <= j < next.len() && next[j] == r;
            store.lemma_filter_pred(pred, j);
            assert forall|k: int| 0 <= k < gone.len() implies r.id@ != (#[trigger] gone[k]).id@ by {
                if k > 0 {
                    assert(gone[k] == rest[k - 1]);
                }
            }
        }
    }
}

/// Once the repository has carried out the commands that unsubscribe a
/// user, the user holds no subscription.
proof fn lemma_unsubscribed_user_holds_nothing(store: Seq<BboxSubscription>, name: Seq<char>)
    ensures
        subscriptions_of(apply_subscription_commands(store, unsubscribe_commands(store, name)), name)
            =~= Seq::<BboxSubscription>::empty(),
{
    let mine = subscriptions_of(store, name);
    let rest = apply_subscription_commands(store, unsubscribe_commands(store, name));
    let pred = belongs_to(name);
    lemma_apply_deletes(store, mine);
    if subscriptions_of(rest, name).len() > 0 {
        let r = rest.filter(pred)[0];
        rest.lemma_filter_pred(pred, 0);
        assert(rest.filter(pred).contains(r));
        rest.lemma_filter_contains_rev(pred, r);
        let i = choose|i: int| 0 <= i < rest.len() && rest[i] == r;
        assert(store.contains(r));
        let j = choose|j: int| 0 <= j < store.len() && store[j] == r;
        store.lemma_filter_contains(pred, j);
        assert(mine.contains(r));
        let k = choose|k: int| 0 <= k < mine.len() && mine[k] == r;
        assert(r.id@ != mine[k].id@);
    }
}

/// Deleting the subscriptions with the identifiers of `gone` keeps every
/// stored subscription whose identifier is none of them.
proof fn lemma_apply_deletes_keeps(store: Seq<BboxSubscription>, gone: Seq<BboxSubscription>)
    ensures
        forall|i: int|
            0 <= i < store.len() && (forall|k: int| 0 <= k < gone.len() ==> store[i].id@ != (#[trigger] gone[k]).id@)
                ==> apply_subscription_commands(store, delete_commands(gone)).contains(#[trigger] store[i]),
    decreases gone.len(),
{
    let cmds = delete_commands(gone);
    let result = apply_subscription_commands(store, cmds);
    if gone.len() == 0 {
        assert(result == store);
    } else {
        let pred = |s: BboxSubscription| s.id@ != gone[0].id@;
        let next = store.filter(pred);
        let rest = gone.drop_first();
        assert(cmds[0] == DbCommand::DeleteBboxSubscription(gone[0].id));
        assert(cmds.drop_first() =~= delete_commands(rest));
        assert(result == apply_subscription_commands(next, delete_commands(rest)));
        lemma_apply_deletes_keeps(next, rest);
        assert forall|i: int|
            0 <= i < store.len() && (forall|k: int| 0 <= k < gone.len() ==> store[i].id@ != (#[trigger] gone[k]).id@)
                implies result.contains(#[trigger] store[i]) by {
            assert(store[i].id@ != gone[0].id@);
            store.lemma_filter_contains(pred, i);
            let j = choose|j: int| 0 <= j < next.len() && next[j] == store[i];
            assert forall|k: int| 0 <= k < rest.len() implies next[j].id@ != (#[trigger] rest[k]).id@ by {
                assert(rest[k] == gone[k + 1]);
            }
        }
    }
}

/// Unsubscribing a user deletes all the user's subscriptions and no other
/// subscription whose identifier differs from theirs; unsubscribing again
/// then deletes nothing.
pub proof fn law_unsubscribing_is_complete_and_idempotent(store: Seq<BboxSubscription>, name: Seq<char>)
    ensures
        subscriptions_of(apply_subscription_commands(store, unsubscribe_commands(store, name)), name)
            == Seq::<BboxSubscription>::empty(),
        unsubscribe_commands(
            apply_subscription_commands(store, unsubscribe_commands(store, name)),
            name,
        ) == Seq::<DbCommand>::empty(),
        forall|i: int|
            0 <= i < store.len() && (forall|k: int|
                0 <= k < subscriptions_of(store, name).len() ==> store[i].id@ != (
                #[trigger] subscriptions_of(store, name)[k]).id@) ==> apply_subscription_commands(
                store,
                unsubscribe_commands(store, name),
            ).contains(#[trigger] store[i]),
{
    lemma_unsubscribed_user_holds_nothing(store, name);
    lemma_apply_deletes_keeps(store, subscriptions_of(store, name));
    let rest = apply_subscription_commands(store, unsubscribe_commands(store, name));
    assert(unsubscribe_commands(rest, name) =~= Seq::<DbCommand>::empty());
}

/// Subscribing replaces the user's subscriptions: once the repository has
/// carried out the commands of a subscription, the user holds exactly the
/// new subscription.
pub proof fn law_subscribing_replaces_subscriptions(
    store: Seq<BboxSubscription>,
    new_subscription: BboxSubscription,
)
    ensures
        subscriptions_of(
            apply_subscription_commands(store, subscription_commands(store, new_subscription)),
            new_subscription.username@,
        ) == seq![new_subscription],
{
    let name = new_subscription.username@;
    let deletes = unsubscribe_commands(store, name);
    let create = seq![DbCommand::CreateBboxSubscription(new_subscription)];
    lemma_apply_concat(store, deletes, create);
    let rest = apply_subscription_commands(store, deletes);
    assert(create.drop_first() =~= Seq::<DbCommand>::empty());
    assert(create[0] == DbCommand::CreateBboxSubscription(new_subscription));
    assert(apply_subscription_command(rest, create[0]) == rest.push(new_subscription));
    assert(apply_subscription_commands(rest.push(new_subscription), Seq::<DbCommand>::empty())
        == rest.push(new_subscription));
    assert(apply_subscription_commands(rest, create) == rest.push(new_subscription));
    lemma_unsubscribed_user_holds_nothing(store, name);
    assert(subscription_commands(store, new_subscription) == deletes + create);
    assert(subscriptions_of(rest.push(new_subscription), name) =~= seq![new_subscription]) by {
        reveal_with_fuel(Seq::<_>::filter, 1);
        assert(rest.push(new_subscription).drop_last() =~= rest);
    }
}

/// Only subscribers are notified: every address answered is the email
/// address of a user holding one of the subscriptions, and no address
/// repeats the one before it.
pub proof fn law_only_subscribers_are_notified(users: Seq<User>, subs: Seq<BboxSubscription>)
    ensures
        forall|i: int|
            0 <= i < subscriber_addresses(users, subs).len() ==> exists|j: int|
                0 <= j < users.len() && has_subscription(subs, (#[trigger] users[j]).username@)
                    && users[j].email@ == #[trigger] subscriber_addresses(users, subs)[i],
        no_adjacent_repeats(subscriber_addresses(users, subs)),
{
    let pred = |u: User| has_subscription(subs, u.username@);
    let chosen = users.filter(pred);
    let emails = chosen.map_values(|u: User| u.email@);
    assert(subscriber_addresses(users, subs) == dedup_seq(emails));
    lemma_dedup_shape(emails);
    lemma_dedup_elements(emails);
    assert forall|i: int| 0 <= i < subscriber_addresses(users, subs).len() implies (exists|j: int|
        0 <= j < users.len() && has_subscription(subs, (#[trigger] users[j]).username@)
            && users[j].email@ == #[trigger] subscriber_addresses(users, subs)[i]) by {
        let a = dedup_seq(emails)[i];
        assert(emails.contains(a));
        let k = choose|k: int| 0 <= k < emails.len() && emails[k] == a;
        let u = chosen[k];
        users.lemma_filter_pred(pred, k);
        assert(chosen.contains(u));
        users.lemma_filter_contains_rev(pred, u);
        let j = choose|j: int| 0 <= j < users.len() && users[j] == u;
        assert(has_subscription(subs, users[j].username@) && users[j].email@ == a);
    }
}

/// A rating is stored under the rated entry and its comment under the
/// rating: once both are stored, looking up the entry's ratings finds the
/// rating and looking up the rating's comments finds the comment, after
/// whatever was stored before.
pub proof fn law_rating_and_comment_are_found(
    r: RateEntry,
    entry_id: String,
    rating_id: String,
    comment_id: String,
    now: u64,
    ratings: Seq<Rating>,
    comments: Seq<Comment>,
)
    ensures
        rating_commands(r, entry_id, rating_id, comment_id, now)[0] matches DbCommand::CreateRating(
            rating,
        ) && ratings_of_entry(ratings.push(rating), entry_id@) == ratings_of_entry(
            ratings,
            entry_id@,
        ).push(rating),
        rating_commands(r, entry_id, rating_id, comment_id, now)[1] matches DbCommand::CreateComment(
            comment,
        ) && comment.rating_id == rating_id && comments_of_rating(comments.push(comment), rating_id@)
            == comments_of_rating(comments, rating_id@).push(comment),
{
    reveal_with_fuel(Seq::<_>::filter, 1);
    let cmds = rating_commands(r, entry_id, rating_id, comment_id, now);
    if let DbCommand::CreateRating(rating) = cmds[0] {
        assert(ratings.push(rating).drop_last() =~= ratings);
    }
    if let DbCommand::CreateComment(comment) = cmds[1] {
        assert(comments.push(comment).drop_last() =~= comments);
    }
}

} // verus!
