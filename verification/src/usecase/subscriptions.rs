//! Subscriptions to bounding boxes, and whom to notify.

use vstd::prelude::*;
use crate::entities::{Bbox, BboxSubscription, Coordinate, User};
use crate::error::{Error, ParameterError, RepoError};
use crate::text::{dedup_seq, dedup_strings, views};
use crate::outside::{is_simple_id, new_id};
use super::DbCommand;
use crate::record_laws::law_every_subscriber_is_notified;

verus! {

/// The bounding box spanned by two coordinates, south-west first; none unless
/// exactly two are given.
pub fn bbox_from_coordinates(coordinates: &[Coordinate]) -> (b: Option<Bbox>)
    ensures
        coordinates@.len() == 2 <==> b is Some,
        b matches Some(x) ==> x == (Bbox { south_west: coordinates@[0], north_east: coordinates@[1] }),
{
    if coordinates.len() != 2 {
        return None;
    }
    Some(Bbox { south_west: coordinates[0], north_east: coordinates[1] })
}

/// Whether a subscription belongs to user `username`.
pub open spec fn belongs_to(username: Seq<char>) -> spec_fn(BboxSubscription) -> bool {
    |s: BboxSubscription| s.username@ == username
}

/// The subscriptions of user `username`, in order.
pub open spec fn subscriptions_of(subs: Seq<BboxSubscription>, username: Seq<char>) -> Seq<
    BboxSubscription,
> {
    subs.filter(belongs_to(username))
}

/// The commands that delete the given subscriptions, in order.
pub open spec fn delete_commands(subs: Seq<BboxSubscription>) -> Seq<DbCommand> {
    subs.map_values(|s: BboxSubscription| DbCommand::DeleteBboxSubscription(s.id))
}

/// The commands that delete every subscription of user `username`, in order.
pub open spec fn unsubscribe_commands(subs: Seq<BboxSubscription>, username: Seq<char>) -> Seq<
    DbCommand,
> {
    delete_commands(subscriptions_of(subs, username))
}

/// The subscriptions of a user, given all subscriptions.
pub fn get_bbox_subscriptions(username: &str, subscriptions: Vec<BboxSubscription>) -> (r: Vec<
    BboxSubscription,
>)
    ensures
        r@ == subscriptions_of(subscriptions@, username@),
{
    let name = username.to_owned();
    let ghost all = subscriptions@;
    let mut out: Vec<BboxSubscription> = Vec::new();
    for s in it: subscriptions.into_iter()
        invariant
            it.seq() == all,
            name@ == username@,
            out@ == subscriptions_of(all.take(it.index() as int), username@),
    {
        proof {
            reveal_with_fuel(Seq::<_>::filter, 1);
            assert(all.take(it.index() + 1).drop_last() =~= all.take(it.index() as int));
        }
        if s.username == name {
            out.push(s);
        }
    }
    proof {
        assert(all.take(all.len() as int) =~= all);
    }
    out
}

/// The commands that delete every subscription of a user, given all
/// subscriptions.
pub fn unsubscribe_all_bboxes_by_username(subscriptions: Vec<BboxSubscription>, username: &str) -> (r:
    Vec<DbCommand>)
    ensures
        r@ == unsubscribe_commands(subscriptions@, username@),
{
    let mine = get_bbox_subscriptions(username, subscriptions);
    let ghost m = mine@;
    let mut cmds: Vec<DbCommand> = Vec::new();
    for s in it: mine.into_iter()
        invariant
            it.seq() == m,
            m == subscriptions_of(subscriptions@, username@),
            cmds@ =~= delete_commands(m.take(it.index() as int)),
    {
        proof {
            assert(m.take(it.index() + 1) =~= m.take(it.index() as int).push(m[it.index() as int]));
        }
        cmds.push(DbCommand::DeleteBboxSubscription(s.id));
    }
    proof {
        assert(m.take(m.len() as int) =~= m);
    }
    cmds
}

/// The subscription of `username` to the box from `south_west` to
/// `north_east`.
pub open spec fn subscription_record(
    id: String,
    south_west: Coordinate,
    north_east: Coordinate,
    username: String,
) -> BboxSubscription {
    BboxSubscription { id, bbox: Bbox { south_west, north_east }, username }
}

/// The commands that subscribe a user to a bounding box: every existing
/// subscription of the user is deleted, then the new one is created.
pub open spec fn subscription_commands(
    subs: Seq<BboxSubscription>,
    new_subscription: BboxSubscription,
) -> Seq<DbCommand> {
    unsubscribe_commands(subs, new_subscription.username@) + seq![
        DbCommand::CreateBboxSubscription(new_subscription),
    ]
}

/// Subscribes a user to the bounding box spanned by two coordinates, replacing
/// the user's existing subscriptions, given the verdict of the bounding-box
/// rule on that box (see `bbox_from_coordinates`; it is not looked at unless
/// two coordinates are given) and what reading all subscriptions gave. Other
/// than two coordinates are refused with `Bbox`; a refusal of the rule is
/// passed on, then a failed read. Otherwise answers the commands that delete
/// the user's subscriptions and then create the new one with a fresh
/// identifier.
pub fn subscribe_to_bbox(
    coordinates: &[Coordinate],
    username: &str,
    bbox_verdict: Result<(), ParameterError>,
    subscriptions: Result<Vec<BboxSubscription>, RepoError>,
) -> (res: Result<Vec<DbCommand>, Error>)
    ensures
        coordinates@.len() != 2 ==> res == Err::<Vec<DbCommand>, Error>(
            Error::Parameter(ParameterError::Bbox),
        ),
        coordinates@.len() == 2 ==> match (bbox_verdict, subscriptions) {
            (Err(p), _) => res == Err::<Vec<DbCommand>, Error>(Error::Parameter(p)),
            (Ok(()), Err(r)) => res == Err::<Vec<DbCommand>, Error>(Error::Repo(r)),
            (Ok(()), Ok(subs)) => res matches Ok(cmds) && exists|id: String, name: String|
                #![trigger subscription_record(id, coordinates@[0], coordinates@[1], name)]
                name@ == username@ && is_simple_id(id@) && cmds@ == subscription_commands(
                    subs@,
                    subscription_record(id, coordinates@[0], coordinates@[1], name),
                ),
        },
{
    let bbox = match bbox_from_coordinates(coordinates) {
        None => return Err(Error::Parameter(ParameterError::Bbox)),
        Some(b) => b,
    };
    if let Err(p) = bbox_verdict {
        return Err(Error::Parameter(p));
    }
    let subs = match subscriptions {
        Err(r) => return Err(Error::Repo(r)),
        Ok(v) => v,
    };
    let ghost all = subs@;
    let mut cmds = unsubscribe_all_bboxes_by_username(subs, username);
    let id = new_id();
    let name = username.to_owned();
    let ghost sub = subscription_record(id, coordinates@[0], coordinates@[1], name);
    cmds.push(DbCommand::CreateBboxSubscription(BboxSubscription { id, bbox, username: name }));
    assert(name@ == username@ && is_simple_id(id@) && cmds@ == subscription_commands(all, sub));
    Ok(cmds)
}

/// Whether some subscription belongs to user `username`.
pub open spec fn has_subscription(subs: Seq<BboxSubscription>, username: Seq<char>) -> bool {
    exists|i: int| 0 <= i < subs.len() && #[trigger] subs[i].username@ == username
}

/// Whether some subscription belongs to user `username`.
fn any_subscription_of(subs: &[BboxSubscription], username: &String) -> (b: bool)
    ensures
        b == has_subscription(subs@, username@),
{
    let mut j: usize = 0;
    while j < subs.len()
        invariant
            0 <= j <= subs@.len(),
            forall|k: int| 0 <= k < j ==> subs@[k].username@ != username@,
        decreases subs.len() - j,
    {
        if subs[j].username == *username {
            return true;
        }
        j += 1;
    }
    false
}

/// The email addresses of the subscribed users, in the order of `users`,
/// with consecutive repetitions collapsed.
pub open spec fn subscriber_addresses(users: Seq<User>, subs: Seq<BboxSubscription>) -> Seq<Seq<char>> {
    dedup_seq(
        users.filter(|u: User| has_subscription(subs, u.username@)).map_values(|u: User| u.email@),
    )
}

/// The email addresses of the users holding one of the given subscriptions,
/// given all users.
pub fn email_addresses_from_subscriptions(users: Vec<User>, subs: &[BboxSubscription]) -> (r: Vec<
    String,
>)
    ensures
        views(r@) == subscriber_addresses(users@, subs@),
        forall|j: int, i: int|
            #![trigger users@[j], subs@[i]]
            0 <= j < users@.len() && 0 <= i < subs@.len() && subs@[i].username@ == users@[j].username@
                ==> views(r@).contains(users@[j].email@),
{
    let ghost all = users@;
    let ghost pred = |u: User| has_subscription(subs@, u.username@);
    let mut addresses: Vec<String> = Vec::new();
    for u in it: users.into_iter()
        invariant
            it.seq() == all,
            pred == (|u: User| has_subscription(subs@, u.username@)),
            views(addresses@) =~= all.take(it.index() as int).filter(pred).map_values(
                |u: User| u.email@,
            ),
    {
        let ghost i = it.index() as int;
        let ghost gu = u;
        let ghost before = addresses@;
        proof {
            reveal_with_fuel(Seq::<_>::filter, 1);
            assert(all.take(i + 1).drop_last() =~= all.take(i));
            assert(all.take(i + 1).last() == gu);
        }
        if any_subscription_of(subs, &u.username) {
            addresses.push(u.email);
            proof {
                reveal_with_fuel(Seq::<_>::filter, 1);
                assert(all.take(i + 1).drop_last() =~= all.take(i));
                assert(pred(gu));
                assert(all.take(i + 1).filter(pred) == all.take(i).filter(pred).push(gu));
                assert(views(addresses@) =~= views(before).push(gu.email@));
            }
        } else {
            proof {
                reveal_with_fuel(Seq::<_>::filter, 1);
                assert(all.take(i + 1).drop_last() =~= all.take(i));
                assert(!pred(gu));
                assert(all.take(i + 1).filter(pred) == all.take(i).filter(pred));
            }
        }
    }
    proof {
        assert(all.take(all.len() as int) =~= all);
        assert forall|j: int, i: int|
            #![trigger all[j], subs@[i]]
            0 <= j < all.len() && 0 <= i < subs@.len() && subs@[i].username@ == all[j].username@
                implies subscriber_addresses(all, subs@).contains(all[j].email@) by {
            law_every_subscriber_is_notified(all, subs@, j, i);
        }
    }
    dedup_strings(&addresses)
}

} // verus!
