//! Creating and updating effects.

use vstd::prelude::*;
use crate::entities::{Effect, Upstream};
use crate::error::{Error, RepoError};
use crate::text::{clean_tags, cleaned_tags, dedup_seq, dedup_strings, views};
use crate::outside::{is_simple_id, new_id, now_timestamp};
use super::{
    fresh_ids, make_tag_commands, tag_commands, version_follows, DbCommand, NewEffect, NewOrigin,
    NewUpstream, UpdateEffect,
};

verus! {

/// The label of an origin, if there is one.
pub open spec fn origin_label(o: Option<NewOrigin>) -> Option<String> {
    match o {
        Some(x) => x.label,
        None => None,
    }
}

/// The reference of an origin, if there is one.
pub open spec fn origin_value(o: Option<NewOrigin>) -> Option<String> {
    match o {
        Some(x) => x.value,
        None => None,
    }
}

/// The submitted upstreams; none when the request carries no list.
pub open spec fn upstream_list(o: Option<Vec<NewUpstream>>) -> Seq<NewUpstream> {
    match o {
        Some(v) => v@,
        None => Seq::empty(),
    }
}

/// The stored form of a submitted upstream of version `effect_version` of
/// effect `effect_id`.
pub open spec fn upstream_record(
    u: NewUpstream,
    id: String,
    now: u64,
    effect_id: String,
    effect_version: u64,
) -> Upstream {
    Upstream {
        id,
        created: now,
        effect_id,
        effect_version,
        upstream_effect: match u.upstreamEffect {
            Some(x) => x.label,
            None => None,
        },
        upstream_effect_id: match u.upstreamEffect {
            Some(x) => x.value,
            None => None,
        },
        number: Some(u.upstreamNo),
        transfer_unit: u.upstreamTransferUnit,
        amount: Some(u.upstreamAmount),
        comment: u.upstreamComment,
    }
}

/// One `CreateUpstream` command per submitted upstream, in order, the `i`-th
/// with identifier `ids[i]`.
pub open spec fn upstream_commands(
    us: Seq<NewUpstream>,
    ids: Seq<String>,
    now: u64,
    effect_id: String,
    effect_version: u64,
) -> Seq<DbCommand> {
    Seq::new(
        us.len(),
        |i: int| DbCommand::CreateUpstream(upstream_record(us[i], ids[i], now, effect_id, effect_version)),
    )
}

/// The stored form of a new effect, with `tags` in place of the submitted
/// tags.
pub open spec fn new_effect_record(e: NewEffect, tags: Vec<String>, id: String, now: u64) -> Effect {
    Effect {
        id,
        created: now,
        version: 0,
        title: e.title,
        description: e.description,
        origin: origin_label(e.origin),
        origin_id: origin_value(e.origin),
        homepage: e.homepage,
        tags,
        license: Some(e.license),
    }
}

/// The commands that create a new effect: its tags, then the effect, then
/// its upstreams.
pub open spec fn effect_creation_commands(
    e: NewEffect,
    tags: Vec<String>,
    id: String,
    now: u64,
    upstream_ids: Seq<String>,
) -> Seq<DbCommand> {
    tag_commands(tags@) + seq![DbCommand::CreateEffect(new_effect_record(e, tags, id, now))]
        + upstream_commands(upstream_list(e.upstreams), upstream_ids, now, id, 0)
}

/// The stored form of a submitted upstream.
pub fn build_upstream(
    u: NewUpstream,
    id: String,
    now: u64,
    effect_id: String,
    effect_version: u64,
) -> (r: Upstream)
    ensures
        r == upstream_record(u, id, now, effect_id, effect_version),
{
    let (label, value) = match u.upstreamEffect {
        Some(ue) => (ue.label, ue.value),
        None => (None, None),
    };
    Upstream {
        id,
        created: now,
        effect_id,
        effect_version,
        upstream_effect: label,
        upstream_effect_id: value,
        number: Some(u.upstreamNo),
        transfer_unit: u.upstreamTransferUnit,
        amount: Some(u.upstreamAmount),
        comment: u.upstreamComment,
    }
}

/// The commands that store the submitted upstreams of version
/// `effect_version` of effect `effect_id`, the `i`-th with identifier `ids[i]`.
pub fn make_upstream_commands(
    us: Option<Vec<NewUpstream>>,
    ids: &Vec<String>,
    now: u64,
    effect_id: &String,
    effect_version: u64,
) -> (cmds: Vec<DbCommand>)
    requires
        ids@.len() == upstream_list(us).len(),
    ensures
        cmds@ == upstream_commands(upstream_list(us), ids@, now, *effect_id, effect_version),
{
    let ghost all = upstream_list(us);
    let mut cmds: Vec<DbCommand> = Vec::new();
    match us {
        None => {
            assert(cmds@ =~= upstream_commands(all, ids@, now, *effect_id, effect_version));
        },
        Some(v) => {
            let mut i: usize = 0;
            for u in it: v.into_iter()
                invariant
                    i == it.index(),
                    it.seq() == all,
                    ids@.len() == all.len(),
                    cmds@ =~= upstream_commands(all.take(i as int), ids@, now, *effect_id, effect_version),
            {
                let rec = build_upstream(u, ids[i].clone(), now, effect_id.clone(), effect_version);
                cmds.push(DbCommand::CreateUpstream(rec));
                assert(i < ids.len());
                i = i + 1;
            }
            assert(all.take(all.len() as int) =~= all);
        },
    }
    cmds
}

/// The commands that create a new effect with identifier `id`, created at
/// `now`, whose stored tags are `tags` and whose `i`-th upstream gets
/// identifier `upstream_ids[i]`.
pub fn new_effect_commands(
    e: NewEffect,
    tags: Vec<String>,
    id: String,
    now: u64,
    upstream_ids: Vec<String>,
) -> (cmds: Vec<DbCommand>)
    requires
        upstream_ids@.len() == upstream_list(e.upstreams).len(),
    ensures
        cmds@ == effect_creation_commands(e, tags, id, now, upstream_ids@),
{
    let mut cmds = make_tag_commands(&tags);
    let ups = make_upstream_commands(e.upstreams, &upstream_ids, now, &id, 0);
    let (origin, origin_id) = match e.origin {
        Some(o) => (o.label, o.value),
        None => (None, None),
    };
    let effect = Effect {
        id,
        created: now,
        version: 0,
        title: e.title,
        description: e.description,
        origin,
        origin_id,
        homepage: e.homepage,
        tags,
        license: Some(e.license),
    };
    cmds.push(DbCommand::CreateEffect(effect));
    let mut ups = ups;
    cmds.append(&mut ups);
    cmds
}

/// Creates a new effect: the request's tags are cleaned for storage, the
/// effect and each upstream get fresh identifiers and the current time, and
/// the effect starts at version 0. Answers the effect's identifier and the
/// commands that store its tags, the effect and its upstreams, in this order.
pub fn create_new_effect(e: NewEffect) -> (res: (String, Vec<DbCommand>))
    ensures
        is_simple_id(res.0@),
        exists|tags: Vec<String>, now: u64, upstream_ids: Seq<String>|
            #![trigger effect_creation_commands(e, tags, res.0, now, upstream_ids)]
            views(tags@) == cleaned_tags(e.tags@)
            && upstream_ids.len() == upstream_list(e.upstreams).len()
            && (forall|k: int| 0 <= k < upstream_ids.len() ==> is_simple_id(#[trigger] upstream_ids[k]@))
            && res.1@ == effect_creation_commands(e, tags, res.0, now, upstream_ids),
{
    let tags = clean_tags(&e.tags);
    let now = now_timestamp();
    let id = new_id();
    let n = match &e.upstreams {
        Some(v) => v.len(),
        None => 0,
    };
    let upstream_ids = fresh_ids(n);
    let ghost uids = upstream_ids@;
    let ghost t = tags;
    let cmds = new_effect_commands(e, tags, id.clone(), now, upstream_ids);
    let res = (id, cmds);
    assert(views(t@) == cleaned_tags(e.tags@) && uids.len() == upstream_list(e.upstreams).len()
        && res.1@ == effect_creation_commands(e, t, res.0, now, uids));
    res
}

/// The stored form of a submitted new version of an effect, with `tags` in
/// place of the submitted tags and the license of the stored version.
pub open spec fn updated_effect_record(
    e: UpdateEffect,
    license: Option<String>,
    tags: Vec<String>,
    now: u64,
) -> Effect {
    Effect {
        id: e.id,
        created: now,
        version: e.version,
        title: e.title,
        description: e.description,
        origin: origin_label(e.origin),
        origin_id: origin_value(e.origin),
        homepage: e.homepage,
        tags,
        license,
    }
}

/// The commands that store a new version of an effect: its tags, then the
/// effect, then its upstreams, which belong to the new version.
pub open spec fn effect_update_commands(
    e: UpdateEffect,
    license: Option<String>,
    tags: Vec<String>,
    now: u64,
    upstream_ids: Seq<String>,
) -> Seq<DbCommand> {
    tag_commands(tags@) + seq![DbCommand::UpdateEffect(updated_effect_record(e, license, tags, now))]
        + upstream_commands(upstream_list(e.upstreams), upstream_ids, now, e.id, e.version)
}

/// The commands that store a new version of an effect, keeping the stored
/// `license`, with stored tags `tags`, created at `now`, whose `i`-th
/// upstream gets identifier `upstream_ids[i]`.
pub fn updated_effect_commands(
    e: UpdateEffect,
    license: Option<String>,
    tags: Vec<String>,
    now: u64,
    upstream_ids: Vec<String>,
) -> (cmds: Vec<DbCommand>)
    requires
        upstream_ids@.len() == upstream_list(e.upstreams).len(),
    ensures
        cmds@ == effect_update_commands(e, license, tags, now, upstream_ids@),
{
    let mut cmds = make_tag_commands(&tags);
    let mut ups = make_upstream_commands(e.upstreams, &upstream_ids, now, &e.id, e.version);
    let (origin, origin_id) = match e.origin {
        Some(o) => (o.label, o.value),
        None => (None, None),
    };
    let effect = Effect {
        id: e.id,
        created: now,
        version: e.version,
        title: e.title,
        description: e.description,
        origin,
        origin_id,
        homepage: e.homepage,
        tags,
        license,
    };
    cmds.push(DbCommand::UpdateEffect(effect));
    cmds.append(&mut ups);
    cmds
}

/// Stores a new version of an effect, given what reading the stored effect
/// gave. A failed read is passed on; a version that does not follow the
/// stored one is refused with `InvalidVersion`. Otherwise the new version
/// keeps the stored license, its tags have consecutive repetitions collapsed,
/// and it and each upstream get the current time, the upstreams fresh
/// identifiers. Answers the commands that store the tags, the effect and its
/// upstreams, in this order.
pub fn update_effect(e: UpdateEffect, old: Result<Effect, RepoError>) -> (res: Result<
    Vec<DbCommand>,
    Error,
>)
    requires
        old matches Ok(o) ==> o.version < u64::MAX,
    ensures
        old matches Ok(o) && e.version as int != o.version as int + 1 ==> res == Err::<
            Vec<DbCommand>,
            Error,
        >(Error::Repo(RepoError::InvalidVersion)),
        old matches Ok(o) && e.version as int == o.version as int + 1 ==> res is Ok,
        match old {
            Err(r) => res == Err::<Vec<DbCommand>, Error>(Error::Repo(r)),
            Ok(o) => if !version_follows(o.version, e.version) {
                res == Err::<Vec<DbCommand>, Error>(Error::Repo(RepoError::InvalidVersion))
            } else {
                res matches Ok(cmds) && exists|tags: Vec<String>, now: u64, upstream_ids: Seq<String>|
                    #![trigger effect_update_commands(e, o.license, tags, now, upstream_ids)]
                    views(tags@) == dedup_seq(views(e.tags@))
                    && upstream_ids.len() == upstream_list(e.upstreams).len()
                    && (forall|k: int| 0 <= k < upstream_ids.len() ==> is_simple_id(#[trigger] upstream_ids[k]@))
                    && cmds@ == effect_update_commands(e, o.license, tags, now, upstream_ids)
            },
        },
{
    let old = match old {
        Err(r) => return Err(Error::Repo(r)),
        Ok(o) => o,
    };
    if old.version + 1 != e.version {
        return Err(Error::Repo(RepoError::InvalidVersion));
    }
    let now = now_timestamp();
    let tags = dedup_strings(&e.tags);
    let n = match &e.upstreams {
        Some(v) => v.len(),
        None => 0,
    };
    let upstream_ids = fresh_ids(n);
    let ghost uids = upstream_ids@;
    let ghost t = tags;
    let ghost license = old.license;
    let cmds = updated_effect_commands(e, old.license, tags, now, upstream_ids);
    assert(views(t@) == dedup_seq(views(e.tags@)) && uids.len() == upstream_list(e.upstreams).len()
        && cmds@ == effect_update_commands(e, license, t, now, uids));
    Ok(cmds)
}

} // verus!
