//! Creating and updating entries.

use vstd::prelude::*;
use crate::entities::Entry;
use crate::error::{Error, ParameterError, RepoError};
use crate::text::{clean_tags, cleaned_tags, dedup_seq, dedup_strings, views};
use crate::outside::{is_simple_id, new_id, now_timestamp};
use super::{make_tag_commands, tag_commands, version_follows, DbCommand, NewEntry, UpdateEntry};

verus! {

/// The stored form of a new entry, with `tags` in place of the submitted tags.
pub open spec fn new_entry_record(e: NewEntry, tags: Vec<String>, id: String, now: u64) -> Entry {
    Entry {
        id,
        osm_node: None,
        created: now,
        version: 0,
        title: e.title,
        description: e.description,
        lat: e.lat,
        lng: e.lng,
        street: e.street,
        zip: e.zip,
        city: e.city,
        country: e.country,
        email: e.email,
        telephone: e.telephone,
        homepage: e.homepage,
        categories: e.categories,
        tags,
        license: Some(e.license),
    }
}

/// The commands that store an entry: its tags, then the entry.
pub open spec fn entry_commands(entry: Entry, update: bool) -> Seq<DbCommand> {
    tag_commands(entry.tags@) + seq![
        if update {
            DbCommand::UpdateEntry(entry)
        } else {
            DbCommand::CreateEntry(entry)
        },
    ]
}

/// The stored form of a new entry with identifier `id`, created at `now`,
/// whose stored tags are `tags`.
pub fn build_new_entry(e: NewEntry, tags: Vec<String>, id: String, now: u64) -> (r: Entry)
    ensures
        r == new_entry_record(e, tags, id, now),
{
    Entry {
        id,
        osm_node: None,
        created: now,
        version: 0,
        title: e.title,
        description: e.description,
        lat: e.lat,
        lng: e.lng,
        street: e.street,
        zip: e.zip,
        city: e.city,
        country: e.country,
        email: e.email,
        telephone: e.telephone,
        homepage: e.homepage,
        categories: e.categories,
        tags,
        license: Some(e.license),
    }
}

/// The record of a new entry: its tags cleaned for storage, a fresh
/// identifier, the current time, version 0, no OpenStreetMap node, and the
/// submitted license. The record still has to pass the entry rules (see
/// `new_entry_commands`).
pub fn create_new_entry(e: NewEntry) -> (entry: Entry)
    ensures
        exists|tags: Vec<String>, id: String, now: u64|
            #![trigger new_entry_record(e, tags, id, now)]
            views(tags@) == cleaned_tags(e.tags@) && is_simple_id(id@) && entry == new_entry_record(
                e,
                tags,
                id,
                now,
            ),
{
    let tags = clean_tags(&e.tags);
    let id = new_id();
    let now = now_timestamp();
    let ghost (t, i) = (tags, id);
    let entry = build_new_entry(e, tags, id, now);
    assert(views(t@) == cleaned_tags(e.tags@) && is_simple_id(i@) && entry == new_entry_record(e, t, i, now));
    entry
}

/// The commands that store a new entry, given the verdict of the entry rules
/// on it: a refusal is passed on; otherwise answers the entry's identifier
/// and the commands that create its tags and then the entry.
pub fn new_entry_commands(entry: Entry, verdict: Result<(), ParameterError>) -> (res: Result<
    (String, Vec<DbCommand>),
    Error,
>)
    ensures
        match verdict {
            Err(p) => res == Err::<(String, Vec<DbCommand>), Error>(Error::Parameter(p)),
            Ok(()) => res matches Ok((id, cmds)) && id == entry.id && cmds@ == entry_commands(
                entry,
                false,
            ),
        },
{
    if let Err(p) = verdict {
        return Err(Error::Parameter(p));
    }
    let mut cmds = make_tag_commands(&entry.tags);
    let id = entry.id.clone();
    cmds.push(DbCommand::CreateEntry(entry));
    Ok((id, cmds))
}

/// The stored form of a submitted new version of an entry, with `tags` in
/// place of the submitted tags and the license of the stored version. The
/// submitted OpenStreetMap node is not kept.
pub open spec fn updated_entry_record(
    e: UpdateEntry,
    license: Option<String>,
    tags: Vec<String>,
    now: u64,
) -> Entry {
    Entry {
        id: e.id,
        osm_node: None,
        created: now,
        version: e.version,
        title: e.title,
        description: e.description,
        lat: e.lat,
        lng: e.lng,
        street: e.street,
        zip: e.zip,
        city: e.city,
        country: e.country,
        email: e.email,
        telephone: e.telephone,
        homepage: e.homepage,
        categories: e.categories,
        tags,
        license,
    }
}

/// The stored form of a new version of an entry, keeping the stored
/// `license`, with stored tags `tags`, created at `now`.
pub fn build_updated_entry(e: UpdateEntry, license: Option<String>, tags: Vec<String>, now: u64) -> (r:
    Entry)
    ensures
        r == updated_entry_record(e, license, tags, now),
{
    Entry {
        id: e.id,
        osm_node: None,
        created: now,
        version: e.version,
        title: e.title,
        description: e.description,
        lat: e.lat,
        lng: e.lng,
        street: e.street,
        zip: e.zip,
        city: e.city,
        country: e.country,
        email: e.email,
        telephone: e.telephone,
        homepage: e.homepage,
        categories: e.categories,
        tags,
        license,
    }
}

/// Stores a new version of an entry, given what reading the stored entry
/// gave. A failed read is passed on; a version that does not follow the
/// stored one is refused with `InvalidVersion`. Otherwise the new version
/// keeps the stored license, its tags have consecutive repetitions collapsed,
/// and it gets the current time. Answers the commands that store its tags and
/// then the entry.
pub fn update_entry(e: UpdateEntry, old: Result<Entry, RepoError>) -> (res: Result<
    Vec<DbCommand>,
    Error,
>)
    requires
        old matches Ok(o) ==> o.version < u64::MAX,
    ensures
        old matches Ok(o) && e.version as int != o.version as int + 1 ==> res == Err::<
            Vec<DbCommand>,
            Error,
        >(Error::Repo(RepoError::InvalidVersion)),
        old matches Ok(o) && e.version as int == o.version as int + 1 ==> res is Ok,
        match old {
            Err(r) => res == Err::<Vec<DbCommand>, Error>(Error::Repo(r)),
            Ok(o) => if !version_follows(o.version, e.version) {
                res == Err::<Vec<DbCommand>, Error>(Error::Repo(RepoError::InvalidVersion))
            } else {
                res matches Ok(cmds) && exists|tags: Vec<String>, now: u64|
                    #![trigger updated_entry_record(e, o.license, tags, now)]
                    views(tags@) == dedup_seq(views(e.tags@)) && cmds@ == entry_commands(
                        updated_entry_record(e, o.license, tags, now),
                        true,
                    )
            },
        },
{
    let old = match old {
        Err(r) => return Err(Error::Repo(r)),
        Ok(o) => o,
    };
    if old.version + 1 != e.version {
        return Err(Error::Repo(RepoError::InvalidVersion));
    }
    let tags = dedup_strings(&e.tags);
    let now = now_timestamp();
    let ghost t = tags;
    let ghost license = old.license;
    let entry = build_updated_entry(e, old.license, tags, now);
    let mut cmds = make_tag_commands(&entry.tags);
    cmds.push(DbCommand::UpdateEntry(entry));
    assert(views(t@) == dedup_seq(views(e.tags@)) && cmds@ == entry_commands(
        updated_entry_record(e, license, t, now),
        true,
    ));
    Ok(cmds)
}

} // verus!
