//! Rating entries.

use vstd::prelude::*;
use crate::entities::{Comment, Entry, Rating};
use crate::error::{Error, ParameterError, RepoError};
use crate::outside::{is_simple_id, new_id, now_timestamp};
use super::{DbCommand, RateEntry};

verus! {

/// The values a rating may take: from -1 to 2.
pub open spec fn rating_value_allowed(value: i8) -> bool {
    -1 <= value <= 2
}

/// The commands that store a rating of entry `entry_id` and its comment, both
/// created at `now`.
pub open spec fn rating_commands(
    r: RateEntry,
    entry_id: String,
    rating_id: String,
    comment_id: String,
    now: u64,
) -> Seq<DbCommand> {
    seq![
        DbCommand::CreateRating(
            Rating {
                id: rating_id,
                entry_id,
                created: now,
                title: r.title,
                value: r.value,
                context: r.context,
                source: r.source,
            },
        ),
        DbCommand::CreateComment(
            Comment { id: comment_id, created: now, text: r.comment, rating_id },
        ),
    ]
}

/// The commands that store a rating of entry `entry_id` with identifier
/// `rating_id` and its comment with identifier `comment_id`.
pub fn make_rating_commands(
    r: RateEntry,
    entry_id: String,
    rating_id: String,
    comment_id: String,
    now: u64,
) -> (cmds: Vec<DbCommand>)
    ensures
        cmds@ == rating_commands(r, entry_id, rating_id, comment_id, now),
{
    let rating = Rating {
        id: rating_id.clone(),
        entry_id,
        created: now,
        title: r.title,
        value: r.value,
        context: r.context,
        source: r.source,
    };
    let comment = Comment { id: comment_id, created: now, text: r.comment, rating_id };
    vec![DbCommand::CreateRating(rating), DbCommand::CreateComment(comment)]
}

/// Rates an entry, given what reading the rated entry gave. A failed read is
/// passed on; an empty comment is refused with `EmptyComment`, a value
/// outside -1..=2 with `RatingValue`. Otherwise answers the commands that
/// store the rating and then its comment, with fresh identifiers and the
/// current time.
pub fn rate_entry(r: RateEntry, entry: Result<Entry, RepoError>) -> (res: Result<Vec<DbCommand>, Error>)
    ensures
        entry is Ok && r.comment@.len() > 0 && -1 <= r.value && r.value <= 2 ==> res is Ok,
        entry is Ok && r.comment@.len() > 0 && (r.value < -1 || r.value > 2) ==> res == Err::<
            Vec<DbCommand>,
            Error,
        >(Error::Parameter(ParameterError::RatingValue)),
        match entry {
            Err(e) => res == Err::<Vec<DbCommand>, Error>(Error::Repo(e)),
            Ok(en) => if r.comment@.len() == 0 {
                res == Err::<Vec<DbCommand>, Error>(Error::Parameter(ParameterError::EmptyComment))
            } else if !rating_value_allowed(r.value) {
                res == Err::<Vec<DbCommand>, Error>(Error::Parameter(ParameterError::RatingValue))
            } else {
                res matches Ok(cmds) && exists|rating_id: String, comment_id: String, now: u64|
                    #![trigger rating_commands(r, en.id, rating_id, comment_id, now)]
                    is_simple_id(rating_id@) && is_simple_id(comment_id@) && cmds@ == rating_commands(
                        r,
                        en.id,
                        rating_id,
                        comment_id,
                        now,
                    )
            },
        },
{
    let e = match entry {
        Err(e) => return Err(Error::Repo(e)),
        Ok(e) => e,
    };
    if r.comment.as_str().is_empty() {
        return Err(Error::Parameter(ParameterError::EmptyComment));
    }
    if r.value > 2 || r.value < -1 {
        return Err(Error::Parameter(ParameterError::RatingValue));
    }
    let now = now_timestamp();
    let rating_id = new_id();
    let comment_id = new_id();
    let ghost (rid, cid) = (rating_id, comment_id);
    let cmds = make_rating_commands(r, e.id, rating_id, comment_id, now);
    assert(is_simple_id(rid@) && is_simple_id(cid@) && cmds@ == rating_commands(r, e.id, rid, cid, now));
    Ok(cmds)
}

} // verus!
