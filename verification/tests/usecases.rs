use openfxdb::entities::{Bbox, BboxSubscription, Coordinate, Effect, Entry, FloatBits, Rating, RatingContext, Tag, User};
use openfxdb::error::{Error, ParameterError, RepoError};
use openfxdb::json;
use openfxdb::usecase::effects::{create_new_effect, update_effect};
use openfxdb::usecase::entries::{create_new_entry, new_entry_commands, update_entry};
use openfxdb::usecase::queries::{get_comments_by_rating_ids, get_ratings_by_entry_ids};
use openfxdb::usecase::ratings::rate_entry;
use openfxdb::usecase::subscriptions::{bbox_from_coordinates, subscribe_to_bbox};
use openfxdb::usecase::users::{create_new_user, delete_user, get_user, login, login_decision};
use openfxdb::usecase::{
    DbCommand, Login, NewEffect, NewEntry, NewOrigin, NewUpstream, NewUpstreamEffect, NewUser,
    RateEntry, UpdateEffect, UpdateEntry,
};

fn s(x: &str) -> String {
    x.to_string()
}

fn strings(xs: &[&str]) -> Vec<String> {
    xs.iter().map(|x| x.to_string()).collect()
}

fn is_simple_uuid(id: &str) -> bool {
    id.len() == 32 && id.chars().all(|c| c.is_ascii_digit() || ('a'..='f').contains(&c))
}

fn new_effect() -> NewEffect {
    NewEffect {
        title: s("Bread"),
        description: s("Sourdough"),
        origin: Some(NewOrigin { label: Some(s("Bakery")), value: Some(s("b-1")) }),
        homepage: Some(s("https://bread.example")),
        tags: strings(&["#bio", "bio", "#local"]),
        upstreams: Some(vec![
            NewUpstream {
                upstreamNo: 1,
                upstreamEffect: Some(NewUpstreamEffect { label: Some(s("Flour")), value: Some(s("f-1")) }),
                upstreamTransferUnit: Some(s("kg")),
                upstreamAmount: FloatBits { bits: 4611686018427387904 },
                upstreamComment: Some(s("organic")),
            },
            NewUpstream {
                upstreamNo: 2,
                upstreamEffect: None,
                upstreamTransferUnit: None,
                upstreamAmount: FloatBits { bits: 0 },
                upstreamComment: None,
            },
        ]),
        license: s("CC0-1.0"),
    }
}

fn stored_effect(version: u64) -> Effect {
    Effect {
        id: s("e1"),
        created: 5,
        version,
        title: s("old"),
        description: s("old"),
        origin: None,
        origin_id: None,
        homepage: None,
        tags: vec![],
        license: Some(s("ODbL-1.0")),
    }
}

fn update_effect_request(version: u64) -> UpdateEffect {
    UpdateEffect {
        id: s("e1"),
        version,
        title: s("new"),
        description: s("newer"),
        origin: None,
        homepage: None,
        tags: strings(&["a", "a", "#b"]),
        upstreams: Some(vec![NewUpstream {
            upstreamNo: 9,
            upstreamEffect: None,
            upstreamTransferUnit: None,
            upstreamAmount: FloatBits { bits: 1 },
            upstreamComment: None,
        }]),
    }
}

fn new_entry() -> NewEntry {
    NewEntry {
        title: s("Shop"),
        description: s("Fair shop"),
        lat: FloatBits { bits: 10 },
        lng: FloatBits { bits: 20 },
        street: Some(s("Main St")),
        zip: None,
        city: Some(s("Town")),
        country: None,
        email: Some(s("shop@example.org")),
        telephone: None,
        homepage: None,
        categories: strings(&["c1"]),
        tags: strings(&["#fair", "fair", "#shop"]),
        license: s("CC0-1.0"),
    }
}

fn stored_entry(version: u64) -> Entry {
    Entry {
        id: s("n1"),
        osm_node: Some(42),
        created: 1,
        version,
        title: s("old"),
        description: s("old"),
        lat: FloatBits { bits: 1 },
        lng: FloatBits { bits: 2 },
        street: None,
        zip: None,
        city: None,
        country: None,
        email: None,
        telephone: None,
        homepage: None,
        categories: vec![],
        tags: vec![],
        license: Some(s("CC0-1.0")),
    }
}

fn update_entry_request(version: u64) -> UpdateEntry {
    UpdateEntry {
        id: s("n1"),
        osm_node: Some(7),
        version,
        title: s("new"),
        description: s("new"),
        lat: FloatBits { bits: 3 },
        lng: FloatBits { bits: 4 },
        street: None,
        zip: None,
        city: None,
        country: None,
        email: None,
        telephone: None,
        homepage: None,
        categories: vec![],
        tags: strings(&["x", "x", "#y"]),
    }
}

fn tag(t: &str) -> DbCommand {
    DbCommand::CreateTagIfNotExists(Tag { id: s(t) })
}

#[test]
fn creating_an_effect_stores_tags_effect_and_upstreams() {
    let (id, cmds) = create_new_effect(new_effect());
    assert!(is_simple_uuid(&id));
    assert_eq!(cmds.len(), 5);
    assert_eq!(cmds[0], tag("bio"));
    assert_eq!(cmds[1], tag("local"));
    let effect = match &cmds[2] {
        DbCommand::CreateEffect(e) => e.clone(),
        other => panic!("unexpected {:?}", other),
    };
    assert_eq!(effect.id, id);
    assert_eq!(effect.version, 0);
    assert_eq!(effect.title, s("Bread"));
    assert_eq!(effect.origin, Some(s("Bakery")));
    assert_eq!(effect.origin_id, Some(s("b-1")));
    assert_eq!(effect.tags, strings(&["bio", "local"]));
    assert_eq!(effect.license, Some(s("CC0-1.0")));
    assert!(effect.created > 1_500_000_000);
    match (&cmds[3], &cmds[4]) {
        (DbCommand::CreateUpstream(u1), DbCommand::CreateUpstream(u2)) => {
            assert_eq!(u1.effect_id, id);
            assert_eq!(u1.effect_version, 0);
            assert_eq!(u1.created, effect.created);
            assert_eq!(u1.upstream_effect, Some(s("Flour")));
            assert_eq!(u1.upstream_effect_id, Some(s("f-1")));
            assert_eq!(u1.number, Some(1));
            assert_eq!(u1.transfer_unit, Some(s("kg")));
            assert_eq!(u1.amount, Some(FloatBits { bits: 4611686018427387904 }));
            assert_eq!(u1.comment, Some(s("organic")));
            assert_eq!(u2.upstream_effect, None);
            assert_eq!(u2.number, Some(2));
            assert!(is_simple_uuid(&u1.id) && is_simple_uuid(&u2.id));
            assert_ne!(u1.id, u2.id);
            assert_ne!(u1.id, id);
        }
        other => panic!("unexpected {:?}", other),
    }
}

#[test]
fn an_effect_without_upstreams_or_origin() {
    let mut e = new_effect();
    e.upstreams = None;
    e.origin = None;
    e.tags = vec![];
    let (_, cmds) = create_new_effect(e);
    assert_eq!(cmds.len(), 1);
    match &cmds[0] {
        DbCommand::CreateEffect(eff) => {
            assert_eq!(eff.origin, None);
            assert_eq!(eff.origin_id, None);
        }
        other => panic!("unexpected {:?}", other),
    }
}

#[test]
fn updating_an_effect_needs_the_next_version() {
    assert_eq!(
        update_effect(update_effect_request(3), Ok(stored_effect(3))),
        Err(Error::Repo(RepoError::InvalidVersion))
    );
    assert_eq!(
        update_effect(update_effect_request(5), Ok(stored_effect(3))),
        Err(Error::Repo(RepoError::InvalidVersion))
    );
    assert_eq!(
        update_effect(update_effect_request(4), Err(RepoError::NotFound)),
        Err(Error::Repo(RepoError::NotFound))
    );
}

#[test]
fn updating_an_effect_keeps_its_license() {
    let cmds = update_effect(update_effect_request(4), Ok(stored_effect(3))).unwrap();
    assert_eq!(cmds.len(), 4);
    assert_eq!(cmds[0], tag("a"));
    assert_eq!(cmds[1], tag("#b"));
    match (&cmds[2], &cmds[3]) {
        (DbCommand::UpdateEffect(e), DbCommand::CreateUpstream(u)) => {
            assert_eq!(e.id, s("e1"));
            assert_eq!(e.version, 4);
            assert_eq!(e.title, s("new"));
            assert_eq!(e.tags, strings(&["a", "#b"]));
            assert_eq!(e.license, Some(s("ODbL-1.0")));
            assert_eq!(u.effect_id, s("e1"));
            assert_eq!(u.effect_version, 4);
            assert_eq!(u.number, Some(9));
        }
        other => panic!("unexpected {:?}", other),
    }
}

#[test]
fn an_effect_update_cannot_be_replayed() {
    let cmds = update_effect(update_effect_request(4), Ok(stored_effect(3))).unwrap();
    let stored = match &cmds[2] {
        DbCommand::UpdateEffect(e) => e.clone(),
        other => panic!("unexpected {:?}", other),
    };
    assert_eq!(
        update_effect(update_effect_request(4), Ok(stored.clone())),
        Err(Error::Repo(RepoError::InvalidVersion))
    );
    assert!(update_effect(update_effect_request(5), Ok(stored)).is_ok());
}

#[test]
fn creating_an_entry_builds_a_version_zero_record() {
    let entry = create_new_entry(new_entry());
    assert!(is_simple_uuid(&entry.id));
    assert_eq!(entry.version, 0);
    assert_eq!(entry.osm_node, None);
    assert_eq!(entry.tags, strings(&["fair", "shop"]));
    assert_eq!(entry.license, Some(s("CC0-1.0")));
    assert_eq!(entry.lat, FloatBits { bits: 10 });
    assert_eq!(entry.street, Some(s("Main St")));
    let (id, cmds) = new_entry_commands(entry.clone(), Ok(())).unwrap();
    assert_eq!(id, entry.id);
    assert_eq!(cmds, vec![tag("fair"), tag("shop"), DbCommand::CreateEntry(entry.clone())]);
}

#[test]
fn an_entry_refused_by_the_rules_is_not_stored() {
    let entry = create_new_entry(new_entry());
    assert_eq!(new_entry_commands(entry, Err(ParameterError::Email)), Err(Error::Parameter(ParameterError::Email)));
}

#[test]
fn updating_an_entry() {
    assert_eq!(
        update_entry(update_entry_request(1), Ok(stored_entry(1))),
        Err(Error::Repo(RepoError::InvalidVersion))
    );
    assert_eq!(
        update_entry(update_entry_request(2), Err(RepoError::Backend(s("down")))),
        Err(Error::Repo(RepoError::Backend(s("down"))))
    );
    let cmds = update_entry(update_entry_request(2), Ok(stored_entry(1))).unwrap();
    assert_eq!(cmds.len(), 3);
    assert_eq!(cmds[0], tag("x"));
    assert_eq!(cmds[1], tag("#y"));
    match &cmds[2] {
        DbCommand::UpdateEntry(e) => {
            assert_eq!(e.version, 2);
            assert_eq!(e.osm_node, None);
            assert_eq!(e.license, Some(s("CC0-1.0")));
            assert_eq!(e.lat, FloatBits { bits: 3 });
            assert_eq!(e.tags, strings(&["x", "#y"]));
        }
        other => panic!("unexpected {:?}", other),
    }
}

#[test]
fn a_new_entry_accepts_version_one_only() {
    let entry = create_new_entry(new_entry());
    let mut first = update_entry_request(1);
    first.id = entry.id.clone();
    assert!(update_entry(first, Ok(entry.clone())).is_ok());
    assert_eq!(update_entry(update_entry_request(0), Ok(entry.clone())), Err(Error::Repo(RepoError::InvalidVersion)));
    assert_eq!(update_entry(update_entry_request(2), Ok(entry)), Err(Error::Repo(RepoError::InvalidVersion)));
}

fn rate_request(value: i8, comment: &str) -> RateEntry {
    RateEntry {
        entry: s("n1"),
        title: s("Nice"),
        value,
        context: RatingContext::Humanity,
        comment: s(comment),
        source: Some(s("visit")),
        user: None,
    }
}

#[test]
fn rating_an_entry() {
    let cmds = rate_entry(rate_request(2, "great"), Ok(stored_entry(0))).unwrap();
    assert_eq!(cmds.len(), 2);
    match (&cmds[0], &cmds[1]) {
        (DbCommand::CreateRating(r), DbCommand::CreateComment(c)) => {
            assert_eq!(r.entry_id, s("n1"));
            assert_eq!(r.value, 2);
            assert_eq!(r.title, s("Nice"));
            assert_eq!(r.context, RatingContext::Humanity);
            assert_eq!(r.source, Some(s("visit")));
            assert_eq!(c.rating_id, r.id);
            assert_eq!(c.text, s("great"));
            assert_eq!(c.created, r.created);
            assert_ne!(c.id, r.id);
        }
        other => panic!("unexpected {:?}", other),
    }
    assert!(rate_entry(rate_request(-1, "meh"), Ok(stored_entry(0))).is_ok());
}

#[test]
fn ratings_are_checked() {
    assert_eq!(rate_entry(rate_request(1, ""), Ok(stored_entry(0))), Err(Error::Parameter(ParameterError::EmptyComment)));
    assert_eq!(rate_entry(rate_request(3, "x"), Ok(stored_entry(0))), Err(Error::Parameter(ParameterError::RatingValue)));
    assert_eq!(rate_entry(rate_request(-2, "x"), Ok(stored_entry(0))), Err(Error::Parameter(ParameterError::RatingValue)));
    assert_eq!(rate_entry(rate_request(9, ""), Err(RepoError::NotFound)), Err(Error::Repo(RepoError::NotFound)));
    assert_eq!(rate_entry(rate_request(9, ""), Ok(stored_entry(0))), Err(Error::Parameter(ParameterError::EmptyComment)));
}

fn new_user() -> NewUser {
    NewUser { username: s("ann"), password: s("secret123"), email: s("ann@example.org") }
}

#[test]
fn registering_checks_the_rules_in_order() {
    let refused = |p| Err(p);
    assert_eq!(
        create_new_user(new_user(), refused(ParameterError::UserName), refused(ParameterError::Password), Ok(()), Err(RepoError::NotFound)),
        Err(Error::Parameter(ParameterError::UserName))
    );
    assert_eq!(
        create_new_user(new_user(), Ok(()), refused(ParameterError::Password), refused(ParameterError::Email), Err(RepoError::NotFound)),
        Err(Error::Parameter(ParameterError::Password))
    );
    assert_eq!(
        create_new_user(new_user(), Ok(()), Ok(()), refused(ParameterError::Email), Err(RepoError::NotFound)),
        Err(Error::Parameter(ParameterError::Email))
    );
}

fn existing_user(confirmed: bool) -> User {
    User { id: s("u1"), username: s("ann"), password: s("h"), email: s("ann@example.org"), email_confirmed: confirmed }
}

#[test]
fn registering_an_existing_name_is_refused() {
    assert_eq!(
        create_new_user(new_user(), Ok(()), Ok(()), Ok(()), Ok(existing_user(true))),
        Err(Error::Parameter(ParameterError::UserExists))
    );
}

#[test]
fn a_new_user_logs_in_only_after_confirming() {
    let cmds = create_new_user(new_user(), Ok(()), Ok(()), Ok(()), Err(RepoError::NotFound)).unwrap();
    assert_eq!(cmds.len(), 1);
    let created = match &cmds[0] {
        DbCommand::CreateUser(u) => u.clone(),
        other => panic!("unexpected {:?}", other),
    };
    assert!(is_simple_uuid(&created.id));
    assert_eq!(created.username, s("ann"));
    assert_eq!(created.email, s("ann@example.org"));
    assert!(!created.email_confirmed);
    assert_ne!(created.password, s("secret123"));
    let right = Login::new(s("ann"), s("secret123"));
    let wrong = Login::new(s("ann"), s("guess"));
    assert_eq!(login(Ok(created.clone()), &right), Err(Error::Parameter(ParameterError::EmailNotConfirmed)));
    assert_eq!(login(Ok(created.clone()), &wrong), Err(Error::Parameter(ParameterError::Credentials)));
    let mut confirmed = created;
    confirmed.email_confirmed = true;
    assert_eq!(login(Ok(confirmed.clone()), &right), Ok(s("ann")));
    assert_eq!(login(Ok(confirmed), &wrong), Err(Error::Parameter(ParameterError::Credentials)));
}

#[test]
fn login_failures_of_the_read() {
    let l = Login::new(s("ann"), s("pw"));
    assert_eq!(login(Err(RepoError::NotFound), &l), Err(Error::Parameter(ParameterError::Credentials)));
    assert_eq!(
        login(Err(RepoError::Backend(s("io"))), &l),
        Err(Error::Repo(RepoError::Other(Box::new(RepoError::Backend(s("io"))))))
    );
}

#[test]
fn login_decisions() {
    let l = Login::new(s("ann"), s("pw"));
    assert_eq!(login_decision(Ok(existing_user(true)), &l, true), Ok(s("ann")));
    assert_eq!(login_decision(Ok(existing_user(false)), &l, true), Err(Error::Parameter(ParameterError::EmailNotConfirmed)));
    assert_eq!(login_decision(Ok(existing_user(true)), &l, false), Err(Error::Parameter(ParameterError::Credentials)));
    assert_eq!(l.username(), &s("ann"));
    assert_eq!(l.password(), &s("pw"));
}

#[test]
fn users_read_and_delete_only_themselves() {
    assert_eq!(get_user(Ok(existing_user(true)), "ann", "ann"), Ok((s("ann"), s("ann@example.org"))));
    assert_eq!(get_user(Ok(existing_user(true)), "bob", "ann"), Err(Error::Parameter(ParameterError::Forbidden)));
    assert_eq!(get_user(Err(RepoError::NotFound), "bob", "ann"), Err(Error::Repo(RepoError::NotFound)));
    assert_eq!(delete_user("ann", "ann"), Ok(vec![DbCommand::DeleteUser(s("ann"))]));
    assert_eq!(delete_user("ann", "bob"), Err(Error::Parameter(ParameterError::Forbidden)));
}

fn coord(a: u64, b: u64) -> Coordinate {
    Coordinate { lat: FloatBits { bits: a }, lng: FloatBits { bits: b } }
}

fn subscription(id: &str, user: &str) -> BboxSubscription {
    BboxSubscription { id: s(id), bbox: Bbox { south_west: coord(0, 0), north_east: coord(1, 1) }, username: s(user) }
}

#[test]
fn subscribing_replaces_existing_subscriptions() {
    let coords = [coord(1, 2), coord(3, 4)];
    let store = vec![subscription("s1", "ann"), subscription("s2", "bob"), subscription("s3", "ann")];
    let cmds = subscribe_to_bbox(&coords, "ann", Ok(()), Ok(store)).unwrap();
    assert_eq!(cmds.len(), 3);
    assert_eq!(cmds[0], DbCommand::DeleteBboxSubscription(s("s1")));
    assert_eq!(cmds[1], DbCommand::DeleteBboxSubscription(s("s3")));
    match &cmds[2] {
        DbCommand::CreateBboxSubscription(sub) => {
            assert_eq!(sub.username, s("ann"));
            assert_eq!(sub.bbox, Bbox { south_west: coord(1, 2), north_east: coord(3, 4) });
            assert!(is_simple_uuid(&sub.id));
        }
        other => panic!("unexpected {:?}", other),
    }
}

#[test]
fn subscribing_needs_two_coordinates_and_a_valid_box() {
    assert_eq!(bbox_from_coordinates(&[coord(1, 2)]), None);
    assert_eq!(bbox_from_coordinates(&[coord(1, 2), coord(3, 4)]), Some(Bbox { south_west: coord(1, 2), north_east: coord(3, 4) }));
    assert_eq!(subscribe_to_bbox(&[coord(1, 2)], "ann", Ok(()), Ok(vec![])), Err(Error::Parameter(ParameterError::Bbox)));
    assert_eq!(subscribe_to_bbox(&[], "ann", Err(ParameterError::Email), Err(RepoError::NotFound)), Err(Error::Parameter(ParameterError::Bbox)));
    assert_eq!(
        subscribe_to_bbox(&[coord(1, 1), coord(1, 1)], "ann", Err(ParameterError::Bbox), Err(RepoError::NotFound)),
        Err(Error::Parameter(ParameterError::Bbox))
    );
    assert_eq!(
        subscribe_to_bbox(&[coord(1, 1), coord(2, 2)], "ann", Ok(()), Err(RepoError::NotFound)),
        Err(Error::Repo(RepoError::NotFound))
    );
}

#[test]
fn json_forms_list_rating_ids() {
    let r = |id: &str| Rating { id: s(id), entry_id: s("n1"), created: 1, title: s("t"), value: 0, context: RatingContext::Diversity, source: None };
    let e = stored_entry(3);
    let j = json::Entry::from_entry_with_ratings(e.clone(), vec![r("r1"), r("r2")]);
    assert_eq!(j.id, e.id);
    assert_eq!(j.version, 3);
    assert_eq!(j.lat, e.lat);
    assert_eq!(j.license, e.license);
    assert_eq!(j.ratings, strings(&["r1", "r2"]));
    let f = stored_effect(2);
    let k = json::Effect::from_effect_with_ratings(f.clone(), vec![r("r9")]);
    assert_eq!(k.id, f.id);
    assert_eq!(k.origin, f.origin);
    assert_eq!(k.license, f.license);
    assert_eq!(k.ratings, strings(&["r9"]));
    assert!(json::Effect::from_effect_with_ratings(f, vec![]).ratings.is_empty());
}

#[test]
fn after_subscribing_the_user_holds_only_the_new_subscription() {
    let coords = [coord(5, 6), coord(7, 8)];
    let mut store = vec![subscription("s1", "ann"), subscription("s2", "bob"), subscription("s3", "ann")];
    let cmds = subscribe_to_bbox(&coords, "ann", Ok(()), Ok(store.clone())).unwrap();
    for c in cmds {
        match c {
            DbCommand::DeleteBboxSubscription(id) => store.retain(|s| s.id != id),
            DbCommand::CreateBboxSubscription(s) => store.push(s),
            other => panic!("unexpected {:?}", other),
        }
    }
    let anns: Vec<&BboxSubscription> = store.iter().filter(|s| s.username == "ann").collect();
    assert_eq!(anns.len(), 1);
    assert_eq!(anns[0].bbox, Bbox { south_west: coord(5, 6), north_east: coord(7, 8) });
    assert_eq!(store.iter().filter(|s| s.username == "bob").count(), 1);
}

#[test]
fn a_stored_rating_and_its_comment_are_found() {
    let cmds = rate_entry(rate_request(0, "ok"), Ok(stored_entry(0))).unwrap();
    let (rating, comment) = match (&cmds[0], &cmds[1]) {
        (DbCommand::CreateRating(r), DbCommand::CreateComment(c)) => (r.clone(), c.clone()),
        other => panic!("unexpected {:?}", other),
    };
    let by_entry = get_ratings_by_entry_ids(&vec![rating.clone()], &strings(&["n1"]));
    assert_eq!(by_entry[0].1, vec![rating.clone()]);
    let by_rating = get_comments_by_rating_ids(&vec![comment.clone()], &[rating.id.clone()]);
    assert_eq!(by_rating[0].1, vec![comment]);
}

#[test]
fn refusals_of_the_rules_are_passed_on() {
    let entry = create_new_entry(new_entry());
    assert_eq!(new_entry_commands(entry.clone(), Err(ParameterError::License)), Err(Error::Parameter(ParameterError::License)));
    assert_eq!(new_entry_commands(entry, Err(ParameterError::Url)), Err(Error::Parameter(ParameterError::Url)));
    assert_eq!(
        create_new_user(new_user(), Ok(()), Ok(()), Err(ParameterError::Url), Ok(existing_user(true))),
        Err(Error::Parameter(ParameterError::Url))
    );
}

#[test]
fn hashes_bcrypt_cannot_read_are_rejected() {
    let mut bad_salt = existing_user(true);
    bad_salt.password = format!("$2b$10$\u{80}{}", "a".repeat(20));
    let l = Login::new(s("ann"), s("pw"));
    assert_eq!(login(Ok(bad_salt), &l), Err(Error::Parameter(ParameterError::Credentials)));
    let mut control = existing_user(true);
    control.password = format!("$2b$10$\u{1}{}", "a".repeat(52));
    assert_eq!(login(Ok(control), &l), Err(Error::Parameter(ParameterError::Credentials)));
}

#[test]
fn hash_characters_are_checked() {
    use_check("$2b$10$abcdefghijklmnopqrstuv0123456789ABCDEFGHIJKLMNOPQRS", true);
    use_check("$2b$10$\u{80}", false);
    use_check("\u{1f}", false);
    use_check(" \u{7f}", true);
    use_check("", true);
}

fn use_check(h: &str, expected: bool) {
    assert_eq!(openfxdb::outside::check_hash_chars(h), expected);
}
