use openfxdb::entities::{BboxSubscription, Bbox, Comment, Coordinate, Effect, Entry, FloatBits, Rating, RatingContext, Upstream, User};
use openfxdb::text::{clean_tags, dedup_strings, remove_hash_signs};
use openfxdb::usecase::queries::{
    contains_id, get_comments_by_rating_ids, get_effects, get_entries, get_ratings,
    get_ratings_by_entry_ids, get_upstreams,
};
use openfxdb::usecase::search::{search_by_bbox_only, split_search_results, MAX_INVISIBLE_RESULTS};
use openfxdb::usecase::subscriptions::{
    email_addresses_from_subscriptions, get_bbox_subscriptions, unsubscribe_all_bboxes_by_username,
};
use openfxdb::usecase::DbCommand;

fn s(x: &str) -> String {
    x.to_string()
}

fn strings(xs: &[&str]) -> Vec<String> {
    xs.iter().map(|x| x.to_string()).collect()
}

fn rating(id: &str, entry_id: &str) -> Rating {
    Rating {
        id: s(id),
        entry_id: s(entry_id),
        created: 7,
        title: s("title"),
        value: 1,
        context: RatingContext::Fairness,
        source: Some(s("source")),
    }
}

fn entry(id: &str) -> Entry {
    Entry {
        id: s(id),
        osm_node: None,
        created: 1,
        version: 0,
        title: s("t"),
        description: s("d"),
        lat: FloatBits { bits: 1 },
        lng: FloatBits { bits: 2 },
        street: None,
        zip: None,
        city: None,
        country: None,
        email: None,
        telephone: None,
        homepage: None,
        categories: vec![],
        tags: vec![],
        license: None,
    }
}

fn effect(id: &str) -> Effect {
    Effect {
        id: s(id),
        created: 1,
        version: 0,
        title: s("t"),
        description: s("d"),
        origin: None,
        origin_id: None,
        homepage: None,
        tags: vec![],
        license: None,
    }
}

fn upstream(id: &str, effect_id: &str) -> Upstream {
    Upstream {
        id: s(id),
        created: 1,
        effect_id: s(effect_id),
        effect_version: 0,
        upstream_effect: None,
        upstream_effect_id: None,
        number: Some(3),
        transfer_unit: None,
        amount: None,
        comment: None,
    }
}

fn sub(id: &str, user: &str) -> BboxSubscription {
    let c = Coordinate { lat: FloatBits { bits: 0 }, lng: FloatBits { bits: 0 } };
    BboxSubscription { id: s(id), bbox: Bbox { south_west: c, north_east: c }, username: s(user) }
}

fn user(name: &str, email: &str) -> User {
    User { id: s(name), username: s(name), password: s("hash"), email: s(email), email_confirmed: true }
}

#[test]
fn hash_signs_are_removed() {
    assert_eq!(remove_hash_signs(&s("#foo#bar#")), s("foobar"));
    assert_eq!(remove_hash_signs(&s("")), s(""));
    assert_eq!(remove_hash_signs(&s("###")), s(""));
    assert_eq!(remove_hash_signs(&s("plain")), s("plain"));
}

#[test]
fn consecutive_repetitions_collapse() {
    assert_eq!(dedup_strings(&strings(&["a", "a", "b", "a", "a", "c", "c"])), strings(&["a", "b", "a", "c"]));
    assert_eq!(dedup_strings(&strings(&[])), strings(&[]));
    assert_eq!(dedup_strings(&strings(&["x"])), strings(&["x"]));
}

#[test]
fn tags_are_cleaned_then_collapsed() {
    assert_eq!(clean_tags(&strings(&["#bio", "bio", "#fair", "bio"])), strings(&["bio", "fair", "bio"]));
}

#[test]
fn cleaning_clean_tags_changes_nothing() {
    let once = clean_tags(&strings(&["##a", "a#", "b", "#c", "c"]));
    assert_eq!(once, strings(&["a", "b", "c"]));
    assert_eq!(clean_tags(&once), once);
    assert_eq!(dedup_strings(&once), once);
}

#[test]
fn ids_are_looked_up() {
    let ids = strings(&["a", "b"]);
    assert!(contains_id(&ids, &s("b")));
    assert!(!contains_id(&ids, &s("c")));
    assert!(!contains_id(&[], &s("a")));
}

#[test]
fn ratings_are_filtered_by_id() {
    let all = vec![rating("r1", "e1"), rating("r2", "e1"), rating("r3", "e2")];
    let got = get_ratings(all, &strings(&["r3", "r1", "zz"]));
    assert_eq!(got.iter().map(|r| r.id.clone()).collect::<Vec<_>>(), strings(&["r1", "r3"]));
}

#[test]
fn entries_effects_and_upstreams_are_filtered() {
    let got = get_entries(vec![entry("a"), entry("b"), entry("c")], &strings(&["c", "a"]));
    assert_eq!(got.iter().map(|e| e.id.clone()).collect::<Vec<_>>(), strings(&["a", "c"]));
    let got = get_effects(vec![effect("a"), effect("b")], &strings(&["b"]));
    assert_eq!(got.iter().map(|e| e.id.clone()).collect::<Vec<_>>(), strings(&["b"]));
    let got = get_upstreams(vec![upstream("u1", "a"), upstream("u2", "b"), upstream("u3", "a")], &strings(&["a"]));
    assert_eq!(got.iter().map(|u| u.id.clone()).collect::<Vec<_>>(), strings(&["u1", "u3"]));
    assert!(get_entries(vec![entry("a")], &[]).is_empty());
}

#[test]
fn ratings_are_grouped_by_entry() {
    let all = vec![rating("r1", "e1"), rating("r2", "e2"), rating("r3", "e1")];
    let got = get_ratings_by_entry_ids(&all, &strings(&["e1", "e3", "e1"]));
    assert_eq!(got.len(), 3);
    assert_eq!(got[0].0, s("e1"));
    assert_eq!(got[0].1, vec![rating("r1", "e1"), rating("r3", "e1")]);
    assert_eq!(got[1].0, s("e3"));
    assert!(got[1].1.is_empty());
    assert_eq!(got[2], got[0]);
}

#[test]
fn comments_are_grouped_by_rating() {
    let c = |id: &str, r: &str| Comment { id: s(id), created: 1, text: s("text"), rating_id: s(r) };
    let all = vec![c("c1", "r1"), c("c2", "r2"), c("c3", "r1")];
    let got = get_comments_by_rating_ids(&all, &strings(&["r2", "r1"]));
    assert_eq!(got[0], (s("r2"), vec![c("c2", "r2")]));
    assert_eq!(got[1], (s("r1"), vec![c("c1", "r1"), c("c3", "r1")]));
}

#[test]
fn subscriptions_of_a_user() {
    let all = vec![sub("s1", "ann"), sub("s2", "bob"), sub("s3", "ann")];
    let got = get_bbox_subscriptions("ann", all.clone());
    assert_eq!(got, vec![sub("s1", "ann"), sub("s3", "ann")]);
    assert_eq!(
        unsubscribe_all_bboxes_by_username(all, "ann"),
        vec![DbCommand::DeleteBboxSubscription(s("s1")), DbCommand::DeleteBboxSubscription(s("s3"))]
    );
    assert!(unsubscribe_all_bboxes_by_username(vec![sub("s2", "bob")], "ann").is_empty());
}

#[test]
fn subscribers_are_notified_once_in_a_row() {
    let users = vec![user("ann", "a@x"), user("bob", "b@x"), user("cid", "b@x"), user("dan", "d@x")];
    let subs = vec![sub("s1", "ann"), sub("s2", "bob"), sub("s3", "cid"), sub("s4", "zed")];
    assert_eq!(email_addresses_from_subscriptions(users, &subs), strings(&["a@x", "b@x"]));
    assert!(email_addresses_from_subscriptions(vec![user("ann", "a@x")], &[]).is_empty());
}

#[test]
fn search_reads_the_box_only_without_text_and_tags() {
    assert!(search_by_bbox_only("", &[]));
    assert!(!search_by_bbox_only("bio", &[]));
    assert!(!search_by_bbox_only("", &strings(&["bio"])));
}

#[test]
fn search_results_are_split_by_the_box() {
    let items: Vec<u32> = (0..10).collect();
    let flags = [true, false, false, true, false, false, false, false, false, true];
    let (visible, invisible) = split_search_results(items, &flags);
    assert_eq!(visible, vec![0, 3, 9]);
    assert_eq!(invisible, vec![1, 2, 4, 5, 6]);
    assert_eq!(invisible.len(), MAX_INVISIBLE_RESULTS);
    let (visible, invisible) = split_search_results(vec![1u8, 2], &[false, false]);
    assert!(visible.is_empty());
    assert_eq!(invisible, vec![1, 2]);
}

#[test]
fn search_matches_follow_both_rules() {
    use_matches();
}

fn use_matches() {
    let items = vec!['a', 'b', 'c', 'd'];
    assert_eq!(
        openfxdb::usecase::search::search_matches(items.clone(), Some(&[true, false, true, true]), &[true, true, false, true]),
        vec!['a', 'd']
    );
    assert_eq!(openfxdb::usecase::search::search_matches(items, None, &[true, true, false, true]), vec!['a', 'b', 'd']);
}

#[test]
fn unsubscribing_twice_deletes_nothing_the_second_time() {
    let mut store = vec![sub("s1", "ann"), sub("s2", "bob"), sub("s3", "ann")];
    for c in unsubscribe_all_bboxes_by_username(store.clone(), "ann") {
        match c {
            DbCommand::DeleteBboxSubscription(id) => store.retain(|x| x.id != id),
            other => panic!("unexpected {:?}", other),
        }
    }
    assert_eq!(store, vec![sub("s2", "bob")]);
    assert!(unsubscribe_all_bboxes_by_username(store, "ann").is_empty());
}
