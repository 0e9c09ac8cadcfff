use stargazers::{Store, StoreError};

fn store_with_users(n: u64) -> Store {
    let mut s = Store::new();
    for id in 1..=n {
        assert!(!s.has_user(id));
        s.add_user(id, format!("user{id}"), None, None).unwrap();
        assert!(s.has_user(id));
    }
    s
}

#[test]
fn new_store_is_empty() {
    let s = Store::new();
    assert_eq!(s.user_count(), 0);
    assert_eq!(s.repo_count(), 0);
    assert_eq!(s.repo_edge_count(), 0);
    assert_eq!(s.user_edge_count(), 0);
    assert!(!s.has_user(1));
    assert!(!s.has_repo(1));
}

#[test]
fn add_user_then_present() {
    let mut s = Store::new();
    s.add_user(7, "seven".to_string(), Some("Seven".to_string()), None).unwrap();
    assert!(s.has_user(7));
    assert!(s.has_username(&"seven".to_string()));
    assert!(!s.has_user(8));
    assert_eq!(s.user_count(), 1);
}

#[test]
fn duplicate_username_is_a_conflict() {
    let mut s = Store::new();
    s.add_user(1, "alice".to_string(), None, None).unwrap();
    let r = s.add_user(2, "alice".to_string(), None, None);
    assert_eq!(r, Err(StoreError::UsernameConflict));
    assert_eq!(s.user_count(), 1);
    assert!(!s.has_user(2));
}

#[test]
fn duplicate_full_name_is_a_conflict() {
    let mut s = Store::new();
    s.add_repo(1, "o/r".to_string(), 10).unwrap();
    let r = s.add_repo(2, "o/r".to_string(), 3);
    assert_eq!(r, Err(StoreError::FullNameConflict));
    assert_eq!(s.repo_count(), 1);
    assert!(!s.has_repo(2));
}

#[test]
fn stargazer_reingestion_replaces_edge_with_latest_date() {
    // Writing the same (user, repository) stargazer edge twice leaves one
    // edge carrying the second star time.
    let mut s = Store::new();
    s.add_user(1, "u".to_string(), None, None).unwrap();
    s.add_repo(10, "o/r".to_string(), 1).unwrap();
    s.add_stargazer(1, 10, "2023-01-01 00:00:00 UTC".to_string());
    assert_eq!(s.repo_edge_count(), 1);
    s.add_stargazer(1, 10, "2024-06-30 12:00:00 UTC".to_string());
    assert_eq!(s.repo_edge_count(), 1);
    assert_eq!(s.star_date(1, 10), Some("2024-06-30 12:00:00 UTC".to_string()));
}

#[test]
fn stargazer_and_subscriber_edges_coexist() {
    let mut s = Store::new();
    s.add_user(1, "u".to_string(), None, None).unwrap();
    s.add_repo(10, "o/r".to_string(), 1).unwrap();
    s.add_stargazer(1, 10, "2023-01-01 00:00:00 UTC".to_string());
    s.add_subscriber(1, 10);
    assert_eq!(s.repo_edge_count(), 2);
    s.add_subscriber(1, 10);
    assert_eq!(s.repo_edge_count(), 2);
}

#[test]
fn follower_edge_is_not_duplicated() {
    let mut s = store_with_users(2);
    s.add_follower(1, 2);
    s.add_follower(1, 2);
    assert_eq!(s.user_edge_count(), 1);
    s.add_follower(2, 1);
    assert_eq!(s.user_edge_count(), 2);
}

#[test]
fn top_repos_ranks_by_stargazer_count() {
    // Repositories a (3 stargazer edges), b (5), c (0): the top two are
    // [b, a] with counts [5, 3].
    let mut s = store_with_users(5);
    s.add_repo(1, "o/a".to_string(), 0).unwrap();
    s.add_repo(2, "o/b".to_string(), 0).unwrap();
    s.add_repo(3, "o/c".to_string(), 0).unwrap();
    for u in 1..=3u64 {
        s.add_stargazer(u, 1, format!("2023-01-0{u} 00:00:00 UTC"));
    }
    for u in 1..=5u64 {
        s.add_stargazer(u, 2, format!("2023-02-0{u} 00:00:00 UTC"));
    }
    let top = s.get_top_repos(2);
    assert_eq!(top, vec![("o/b".to_string(), 5), ("o/a".to_string(), 3)]);
}

#[test]
fn top_repos_includes_zero_count_repositories() {
    let mut s = store_with_users(1);
    s.add_repo(1, "o/a".to_string(), 0).unwrap();
    s.add_repo(2, "o/b".to_string(), 0).unwrap();
    s.add_stargazer(1, 2, "2023-01-01 00:00:00 UTC".to_string());
    let top = s.get_top_repos(10);
    assert_eq!(top, vec![("o/b".to_string(), 1), ("o/a".to_string(), 0)]);
}

#[test]
fn top_repos_limit_caps_the_answer() {
    let mut s = store_with_users(1);
    s.add_repo(1, "o/a".to_string(), 0).unwrap();
    s.add_repo(2, "o/b".to_string(), 0).unwrap();
    s.add_repo(3, "o/c".to_string(), 0).unwrap();
    assert_eq!(s.get_top_repos(0).len(), 0);
    assert_eq!(s.get_top_repos(2).len(), 2);
    assert_eq!(s.get_top_repos(9).len(), 3);
}

#[test]
fn top_following_ranks_by_follower_count() {
    let mut s = store_with_users(4);
    // user1 is followed by 2, 3, 4; user2 by 3.
    s.add_follower(1, 2);
    s.add_follower(1, 3);
    s.add_follower(1, 4);
    s.add_follower(2, 3);
    let top = s.get_top_following(2);
    assert_eq!(top, vec![("user1".to_string(), 3), ("user2".to_string(), 1)]);
}

#[test]
fn top_subscribed_ranks_by_subscriber_count() {
    let mut s = store_with_users(3);
    s.add_repo(1, "o/a".to_string(), 0).unwrap();
    s.add_repo(2, "o/b".to_string(), 0).unwrap();
    s.add_subscriber(1, 2);
    s.add_subscriber(2, 2);
    s.add_subscriber(3, 2);
    s.add_subscriber(1, 1);
    // A stargazer edge on a must not count as a subscription.
    s.add_stargazer(2, 1, "2023-01-01 00:00:00 UTC".to_string());
    let top = s.get_top_subscribed(5);
    assert_eq!(top, vec![("o/b".to_string(), 3), ("o/a".to_string(), 1)]);
}

#[test]
fn describe_names_the_violation() {
    assert!(StoreError::UsernameConflict.describe().contains("username"));
    assert!(StoreError::FullNameConflict.describe().contains("full name"));
}
