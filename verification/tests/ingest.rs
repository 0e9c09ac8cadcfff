use stargazers::{
    begin_stargazer, ingest_follower, ingest_repository, ingest_starred, ingest_subscribed,
    Repository, StargazerOutcome, Stargazer, StarredRepository, Store, StoreError, User,
};

fn user(id: u64, login: &str) -> User {
    User { id, login: login.to_string(), name: None, email: None }
}

fn repo(id: u32, full_name: &str, stars: u32) -> Repository {
    Repository { id, full_name: full_name.to_string(), stargazers_count: stars }
}

fn gazer(id: u64, login: &str, at: &str) -> Stargazer {
    Stargazer { user: user(id, login), starred_at: at.to_string() }
}

#[test]
fn repository_inserted_once() {
    // The target repository is inserted only when absent: the second,
    // identical run reports no insert and changes nothing.
    let mut s = Store::new();
    let r = repo(10, "o/r", 42);
    assert_eq!(ingest_repository(&mut s, &r), Ok(true));
    assert!(s.has_repo(10));
    assert_eq!(ingest_repository(&mut s, &r), Ok(false));
    assert_eq!(s.repo_count(), 1);
}

#[test]
fn stargazer_ingested_twice_leaves_one_edge_with_latest_date() {
    // Two runs over identical responses: one stargazer edge remains for the
    // (user, repository) pair, carrying the second run's star time.
    let mut s = Store::new();
    ingest_repository(&mut s, &repo(10, "o/r", 1)).unwrap();

    let first = gazer(1, "alice", "2023-01-01 00:00:00 UTC");
    assert_eq!(
        begin_stargazer(&mut s, 10, &first, false),
        Ok(StargazerOutcome::Expanded { user_added: true })
    );
    assert_eq!(s.repo_edge_count(), 1);

    let second = gazer(1, "alice", "2024-02-02 00:00:00 UTC");
    assert_eq!(
        begin_stargazer(&mut s, 10, &second, false),
        Ok(StargazerOutcome::Expanded { user_added: false })
    );
    assert_eq!(s.user_count(), 1);
    assert_eq!(s.repo_edge_count(), 1);
    assert_eq!(s.star_date(1, 10), Some("2024-02-02 00:00:00 UTC".to_string()));
}

#[test]
fn quick_mode_skips_known_user_entirely() {
    // A stargazer already present as a user before the run, with quick mode
    // on, is skipped: no edge is written and no expansion is requested.
    let mut s = Store::new();
    ingest_repository(&mut s, &repo(10, "o/r", 1)).unwrap();
    s.add_user(1, "alice".to_string(), None, None).unwrap();

    let sg = gazer(1, "alice", "2023-05-05 00:00:00 UTC");
    assert_eq!(begin_stargazer(&mut s, 10, &sg, true), Ok(StargazerOutcome::Skipped));
    assert_eq!(s.repo_edge_count(), 0);
    assert_eq!(s.user_count(), 1);
    assert_eq!(s.star_date(1, 10), None);
}

#[test]
fn quick_mode_still_expands_new_user() {
    let mut s = Store::new();
    ingest_repository(&mut s, &repo(10, "o/r", 1)).unwrap();
    let sg = gazer(1, "alice", "2023-05-05 00:00:00 UTC");
    assert_eq!(
        begin_stargazer(&mut s, 10, &sg, true),
        Ok(StargazerOutcome::Expanded { user_added: true })
    );
    assert_eq!(s.repo_edge_count(), 1);
}

#[test]
fn known_user_without_quick_mode_is_refreshed() {
    let mut s = Store::new();
    ingest_repository(&mut s, &repo(10, "o/r", 1)).unwrap();
    s.add_user(1, "alice".to_string(), None, None).unwrap();
    let sg = gazer(1, "alice", "2023-05-05 00:00:00 UTC");
    assert_eq!(
        begin_stargazer(&mut s, 10, &sg, false),
        Ok(StargazerOutcome::Expanded { user_added: false })
    );
    assert_eq!(s.repo_edge_count(), 1);
}

#[test]
fn follower_inserted_only_when_absent() {
    let mut s = Store::new();
    s.add_user(1, "subject".to_string(), None, None).unwrap();
    let f = user(2, "fan");
    assert_eq!(ingest_follower(&mut s, 1, &f), Ok(true));
    assert_eq!(ingest_follower(&mut s, 1, &f), Ok(false));
    assert_eq!(s.user_count(), 2);
    assert_eq!(s.user_edge_count(), 1);
}

#[test]
fn follower_username_conflict_aborts_without_edge() {
    let mut s = Store::new();
    s.add_user(1, "subject".to_string(), None, None).unwrap();
    // A different identity under an already-taken username is a store
    // fault; nothing is written.
    let f = user(2, "subject");
    assert_eq!(ingest_follower(&mut s, 1, &f), Err(StoreError::UsernameConflict));
    assert_eq!(s.user_count(), 1);
    assert_eq!(s.user_edge_count(), 0);
}

#[test]
fn starred_repository_inserted_and_edge_written() {
    let mut s = Store::new();
    s.add_user(1, "alice".to_string(), None, None).unwrap();
    let sr = StarredRepository {
        repo: repo(20, "o/starred", 7),
        starred_at: "2023-03-03 00:00:00 UTC".to_string(),
    };
    assert_eq!(ingest_starred(&mut s, 1, &sr), Ok(true));
    assert!(s.has_repo(20));
    assert_eq!(s.star_date(1, 20), Some("2023-03-03 00:00:00 UTC".to_string()));

    let again = StarredRepository {
        repo: repo(20, "o/starred", 7),
        starred_at: "2024-04-04 00:00:00 UTC".to_string(),
    };
    assert_eq!(ingest_starred(&mut s, 1, &again), Ok(false));
    assert_eq!(s.repo_edge_count(), 1);
    assert_eq!(s.star_date(1, 20), Some("2024-04-04 00:00:00 UTC".to_string()));
}

#[test]
fn subscribed_repository_inserted_and_edge_written() {
    let mut s = Store::new();
    s.add_user(1, "alice".to_string(), None, None).unwrap();
    let r = repo(30, "o/watched", 2);
    assert_eq!(ingest_subscribed(&mut s, 1, &r), Ok(true));
    assert_eq!(ingest_subscribed(&mut s, 1, &r), Ok(false));
    assert!(s.has_repo(30));
    assert_eq!(s.repo_edge_count(), 1);
    // A subscription carries no star time.
    assert_eq!(s.star_date(1, 30), None);
}

#[test]
fn full_name_conflict_on_starred_aborts() {
    let mut s = Store::new();
    s.add_user(1, "alice".to_string(), None, None).unwrap();
    s.add_repo(5, "o/r".to_string(), 0).unwrap();
    let sr = StarredRepository {
        repo: repo(6, "o/r", 0),
        starred_at: "2023-01-01 00:00:00 UTC".to_string(),
    };
    assert_eq!(ingest_starred(&mut s, 1, &sr), Err(StoreError::FullNameConflict));
    assert_eq!(s.repo_count(), 1);
    assert_eq!(s.repo_edge_count(), 0);
}
