//! The ingestion decisions of a crawl: existence-guarded entity inserts,
//! the quick-mode skip policy, and the endpoint-before-edge discipline.
//!
//! Each function records one discovery in the store and reports what was
//! written, so the driver that owns the transport can mirror exactly those
//! writes without deciding anything itself. Entity inserts happen only for
//! identities the store does not hold yet; edges always go through the
//! store's replace-on-conflict upserts. A constraint violation aborts the
//! crawl; the store then still holds everything processed before it.

use vstd::prelude::*;

use crate::store::EdgeKind;
use crate::store::RepoEdge;
use crate::store::RepoRow;
use crate::store::Store;
use crate::store::StoreError;
use crate::store::StoreView;
use crate::store::UserEdge;
use crate::store::UserRow;
use crate::store::upsert_repo_edge;
use crate::store::upsert_user_edge;
use crate::types::Repository;
use crate::types::StarredRepository;
use crate::types::Stargazer;
use crate::types::User;

verus! {

/// What became of one stargazer record.
#[derive(Debug, Clone, Copy, PartialEq, Eq, Structural)]
pub enum StargazerOutcome {
    /// The user was already known and quick mode is on: nothing was
    /// written, and the user's lists are not to be expanded.
    Skipped,
    /// The stargazer edge was upserted and the user's follower, starred and
    /// subscribed lists are to be expanded; `user_added` says whether the
    /// user entity itself was inserted first.
    Expanded { user_added: bool },
}

/// Clones an optional profile field.
fn clone_opt(o: &Option<String>) -> (r: Option<String>)
    ensures
        r == *o,
{
    match o {
        Some(s) => Some(s.clone()),
        None => None,
    }
}

/// Records the crawl's target repository: inserts it when its identity is
/// absent and reports whether it did. A full-name conflict on a fresh
/// identity aborts the crawl.
pub fn ingest_repository(store: &mut Store, repo: &Repository) -> (r: Result<bool, StoreError>)
    requires
        old(store)@.wf(),
    ensures
        final(store)@.wf(),
        old(store)@.has_repo(repo.id) ==> r == Result::<bool, StoreError>::Ok(false)
            && final(store)@ == old(store)@,
        !old(store)@.has_repo(repo.id) && old(store)@.has_full_name(repo.full_name@) ==> r
            == Result::<bool, StoreError>::Err(StoreError::FullNameConflict) && final(store)@
            == old(store)@,
        !old(store)@.has_repo(repo.id) && !old(store)@.has_full_name(repo.full_name@) ==> r
            == Result::<bool, StoreError>::Ok(true) && final(store)@ == (StoreView {
            users: old(store)@.users,
            repos: old(store)@.repos.push(
                RepoRow { id: repo.id, full_name: repo.full_name, stargazers: repo.stargazers_count },
            ),
            repo_edges: old(store)@.repo_edges,
            user_edges: old(store)@.user_edges,
        }),
{
    if store.has_repo(repo.id) {
        Ok(false)
    } else {
        match store.add_repo(repo.id, repo.full_name.clone(), repo.stargazers_count) {
            Ok(()) => Ok(true),
            Err(e) => Err(e),
        }
    }
}

/// Records one stargazer of the target repository.
///
/// A user new to the store is inserted and expanded; a known user under
/// quick mode is skipped entirely — no write, no expansion; a known user
/// with quick mode off has their stargazer edge refreshed and is expanded.
/// Whenever the record is not skipped, the stargazer edge is upserted with
/// the record's star time.
pub fn begin_stargazer(store: &mut Store, repo_id: u32, sg: &Stargazer, quick: bool) -> (r: Result<
    StargazerOutcome,
    StoreError,
>)
    requires
        old(store)@.wf(),
        old(store)@.has_repo(repo_id),
    ensures
        final(store)@.wf(),
        !old(store)@.has_user(sg.user.id) && old(store)@.has_username(sg.user.login@) ==> r
            == Result::<StargazerOutcome, StoreError>::Err(StoreError::UsernameConflict)
            && final(store)@ == old(store)@,
        !old(store)@.has_user(sg.user.id) && !old(store)@.has_username(sg.user.login@) ==> r
            == Result::<StargazerOutcome, StoreError>::Ok(
            StargazerOutcome::Expanded { user_added: true },
        ) && final(store)@ == (StoreView {
            users: old(store)@.users.push(
                UserRow {
                    id: sg.user.id,
                    username: sg.user.login,
                    name: sg.user.name,
                    email: sg.user.email,
                },
            ),
            repos: old(store)@.repos,
            repo_edges: upsert_repo_edge(
                old(store)@.repo_edges,
                RepoEdge {
                    user: sg.user.id,
                    repo: repo_id,
                    kind: EdgeKind::Stargazer,
                    date: Some(sg.starred_at),
                },
            ),
            user_edges: old(store)@.user_edges,
        }),
        old(store)@.has_user(sg.user.id) && quick ==> r == Result::<
            StargazerOutcome,
            StoreError,
        >::Ok(StargazerOutcome::Skipped) && final(store)@ == old(store)@,
        old(store)@.has_user(sg.user.id) && !quick ==> r == Result::<
            StargazerOutcome,
            StoreError,
        >::Ok(StargazerOutcome::Expanded { user_added: false }) && final(store)@ == (StoreView {
            users: old(store)@.users,
            repos: old(store)@.repos,
            repo_edges: upsert_repo_edge(
                old(store)@.repo_edges,
                RepoEdge {
                    user: sg.user.id,
                    repo: repo_id,
                    kind: EdgeKind::Stargazer,
                    date: Some(sg.starred_at),
                },
            ),
            user_edges: old(store)@.user_edges,
        }),
{
    if !store.has_user(sg.user.id) {
        match store.add_user(
            sg.user.id,
            sg.user.login.clone(),
            clone_opt(&sg.user.name),
            clone_opt(&sg.user.email),
        ) {
            Ok(()) => {}
            Err(e) => {
                return Err(e);
            }
        }
        proof {
            assert(store@.users.last().id == sg.user.id);
            assert(store@.has_user(sg.user.id));
        }
        store.add_stargazer(sg.user.id, repo_id, sg.starred_at.clone());
        Ok(StargazerOutcome::Expanded { user_added: true })
    } else if quick {
        Ok(StargazerOutcome::Skipped)
    } else {
        store.add_stargazer(sg.user.id, repo_id, sg.starred_at.clone());
        Ok(StargazerOutcome::Expanded { user_added: false })
    }
}

/// Records one follower of a stargazer: inserts the follower when their
/// identity is absent, then upserts the follower edge from the stargazer to
/// them. Reports whether the follower entity was inserted.
pub fn ingest_follower(store: &mut Store, subject: u64, follower: &User) -> (r: Result<
    bool,
    StoreError,
>)
    requires
        old(store)@.wf(),
        old(store)@.has_user(subject),
    ensures
        final(store)@.wf(),
        !old(store)@.has_user(follower.id) && old(store)@.has_username(follower.login@) ==> r
            == Result::<bool, StoreError>::Err(StoreError::UsernameConflict) && final(store)@
            == old(store)@,
        !old(store)@.has_user(follower.id) && !old(store)@.has_username(follower.login@) ==> r
            == Result::<bool, StoreError>::Ok(true) && final(store)@ == (StoreView {
            users: old(store)@.users.push(
                UserRow {
                    id: follower.id,
                    username: follower.login,
                    name: follower.name,
                    email: follower.email,
                },
            ),
            repos: old(store)@.repos,
            repo_edges: old(store)@.repo_edges,
            user_edges: upsert_user_edge(
                old(store)@.user_edges,
                UserEdge { subject, linked: follower.id },
            ),
        }),
        old(store)@.has_user(follower.id) ==> r == Result::<bool, StoreError>::Ok(false)
            && final(store)@ == (StoreView {
            users: old(store)@.users,
            repos: old(store)@.repos,
            repo_edges: old(store)@.repo_edges,
            user_edges: upsert_user_edge(
                old(store)@.user_edges,
                UserEdge { subject, linked: follower.id },
            ),
        }),
{
    let added: bool;
    if !store.has_user(follower.id) {
        match store.add_user(
            follower.id,
            follower.login.clone(),
            clone_opt(&follower.name),
            clone_opt(&follower.email),
        ) {
            Ok(()) => {}
            Err(e) => {
                return Err(e);
            }
        }
        proof {
            assert(store@.users.last().id == follower.id);
            assert(store@.has_user(follower.id));
            let k = choose|k: int|
                0 <= k < old(store)@.users.len() && old(store)@.users[k].id == subject;
            assert(store@.users[k].id == subject);
            assert(store@.has_user(subject));
        }
        added = true;
    } else {
        added = false;
    }
    store.add_follower(subject, follower.id);
    Ok(added)
}

/// Records one repository from a stargazer's starred list: inserts the
/// repository when its identity is absent, then upserts the stargazer edge
/// with that list entry's own star time. Reports whether the repository
/// entity was inserted.
pub fn ingest_starred(store: &mut Store, user: u64, starred: &StarredRepository) -> (r: Result<
    bool,
    StoreError,
>)
    requires
        old(store)@.wf(),
        old(store)@.has_user(user),
    ensures
        final(store)@.wf(),
        !old(store)@.has_repo(starred.repo.id) && old(store)@.has_full_name(starred.repo.full_name@)
            ==> r == Result::<bool, StoreError>::Err(StoreError::FullNameConflict) && final(store)@
            == old(store)@,
        !old(store)@.has_repo(starred.repo.id) && !old(store)@.has_full_name(
            starred.repo.full_name@,
        ) ==> r == Result::<bool, StoreError>::Ok(true) && final(store)@ == (StoreView {
            users: old(store)@.users,
            repos: old(store)@.repos.push(
                RepoRow {
                    id: starred.repo.id,
                    full_name: starred.repo.full_name,
                    stargazers: starred.repo.stargazers_count,
                },
            ),
            repo_edges: upsert_repo_edge(
                old(store)@.repo_edges,
                RepoEdge {
                    user,
                    repo: starred.repo.id,
                    kind: EdgeKind::Stargazer,
                    date: Some(starred.starred_at),
                },
            ),
            user_edges: old(store)@.user_edges,
        }),
        old(store)@.has_repo(starred.repo.id) ==> r == Result::<bool, StoreError>::Ok(false)
            && final(store)@ == (StoreView {
            users: old(store)@.users,
            repos: old(store)@.repos,
            repo_edges: upsert_repo_edge(
                old(store)@.repo_edges,
                RepoEdge {
                    user,
                    repo: starred.repo.id,
                    kind: EdgeKind::Stargazer,
                    date: Some(starred.starred_at),
                },
            ),
            user_edges: old(store)@.user_edges,
        }),
{
    let added: bool;
    if !store.has_repo(starred.repo.id) {
        match store.add_repo(
            starred.repo.id,
            starred.repo.full_name.clone(),
            starred.repo.stargazers_count,
        ) {
            Ok(()) => {}
            Err(e) => {
                return Err(e);
            }
        }
        proof {
            assert(store@.repos.last().id == starred.repo.id);
            assert(store@.has_repo(starred.repo.id));
            let k = choose|k: int|
                0 <= k < old(store)@.users.len() && old(store)@.users[k].id == user;
            assert(store@.users[k].id == user);
            assert(store@.has_user(user));
        }
        added = true;
    } else {
        added = false;
    }
    store.add_stargazer(user, starred.repo.id, starred.starred_at.clone());
    Ok(added)
}

/// Records one repository from a stargazer's subscriptions: inserts the
/// repository when its identity is absent, then upserts the subscriber
/// edge. Reports whether the repository entity was inserted.
pub fn ingest_subscribed(store: &mut Store, user: u64, repo: &Repository) -> (r: Result<
    bool,
    StoreError,
>)
    requires
        old(store)@.wf(),
        old(store)@.has_user(user),
    ensures
        final(store)@.wf(),
        !old(store)@.has_repo(repo.id) && old(store)@.has_full_name(repo.full_name@) ==> r
            == Result::<bool, StoreError>::Err(StoreError::FullNameConflict) && final(store)@
            == old(store)@,
        !old(store)@.has_repo(repo.id) && !old(store)@.has_full_name(repo.full_name@) ==> r
            == Result::<bool, StoreError>::Ok(true) && final(store)@ == (StoreView {
            users: old(store)@.users,
            repos: old(store)@.repos.push(
                RepoRow { id: repo.id, full_name: repo.full_name, stargazers: repo.stargazers_count },
            ),
            repo_edges: upsert_repo_edge(
                old(store)@.repo_edges,
                RepoEdge { user, repo: repo.id, kind: EdgeKind::Subscriber, date: None },
            ),
            user_edges: old(store)@.user_edges,
        }),
        old(store)@.has_repo(repo.id) ==> r == Result::<bool, StoreError>::Ok(false)
            && final(store)@ == (StoreView {
            users: old(store)@.users,
            repos: old(store)@.repos,
            repo_edges: upsert_repo_edge(
                old(store)@.repo_edges,
                RepoEdge { user, repo: repo.id, kind: EdgeKind::Subscriber, date: None },
            ),
            user_edges: old(store)@.user_edges,
        }),
{
    let added: bool;
    if !store.has_repo(repo.id) {
        match store.add_repo(repo.id, repo.full_name.clone(), repo.stargazers_count) {
            Ok(()) => {}
            Err(e) => {
                return Err(e);
            }
        }
        proof {
            assert(store@.repos.last().id == repo.id);
            assert(store@.has_repo(repo.id));
            let k = choose|k: int|
                0 <= k < old(store)@.users.len() && old(store)@.users[k].id == user;
            assert(store@.users[k].id == user);
            assert(store@.has_user(user));
        }
        added = true;
    } else {
        added = false;
    }
    store.add_subscriber(user, repo.id);
    Ok(added)
}

} // verus!
