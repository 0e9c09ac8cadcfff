//! The relational store model: four tables, existence-guarded entity
//! inserts, replace-on-conflict edge upserts, and the aggregate ranking
//! queries over the harvested graph.
//!
//! Entities (users and repositories) are immutable once created and are
//! inserted only after an existence check; edges are refreshable and keyed
//! by their natural unique key, so re-ingestion replaces rather than
//! duplicates. Every edge endpoint must already exist as an entity.

use vstd::multiset::Multiset;
use vstd::prelude::*;

verus! {

/// A persisted user: platform identity plus profile fields.
#[derive(Debug, Clone)]
pub struct UserRow {
    pub id: u64,
    pub username: String,
    pub name: Option<String>,
    pub email: Option<String>,
}

/// A persisted repository: identity, unique full name, and the stargazer
/// count snapshot taken at ingestion time.
#[derive(Debug, Clone)]
pub struct RepoRow {
    pub id: u32,
    pub full_name: String,
    pub stargazers: u32,
}

/// The tag on a user-to-repository edge.
#[derive(Debug, Clone, Copy, PartialEq, Eq, Structural)]
pub enum EdgeKind {
    /// The user has starred the repository; the edge carries the star time.
    Stargazer,
    /// The user watches the repository; no timestamp.
    Subscriber,
}

/// A directed user-to-repository edge, unique per (user, repository, kind).
#[derive(Debug, Clone)]
pub struct RepoEdge {
    pub user: u64,
    pub repo: u32,
    pub kind: EdgeKind,
    pub date: Option<String>,
}

/// A directed follower edge from a subject user to the user following them,
/// unique per (subject, linked).
#[derive(Debug, Clone, Copy, PartialEq, Eq, Structural)]
pub struct UserEdge {
    pub subject: u64,
    pub linked: u64,
}

/// A constraint violation reported by the store; it aborts the crawl run.
#[derive(Debug, Clone, Copy, PartialEq, Eq, Structural)]
pub enum StoreError {
    /// A new user carries a username another user already holds.
    UsernameConflict,
    /// A new repository carries a full name another repository already holds.
    FullNameConflict,
}

impl StoreError {
    /// A short human-readable account of the violation.
    pub fn describe(&self) -> String {
        match self {
            StoreError::UsernameConflict => "username already taken by another user".to_owned(),
            StoreError::FullNameConflict => "full name already taken by another repository".to_owned(),
        }
    }
}

/// The store's abstract state: one sequence per table, in insertion order.
pub ghost struct StoreView {
    pub users: Seq<UserRow>,
    pub repos: Seq<RepoRow>,
    pub repo_edges: Seq<RepoEdge>,
    pub user_edges: Seq<UserEdge>,
}

/// Whether an edge has the given natural key.
pub open spec fn repo_edge_matches(e: RepoEdge, user: u64, repo: u32, kind: EdgeKind) -> bool {
    e.user == user && e.repo == repo && e.kind == kind
}

/// Index of the first edge with the given key, or -1 if there is none.
pub open spec fn find_repo_edge(s: Seq<RepoEdge>, user: u64, repo: u32, kind: EdgeKind) -> int
    decreases s.len(),
{
    if s.len() == 0 {
        -1
    } else if repo_edge_matches(s[0], user, repo, kind) {
        0
    } else {
        let r = find_repo_edge(s.drop_first(), user, repo, kind);
        if r == -1 {
            -1
        } else {
            r + 1
        }
    }
}

/// Replace-on-conflict insertion of a user-to-repository edge: the first
/// edge sharing the new edge's key is replaced; with no such edge the new
/// one is appended.
pub open spec fn upsert_repo_edge(s: Seq<RepoEdge>, e: RepoEdge) -> Seq<RepoEdge> {
    let i = find_repo_edge(s, e.user, e.repo, e.kind);
    if i == -1 {
        s.push(e)
    } else {
        s.update(i, e)
    }
}

/// Whether a follower edge with the given endpoints is present.
pub open spec fn has_user_edge(s: Seq<UserEdge>, subject: u64, linked: u64) -> bool {
    exists|i: int| 0 <= i < s.len() && s[i].subject == subject && s[i].linked == linked
}

/// Replace-on-conflict insertion of a follower edge; the edge carries no
/// payload, so replacing an existing edge changes nothing.
pub open spec fn upsert_user_edge(s: Seq<UserEdge>, e: UserEdge) -> Seq<UserEdge> {
    if has_user_edge(s, e.subject, e.linked) {
        s
    } else {
        s.push(e)
    }
}

/// Pairwise distinctness of edge keys.
pub open spec fn repo_edges_unique(s: Seq<RepoEdge>) -> bool {
    forall|i: int, j: int|
        0 <= i < j < s.len() ==> !repo_edge_matches(s[i], s[j].user, s[j].repo, s[j].kind)
}

impl StoreView {
    /// Whether a user with this identity exists.
    pub open spec fn has_user(self, id: u64) -> bool {
        exists|i: int| 0 <= i < self.users.len() && self.users[i].id == id
    }

    /// Whether some user holds this username.
    pub open spec fn has_username(self, username: Seq<char>) -> bool {
        exists|i: int| 0 <= i < self.users.len() && self.users[i].username@ == username
    }

    /// Whether a repository with this identity exists.
    pub open spec fn has_repo(self, id: u32) -> bool {
        exists|i: int| 0 <= i < self.repos.len() && self.repos[i].id == id
    }

    /// Whether some repository holds this full name.
    pub open spec fn has_full_name(self, full_name: Seq<char>) -> bool {
        exists|i: int| 0 <= i < self.repos.len() && self.repos[i].full_name@ == full_name
    }

    /// The schema invariants: unique identities, unique names, unique edge
    /// keys, foreign-key integrity, and a star time exactly on stargazer
    /// edges.
    pub open spec fn wf(self) -> bool {
        &&& forall|i: int, j: int|
            0 <= i < j < self.users.len() ==> self.users[i].id != self.users[j].id
        &&& forall|i: int, j: int|
            0 <= i < j < self.users.len() ==> self.users[i].username@ != self.users[j].username@
        &&& forall|i: int, j: int|
            0 <= i < j < self.repos.len() ==> self.repos[i].id != self.repos[j].id
        &&& forall|i: int, j: int|
            0 <= i < j < self.repos.len() ==> self.repos[i].full_name@ != self.repos[j].full_name@
        &&& repo_edges_unique(self.repo_edges)
        &&& forall|i: int, j: int|
            0 <= i < j < self.user_edges.len() ==> self.user_edges[i] != self.user_edges[j]
        &&& forall|i: int|
            0 <= i < self.repo_edges.len() ==> self.has_user(#[trigger] self.repo_edges[i].user)
                && self.has_repo(self.repo_edges[i].repo)
        &&& forall|i: int|
            0 <= i < self.user_edges.len() ==> self.has_user(#[trigger] self.user_edges[i].subject)
                && self.has_user(self.user_edges[i].linked)
        &&& forall|i: int|
            0 <= i < self.repo_edges.len() ==> ((#[trigger] self.repo_edges[i].kind)
                == EdgeKind::Stargazer <==> self.repo_edges[i].date is Some)
    }
}

/// The relational store: owns the four tables and all access to them.
pub struct Store {
    users: Vec<UserRow>,
    repos: Vec<RepoRow>,
    repo_edges: Vec<RepoEdge>,
    user_edges: Vec<UserEdge>,
}

impl View for Store {
    type V = StoreView;

    closed spec fn view(&self) -> StoreView {
        StoreView {
            users: self.users@,
            repos: self.repos@,
            repo_edges: self.repo_edges@,
            user_edges: self.user_edges@,
        }
    }
}

impl Store {
    /// An empty store with the schema in place.
    pub fn new() -> (s: Store)
        ensures
            s@.users == Seq::<UserRow>::empty(),
            s@.repos == Seq::<RepoRow>::empty(),
            s@.repo_edges == Seq::<RepoEdge>::empty(),
            s@.user_edges == Seq::<UserEdge>::empty(),
            s@.wf(),
    {
        Store { users: Vec::new(), repos: Vec::new(), repo_edges: Vec::new(), user_edges: Vec::new() }
    }

    /// Whether a user with this identity exists.
    pub fn has_user(&self, id: u64) -> (r: bool)
        ensures
            r == self@.has_user(id),
    {
        let mut i: usize = 0;
        while i < self.users.len()
            invariant
                i <= self.users.len(),
                forall|k: int| 0 <= k < i ==> self@.users[k].id != id,
            decreases self.users.len() - i,
        {
            if self.users[i].id == id {
                return true;
            }
            i = i + 1;
        }
        false
    }

    /// Whether some user holds this username.
    pub fn has_username(&self, username: &String) -> (r: bool)
        ensures
            r == self@.has_username(username@),
    {
        let mut i: usize = 0;
        while i < self.users.len()
            invariant
                i <= self.users.len(),
                forall|k: int| 0 <= k < i ==> self@.users[k].username@ != username@,
            decreases self.users.len() - i,
        {
            if self.users[i].username == *username {
                return true;
            }
            i = i + 1;
        }
        false
    }

    /// Whether a repository with this identity exists.
    pub fn has_repo(&self, id: u32) -> (r: bool)
        ensures
            r == self@.has_repo(id),
    {
        let mut i: usize = 0;
        while i < self.repos.len()
            invariant
                i <= self.repos.len(),
                forall|k: int| 0 <= k < i ==> self@.repos[k].id != id,
            decreases self.repos.len() - i,
        {
            if self.repos[i].id == id {
                assert(self@.repos[i as int].id == id);
                return true;
            }
            i = i + 1;
        }
        false
    }

    /// Whether some repository holds this full name.
    pub fn has_full_name(&self, full_name: &String) -> (r: bool)
        ensures
            r == self@.has_full_name(full_name@),
    {
        let mut i: usize = 0;
        while i < self.repos.len()
            invariant
                i <= self.repos.len(),
                forall|k: int| 0 <= k < i ==> self@.repos[k].full_name@ != full_name@,
            decreases self.repos.len() - i,
        {
            if self.repos[i].full_name == *full_name {
                assert(self@.repos[i as int].full_name@ == full_name@);
                return true;
            }
            i = i + 1;
        }
        false
    }

    /// Plain insert of a user. The caller must have checked absence of the
    /// identity; a username already held by another user is a constraint
    /// violation and leaves the store unchanged.
    pub fn add_user(
        &mut self,
        id: u64,
        username: String,
        name: Option<String>,
        email: Option<String>,
    ) -> (r: Result<(), StoreError>)
        requires
            old(self)@.wf(),
            !old(self)@.has_user(id),
        ensures
            final(self)@.wf(),
            r is Ok <==> !old(self)@.has_username(username@),
            r is Ok ==> final(self)@.has_user(id) && final(self)@.has_username(username@),
            r is Ok ==> final(self)@ == (StoreView {
                users: old(self)@.users.push(UserRow { id, username, name, email }),
                repos: old(self)@.repos,
                repo_edges: old(self)@.repo_edges,
                user_edges: old(self)@.user_edges,
            }),
            r is Err ==> r == Result::<(), StoreError>::Err(StoreError::UsernameConflict)
                && final(self)@ == old(self)@,
    {
        if self.has_username(&username) {
            return Err(StoreError::UsernameConflict);
        }
        let ghost pre = self@;
        self.users.push(UserRow { id, username, name, email });
        proof {
            lemma_users_push_wf(pre, self@, UserRow { id, username, name, email });
            assert(self@.users.last().id == id);
            assert(self@.users.last().username@ == username@);
        }
        Ok(())
    }

    /// Plain insert of a repository. The caller must have checked absence of
    /// the identity; a full name already held by another repository is a
    /// constraint violation and leaves the store unchanged.
    pub fn add_repo(&mut self, id: u32, full_name: String, stargazers: u32) -> (r: Result<
        (),
        StoreError,
    >)
        requires
            old(self)@.wf(),
            !old(self)@.has_repo(id),
        ensures
            final(self)@.wf(),
            r is Ok <==> !old(self)@.has_full_name(full_name@),
            r is Ok ==> final(self)@.has_repo(id) && final(self)@.has_full_name(full_name@),
            r is Ok ==> final(self)@ == (StoreView {
                users: old(self)@.users,
                repos: old(self)@.repos.push(RepoRow { id, full_name, stargazers }),
                repo_edges: old(self)@.repo_edges,
                user_edges: old(self)@.user_edges,
            }),
            r is Err ==> r == Result::<(), StoreError>::Err(StoreError::FullNameConflict)
                && final(self)@ == old(self)@,
    {
        if self.has_full_name(&full_name) {
            return Err(StoreError::FullNameConflict);
        }
        let ghost pre = self@;
        self.repos.push(RepoRow { id, full_name, stargazers });
        proof {
            lemma_repos_push_wf(pre, self@, RepoRow { id, full_name, stargazers });
            assert(self@.repos.last().id == id);
            assert(self@.repos.last().full_name@ == full_name@);
        }
        Ok(())
    }

    /// Replace-on-conflict upsert shared by the two edge kinds.
    #[verifier::loop_isolation(false)]
    fn upsert_edge(&mut self, e: RepoEdge)
        requires
            old(self)@.wf(),
            old(self)@.has_user(e.user),
            old(self)@.has_repo(e.repo),
            e.kind == EdgeKind::Stargazer <==> e.date is Some,
        ensures
            final(self)@.wf(),
            final(self)@ == (StoreView {
                users: old(self)@.users,
                repos: old(self)@.repos,
                repo_edges: upsert_repo_edge(old(self)@.repo_edges, e),
                user_edges: old(self)@.user_edges,
            }),
    {
        let ghost pre = self@;
        let mut i: usize = 0;
        while i < self.repo_edges.len()
            invariant
                i <= self.repo_edges.len(),
                self@ == pre,
                forall|k: int|
                    0 <= k < i ==> !repo_edge_matches(
                        self@.repo_edges[k],
                        e.user,
                        e.repo,
                        e.kind,
                    ),
            decreases self.repo_edges.len() - i,
        {
            if self.repo_edges[i].user == e.user && self.repo_edges[i].repo == e.repo
                && self.repo_edges[i].kind == e.kind {
                proof {
                    lemma_find_repo_edge(pre.repo_edges, e.user, e.repo, e.kind);
                    assert(repo_edge_matches(pre.repo_edges[i as int], e.user, e.repo, e.kind));
                    assert(find_repo_edge(pre.repo_edges, e.user, e.repo, e.kind) == i as int);
                }
                self.repo_edges.set(i, e);
                proof {
                    lemma_edge_update_wf(pre, self@, e, i as int);
                }
                return ;
            }
            i = i + 1;
        }
        proof {
            lemma_find_repo_edge(pre.repo_edges, e.user, e.repo, e.kind);
            assert(find_repo_edge(pre.repo_edges, e.user, e.repo, e.kind) == -1);
        }
        self.repo_edges.push(e);
        proof {
            lemma_edge_push_wf(pre, self@, e);
        }
    }

    /// Upserts a stargazer edge keyed by (user, repository): re-ingestion
    /// replaces the edge, refreshing its star time, rather than duplicating
    /// it. Both endpoints must already exist.
    pub fn add_stargazer(&mut self, user: u64, repo: u32, date: String)
        requires
            old(self)@.wf(),
            old(self)@.has_user(user),
            old(self)@.has_repo(repo),
        ensures
            final(self)@.wf(),
            final(self)@ == (StoreView {
                users: old(self)@.users,
                repos: old(self)@.repos,
                repo_edges: upsert_repo_edge(
                    old(self)@.repo_edges,
                    RepoEdge { user, repo, kind: EdgeKind::Stargazer, date: Some(date) },
                ),
                user_edges: old(self)@.user_edges,
            }),
    {
        self.upsert_edge(RepoEdge { user, repo, kind: EdgeKind::Stargazer, date: Some(date) });
    }

    /// Upserts a subscriber edge keyed by (user, repository); the edge has
    /// no payload. Both endpoints must already exist.
    pub fn add_subscriber(&mut self, user: u64, repo: u32)
        requires
            old(self)@.wf(),
            old(self)@.has_user(user),
            old(self)@.has_repo(repo),
        ensures
            final(self)@.wf(),
            final(self)@ == (StoreView {
                users: old(self)@.users,
                repos: old(self)@.repos,
                repo_edges: upsert_repo_edge(
                    old(self)@.repo_edges,
                    RepoEdge { user, repo, kind: EdgeKind::Subscriber, date: None },
                ),
                user_edges: old(self)@.user_edges,
            }),
    {
        self.upsert_edge(RepoEdge { user, repo, kind: EdgeKind::Subscriber, date: None });
    }

    /// Upserts a follower edge keyed by (subject, linked); replacing an
    /// existing edge changes nothing, so a present edge is left alone. Both
    /// users must already exist.
    #[verifier::loop_isolation(false)]
    pub fn add_follower(&mut self, subject: u64, linked: u64)
        requires
            old(self)@.wf(),
            old(self)@.has_user(subject),
            old(self)@.has_user(linked),
        ensures
            final(self)@.wf(),
            final(self)@ == (StoreView {
                users: old(self)@.users,
                repos: old(self)@.repos,
                repo_edges: old(self)@.repo_edges,
                user_edges: upsert_user_edge(
                    old(self)@.user_edges,
                    UserEdge { subject, linked },
                ),
            }),
    {
        let ghost pre = self@;
        let mut i: usize = 0;
        while i < self.user_edges.len()
            invariant
                i <= self.user_edges.len(),
                self@ == pre,
                forall|k: int|
                    0 <= k < i ==> !(self@.user_edges[k].subject == subject
                        && self@.user_edges[k].linked == linked),
            decreases self.user_edges.len() - i,
        {
            if self.user_edges[i].subject == subject && self.user_edges[i].linked == linked {
                proof {
                    assert(pre.user_edges[i as int].subject == subject
                        && pre.user_edges[i as int].linked == linked);
                    assert(has_user_edge(pre.user_edges, subject, linked));
                }
                return ;
            }
            i = i + 1;
        }
        proof {
            assert(!has_user_edge(pre.user_edges, subject, linked));
        }
        self.user_edges.push(UserEdge { subject, linked });
        proof {
            assert forall|id: u64| pre.has_user(id) implies self@.has_user(id) by {
                let k = choose|k: int| 0 <= k < pre.users.len() && pre.users[k].id == id;
                assert(self@.users[k].id == id);
            }
            assert forall|id: u32| pre.has_repo(id) implies self@.has_repo(id) by {
                let k = choose|k: int| 0 <= k < pre.repos.len() && pre.repos[k].id == id;
                assert(self@.repos[k].id == id);
            }
        }
    }

    /// Top repositories by stargazer-edge count, highest first, at most
    /// `limit` entries. Every repository is ranked, one without stargazers
    /// with count 0; equal counts may come in either order.
    #[verifier::loop_isolation(false)]
    pub fn get_top_repos(&self, limit: u32) -> (r: Vec<(String, u64)>)
        ensures
            is_top_of(r@, repo_star_counts(self@), limit as int),
    {
        let mut counts: Vec<(String, u64)> = Vec::new();
        let mut i: usize = 0;
        while i < self.repos.len()
            invariant
                i <= self@.repos.len(),
                counts@.len() == i,
                forall|k: int|
                    0 <= k < i ==> counts@[k] == (
                        #[trigger] self@.repos[k].full_name,
                        count_star(self@.repo_edges, self@.repos[k].id) as u64,
                    ),
            decreases self@.repos.len() - i,
        {
            let c = count_star_exec(&self.repo_edges, self.repos[i].id);
            counts.push((self.repos[i].full_name.clone(), c));
            i = i + 1;
        }
        proof {
            assert(counts@ =~= repo_star_counts(self@));
        }
        top_of_counts(counts, limit)
    }

    /// Top users by follower-edge count, highest first, at most `limit`
    /// entries; equal counts may come in either order.
    #[verifier::loop_isolation(false)]
    pub fn get_top_following(&self, limit: u32) -> (r: Vec<(String, u64)>)
        ensures
            is_top_of(r@, user_follower_counts(self@), limit as int),
    {
        let mut counts: Vec<(String, u64)> = Vec::new();
        let mut i: usize = 0;
        while i < self.users.len()
            invariant
                i <= self@.users.len(),
                counts@.len() == i,
                forall|k: int|
                    0 <= k < i ==> counts@[k] == (
                        #[trigger] self@.users[k].username,
                        count_follower(self@.user_edges, self@.users[k].id) as u64,
                    ),
            decreases self@.users.len() - i,
        {
            let c = count_follower_exec(&self.user_edges, self.users[i].id);
            counts.push((self.users[i].username.clone(), c));
            i = i + 1;
        }
        proof {
            assert(counts@ =~= user_follower_counts(self@));
        }
        top_of_counts(counts, limit)
    }

    /// Top repositories by subscriber-edge count, highest first, at most
    /// `limit` entries; equal counts may come in either order.
    #[verifier::loop_isolation(false)]
    pub fn get_top_subscribed(&self, limit: u32) -> (r: Vec<(String, u64)>)
        ensures
            is_top_of(r@, repo_subscriber_counts(self@), limit as int),
    {
        let mut counts: Vec<(String, u64)> = Vec::new();
        let mut i: usize = 0;
        while i < self.repos.len()
            invariant
                i <= self@.repos.len(),
                counts@.len() == i,
                forall|k: int|
                    0 <= k < i ==> counts@[k] == (
                        #[trigger] self@.repos[k].full_name,
                        count_subscriber(self@.repo_edges, self@.repos[k].id) as u64,
                    ),
            decreases self@.repos.len() - i,
        {
            let c = count_subscriber_exec(&self.repo_edges, self.repos[i].id);
            counts.push((self.repos[i].full_name.clone(), c));
            i = i + 1;
        }
        proof {
            assert(counts@ =~= repo_subscriber_counts(self@));
        }
        top_of_counts(counts, limit)
    }

    /// How many users are stored.
    pub fn user_count(&self) -> (n: usize)
        ensures
            n == self@.users.len(),
    {
        self.users.len()
    }

    /// How many repositories are stored.
    pub fn repo_count(&self) -> (n: usize)
        ensures
            n == self@.repos.len(),
    {
        self.repos.len()
    }

    /// How many user-to-repository edges are stored, both kinds together.
    pub fn repo_edge_count(&self) -> (n: usize)
        ensures
            n == self@.repo_edges.len(),
    {
        self.repo_edges.len()
    }

    /// How many follower edges are stored.
    pub fn user_edge_count(&self) -> (n: usize)
        ensures
            n == self@.user_edges.len(),
    {
        self.user_edges.len()
    }

    /// The star time on the stargazer edge from a user to a repository, if
    /// that edge exists.
    #[verifier::loop_isolation(false)]
    pub fn star_date(&self, user: u64, repo: u32) -> (r: Option<String>)
        ensures
            ({
                let i = find_repo_edge(self@.repo_edges, user, repo, EdgeKind::Stargazer);
                if i == -1 {
                    r is None
                } else {
                    r == self@.repo_edges[i].date
                }
            }),
    {
        proof {
            lemma_find_repo_edge(self@.repo_edges, user, repo, EdgeKind::Stargazer);
        }
        let mut i: usize = 0;
        while i < self.repo_edges.len()
            invariant
                i <= self@.repo_edges.len(),
                forall|k: int|
                    0 <= k < i ==> !repo_edge_matches(
                        self@.repo_edges[k],
                        user,
                        repo,
                        EdgeKind::Stargazer,
                    ),
            decreases self@.repo_edges.len() - i,
        {
            if self.repo_edges[i].user == user && self.repo_edges[i].repo == repo
                && self.repo_edges[i].kind == EdgeKind::Stargazer {
                proof {
                    assert(repo_edge_matches(
                        self@.repo_edges[i as int],
                        user,
                        repo,
                        EdgeKind::Stargazer,
                    ));
                    assert(find_repo_edge(self@.repo_edges, user, repo, EdgeKind::Stargazer)
                        == i as int);
                }
                return match &self.repo_edges[i].date {
                    Some(d) => Some(d.clone()),
                    None => None,
                };
            }
            i = i + 1;
        }
        None
    }
}

/// Counts stargazer edges pointing at a repository.
#[verifier::loop_isolation(false)]
fn count_star_exec(edges: &Vec<RepoEdge>, repo: u32) -> (n: u64)
    ensures
        n == count_star(edges@, repo),
{
    let mut n: u64 = 0;
    let mut i: usize = 0;
    while i < edges.len()
        invariant
            i <= edges@.len(),
            n <= i,
            n == count_star(edges@.take(i as int), repo),
        decreases edges@.len() - i,
    {
        proof {
            assert(edges@.take(i as int + 1).drop_last() =~= edges@.take(i as int));
            assert(edges@.take(i as int + 1).last() == edges@[i as int]);
        }
        if edges[i].repo == repo && edges[i].kind == EdgeKind::Stargazer {
            n = n + 1;
        }
        i = i + 1;
    }
    proof {
        assert(edges@.take(edges@.len() as int) =~= edges@);
    }
    n
}

/// Counts subscriber edges pointing at a repository.
#[verifier::loop_isolation(false)]
fn count_subscriber_exec(edges: &Vec<RepoEdge>, repo: u32) -> (n: u64)
    ensures
        n == count_subscriber(edges@, repo),
{
    let mut n: u64 = 0;
    let mut i: usize = 0;
    while i < edges.len()
        invariant
            i <= edges@.len(),
            n <= i,
            n == count_subscriber(edges@.take(i as int), repo),
        decreases edges@.len() - i,
    {
        proof {
            assert(edges@.take(i as int + 1).drop_last() =~= edges@.take(i as int));
            assert(edges@.take(i as int + 1).last() == edges@[i as int]);
        }
        if edges[i].repo == repo && edges[i].kind == EdgeKind::Subscriber {
            n = n + 1;
        }
        i = i + 1;
    }
    proof {
        assert(edges@.take(edges@.len() as int) =~= edges@);
    }
    n
}

/// Counts follower edges whose subject is the given user.
#[verifier::loop_isolation(false)]
fn count_follower_exec(edges: &Vec<UserEdge>, subject: u64) -> (n: u64)
    ensures
        n == count_follower(edges@, subject),
{
    let mut n: u64 = 0;
    let mut i: usize = 0;
    while i < edges.len()
        invariant
            i <= edges@.len(),
            n <= i,
            n == count_follower(edges@.take(i as int), subject),
        decreases edges@.len() - i,
    {
        proof {
            assert(edges@.take(i as int + 1).drop_last() =~= edges@.take(i as int));
            assert(edges@.take(i as int + 1).last() == edges@[i as int]);
        }
        if edges[i].subject == subject {
            n = n + 1;
        }
        i = i + 1;
    }
    proof {
        assert(edges@.take(edges@.len() as int) =~= edges@);
    }
    n
}

/// Sorts a count list highest first and keeps its first `limit` entries.
#[verifier::loop_isolation(false)]
fn top_of_counts(counts: Vec<(String, u64)>, limit: u32) -> (r: Vec<(String, u64)>)
    ensures
        is_top_of(r@, counts@, limit as int),
{
    let mut sorted = sort_desc_exec(counts);
    let ghost full = sorted@;
    let lim = limit as usize;
    if lim < sorted.len() {
        sorted.truncate(lim);
    }
    proof {
        assert(sorted@ =~= full.take(sorted@.len() as int));
        assert(full.to_multiset() == counts@.to_multiset() && sorted_desc(full) && sorted@
            == full.take(sorted@.len() as int));
    }
    sorted
}

/// Sorts (name, count) pairs highest count first by repeatedly moving a
/// maximal remaining pair across; the result holds exactly the input pairs.
#[verifier::loop_isolation(false)]
fn sort_desc_exec(input: Vec<(String, u64)>) -> (r: Vec<(String, u64)>)
    ensures
        r@.len() == input@.len(),
        r@.to_multiset() == input@.to_multiset(),
        sorted_desc(r@),
{
    broadcast use vstd::seq_lib::group_to_multiset_ensures;
    broadcast use vstd::multiset::group_multiset_axioms;

    let mut work = input;
    let ghost orig = work@;
    let mut out: Vec<(String, u64)> = Vec::new();
    while work.len() > 0
        invariant
            out@.len() + work@.len() == orig.len(),
            out@.to_multiset().add(work@.to_multiset()) == orig.to_multiset(),
            sorted_desc(out@),
            forall|a: int, b: int|
                0 <= a < out@.len() && 0 <= b < work@.len() ==> out@[a].1 >= work@[b].1,
        decreases work.len(),
    {
        let mut m: usize = 0;
        let mut k: usize = 1;
        while k < work.len()
            invariant
                m < work@.len(),
                k <= work@.len(),
                forall|j: int| 0 <= j < k ==> work@[j].1 <= work@[m as int].1,
            decreases work.len() - k,
        {
            if work[k].1 > work[m].1 {
                m = k;
            }
            k = k + 1;
        }
        let ghost prev = work@;
        let e = work.remove(m);
        proof {
            assert(prev[m as int] == e);
            assert(prev.contains(e));
            assert(work@.to_multiset() =~= prev.to_multiset().remove(e));
            assert forall|b: int| 0 <= b < work@.len() implies work@[b].1 <= e.1 by {
                assert(work@[b] == if b < m as int {
                    prev[b]
                } else {
                    prev[b + 1]
                });
            }
        }
        out.push(e);
        proof {
            assert(out@.to_multiset().add(work@.to_multiset()) =~= orig.to_multiset());
        }
    }
    proof {
        assert(work@.to_multiset() =~= Multiset::<(String, u64)>::empty());
        assert(out@.to_multiset().add(work@.to_multiset()) =~= out@.to_multiset());
    }
    out
}

/// Number of stargazer edges pointing at a repository.
pub open spec fn count_star(s: Seq<RepoEdge>, repo: u32) -> nat
    decreases s.len(),
{
    if s.len() == 0 {
        0
    } else {
        count_star(s.drop_last(), repo) + if s.last().repo == repo && s.last().kind
            == EdgeKind::Stargazer {
            1nat
        } else {
            0nat
        }
    }
}

/// Number of subscriber edges pointing at a repository.
pub open spec fn count_subscriber(s: Seq<RepoEdge>, repo: u32) -> nat
    decreases s.len(),
{
    if s.len() == 0 {
        0
    } else {
        count_subscriber(s.drop_last(), repo) + if s.last().repo == repo && s.last().kind
            == EdgeKind::Subscriber {
            1nat
        } else {
            0nat
        }
    }
}

/// Number of follower edges whose subject is the given user.
pub open spec fn count_follower(s: Seq<UserEdge>, subject: u64) -> nat
    decreases s.len(),
{
    if s.len() == 0 {
        0
    } else {
        count_follower(s.drop_last(), subject) + if s.last().subject == subject {
            1nat
        } else {
            0nat
        }
    }
}

/// One (name, count) pair per repository, in table order: its full name with
/// its stargazer-edge count (repositories without edges appear with 0).
pub open spec fn repo_star_counts(v: StoreView) -> Seq<(String, u64)> {
    Seq::new(
        v.repos.len(),
        |i: int| (v.repos[i].full_name, count_star(v.repo_edges, v.repos[i].id) as u64),
    )
}

/// One (name, count) pair per repository: its subscriber-edge count.
pub open spec fn repo_subscriber_counts(v: StoreView) -> Seq<(String, u64)> {
    Seq::new(
        v.repos.len(),
        |i: int| (v.repos[i].full_name, count_subscriber(v.repo_edges, v.repos[i].id) as u64),
    )
}

/// One (name, count) pair per user: their follower-edge count.
pub open spec fn user_follower_counts(v: StoreView) -> Seq<(String, u64)> {
    Seq::new(
        v.users.len(),
        |i: int| (v.users[i].username, count_follower(v.user_edges, v.users[i].id) as u64),
    )
}

/// Whether the counts run highest first.
pub open spec fn sorted_desc(s: Seq<(String, u64)>) -> bool {
    forall|i: int, j: int| 0 <= i < j < s.len() ==> s[i].1 >= s[j].1
}

/// Whether `r` is a correct top-`limit` answer over the count list `counts`:
/// some highest-first ordering of the whole count list starts with `r`.
pub open spec fn is_top_of(r: Seq<(String, u64)>, counts: Seq<(String, u64)>, limit: int) -> bool {
    &&& r.len() == vstd::math::min(limit, counts.len() as int)
    &&& exists|full: Seq<(String, u64)>|
        (#[trigger] full.to_multiset()) == counts.to_multiset() && sorted_desc(full) && r
            == full.take(r.len() as int)
}

/// First-match characterization of [`find_repo_edge`].
pub proof fn lemma_find_repo_edge(s: Seq<RepoEdge>, user: u64, repo: u32, kind: EdgeKind)
    ensures
        find_repo_edge(s, user, repo, kind) == -1 ==> forall|i: int|
            0 <= i < s.len() ==> !repo_edge_matches(s[i], user, repo, kind),
        find_repo_edge(s, user, repo, kind) != -1 ==> ({
            let r = find_repo_edge(s, user, repo, kind);
            &&& 0 <= r < s.len()
            &&& repo_edge_matches(s[r], user, repo, kind)
            &&& forall|i: int| 0 <= i < r ==> !repo_edge_matches(s[i], user, repo, kind)
        }),
    decreases s.len(),
{
    if s.len() == 0 {
    } else if repo_edge_matches(s[0], user, repo, kind) {
    } else {
        let t = s.drop_first();
        lemma_find_repo_edge(t, user, repo, kind);
        let rt = find_repo_edge(t, user, repo, kind);
        if rt == -1 {
            assert forall|i: int| 0 <= i < s.len() implies !repo_edge_matches(
                s[i],
                user,
                repo,
                kind,
            ) by {
                if i > 0 {
                    assert(t[i - 1] == s[i]);
                }
            }
        } else {
            assert(s[rt + 1] == t[rt]);
            assert forall|i: int| 0 <= i < rt + 1 implies !repo_edge_matches(
                s[i],
                user,
                repo,
                kind,
            ) by {
                if i > 0 {
                    assert(t[i - 1] == s[i]);
                }
            }
        }
    }
}

/// A replace-on-conflict upsert keeps edge keys pairwise distinct.
pub proof fn lemma_upsert_preserves_unique(s: Seq<RepoEdge>, e: RepoEdge)
    requires
        repo_edges_unique(s),
    ensures
        repo_edges_unique(upsert_repo_edge(s, e)),
{
    lemma_find_repo_edge(s, e.user, e.repo, e.kind);
    let f = find_repo_edge(s, e.user, e.repo, e.kind);
    let after = upsert_repo_edge(s, e);
    if f == -1 {
    } else {
        assert forall|a: int, b: int| 0 <= a < b < after.len() implies !repo_edge_matches(
            after[a],
            after[b].user,
            after[b].repo,
            after[b].kind,
        ) by {
            assert(repo_edge_matches(after[a], s[a].user, s[a].repo, s[a].kind));
            assert(repo_edge_matches(after[b], s[b].user, s[b].repo, s[b].kind));
        }
    }
}

/// After one upsert, exactly one edge carries the upserted key, and it is
/// the upserted edge itself.
pub proof fn lemma_upsert_exactly_one(s: Seq<RepoEdge>, e: RepoEdge)
    requires
        repo_edges_unique(s),
    ensures
        ({
            let after = upsert_repo_edge(s, e);
            exists|i: int|
                0 <= i < after.len() && #[trigger] after[i] == e && (forall|j: int|
                    0 <= j < after.len() && j != i ==> !repo_edge_matches(
                        after[j],
                        e.user,
                        e.repo,
                        e.kind,
                    ))
        }),
{
    lemma_find_repo_edge(s, e.user, e.repo, e.kind);
    let f = find_repo_edge(s, e.user, e.repo, e.kind);
    let after = upsert_repo_edge(s, e);
    if f == -1 {
        let w = s.len() as int;
        assert(after[w] == e);
        assert(forall|j: int|
            0 <= j < after.len() && j != w ==> !repo_edge_matches(after[j], e.user, e.repo, e.kind));
    } else {
        assert(after[f] == e);
        assert forall|j: int| 0 <= j < after.len() && j != f implies !repo_edge_matches(
            after[j],
            e.user,
            e.repo,
            e.kind,
        ) by {
            assert(after[j] == s[j]);
            if j < f {
                assert(!repo_edge_matches(s[j], s[f].user, s[f].repo, s[f].kind));
            } else {
                assert(!repo_edge_matches(s[f], s[j].user, s[j].repo, s[j].kind));
            }
        }
    }
}

/// Re-ingestion of a stargazer edge replaces it: writing the edge for one
/// (user, repository) pair twice, with any two star times, leaves exactly
/// one edge with that key, and it carries the second star time.
pub proof fn lemma_star_edge_reingestion(
    s: Seq<RepoEdge>,
    user: u64,
    repo: u32,
    d1: String,
    d2: String,
)
    requires
        repo_edges_unique(s),
    ensures
        ({
            let e1 = RepoEdge { user, repo, kind: EdgeKind::Stargazer, date: Some(d1) };
            let e2 = RepoEdge { user, repo, kind: EdgeKind::Stargazer, date: Some(d2) };
            let after = upsert_repo_edge(upsert_repo_edge(s, e1), e2);
            exists|i: int|
                0 <= i < after.len() && #[trigger] after[i] == e2 && (forall|j: int|
                    0 <= j < after.len() && j != i ==> !repo_edge_matches(
                        after[j],
                        user,
                        repo,
                        EdgeKind::Stargazer,
                    ))
        }),
{
    let e1 = RepoEdge { user, repo, kind: EdgeKind::Stargazer, date: Some(d1) };
    let e2 = RepoEdge { user, repo, kind: EdgeKind::Stargazer, date: Some(d2) };
    lemma_upsert_preserves_unique(s, e1);
    lemma_upsert_exactly_one(upsert_repo_edge(s, e1), e2);
}

/// Replacing the edge at an index with one of the same key preserves the
/// schema invariants.
proof fn lemma_edge_update_wf(pre: StoreView, post: StoreView, e: RepoEdge, i: int)
    requires
        pre.wf(),
        0 <= i < pre.repo_edges.len(),
        repo_edge_matches(pre.repo_edges[i], e.user, e.repo, e.kind),
        post.repo_edges == pre.repo_edges.update(i, e),
        pre.has_user(e.user),
        pre.has_repo(e.repo),
        e.kind == EdgeKind::Stargazer <==> e.date is Some,
        post.users == pre.users,
        post.repos == pre.repos,
        post.user_edges == pre.user_edges,
    ensures
        post.wf(),
{
    assert forall|a: int, b: int| 0 <= a < b < post.repo_edges.len() implies !repo_edge_matches(
        post.repo_edges[a],
        post.repo_edges[b].user,
        post.repo_edges[b].repo,
        post.repo_edges[b].kind,
    ) by {
        assert(repo_edge_matches(
            post.repo_edges[a],
            pre.repo_edges[a].user,
            pre.repo_edges[a].repo,
            pre.repo_edges[a].kind,
        ));
        assert(repo_edge_matches(
            post.repo_edges[b],
            pre.repo_edges[b].user,
            pre.repo_edges[b].repo,
            pre.repo_edges[b].kind,
        ));
    }
}

/// Appending an edge whose key is fresh preserves the schema invariants.
proof fn lemma_edge_push_wf(pre: StoreView, post: StoreView, e: RepoEdge)
    requires
        pre.wf(),
        forall|k: int|
            0 <= k < pre.repo_edges.len() ==> !repo_edge_matches(
                pre.repo_edges[k],
                e.user,
                e.repo,
                e.kind,
            ),
        post.repo_edges == pre.repo_edges.push(e),
        pre.has_user(e.user),
        pre.has_repo(e.repo),
        e.kind == EdgeKind::Stargazer <==> e.date is Some,
        post.users == pre.users,
        post.repos == pre.repos,
        post.user_edges == pre.user_edges,
    ensures
        post.wf(),
{
}

/// Pushing a user with a fresh identity and username preserves the schema
/// invariants.
proof fn lemma_users_push_wf(pre: StoreView, post: StoreView, row: UserRow)
    requires
        pre.wf(),
        post.users == pre.users.push(row),
        !pre.has_user(row.id),
        !pre.has_username(row.username@),
        post.repos == pre.repos,
        post.repo_edges == pre.repo_edges,
        post.user_edges == pre.user_edges,
    ensures
        post.wf(),
{
    assert forall|id: u64| pre.has_user(id) implies post.has_user(id) by {
        let i = choose|i: int| 0 <= i < pre.users.len() && pre.users[i].id == id;
        assert(post.users[i].id == id);
    }
}

/// Pushing a repository with a fresh identity and full name preserves the
/// schema invariants.
proof fn lemma_repos_push_wf(pre: StoreView, post: StoreView, row: RepoRow)
    requires
        pre.wf(),
        post.repos == pre.repos.push(row),
        !pre.has_repo(row.id),
        !pre.has_full_name(row.full_name@),
        post.users == pre.users,
        post.repo_edges == pre.repo_edges,
        post.user_edges == pre.user_edges,
    ensures
        post.wf(),
{
    assert forall|id: u32| pre.has_repo(id) implies post.has_repo(id) by {
        let i = choose|i: int| 0 <= i < pre.repos.len() && pre.repos[i].id == id;
        assert(post.repos[i].id == id);
    }
}

} // verus!
