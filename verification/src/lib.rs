//! Verified core of a stargazer-graph harvester: a paginated fetch state
//! machine with transient-fault retry, an idempotent relational store model,
//! the ingestion decisions that drive a crawl, and the ranking queries that
//! consume the harvested graph.

use vstd::prelude::*;

mod fetcher;
mod ingest;
mod store;
mod types;

pub use fetcher::FaultClass;
pub use ingest::StargazerOutcome;
pub use ingest::begin_stargazer;
pub use ingest::ingest_follower;
pub use ingest::ingest_repository;
pub use ingest::ingest_starred;
pub use ingest::ingest_subscribed;
pub use store::EdgeKind;
pub use store::RepoEdge;
pub use store::RepoRow;
pub use store::Store;
pub use store::StoreError;
pub use store::StoreView;
pub use store::UserEdge;
pub use store::UserRow;
pub use store::count_follower;
pub use store::count_star;
pub use store::count_subscriber;
pub use store::find_repo_edge;
pub use store::has_user_edge;
pub use store::is_top_of;
pub use store::lemma_find_repo_edge;
pub use store::lemma_star_edge_reingestion;
pub use store::lemma_upsert_exactly_one;
pub use store::lemma_upsert_preserves_unique;
pub use store::repo_edge_matches;
pub use store::repo_edges_unique;
pub use store::repo_star_counts;
pub use store::repo_subscriber_counts;
pub use store::sorted_desc;
pub use store::upsert_repo_edge;
pub use store::upsert_user_edge;
pub use store::user_follower_counts;
pub use fetcher::FetchPhase;
pub use fetcher::Fetcher;
pub use fetcher::classify_status;
pub use fetcher::classify_status_spec;
pub use types::CodeOfConduct;
pub use types::License;
pub use types::MergeCommitMessage;
pub use types::MergeCommitTitle;
pub use types::OwnerType;
pub use types::RepoPermissions;
pub use types::RepoVisibility;
pub use types::Repository;
pub use types::SecurityAndAnalysis;
pub use types::SecurityStatus;
pub use types::SecurityStatusObj;
pub use types::SquashMergeCommitMessage;
pub use types::SquashMergeCommitTitle;
pub use types::StarredRepository;
pub use types::Stargazer;
pub use types::User;

verus! {

/// Number of items requested per page; a shorter page ends pagination.
pub const PAGE_SIZE: usize = 100;

} // verus!
