//! Data model of the harvested graph.
//!
//! The entities the crawl logic reads are held as plain values: identities,
//! names, and star timestamps (the timestamp is carried as the textual form
//! in which it is persisted; the pipeline never computes with it). The
//! remaining payload types mirror the remote API's response shapes.

use vstd::prelude::*;

verus! {

/// A user of the platform: platform-unique immutable identity plus the
/// profile fields the store persists.
#[derive(Debug, Clone)]
pub struct User {
    pub id: u64,
    pub login: String,
    pub name: Option<String>,
    pub email: Option<String>,
}

/// A repository: immutable identity, unique `owner/name`, and the stargazer
/// count snapshot captured at ingestion time.
#[derive(Debug, Clone)]
pub struct Repository {
    pub id: u32,
    pub full_name: String,
    pub stargazers_count: u32,
}

/// A stargazer record: the starring user together with the time of starring.
#[derive(Debug, Clone)]
pub struct Stargazer {
    pub user: User,
    pub starred_at: String,
}

/// A repository found on a user's starred list, with its own star timestamp.
#[derive(Debug, Clone)]
pub struct StarredRepository {
    pub repo: Repository,
    pub starred_at: String,
}

/// A software license attached to a repository.
#[derive(Debug, Clone)]
pub struct License {
    pub key: String,
    pub name: String,
    pub url: Option<String>,
    pub spdx_id: Option<String>,
    pub node_id: String,
    pub html_url: Option<String>,
}

/// Whether a repository owner is an individual account or an organization.
#[derive(Debug, Clone, Copy, PartialEq, Eq, Structural)]
pub enum OwnerType {
    User,
    Organization,
}

/// The calling user's permissions on a repository.
#[derive(Debug, Clone, Copy)]
pub struct RepoPermissions {
    pub admin: bool,
    pub pull: bool,
    pub push: bool,
    pub maintain: Option<bool>,
    pub triage: Option<bool>,
}

/// Visibility of a repository.
#[derive(Debug, Clone, Copy, PartialEq, Eq, Structural)]
pub enum RepoVisibility {
    Public,
    Private,
    Internal,
}

/// Default title used for squash-merge commits.
#[derive(Debug, Clone, Copy, PartialEq, Eq, Structural)]
pub enum SquashMergeCommitTitle {
    PrTitle,
    CommitOrPrTitle,
}

/// Default message used for squash-merge commits.
#[derive(Debug, Clone, Copy, PartialEq, Eq, Structural)]
pub enum SquashMergeCommitMessage {
    PrBody,
    CommitMessages,
    Blank,
}

/// Default title used for merge commits.
#[derive(Debug, Clone, Copy, PartialEq, Eq, Structural)]
pub enum MergeCommitTitle {
    PrTitle,
    MergeMessage,
}

/// Default message used for merge commits.
#[derive(Debug, Clone, Copy, PartialEq, Eq, Structural)]
pub enum MergeCommitMessage {
    PrBody,
    PrTitle,
    Blank,
}

/// A code of conduct attached to a repository.
#[derive(Debug, Clone)]
pub struct CodeOfConduct {
    pub url: String,
    pub key: String,
    pub name: String,
    pub html_url: Option<String>,
}

/// Whether a security feature is switched on for a repository.
#[derive(Debug, Clone, Copy, PartialEq, Eq, Structural)]
pub enum SecurityStatus {
    Enabled,
    Disabled,
}

/// Wrapper carrying one security feature's status.
#[derive(Debug, Clone, Copy, PartialEq, Eq, Structural)]
pub struct SecurityStatusObj {
    pub status: SecurityStatus,
}

/// The set of security features reported for a repository.
#[derive(Debug, Clone, Copy, PartialEq, Eq, Structural)]
pub struct SecurityAndAnalysis {
    pub advanced_security: SecurityStatusObj,
    pub dependabot_security_updates: SecurityStatusObj,
    pub secret_scanning: SecurityStatusObj,
    pub secret_scanning_push_protection: SecurityStatusObj,
}

} // verus!
