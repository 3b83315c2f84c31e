//! Resource shapes of the registry server's API, as the plugin receives
//! them.  Plain data; points in time are carried as Unix timestamps.

use vstd::prelude::*;

verus! {

/// A point in time: whole seconds since the Unix epoch, in UTC.
#[derive(Clone, Copy, PartialEq, Eq, PartialOrd, Ord, Hash)]
pub struct Timestamp {
    pub unix_seconds: i64,
}

/// What kind of content a repository holds.
#[derive(Clone, Copy, PartialEq, Eq)]
pub enum RepoType {
    APPLICATION,
    LIBRARY,
    OPERATOR,
}

#[derive(Clone, PartialEq, Eq)]
pub struct User {
    pub avatar_hash: Option<String>,
    pub created_at: Timestamp,
    pub description: Option<String>,
    pub flags: u64,
    pub gravatar_email: Option<String>,
    pub id: u64,
    pub name: Option<String>,
    pub updated_at: Timestamp,
    pub username: String,
}

#[derive(Clone, PartialEq, Eq)]
pub struct ApiKeys {
    pub description: Option<String>,
    pub expires_in: Option<Timestamp>,
    pub id: u64,
    pub name: String,
    pub owner: User,
    pub scopes: u64,
    pub token: Option<String>,
}

#[derive(Clone, PartialEq, Eq)]
pub struct OrganizationMember {
    pub display_name: Option<String>,
    pub id: u64,
    pub joined_at: Timestamp,
    pub permissions: u64,
    pub updated_at: Timestamp,
    pub user: User,
}

#[derive(Clone, PartialEq, Eq)]
pub struct Organization {
    pub created_at: Timestamp,
    pub display_name: Option<String>,
    pub flags: u64,
    pub gravatar_email: Option<String>,
    pub icon_hash: Option<String>,
    pub id: u64,
    pub name: String,
    pub twitter_handle: Option<String>,
    pub updated_at: Timestamp,
    pub verified_publisher: bool,
}

#[derive(Clone, PartialEq, Eq)]
pub struct Repository {
    pub created_at: Timestamp,
    pub deprecated: bool,
    pub description: Option<String>,
    pub flags: u64,
    pub icon_hash: Option<String>,
    pub id: u64,
    pub name: String,
    pub owner_id: u64,
    pub repo_type: RepoType,
    pub updated_at: Timestamp,
}

#[derive(Clone, PartialEq, Eq)]
pub struct RepositoryMember {
    pub display_name: Option<String>,
    pub id: u64,
    pub joined_at: Timestamp,
    pub permissions: u64,
    pub updated_at: Timestamp,
    pub user: User,
}

#[derive(Clone, PartialEq, Eq)]
pub struct RepositoryRelease {
    pub created_at: Timestamp,
    pub id: u64,
    pub tag: String,
    pub update_text: Option<String>,
    pub updated_at: Timestamp,
}

} // verus!
