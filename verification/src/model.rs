//! Read models of the service's other tables and endpoints.
//!
//! These shapes are carried between the store, the handlers and their
//! callers; the library holds no logic over them.

use vstd::prelude::*;

verus! {

/// A market sector.
#[derive(Debug)]
pub struct Sectors {
    pub sector_id: i32,
    pub sector_name: String,
}

impl Sectors {
    pub fn new(sector_id: i32, sector_name: String) -> (r: Sectors)
        ensures
            r == (Sectors { sector_id, sector_name }),
    {
        Sectors { sector_id, sector_name }
    }
}

/// A news item as the provider reports it.
#[derive(Debug)]
pub struct FMPStockNews {
    pub symbol: String,
    pub published_date: String,
    pub title: String,
    pub image: Option<String>,
    pub site: String,
    pub text: String,
    pub url: String,
}

/// A tracked symbol's listing entry.
#[derive(Debug)]
pub struct Symbols {
    pub symbol: String,
    pub company_name: String,
    pub img: String,
}

/// An outbound mail.
#[derive(Debug)]
pub struct Mail {
    pub from: String,
    pub subject: String,
    pub body: String,
}

/// The fields a user registers with.
#[derive(Debug)]
pub struct UserFC {
    pub username: String,
    pub password_hash: String,
}

/// A user's public record at the OAuth provider.  Only the login, the
/// numeric id and the mail address are read; the rest is carried through.
#[derive(Debug)]
#[allow(dead_code)]
pub struct GithubUser {
    pub login: String,
    pub id: i64,
    node_id: String,
    avatar_url: String,
    gravatar_id: Option<String>,
    url: String,
    html_url: String,
    followers_url: String,
    following_url: String,
    gists_url: String,
    starred_url: String,
    subscriptions_url: String,
    organizations_url: String,
    repos_url: String,
    events_url: String,
    received_events_url: String,
    type_: Option<String>,
    site_admin: bool,
    name: Option<String>,
    company: Option<String>,
    blog: Option<String>,
    location: Option<String>,
    pub email: Option<String>,
    hireable: Option<String>,
    bio: Option<String>,
    twitter_username: Option<String>,
    public_repos: i64,
    public_gists: i64,
    followers: i64,
    following: i64,
    created_at: Option<String>,
    updated_at: Option<String>,
}

} // verus!
