//! The user-account principal and the account metadata record.
use crate::github::GitHub;
use crate::json::{
    bool_field_ok, get_bool, get_str, get_u64, obj_lookup, str_field_ok, u64_field_ok, Json,
    JsonValue,
};
use vstd::prelude::*;

verus! {

/// The authenticated user principal: it owns repositories under the
/// username stored in the transport client it references.
pub struct User<'a> {
    pub github: &'a GitHub,
}

/// The account metadata record as the API returns it. The `type_key` field
/// carries the wire name `type`.
pub struct UserInfo {
    pub login: String,
    pub id: u64,
    pub avatar_url: String,
    pub gravatar_id: String,
    pub url: String,
    pub html_url: String,
    pub followers_url: String,
    pub following_url: String,
    pub gists_url: String,
    pub starred_url: String,
    pub subscriptions_url: String,
    pub organizations_url: String,
    pub repos_url: String,
    pub events_url: String,
    pub received_events_url: String,
    pub type_key: String,
    pub site_admin: bool,
}


/// Whether a JSON value has the account metadata schema's shape.
pub open spec fn user_info_ok(j: Json) -> bool {
    match j {
        Json::Obj(m) => {
        &&& str_field_ok(m, "login"@)
        &&& u64_field_ok(m, "id"@)
        &&& str_field_ok(m, "avatar_url"@)
        &&& str_field_ok(m, "gravatar_id"@)
        &&& str_field_ok(m, "url"@)
        &&& str_field_ok(m, "html_url"@)
        &&& str_field_ok(m, "followers_url"@)
        &&& str_field_ok(m, "following_url"@)
        &&& str_field_ok(m, "gists_url"@)
        &&& str_field_ok(m, "starred_url"@)
        &&& str_field_ok(m, "subscriptions_url"@)
        &&& str_field_ok(m, "organizations_url"@)
        &&& str_field_ok(m, "repos_url"@)
        &&& str_field_ok(m, "events_url"@)
        &&& str_field_ok(m, "received_events_url"@)
        &&& str_field_ok(m, "type"@)
        &&& bool_field_ok(m, "site_admin"@)
        },
        _ => false,
    }
}

/// Whether `u` is the faithful decoding of the JSON value `j`.
pub open spec fn user_info_matches(u: UserInfo, j: Json) -> bool {
    match j {
        Json::Obj(m) => {
        &&& obj_lookup(m, "login"@) == Some(Json::Str(u.login@))
        &&& obj_lookup(m, "id"@) == Some(Json::Num(u.id as int))
        &&& obj_lookup(m, "avatar_url"@) == Some(Json::Str(u.avatar_url@))
        &&& obj_lookup(m, "gravatar_id"@) == Some(Json::Str(u.gravatar_id@))
        &&& obj_lookup(m, "url"@) == Some(Json::Str(u.url@))
        &&& obj_lookup(m, "html_url"@) == Some(Json::Str(u.html_url@))
        &&& obj_lookup(m, "followers_url"@) == Some(Json::Str(u.followers_url@))
        &&& obj_lookup(m, "following_url"@) == Some(Json::Str(u.following_url@))
        &&& obj_lookup(m, "gists_url"@) == Some(Json::Str(u.gists_url@))
        &&& obj_lookup(m, "starred_url"@) == Some(Json::Str(u.starred_url@))
        &&& obj_lookup(m, "subscriptions_url"@) == Some(Json::Str(u.subscriptions_url@))
        &&& obj_lookup(m, "organizations_url"@) == Some(Json::Str(u.organizations_url@))
        &&& obj_lookup(m, "repos_url"@) == Some(Json::Str(u.repos_url@))
        &&& obj_lookup(m, "events_url"@) == Some(Json::Str(u.events_url@))
        &&& obj_lookup(m, "received_events_url"@) == Some(Json::Str(u.received_events_url@))
        &&& obj_lookup(m, "type"@) == Some(Json::Str(u.type_key@))
        &&& obj_lookup(m, "site_admin"@) == Some(Json::Bool(u.site_admin))
        },
        _ => false,
    }
}

impl UserInfo {
    /// Decodes an account record from a parsed JSON value. Succeeds exactly
    /// when the value has the account schema's shape, and then every field
    /// equals the member of the same wire name (`type_key` reads `type`).
    #[verifier::rlimit(100)]
    pub fn from_json(v: &JsonValue) -> (r: Option<UserInfo>)
        ensures
            r is Some <==> user_info_ok(v@),
            match r {
                Some(u) => user_info_matches(u, v@),
                None => true,
            },
    {
        let m = match v {
            JsonValue::Obj(m) => m,
            _ => { return None; },
        };
        let login = match get_str(m, "login") {
            Some(x) => x,
            None => { return None; },
        };
        let id = match get_u64(m, "id") {
            Some(x) => x,
            None => { return None; },
        };
        let avatar_url = match get_str(m, "avatar_url") {
            Some(x) => x,
            None => { return None; },
        };
        let gravatar_id = match get_str(m, "gravatar_id") {
            Some(x) => x,
            None => { return None; },
        };
        let url = match get_str(m, "url") {
            Some(x) => x,
            None => { return None; },
        };
        let html_url = match get_str(m, "html_url") {
            Some(x) => x,
            None => { return None; },
        };
        let followers_url = match get_str(m, "followers_url") {
            Some(x) => x,
            None => { return None; },
        };
        let following_url = match get_str(m, "following_url") {
            Some(x) => x,
            None => { return None; },
        };
        let gists_url = match get_str(m, "gists_url") {
            Some(x) => x,
            None => { return None; },
        };
        let starred_url = match get_str(m, "starred_url") {
            Some(x) => x,
            None => { return None; },
        };
        let subscriptions_url = match get_str(m, "subscriptions_url") {
            Some(x) => x,
            None => { return None; },
        };
        let organizations_url = match get_str(m, "organizations_url") {
            Some(x) => x,
            None => { return None; },
        };
        let repos_url = match get_str(m, "repos_url") {
            Some(x) => x,
            None => { return None; },
        };
        let events_url = match get_str(m, "events_url") {
            Some(x) => x,
            None => { return None; },
        };
        let received_events_url = match get_str(m, "received_events_url") {
            Some(x) => x,
            None => { return None; },
        };
        let type_key = match get_str(m, "type") {
            Some(x) => x,
            None => { return None; },
        };
        let site_admin = match get_bool(m, "site_admin") {
            Some(x) => x,
            None => { return None; },
        };
        Some(UserInfo { login, id, avatar_url, gravatar_id, url, html_url, followers_url, following_url, gists_url, starred_url, subscriptions_url, organizations_url, repos_url, events_url, received_events_url, type_key, site_admin })
    }
}

} // verus!
