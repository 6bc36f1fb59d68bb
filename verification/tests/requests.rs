use rust_github::github::{GitHub, Method};
use rust_github::repositories::{escape_path_segment, RepositoryCreationInfo, RepositoryOwner};

#[test]
fn test_user_info_path() {
    let gh = GitHub::new("octocat", "SECRET-REDACTED");
    let user = gh.get_user();
    let repo = user.get_repository("test");
    let req = repo.info();
    assert!(matches!(req.method, Method::Get));
    assert_eq!(req.url, "https://api.github.com/repos/octocat/test");
    assert_eq!(req.username, "octocat");
    assert_eq!(req.password, "SECRET-REDACTED");
    assert_eq!(req.user_agent, "rust github/0.1.0");
    assert!(req.body.is_none());
}

#[test]
fn test_org_info_path() {
    let gh = GitHub::new("octocat", "k");
    let org = gh.get_organization("acme");
    let repo = org.get_repository("test");
    let req = repo.info();
    assert!(matches!(req.method, Method::Get));
    assert_eq!(req.url, "https://api.github.com/repos/acme/test");
}

#[test]
fn test_get_name_per_variant() {
    let gh = GitHub::new("octocat", "k");
    assert_eq!(gh.get_user().get_name(), "octocat");
    assert_eq!(gh.get_organization("acme").get_name(), "acme");
}

#[test]
fn test_path_escaping() {
    assert_eq!(escape_path_segment("plain-Name_0.9~"), "plain-Name_0.9~");
    assert_eq!(escape_path_segment("a b/c"), "a%20b%2Fc");
    assert_eq!(escape_path_segment("..%2F"), "..%252F");
    // U+00E9 encodes as two UTF-8 bytes.
    assert_eq!(escape_path_segment("caf\u{e9}"), "caf%C3%A9");
    let gh = GitHub::new("weird user", "k");
    let user = gh.get_user();
    let req = user.get_repository("na me").info();
    assert_eq!(req.url, "https://api.github.com/repos/weird%20user/na%20me");
}

#[test]
fn test_user_create_request() {
    let gh = GitHub::new("octocat", "k");
    let user = gh.get_user();
    let info = RepositoryCreationInfo::new("test");
    let req = user.create_repository(&info);
    assert!(matches!(req.method, Method::Post));
    assert_eq!(req.url, "https://api.github.com/user/repos");
    assert_eq!(req.body.as_deref(), Some("{\"name\":\"test\"}"));
}

#[test]
fn test_org_create_and_delete_request() {
    let gh = GitHub::new("octocat", "k");
    let org = gh.get_organization("acme");
    let info = RepositoryCreationInfo::new("test");
    let req = org.create_repository(&info);
    assert!(matches!(req.method, Method::Post));
    assert_eq!(req.url, "https://api.github.com/orgs/acme/repos");
    let del = org.delete_repository("test");
    assert!(matches!(del.method, Method::Delete));
    assert_eq!(del.url, "https://api.github.com/repos/acme/test");
    assert!(del.body.is_none());
}

#[test]
fn test_user_delete_request() {
    let gh = GitHub::new("octocat", "k");
    let user = gh.get_user();
    let del = user.delete_repository("test");
    assert!(matches!(del.method, Method::Delete));
    assert_eq!(del.url, "https://api.github.com/repos/octocat/test");
}

#[test]
fn test_make_authorized_request() {
    let gh = GitHub::new("me", "key");
    let req = gh.make_authorized_request(Method::Delete, "/anything");
    assert_eq!(req.url, "https://api.github.com/anything");
    assert_eq!(req.username, "me");
    assert_eq!(req.password, "key");
    assert_eq!(req.user_agent, "rust github/0.1.0");
}

#[test]
fn test_creation_body_only_name() {
    let info = RepositoryCreationInfo::new("test");
    assert_eq!(info.to_json(), "{\"name\":\"test\"}");
    let parsed: serde_json::Value = serde_json::from_str(&info.to_json()).unwrap();
    let obj = parsed.as_object().unwrap();
    assert_eq!(obj.len(), 1);
    assert_eq!(obj.get("name").unwrap().as_str(), Some("test"));
}

#[test]
fn test_creation_body_all_fields() {
    let mut info = RepositoryCreationInfo::new("n");
    info.description = Some(String::from("d"));
    info.homepage = Some(String::from("h"));
    info.private = Some(true);
    info.has_issues = Some(false);
    info.has_wiki = Some(true);
    info.has_downloads = Some(false);
    info.team_id = Some(-42);
    info.auto_init = Some(true);
    info.gitignore_template = Some(String::from("Rust"));
    info.license_template = Some(String::from("mit"));
    let expected = "{\"name\":\"n\",\"description\":\"d\",\"homepage\":\"h\",\
\"private\":true,\"has_issues\":false,\"has_wiki\":true,\"has_downloads\":false,\
\"team_id\":-42,\"auto_init\":true,\"gitignore_template\":\"Rust\",\
\"license_template\":\"mit\"}";
    assert_eq!(info.to_json(), expected);
    let parsed: serde_json::Value = serde_json::from_str(&info.to_json()).unwrap();
    assert_eq!(parsed.as_object().unwrap().len(), 11);
    assert_eq!(parsed.get("team_id").unwrap().as_i64(), Some(-42));
}

#[test]
fn test_creation_body_string_escapes() {
    let info = RepositoryCreationInfo::new("a\"b\\c\nd\te");
    assert_eq!(info.to_json(), "{\"name\":\"a\\\"b\\\\c\\nd\\te\"}");
    let parsed: serde_json::Value = serde_json::from_str(&info.to_json()).unwrap();
    assert_eq!(parsed.get("name").unwrap().as_str(), Some("a\"b\\c\nd\te"));
}
