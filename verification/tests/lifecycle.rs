use rust_github::github::{GitHub, GitHubError, Method};
use rust_github::repositories::{
    parse_delete_response, parse_repository_response, RepositoryCreationInfo, RepositoryOwner,
};

fn repo_body() -> String {
    String::from("{\"id\": 1296269, \"owner\": {\"login\": \"octocat\", \"id\": 1, \"avatar_url\": \"https://api.github.com/avatar_url/octocat\", \"gravatar_id\": \"https://api.github.com/gravatar_id/octocat\", \"url\": \"https://api.github.com/url/octocat\", \"html_url\": \"https://api.github.com/html_url/octocat\", \"followers_url\": \"https://api.github.com/followers_url/octocat\", \"following_url\": \"https://api.github.com/following_url/octocat\", \"gists_url\": \"https://api.github.com/gists_url/octocat\", \"starred_url\": \"https://api.github.com/starred_url/octocat\", \"subscriptions_url\": \"https://api.github.com/subscriptions_url/octocat\", \"organizations_url\": \"https://api.github.com/organizations_url/octocat\", \"repos_url\": \"https://api.github.com/repos_url/octocat\", \"events_url\": \"https://api.github.com/events_url/octocat\", \"received_events_url\": \"https://api.github.com/received_events_url/octocat\", \"type\": \"User\", \"site_admin\": false}, \"name\": \"test\", \"full_name\": \"octocat/test\", \"description\": null, \"private\": false, \"fork\": false, \"url\": \"https://api.github.com/repos/octocat/test/url\", \"html_url\": \"https://api.github.com/repos/octocat/test/html_url\", \"archive_url\": \"https://api.github.com/repos/octocat/test/archive_url\", \"assignees_url\": \"https://api.github.com/repos/octocat/test/assignees_url\", \"blobs_url\": \"https://api.github.com/repos/octocat/test/blobs_url\", \"branches_url\": \"https://api.github.com/repos/octocat/test/branches_url\", \"clone_url\": \"https://api.github.com/repos/octocat/test/clone_url\", \"collaborators_url\": \"https://api.github.com/repos/octocat/test/collaborators_url\", \"comments_url\": \"https://api.github.com/repos/octocat/test/comments_url\", \"commits_url\": \"https://api.github.com/repos/octocat/test/commits_url\", \"compare_url\": \"https://api.github.com/repos/octocat/test/compare_url\", \"contents_url\": \"https://api.github.com/repos/octocat/test/contents_url\", \"contributors_url\": \"https://api.github.com/repos/octocat/test/contributors_url\", \"deployments_url\": \"https://api.github.com/repos/octocat/test/deployments_url\", \"downloads_url\": \"https://api.github.com/repos/octocat/test/downloads_url\", \"events_url\": \"https://api.github.com/repos/octocat/test/events_url\", \"forks_url\": \"https://api.github.com/repos/octocat/test/forks_url\", \"git_commits_url\": \"https://api.github.com/repos/octocat/test/git_commits_url\", \"git_refs_url\": \"https://api.github.com/repos/octocat/test/git_refs_url\", \"git_tags_url\": \"https://api.github.com/repos/octocat/test/git_tags_url\", \"git_url\": \"https://api.github.com/repos/octocat/test/git_url\", \"hooks_url\": \"https://api.github.com/repos/octocat/test/hooks_url\", \"issue_comment_url\": \"https://api.github.com/repos/octocat/test/issue_comment_url\", \"issue_events_url\": \"https://api.github.com/repos/octocat/test/issue_events_url\", \"issues_url\": \"https://api.github.com/repos/octocat/test/issues_url\", \"keys_url\": \"https://api.github.com/repos/octocat/test/keys_url\", \"labels_url\": \"https://api.github.com/repos/octocat/test/labels_url\", \"languages_url\": \"https://api.github.com/repos/octocat/test/languages_url\", \"merges_url\": \"https://api.github.com/repos/octocat/test/merges_url\", \"milestones_url\": \"https://api.github.com/repos/octocat/test/milestones_url\", \"notifications_url\": \"https://api.github.com/repos/octocat/test/notifications_url\", \"pulls_url\": \"https://api.github.com/repos/octocat/test/pulls_url\", \"releases_url\": \"https://api.github.com/repos/octocat/test/releases_url\", \"ssh_url\": \"https://api.github.com/repos/octocat/test/ssh_url\", \"stargazers_url\": \"https://api.github.com/repos/octocat/test/stargazers_url\", \"statuses_url\": \"https://api.github.com/repos/octocat/test/statuses_url\", \"subscribers_url\": \"https://api.github.com/repos/octocat/test/subscribers_url\", \"subscription_url\": \"https://api.github.com/repos/octocat/test/subscription_url\", \"svn_url\": \"https://api.github.com/repos/octocat/test/svn_url\", \"tags_url\": \"https://api.github.com/repos/octocat/test/tags_url\", \"teams_url\": \"https://api.github.com/repos/octocat/test/teams_url\", \"trees_url\": \"https://api.github.com/repos/octocat/test/trees_url\", \"mirror_url\": null, \"homepage\": null, \"language\": \"Rust\", \"forks_count\": 9, \"stargazers_count\": 80, \"watchers_count\": 80, \"size\": 108, \"default_branch\": \"master\", \"open_issues_count\": 0, \"has_issues\": true, \"has_wiki\": true, \"has_pages\": false, \"has_downloads\": true, \"pushed_at\": \"2011-01-26T19:06:43Z\", \"created_at\": \"2011-01-26T19:01:12Z\", \"updated_at\": \"2011-01-26T19:14:43Z\", \"permissions\": {\"admin\": true, \"push\": true, \"pull\": true}, \"subscribers_count\": 42}")
}

fn forked_repo_body() -> String {
    String::from("{\"id\": 1296269, \"owner\": {\"login\": \"octocat\", \"id\": 1, \"avatar_url\": \"https://api.github.com/avatar_url/octocat\", \"gravatar_id\": \"https://api.github.com/gravatar_id/octocat\", \"url\": \"https://api.github.com/url/octocat\", \"html_url\": \"https://api.github.com/html_url/octocat\", \"followers_url\": \"https://api.github.com/followers_url/octocat\", \"following_url\": \"https://api.github.com/following_url/octocat\", \"gists_url\": \"https://api.github.com/gists_url/octocat\", \"starred_url\": \"https://api.github.com/starred_url/octocat\", \"subscriptions_url\": \"https://api.github.com/subscriptions_url/octocat\", \"organizations_url\": \"https://api.github.com/organizations_url/octocat\", \"repos_url\": \"https://api.github.com/repos_url/octocat\", \"events_url\": \"https://api.github.com/events_url/octocat\", \"received_events_url\": \"https://api.github.com/received_events_url/octocat\", \"type\": \"User\", \"site_admin\": false}, \"name\": \"test\", \"full_name\": \"octocat/test\", \"description\": null, \"private\": false, \"fork\": true, \"url\": \"https://api.github.com/repos/octocat/test/url\", \"html_url\": \"https://api.github.com/repos/octocat/test/html_url\", \"archive_url\": \"https://api.github.com/repos/octocat/test/archive_url\", \"assignees_url\": \"https://api.github.com/repos/octocat/test/assignees_url\", \"blobs_url\": \"https://api.github.com/repos/octocat/test/blobs_url\", \"branches_url\": \"https://api.github.com/repos/octocat/test/branches_url\", \"clone_url\": \"https://api.github.com/repos/octocat/test/clone_url\", \"collaborators_url\": \"https://api.github.com/repos/octocat/test/collaborators_url\", \"comments_url\": \"https://api.github.com/repos/octocat/test/comments_url\", \"commits_url\": \"https://api.github.com/repos/octocat/test/commits_url\", \"compare_url\": \"https://api.github.com/repos/octocat/test/compare_url\", \"contents_url\": \"https://api.github.com/repos/octocat/test/contents_url\", \"contributors_url\": \"https://api.github.com/repos/octocat/test/contributors_url\", \"deployments_url\": \"https://api.github.com/repos/octocat/test/deployments_url\", \"downloads_url\": \"https://api.github.com/repos/octocat/test/downloads_url\", \"events_url\": \"https://api.github.com/repos/octocat/test/events_url\", \"forks_url\": \"https://api.github.com/repos/octocat/test/forks_url\", \"git_commits_url\": \"https://api.github.com/repos/octocat/test/git_commits_url\", \"git_refs_url\": \"https://api.github.com/repos/octocat/test/git_refs_url\", \"git_tags_url\": \"https://api.github.com/repos/octocat/test/git_tags_url\", \"git_url\": \"https://api.github.com/repos/octocat/test/git_url\", \"hooks_url\": \"https://api.github.com/repos/octocat/test/hooks_url\", \"issue_comment_url\": \"https://api.github.com/repos/octocat/test/issue_comment_url\", \"issue_events_url\": \"https://api.github.com/repos/octocat/test/issue_events_url\", \"issues_url\": \"https://api.github.com/repos/octocat/test/issues_url\", \"keys_url\": \"https://api.github.com/repos/octocat/test/keys_url\", \"labels_url\": \"https://api.github.com/repos/octocat/test/labels_url\", \"languages_url\": \"https://api.github.com/repos/octocat/test/languages_url\", \"merges_url\": \"https://api.github.com/repos/octocat/test/merges_url\", \"milestones_url\": \"https://api.github.com/repos/octocat/test/milestones_url\", \"notifications_url\": \"https://api.github.com/repos/octocat/test/notifications_url\", \"pulls_url\": \"https://api.github.com/repos/octocat/test/pulls_url\", \"releases_url\": \"https://api.github.com/repos/octocat/test/releases_url\", \"ssh_url\": \"https://api.github.com/repos/octocat/test/ssh_url\", \"stargazers_url\": \"https://api.github.com/repos/octocat/test/stargazers_url\", \"statuses_url\": \"https://api.github.com/repos/octocat/test/statuses_url\", \"subscribers_url\": \"https://api.github.com/repos/octocat/test/subscribers_url\", \"subscription_url\": \"https://api.github.com/repos/octocat/test/subscription_url\", \"svn_url\": \"https://api.github.com/repos/octocat/test/svn_url\", \"tags_url\": \"https://api.github.com/repos/octocat/test/tags_url\", \"teams_url\": \"https://api.github.com/repos/octocat/test/teams_url\", \"trees_url\": \"https://api.github.com/repos/octocat/test/trees_url\", \"mirror_url\": null, \"homepage\": null, \"language\": \"Rust\", \"forks_count\": 9, \"stargazers_count\": 80, \"watchers_count\": 80, \"size\": 108, \"default_branch\": \"master\", \"open_issues_count\": 0, \"has_issues\": true, \"has_wiki\": true, \"has_pages\": false, \"has_downloads\": true, \"pushed_at\": \"2011-01-26T19:06:43Z\", \"created_at\": \"2011-01-26T19:01:12Z\", \"updated_at\": \"2011-01-26T19:14:43Z\", \"permissions\": {\"admin\": true, \"push\": true, \"pull\": true}, \"subscribers_count\": 42, \"parent\": {\"id\": 1296269, \"owner\": {\"login\": \"upstream\", \"id\": 1, \"avatar_url\": \"https://api.github.com/avatar_url/upstream\", \"gravatar_id\": \"https://api.github.com/gravatar_id/upstream\", \"url\": \"https://api.github.com/url/upstream\", \"html_url\": \"https://api.github.com/html_url/upstream\", \"followers_url\": \"https://api.github.com/followers_url/upstream\", \"following_url\": \"https://api.github.com/following_url/upstream\", \"gists_url\": \"https://api.github.com/gists_url/upstream\", \"starred_url\": \"https://api.github.com/starred_url/upstream\", \"subscriptions_url\": \"https://api.github.com/subscriptions_url/upstream\", \"organizations_url\": \"https://api.github.com/organizations_url/upstream\", \"repos_url\": \"https://api.github.com/repos_url/upstream\", \"events_url\": \"https://api.github.com/events_url/upstream\", \"received_events_url\": \"https://api.github.com/received_events_url/upstream\", \"type\": \"User\", \"site_admin\": false}, \"name\": \"orig\", \"full_name\": \"upstream/orig\", \"description\": null, \"private\": false, \"fork\": false, \"url\": \"https://api.github.com/repos/upstream/orig/url\", \"html_url\": \"https://api.github.com/repos/upstream/orig/html_url\", \"archive_url\": \"https://api.github.com/repos/upstream/orig/archive_url\", \"assignees_url\": \"https://api.github.com/repos/upstream/orig/assignees_url\", \"blobs_url\": \"https://api.github.com/repos/upstream/orig/blobs_url\", \"branches_url\": \"https://api.github.com/repos/upstream/orig/branches_url\", \"clone_url\": \"https://api.github.com/repos/upstream/orig/clone_url\", \"collaborators_url\": \"https://api.github.com/repos/upstream/orig/collaborators_url\", \"comments_url\": \"https://api.github.com/repos/upstream/orig/comments_url\", \"commits_url\": \"https://api.github.com/repos/upstream/orig/commits_url\", \"compare_url\": \"https://api.github.com/repos/upstream/orig/compare_url\", \"contents_url\": \"https://api.github.com/repos/upstream/orig/contents_url\", \"contributors_url\": \"https://api.github.com/repos/upstream/orig/contributors_url\", \"deployments_url\": \"https://api.github.com/repos/upstream/orig/deployments_url\", \"downloads_url\": \"https://api.github.com/repos/upstream/orig/downloads_url\", \"events_url\": \"https://api.github.com/repos/upstream/orig/events_url\", \"forks_url\": \"https://api.github.com/repos/upstream/orig/forks_url\", \"git_commits_url\": \"https://api.github.com/repos/upstream/orig/git_commits_url\", \"git_refs_url\": \"https://api.github.com/repos/upstream/orig/git_refs_url\", \"git_tags_url\": \"https://api.github.com/repos/upstream/orig/git_tags_url\", \"git_url\": \"https://api.github.com/repos/upstream/orig/git_url\", \"hooks_url\": \"https://api.github.com/repos/upstream/orig/hooks_url\", \"issue_comment_url\": \"https://api.github.com/repos/upstream/orig/issue_comment_url\", \"issue_events_url\": \"https://api.github.com/repos/upstream/orig/issue_events_url\", \"issues_url\": \"https://api.github.com/repos/upstream/orig/issues_url\", \"keys_url\": \"https://api.github.com/repos/upstream/orig/keys_url\", \"labels_url\": \"https://api.github.com/repos/upstream/orig/labels_url\", \"languages_url\": \"https://api.github.com/repos/upstream/orig/languages_url\", \"merges_url\": \"https://api.github.com/repos/upstream/orig/merges_url\", \"milestones_url\": \"https://api.github.com/repos/upstream/orig/milestones_url\", \"notifications_url\": \"https://api.github.com/repos/upstream/orig/notifications_url\", \"pulls_url\": \"https://api.github.com/repos/upstream/orig/pulls_url\", \"releases_url\": \"https://api.github.com/repos/upstream/orig/releases_url\", \"ssh_url\": \"https://api.github.com/repos/upstream/orig/ssh_url\", \"stargazers_url\": \"https://api.github.com/repos/upstream/orig/stargazers_url\", \"statuses_url\": \"https://api.github.com/repos/upstream/orig/statuses_url\", \"subscribers_url\": \"https://api.github.com/repos/upstream/orig/subscribers_url\", \"subscription_url\": \"https://api.github.com/repos/upstream/orig/subscription_url\", \"svn_url\": \"https://api.github.com/repos/upstream/orig/svn_url\", \"tags_url\": \"https://api.github.com/repos/upstream/orig/tags_url\", \"teams_url\": \"https://api.github.com/repos/upstream/orig/teams_url\", \"trees_url\": \"https://api.github.com/repos/upstream/orig/trees_url\", \"mirror_url\": null, \"homepage\": null, \"language\": \"Rust\", \"forks_count\": 9, \"stargazers_count\": 80, \"watchers_count\": 80, \"size\": 108, \"default_branch\": \"master\", \"open_issues_count\": 0, \"has_issues\": true, \"has_wiki\": true, \"has_pages\": false, \"has_downloads\": true, \"pushed_at\": \"2011-01-26T19:06:43Z\", \"created_at\": \"2011-01-26T19:01:12Z\", \"updated_at\": \"2011-01-26T19:14:43Z\", \"permissions\": {\"admin\": true, \"push\": true, \"pull\": true}, \"subscribers_count\": 42}, \"source\": {\"id\": 1296269, \"owner\": {\"login\": \"upstream\", \"id\": 1, \"avatar_url\": \"https://api.github.com/avatar_url/upstream\", \"gravatar_id\": \"https://api.github.com/gravatar_id/upstream\", \"url\": \"https://api.github.com/url/upstream\", \"html_url\": \"https://api.github.com/html_url/upstream\", \"followers_url\": \"https://api.github.com/followers_url/upstream\", \"following_url\": \"https://api.github.com/following_url/upstream\", \"gists_url\": \"https://api.github.com/gists_url/upstream\", \"starred_url\": \"https://api.github.com/starred_url/upstream\", \"subscriptions_url\": \"https://api.github.com/subscriptions_url/upstream\", \"organizations_url\": \"https://api.github.com/organizations_url/upstream\", \"repos_url\": \"https://api.github.com/repos_url/upstream\", \"events_url\": \"https://api.github.com/events_url/upstream\", \"received_events_url\": \"https://api.github.com/received_events_url/upstream\", \"type\": \"User\", \"site_admin\": false}, \"name\": \"orig\", \"full_name\": \"upstream/orig\", \"description\": null, \"private\": false, \"fork\": false, \"url\": \"https://api.github.com/repos/upstream/orig/url\", \"html_url\": \"https://api.github.com/repos/upstream/orig/html_url\", \"archive_url\": \"https://api.github.com/repos/upstream/orig/archive_url\", \"assignees_url\": \"https://api.github.com/repos/upstream/orig/assignees_url\", \"blobs_url\": \"https://api.github.com/repos/upstream/orig/blobs_url\", \"branches_url\": \"https://api.github.com/repos/upstream/orig/branches_url\", \"clone_url\": \"https://api.github.com/repos/upstream/orig/clone_url\", \"collaborators_url\": \"https://api.github.com/repos/upstream/orig/collaborators_url\", \"comments_url\": \"https://api.github.com/repos/upstream/orig/comments_url\", \"commits_url\": \"https://api.github.com/repos/upstream/orig/commits_url\", \"compare_url\": \"https://api.github.com/repos/upstream/orig/compare_url\", \"contents_url\": \"https://api.github.com/repos/upstream/orig/contents_url\", \"contributors_url\": \"https://api.github.com/repos/upstream/orig/contributors_url\", \"deployments_url\": \"https://api.github.com/repos/upstream/orig/deployments_url\", \"downloads_url\": \"https://api.github.com/repos/upstream/orig/downloads_url\", \"events_url\": \"https://api.github.com/repos/upstream/orig/events_url\", \"forks_url\": \"https://api.github.com/repos/upstream/orig/forks_url\", \"git_commits_url\": \"https://api.github.com/repos/upstream/orig/git_commits_url\", \"git_refs_url\": \"https://api.github.com/repos/upstream/orig/git_refs_url\", \"git_tags_url\": \"https://api.github.com/repos/upstream/orig/git_tags_url\", \"git_url\": \"https://api.github.com/repos/upstream/orig/git_url\", \"hooks_url\": \"https://api.github.com/repos/upstream/orig/hooks_url\", \"issue_comment_url\": \"https://api.github.com/repos/upstream/orig/issue_comment_url\", \"issue_events_url\": \"https://api.github.com/repos/upstream/orig/issue_events_url\", \"issues_url\": \"https://api.github.com/repos/upstream/orig/issues_url\", \"keys_url\": \"https://api.github.com/repos/upstream/orig/keys_url\", \"labels_url\": \"https://api.github.com/repos/upstream/orig/labels_url\", \"languages_url\": \"https://api.github.com/repos/upstream/orig/languages_url\", \"merges_url\": \"https://api.github.com/repos/upstream/orig/merges_url\", \"milestones_url\": \"https://api.github.com/repos/upstream/orig/milestones_url\", \"notifications_url\": \"https://api.github.com/repos/upstream/orig/notifications_url\", \"pulls_url\": \"https://api.github.com/repos/upstream/orig/pulls_url\", \"releases_url\": \"https://api.github.com/repos/upstream/orig/releases_url\", \"ssh_url\": \"https://api.github.com/repos/upstream/orig/ssh_url\", \"stargazers_url\": \"https://api.github.com/repos/upstream/orig/stargazers_url\", \"statuses_url\": \"https://api.github.com/repos/upstream/orig/statuses_url\", \"subscribers_url\": \"https://api.github.com/repos/upstream/orig/subscribers_url\", \"subscription_url\": \"https://api.github.com/repos/upstream/orig/subscription_url\", \"svn_url\": \"https://api.github.com/repos/upstream/orig/svn_url\", \"tags_url\": \"https://api.github.com/repos/upstream/orig/tags_url\", \"teams_url\": \"https://api.github.com/repos/upstream/orig/teams_url\", \"trees_url\": \"https://api.github.com/repos/upstream/orig/trees_url\", \"mirror_url\": null, \"homepage\": null, \"language\": \"Rust\", \"forks_count\": 9, \"stargazers_count\": 80, \"watchers_count\": 80, \"size\": 108, \"default_branch\": \"master\", \"open_issues_count\": 0, \"has_issues\": true, \"has_wiki\": true, \"has_pages\": false, \"has_downloads\": true, \"pushed_at\": \"2011-01-26T19:06:43Z\", \"created_at\": \"2011-01-26T19:01:12Z\", \"updated_at\": \"2011-01-26T19:14:43Z\", \"permissions\": {\"admin\": true, \"push\": true, \"pull\": true}, \"subscribers_count\": 42}}")
}

#[test]
pub fn test_personal_repo() {
    let repo_name = "test";
    let gh = GitHub::new("octocat", "SECRET-REDACTED");
    let user = gh.get_user();
    // Create: the request goes to the fixed user creation path, and a
    // success response decodes into the repository metadata.
    let req = user.create_repository(&RepositoryCreationInfo::new(repo_name));
    assert!(matches!(req.method, Method::Post));
    assert_eq!(req.url, "https://api.github.com/user/repos");
    let repo_info = parse_repository_response(&gh, 201, &repo_body()).unwrap();
    assert!(repo_name == repo_info.name);
    // Info: fetched fresh through the handle.
    let req = user.get_repository(repo_name).info();
    assert_eq!(req.url, "https://api.github.com/repos/octocat/test");
    let repo_info = parse_repository_response(&gh, 200, &repo_body()).unwrap();
    assert!(repo_name == repo_info.name);
    // Delete: success is carried by the status alone.
    let req = gh.get_user().delete_repository(repo_name);
    assert_eq!(req.url, "https://api.github.com/repos/octocat/test");
    let delete_repo = parse_delete_response(&gh, 204, "");
    assert!(delete_repo.is_ok());
}

#[test]
pub fn test_organization_repo() {
    let repo_name = "test";
    let gh = GitHub::new("octocat", "SECRET-REDACTED");
    let org_name = "acme";
    let org = gh.get_organization(org_name);
    let req = org.create_repository(&RepositoryCreationInfo::new(repo_name));
    assert!(matches!(req.method, Method::Post));
    assert_eq!(req.url, "https://api.github.com/orgs/acme/repos");
    let repo_info = parse_repository_response(&gh, 201, &repo_body()).unwrap();
    assert!(repo_name == repo_info.name);
    let req = org.get_repository(repo_name).info();
    assert_eq!(req.url, "https://api.github.com/repos/acme/test");
    let repo_info = parse_repository_response(&gh, 200, &repo_body()).unwrap();
    assert!(repo_name == repo_info.name);
    let req = org.delete_repository(repo_name);
    assert!(matches!(req.method, Method::Delete));
    assert_eq!(req.url, "https://api.github.com/repos/acme/test");
    let delete_repo = parse_delete_response(&gh, 204, "");
    assert!(delete_repo.is_ok());
}

#[test]
fn test_metadata_fields() {
    let gh = GitHub::new("octocat", "k");
    let info = parse_repository_response(&gh, 200, &repo_body()).unwrap();
    assert_eq!(info.id, 1296269);
    assert_eq!(info.owner.login, "octocat");
    assert_eq!(info.owner.type_key, "User");
    assert_eq!(info.full_name, "octocat/test");
    assert_eq!(info.description, None);
    assert_eq!(info.language.as_deref(), Some("Rust"));
    assert_eq!(info.forks_count, 9);
    assert_eq!(info.default_branch, "master");
    assert!(info.permissions.admin && info.permissions.push && info.permissions.pull);
    assert_eq!(info.subscribers_count, Some(42));
    assert!(info.organization.is_none());
    assert!(info.parent.is_none());
    assert!(info.source.is_none());
}

#[test]
fn test_metadata_nested_parent() {
    let gh = GitHub::new("octocat", "k");
    let info = parse_repository_response(&gh, 200, &forked_repo_body()).unwrap();
    assert!(info.fork);
    let parent = info.parent.expect("the fork carries its parent");
    assert_eq!(parent.name, "orig");
    assert_eq!(parent.owner.login, "upstream");
    let source = info.source.expect("the fork carries its source");
    assert_eq!(source.full_name, "upstream/orig");
}

#[test]
fn test_metadata_decode_failure_is_distinct() {
    let gh = GitHub::new("octocat", "k");
    // A success status with a body that is not the metadata schema is a
    // serialization error, not an api error.
    match parse_repository_response(&gh, 200, "{\"name\":\"test\"}") {
        Err(GitHubError::Serialization(m)) => {
            assert!(m.contains("could not parse the repository metadata"));
            assert!(m.contains("{\"name\":\"test\"}"));
        },
        _ => panic!("expected a serialization error"),
    }
}

#[test]
fn test_duplicate_create_is_api_error() {
    let gh = GitHub::new("octocat", "k");
    let body = "{\"message\":\"name already exists on this account\",\"errors\":[{\"resource\":\"Repository\",\"code\":\"custom\",\"field\":\"name\",\"message\":\"name already exists on this account\"}]}";
    match parse_repository_response(&gh, 422, body) {
        Err(GitHubError::Api { message, errors }) => {
            assert_eq!(message, "name already exists on this account");
            assert_eq!(errors.len(), 1);
            assert_eq!(errors[0].code, "custom");
        },
        Err(GitHubError::Transport(_)) => panic!("a rejected create is not a transport error"),
        _ => panic!("expected an api error"),
    }
}

#[test]
fn test_delete_failure() {
    let gh = GitHub::new("octocat", "k");
    match parse_delete_response(&gh, 403, "{\"message\":\"Must have admin rights\"}") {
        Err(GitHubError::Api { message, errors }) => {
            assert_eq!(message, "Must have admin rights");
            assert!(errors.is_empty());
        },
        _ => panic!("expected an api error"),
    }
}
