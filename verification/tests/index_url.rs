use wally_registry_auth::index_url::extract_github_owner_repo;

fn names(owner: &str, repo: &str) -> Option<(String, String)> {
    Some((owner.to_string(), repo.to_string()))
}

#[test]
fn parses_https_address_with_git_suffix() {
    assert_eq!(extract_github_owner_repo("https://github.com/org/repo.git"), names("org", "repo"));
}

#[test]
fn parses_bare_address_with_final_slash() {
    assert_eq!(extract_github_owner_repo("github.com/org/repo/"), names("org", "repo"));
}

#[test]
fn parses_http_address() {
    assert_eq!(extract_github_owner_repo("http://github.com/org/repo"), names("org", "repo"));
}

#[test]
fn rejects_another_host() {
    assert_eq!(extract_github_owner_repo("https://gitlab.com/org/repo"), None);
}

#[test]
fn parses_every_combination_of_scheme_and_endings() {
    for scheme in ["", "http://", "https://"] {
        for git in ["", ".git"] {
            for slash in ["", "/"] {
                let url = format!("{}github.com/UpliftGames/wally-index{}{}", scheme, git, slash);
                assert_eq!(
                    extract_github_owner_repo(&url),
                    names("UpliftGames", "wally-index"),
                    "{}",
                    url
                );
            }
        }
    }
}

#[test]
fn takes_one_git_suffix_only() {
    assert_eq!(
        extract_github_owner_repo("github.com/org/repo.git.git"),
        names("org", "repo.git")
    );
}

#[test]
fn takes_the_git_suffix_before_a_final_slash() {
    assert_eq!(extract_github_owner_repo("https://github.com/org/repo.git/"), names("org", "repo"));
}

#[test]
fn keeps_dots_and_dashes_in_names() {
    assert_eq!(
        extract_github_owner_repo("https://github.com/my-org/my.repo_1"),
        names("my-org", "my.repo_1")
    );
}

#[test]
fn keeps_characters_of_several_bytes() {
    assert_eq!(
        extract_github_owner_repo("https://github.com/\u{f6}rg/rep\u{f6}\u{1f600}.git/"),
        names("\u{f6}rg", "rep\u{f6}\u{1f600}")
    );
}

#[test]
fn rejects_a_missing_repository() {
    assert_eq!(extract_github_owner_repo("github.com/org"), None);
    assert_eq!(extract_github_owner_repo("github.com/org/"), None);
    assert_eq!(extract_github_owner_repo("github.com/org//"), None);
    assert_eq!(extract_github_owner_repo("github.com/org/.git"), None);
    assert_eq!(extract_github_owner_repo("https://github.com/org/.git/"), None);
}

#[test]
fn rejects_a_missing_owner() {
    assert_eq!(extract_github_owner_repo("github.com//repo"), None);
    assert_eq!(extract_github_owner_repo("https://github.com//repo.git"), None);
}

#[test]
fn rejects_more_than_owner_and_repository() {
    assert_eq!(extract_github_owner_repo("github.com/org/repo/extra"), None);
    assert_eq!(extract_github_owner_repo("github.com/org/repo//"), None);
    assert_eq!(extract_github_owner_repo("https://github.com/org/repo/tree/main"), None);
}

#[test]
fn rejects_the_host_alone() {
    assert_eq!(extract_github_owner_repo(""), None);
    assert_eq!(extract_github_owner_repo("/"), None);
    assert_eq!(extract_github_owner_repo(".git"), None);
    assert_eq!(extract_github_owner_repo("github.com"), None);
    assert_eq!(extract_github_owner_repo("github.com/"), None);
    assert_eq!(extract_github_owner_repo("https://github.com"), None);
    assert_eq!(extract_github_owner_repo("https://"), None);
}

#[test]
fn rejects_other_schemes_and_hosts() {
    assert_eq!(extract_github_owner_repo("ftp://github.com/org/repo"), None);
    assert_eq!(extract_github_owner_repo("HTTPS://github.com/org/repo"), None);
    assert_eq!(extract_github_owner_repo("https://GitHub.com/org/repo"), None);
    assert_eq!(extract_github_owner_repo("https://www.github.com/org/repo"), None);
    assert_eq!(extract_github_owner_repo("https://github.community/org/repo"), None);
    assert_eq!(extract_github_owner_repo("git@github.com:org/repo.git"), None);
}

#[test]
fn takes_one_scheme_only() {
    assert_eq!(extract_github_owner_repo("https://http://github.com/org/repo"), None);
    assert_eq!(extract_github_owner_repo("http://https://github.com/org/repo"), None);
}
