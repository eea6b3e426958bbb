use git_dom::commands::clone::{parse_url_and_path, url_to_path};

#[test]
fn parses_owner_repo_slug() {
    let (git_url, path) = parse_url_and_path("tokio-rs/tokio", "src").unwrap();
    assert_eq!(git_url, "https://github.com/tokio-rs/tokio");
    assert_eq!(path, "src/github.com/tokio-rs/tokio");
}

#[test]
fn parses_host_owner_repo_shorthand() {
    let (git_url, path) = parse_url_and_path("github.com/tokio-rs/tokio", "src").unwrap();
    assert_eq!(git_url, "https://github.com/tokio-rs/tokio");
    assert_eq!(path, "src/github.com/tokio-rs/tokio");
}

#[test]
fn parses_full_https_url() {
    let (git_url, path) =
        parse_url_and_path("https://github.com/tokio-rs/tokio.git", "src").unwrap();
    assert_eq!(git_url, "https://github.com/tokio-rs/tokio.git");
    assert_eq!(path, "src/github.com/tokio-rs/tokio");
}

#[test]
fn parses_full_ssh_url() {
    let (git_url, path) =
        parse_url_and_path("git@github.com:tokio-rs/tokio.git", "src").unwrap();
    assert_eq!(git_url, "git@github.com:tokio-rs/tokio.git");
    assert_eq!(path, "src/github.com/tokio-rs/tokio");
}

#[test]
fn url_to_path_strips_scheme_and_suffix() {
    assert_eq!(
        url_to_path("ssh://git@example.org:team/tool.git", "vendor").unwrap(),
        "vendor/example.org/team/tool"
    );
}
