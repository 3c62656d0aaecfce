use dbflux::release_channel::ReleaseChannel;
use dbflux::update_check::{
    available_update, channel_wants_update_check, newest_update, newest_update_for, package_repository, skipped_version_option, update_request_url, releases_api_url, releases_api_url_for,
    repository_url, AvailableUpdate, GitHubRelease,
};

fn release(tag: &str, prerelease: bool) -> GitHubRelease {
    GitHubRelease {
        tag_name: tag.to_string(),
        html_url: format!("https://example.test/{tag}"),
        prerelease,
        draft: false,
    }
}

#[test]
fn offers_a_newer_stable_to_a_stable_build() {
    let found = newest_update(
        "0.8.0",
        ReleaseChannel::Stable,
        &[release("v0.8.1", false), release("v0.8.0", false)],
        None,
    );

    assert_eq!(found.map(|u| u.version), Some("0.8.1".to_string()));
}

#[test]
fn hides_prereleases_from_a_stable_build() {
    let found = newest_update(
        "0.8.0",
        ReleaseChannel::Stable,
        &[release("v0.9.0-rc.1", true)],
        None,
    );

    assert_eq!(found, None, "a stable install is not a testing ground");
}

#[test]
fn offers_a_later_rc_to_an_rc_build() {
    let found = newest_update(
        "0.8.0-rc.0",
        ReleaseChannel::Rc,
        &[release("v0.8.0-rc.1", true)],
        None,
    );

    assert_eq!(found.map(|u| u.version), Some("0.8.0-rc.1".to_string()));
}

#[test]
fn offers_the_stable_that_supersedes_an_rc() {
    // Semver precedence, the reason this does not compare strings:
    // 0.8.0 is newer than 0.8.0-rc.9 even though it sorts earlier.
    let found = newest_update(
        "0.8.0-rc.9",
        ReleaseChannel::Rc,
        &[release("v0.8.0", false)],
        None,
    );

    assert_eq!(found.map(|u| u.version), Some("0.8.0".to_string()));
}

#[test]
fn picks_the_newest_when_several_are_published() {
    let found = newest_update(
        "0.8.0",
        ReleaseChannel::Stable,
        &[
            release("v0.8.1", false),
            release("v0.10.0", false),
            release("v0.9.3", false),
        ],
        None,
    );

    assert_eq!(
        found.map(|u| u.version),
        Some("0.10.0".to_string()),
        "0.10.0 beats 0.9.3 — numeric, not lexical"
    );
}

#[test]
fn stays_quiet_when_the_build_is_current_or_ahead() {
    for current in ["0.8.1", "0.9.0"] {
        assert_eq!(
            newest_update(
                current,
                ReleaseChannel::Stable,
                &[release("v0.8.1", false)],
                None
            ),
            None,
            "{current} must not be told about 0.8.1"
        );
    }
}

#[test]
fn skipping_a_version_mutes_only_that_one() {
    let releases = [release("v0.8.1", false), release("v0.8.2", false)];

    assert_eq!(
        newest_update(
            "0.8.0",
            ReleaseChannel::Stable,
            &releases[..1],
            Some("0.8.1")
        ),
        None,
        "the skipped version stays hidden"
    );

    assert_eq!(
        newest_update("0.8.0", ReleaseChannel::Stable, &releases, Some("0.8.1"))
            .map(|u| u.version),
        Some("0.8.2".to_string()),
        "a later release still gets through"
    );
}

#[test]
fn ignores_drafts_and_unparseable_tags() {
    let mut draft = release("v0.9.0", false);
    draft.draft = true;

    let found = newest_update(
        "0.8.0",
        ReleaseChannel::Stable,
        &[draft, release("nightly", false), release("v-broken", false)],
        None,
    );

    assert_eq!(found, None);
}

#[test]
fn nightly_never_asks() {
    assert!(!channel_wants_update_check(ReleaseChannel::Nightly));
    assert_eq!(
        newest_update(
            "0.9.0",
            ReleaseChannel::Nightly,
            &[release("v0.9.1", false)],
            None
        ),
        None
    );
}

#[test]
fn builds_the_api_url_from_a_github_repository() {
    // Guards the real metadata: a repository value this cannot address
    // would silently disable the feature.
    assert!(
        releases_api_url().is_some(),
        "CARGO_PKG_REPOSITORY ({}) must be a github.com/owner/repo URL",
        repository_url()
    );
    let url = releases_api_url().expect("checked above");
    assert!(url.starts_with("https://api.github.com/repos/"), "{url}");
    assert!(url.ends_with("/releases?per_page=30"), "{url}");
}

#[test]
fn api_url_needs_exactly_owner_and_repo() {
    assert_eq!(
        releases_api_url_for("https://github.com/owner/repo/").as_deref(),
        Some("https://api.github.com/repos/owner/repo/releases?per_page=30")
    );
    assert_eq!(releases_api_url_for("https://github.com/owner"), None);
    assert_eq!(releases_api_url_for("https://github.com/owner/repo/tree"), None);
    assert_eq!(releases_api_url_for("https://github.com//repo"), None);
    assert_eq!(releases_api_url_for("https://gitlab.com/owner/repo"), None);
    assert_eq!(releases_api_url_for("https://github.com/"), None);
}

#[test]
fn rc_build_is_not_offered_nightlies() {
    let found = newest_update(
        "0.8.0-rc.1",
        ReleaseChannel::Rc,
        &[release("v0.9.0-nightly+abc", true), release("v0.8.0-rc.2", true)],
        None,
    );
    assert_eq!(found.map(|u| u.version), Some("0.8.0-rc.2".to_string()));
}

#[test]
fn unparseable_current_version_reports_nothing() {
    assert_eq!(
        newest_update("not-a-version", ReleaseChannel::Stable, &[release("v9.0.0", false)], None),
        None
    );
}

#[test]
fn missing_release_page_falls_back_to_the_repository() {
    let mut r = release("v1.0.0", false);
    r.html_url = String::new();
    let found = newest_update("0.8.0", ReleaseChannel::Stable, &[r], None);
    assert_eq!(
        found,
        Some(AvailableUpdate {
            version: "1.0.0".to_string(),
            url: repository_url().to_string(),
        })
    );
}

#[test]
fn skipped_version_with_a_leading_v_still_mutes() {
    assert_eq!(
        newest_update("0.8.0", ReleaseChannel::Stable, &[release("v0.8.1", false)], Some("v0.8.1")),
        None
    );
    // An unparseable skipped value mutes nothing.
    assert_eq!(
        newest_update("0.8.0", ReleaseChannel::Stable, &[release("v0.8.1", false)], Some("garbage"))
            .map(|u| u.version),
        Some("0.8.1".to_string())
    );
}

#[test]
fn equal_versions_keep_the_later_release() {
    let mut first = release("v0.9.0", false);
    first.html_url = "https://example.test/first".to_string();
    let mut second = release("0.9.0", false);
    second.html_url = "https://example.test/second".to_string();
    let found = newest_update("0.8.0", ReleaseChannel::Stable, &[first, second], None).unwrap();
    assert_eq!(found.url, "https://example.test/second");
}

#[test]
fn available_update_uses_the_release_page_or_the_repository() {
    let with_page = available_update(&release("v1.2.3", false), "1.2.3".to_string(), repository_url());
    assert_eq!(
        with_page,
        AvailableUpdate { version: "1.2.3".to_string(), url: "https://example.test/v1.2.3".to_string() }
    );
    let mut bare = release("v1.2.3", false);
    bare.html_url = String::new();
    let without_page = available_update(&bare, "1.2.3".to_string(), repository_url());
    assert_eq!(without_page.url, repository_url());
}

#[test]
fn request_url_only_when_enabled_and_wanted() {
    let repository = repository_url();
    assert_eq!(update_request_url(false, ReleaseChannel::Stable, repository), None);
    assert_eq!(update_request_url(true, ReleaseChannel::Nightly, repository), None);
    assert_eq!(update_request_url(true, ReleaseChannel::Rc, repository), releases_api_url());
    assert_eq!(
        update_request_url(true, ReleaseChannel::Stable, "https://github.com/someone/fork/"),
        Some("https://api.github.com/repos/someone/fork/releases?per_page=30".to_string())
    );
    assert_eq!(update_request_url(true, ReleaseChannel::Stable, "https://gitlab.com/a/b"), None);
}

#[test]
fn empty_skipped_setting_skips_nothing() {
    assert_eq!(skipped_version_option(""), None);
    assert_eq!(skipped_version_option("0.9.0"), Some("0.9.0"));
}

#[test]
fn reported_version_is_the_tag_without_its_v() {
    let found = newest_update("0.8.0", ReleaseChannel::Rc, &[release("v0.9.0-rc.1+build.07", true)], None);
    assert_eq!(found.map(|u| u.version), Some("0.9.0-rc.1+build.07".to_string()));
}

#[test]
fn a_fork_points_the_check_at_itself() {
    assert_eq!(package_repository(""), repository_url());
    assert_eq!(package_repository("https://github.com/someone/fork"), "https://github.com/someone/fork");
    let mut bare = release("v9.0.0", false);
    bare.html_url = String::new();
    let found = newest_update_for("0.8.0", ReleaseChannel::Stable, &[bare], None, "https://github.com/someone/fork");
    assert_eq!(found.map(|u| u.url), Some("https://github.com/someone/fork".to_string()));
}
