use dbflux::release_channel::{client_identity, client_identity_token, ReleaseChannel, APP_VERSION};

#[test]
fn client_identity_carries_app_prefix_and_version() {
    let identity = client_identity();
    assert!(identity.starts_with("dbflux/"));
    assert_eq!(&identity["dbflux/".len()..], APP_VERSION);
}

#[test]
fn client_identity_token_matches_app_name_charset() {
    fn is_app_name_char(c: char) -> bool {
        c.is_ascii_alphanumeric() || "!#$%&'*+-.^_`|~".contains(c)
    }

    let token = client_identity_token();
    assert!(!token.is_empty());
    assert!(token.chars().all(is_app_name_char));
}

#[test]
fn client_identity_token_replaces_slash_with_dash() {
    assert_eq!(client_identity_token(), format!("dbflux-{}", APP_VERSION));
}

#[test]
fn classifies_versions() {
    assert_eq!(
        ReleaseChannel::from_version("0.7.0"),
        ReleaseChannel::Stable
    );
    assert_eq!(
        ReleaseChannel::from_version("0.7.0-rc.2"),
        ReleaseChannel::Rc
    );
    assert_eq!(
        ReleaseChannel::from_version("0.7.0-nightly+abc1234"),
        ReleaseChannel::Nightly
    );
}

#[test]
fn nightly_has_distinct_identity() {
    let nightly = ReleaseChannel::Nightly;
    assert_ne!(nightly.app_id(), ReleaseChannel::Stable.app_id());
    assert_ne!(
        nightly.db_file_name(),
        ReleaseChannel::Stable.db_file_name()
    );
}

#[test]
fn rc_shares_stable_identity() {
    assert_eq!(ReleaseChannel::Rc.app_id(), ReleaseChannel::Stable.app_id());
    assert_eq!(
        ReleaseChannel::Rc.db_file_name(),
        ReleaseChannel::Stable.db_file_name()
    );
}

#[test]
fn nightly_wins_over_rc_marker() {
    assert_eq!(
        ReleaseChannel::from_version("0.7.0-rc.1-nightly+abc"),
        ReleaseChannel::Nightly
    );
    assert_eq!(ReleaseChannel::from_version(""), ReleaseChannel::Stable);
    assert_eq!(ReleaseChannel::from_version("0.7.0-beta.1"), ReleaseChannel::Stable);
}

#[test]
fn channel_identities_are_spelled_out() {
    assert_eq!(ReleaseChannel::Stable.app_id(), "dbspeed");
    assert_eq!(ReleaseChannel::Nightly.app_id(), "dbspeed-nightly");
    assert_eq!(ReleaseChannel::Stable.display_name(), "DBSpeed");
    assert_eq!(ReleaseChannel::Rc.display_name(), "DBSpeed");
    assert_eq!(ReleaseChannel::Nightly.display_name(), "DBSpeed Nightly");
    assert_eq!(ReleaseChannel::Stable.db_file_name(), "dbflux.db");
    assert_eq!(ReleaseChannel::Nightly.db_file_name(), "dbflux-nightly.db");
}

#[test]
fn current_channel_follows_the_build_version() {
    assert_eq!(ReleaseChannel::current(), ReleaseChannel::from_version(APP_VERSION));
}
