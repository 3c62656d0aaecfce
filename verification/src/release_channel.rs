//! Release channel detected from the compiled crate version.
//!
//! The release pipeline stamps the workspace version before building, so the
//! version embedded in the binary already encodes the channel: `-nightly` for
//! rolling nightly builds, `-rc.N` for release candidates, and a plain
//! `MAJOR.MINOR.PATCH` for stable. This module turns that single signal into the
//! channel-specific identity the runtime needs (window/app identifiers, display
//! name, and the on-disk database file).

use vstd::prelude::*;
use vstd::string::*;

use crate::text::{replace_char, replace_char_with, seq_contains, str_contains};

verus! {

/// The version of this build, as written in the package metadata.
pub const APP_VERSION: &'static str = "0.8.0";

/// The release channel a running build belongs to.
#[derive(Debug, Clone, Copy, PartialEq, Eq, Structural)]
pub enum ReleaseChannel {
    Stable,
    Rc,
    Nightly,
}

/// The channel a version string belongs to: nightly wins over rc, and anything
/// without a recognised pre-release marker is stable.
pub open spec fn channel_of(version: Seq<char>) -> ReleaseChannel {
    if seq_contains(version, "-nightly"@) {
        ReleaseChannel::Nightly
    } else if seq_contains(version, "-rc"@) {
        ReleaseChannel::Rc
    } else {
        ReleaseChannel::Stable
    }
}

/// `dbflux/` followed by the build version.
pub open spec fn client_identity_text() -> Seq<char> {
    "dbflux/"@ + APP_VERSION@
}

/// The platform application id of a channel.
pub open spec fn app_id_text(channel: ReleaseChannel) -> Seq<char> {
    match channel {
        ReleaseChannel::Nightly => "dbspeed-nightly"@,
        _ => "dbspeed"@,
    }
}

/// The human-facing application name of a channel.
pub open spec fn display_name_text(channel: ReleaseChannel) -> Seq<char> {
    match channel {
        ReleaseChannel::Nightly => "DBSpeed Nightly"@,
        _ => "DBSpeed"@,
    }
}

/// The database file name of a channel.
pub open spec fn db_file_name_text(channel: ReleaseChannel) -> Seq<char> {
    match channel {
        ReleaseChannel::Nightly => "dbflux-nightly.db"@,
        _ => "dbflux.db"@,
    }
}

/// Only nightly stands apart: a release candidate shares the stable build's
/// application id, name and database, while nightly has its own id, name and
/// database, so the two coexist without touching each other's data.
pub proof fn law_only_nightly_has_its_own_identity(channel: ReleaseChannel)
    ensures
        (app_id_text(channel) == app_id_text(ReleaseChannel::Stable)) <==> channel != ReleaseChannel::Nightly,
        (display_name_text(channel) == display_name_text(ReleaseChannel::Stable)) <==> channel != ReleaseChannel::Nightly,
        (db_file_name_text(channel) == db_file_name_text(ReleaseChannel::Stable)) <==> channel != ReleaseChannel::Nightly,
{
    reveal_strlit("dbspeed-nightly");
    reveal_strlit("dbspeed");
    reveal_strlit("DBSpeed Nightly");
    reveal_strlit("DBSpeed");
    reveal_strlit("dbflux-nightly.db");
    reveal_strlit("dbflux.db");
    if channel == ReleaseChannel::Nightly {
        assert("dbspeed-nightly"@.len() != "dbspeed"@.len());
        assert("DBSpeed Nightly"@.len() != "DBSpeed"@.len());
        assert("dbflux-nightly.db"@.len() != "dbflux.db"@.len());
    }
}

impl ReleaseChannel {
    /// The channel of the currently running build, derived from its version.
    pub fn current() -> (r: Self)
        ensures
            r == channel_of(APP_VERSION@),
    {
        Self::from_version(APP_VERSION)
    }

    /// Classifies a semver string into a channel.
    ///
    /// Nightly takes precedence over rc so a hypothetical `-rc.N-nightly+sha`
    /// still resolves to nightly. Anything without a recognized pre-release
    /// marker is treated as stable.
    pub fn from_version(version: &str) -> (r: Self)
        ensures
            r == channel_of(version@),
    {
        if str_contains(version, "-nightly") {
            ReleaseChannel::Nightly
        } else if str_contains(version, "-rc") {
            ReleaseChannel::Rc
        } else {
            ReleaseChannel::Stable
        }
    }

    /// Platform application identifier (Wayland app id / X11 `WM_CLASS`).
    /// Nightly gets a distinct id so it coexists with stable instead of
    /// sharing its taskbar entry and icon association.
    pub fn app_id(self) -> (r: &'static str)
        ensures
            r@ == app_id_text(self),
    {
        match self {
            ReleaseChannel::Nightly => "dbspeed-nightly",
            ReleaseChannel::Stable | ReleaseChannel::Rc => "dbspeed",
        }
    }

    /// Human-facing application name used for window titles and bundle metadata.
    pub fn display_name(self) -> (r: &'static str)
        ensures
            r@ == display_name_text(self),
    {
        match self {
            ReleaseChannel::Nightly => "DBSpeed Nightly",
            ReleaseChannel::Stable | ReleaseChannel::Rc => "DBSpeed",
        }
    }

    /// File name of the unified SQLite database inside the data directory.
    ///
    /// The `dbflux` name is kept although the application is distributed as
    /// DBSpeed: renaming it would make every existing user start with empty
    /// connections. Nightly uses a separate database so a migration that
    /// breaks on a pre-release build cannot corrupt the stable database of a
    /// user who runs both channels side by side.
    pub fn db_file_name(self) -> (r: &'static str)
        ensures
            r@ == db_file_name_text(self),
    {
        match self {
            ReleaseChannel::Nightly => "dbflux-nightly.db",
            ReleaseChannel::Stable | ReleaseChannel::Rc => "dbflux.db",
        }
    }
}

/// Client identity string reported to database servers on connect
/// (PostgreSQL `application_name`, MySQL `program_name`, SQL Server
/// `Application Name`, MongoDB `appName`, Redis `CLIENT SETNAME`).
pub fn client_identity() -> (r: &'static str)
    ensures
        r@ == client_identity_text(),
{
    proof {
        reveal_strlit("dbflux/0.8.0");
        reveal_strlit("dbflux/");
        reveal_strlit("0.8.0");
    }
    let r = "dbflux/0.8.0";
    assert(r@ =~= client_identity_text());
    r
}

/// The characters the AWS SDK's `AppName` accepts: ASCII letters and digits
/// and ``!#$%&'*+-.^_`|~``.
pub open spec fn is_app_name_char(c: char) -> bool {
    ||| 'a' <= c <= 'z'
    ||| 'A' <= c <= 'Z'
    ||| '0' <= c <= '9'
    ||| c == '!' || c == '#' || c == '$' || c == '%' || c == '&' || c == '\'' || c == '*'
    ||| c == '+' || c == '-' || c == '.' || c == '^' || c == '_' || c == '`' || c == '|' || c == '~'
}

proof fn lemma_dash_for_slash_fits_app_name(s: Seq<char>)
    requires
        forall|i: int| 0 <= i < s.len() ==> is_app_name_char(#[trigger] s[i]) || s[i] == '/',
    ensures
        forall|i: int| 0 <= i < replace_char(s, '/', "-"@).len() ==> is_app_name_char(
            #[trigger] replace_char(s, '/', "-"@)[i],
        ),
    decreases s.len(),
{
    reveal_strlit("-");
    if s.len() > 0 {
        let rest = s.drop_first();
        assert forall|i: int| 0 <= i < rest.len() implies is_app_name_char(#[trigger] rest[i]) || rest[i] == '/' by {
            assert(rest[i] == s[i + 1]);
        }
        lemma_dash_for_slash_fits_app_name(rest);
        let head = if s[0] == '/' { "-"@ } else { seq![s[0]] };
        let tail = replace_char(rest, '/', "-"@);
        assert(replace_char(s, '/', "-"@) == head + tail);
        assert forall|i: int| 0 <= i < (head + tail).len() implies is_app_name_char(#[trigger] (head + tail)[i]) by {
            if i >= head.len() {
                assert((head + tail)[i] == tail[i - head.len()]);
            }
        }
    }
}

/// Every character of the client identity token is one `AppName` accepts.
pub proof fn law_client_identity_token_fits_app_name()
    ensures
        forall|i: int| 0 <= i < replace_char(client_identity_text(), '/', "-"@).len() ==> is_app_name_char(
            #[trigger] replace_char(client_identity_text(), '/', "-"@)[i],
        ),
{
    reveal_strlit("dbflux/");
    reveal_strlit("0.8.0");
    let s = client_identity_text();
    assert forall|i: int| 0 <= i < s.len() implies is_app_name_char(#[trigger] s[i]) || s[i] == '/' by {
        if i < 7 {
            assert(s[i] == "dbflux/"@[i]);
        } else {
            assert(s[i] == "0.8.0"@[i - 7]);
        }
    }
    lemma_dash_for_slash_fits_app_name(s);
}

/// Client identity in the charset the AWS SDK's `AppName` accepts: the `/`
/// separator becomes `-`, every other character already fits.
pub fn client_identity_token() -> (r: String)
    ensures
        r@ == replace_char(client_identity_text(), '/', "-"@),
{
    replace_char_with(client_identity(), '/', "-")
}

} // verus!
