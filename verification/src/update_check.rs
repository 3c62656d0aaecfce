//! Deciding whether a newer release exists.
//!
//! This module is deliberately offline: it turns a GitHub releases payload
//! into a yes/no answer and nothing else. The HTTP call lives in the
//! application layer, which keeps the interesting part — which releases count,
//! and which version wins — checkable without a network.
//!
//! Release channels do not see each other's releases. A stable build must not
//! be told about a release candidate, and an rc build must be told about both
//! newer rcs and the stable release that supersedes it. Nightly is excluded
//! altogether: it publishes one rolling release whose version carries a commit
//! sha, so every launch would report an "update" that is really just today's
//! build.
//!
//! Precedence follows semver (through the `semver` crate), which is the reason
//! this does not compare strings: `0.8.0-rc.2` is newer than `0.8.0-rc.1` but
//! older than `0.8.0`.

use vstd::prelude::*;
use vstd::string::*;

use crate::release_channel::ReleaseChannel;
use crate::text::{
    chars_of, seq_contains, seq_starts_with, starts_with_chars, str_contains, string_from_range,
    trim_leading, trim_start_char, trim_trailing,
};

verus! {

#[verifier::external_type_specification]
#[verifier::external_body]
pub struct ExSemverVersion(semver::Version);

/// Whether `semver::Version::parse` accepts `text`.
pub uninterp spec fn semver_accepts(text: Seq<char>) -> bool;

/// Whether the version `semver` parses from `a` is greater than the one it
/// parses from `b`, in the order `semver::Version` implements (semver
/// precedence, with build metadata breaking the remaining ties).
pub uninterp spec fn semver_greater(a: Seq<char>, b: Seq<char>) -> bool;

/// A version that `semver` accepted, together with the text it was read from.
///
/// Only `parse_version` builds one, so `inner` is always the parse of `source`.
pub struct SemverVersion {
    source: String,
    inner: semver::Version,
}

impl View for SemverVersion {
    type V = Seq<char>;

    closed spec fn view(&self) -> Seq<char> {
        self.source@
    }
}

/// `semver::Version::parse`: `Some` exactly when the crate accepts `text`.
/// No version is greater than itself (`Version`'s `Ord` is a total order).
#[verifier::external_body]
fn parse_version(text: &str) -> (r: Option<SemverVersion>)
    ensures
        match r {
            Some(v) => semver_accepts(text@) && v@ == text@,
            None => !semver_accepts(text@),
        },
        r matches Some(v) ==> !semver_greater(v@, v@),
{
    match semver::Version::parse(text) {
        Ok(inner) => Some(SemverVersion { source: text.to_string(), inner }),
        Err(_) => None,
    }
}

/// `>` on `semver::Version`. `Version`'s `Ord` (derived over its fields) is a
/// total order, so `>` is irreflexive and asymmetric, and "not greater" is
/// transitive over every version that parses; the last three clauses state
/// that.
#[verifier::external_body]
fn version_greater(a: &SemverVersion, b: &SemverVersion) -> (r: bool)
    ensures
        r == semver_greater(a@, b@),
        a@ == b@ ==> !r,
        r ==> !semver_greater(b@, a@),
        forall|c: Seq<char>|
            #![trigger semver_greater(c, b@)]
            semver_accepts(c) && !r && !semver_greater(c, a@) ==> !semver_greater(c, b@),
{
    a.inner > b.inner
}

/// `Version::to_string`. `Display` writes the major, minor and patch numbers,
/// then `-` and the pre-release and `+` and the build metadata when present,
/// each as it was parsed; `parse` refuses leading zeros, spaces and empty
/// parts, so for an accepted text that is the text itself.
#[verifier::external_body]
fn version_to_string(v: &SemverVersion) -> (r: String)
    ensures
        r@ == v@,
{
    v.inner.to_string()
}

/// One entry from `GET /repos/{owner}/{repo}/releases`.
///
/// Only the fields the decision needs are kept.
#[derive(Debug, Clone)]
pub struct GitHubRelease {
    pub tag_name: String,
    pub html_url: String,
    pub prerelease: bool,
    pub draft: bool,
}

/// A release newer than the running build, ready to show to the user.
#[derive(Debug, Clone, PartialEq, Eq)]
pub struct AvailableUpdate {
    /// Version without the leading `v`, as the user should read it.
    pub version: String,
    /// The release page, for "Details".
    pub url: String,
}

/// The repository releases are published to.
pub open spec fn repository_text() -> Seq<char> {
    "https://github.com/0xErwin1/dbflux"@
}

/// The repository releases are published to — the same value the About
/// screen links to.
pub fn repository_url() -> (r: &'static str)
    ensures
        r@ == repository_text(),
{
    "https://github.com/0xErwin1/dbflux"
}

/// Number of occurrences of `c` in `s`.
pub open spec fn count_char(s: Seq<char>, c: char) -> nat
    decreases s.len(),
{
    if s.len() == 0 {
        0
    } else {
        count_char(s.drop_last(), c) + if s.last() == c { 1nat } else { 0nat }
    }
}

/// `owner/repo` and nothing else: exactly one `/`, with something on either side.
pub open spec fn is_owner_repo(path: Seq<char>) -> bool {
    &&& path.len() > 0
    &&& count_char(path, '/') == 1
    &&& path[0] != '/'
    &&& path.last() != '/'
}

/// The releases endpoint for a repository URL, when it is a
/// `https://github.com/owner/repo` URL (trailing slashes ignored).
pub open spec fn github_releases_endpoint(repository: Seq<char>) -> Option<Seq<char>> {
    let url = trim_trailing(repository, '/');
    let prefix = "https://github.com/"@;
    if seq_starts_with(url, prefix) && is_owner_repo(url.skip(prefix.len() as int)) {
        Some("https://api.github.com/repos/"@ + url.skip(prefix.len() as int) + "/releases?per_page=30"@)
    } else {
        None
    }
}

/// A non-empty path segment: no `/` in it.
pub open spec fn is_segment(s: Seq<char>) -> bool {
    s.len() > 0 && forall|i: int| 0 <= i < s.len() ==> s[i] != '/'
}

proof fn lemma_count_char_concat(a: Seq<char>, b: Seq<char>, c: char)
    ensures
        count_char(a + b, c) == count_char(a, c) + count_char(b, c),
    decreases b.len(),
{
    if b.len() > 0 {
        assert((a + b).drop_last() =~= a + b.drop_last());
        lemma_count_char_concat(a, b.drop_last(), c);
    } else {
        assert(a + b =~= a);
    }
}

proof fn lemma_count_char_zero(s: Seq<char>, c: char)
    ensures
        (count_char(s, c) == 0) == (forall|i: int| 0 <= i < s.len() ==> s[i] != c),
    decreases s.len(),
{
    if s.len() > 0 {
        lemma_count_char_zero(s.drop_last(), c);
        if count_char(s, c) == 0 {
            assert forall|i: int| 0 <= i < s.len() implies s[i] != c by {
                if i < s.len() - 1 {
                    assert(s[i] == s.drop_last()[i]);
                }
            }
        } else if s.last() != c {
            let i = choose|i: int| 0 <= i < s.drop_last().len() && s.drop_last()[i] == c;
            assert(s[i] == c);
        }
    }
}

proof fn lemma_count_char_split(s: Seq<char>, c: char)
    requires
        count_char(s, c) == 1,
    ensures
        exists|k: int| 0 <= k < s.len() && s[k] == c && count_char(s.take(k), c) == 0 && count_char(s.skip(k + 1), c) == 0,
    decreases s.len(),
{
    let last = s.len() - 1;
    if s.last() == c {
        assert(s.take(last) =~= s.drop_last());
        assert(s.skip(last + 1) =~= Seq::<char>::empty());
        assert(s[last] == c && count_char(s.take(last), c) == 0 && count_char(s.skip(last + 1), c) == 0);
    } else {
        lemma_count_char_split(s.drop_last(), c);
        let k = choose|k: int| 0 <= k < s.drop_last().len() && s.drop_last()[k] == c
            && count_char(s.drop_last().take(k), c) == 0 && count_char(s.drop_last().skip(k + 1), c) == 0;
        assert(s.drop_last().take(k) =~= s.take(k));
        assert(s.skip(k + 1) =~= s.drop_last().skip(k + 1) + seq![s.last()]);
        lemma_count_char_concat(s.drop_last().skip(k + 1), seq![s.last()], c);
        assert(seq![s.last()].drop_last() =~= Seq::<char>::empty());
        assert(count_char(Seq::<char>::empty(), c) == 0);
        assert(count_char(seq![s.last()], c) == 0);
        assert(s[k] == c);
        assert(0 <= k < s.len() && s[k] == c && count_char(s.take(k), c) == 0 && count_char(s.skip(k + 1), c) == 0);
    }
}

/// The endpoint spells the owner and repository of a
/// `https://github.com/owner/repo` URL (trailing slashes ignored).
pub proof fn law_endpoint_of_owner_and_repo(repository: Seq<char>, owner: Seq<char>, repo: Seq<char>)
    requires
        is_segment(owner),
        is_segment(repo),
        trim_trailing(repository, '/') == "https://github.com/"@ + owner + "/"@ + repo,
    ensures
        github_releases_endpoint(repository) == Some(
            "https://api.github.com/repos/"@ + owner + "/"@ + repo + "/releases?per_page=30"@,
        ),
{
    reveal_strlit("https://github.com/");
    reveal_strlit("/");
    let prefix = "https://github.com/"@;
    let path = owner + "/"@ + repo;
    let url = prefix + path;
    assert(trim_trailing(repository, '/') =~= url);
    assert(url.subrange(0, prefix.len() as int) =~= prefix);
    assert(url.skip(prefix.len() as int) =~= path);
    lemma_count_char_zero(owner, '/');
    lemma_count_char_zero(repo, '/');
    lemma_count_char_concat(owner, "/"@, '/');
    lemma_count_char_concat(owner + "/"@, repo, '/');
    assert("/"@.drop_last() =~= Seq::<char>::empty());
    assert(count_char(Seq::<char>::empty(), '/') == 0);
    assert(count_char("/"@, '/') == 1);
    assert(count_char(path, '/') == 1);
    assert(path[0] == owner[0]);
    assert(path.last() == repo.last());
    assert(is_owner_repo(path));
    assert(seq_starts_with(url, prefix));
    assert("https://api.github.com/repos/"@ + path + "/releases?per_page=30"@ =~= "https://api.github.com/repos/"@
        + owner + "/"@ + repo + "/releases?per_page=30"@);
}

/// An endpoint is built only from a `https://github.com/owner/repo` URL
/// (trailing slashes ignored) with non-empty owner and repository free of
/// `/`: another host or scheme, a missing or empty part, or a deeper path
/// gives `None`.
pub proof fn law_endpoint_needs_owner_and_repo(repository: Seq<char>)
    requires
        github_releases_endpoint(repository) is Some,
    ensures
        exists|owner: Seq<char>, repo: Seq<char>|
            is_segment(owner) && is_segment(repo) && trim_trailing(repository, '/') == "https://github.com/"@ + owner
                + "/"@ + repo,
{
    reveal_strlit("https://github.com/");
    reveal_strlit("/");
    let prefix = "https://github.com/"@;
    let url = trim_trailing(repository, '/');
    let path = url.skip(prefix.len() as int);
    lemma_count_char_split(path, '/');
    let k = choose|k: int| 0 <= k < path.len() && path[k] == '/' && count_char(path.take(k), '/') == 0
        && count_char(path.skip(k + 1), '/') == 0;
    let owner = path.take(k);
    let repo = path.skip(k + 1);
    lemma_count_char_zero(owner, '/');
    lemma_count_char_zero(repo, '/');
    assert(k != 0);
    assert(k != path.len() - 1);
    assert(owner[0] == path[0]);
    assert(path =~= owner + "/"@ + repo);
    assert(url =~= prefix + path);
    assert(is_segment(owner) && is_segment(repo) && url == prefix + owner + "/"@ + repo);
}

/// The releases endpoint for `repository`, or `None` when it is not a GitHub
/// repository root this can address.
#[verifier::rlimit(30)]
pub fn releases_api_url_for(repository: &str) -> (r: Option<String>)
    ensures
        match r {
            Some(url) => github_releases_endpoint(repository@) == Some(url@),
            None => github_releases_endpoint(repository@) is None,
        },
{
    let cs = chars_of(repository);
    // trim_end_matches('/')
    let mut end = cs.len();
    assert(cs@.subrange(0, end as int) =~= cs@);
    while end > 0 && cs[end - 1] == '/'
        invariant
            end <= cs.len(),
            cs@ == repository@,
            trim_trailing(repository@, '/') == trim_trailing(cs@.subrange(0, end as int), '/'),
        decreases end,
    {
        assert(cs@.subrange(0, end as int).drop_last() =~= cs@.subrange(0, end - 1));
        end -= 1;
    }
    let ghost url = cs@.subrange(0, end as int);
    assert(trim_trailing(url, '/') == url);
    let prefix = chars_of("https://github.com/");
    proof {
        reveal_strlit("https://github.com/");
    }
    if prefix.len() > end || !starts_with_chars(&cs, &prefix) {
        proof {
            if seq_starts_with(url, prefix@) {
                assert(cs@.subrange(0, prefix@.len() as int) =~= url.subrange(0, prefix@.len() as int));
            }
        }
        return None;
    }
    assert(url.subrange(0, prefix@.len() as int) =~= cs@.subrange(0, prefix@.len() as int));
    let start = prefix.len();
    let ghost path = url.skip(start as int);
    // Count the separators of owner/repo.
    let mut slashes: usize = 0;
    let mut i = start;
    while i < end
        invariant
            start <= i <= end <= cs.len(),
            url == cs@.subrange(0, end as int),
            path == url.skip(start as int),
            slashes == count_char(path.subrange(0, i - start), '/'),
            slashes <= i - start,
        decreases end - i,
    {
        assert(path.subrange(0, i + 1 - start).drop_last() =~= path.subrange(0, i - start));
        if cs[i] == '/' {
            slashes += 1;
        }
        i += 1;
    }
    assert(path.subrange(0, end - start) =~= path);
    if start == end || slashes != 1 || cs[start] == '/' || cs[end - 1] == '/' {
        return None;
    }
    let mut out = String::from_str("https://api.github.com/repos/");
    let path_text = string_from_range(&cs, start, end);
    assert(path_text@ =~= path);
    out.append(path_text.as_str());
    out.append("/releases?per_page=30");
    Some(out)
}

/// The releases endpoint for [`repository_url`], or `None` when the metadata is
/// not a GitHub URL this can address.
pub fn releases_api_url() -> (r: Option<String>)
    ensures
        match r {
            Some(url) => github_releases_endpoint(repository_text()) == Some(url@),
            None => github_releases_endpoint(repository_text()) is None,
        },
{
    releases_api_url_for(repository_url())
}

/// Whether this build should ask about updates at all: nightly is a rolling
/// release whose published version differs from any local build by a commit
/// sha, so the check has nothing meaningful to say there.
pub fn channel_wants_update_check(channel: ReleaseChannel) -> (r: bool)
    ensures
        r == (channel != ReleaseChannel::Nightly),
{
    !matches!(channel, ReleaseChannel::Nightly)
}

/// The URL to ask for releases, or `None` when there is nothing to ask: the
/// check is switched off, the channel does not want it, or the repository is
/// not one the endpoint can be built for.
pub fn update_request_url(enabled: bool, channel: ReleaseChannel, repository: &str) -> (r: Option<String>)
    ensures
        match r {
            Some(url) => enabled && channel != ReleaseChannel::Nightly
                && github_releases_endpoint(repository@) == Some(url@),
            None => !enabled || channel == ReleaseChannel::Nightly
                || github_releases_endpoint(repository@) is None,
        },
{
    if !enabled || !channel_wants_update_check(channel) {
        return None;
    }
    releases_api_url_for(repository)
}

/// The repository the update check asks: the package's `repository`
/// metadata, so a fork that publishes its own builds points the check at
/// itself, or [`repository_url`] when the metadata is empty.
pub fn package_repository(metadata: &str) -> (r: &str)
    ensures
        r@ == (if metadata@.len() == 0 { repository_text() } else { metadata@ }),
{
    if metadata.is_empty() {
        repository_url()
    } else {
        metadata
    }
}

/// The version the user skipped, as `newest_update` takes it: an empty
/// setting means nothing was skipped.
pub fn skipped_version_option(skipped_version: &str) -> (r: Option<&str>)
    ensures
        r == (if skipped_version@.len() == 0 { None } else { Some(skipped_version) }),
{
    if skipped_version.is_empty() {
        None
    } else {
        Some(skipped_version)
    }
}

/// Whether `channel` should be offered `release`: never a draft; a stable
/// install only full releases; an rc install anything but nightlies; nightly
/// nothing.
pub open spec fn channel_accepts_spec(channel: ReleaseChannel, release: GitHubRelease) -> bool {
    !release.draft && match channel {
        ReleaseChannel::Stable => !release.prerelease,
        ReleaseChannel::Rc => !seq_contains(release.tag_name@, "-nightly"@),
        ReleaseChannel::Nightly => false,
    }
}

fn channel_accepts(channel: ReleaseChannel, release: &GitHubRelease) -> (r: bool)
    ensures
        r == channel_accepts_spec(channel, *release),
{
    if release.draft {
        return false;
    }
    match channel {
        ReleaseChannel::Stable => !release.prerelease,
        ReleaseChannel::Rc => !str_contains(release.tag_name.as_str(), "-nightly"),
        ReleaseChannel::Nightly => false,
    }
}

/// The version text of a release: its tag without leading `v`s.
pub open spec fn release_version_text(release: GitHubRelease) -> Seq<char> {
    trim_leading(release.tag_name@, 'v')
}

/// The skipped version as a bound, when it parses (leading `v`s ignored).
pub open spec fn skip_bound(skipped: Option<Seq<char>>) -> Option<Seq<char>> {
    match skipped {
        Some(s) => if semver_accepts(trim_leading(s, 'v')) {
            Some(trim_leading(s, 'v'))
        } else {
            None
        },
        None => None,
    }
}

/// Whether `release` is worth telling a `channel` build at version `current`
/// about, given the skipped bound `skip`.
pub open spec fn is_offered(
    channel: ReleaseChannel,
    current: Seq<char>,
    skip: Option<Seq<char>>,
    release: GitHubRelease,
) -> bool {
    &&& channel_accepts_spec(channel, release)
    &&& semver_accepts(release_version_text(release))
    &&& semver_greater(release_version_text(release), current)
    &&& match skip {
        Some(s) => semver_greater(release_version_text(release), s),
        None => true,
    }
}

/// Index of the release `Iterator::max_by` picks among the offered ones: the
/// running maximum, where a later release replaces it unless the kept one is
/// strictly greater.
pub open spec fn newest_offered(
    channel: ReleaseChannel,
    current: Seq<char>,
    skip: Option<Seq<char>>,
    releases: Seq<GitHubRelease>,
) -> Option<int>
    decreases releases.len(),
{
    if releases.len() == 0 {
        None
    } else {
        let prev = newest_offered(channel, current, skip, releases.drop_last());
        let last = releases.len() - 1;
        if is_offered(channel, current, skip, releases.last()) {
            match prev {
                Some(b) => if semver_greater(
                    release_version_text(releases[b]),
                    release_version_text(releases.last()),
                ) {
                    Some(b)
                } else {
                    Some(last)
                },
                None => Some(last),
            }
        } else {
            prev
        }
    }
}

/// Index of the release `newest_update` reports, if any.
pub open spec fn update_choice(
    current: Seq<char>,
    channel: ReleaseChannel,
    releases: Seq<GitHubRelease>,
    skipped: Option<Seq<char>>,
) -> Option<int> {
    if channel == ReleaseChannel::Nightly || !semver_accepts(current) {
        None
    } else {
        newest_offered(channel, current, skip_bound(skipped), releases)
    }
}

/// The page shown for a release: its own page, or the repository when the
/// payload has none.
pub open spec fn release_page(release: GitHubRelease, repository: Seq<char>) -> Seq<char> {
    if release.html_url@.len() == 0 {
        repository
    } else {
        release.html_url@
    }
}

pub open spec fn opt_view(s: Option<&str>) -> Option<Seq<char>> {
    match s {
        Some(t) => Some(t@),
        None => None,
    }
}

proof fn lemma_newest_offered_in_range(
    channel: ReleaseChannel,
    current: Seq<char>,
    skip: Option<Seq<char>>,
    releases: Seq<GitHubRelease>,
)
    ensures
        newest_offered(channel, current, skip, releases) matches Some(i) ==> 0 <= i < releases.len()
            && is_offered(channel, current, skip, releases[i]),
    decreases releases.len(),
{
    if releases.len() > 0 {
        lemma_newest_offered_in_range(channel, current, skip, releases.drop_last());
    }
}

proof fn lemma_newest_offered_is_last(
    channel: ReleaseChannel,
    current: Seq<char>,
    skip: Option<Seq<char>>,
    releases: Seq<GitHubRelease>,
)
    ensures
        newest_offered(channel, current, skip, releases) matches Some(i) ==> forall|j: int|
            i < j < releases.len() && is_offered(channel, current, skip, #[trigger] releases[j]) ==> semver_greater(
                release_version_text(releases[i]),
                release_version_text(releases[j]),
            ),
    decreases releases.len(),
{
    if releases.len() > 0 {
        let prefix = releases.drop_last();
        let last = releases.len() - 1;
        lemma_newest_offered_is_last(channel, current, skip, prefix);
        lemma_newest_offered_in_range(channel, current, skip, prefix);
        if let Some(i) = newest_offered(channel, current, skip, releases) {
            if i != last {
                assert(prefix[i] == releases[i]);
                assert forall|j: int|
                    i < j < releases.len() && is_offered(channel, current, skip, #[trigger] releases[j])
                    implies semver_greater(release_version_text(releases[i]), release_version_text(releases[j])) by {
                    if j < last {
                        assert(prefix[j] == releases[j]);
                    }
                }
            }
        }
    }
}

/// Whether any release is worth telling a `channel` build at `current` about.
pub open spec fn some_release_offered(
    channel: ReleaseChannel,
    current: Seq<char>,
    skip: Option<Seq<char>>,
    releases: Seq<GitHubRelease>,
) -> bool {
    exists|j: int| 0 <= j < releases.len() && is_offered(channel, current, skip, #[trigger] releases[j])
}

/// The closed form of the update choice: nothing is reported exactly when the
/// build is nightly, its version does not parse, or no release is offered;
/// otherwise the reported release is offered and every offered release after
/// it is strictly older, so among releases of its version it is the last.
/// (That no offered release is newer is stated by `newest_update`.)
pub proof fn law_update_choice_closed_form(
    current: Seq<char>,
    channel: ReleaseChannel,
    releases: Seq<GitHubRelease>,
    skipped: Option<Seq<char>>,
)
    ensures
        (update_choice(current, channel, releases, skipped) is None) <==> (channel == ReleaseChannel::Nightly
            || !semver_accepts(current) || !some_release_offered(channel, current, skip_bound(skipped), releases)),
        update_choice(current, channel, releases, skipped) matches Some(i) ==> {
            &&& 0 <= i < releases.len()
            &&& is_offered(channel, current, skip_bound(skipped), releases[i])
            &&& forall|j: int|
                i < j < releases.len() && is_offered(channel, current, skip_bound(skipped), #[trigger] releases[j])
                    ==> semver_greater(release_version_text(releases[i]), release_version_text(releases[j]))
        },
{
    let skip = skip_bound(skipped);
    if channel != ReleaseChannel::Nightly && semver_accepts(current) {
        lemma_newest_offered_in_range(channel, current, skip, releases);
        lemma_newest_offered_is_last(channel, current, skip, releases);
        if some_release_offered(channel, current, skip, releases) {
            let j = choose|j: int| 0 <= j < releases.len() && is_offered(channel, current, skip, #[trigger] releases[j]);
            lemma_newest_offered_exists(channel, current, skip, releases, j);
        }
    }
}

/// The newest release worth telling the user about, if any.
///
/// `current` is the running version. `skipped` is the version the user
/// dismissed with "skip this version"; a *newer* release still gets through,
/// so skipping once does not mute the check for good. Returns `None` when the
/// running build is current, newer than anything published, or when nothing
/// parses — a malformed tag is skipped rather than treated as an update.
pub fn newest_update(
    current: &str,
    channel: ReleaseChannel,
    releases: &[GitHubRelease],
    skipped: Option<&str>,
) -> (r: Option<AvailableUpdate>)
    ensures
        match update_choice(current@, channel, releases@, opt_view(skipped)) {
            None => r is None,
            Some(i) => r matches Some(u) && 0 <= i < releases@.len()
                && u.version@ == release_version_text(releases@[i])
                && u.url@ == release_page(releases@[i], repository_text())
                && forall|j: int|
                    0 <= j < releases@.len() && is_offered(
                        channel,
                        current@,
                        skip_bound(opt_view(skipped)),
                        #[trigger] releases@[j],
                    ) ==> !semver_greater(release_version_text(releases@[j]), release_version_text(releases@[i])),
        },
        r is None <==> (channel == ReleaseChannel::Nightly || !semver_accepts(current@) || !some_release_offered(
            channel,
            current@,
            skip_bound(opt_view(skipped)),
            releases@,
        )),
{
    newest_update_for(current, channel, releases, skipped, repository_url())
}

/// [`newest_update`] for the releases of `repository`, whose page stands in
/// for a release that has none.
pub fn newest_update_for(
    current: &str,
    channel: ReleaseChannel,
    releases: &[GitHubRelease],
    skipped: Option<&str>,
    repository: &str,
) -> (r: Option<AvailableUpdate>)
    ensures
        match update_choice(current@, channel, releases@, opt_view(skipped)) {
            None => r is None,
            Some(i) => r matches Some(u) && 0 <= i < releases@.len()
                && u.version@ == release_version_text(releases@[i])
                && u.url@ == release_page(releases@[i], repository@)
                && forall|j: int|
                    0 <= j < releases@.len() && is_offered(
                        channel,
                        current@,
                        skip_bound(opt_view(skipped)),
                        #[trigger] releases@[j],
                    ) ==> !semver_greater(release_version_text(releases@[j]), release_version_text(releases@[i])),
        },
        r is None <==> (channel == ReleaseChannel::Nightly || !semver_accepts(current@) || !some_release_offered(
            channel,
            current@,
            skip_bound(opt_view(skipped)),
            releases@,
        )),
{
    proof {
        law_update_choice_closed_form(current@, channel, releases@, opt_view(skipped));
    }
    if !channel_wants_update_check(channel) {
        return None;
    }
    let current_version = match parse_version(current) {
        Some(v) => v,
        None => return None,
    };
    let skip: Option<SemverVersion> = match skipped {
        Some(value) => {
            let trimmed = trim_start_char(value, 'v');
            parse_version(trimmed.as_str())
        },
        None => None,
    };
    let ghost skip_view: Option<Seq<char>> = skip_bound(opt_view(skipped));
    assert(match skip {
        Some(s) => skip_view == Some(s@),
        None => skip_view is None,
    });

    let mut best: Option<(usize, SemverVersion)> = None;
    let n = releases.len();
    for i in 0..n
        invariant
            n == releases@.len(),
            current_version@ == current@,
            match skip {
                Some(s) => skip_view == Some(s@),
                None => skip_view is None,
            },
            match best {
                None => newest_offered(channel, current@, skip_view, releases@.take(i as int)) is None,
                Some((b, bv)) => b < i && newest_offered(channel, current@, skip_view, releases@.take(i as int))
                    == Some(b as int) && bv@ == release_version_text(releases@[b as int]),
            },
            match best {
                None => forall|j: int| 0 <= j < i ==> !is_offered(channel, current@, skip_view, #[trigger] releases@[j]),
                Some((b, bv)) => forall|j: int|
                    0 <= j < i && is_offered(channel, current@, skip_view, #[trigger] releases@[j])
                        ==> !semver_greater(release_version_text(releases@[j]), bv@),
            },
    {
        let ghost prefix = releases@.take(i + 1);
        assert(prefix.drop_last() =~= releases@.take(i as int));
        assert(prefix.last() == releases@[i as int]);
        let release = &releases[i];
        let mut offered: Option<SemverVersion> = None;
        if channel_accepts(channel, release) {
            let text = trim_start_char(release.tag_name.as_str(), 'v');
            match parse_version(text.as_str()) {
                Some(v) => {
                    let newer_than_skip = match &skip {
                        Some(s) => version_greater(&v, s),
                        None => true,
                    };
                    if version_greater(&v, &current_version) && newer_than_skip {
                        offered = Some(v);
                    }
                },
                None => {},
            }
        }
        assert(offered is Some <==> is_offered(channel, current@, skip_view, releases@[i as int]));
        match offered {
            Some(v) => {
                best = match best {
                    Some((b, bv)) => {
                        proof {
                            assert(prefix[b as int] == releases@[b as int]);
                        }
                        if version_greater(&bv, &v) {
                            Some((b, bv))
                        } else {
                            Some((i, v))
                        }
                    },
                    None => Some((i, v)),
                };
            },
            None => {},
        }
    }
    assert(releases@.take(n as int) =~= releases@);
    match best {
        Some((b, bv)) => Some(available_update(&releases[b], version_to_string(&bv), repository)),
        None => None,
    }
}

/// The update to show for `release`, whose version reads `version`: the
/// release's own page, or the repository when the payload has none.
pub fn available_update(release: &GitHubRelease, version: String, repository: &str) -> (r: AvailableUpdate)
    ensures
        r.version@ == version@,
        r.url@ == release_page(*release, repository@),
{
    let url = if release.html_url.as_str().is_empty() {
        String::from_str(repository)
    } else {
        release.html_url.clone()
    };
    AvailableUpdate { version, url }
}

// ---------------------------------------------------------------------------
// Laws of the update decision

/// Nightly builds are never offered an update, whatever is published.
pub proof fn law_nightly_is_never_offered(
    current: Seq<char>,
    releases: Seq<GitHubRelease>,
    skipped: Option<Seq<char>>,
)
    ensures
        update_choice(current, ReleaseChannel::Nightly, releases, skipped) is None,
{
}

/// A build whose own version does not parse is never offered an update.
pub proof fn law_unparseable_current_is_never_offered(
    current: Seq<char>,
    channel: ReleaseChannel,
    releases: Seq<GitHubRelease>,
    skipped: Option<Seq<char>>,
)
    requires
        !semver_accepts(current),
    ensures
        update_choice(current, channel, releases, skipped) is None,
{
}

/// What the reported release satisfies: it is not a draft; a stable build
/// only hears of full releases and an rc build never of nightlies; its tag
/// parses; it is strictly newer than the running build and than the skipped
/// version (when that parses).
pub proof fn law_offered_release_qualifies(
    current: Seq<char>,
    channel: ReleaseChannel,
    releases: Seq<GitHubRelease>,
    skipped: Option<Seq<char>>,
)
    ensures
        update_choice(current, channel, releases, skipped) matches Some(i) ==> {
            &&& 0 <= i < releases.len()
            &&& channel != ReleaseChannel::Nightly
            &&& !releases[i].draft
            &&& (channel == ReleaseChannel::Stable ==> !releases[i].prerelease)
            &&& (channel == ReleaseChannel::Rc ==> !seq_contains(releases[i].tag_name@, "-nightly"@))
            &&& semver_accepts(release_version_text(releases[i]))
            &&& semver_greater(release_version_text(releases[i]), current)
            &&& (skip_bound(skipped) matches Some(s) ==> semver_greater(release_version_text(releases[i]), s))
        },
{
    if channel != ReleaseChannel::Nightly && semver_accepts(current) {
        lemma_newest_offered_in_range(channel, current, skip_bound(skipped), releases);
    }
}

proof fn lemma_newest_offered_exists(
    channel: ReleaseChannel,
    current: Seq<char>,
    skip: Option<Seq<char>>,
    releases: Seq<GitHubRelease>,
    j: int,
)
    requires
        0 <= j < releases.len(),
        is_offered(channel, current, skip, releases[j]),
    ensures
        newest_offered(channel, current, skip, releases) is Some,
    decreases releases.len(),
{
    if j < releases.len() - 1 {
        assert(releases.drop_last()[j] == releases[j]);
        lemma_newest_offered_exists(channel, current, skip, releases.drop_last(), j);
    }
}

/// When at least one published release qualifies, an update is reported: the
/// check never stays quiet about a qualifying release.
pub proof fn law_update_reported_when_one_qualifies(
    current: Seq<char>,
    channel: ReleaseChannel,
    releases: Seq<GitHubRelease>,
    skipped: Option<Seq<char>>,
    j: int,
)
    requires
        channel != ReleaseChannel::Nightly,
        semver_accepts(current),
        0 <= j < releases.len(),
        is_offered(channel, current, skip_bound(skipped), releases[j]),
    ensures
        update_choice(current, channel, releases, skipped) is Some,
{
    lemma_newest_offered_exists(channel, current, skip_bound(skipped), releases, j);
}

} // verus!
