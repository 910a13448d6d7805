//! The remote catalog: the releases a download server offers, and how a
//! version request is matched against them.

use crate::foreign;
use crate::text;
use vstd::prelude::*;

verus! {

/// One published release.
#[derive(Debug, Clone, PartialEq, Eq)]
pub struct GoVersionInfo {
    pub version: String,
    pub stable: bool,
}

impl View for GoVersionInfo {
    type V = (Seq<char>, bool);

    open spec fn view(&self) -> (Seq<char>, bool) {
        (self.version@, self.stable)
    }
}

/// A catalog as a sequence of version texts with their stability.
pub open spec fn catalog_view(catalog: Seq<GoVersionInfo>) -> Seq<(Seq<char>, bool)> {
    Seq::new(catalog.len(), |i: int| catalog[i]@)
}

/// A version that `semver` has parsed: its numbers, tags and written form.
#[derive(Debug, Clone, PartialEq, Eq)]
pub struct SemVer {
    pub major: u64,
    pub minor: u64,
    pub patch: u64,
    pub pre: String,
    pub build: String,
    pub text: String,
}

impl View for SemVer {
    type V = (u64, u64, u64, Seq<char>, Seq<char>);

    open spec fn view(&self) -> (u64, u64, u64, Seq<char>, Seq<char>) {
        (self.major, self.minor, self.patch, self.pre@, self.build@)
    }
}

/// Why a request matched no release.
#[derive(Debug, Clone, PartialEq, Eq)]
pub enum MatchError {
    /// The catalog holds no stable release.
    NoStableVersion,
    /// No release has the version asked for.
    VersionNotFound { spec: String },
    /// The version asked for is no semantic version.
    InvalidVersion { spec: String, reason: String },
    /// The partial version asked for makes no requirement.
    InvalidRequirement { spec: String, reason: String },
    /// No release satisfies the partial version asked for.
    NoMatchingVersion { spec: String },
}

/// Why a request matched no release, without the wording.
pub enum MatchFailure {
    NoStableVersion,
    VersionNotFound(Seq<char>),
    InvalidVersion(Seq<char>),
    InvalidRequirement(Seq<char>),
    NoMatchingVersion(Seq<char>),
}

impl View for MatchError {
    type V = MatchFailure;

    open spec fn view(&self) -> MatchFailure {
        match self {
            MatchError::NoStableVersion => MatchFailure::NoStableVersion,
            MatchError::VersionNotFound { spec } => MatchFailure::VersionNotFound(spec@),
            MatchError::InvalidVersion { spec, reason } => MatchFailure::InvalidVersion(spec@),
            MatchError::InvalidRequirement { spec, reason } => MatchFailure::InvalidRequirement(
                spec@,
            ),
            MatchError::NoMatchingVersion { spec } => MatchFailure::NoMatchingVersion(spec@),
        }
    }
}

/// The address of the catalog of all releases.
pub open spec fn catalog_url_text() -> Seq<char> {
    "https://go.dev/dl/?mode=json&include=all"@
}

/// A release's version without the toolchain's name in front.
pub open spec fn bare_version(version: Seq<char>) -> Seq<char> {
    text::without_leading(version, "go"@)
}

/// The bare version of the first stable release of a catalog.
pub open spec fn latest_stable(catalog: Seq<(Seq<char>, bool)>) -> Option<Seq<char>>
    decreases catalog.len(),
{
    if catalog.len() == 0 {
        None
    } else if catalog.first().1 {
        Some(bare_version(catalog.first().0))
    } else {
        latest_stable(catalog.drop_first())
    }
}

/// Whether a catalog holds a release whose bare version is `spec`.
pub open spec fn offers(catalog: Seq<(Seq<char>, bool)>, spec: Seq<char>) -> bool {
    exists|i: int| 0 <= i < catalog.len() && bare_version(#[trigger] catalog[i].0) == spec
}

/// The version that a request selects from a catalog: for `latest` the first
/// stable release, else the release whose bare version is the request.
pub open spec fn matched(spec: Seq<char>, catalog: Seq<(Seq<char>, bool)>) -> Result<
    Seq<char>,
    MatchFailure,
> {
    if spec == "latest"@ {
        match latest_stable(catalog) {
            Some(v) => Ok(v),
            None => Err(MatchFailure::NoStableVersion),
        }
    } else if offers(catalog, spec) {
        Ok(spec)
    } else {
        Err(MatchFailure::VersionNotFound(spec))
    }
}

/// Whether a catalog holds a release whose bare version parses to the
/// semantic version `parts`.
pub open spec fn offers_semver(
    catalog: Seq<(Seq<char>, bool)>,
    parts: (u64, u64, u64, Seq<char>, Seq<char>),
) -> bool {
    exists|i: int|
        0 <= i < catalog.len() && foreign::semver_parse(bare_version(#[trigger] catalog[i].0))
            == Some(parts)
}

/// The bare versions of a catalog that are semantic versions and satisfy the
/// requirement `req`, in the catalog's order.
pub open spec fn candidates(catalog: Seq<(Seq<char>, bool)>, req: Seq<char>) -> Seq<Seq<char>>
    decreases catalog.len(),
{
    if catalog.len() == 0 {
        Seq::empty()
    } else {
        let rest = candidates(catalog.drop_last(), req);
        let v = bare_version(catalog.last().0);
        if foreign::semver_parse(v) is Some && foreign::semver_req_matches(req, v) {
            rest.push(v)
        } else {
            rest
        }
    }
}

/// The greatest of some versions in semantic-version order, the last one
/// among equals; nothing where there are none.
pub open spec fn highest(versions: Seq<Seq<char>>) -> Option<Seq<char>>
    decreases versions.len(),
{
    if versions.len() == 0 {
        None
    } else {
        match highest(versions.drop_last()) {
            Some(best) => if foreign::semver_precedence(best, versions.last()) > 0 {
                Some(best)
            } else {
                Some(versions.last())
            },
            None => Some(versions.last()),
        }
    }
}

/// The requirement that a partial version stands for: any release that
/// continues it.
pub open spec fn tilde(spec: Seq<char>) -> Seq<char> {
    "~"@ + spec
}

/// The version that a request selects from a catalog where versions are
/// read as semantic versions: for `latest` the first stable release; for a
/// full version, of two dots, that version if a release parses to it; for a
/// partial version the greatest release that continues it.
pub open spec fn resolved(spec: Seq<char>, catalog: Seq<(Seq<char>, bool)>) -> Result<
    Seq<char>,
    MatchFailure,
> {
    if spec == "latest"@ {
        match latest_stable(catalog) {
            Some(v) => Ok(v),
            None => Err(MatchFailure::NoStableVersion),
        }
    } else if text::occurrences(spec, '.') == 2 {
        match foreign::semver_parse(spec) {
            None => Err(MatchFailure::InvalidVersion(spec)),
            Some(parts) => if offers_semver(catalog, parts) {
                Ok(spec)
            } else {
                Err(MatchFailure::VersionNotFound(spec))
            },
        }
    } else if !foreign::semver_req_valid(tilde(spec)) {
        Err(MatchFailure::InvalidRequirement(spec))
    } else {
        match highest(candidates(catalog, tilde(spec))) {
            Some(v) => Ok(v),
            None => Err(MatchFailure::NoMatchingVersion(spec)),
        }
    }
}

/// The version that a request selects from a catalog, the exact rule
/// first: what [`matched`] selects, and, where no release has exactly the
/// version asked for, what [`resolved`] selects by reading the request as a
/// semantic version, full or partial.
pub open spec fn selected(spec: Seq<char>, catalog: Seq<(Seq<char>, bool)>) -> Result<
    Seq<char>,
    MatchFailure,
> {
    match matched(spec, catalog) {
        Err(MatchFailure::VersionNotFound(_)) => resolved(spec, catalog),
        decided => decided,
    }
}

/// The address of the catalog of all releases.
pub fn catalog_url() -> (r: &'static str)
    ensures
        r@ == catalog_url_text(),
{
    "https://go.dev/dl/?mode=json&include=all"
}

/// A release's version without the toolchain's name in front.
pub fn bare_of(version: &str) -> (r: &str)
    ensures
        r@ == bare_version(version@),
{
    text::strip_leading(version, "go")
}

/// The bare version of the first stable release, if there is one.
pub fn find_latest_stable(catalog: &Vec<GoVersionInfo>) -> (r: Option<String>)
    ensures
        r is Some <==> latest_stable(catalog_view(catalog@)) is Some,
        r is Some ==> r->Some_0@ == latest_stable(catalog_view(catalog@))->Some_0,
{
    let ghost c = catalog_view(catalog@);
    let mut i: usize = 0;
    assert(c.skip(0) =~= c);
    while i < catalog.len()
        invariant
            i <= catalog.len(),
            c == catalog_view(catalog@),
            latest_stable(c) == latest_stable(c.skip(i as int)),
        decreases catalog.len() - i,
    {
        assert(c.skip(i as int).first() == catalog@[i as int]@);
        if catalog[i].stable {
            let bare = bare_of(catalog[i].version.as_str());
            return Some(String::from_str(bare));
        }
        assert(c.skip(i as int).drop_first() =~= c.skip(i + 1));
        i += 1;
    }
    None
}

/// Whether the catalog holds a release whose bare version is `spec`.
pub fn catalog_offers(catalog: &Vec<GoVersionInfo>, spec: &str) -> (r: bool)
    ensures
        r == offers(catalog_view(catalog@), spec@),
{
    let ghost c = catalog_view(catalog@);
    let mut i: usize = 0;
    while i < catalog.len()
        invariant
            i <= catalog.len(),
            c == catalog_view(catalog@),
            forall|j: int| 0 <= j < i ==> bare_version(#[trigger] c[j].0) != spec@,
        decreases catalog.len() - i,
    {
        let bare = bare_of(catalog[i].version.as_str());
        if text::same_text(bare, spec) {
            assert(bare_version(c[i as int].0) == spec@);
            return true;
        }
        i += 1;
    }
    false
}

/// Matches a request against a catalog: `latest` selects the first stable
/// release, any other text the release of exactly that bare version.
pub fn match_version(spec: &str, catalog: &Vec<GoVersionInfo>) -> (r: Result<String, MatchError>)
    ensures
        match matched(spec@, catalog_view(catalog@)) {
            Ok(v) => r is Ok && r->Ok_0@ == v,
            Err(e) => r is Err && r->Err_0@ == e,
        },
{
    if text::same_text(spec, "latest") {
        match find_latest_stable(catalog) {
            Some(v) => Ok(v),
            None => Err(MatchError::NoStableVersion),
        }
    } else if catalog_offers(catalog, spec) {
        Ok(String::from_str(spec))
    } else {
        Err(MatchError::VersionNotFound { spec: String::from_str(spec) })
    }
}

/// Whether two parsed versions are the same version.
pub fn same_version(a: &SemVer, b: &SemVer) -> (r: bool)
    ensures
        r == (a@ == b@),
{
    a.major == b.major && a.minor == b.minor && a.patch == b.patch && text::same_text(
        a.pre.as_str(),
        b.pre.as_str(),
    ) && text::same_text(a.build.as_str(), b.build.as_str())
}

/// Whether the catalog holds a release whose bare version parses to `wanted`.
pub fn catalog_offers_semver(catalog: &Vec<GoVersionInfo>, wanted: &SemVer) -> (r: bool)
    ensures
        r == offers_semver(catalog_view(catalog@), wanted@),
{
    let ghost c = catalog_view(catalog@);
    let mut i: usize = 0;
    while i < catalog.len()
        invariant
            i <= catalog.len(),
            c == catalog_view(catalog@),
            forall|j: int|
                0 <= j < i ==> foreign::semver_parse(bare_version(#[trigger] c[j].0)) != Some(
                    wanted@,
                ),
        decreases catalog.len() - i,
    {
        let bare = bare_of(catalog[i].version.as_str());
        match foreign::parse_version(bare) {
            Ok(found) => {
                if same_version(&found, wanted) {
                    assert(foreign::semver_parse(bare_version(c[i as int].0)) == Some(wanted@));
                    return true;
                }
            },
            Err(_) => {},
        }
        i += 1;
    }
    false
}

/// The greatest release that satisfies the valid requirement `req`: none of
/// the other candidates comes after it.
pub fn highest_candidate(catalog: &Vec<GoVersionInfo>, req: &str) -> (r: Option<String>)
    requires
        foreign::semver_req_valid(req@),
    ensures
        r is Some <==> highest(candidates(catalog_view(catalog@), req@)) is Some,
        r is Some ==> r->Some_0@ == highest(candidates(catalog_view(catalog@), req@))->Some_0,
        r is Some ==> candidates(catalog_view(catalog@), req@).contains(r->Some_0@),
        r is Some ==> forall|k: int|
            0 <= k < candidates(catalog_view(catalog@), req@).len() && #[trigger] candidates(
                catalog_view(catalog@),
                req@,
            )[k] != r->Some_0@ ==> foreign::semver_precedence(
                candidates(catalog_view(catalog@), req@)[k],
                r->Some_0@,
            ) <= 0,
{
    let ghost c = catalog_view(catalog@);
    let mut best: Option<String> = None;
    let mut i: usize = 0;
    assert(c.take(0) =~= Seq::<(Seq<char>, bool)>::empty());
    while i < catalog.len()
        invariant
            i <= catalog.len(),
            c == catalog_view(catalog@),
            foreign::semver_req_valid(req@),
            best is Some <==> highest(candidates(c.take(i as int), req@)) is Some,
            best is Some ==> best->Some_0@ == highest(candidates(c.take(i as int), req@))->Some_0,
            best is Some ==> foreign::semver_parse(best->Some_0@) is Some,
            best is Some ==> candidates(c.take(i as int), req@).contains(best->Some_0@),
            best is Some ==> forall|k: int|
                0 <= k < candidates(c.take(i as int), req@).len() && #[trigger] candidates(
                    c.take(i as int),
                    req@,
                )[k] != best->Some_0@ ==> foreign::semver_precedence(
                    candidates(c.take(i as int), req@)[k],
                    best->Some_0@,
                ) <= 0,
            forall|k: int|
                0 <= k < candidates(c.take(i as int), req@).len() ==> foreign::semver_parse(
                    #[trigger] candidates(c.take(i as int), req@)[k],
                ) is Some,
        decreases catalog.len() - i,
    {
        let ghost before = candidates(c.take(i as int), req@);
        let ghost after = candidates(c.take(i + 1), req@);
        assert(c.take(i + 1).drop_last() =~= c.take(i as int));
        assert(c.take(i + 1).last() == c[i as int]);
        let bare = bare_of(catalog[i].version.as_str());
        let admitted = match foreign::requirement_matches(req, bare) {
            Ok(m) => m,
            Err(_) => false,
        };
        if admitted {
            assert(after == before.push(bare@));
            assert(after.drop_last() =~= before);
            assert(after.last() == bare@);
            let keep = match &best {
                Some(b) => match foreign::version_sign(b.as_str(), bare) {
                    Ok(sign) => sign > 0,
                    Err(_) => false,
                },
                None => false,
            };
            if keep {
                assert(after[after.len() - 1] == bare@);
                assert forall|k: int|
                    0 <= k < after.len() && #[trigger] after[k]
                        != best->Some_0@ implies foreign::semver_precedence(
                    after[k],
                    best->Some_0@,
                ) <= 0 by {
                    if k < before.len() {
                        assert(after[k] == before[k]);
                    }
                }
                assert(after.contains(best->Some_0@)) by {
                    let w = choose|w: int| 0 <= w < before.len() && before[w] == best->Some_0@;
                    assert(after[w] == best->Some_0@);
                }
            } else {
                assert forall|k: int|
                    0 <= k < after.len() && #[trigger] after[k]
                        != bare@ implies foreign::semver_precedence(after[k], bare@) <= 0 by {
                    if k < before.len() {
                        assert(after[k] == before[k]);
                    }
                }
                assert(after[after.len() - 1] == bare@);
                best = Some(String::from_str(bare));
            }
            assert forall|k: int| 0 <= k < after.len() implies foreign::semver_parse(
                #[trigger] after[k],
            ) is Some by {
                if k < before.len() {
                    assert(after[k] == before[k]);
                }
            }
        } else {
            assert(after == before);
        }
        i += 1;
    }
    assert(c.take(catalog.len() as int) =~= c);
    best
}

/// Resolves a request against a catalog, reading versions as semantic
/// versions: `latest` selects the first stable release, a full version the
/// release that parses to it, a partial version the greatest release that
/// continues it.
pub fn resolve_go_version(spec: &str, catalog: &Vec<GoVersionInfo>) -> (r: Result<
    String,
    MatchError,
>)
    ensures
        match resolved(spec@, catalog_view(catalog@)) {
            Ok(v) => r is Ok && r->Ok_0@ == v,
            Err(e) => r is Err && r->Err_0@ == e,
        },
{
    if text::same_text(spec, "latest") {
        return match find_latest_stable(catalog) {
            Some(v) => Ok(v),
            None => Err(MatchError::NoStableVersion),
        };
    }
    if text::count_char(spec, '.') == 2 {
        return match foreign::parse_version(spec) {
            Err(e) => Err(
                MatchError::InvalidVersion {
                    spec: String::from_str(spec),
                    reason: foreign::semver_error_text(&e),
                },
            ),
            Ok(wanted) => if catalog_offers_semver(catalog, &wanted) {
                Ok(wanted.text)
            } else {
                Err(MatchError::VersionNotFound { spec: String::from_str(spec) })
            },
        };
    }
    let req = String::from_str("~").concat(spec);
    match foreign::parse_requirement(req.as_str()) {
        Err(e) => Err(
            MatchError::InvalidRequirement {
                spec: String::from_str(spec),
                reason: foreign::semver_error_text(&e),
            },
        ),
        Ok(_) => match highest_candidate(catalog, req.as_str()) {
            Some(v) => Ok(v),
            None => Err(MatchError::NoMatchingVersion { spec: String::from_str(spec) }),
        },
    }
}

/// Selects the release for a request: `latest` selects the first stable
/// release; any other text the release of exactly that version, be it a
/// pre-release that is no semantic version; and where there is none, the
/// release that the text selects when read as a semantic version, full or
/// partial.
pub fn select_version(spec: &str, catalog: &Vec<GoVersionInfo>) -> (r: Result<String, MatchError>)
    ensures
        match selected(spec@, catalog_view(catalog@)) {
            Ok(v) => r is Ok && r->Ok_0@ == v,
            Err(e) => r is Err && r->Err_0@ == e,
        },
{
    match match_version(spec, catalog) {
        Err(MatchError::VersionNotFound { spec: _ }) => resolve_go_version(spec, catalog),
        decided => decided,
    }
}

impl MatchError {
    /// The failure in words. For a request that `semver` rejects, the words
    /// are those of `semver`.
    pub fn message(&self) -> (r: String)
        ensures
            self@ == MatchFailure::NoStableVersion ==> r@
                == "Could not find a stable Go version."@,
            self matches MatchError::VersionNotFound { spec } ==> r@ == "Go version "@ + spec@
                + " not found."@,
            self matches MatchError::InvalidVersion { spec, reason } ==> r@ == reason@,
            self matches MatchError::InvalidRequirement { spec, reason } ==> r@ == reason@,
            self matches MatchError::NoMatchingVersion { spec } ==> r@
                == "No matching Go version found for spec '"@ + spec@ + "'"@,
    {
        match self {
            MatchError::NoStableVersion => String::from_str("Could not find a stable Go version."),
            MatchError::VersionNotFound { spec } => {
                let mut m = String::from_str("Go version ");
                m.append(spec.as_str());
                m.append(" not found.");
                m
            },
            MatchError::InvalidVersion { spec, reason } => reason.clone(),
            MatchError::InvalidRequirement { spec, reason } => reason.clone(),
            MatchError::NoMatchingVersion { spec } => {
                let mut m = String::from_str("No matching Go version found for spec '");
                m.append(spec.as_str());
                m.append("'");
                m
            },
        }
    }
}

/// Of the releases of a catalog, the first stable one is the latest: where
/// only unstable releases stand before a stable one, `latest` selects that
/// one, whatever follows it.
pub proof fn latest_skips_unstable_releases(catalog: Seq<(Seq<char>, bool)>, at: int)
    requires
        0 <= at < catalog.len(),
        catalog[at].1,
        forall|i: int| 0 <= i < at ==> !(#[trigger] catalog[i]).1,
    ensures
        latest_stable(catalog) == Some(bare_version(catalog[at].0)),
        matched("latest"@, catalog) == Ok::<Seq<char>, MatchFailure>(bare_version(catalog[at].0)),
    decreases at,
{
    if at > 0 {
        let rest = catalog.drop_first();
        assert(rest[at - 1] == catalog[at]);
        assert forall|i: int| 0 <= i < at - 1 implies !(#[trigger] rest[i]).1 by {
            assert(rest[i] == catalog[i + 1]);
        }
        latest_skips_unstable_releases(rest, at - 1);
    }
}

/// A request other than `latest` selects exactly the version it names: it
/// is matched where the catalog offers that version, and else not found.
pub proof fn exact_request_selects_itself(spec: Seq<char>, catalog: Seq<(Seq<char>, bool)>, at: int)
    requires
        spec != "latest"@,
        0 <= at < catalog.len(),
        bare_version(catalog[at].0) == spec,
    ensures
        matched(spec, catalog) == Ok::<Seq<char>, MatchFailure>(spec),
{
}

} // verus!
