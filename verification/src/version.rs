use vstd::prelude::*;

verus! {

#[verifier::external_type_specification]
#[verifier::external_body]
pub struct ExSemverVersion(semver::Version);

/// The numbered parts of a semantic version: major, minor, patch, the
/// pre-release text and the build-metadata text.
pub type VersionParts = (u64, u64, u64, Seq<char>, Seq<char>);

/// What `semver::Version::parse` makes of a text: the parts of the version,
/// or `None` when the text is not a semantic version.
pub uninterp spec fn semver_parse(text: Seq<char>) -> Option<VersionParts>;

/// The message of the error that `semver::Version::parse` gives for a text
/// that is not a semantic version, as the error prints it.
pub uninterp spec fn semver_parse_error(text: Seq<char>) -> Seq<char>;

/// Whether one version comes strictly before another in the precedence
/// order of `semver::Version` (`<`), given their parts.
pub uninterp spec fn semver_precedes(a: VersionParts, b: VersionParts) -> bool;

/// A parsed semantic version. Values are made only by [`parse_version`], so
/// the parts always are those of the version they were read from.
pub struct SemVer {
    major: u64,
    minor: u64,
    patch: u64,
    pre: String,
    build: String,
    version: semver::Version,
}

impl SemVer {
    pub closed spec fn parts(self) -> VersionParts {
        (self.major, self.minor, self.patch, self.pre@, self.build@)
    }
}

/// Parses `text` with `semver::Version::parse`. The contract states that the
/// parts are those that the parser gives (named by [`semver_parse`]), that
/// an error comes exactly when the parser refuses the text, and that its text
/// is the parser's printed message (named by [`semver_parse_error`]).
#[verifier::external_body]
pub(crate) fn parse_version(text: &str) -> (r: Result<SemVer, String>)
    ensures
        match r {
            Ok(v) => semver_parse(text@) == Some(v.parts()),
            Err(m) => semver_parse(text@) is None && m@ == semver_parse_error(text@),
        },
{
    match semver::Version::parse(text) {
        Ok(v) => Ok(SemVer {
            major: v.major,
            minor: v.minor,
            patch: v.patch,
            pre: v.pre.as_str().to_string(),
            build: v.build.as_str().to_string(),
            version: v,
        }),
        Err(e) => Err(e.to_string()),
    }
}

/// Compares two versions with `<` of `semver::Version`. The contract claims
/// that the answer depends on the versions' parts alone, which holds because
/// that order is defined on exactly those parts. It also claims that the
/// order is strict: a version does not come before an equal one.
#[verifier::external_body]
pub(crate) fn version_precedes(a: &SemVer, b: &SemVer) -> (r: bool)
    ensures
        r == semver_precedes(a.parts(), b.parts()),
        a.parts() == b.parts() ==> !r,
{
    a.version < b.version
}

} // verus!
