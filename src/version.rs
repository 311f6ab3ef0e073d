use std::cmp::Ordering;
use vstd::prelude::*;

verus! {

/// A semantic version as the supervisor reasons about it: the three numeric
/// components and the pre-release tag (empty for a release). Build metadata
/// plays no part in precedence and is not kept.
pub struct Version {
    pub major: u64,
    pub minor: u64,
    pub patch: u64,
    pub pre: String,
}

/// The mathematical value of a version.
pub ghost struct SemVer {
    pub major: u64,
    pub minor: u64,
    pub patch: u64,
    pub pre: Seq<char>,
}

impl View for Version {
    type V = SemVer;

    open spec fn view(&self) -> SemVer {
        SemVer { major: self.major, minor: self.minor, patch: self.patch, pre: self.pre@ }
    }
}

/// What `semver::Version::parse` yields for a text: the numeric components and
/// the pre-release tag, or `None` where the text is no semantic version.
pub uninterp spec fn parsed_version(text: Seq<char>) -> Option<SemVer>;

/// How `semver::Prerelease` orders two tags, or `None` where either text is
/// no valid pre-release tag.
pub uninterp spec fn prerelease_cmp(a: Seq<char>, b: Seq<char>) -> Option<Ordering>;

/// The decimal digits of `n`, most significant first, with no sign or padding.
pub open spec fn decimal_digits(n: nat) -> Seq<char>
    decreases n,
{
    if n < 10 {
        seq![digit_char(n)]
    } else {
        decimal_digits(n / 10).push(digit_char(n % 10))
    }
}

pub open spec fn digit_char(d: nat) -> char {
    if d == 0 { '0' }
    else if d == 1 { '1' }
    else if d == 2 { '2' }
    else if d == 3 { '3' }
    else if d == 4 { '4' }
    else if d == 5 { '5' }
    else if d == 6 { '6' }
    else if d == 7 { '7' }
    else if d == 8 { '8' }
    else { '9' }
}

pub open spec fn cmp_u64(a: u64, b: u64) -> Ordering {
    if a < b {
        Ordering::Less
    } else if a > b {
        Ordering::Greater
    } else {
        Ordering::Equal
    }
}

/// Semantic-version precedence: major, minor and patch numerically, then the
/// pre-release tags as semver orders them. `None` where the numbers tie and a
/// tag is not valid.
pub open spec fn version_order(a: SemVer, b: SemVer) -> Option<Ordering> {
    if a.major != b.major {
        Some(cmp_u64(a.major, b.major))
    } else if a.minor != b.minor {
        Some(cmp_u64(a.minor, b.minor))
    } else if a.patch != b.patch {
        Some(cmp_u64(a.patch, b.patch))
    } else {
        prerelease_cmp(a.pre, b.pre)
    }
}

/// `a` is known to come strictly before `b`.
pub open spec fn version_older(a: SemVer, b: SemVer) -> bool {
    version_order(a, b) == Some(Ordering::Less)
}

/// The text a version is displayed as: `major.minor.patch`, then `-pre` when
/// there is a pre-release tag.
pub open spec fn version_display(v: SemVer) -> Seq<char> {
    let core = decimal_digits(v.major as nat) + seq!['.'] + decimal_digits(v.minor as nat) + seq!['.']
        + decimal_digits(v.patch as nat);
    if v.pre.len() == 0 {
        core
    } else {
        core + seq!['-'] + v.pre
    }
}

/// Relies on `semver::Version::parse`: the components and pre-release tag of
/// the parsed version, build metadata dropped.
#[verifier::external_body]
fn semver_parse(text: &str) -> (r: Option<Version>)
    ensures
        match r {
            Some(v) => parsed_version(text@) == Some(v@),
            None => parsed_version(text@) is None,
        },
{
    match semver::Version::parse(text) {
        Ok(v) => Some(
            Version { major: v.major, minor: v.minor, patch: v.patch, pre: v.pre.as_str().to_string() },
        ),
        Err(_) => None,
    }
}

/// Relies on `semver::Prerelease::new` to validate each tag and on the `Ord`
/// of `semver::Prerelease` to order them.
#[verifier::external_body]
fn semver_prerelease_cmp(a: &str, b: &str) -> (r: Option<Ordering>)
    ensures
        r == prerelease_cmp(a@, b@),
{
    match (semver::Prerelease::new(a), semver::Prerelease::new(b)) {
        (Ok(x), Ok(y)) => Some(x.cmp(&y)),
        _ => None,
    }
}

/// Relies on the `Display` of `u64`: plain decimal digits.
#[verifier::external_body]
fn decimal_text(n: u64) -> (r: String)
    ensures
        r@ == decimal_digits(n as nat),
{
    n.to_string()
}

fn cmp_numbers(a: u64, b: u64) -> (r: Ordering)
    ensures
        r == cmp_u64(a, b),
{
    if a < b {
        Ordering::Less
    } else if a > b {
        Ordering::Greater
    } else {
        Ordering::Equal
    }
}

impl Version {
    /// A release version with no pre-release tag.
    pub fn new(major: u64, minor: u64, patch: u64) -> (r: Version)
        ensures
            r.major == major,
            r.minor == minor,
            r.patch == patch,
            r.pre@.len() == 0,
    {
        Version { major, minor, patch, pre: String::new() }
    }

    /// Reads a version from its text, as semver does.
    pub fn parse(text: &str) -> (r: Option<Version>)
        ensures
            match r {
                Some(v) => parsed_version(text@) == Some(v@),
                None => parsed_version(text@) is None,
            },
    {
        semver_parse(text)
    }

    /// An independent copy of this version.
    pub fn copied(&self) -> (r: Version)
        ensures
            r@ == self@,
    {
        Version { major: self.major, minor: self.minor, patch: self.patch, pre: self.pre.clone() }
    }

    /// Precedence of `self` against `other`.
    pub fn compare(&self, other: &Version) -> (r: Option<Ordering>)
        ensures
            r == version_order(self@, other@),
    {
        if self.major != other.major {
            Some(cmp_numbers(self.major, other.major))
        } else if self.minor != other.minor {
            Some(cmp_numbers(self.minor, other.minor))
        } else if self.patch != other.patch {
            Some(cmp_numbers(self.patch, other.patch))
        } else {
            semver_prerelease_cmp(self.pre.as_str(), other.pre.as_str())
        }
    }

    /// Whether `self` is known to precede `other`.
    pub fn is_older_than(&self, other: &Version) -> (r: bool)
        ensures
            r == version_older(self@, other@),
    {
        match self.compare(other) {
            Some(Ordering::Less) => true,
            _ => false,
        }
    }

    /// The display text of the version.
    pub fn to_text(&self) -> (r: String)
        ensures
            r@ == version_display(self@),
    {
        let mut out = decimal_text(self.major);
        out.append(".");
        let minor = decimal_text(self.minor);
        out.append(minor.as_str());
        out.append(".");
        let patch = decimal_text(self.patch);
        out.append(patch.as_str());
        if self.pre.as_str().unicode_len() > 0 {
            out.append("-");
            out.append(self.pre.as_str());
        }
        proof {
            reveal_strlit(".");
            reveal_strlit("-");
        }
        out
    }
}

} // verus!
