//! The development version of a local pack: the crate's version with a
//! pre-release tag that ends in a build number, such as `0.1.0-dev.1500000000`.

use vstd::prelude::*;
use vstd::string::*;

verus! {

/// `semver::Error`, why `semver::Version::parse` refused a version, carried
/// as it is.
#[verifier::external_type_specification]
#[verifier::external_body]
pub struct ExSemverError(semver::Error);

/// A semantic version: numbers, pre-release identifiers and build metadata,
/// the last two as written, without their `-` and `+`.
#[derive(Debug, PartialEq, Eq)]
pub struct SemVer {
    pub major: u64,
    pub minor: u64,
    pub patch: u64,
    pub pre: String,
    pub build: String,
}

/// Why a development version could not be made.
#[derive(Debug)]
pub enum CargoVersionError {
    /// The version is not a semantic version.
    Parse(semver::Error),
    /// The build number, a time stamp, is before the epoch.
    PreEpoch,
}

/// The parts of the semantic version `s` is, if it is one: the three
/// numbers, the pre-release and the build metadata.
pub uninterp spec fn semver_parts(s: Seq<char>) -> Option<(u64, u64, u64, Seq<char>, Seq<char>)>;

/// The decimal digit of a number below ten.
pub open spec fn digit(d: nat) -> char {
    if d == 0 {
        '0'
    } else if d == 1 {
        '1'
    } else if d == 2 {
        '2'
    } else if d == 3 {
        '3'
    } else if d == 4 {
        '4'
    } else if d == 5 {
        '5'
    } else if d == 6 {
        '6'
    } else if d == 7 {
        '7'
    } else if d == 8 {
        '8'
    } else {
        '9'
    }
}

/// A number in decimal, without leading zeros.
pub open spec fn decimal(n: nat) -> Seq<char>
    decreases n,
{
    if n < 10 {
        seq![digit(n)]
    } else {
        decimal(n / 10) + seq![digit(n % 10)]
    }
}

/// A version as written: `{major}.{minor}.{patch}`, then `-{pre}` and
/// `+{build}` where they are not empty.
pub open spec fn version_text(v: SemVer) -> Seq<char> {
    decimal(v.major as nat) + "."@ + decimal(v.minor as nat) + "."@ + decimal(v.patch as nat) + if v.pre@.len() > 0 {
        "-"@ + v.pre@
    } else {
        Seq::empty()
    } + if v.build@.len() > 0 {
        "+"@ + v.build@
    } else {
        Seq::empty()
    }
}

/// The pre-release after a build number is added: `{tag}.{num}` where there
/// was none, else `{pre}.{num}`.
pub open spec fn tagged_pre(pre: Seq<char>, tag: Seq<char>, num: u64) -> Seq<char> {
    (if pre.len() == 0 {
        tag
    } else {
        pre
    }) + "."@ + decimal(num as nat)
}

/// Relies on `semver::Version::parse`: on success the parts of the version,
/// the pre-release and build metadata as `as_str` gives them.
#[verifier::external_body]
fn parse_semver(s: &str) -> (r: Result<SemVer, semver::Error>)
    ensures
        match r {
            Ok(v) => semver_parts(s@) == Some((v.major, v.minor, v.patch, v.pre@, v.build@)),
            Err(_) => semver_parts(s@) is None,
        },
{
    semver::Version::parse(s).map(
        |v| SemVer {
            major: v.major,
            minor: v.minor,
            patch: v.patch,
            pre: v.pre.as_str().to_string(),
            build: v.build.as_str().to_string(),
        },
    )
}

/// The digit of a number below ten, as a string.
fn digit_str(d: u64) -> (r: &'static str)
    requires
        d < 10,
    ensures
        r@ == seq![digit(d as nat)],
{
    proof {
        reveal_strlit("0");
        reveal_strlit("1");
        reveal_strlit("2");
        reveal_strlit("3");
        reveal_strlit("4");
        reveal_strlit("5");
        reveal_strlit("6");
        reveal_strlit("7");
        reveal_strlit("8");
        reveal_strlit("9");
    }
    if d == 0 {
        "0"
    } else if d == 1 {
        "1"
    } else if d == 2 {
        "2"
    } else if d == 3 {
        "3"
    } else if d == 4 {
        "4"
    } else if d == 5 {
        "5"
    } else if d == 6 {
        "6"
    } else if d == 7 {
        "7"
    } else if d == 8 {
        "8"
    } else {
        "9"
    }
}

/// A number in decimal.
pub fn decimal_string(n: u64) -> (r: String)
    ensures
        r@ == decimal(n as nat),
    decreases n,
{
    if n < 10 {
        String::from_str(digit_str(n))
    } else {
        let mut r = decimal_string(n / 10);
        r.append(digit_str(n % 10));
        r
    }
}

impl SemVer {
    /// Parses a semantic version.
    pub fn parse(s: &str) -> (r: Result<SemVer, semver::Error>)
        ensures
            match r {
                Ok(v) => semver_parts(s@) == Some((v.major, v.minor, v.patch, v.pre@, v.build@)),
                Err(_) => semver_parts(s@) is None,
            },
    {
        parse_semver(s)
    }

    /// The version as written.
    pub fn to_string(&self) -> (r: String)
        ensures
            r@ == version_text(*self),
    {
        let mut r = decimal_string(self.major);
        r.append(".");
        r.append(decimal_string(self.minor).as_str());
        r.append(".");
        r.append(decimal_string(self.patch).as_str());
        if self.pre.unicode_len() > 0 {
            r.append("-");
            r.append(self.pre.as_str());
        }
        if self.build.unicode_len() > 0 {
            r.append("+");
            r.append(self.build.as_str());
        }
        proof {
            assert(r@ =~= version_text(*self));
        }
        r
    }
}

/// Adds a build number to a version's pre-release, starting one named `tag`
/// where there is none, and drops its build metadata.
pub fn add_pretag(ver: &mut SemVer, tag: &str, num: u64)
    ensures
        final(ver).major == old(ver).major,
        final(ver).minor == old(ver).minor,
        final(ver).patch == old(ver).patch,
        final(ver).pre@ == tagged_pre(old(ver).pre@, tag@, num),
        final(ver).build@.len() == 0,
{
    let mut pre = if ver.pre.unicode_len() == 0 {
        String::from_str(tag)
    } else {
        ver.pre.clone()
    };
    pre.append(".");
    pre.append(decimal_string(num).as_str());
    ver.pre = pre;
    ver.build = String::new();
}

/// The development version of `ver`, numbered with a time stamp in seconds.
pub fn get_dev_version(ver: &str, timestamp: i64) -> (r: Result<String, CargoVersionError>)
    ensures
        semver_parts(ver@) is None ==> r matches Err(CargoVersionError::Parse(_)),
        semver_parts(ver@) is Some && timestamp < 0 ==> r matches Err(CargoVersionError::PreEpoch),
        r matches Ok(s) ==> timestamp >= 0 && (semver_parts(ver@) matches Some(
            (major, minor, patch, pre, build),
        ) && s@ == decimal(major as nat) + "."@ + decimal(minor as nat) + "."@ + decimal(
            patch as nat,
        ) + "-"@ + tagged_pre(pre, "dev"@, timestamp as u64)),
        semver_parts(ver@) is Some && timestamp >= 0 ==> r is Ok,
{
    let mut v = match SemVer::parse(ver) {
        Ok(v) => v,
        Err(e) => {
            return Err(CargoVersionError::Parse(e));
        },
    };
    if timestamp < 0 {
        return Err(CargoVersionError::PreEpoch);
    }
    add_pretag(&mut v, "dev", timestamp as u64);
    let s = v.to_string();
    proof {
        assert(v.pre@.len() > 0);
    }
    Ok(s)
}

} // verus!
