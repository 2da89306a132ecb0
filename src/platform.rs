//! Platforms, architectures and their runtime identifiers (`win-x64`, ...).
//!
//! A runtime identifier names a platform and an architecture. For the
//! supported pairs it is `{platform}-{arch}`, with the platform one of `win`,
//! `linux` and `osx` and the architecture one of `x86` and `x64`; a target that
//! cannot be resolved is written `any`. Parsing is the exact inverse: a string
//! is either the identifier of exactly one supported pair or it is refused.

use vstd::prelude::*;
use vstd::string::*;
use crate::text::{find_char, join2, join3, str_eq};

verus! {

/// The kind of `cargo` command to run.
#[derive(Clone, Copy, Debug, Hash, PartialEq, Eq, Structural)]
pub enum Action {
    Build,
    Test,
}

/// The `cargo` profile to build with.
#[derive(Clone, Copy, Debug, Hash, PartialEq, Eq, Structural)]
pub enum Profile {
    Debug,
    Release,
}

/// A known processor architecture.
#[allow(non_camel_case_types)]
#[derive(Clone, Copy, Debug, Hash, PartialEq, Eq, Structural)]
pub enum Arch {
    x64,
    x86,
}

/// A supported platform together with its architecture.
#[derive(Clone, Copy, Debug, Hash, PartialEq, Eq, Structural)]
pub enum CrossTarget {
    Windows(Arch),
    Linux(Arch),
    MacOS(Arch),
}

/// A build target: the host the build runs on, an explicit supported pair,
/// or a target that could not be determined.
#[derive(Clone, Copy, Debug, Hash, PartialEq, Eq, Structural)]
pub enum Target {
    Local,
    Unknown,
    Cross(CrossTarget),
}

/// The machine this process runs on, in the words of `std::env::consts`
/// (`os` such as `"linux"`, `arch` such as `"x86_64"`).
#[derive(Debug)]
pub struct Host {
    pub os: String,
    pub arch: String,
}

/// An architecture as the package sees it: possibly unknown.
#[allow(non_camel_case_types)]
#[derive(Clone, Copy, Debug, Hash, PartialEq, Eq, PartialOrd, Ord, Structural)]
pub enum NugetArch {
    Unknown,
    x64,
    x86,
}

/// A platform and architecture as the package sees them: either axis may be
/// unknown.
#[derive(Clone, Copy, Debug, Hash, PartialEq, Eq, PartialOrd, Ord, Structural)]
pub enum NugetTarget {
    Unknown,
    Windows(NugetArch),
    Linux(NugetArch),
    MacOS(NugetArch),
}

/// The identifier token of a package architecture, if it is known.
pub open spec fn nuget_arch_rid(a: NugetArch) -> Option<Seq<char>> {
    match a {
        NugetArch::x86 => Some("x86"@),
        NugetArch::x64 => Some("x64"@),
        NugetArch::Unknown => None,
    }
}

/// `{platform}` or `{platform}-{arch}`, as the architecture is unknown or known.
pub open spec fn with_arch(platform: Seq<char>, a: NugetArch) -> Seq<char> {
    match nuget_arch_rid(a) {
        Some(arch) => platform + "-"@ + arch,
        None => platform,
    }
}

/// The runtime identifier of a package target: the platform token, followed
/// by `-{arch}` where the architecture is known; `any` for an unknown
/// platform.
pub open spec fn nuget_rid(t: NugetTarget) -> Seq<char> {
    match t {
        NugetTarget::Windows(a) => with_arch("win"@, a),
        NugetTarget::Linux(a) => with_arch("linux"@, a),
        NugetTarget::MacOS(a) => with_arch("osx"@, a),
        NugetTarget::Unknown => "any"@,
    }
}

/// The package architecture of a known architecture.
pub open spec fn nuget_arch_of(a: Arch) -> NugetArch {
    match a {
        Arch::x86 => NugetArch::x86,
        Arch::x64 => NugetArch::x64,
    }
}

/// The package target of a supported pair.
pub open spec fn nuget_of_cross(t: CrossTarget) -> NugetTarget {
    match t {
        CrossTarget::Windows(a) => NugetTarget::Windows(nuget_arch_of(a)),
        CrossTarget::Linux(a) => NugetTarget::Linux(nuget_arch_of(a)),
        CrossTarget::MacOS(a) => NugetTarget::MacOS(nuget_arch_of(a)),
    }
}

/// The package target of a build target; `local` is the pair of the host.
pub open spec fn nuget_of_target(t: Target, local: Option<CrossTarget>) -> NugetTarget {
    match target_cross(t, local) {
        Some(c) => nuget_of_cross(c),
        None => NugetTarget::Unknown,
    }
}

/// The package architecture of a host's `std::env::consts::ARCH`.
pub open spec fn host_nuget_arch(arch: Seq<char>) -> NugetArch {
    match host_arch(arch) {
        Some(a) => nuget_arch_of(a),
        None => NugetArch::Unknown,
    }
}

/// The package target of a host, given its `OS` and `ARCH` constants.
pub open spec fn host_nuget_target(os: Seq<char>, arch: Seq<char>) -> NugetTarget {
    if os == "windows"@ {
        NugetTarget::Windows(host_nuget_arch(arch))
    } else if os == "linux"@ {
        NugetTarget::Linux(host_nuget_arch(arch))
    } else if os == "macos"@ {
        NugetTarget::MacOS(host_nuget_arch(arch))
    } else {
        NugetTarget::Unknown
    }
}

/// The identifier of an architecture.
pub open spec fn arch_rid(a: Arch) -> Seq<char> {
    match a {
        Arch::x86 => "x86"@,
        Arch::x64 => "x64"@,
    }
}

/// The architecture a runtime-identifier token names, if any.
pub open spec fn arch_from_rid(s: Seq<char>) -> Option<Arch> {
    if s == "x86"@ {
        Some(Arch::x86)
    } else if s == "x64"@ {
        Some(Arch::x64)
    } else {
        None
    }
}

/// The architecture of a supported target.
pub open spec fn arch_of(t: CrossTarget) -> Arch {
    match t {
        CrossTarget::Windows(a) => a,
        CrossTarget::Linux(a) => a,
        CrossTarget::MacOS(a) => a,
    }
}

/// The platform part of a target's identifier.
pub open spec fn platform_rid(t: CrossTarget) -> Seq<char> {
    match t {
        CrossTarget::Windows(_) => "win"@,
        CrossTarget::Linux(_) => "linux"@,
        CrossTarget::MacOS(_) => "osx"@,
    }
}

/// The runtime identifier of a supported target: `{platform}-{arch}`.
pub open spec fn cross_rid(t: CrossTarget) -> Seq<char> {
    platform_rid(t) + "-"@ + arch_rid(arch_of(t))
}

/// The supported target whose identifier is `s`, if there is one.
pub open spec fn cross_from_rid(s: Seq<char>) -> Option<CrossTarget> {
    if exists|t: CrossTarget| cross_rid(t) == s {
        Some(choose|t: CrossTarget| cross_rid(t) == s)
    } else {
        None
    }
}

/// The target named by `s`: `Target::Unknown` where `s` names no supported
/// target.
pub open spec fn target_from_rid(s: Seq<char>) -> Target {
    match cross_from_rid(s) {
        Some(t) => Target::Cross(t),
        None => Target::Unknown,
    }
}

/// The supported pair a target stands for, given the pair of the host
/// (`None` where the host is not supported).
pub open spec fn target_cross(t: Target, local: Option<CrossTarget>) -> Option<CrossTarget> {
    match t {
        Target::Local => local,
        Target::Unknown => None,
        Target::Cross(c) => Some(c),
    }
}

/// The runtime identifier of a target; `any` where it cannot be resolved.
pub open spec fn target_rid(t: Target, local: Option<CrossTarget>) -> Seq<char> {
    match target_cross(t, local) {
        Some(c) => cross_rid(c),
        None => "any"@,
    }
}

/// The architecture named by a host's `std::env::consts::ARCH`.
pub open spec fn host_arch(arch: Seq<char>) -> Option<Arch> {
    if arch == "x86"@ {
        Some(Arch::x86)
    } else if arch == "x86_64"@ {
        Some(Arch::x64)
    } else {
        None
    }
}

/// The supported pair of a host, given its `OS` and `ARCH` constants.
pub open spec fn host_target(os: Seq<char>, arch: Seq<char>) -> Option<CrossTarget> {
    match host_arch(arch) {
        Some(a) => if os == "windows"@ {
            Some(CrossTarget::Windows(a))
        } else if os == "linux"@ {
            Some(CrossTarget::Linux(a))
        } else if os == "macos"@ {
            Some(CrossTarget::MacOS(a))
        } else {
            None
        },
        None => None,
    }
}

/// Every supported pair, in the order the command line lists them.
pub open spec fn all_targets() -> Seq<CrossTarget> {
    seq![
        CrossTarget::Windows(Arch::x86),
        CrossTarget::MacOS(Arch::x86),
        CrossTarget::Linux(Arch::x86),
        CrossTarget::Windows(Arch::x64),
        CrossTarget::MacOS(Arch::x64),
        CrossTarget::Linux(Arch::x64),
    ]
}

/// No token of an identifier holds the separator `-`.
proof fn lemma_tokens_have_no_dash(t: CrossTarget)
    ensures
        forall|j: int| 0 <= j < platform_rid(t).len() ==> platform_rid(t)[j] != '-',
        forall|j: int| 0 <= j < arch_rid(arch_of(t)).len() ==> arch_rid(arch_of(t))[j] != '-',
        platform_rid(t).len() > 0,
        arch_from_rid(arch_rid(arch_of(t))) == Some(arch_of(t)),
{
    reveal_strlit("win");
    reveal_strlit("linux");
    reveal_strlit("osx");
    reveal_strlit("x86");
    reveal_strlit("x64");
    assert("x86"@[2] != "x64"@[2]);
}

/// Two targets with one identifier are the same target.
pub proof fn lemma_cross_rid_injective(s: CrossTarget, t: CrossTarget)
    requires
        cross_rid(s) == cross_rid(t),
    ensures
        s == t,
{
    reveal_strlit("win");
    reveal_strlit("linux");
    reveal_strlit("osx");
    reveal_strlit("x86");
    reveal_strlit("x64");
    reveal_strlit("-");
    let a = cross_rid(s);
    let b = cross_rid(t);
    let n = a.len();
    assert(a[0] == b[0]);
    assert(a.len() == b.len());
    assert(a[n - 2] == b[n - 2]);
    assert(arch_rid(arch_of(s))[1] == a[n - 2]);
    assert(arch_rid(arch_of(t))[1] == b[n - 2]);
    assert(arch_of(s) == arch_of(t));
    assert(platform_rid(s)[0] == a[0]);
    assert(platform_rid(t)[0] == b[0]);
    match s {
        CrossTarget::Windows(_) => assert(t is Windows),
        CrossTarget::Linux(_) => assert(t is Linux),
        CrossTarget::MacOS(_) => assert(t is MacOS),
    }
}

impl Arch {
    /// The architecture of the host, if it is a known one.
    pub fn local(host: &Host) -> (r: Option<Self>)
        ensures
            r == host_arch(host.arch@),
    {
        if str_eq(host.arch.as_str(), "x86") {
            Some(Arch::x86)
        } else if str_eq(host.arch.as_str(), "x86_64") {
            Some(Arch::x64)
        } else {
            None
        }
    }

    /// The identifier token of the architecture.
    pub fn rid(&self) -> (r: &'static str)
        ensures
            r@ == arch_rid(*self),
    {
        match *self {
            Arch::x86 => "x86",
            Arch::x64 => "x64",
        }
    }

    /// The architecture an identifier token names, if any.
    pub fn from_rid(rid: &str) -> (r: Option<Self>)
        ensures
            r == arch_from_rid(rid@),
    {
        if str_eq(rid, "x86") {
            Some(Arch::x86)
        } else if str_eq(rid, "x64") {
            Some(Arch::x64)
        } else {
            None
        }
    }
}

impl CrossTarget {
    /// The supported pair of the host, if the host is supported.
    pub fn local(host: &Host) -> (r: Option<Self>)
        ensures
            r == host_target(host.os@, host.arch@),
    {
        match Arch::local(host) {
            Some(arch) => {
                let os = host.os.as_str();
                if str_eq(os, "windows") {
                    Some(CrossTarget::Windows(arch))
                } else if str_eq(os, "linux") {
                    Some(CrossTarget::Linux(arch))
                } else if str_eq(os, "macos") {
                    Some(CrossTarget::MacOS(arch))
                } else {
                    None
                }
            },
            None => None,
        }
    }

    /// The architecture of this target.
    pub fn arch(&self) -> (r: Arch)
        ensures
            r == arch_of(*self),
    {
        match *self {
            CrossTarget::Windows(a) => a,
            CrossTarget::Linux(a) => a,
            CrossTarget::MacOS(a) => a,
        }
    }

    /// The platform token of this target's identifier.
    pub fn platform_rid(&self) -> (r: &'static str)
        ensures
            r@ == platform_rid(*self),
    {
        match *self {
            CrossTarget::Windows(_) => "win",
            CrossTarget::Linux(_) => "linux",
            CrossTarget::MacOS(_) => "osx",
        }
    }

    /// The runtime identifier of this target, such as `win-x64`.
    pub fn rid(&self) -> (r: String)
        ensures
            r@ == cross_rid(*self),
    {
        join3(self.platform_rid(), "-", self.arch().rid())
    }

    /// The target whose identifier is `rid`, or `None` when `rid` is the
    /// identifier of no supported target.
    pub fn from_rid(rid: &str) -> (r: Option<Self>)
        ensures
            r == cross_from_rid(rid@),
    {
        proof {
            reveal_strlit("-");
            reveal_strlit("win");
            reveal_strlit("linux");
            reveal_strlit("osx");
        }
        let n = rid.unicode_len();
        let k = match find_char(rid, '-') {
            Some(k) => k,
            None => {
                proof {
                    assert forall|t: CrossTarget| cross_rid(t) != rid@ by {
                        if cross_rid(t) == rid@ {
                            let p = platform_rid(t);
                            assert(cross_rid(t)[p.len() as int] == '-');
                        }
                    }
                }
                return None;
            },
        };
        let platform = rid.substring_char(0, k);
        let arch_token = rid.substring_char(k + 1, n);
        assert(rid@ =~= platform@ + "-"@ + arch_token@);
        let arch = match Arch::from_rid(arch_token) {
            Some(a) => a,
            None => {
                proof {
                    assert forall|t: CrossTarget| cross_rid(t) != rid@ by {
                        if cross_rid(t) == rid@ {
                            Self::lemma_split_matches(t, rid@, k as int);
                        }
                    }
                }
                return None;
            },
        };
        let r = if str_eq(platform, "win") {
            Some(CrossTarget::Windows(arch))
        } else if str_eq(platform, "linux") {
            Some(CrossTarget::Linux(arch))
        } else if str_eq(platform, "osx") {
            Some(CrossTarget::MacOS(arch))
        } else {
            None
        };
        proof {
            lemma_arch_rid_inverse(arch_token@);
            if let Some(t) = r {
                assert(arch_rid(arch_of(t)) == arch_token@);
                assert(platform_rid(t) == platform@);
                assert(cross_rid(t) =~= rid@);
                let u = choose|u: CrossTarget| cross_rid(u) == rid@;
                lemma_cross_rid_injective(u, t);
            }
            if r is None {
                assert forall|t: CrossTarget| cross_rid(t) != rid@ by {
                    if cross_rid(t) == rid@ {
                        Self::lemma_split_matches(t, rid@, k as int);
                    }
                }
            }
        }
        r
    }

    /// Where the identifier of `t` is `s` and the first `-` of `s` is at `k`,
    /// the tokens of `s` on each side of `k` are those of `t`.
    proof fn lemma_split_matches(t: CrossTarget, s: Seq<char>, k: int)
        requires
            cross_rid(t) == s,
            0 <= k < s.len(),
            s[k] == '-',
            forall|j: int| 0 <= j < k ==> s[j] != '-',
        ensures
            s.subrange(0, k) == platform_rid(t),
            s.subrange(k + 1, s.len() as int) == arch_rid(arch_of(t)),
            arch_from_rid(s.subrange(k + 1, s.len() as int)) == Some(arch_of(t)),
    {
        reveal_strlit("-");
        lemma_tokens_have_no_dash(t);
        let p = platform_rid(t);
        assert(s[p.len() as int] == '-');
        assert(s.subrange(0, k) =~= p);
        assert(s.subrange(k + 1, s.len() as int) =~= arch_rid(arch_of(t)));
    }
}

/// A token the parser accepts is the identifier of what it names.
proof fn lemma_arch_rid_inverse(s: Seq<char>)
    ensures
        arch_from_rid(s) matches Some(a) ==> arch_rid(a) == s,
{
}

impl Target {
    /// The supported pair this target stands for; `local` is the pair of the
    /// host, used for `Target::Local`.
    pub fn cross(&self, local: Option<CrossTarget>) -> (r: Option<CrossTarget>)
        ensures
            r == target_cross(*self, local),
    {
        match *self {
            Target::Local => local,
            Target::Unknown => None,
            Target::Cross(target) => Some(target),
        }
    }

    /// Whether this target resolves to no supported pair.
    pub fn is_unknown(&self, local: Option<CrossTarget>) -> (r: bool)
        ensures
            r == target_cross(*self, local).is_none(),
    {
        self.cross(local).is_none()
    }

    /// The runtime identifier of this target, `any` where it is unknown.
    pub fn rid(&self, local: Option<CrossTarget>) -> (r: String)
        ensures
            r@ == target_rid(*self, local),
    {
        match self.cross(local) {
            Some(target) => target.rid(),
            None => String::from_str("any"),
        }
    }

    /// The target named by `rid`; `Target::Unknown` where `rid` is the
    /// identifier of no supported target.
    pub fn from_rid(rid: &str) -> (r: Self)
        ensures
            r == target_from_rid(rid@),
    {
        match CrossTarget::from_rid(rid) {
            Some(target) => Target::Cross(target),
            None => Target::Unknown,
        }
    }
}

/// The name of the command-line option that supplies a pre-built artifact
/// for `target`: `{rid}-path`.
pub fn target_path_arg(target: CrossTarget) -> (r: String)
    ensures
        r@ == cross_rid(target) + "-path"@,
{
    let rid = target.rid();
    join2(rid.as_str(), "-path")
}

/// Every supported target, each architecture in turn.
pub fn supported_targets() -> (r: Vec<CrossTarget>)
    ensures
        r@ == all_targets(),
{
    let mut r: Vec<CrossTarget> = Vec::new();
    r.push(CrossTarget::Windows(Arch::x86));
    r.push(CrossTarget::MacOS(Arch::x86));
    r.push(CrossTarget::Linux(Arch::x86));
    r.push(CrossTarget::Windows(Arch::x64));
    r.push(CrossTarget::MacOS(Arch::x64));
    r.push(CrossTarget::Linux(Arch::x64));
    r
}

impl NugetArch {
    /// The architecture of the host; `Unknown` where it is not a known one.
    pub fn local(host: &Host) -> (r: Self)
        ensures
            r == host_nuget_arch(host.arch@),
    {
        match Arch::local(host) {
            Some(arch) => NugetArch::from_arch(arch),
            None => NugetArch::Unknown,
        }
    }

    /// The package architecture of a known architecture.
    pub fn from_arch(arch: Arch) -> (r: Self)
        ensures
            r == nuget_arch_of(arch),
    {
        match arch {
            Arch::x86 => NugetArch::x86,
            Arch::x64 => NugetArch::x64,
        }
    }

    /// The identifier token of the architecture, if it is known.
    pub fn rid(&self) -> (r: Option<&'static str>)
        ensures
            match r {
                Some(s) => nuget_arch_rid(*self) == Some(s@),
                None => nuget_arch_rid(*self).is_none(),
            },
    {
        match *self {
            NugetArch::x86 => Some("x86"),
            NugetArch::x64 => Some("x64"),
            NugetArch::Unknown => None,
        }
    }
}

/// `platform`, followed by `-{arch}` where the architecture is known.
fn rid_with_arch(platform: &str, arch: NugetArch) -> (r: String)
    ensures
        r@ == with_arch(platform@, arch),
{
    match arch.rid() {
        Some(a) => join3(platform, "-", a),
        None => String::from_str(platform),
    }
}

impl NugetTarget {
    /// The package target of the host: `Unknown` where its platform is not
    /// supported; its architecture may be unknown on its own.
    pub fn local(host: &Host) -> (r: Self)
        ensures
            r == host_nuget_target(host.os@, host.arch@),
    {
        let os = host.os.as_str();
        if str_eq(os, "windows") {
            NugetTarget::Windows(NugetArch::local(host))
        } else if str_eq(os, "linux") {
            NugetTarget::Linux(NugetArch::local(host))
        } else if str_eq(os, "macos") {
            NugetTarget::MacOS(NugetArch::local(host))
        } else {
            NugetTarget::Unknown
        }
    }

    /// The package target of a supported pair.
    pub fn from_cross(target: CrossTarget) -> (r: Self)
        ensures
            r == nuget_of_cross(target),
    {
        match target {
            CrossTarget::Windows(a) => NugetTarget::Windows(NugetArch::from_arch(a)),
            CrossTarget::Linux(a) => NugetTarget::Linux(NugetArch::from_arch(a)),
            CrossTarget::MacOS(a) => NugetTarget::MacOS(NugetArch::from_arch(a)),
        }
    }

    /// The package target of a build target; `local` is the pair of the host.
    pub fn from_target(target: Target, local: Option<CrossTarget>) -> (r: Self)
        ensures
            r == nuget_of_target(target, local),
    {
        match target.cross(local) {
            Some(c) => NugetTarget::from_cross(c),
            None => NugetTarget::Unknown,
        }
    }

    /// The runtime identifier of this target (`win-x64`, `win`, `any`).
    pub fn rid(&self) -> (r: String)
        ensures
            r@ == nuget_rid(*self),
    {
        match *self {
            NugetTarget::Windows(arch) => rid_with_arch("win", arch),
            NugetTarget::Linux(arch) => rid_with_arch("linux", arch),
            NugetTarget::MacOS(arch) => rid_with_arch("osx", arch),
            NugetTarget::Unknown => String::from_str("any"),
        }
    }
}

/// One identifier scheme throughout: a supported pair has the same
/// identifier as a build target and as a package target.
pub proof fn lemma_one_rid_scheme(t: CrossTarget, local: Option<CrossTarget>)
    ensures
        nuget_rid(nuget_of_cross(t)) == cross_rid(t),
        nuget_rid(nuget_of_target(Target::Cross(t), local)) == target_rid(Target::Cross(t), local),
{
}

/// Identifiers round-trip: for every supported target `t`, parsing the
/// identifier of `t` gives back `t`, as a supported pair and as a target.
pub proof fn lemma_rid_round_trip(t: CrossTarget, local: Option<CrossTarget>)
    ensures
        cross_from_rid(cross_rid(t)) == Some(t),
        target_from_rid(target_rid(Target::Cross(t), local)) == Target::Cross(t),
{
    let u = choose|u: CrossTarget| cross_rid(u) == cross_rid(t);
    lemma_cross_rid_injective(u, t);
}

} // verus!
