use cargo_nuget::platform::{
    supported_targets, target_path_arg, Arch, CrossTarget, Host, NugetArch, NugetTarget, Target,
};

fn round_trip(target: CrossTarget, rid: &str) {
    assert_eq!(rid, target.rid());
    assert_eq!(Some(target), CrossTarget::from_rid(rid));
    assert_eq!(Target::Cross(target), Target::from_rid(&target.rid()));
    assert_eq!(rid, Target::Cross(target).rid(None));
    assert_eq!(rid, NugetTarget::from_cross(target).rid());
}

fn host(os: &str, arch: &str) -> Host {
    Host { os: os.to_string(), arch: arch.to_string() }
}

#[test]
fn unknown_rid() {
    assert_eq!(None, CrossTarget::from_rid("bogus"));
    assert_eq!(None, CrossTarget::from_rid("win"));
    assert_eq!(None, CrossTarget::from_rid("win-arm64"));
    assert_eq!(None, CrossTarget::from_rid(""));
    assert_eq!(None, CrossTarget::from_rid("-x64"));
    assert_eq!(None, CrossTarget::from_rid("win-x64-extra"));
    assert_eq!(Target::Unknown, Target::from_rid("bogus"));
}

#[test]
fn windows_x86_rid() {
    round_trip(CrossTarget::Windows(Arch::x86), "win-x86");
}

#[test]
fn windows_x64_rid() {
    round_trip(CrossTarget::Windows(Arch::x64), "win-x64");
}

#[test]
fn osx_x86_rid() {
    round_trip(CrossTarget::MacOS(Arch::x86), "osx-x86");
}

#[test]
fn osx_x64_rid() {
    round_trip(CrossTarget::MacOS(Arch::x64), "osx-x64");
}

#[test]
fn linux_x86_rid() {
    round_trip(CrossTarget::Linux(Arch::x86), "linux-x86");
}

#[test]
fn linux_x64_rid() {
    round_trip(CrossTarget::Linux(Arch::x64), "linux-x64");
}

#[test]
fn every_supported_target_round_trips() {
    let targets = supported_targets();
    assert_eq!(6, targets.len());
    for target in targets {
        assert_eq!(Some(target), CrossTarget::from_rid(&target.rid()));
    }
}

#[test]
fn arch_tokens() {
    assert_eq!("x86", Arch::x86.rid());
    assert_eq!("x64", Arch::x64.rid());
    assert_eq!(Some(Arch::x64), Arch::from_rid("x64"));
    assert_eq!(None, Arch::from_rid("arm64"));
    assert_eq!(None, Arch::from_rid("X64"));
}

#[test]
fn unknown_target_is_any() {
    assert_eq!("any", Target::Unknown.rid(None));
    assert_eq!("any", Target::Local.rid(None));
    assert!(Target::Local.is_unknown(None));
    assert!(!Target::Local.is_unknown(Some(CrossTarget::Linux(Arch::x64))));
    assert_eq!("linux-x64", Target::Local.rid(Some(CrossTarget::Linux(Arch::x64))));
    assert_eq!(None, Target::Unknown.cross(Some(CrossTarget::Linux(Arch::x64))));
}

#[test]
fn package_target_rids() {
    assert_eq!("any", NugetTarget::Unknown.rid());
    assert_eq!("win", NugetTarget::Windows(NugetArch::Unknown).rid());
    assert_eq!("osx-x86", NugetTarget::MacOS(NugetArch::x86).rid());
    assert_eq!(Some("x64"), NugetArch::x64.rid());
    assert_eq!(None, NugetArch::Unknown.rid());
    assert_eq!(
        NugetTarget::Unknown,
        NugetTarget::from_target(Target::Local, None)
    );
    assert_eq!(
        NugetTarget::Linux(NugetArch::x64),
        NugetTarget::from_target(Target::Local, Some(CrossTarget::Linux(Arch::x64)))
    );
}

#[test]
fn host_targets() {
    assert_eq!(Some(Arch::x64), Arch::local(&host("linux", "x86_64")));
    assert_eq!(Some(Arch::x86), Arch::local(&host("windows", "x86")));
    assert_eq!(None, Arch::local(&host("linux", "aarch64")));
    assert_eq!(
        Some(CrossTarget::Linux(Arch::x64)),
        CrossTarget::local(&host("linux", "x86_64"))
    );
    assert_eq!(
        Some(CrossTarget::MacOS(Arch::x64)),
        CrossTarget::local(&host("macos", "x86_64"))
    );
    assert_eq!(
        Some(CrossTarget::Windows(Arch::x86)),
        CrossTarget::local(&host("windows", "x86"))
    );
    assert_eq!(None, CrossTarget::local(&host("freebsd", "x86_64")));
    assert_eq!(None, CrossTarget::local(&host("linux", "aarch64")));
    assert_eq!(
        NugetTarget::Linux(NugetArch::Unknown),
        NugetTarget::local(&host("linux", "aarch64"))
    );
    assert_eq!(NugetTarget::Unknown, NugetTarget::local(&host("freebsd", "x86_64")));
    assert_eq!(NugetArch::x86, NugetArch::local(&host("windows", "x86")));
}

#[test]
fn target_path_args() {
    assert_eq!("win-x64-path", target_path_arg(CrossTarget::Windows(Arch::x64)));
    assert_eq!("osx-x86-path", target_path_arg(CrossTarget::MacOS(Arch::x86)));
}
