use cargo_nuget::nuspec::{spec, NugetSpecArgs};
use cargo_nuget::pack::{NativeLib, Nupkg, NugetPackArgs};
use cargo_nuget::nuspec::Buf;
use cargo_nuget::platform::{Action, Arch, CrossTarget, NugetArch, NugetTarget, Profile, Target};
use cargo_nuget::resolve::{CargoCrossBuildArgs, CargoCrossTarget, CargoLocalBuildArgs};
use cargo_nuget::manifest::{CargoBufKind, CargoConfig, CargoParseArgs};
use cargo_nuget::stages::{
    join_authors, parse_targets, CommandOptions, NugetSaveArgs, RequestedTarget,
};

fn config() -> CargoConfig {
    CargoConfig {
        name: "native".to_string(),
        version: "0.1.0".to_string(),
        authors: vec!["Somebody".to_string(), "Somebody Else".to_string()],
        description: "A description".to_string(),
    }
}

fn options() -> CommandOptions {
    CommandOptions { work_dir: None, test: false, release: false, quiet: false, nupkg_dir: None }
}

#[test]
fn authors_are_joined() {
    assert_eq!("", join_authors(&[]));
    assert_eq!("A", join_authors(&["A".to_string()]));
    assert_eq!(
        "A, B, C",
        join_authors(&["A".to_string(), "B".to_string(), "C".to_string()])
    );
}

#[test]
fn targets_are_parsed_once_each() {
    let rids: Vec<String> =
        ["win-x64", "bogus", "linux-x86", "win-x64", "osx-x64"].iter().map(|s| s.to_string()).collect();
    assert_eq!(
        vec![
            CrossTarget::Windows(Arch::x64),
            CrossTarget::Linux(Arch::x86),
            CrossTarget::MacOS(Arch::x64),
        ],
        parse_targets(&rids)
    );
    assert!(parse_targets(&[]).is_empty());
}

#[test]
fn manifest_path() {
    assert_eq!(
        CargoParseArgs { buf: CargoBufKind::FromFile { path: "Cargo.toml".to_string() } },
        CargoParseArgs::from_work_dir(None)
    );
    assert_eq!(
        CargoParseArgs { buf: CargoBufKind::FromFile { path: "tests/native/Cargo.toml".to_string() } },
        CargoParseArgs::from_work_dir(Some("tests/native"))
    );
}

#[test]
fn local_args_from_options() {
    let opts = CommandOptions { test: true, release: true, ..options() };
    let args = CargoLocalBuildArgs::from_options(&opts, &config());
    assert_eq!(".", args.work_dir);
    assert_eq!("native", args.output_name);
    assert_eq!(Action::Test, args.action);
    assert_eq!(Profile::Release, args.profile);
}

#[test]
fn cross_args_from_options() {
    let opts = CommandOptions { work_dir: Some("crate".to_string()), quiet: true, ..options() };
    let requested = vec![
        RequestedTarget {
            target: CrossTarget::Windows(Arch::x64),
            supplied: Some(("native.dll".to_string(), true)),
        },
        RequestedTarget { target: CrossTarget::Linux(Arch::x64), supplied: None },
    ];
    let args: CargoCrossBuildArgs = CargoCrossBuildArgs::from_options(&opts, &config(), requested);
    assert_eq!("crate", args.work_dir);
    assert!(args.quiet);
    assert_eq!(2, args.targets.len());
    match &args.targets[0].1 {
        CargoCrossTarget::Path { path, exists } => {
            assert_eq!("native.dll", path);
            assert!(*exists);
        }
        t => panic!("{:?}", t),
    }
    match &args.targets[1].1 {
        CargoCrossTarget::Build { action, profile, output_name } => {
            assert_eq!(Action::Build, *action);
            assert_eq!(Profile::Debug, *profile);
            assert_eq!("native", output_name);
        }
        t => panic!("{:?}", t),
    }
}

#[test]
fn spec_args_from_config() {
    let args = NugetSpecArgs::from_config(&config());
    assert_eq!("Somebody, Somebody Else", args.authors);
    assert_eq!(1, args.dependencies.0.len());
    assert_eq!("Microsoft.NETCore.Platforms", args.dependencies.0[0].id);
}

#[test]
fn pack_args_from_builds() {
    let nuspec = spec(NugetSpecArgs::from_config(&config()));
    let libs = vec![
        (Target::Local, NativeLib { path: "a.so".to_string(), contents: Ok(vec![1]) }),
        (Target::Unknown, NativeLib { path: "b.so".to_string(), contents: Ok(vec![2]) }),
        (
            Target::Cross(CrossTarget::Windows(Arch::x86)),
            NativeLib { path: "c.dll".to_string(), contents: Ok(vec![3]) },
        ),
    ];
    let args = NugetPackArgs::from_builds(nuspec, libs, Some(CrossTarget::Linux(Arch::x64)));
    assert_eq!("native", args.id);
    let targets: Vec<NugetTarget> = args.cargo_libs.iter().map(|(t, _)| *t).collect();
    assert_eq!(
        vec![
            NugetTarget::Linux(NugetArch::x64),
            NugetTarget::Unknown,
            NugetTarget::Windows(NugetArch::x86),
        ],
        targets
    );
    assert_eq!("c.dll", args.cargo_libs[2].1.path);
}

#[test]
fn save_path() {
    let nupkg = Nupkg { name: "native.0.1.0.nupkg".to_string(), rids: vec![], buf: Buf(vec![7]) };
    let opts = CommandOptions { nupkg_dir: Some("out".to_string()), ..options() };
    let save = NugetSaveArgs::from_options(&opts, nupkg);
    assert_eq!("out/native.0.1.0.nupkg", save.path);
    assert_eq!(Buf(vec![7]), save.nupkg);
}
