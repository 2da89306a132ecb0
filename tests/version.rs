use cargo_nuget::version::{add_pretag, decimal_string, get_dev_version, CargoVersionError, SemVer};

#[test]
fn add_pretag_and_build() {
    let mut ver = SemVer::parse("0.0.1").unwrap();

    add_pretag(&mut ver, "dev", 2);

    assert_eq!("0.0.1-dev.2", &ver.to_string());
}

#[test]
fn use_existing_pretag() {
    let mut ver = SemVer::parse("0.0.1-carrots1").unwrap();

    add_pretag(&mut ver, "dev", 2);

    assert_eq!("0.0.1-carrots1.2", &ver.to_string());
}

#[test]
fn use_existing_pretag_ignore_build() {
    let mut ver = SemVer::parse("0.0.1-carrots+1").unwrap();

    add_pretag(&mut ver, "dev", 2);

    assert_eq!("0.0.1-carrots.2", &ver.to_string());
}

#[test]
fn dev_versions() {
    assert_eq!("1.20.300-dev.1500000000", get_dev_version("1.20.300", 1500000000).unwrap());
    assert_eq!("0.1.0-rc.1.0", get_dev_version("0.1.0-rc.1+build.5", 0).unwrap());
    match get_dev_version("1.0", 5) {
        Err(CargoVersionError::Parse(_)) => (),
        r => panic!("{:?}", r),
    }
    match get_dev_version("1.0.0", -1) {
        Err(CargoVersionError::PreEpoch) => (),
        r => panic!("{:?}", r),
    }
}

#[test]
fn decimals() {
    assert_eq!("0", decimal_string(0));
    assert_eq!("9", decimal_string(9));
    assert_eq!("10", decimal_string(10));
    assert_eq!("18446744073709551615", decimal_string(u64::MAX));
}

#[test]
fn versions_are_written_back() {
    let ver = SemVer::parse("1.2.3-alpha.1+exp.sha").unwrap();
    assert_eq!(1, ver.major);
    assert_eq!("alpha.1", ver.pre);
    assert_eq!("exp.sha", ver.build);
    assert_eq!("1.2.3-alpha.1+exp.sha", ver.to_string());
}
