use cargo_nuget::manifest::{
    is_dylib, parse_config, CargoConfig, CargoInvalidError, ManifestFields, PackageFields,
};

fn strings(values: &[&str]) -> Option<Vec<Option<String>>> {
    Some(values.iter().map(|v| Some(v.to_string())).collect())
}

fn text(value: &str) -> Option<String> {
    Some(value.to_string())
}

/// `[package]` with the given keys, and `[lib] crate-type` where given.
fn manifest(
    name: Option<String>,
    version: Option<String>,
    description: Option<String>,
    crate_types: Option<Vec<Option<String>>>,
) -> ManifestFields {
    ManifestFields {
        crate_types,
        package: Some(PackageFields {
            name,
            version,
            description,
            authors: strings(&["Somebody", "Somebody Else"]),
        }),
    }
}

fn from_buf() {
    let fields = manifest(text("native"), text("0.1.0"), text(""), strings(&["rlib", "dylib"]));

    let toml = parse_config(&fields).unwrap();

    let expected = CargoConfig {
        name: "native".to_string(),
        version: "0.1.0".to_string(),
        authors: vec!["Somebody".to_string(), "Somebody Else".to_string()],
        description: "".to_string(),
    };

    assert_eq!(expected, toml);
}

fn missing_version() {
    let fields = manifest(text("native"), None, None, strings(&["rlib", "dylib"]));
    match parse_config(&fields) {
        Err(CargoInvalidError::Missing { key: "version" }) => (),
        r => panic!("{:?}", r),
    }
}

fn missing_name() {
    let fields = manifest(None, text("0.1.0"), None, strings(&["rlib", "dylib"]));
    match parse_config(&fields) {
        Err(CargoInvalidError::Missing { key: "name" }) => (),
        r => panic!("{:?}", r),
    }
}

fn not_a_dylib() {
    let fields = manifest(text("native"), text("0.1.0"), None, strings(&["rlib", "staticlib"]));
    match parse_config(&fields) {
        Err(CargoInvalidError::NotADyLib) => (),
        r => panic!("{:?}", r),
    }
}

fn missing_lib() {
    let fields = manifest(text("native"), text("0.1.0"), None, None);
    match parse_config(&fields) {
        Err(CargoInvalidError::NotADyLib) => (),
        r => panic!("{:?}", r),
    }
}

#[test]
fn parse_parse_toml_from_buf() {
    from_buf();
}

#[test]
fn mod_parse_toml_from_buf() {
    from_buf();
}

#[test]
fn parse_parse_toml_missing_version() {
    missing_version();
}

#[test]
fn mod_parse_toml_missing_version() {
    missing_version();
}

#[test]
fn parse_parse_toml_missing_name() {
    missing_name();
}

#[test]
fn mod_parse_toml_missing_name() {
    missing_name();
}

#[test]
fn parse_parse_toml_not_a_dylib() {
    not_a_dylib();
}

#[test]
fn mod_parse_toml_not_a_dylib() {
    not_a_dylib();
}

#[test]
fn parse_parse_toml_missing_lib() {
    missing_lib();
}

#[test]
fn mod_parse_toml_missing_lib() {
    missing_lib();
}

#[test]
fn missing_package_and_non_string_authors() {
    let fields = ManifestFields { crate_types: strings(&["dylib"]), package: None };
    assert_eq!(Err(CargoInvalidError::Missing { key: "package" }), parse_config(&fields));

    let fields = ManifestFields {
        crate_types: Some(vec![None, text("dylib")]),
        package: Some(PackageFields {
            name: text("n"),
            version: text("1.0.0"),
            description: text("d"),
            authors: Some(vec![text("A"), None, text("B")]),
        }),
    };
    assert_eq!(vec!["A".to_string(), "B".to_string()], parse_config(&fields).unwrap().authors);
    assert!(is_dylib(&fields.crate_types));
    assert!(!is_dylib(&None));
}
