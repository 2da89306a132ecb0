use cargo_nuget::nuspec::{
    format_nuspec, spec, Buf, FormatNuspecArgs, NugetDependencies, NugetDependency, NugetSpecArgs,
};
use cargo_nuget::xml::{attr, elem, val, writer, Writer};

fn strip_ws(input: &str) -> String {
    input.chars().filter(|c| !matches!(c, ' ' | '\t' | '\n' | '\r')).collect()
}

fn assert_eq_no_ws(expected: &str, actual: &[u8]) {
    let actual = std::str::from_utf8(actual).unwrap();
    if strip_ws(expected) != strip_ws(actual) {
        panic!(
            "whitespace ignored values are not equal. expected: `{}` got: `{}`",
            expected, actual
        );
    }
}

fn dependency(id: &str, version: &str) -> NugetDependency {
    NugetDependency { id: id.to_string(), version: version.to_string() }
}

#[test]
fn format_format_nuget() {
    let args = FormatNuspecArgs {
        id: "native".to_string(),
        version: "0.1.0".to_string(),
        authors: "Someone".to_string(),
        description: "A description for this package".to_string(),
    };

    let nuspec = format_nuspec(args);

    let expected = r#"<?xml version="1.0" encoding="UTF-8"?><package xmlns="http://schemas.microsoft.com/packaging/2012/06/nuspec.xsd"><metadata><id>native</id><version>0.1.0</version><authors>Someone</authors><description>A description for this package</description><dependencies><dependency id="Microsoft.NETCore.Platforms" version="[1.0.1, )" /></dependencies></metadata></package>"#;

    assert_eq!(expected, std::str::from_utf8(nuspec.xml.as_slice()).unwrap());
    assert_eq!("native", nuspec.id);
    assert_eq!("0.1.0", nuspec.version);
}

#[test]
fn spec_format_nuget() {
    let args = NugetSpecArgs {
        id: "native".to_string(),
        version: "0.1.0".to_string(),
        authors: "Someone".to_string(),
        description: "A description for this package".to_string(),
        dependencies: NugetDependencies(vec![
            dependency("A", "1.0.0"),
            dependency("B", "1.0.0-rc11"),
        ]),
    };

    let nuspec = spec(args);

    let expected = r#"
        <?xml version="1.0" encoding="UTF-8"?>
        <package xmlns="http://schemas.microsoft.com/packaging/2012/06/nuspec.xsd">
            <metadata>
                <id>native</id>
                <version>0.1.0</version>
                <authors>Someone</authors>
                <description>A description for this package</description>
                <dependencies>
                    <dependency id="A" version="1.0.0" />
                    <dependency id="B" version="1.0.0-rc11" />
                </dependencies>
            </metadata>
        </package>
    "#;

    assert_eq_no_ws(expected, nuspec.xml.as_slice());
}

#[test]
fn default_dependencies_document() {
    let args = NugetSpecArgs {
        id: "native".to_string(),
        version: "0.1.0".to_string(),
        authors: "Someone".to_string(),
        description: "A description".to_string(),
        dependencies: NugetDependencies::default(),
    };
    let xml = String::from_utf8(spec(args).xml.0).unwrap();
    let id = xml.find("<id>native</id>").unwrap();
    let version = xml.find("<version>0.1.0</version>").unwrap();
    let authors = xml.find("<authors>Someone</authors>").unwrap();
    let description = xml.find("<description>A description</description>").unwrap();
    assert!(id < version && version < authors && authors < description);
    assert_eq!(1, xml.matches("<dependency ").count());
    assert!(xml.contains(r#"<dependency id="Microsoft.NETCore.Platforms" version="[1.0.1, )" />"#));
}

#[test]
fn no_dependencies_document() {
    let args = NugetSpecArgs {
        id: "n".to_string(),
        version: "1".to_string(),
        authors: String::new(),
        description: String::new(),
        dependencies: NugetDependencies(Vec::new()),
    };
    let xml = String::from_utf8(spec(args).xml.0).unwrap();
    assert!(xml.contains("<authors></authors><description></description><dependencies /></metadata>"));
}

#[test]
fn text_and_attributes_are_escaped() {
    let args = NugetSpecArgs {
        id: "a&b".to_string(),
        version: "<1>".to_string(),
        authors: "O'Brien \"Jr\"".to_string(),
        description: "x".to_string(),
        dependencies: NugetDependencies(vec![dependency("q\"'<&>", "[1, 2)")]),
    };
    let xml = String::from_utf8(spec(args).xml.0).unwrap();
    assert!(xml.contains("<id>a&amp;b</id><version>&lt;1&gt;</version><authors>O'Brien \"Jr\"</authors>"));
    assert!(xml.contains(r#"<dependency id="q&quot;&apos;&lt;&amp;&gt;" version="[1, 2)" />"#));
}

#[test]
fn writer_elements() {
    let mut body = Writer::new();
    val(&mut body, "v", "1 < 2");
    let mut doc = writer();
    elem(&mut doc, "e", &[attr("k", "v")], &body);
    elem(&mut doc, "empty", &[], &Writer::new());
    assert_eq!(
        r#"<?xml version="1.0" encoding="UTF-8"?><e k="v"><v>1 &lt; 2</v></e><empty />"#,
        std::str::from_utf8(&doc.into_inner()).unwrap()
    );
}

#[test]
fn buf_from_vec() {
    let buf: Buf = vec![1u8, 2, 3].into();
    assert_eq!(&[1u8, 2, 3], buf.as_slice());
}
