use std::io::{Cursor, Read};

use cargo_nuget::nuspec::Buf;
use cargo_nuget::openxml::{content_types, relationships};
use cargo_nuget::pack::{
    extension, lib_name, pack, NativeLib, NugetPackArgs, NugetPackError, NugetWriteLibError,
};
use cargo_nuget::platform::{NugetArch, NugetTarget};

fn strip_ws(input: &str) -> String {
    input.chars().filter(|c| !matches!(c, ' ' | '\t' | '\n' | '\r')).collect()
}

fn assert_eq_no_ws(expected: &str, actual: &[u8]) {
    let actual = std::str::from_utf8(actual).unwrap();
    if strip_ws(expected) != strip_ws(actual) {
        panic!(
            "whitespace ignored values are not equal. expected: `{}` got: `{}`",
            expected, actual
        );
    }
}

fn lib(path: &str, bytes: &[u8]) -> NativeLib {
    NativeLib { path: path.to_string(), contents: Ok(bytes.to_vec()) }
}

fn entries(buf: &[u8]) -> Vec<(String, Vec<u8>)> {
    let mut archive = zip::ZipArchive::new(Cursor::new(buf.to_vec())).unwrap();
    let mut out = Vec::new();
    for i in 0..archive.len() {
        let mut file = archive.by_index(i).unwrap();
        assert_eq!(zip::CompressionMethod::Deflated, file.compression());
        let mut bytes = Vec::new();
        file.read_to_end(&mut bytes).unwrap();
        out.push((file.name().to_string(), bytes));
    }
    out
}

#[test]
fn pack_with_no_targets() {
    let args = NugetPackArgs {
        id: "some_pkg".to_string(),
        version: "0.1.1".to_string(),
        spec: Buf(vec![]),
        cargo_libs: Vec::new(),
    };

    match pack(args) {
        Err(NugetPackError::NoValidTargets) => (),
        r => panic!("{:?}", r),
    }
}

#[test]
fn pack_with_unknown_target() {
    let args = NugetPackArgs {
        id: "some_pkg".to_string(),
        version: "0.1.1".to_string(),
        spec: Buf(vec![]),
        cargo_libs: vec![(NugetTarget::Unknown, lib("", b""))],
    };

    match pack(args) {
        Err(NugetPackError::NoValidTargets) => (),
        r => panic!("{:?}", r),
    }
}

#[test]
fn pack_single_windows_target() {
    let args = NugetPackArgs {
        id: "native".to_string(),
        version: "0.1.0".to_string(),
        spec: Buf(b"<package />".to_vec()),
        cargo_libs: vec![(
            NugetTarget::Windows(NugetArch::x64),
            lib("target/release/native.dll", b"MZ library bytes"),
        )],
    };

    let nupkg = pack(args).unwrap();

    assert_eq!("native.0.1.0.nupkg", nupkg.name);
    assert_eq!(vec!["win-x64".to_string()], nupkg.rids);
    let names: Vec<String> = entries(nupkg.buf.as_slice()).into_iter().map(|(n, _)| n).collect();
    assert_eq!(
        vec![
            "[Content_Types].xml".to_string(),
            "_rels/.rels".to_string(),
            "native.nuspec".to_string(),
            "runtimes/win-x64/native/native.dll".to_string(),
        ],
        names
    );
}

#[test]
fn pack_entries_hold_their_bytes() {
    let args = NugetPackArgs {
        id: "native".to_string(),
        version: "1.2.3".to_string(),
        spec: Buf(b"the nuspec".to_vec()),
        cargo_libs: vec![
            (NugetTarget::Linux(NugetArch::x64), lib("out/libnative.so", b"elf")),
            (NugetTarget::Unknown, lib("ignored.so", b"nothing")),
            (NugetTarget::MacOS(NugetArch::Unknown), lib("out/libnative.dylib", b"macho")),
        ],
    };

    let nupkg = pack(args).unwrap();

    assert_eq!(vec!["linux-x64".to_string(), "osx".to_string()], nupkg.rids);
    let entries = entries(nupkg.buf.as_slice());
    assert_eq!(5, entries.len());
    assert_eq!(("native.nuspec".to_string(), b"the nuspec".to_vec()), entries[2]);
    assert_eq!(("runtimes/linux-x64/native/native.so".to_string(), b"elf".to_vec()), entries[3]);
    assert_eq!(("runtimes/osx/native/native.dylib".to_string(), b"macho".to_vec()), entries[4]);
    let (_, rels) = relationships("native.nuspec");
    assert_eq!(rels, entries[1].1);
    let (_, types) = content_types();
    assert_eq!(types, entries[0].1);
}

#[test]
fn pack_fails_on_unreadable_library() {
    let args = NugetPackArgs {
        id: "native".to_string(),
        version: "0.1.0".to_string(),
        spec: Buf(vec![]),
        cargo_libs: vec![
            (NugetTarget::Windows(NugetArch::x86), lib("a.dll", b"a")),
            (
                NugetTarget::Linux(NugetArch::x86),
                NativeLib {
                    path: "missing/libnative.so".to_string(),
                    contents: Err(std::io::Error::new(std::io::ErrorKind::NotFound, "not found")),
                },
            ),
        ],
    };

    match pack(args) {
        Err(NugetPackError::WriteLib { rid, lib_path, err: NugetWriteLibError::Io(_) }) => {
            assert_eq!("linux-x86", rid);
            assert_eq!("missing/libnative.so", lib_path);
        }
        r => panic!("{:?}", r),
    }
}

#[test]
fn library_entry_names() {
    assert_eq!("dll", extension("C:\\build\\native.dll"));
    assert_eq!("gz", extension("dir/archive.tar.gz"));
    assert_eq!("", extension("dir.d/native"));
    assert_eq!("", extension("dir/.hidden"));
    assert_eq!("", extension(""));
    assert_eq!("runtimes/win-x64/native/pkg.dll", lib_name("pkg", "win-x64", "x/y.dll"));
    assert_eq!("runtimes/linux-x64/native/pkg", lib_name("pkg", "linux-x64", "x.d/y"));
}

#[test]
fn rels_file() {
    let (path, content) = relationships("some/path/spec.nuspec");

    let expected = r#"
        <?xml version="1.0" encoding="UTF-8"?>
        <Relationships xmlns="http://schemas.openxmlformats.org/package/2006/relationships">
            <Relationship Type="http://schemas.microsoft.com/packaging/2010/07/manifest" Target="/some/path/spec.nuspec" />
        </Relationships>
    "#;

    assert_eq!("_rels/.rels", path);
    assert_eq_no_ws(expected, &content);
}

#[test]
fn content_types_file() {
    let (path, content) = content_types();

    let expected = r#"
        <?xml version="1.0" encoding="UTF-8"?>
        <Types xmlns="http://schemas.openxmlformats.org/package/2006/content-types">
            <Default Extension="rels" ContentType="application/vnd.openxmlformats-package.relationships+xml" />
            <Default Extension="txt" ContentType="application/octet" />
            <Default Extension="dll" ContentType="application/octet" />
            <Default Extension="dylib" ContentType="application/octet" />
            <Default Extension="so" ContentType="application/octet" />
            <Default Extension="nuspec" ContentType="application/octet" />
        </Types>
    "#;

    assert_eq!("[Content_Types].xml", path);
    assert_eq_no_ws(expected, &content);
}

#[test]
fn pack_keeps_first_library_of_a_target() {
    let args = NugetPackArgs {
        id: "native".to_string(),
        version: "0.1.0".to_string(),
        spec: Buf(vec![]),
        cargo_libs: vec![
            (NugetTarget::Linux(NugetArch::x64), lib("first.so", b"first")),
            (NugetTarget::Linux(NugetArch::x64), lib("second.so", b"second")),
        ],
    };

    let nupkg = pack(args).unwrap();

    assert_eq!(vec!["linux-x64".to_string()], nupkg.rids);
    let entries = entries(nupkg.buf.as_slice());
    assert_eq!(4, entries.len());
    assert_eq!(b"first".to_vec(), entries[3].1);
}

#[test]
fn pack_names_first_unreadable_library() {
    let unreadable = |path: &str| NativeLib {
        path: path.to_string(),
        contents: Err(std::io::Error::new(std::io::ErrorKind::NotFound, "not found")),
    };
    let args = NugetPackArgs {
        id: "native".to_string(),
        version: "0.1.0".to_string(),
        spec: Buf(vec![]),
        cargo_libs: vec![
            (NugetTarget::Unknown, unreadable("skipped.so")),
            (NugetTarget::MacOS(NugetArch::x64), unreadable("first.dylib")),
            (NugetTarget::Windows(NugetArch::x64), unreadable("second.dll")),
        ],
    };

    match pack(args) {
        Err(NugetPackError::WriteLib { rid, lib_path, err: NugetWriteLibError::Io(_) }) => {
            assert_eq!("osx-x64", rid);
            assert_eq!("first.dylib", lib_path);
        }
        r => panic!("{:?}", r),
    }
}
