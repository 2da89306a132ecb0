//! Assembling the package archive (`nupkg`).
//!
//! The archive holds, in this order: the content-types part, the package
//! relationships, the `nuspec` document at `{id}.nuspec`, then one entry per
//! native library at `runtimes/{rid}/native/{id}.{extension}`, where the
//! extension is the one of the library's own file. Libraries whose target is
//! unknown are left out; an archive without any library is never made.

use vstd::prelude::*;
use vstd::string::*;
use vstd::utf8::encode_utf8;
use zip::result::ZipError;
use crate::archive::{
    entries_fit, zip_archive_bytes, zip_entries, zip_finish, zip_new, zip_open, zip_start_file,
    zip_write_all, Compression, ZipBuffer, MAX_ENTRY_BYTES,
};
use crate::nuspec::Buf;
use crate::openxml::{
    content_types, content_types_doc, relationships, relationships_doc, CONTENT_TYPES_PATH,
    RELATIONSHIPS_PATH,
};
use crate::platform::{nuget_rid, NugetTarget};
use crate::text::{join2, join3};

verus! {

/// A native library to pack: the path it was found at and the bytes read
/// from there, or why they could not be read.
#[derive(Debug)]
pub struct NativeLib {
    pub path: String,
    pub contents: Result<Vec<u8>, std::io::Error>,
}

/// What a package archive is made of.
#[derive(Debug)]
pub struct NugetPackArgs {
    pub id: String,
    pub version: String,
    /// The `nuspec` document.
    pub spec: Buf,
    /// The native libraries, each with its target, in the order they are
    /// packed.
    pub cargo_libs: Vec<(NugetTarget, NativeLib)>,
}

/// A package archive: its file name, the runtime identifiers it has a
/// library for, in order, and its bytes.
#[derive(Debug)]
pub struct Nupkg {
    pub name: String,
    pub rids: Vec<String>,
    pub buf: Buf,
}

/// Why writing one native library into the archive failed.
#[derive(Debug)]
pub enum NugetWriteLibError {
    /// The zip writer refused the entry.
    Zip(ZipError),
    /// The library's bytes could not be read, or not written.
    Io(std::io::Error),
}

/// Why assembling a package archive failed.
#[derive(Debug)]
pub enum NugetPackError {
    /// No library with a known target was given.
    NoValidTargets,
    /// The zip writer failed.
    Zip(ZipError),
    /// Writing into the archive failed.
    Io(std::io::Error),
    /// The library for `rid`, found at `lib_path`, could not be packed.
    WriteLib { rid: String, lib_path: String, err: NugetWriteLibError },
}

/// Whether a character separates the components of a path.
pub open spec fn is_separator(c: char) -> bool {
    c == '/' || c == '\\'
}

/// Where the last component of a path starts: just past its last separator.
pub open spec fn name_start(path: Seq<char>) -> int
    decreases path.len(),
{
    if path.len() == 0 {
        0
    } else if is_separator(path.last()) {
        path.len() as int
    } else {
        name_start(path.drop_last())
    }
}

/// The position of the last `.` of a path; -1 where it has none.
pub open spec fn last_dot(path: Seq<char>) -> int
    decreases path.len(),
{
    if path.len() == 0 {
        -1
    } else if path.last() == '.' {
        path.len() - 1
    } else {
        last_dot(path.drop_last())
    }
}

/// The extension of the file a path names: what follows the last `.` of its
/// last component, unless that `.` starts the component. Empty where there
/// is none.
pub open spec fn path_extension(path: Seq<char>) -> Seq<char> {
    if last_dot(path) > name_start(path) {
        path.subrange(last_dot(path) + 1, path.len() as int)
    } else {
        Seq::empty()
    }
}

/// The name of a package's `nuspec` document in the archive.
pub open spec fn nuspec_entry(id: Seq<char>) -> Seq<char> {
    id + ".nuspec"@
}

/// The name of a native library in the archive:
/// `runtimes/{rid}/native/{id}`, followed by `.{extension}` where the
/// library's file has one.
pub open spec fn lib_entry_name(id: Seq<char>, rid: Seq<char>, path: Seq<char>) -> Seq<char> {
    "runtimes/"@ + rid + "/native/"@ + id + if path_extension(path).len() > 0 {
        "."@ + path_extension(path)
    } else {
        Seq::empty()
    }
}

/// The targets of a list of libraries, in order.
pub open spec fn targets_of(libs: Seq<(NugetTarget, NativeLib)>) -> Seq<NugetTarget> {
    libs.map_values(|l: (NugetTarget, NativeLib)| l.0)
}

/// The libraries that are packed, in order: those whose target is known,
/// each the first one given for its target.
pub open spec fn packed(libs: Seq<(NugetTarget, NativeLib)>) -> Seq<(NugetTarget, NativeLib)>
    decreases libs.len(),
{
    if libs.len() == 0 {
        Seq::empty()
    } else {
        let before = packed(libs.drop_last());
        if libs.last().0 is Unknown || targets_of(before).contains(libs.last().0) {
            before
        } else {
            before.push(libs.last())
        }
    }
}

/// The bytes of a library, where they could be read.
pub open spec fn lib_bytes(lib: NativeLib) -> Seq<u8> {
    match lib.contents {
        Ok(b) => b@,
        Err(_) => Seq::empty(),
    }
}

/// The archive entry of a packed library.
pub open spec fn lib_entry(id: Seq<char>, lib: (NugetTarget, NativeLib)) -> (
    Seq<char>,
    Compression,
    Seq<u8>,
) {
    (lib_entry_name(id, nuget_rid(lib.0), lib.1.path@), Compression::Deflated, lib_bytes(lib.1))
}

/// The entries of the archive made of `args`, in order, every one deflated.
pub open spec fn package_entries(args: NugetPackArgs) -> Seq<(Seq<char>, Compression, Seq<u8>)> {
    seq![
        (CONTENT_TYPES_PATH@, Compression::Deflated, encode_utf8(content_types_doc())),
        (
            RELATIONSHIPS_PATH@,
            Compression::Deflated,
            encode_utf8(relationships_doc(nuspec_entry(args.id@))),
        ),
        (nuspec_entry(args.id@), Compression::Deflated, args.spec@),
    ] + packed(args.cargo_libs@).map_values(|l: (NugetTarget, NativeLib)| lib_entry(args.id@, l))
}

/// The file name of a package: `{id}.{version}.nupkg`.
pub open spec fn nupkg_name(id: Seq<char>, version: Seq<char>) -> Seq<char> {
    id + "."@ + version + ".nupkg"@
}

/// The extension of the file `path` names, as `path_extension` says.
pub fn extension(path: &str) -> (r: String)
    ensures
        r@ == path_extension(path@),
{
    let n = path.unicode_len();
    let mut start: usize = 0;
    let mut has_dot = false;
    let mut dot: usize = 0;
    let mut i: usize = 0;
    while i < n
        invariant
            n == path@.len(),
            i <= n,
            start as int == name_start(path@.subrange(0, i as int)),
            has_dot ==> dot as int == last_dot(path@.subrange(0, i as int)),
            !has_dot ==> last_dot(path@.subrange(0, i as int)) == -1,
            has_dot ==> dot < i,
            start <= i,
        decreases n - i,
    {
        let c = path.get_char(i);
        if c == '/' || c == '\\' {
            start = i + 1;
        }
        if c == '.' {
            has_dot = true;
            dot = i;
        }
        assert(path@.subrange(0, i + 1).drop_last() =~= path@.subrange(0, i as int));
        i = i + 1;
    }
    assert(path@.subrange(0, n as int) =~= path@);
    if has_dot && dot > start {
        String::from_str(path.substring_char(dot + 1, n))
    } else {
        String::new()
    }
}

/// The name of a native library's entry in the archive.
pub fn lib_name(id: &str, rid: &str, lib_path: &str) -> (r: String)
    ensures
        r@ == lib_entry_name(id@, rid@, lib_path@),
{
    let mut name = join3("runtimes/", rid, "/native/");
    name.append(id);
    let ext = extension(lib_path);
    if ext.unicode_len() > 0 {
        name.append(".");
        name.append(ext.as_str());
    }
    proof {
        assert(name@ =~= lib_entry_name(id@, rid@, lib_path@));
    }
    name
}

/// Writes one deflated entry with the given bytes.
fn write_entry(writer: &mut ZipBuffer, name: &str, bytes: &[u8]) -> (r: Result<(), NugetWriteLibError>)
    ensures
        zip_open(*old(writer)) && entries_fit(zip_entries(*old(writer))) && bytes@.len()
            <= MAX_ENTRY_BYTES ==> r is Ok,
        r is Ok ==> zip_open(*final(writer)) && zip_entries(*final(writer)) == zip_entries(
            *old(writer),
        ).push((name@, Compression::Deflated, bytes@)),
{
    match zip_start_file(writer, name, Compression::Deflated) {
        Ok(()) => {},
        Err(e) => {
            return Err(NugetWriteLibError::Zip(e));
        },
    }
    match zip_write_all(writer, bytes) {
        Ok(()) => {},
        Err(e) => {
            return Err(NugetWriteLibError::Io(e));
        },
    }
    proof {
        assert(zip_entries(*writer) =~= zip_entries(*old(writer)).push(
            (name@, Compression::Deflated, bytes@),
        ));
    }
    Ok(())
}

/// Writes one deflated entry with the given bytes, failing as the package
/// does.
fn write_part(writer: &mut ZipBuffer, name: &str, bytes: &[u8]) -> (r: Result<(), NugetPackError>)
    ensures
        r matches Err(e) ==> e is Zip || e is Io,
        zip_open(*old(writer)) && entries_fit(zip_entries(*old(writer))) && bytes@.len()
            <= MAX_ENTRY_BYTES ==> r is Ok,
        r is Ok ==> zip_open(*final(writer)) && zip_entries(*final(writer)) == zip_entries(
            *old(writer),
        ).push((name@, Compression::Deflated, bytes@)),
{
    match write_entry(writer, name, bytes) {
        Ok(()) => Ok(()),
        Err(NugetWriteLibError::Zip(e)) => Err(NugetPackError::Zip(e)),
        Err(NugetWriteLibError::Io(e)) => Err(NugetPackError::Io(e)),
    }
}

/// Writes `[Content_Types].xml`.
fn write_content_types(writer: &mut ZipBuffer) -> (r: Result<(), NugetPackError>)
    ensures
        r matches Err(e) ==> e is Zip || e is Io,
        zip_open(*old(writer)) && entries_fit(zip_entries(*old(writer))) && encode_utf8(
            content_types_doc(),
        ).len() <= MAX_ENTRY_BYTES ==> r is Ok,
        r is Ok ==> zip_open(*final(writer)) && zip_entries(*final(writer)) == zip_entries(
            *old(writer),
        ).push((CONTENT_TYPES_PATH@, Compression::Deflated, encode_utf8(content_types_doc()))),
{
    let (path, xml) = content_types();
    write_part(writer, path.as_str(), xml.as_slice())
}

/// Writes `_rels/.rels`, pointing at the `nuspec` document.
fn write_rels(writer: &mut ZipBuffer, nuspec_path: &str) -> (r: Result<(), NugetPackError>)
    ensures
        r matches Err(e) ==> e is Zip || e is Io,
        zip_open(*old(writer)) && entries_fit(zip_entries(*old(writer))) && encode_utf8(
            relationships_doc(nuspec_path@),
        ).len() <= MAX_ENTRY_BYTES ==> r is Ok,
        r is Ok ==> zip_open(*final(writer)) && zip_entries(*final(writer)) == zip_entries(
            *old(writer),
        ).push(
            (RELATIONSHIPS_PATH@, Compression::Deflated, encode_utf8(relationships_doc(nuspec_path@))),
        ),
{
    let (path, xml) = relationships(nuspec_path);
    write_part(writer, path.as_str(), xml.as_slice())
}

/// Writes `runtimes/{rid}/native/{id}.{extension}` with a library's bytes.
fn write_lib(writer: &mut ZipBuffer, id: &str, rid: &str, lib_path: &str, bytes: &[u8]) -> (r:
    Result<(), NugetWriteLibError>)
    ensures
        zip_open(*old(writer)) && entries_fit(zip_entries(*old(writer))) && bytes@.len()
            <= MAX_ENTRY_BYTES ==> r is Ok,
        r is Ok ==> zip_open(*final(writer)) && zip_entries(*final(writer)) == zip_entries(
            *old(writer),
        ).push((lib_entry_name(id@, rid@, lib_path@), Compression::Deflated, bytes@)),
{
    let name = lib_name(id, rid, lib_path);
    write_entry(writer, name.as_str(), bytes)
}

/// Whether the library at `k` is the first packed one whose bytes could
/// not be read.
pub open spec fn first_unreadable(pk: Seq<(NugetTarget, NativeLib)>, k: int) -> bool {
    &&& 0 <= k < pk.len()
    &&& pk[k].1.contents is Err
    &&& forall|j: int| 0 <= j < k ==> (#[trigger] pk[j]).1.contents is Ok
}

/// Assembles the package archive.
///
/// Libraries whose target is unknown are left out, as are libraries for a
/// target already given; where none is left the package fails with
/// `NoValidTargets` before anything is written. Otherwise the archive holds
/// exactly `package_entries(args)`, every entry deflated. The first packed
/// library whose bytes could not be read fails the whole package, naming its
/// identifier and path. Where every entry holds at most `MAX_ENTRY_BYTES`
/// bytes, nothing else fails.
pub fn pack(args: NugetPackArgs) -> (r: Result<Nupkg, NugetPackError>)
    ensures
        packed(args.cargo_libs@).len() == 0 <==> r matches Err(NugetPackError::NoValidTargets),
        packed(args.cargo_libs@).len() > 0 && (forall|i: int|
            0 <= i < packed(args.cargo_libs@).len() ==> (#[trigger] packed(
                args.cargo_libs@,
            )[i]).1.contents is Ok) && entries_fit(package_entries(args)) ==> r is Ok,
        r matches Ok(p) ==> {
            &&& p.name@ == nupkg_name(args.id@, args.version@)
            &&& p.rids@.len() == packed(args.cargo_libs@).len()
            &&& forall|i: int|
                0 <= i < p.rids@.len() ==> #[trigger] p.rids@[i]@ == nuget_rid(
                    packed(args.cargo_libs@)[i].0,
                )
            &&& p.buf@ == zip_archive_bytes(package_entries(args))
        },
        (exists|i: int|
            0 <= i < packed(args.cargo_libs@).len() && (#[trigger] packed(
                args.cargo_libs@,
            )[i]).1.contents is Err) ==> r is Err,
        forall|k: int|
            #![trigger first_unreadable(packed(args.cargo_libs@), k)]
            first_unreadable(packed(args.cargo_libs@), k) && entries_fit(package_entries(args))
                ==> (r matches Err(NugetPackError::WriteLib { rid, lib_path, err }) && err is Io
                && rid@ == nuget_rid(packed(args.cargo_libs@)[k].0) && lib_path@ == packed(
                args.cargo_libs@,
            )[k].1.path@),
        r matches Err(NugetPackError::WriteLib { rid, lib_path, .. }) ==> exists|i: int|
            0 <= i < packed(args.cargo_libs@).len() && rid@ == nuget_rid(
                (#[trigger] packed(args.cargo_libs@)[i]).0,
            ) && lib_path@ == packed(args.cargo_libs@)[i].1.path@,
{
    let ghost libs = args.cargo_libs@;
    let ghost pk = packed(libs);
    let ghost entries = package_entries(args);
    let ghost id0 = args.id@;
    let NugetPackArgs { id, version, spec, cargo_libs } = args;
    let mut cargo_libs = cargo_libs;
    // the target, identifier and position of every library that is packed
    let mut pkgs: Vec<(NugetTarget, String, usize)> = Vec::new();
    let n = cargo_libs.len();
    let mut i: usize = 0;
    while i < n
        invariant
            n == libs.len(),
            cargo_libs@ == libs,
            i <= n,
            pkgs@.len() == packed(libs.subrange(0, i as int)).len(),
            forall|k: int|
                0 <= k < pkgs@.len() ==> (#[trigger] pkgs@[k]).2 < i && libs[pkgs@[k].2 as int]
                    == packed(libs.subrange(0, i as int))[k] && pkgs@[k].0 == libs[pkgs@[k].2 as int].0
                    && pkgs@[k].1@ == nuget_rid(libs[pkgs@[k].2 as int].0),
        decreases n - i,
    {
        let target = cargo_libs[i].0;
        let ghost before = packed(libs.subrange(0, i as int));
        assert(libs.subrange(0, i + 1).drop_last() =~= libs.subrange(0, i as int));
        let mut seen = false;
        let mut j: usize = 0;
        while j < pkgs.len()
            invariant
                j <= pkgs@.len(),
                pkgs@.len() == before.len(),
                forall|k: int| 0 <= k < pkgs@.len() ==> (#[trigger] pkgs@[k]).0 == before[k].0,
                seen <==> exists|k: int| 0 <= k < j && (#[trigger] pkgs@[k]).0 == target,
            decreases pkgs@.len() - j,
        {
            if pkgs[j].0 == target {
                seen = true;
            }
            j = j + 1;
        }
        proof {
            if seen {
                let k = choose|k: int| 0 <= k < j && (#[trigger] pkgs@[k]).0 == target;
                assert(targets_of(before)[k] == target);
            }
            if targets_of(before).contains(target) {
                let k = choose|k: int| 0 <= k < targets_of(before).len() && targets_of(before)[k]
                    == target;
                assert(pkgs@[k].0 == target);
            }
        }
        if !(target == NugetTarget::Unknown) && !seen {
            pkgs.push((target, target.rid(), i));
        }
        i = i + 1;
    }
    assert(libs.subrange(0, n as int) =~= libs);
    if pkgs.len() == 0 {
        return Err(NugetPackError::NoValidTargets);
    }
    let mut writer = zip_new();
    let nuspec_path = join2(id.as_str(), ".nuspec");
    proof {
        assert(entries[0].2 == encode_utf8(content_types_doc()));
        assert(entries[1].2 == encode_utf8(relationships_doc(nuspec_path@)));
        assert(entries[2].2 == spec@);
    }
    if let Err(e) = write_content_types(&mut writer) {
        return Err(e);
    }
    if let Err(e) = write_rels(&mut writer, nuspec_path.as_str()) {
        return Err(e);
    }
    if let Err(e) = write_part(&mut writer, nuspec_path.as_str(), spec.as_slice()) {
        return Err(e);
    }
    let ghost head = zip_entries(writer);
    assert(head =~= entries.subrange(0, 3));
    let m = pkgs.len();
    let mut k: usize = 0;
    while k < m
        invariant
            m == pkgs@.len(),
            m == pk.len(),
            pk == packed(libs),
            libs == args.cargo_libs@,
            entries == package_entries(args),
            entries.len() == 3 + m,
            k <= m,
            cargo_libs@ == libs,
            forall|j: int|
                0 <= j < m ==> (#[trigger] pkgs@[j]).2 < libs.len() && libs[pkgs@[j].2 as int]
                    == pk[j] && pkgs@[j].1@ == nuget_rid(pk[j].0),
            forall|j: int| 0 <= j < k ==> (#[trigger] pk[j]).1.contents is Ok,
            id@ == id0,
            id0 == args.id@,
            zip_open(writer),
            zip_entries(writer) == entries.subrange(0, 3 + k),
            forall|j: int| 0 <= j < m ==> #[trigger] entries[3 + j] == lib_entry(id0, pk[j]),
        decreases m - k,
    {
        let index = pkgs[k].2;
        let unreadable = cargo_libs[index].1.contents.is_err();
        assert(pk[k as int] == libs[index as int]);
        if unreadable {
            let (_, lib) = cargo_libs.remove(index);
            assert(lib.path@ == pk[k as int].1.path@);
            assert(pkgs@[k as int].1@ == nuget_rid(pk[k as int].0));
            assert(first_unreadable(pk, k as int));
            assert forall|k2: int| #[trigger] first_unreadable(pk, k2) implies k2 == k by {
                if k2 < k {
                    assert(pk[k2].1.contents is Ok);
                }
                if k2 > k {
                    assert(pk[k as int].1.contents is Ok);
                }
            }
            match lib.contents {
                Err(e) => {
                    return Err(
                        NugetPackError::WriteLib {
                            rid: pkgs[k].1.clone(),
                            lib_path: lib.path,
                            err: NugetWriteLibError::Io(e),
                        },
                    );
                },
                Ok(_) => {
                    return Err(NugetPackError::NoValidTargets);
                },
            }
        }
        let lib = &cargo_libs[index].1;
        proof {
            assert(entries[3 + k as int] == lib_entry(id0, pk[k as int]));
            if entries_fit(entries) {
                assert(entries[3 + k as int].2.len() <= MAX_ENTRY_BYTES);
                assert forall|t: int| 0 <= t < zip_entries(writer).len() implies (#[trigger] zip_entries(
                    writer,
                )[t]).2.len() <= MAX_ENTRY_BYTES by {
                    assert(zip_entries(writer)[t] == entries[t]);
                }
            }
        }
        if let Ok(bytes) = &lib.contents {
            match write_lib(
                &mut writer,
                id.as_str(),
                pkgs[k].1.as_str(),
                lib.path.as_str(),
                bytes.as_slice(),
            ) {
                Ok(()) => {},
                Err(e) => {
                    assert(lib.path@ == pk[k as int].1.path@);
                    assert(pkgs@[k as int].1@ == nuget_rid(pk[k as int].0));
                    assert(packed(libs)[k as int] == pk[k as int]);
                    return Err(
                        NugetPackError::WriteLib {
                            rid: pkgs[k].1.clone(),
                            lib_path: lib.path.clone(),
                            err: e,
                        },
                    );
                },
            }
        }
        proof {
            assert(zip_entries(writer) =~= entries.subrange(0, 3 + k + 1));
        }
        k = k + 1;
    }
    assert(zip_entries(writer) =~= entries);
    let buf = match zip_finish(&mut writer) {
        Ok(buf) => buf,
        Err(e) => {
            return Err(NugetPackError::Zip(e));
        },
    };
    let mut rids: Vec<String> = Vec::new();
    let mut k: usize = 0;
    while k < m
        invariant
            m == pkgs@.len(),
            m == pk.len(),
            k <= m,
            rids@.len() == k,
            forall|j: int| 0 <= j < m ==> (#[trigger] pkgs@[j]).1@ == nuget_rid(pk[j].0),
            forall|j: int| 0 <= j < k ==> (#[trigger] rids@[j])@ == nuget_rid(pk[j].0),
        decreases m - k,
    {
        rids.push(pkgs[k].1.clone());
        k = k + 1;
    }
    let mut name = join3(id.as_str(), ".", version.as_str());
    name.append(".nupkg");
    Ok(Nupkg { name, rids, buf: Buf(buf) })
}

} // verus!
