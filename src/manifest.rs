//! What the library needs from the crate's manifest, and the rules it is
//! held to: the crate must be a dynamic library, and its package must name
//! itself, its version, its description and its authors.
//!
//! Finding these values in the manifest's TOML text is left to the caller,
//! which hands them over as they stand, each absent where the manifest has
//! no value of the expected kind.

use vstd::prelude::*;
use vstd::string::*;
use crate::text::{join2, str_eq};

verus! {

/// What the crate's manifest says of the package.
#[derive(Debug, PartialEq, Eq)]
pub struct CargoConfig {
    pub name: String,
    pub version: String,
    pub authors: Vec<String>,
    pub description: String,
}

/// Where a manifest is read from.
#[derive(Debug, PartialEq, Eq)]
pub enum CargoBufKind {
    FromFile { path: String },
    FromBuf { buf: Vec<u8> },
}

/// What reading a manifest is asked to do.
#[derive(Debug, PartialEq, Eq)]
pub struct CargoParseArgs {
    pub buf: CargoBufKind,
}

/// The `[package]` values the library reads, as the manifest holds them.
#[derive(Debug)]
pub struct PackageFields {
    pub name: Option<String>,
    pub version: Option<String>,
    pub description: Option<String>,
    /// The entries of `authors`: each one's text, or `None` where an entry
    /// is not a string.
    pub authors: Option<Vec<Option<String>>>,
}

/// The manifest values the library reads.
#[derive(Debug)]
pub struct ManifestFields {
    /// The entries of `lib.crate-type`: each one's text, or `None` where an
    /// entry is not a string.
    pub crate_types: Option<Vec<Option<String>>>,
    /// The `[package]` table.
    pub package: Option<PackageFields>,
}

/// Why a manifest does not describe a package.
#[derive(Debug, PartialEq, Eq)]
pub enum CargoInvalidError {
    /// A required key has no value of the expected kind.
    Missing { key: &'static str },
    /// The crate does not list `dylib` in `lib.crate-type`.
    NotADyLib,
}

/// Whether the crate types list `dylib`.
pub open spec fn lists_dylib(types: Option<Vec<Option<String>>>) -> bool {
    types matches Some(v) && exists|i: int|
        0 <= i < v@.len() && ((#[trigger] v@[i]) matches Some(s) && s@ == "dylib"@)
}

/// The entries that are strings, in order.
pub open spec fn string_entries(entries: Seq<Option<String>>) -> Seq<String>
    decreases entries.len(),
{
    if entries.len() == 0 {
        Seq::empty()
    } else {
        match entries.last() {
            Some(s) => string_entries(entries.drop_last()).push(s),
            None => string_entries(entries.drop_last()),
        }
    }
}

/// The first required key without a value, in the order `package`, `name`,
/// `version`, `description`, `authors`.
pub open spec fn first_missing(package: Option<PackageFields>) -> Option<Seq<char>> {
    match package {
        None => Some("package"@),
        Some(p) => if p.name is None {
            Some("name"@)
        } else if p.version is None {
            Some("version"@)
        } else if p.description is None {
            Some("description"@)
        } else if p.authors is None {
            Some("authors"@)
        } else {
            None
        },
    }
}

/// Whether the crate types list `dylib`.
pub fn is_dylib(crate_types: &Option<Vec<Option<String>>>) -> (r: bool)
    ensures
        r == lists_dylib(*crate_types),
{
    match crate_types {
        None => false,
        Some(types) => {
            let n = types.len();
            let mut i: usize = 0;
            while i < n
                invariant
                    n == types@.len(),
                    i <= n,
                    *crate_types == Some(*types),
                    forall|j: int|
                        0 <= j < i ==> !((#[trigger] types@[j]) matches Some(s) && s@ == "dylib"@),
                decreases n - i,
            {
                if let Some(t) = &types[i] {
                    if str_eq(t.as_str(), "dylib") {
                        assert(types@[i as int] matches Some(s) && s@ == "dylib"@);
                        return true;
                    }
                }
                i = i + 1;
            }
            false
        },
    }
}

/// The entries that are strings, in order.
fn strings(entries: &Vec<Option<String>>) -> (r: Vec<String>)
    ensures
        r@ == string_entries(entries@),
{
    let mut r: Vec<String> = Vec::new();
    let n = entries.len();
    let mut i: usize = 0;
    while i < n
        invariant
            n == entries@.len(),
            i <= n,
            r@ == string_entries(entries@.subrange(0, i as int)),
        decreases n - i,
    {
        assert(entries@.subrange(0, i + 1).drop_last() =~= entries@.subrange(0, i as int));
        if let Some(s) = &entries[i] {
            r.push(s.clone());
        }
        i = i + 1;
    }
    assert(entries@.subrange(0, n as int) =~= entries@);
    r
}

/// The package a manifest describes. A crate that is not a dynamic library
/// is refused first; then the first required key without a value is named;
/// authors that are not strings are left out.
pub fn parse_config(fields: &ManifestFields) -> (r: Result<CargoConfig, CargoInvalidError>)
    ensures
        !lists_dylib(fields.crate_types) ==> r == Err::<CargoConfig, CargoInvalidError>(
            CargoInvalidError::NotADyLib,
        ),
        lists_dylib(fields.crate_types) ==> match first_missing(fields.package) {
            Some(key) => r matches Err(CargoInvalidError::Missing { key: k }) && k@ == key,
            None => r matches Ok(c) && fields.package matches Some(p) && (p.name matches Some(
                name,
            ) && c.name@ == name@) && (p.version matches Some(v) && c.version@ == v@) && (
            p.description matches Some(d) && c.description@ == d@) && (p.authors matches Some(a)
                && c.authors@ == string_entries(a@)),
        },
{
    if !is_dylib(&fields.crate_types) {
        return Err(CargoInvalidError::NotADyLib);
    }
    let package = match &fields.package {
        Some(p) => p,
        None => {
            return Err(CargoInvalidError::Missing { key: "package" });
        },
    };
    let name = match &package.name {
        Some(v) => v.clone(),
        None => {
            return Err(CargoInvalidError::Missing { key: "name" });
        },
    };
    let version = match &package.version {
        Some(v) => v.clone(),
        None => {
            return Err(CargoInvalidError::Missing { key: "version" });
        },
    };
    let description = match &package.description {
        Some(v) => v.clone(),
        None => {
            return Err(CargoInvalidError::Missing { key: "description" });
        },
    };
    let authors = match &package.authors {
        Some(a) => strings(a),
        None => {
            return Err(CargoInvalidError::Missing { key: "authors" });
        },
    };
    Ok(CargoConfig { name, version, authors, description })
}

impl CargoParseArgs {
    /// Reads the manifest `Cargo.toml` of the crate in `work_dir`, or of the
    /// current folder where none is given.
    pub fn from_work_dir(work_dir: Option<&str>) -> (r: Self)
        ensures
            r.buf matches CargoBufKind::FromFile { path } && path@ == match work_dir {
                Some(d) => d@ + "/Cargo.toml"@,
                None => "Cargo.toml"@,
            },
    {
        match work_dir {
            Some(dir) => CargoParseArgs {
                buf: CargoBufKind::FromFile { path: join2(dir, "/Cargo.toml") },
            },
            None => CargoParseArgs { buf: CargoBufKind::FromFile { path: String::from_str("Cargo.toml") } },
        }
    }
}

} // verus!
