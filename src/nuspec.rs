//! The package metadata document (`nuspec`).
//!
//! The document is `<package xmlns="...">` holding one `<metadata>` block
//! with, in order, `id`, `version`, `authors`, `description` and a
//! `<dependencies>` block with one `<dependency id=".." version=".." />` per
//! dependency. Nothing in it is validated here.

use vstd::prelude::*;
use vstd::string::*;
use vstd::utf8::encode_utf8;
use crate::xml::{
    attr, attr_text, elem, element_with, one_attr, two_attrs, val, value_element, writer,
    xml_decl, Attribute, Writer,
};

verus! {

/// The namespace of a `nuspec` document.
pub const NUSPEC_XMLNS: &'static str = "http://schemas.microsoft.com/packaging/2012/06/nuspec.xsd";

/// The package every native package depends on by default: it lets the
/// consumer resolve the native library for its platform at run time.
pub const PLATFORM_PACKAGE_ID: &'static str = "Microsoft.NETCore.Platforms";

/// The version range of the default dependency: at least 1.0.1.
pub const PLATFORM_PACKAGE_VERSION: &'static str = "[1.0.1, )";

/// An owned byte buffer.
#[derive(Debug, PartialEq, Eq)]
pub struct Buf(pub Vec<u8>);

impl View for Buf {
    type V = Seq<u8>;

    open spec fn view(&self) -> Seq<u8> {
        self.0@
    }
}

impl Buf {
    /// The bytes held.
    pub fn as_slice(&self) -> (r: &[u8])
        ensures
            r@ == self@,
    {
        self.0.as_slice()
    }
}

impl From<Vec<u8>> for Buf {
    fn from(buf: Vec<u8>) -> (r: Buf)
        ensures
            r@ == buf@,
    {
        Buf(buf)
    }
}

impl vstd::std_specs::convert::FromSpecImpl<Vec<u8>> for Buf {
    open spec fn obeys_from_spec() -> bool {
        true
    }

    open spec fn from_spec(v: Vec<u8>) -> Buf {
        Buf(v)
    }
}

/// A package dependency: its id and the range of versions accepted.
#[derive(Debug)]
pub struct NugetDependency {
    pub id: String,
    pub version: String,
}

/// The dependencies of a package, in order.
#[derive(Debug)]
pub struct NugetDependencies(pub Vec<NugetDependency>);

impl Default for NugetDependencies {
    /// The one dependency on the platform-resolution package.
    fn default() -> (r: Self)
        ensures
            r.0@.len() == 1,
            r.0@[0].id@ == PLATFORM_PACKAGE_ID@,
            r.0@[0].version@ == PLATFORM_PACKAGE_VERSION@,
    {
        let mut deps: Vec<NugetDependency> = Vec::new();
        deps.push(
            NugetDependency {
                id: String::from_str(PLATFORM_PACKAGE_ID),
                version: String::from_str(PLATFORM_PACKAGE_VERSION),
            },
        );
        NugetDependencies(deps)
    }
}

/// What a `nuspec` document describes.
#[derive(Debug)]
pub struct NugetSpecArgs {
    pub id: String,
    pub version: String,
    /// The authors, already joined.
    pub authors: String,
    pub description: String,
    pub dependencies: NugetDependencies,
}

/// What a `nuspec` document describes, with the default dependencies.
#[derive(Debug)]
pub struct FormatNuspecArgs {
    pub id: String,
    pub version: String,
    pub authors: String,
    pub description: String,
}

/// A `nuspec` document and the id and version it was made for.
#[derive(Debug)]
pub struct Nuspec {
    pub id: String,
    pub version: String,
    pub xml: Buf,
}

/// One dependency element.
pub open spec fn dependency_element(d: NugetDependency) -> Seq<char> {
    element_with(
        "dependency"@,
        attr_text("id"@, d.id@) + attr_text("version"@, d.version@),
        Seq::empty(),
    )
}

/// The dependency elements, in order.
pub open spec fn dependency_elements(deps: Seq<NugetDependency>) -> Seq<char>
    decreases deps.len(),
{
    if deps.len() == 0 {
        Seq::empty()
    } else {
        dependency_elements(deps.drop_last()) + dependency_element(deps.last())
    }
}

/// The `<dependencies>` block.
pub open spec fn dependencies_block(deps: Seq<NugetDependency>) -> Seq<char> {
    element_with("dependencies"@, Seq::empty(), dependency_elements(deps))
}

/// The `id`, `version`, `authors` and `description` elements, in order.
pub open spec fn meta_elements(
    id: Seq<char>,
    version: Seq<char>,
    authors: Seq<char>,
    description: Seq<char>,
) -> Seq<char> {
    value_element("id"@, id) + value_element("version"@, version) + value_element(
        "authors"@,
        authors,
    ) + value_element("description"@, description)
}

/// The whole `nuspec` document.
pub open spec fn nuspec_doc(
    id: Seq<char>,
    version: Seq<char>,
    authors: Seq<char>,
    description: Seq<char>,
    deps: Seq<NugetDependency>,
) -> Seq<char> {
    xml_decl() + element_with(
        "package"@,
        attr_text("xmlns"@, NUSPEC_XMLNS@),
        element_with(
            "metadata"@,
            Seq::empty(),
            meta_elements(id, version, authors, description) + dependencies_block(deps),
        ),
    )
}

/// Writes the `id`, `version`, `authors` and `description` elements.
fn format_meta(args: &NugetSpecArgs, writer: &mut Writer)
    ensures
        final(writer)@ == old(writer)@ + meta_elements(
            args.id@,
            args.version@,
            args.authors@,
            args.description@,
        ),
{
    let ghost start = writer@;
    val(writer, "id", args.id.as_str());
    val(writer, "version", args.version.as_str());
    val(writer, "authors", args.authors.as_str());
    val(writer, "description", args.description.as_str());
    assert(writer@ =~= start + meta_elements(
        args.id@,
        args.version@,
        args.authors@,
        args.description@,
    ));
}

/// Writes the `<dependencies>` block.
fn format_dependencies(dependencies: &[NugetDependency], writer: &mut Writer)
    ensures
        final(writer)@ == old(writer)@ + dependencies_block(dependencies@),
{
    let mut body = Writer::new();
    let n = dependencies.len();
    let mut i: usize = 0;
    while i < n
        invariant
            n == dependencies@.len(),
            i <= n,
            body@ == dependency_elements(dependencies@.subrange(0, i as int)),
        decreases n - i,
    {
        let dependency = &dependencies[i];
        let attrs = two_attrs(
            attr("id", dependency.id.as_str()),
            attr("version", dependency.version.as_str()),
        );
        let empty = Writer::new();
        elem(&mut body, "dependency", attrs.as_slice(), &empty);
        proof {
            assert(dependencies@.subrange(0, i + 1).drop_last() =~= dependencies@.subrange(
                0,
                i as int,
            ));
        }
        i = i + 1;
    }
    assert(dependencies@.subrange(0, n as int) =~= dependencies@);
    let none: Vec<Attribute> = Vec::new();
    elem(writer, "dependencies", none.as_slice(), &body);
    proof {
        assert(none@ =~= Seq::<Attribute>::empty());
    }
}

/// Writes the `nuspec` document for a package.
pub fn spec(args: NugetSpecArgs) -> (r: Nuspec)
    ensures
        r.id@ == args.id@,
        r.version@ == args.version@,
        r.xml@ == encode_utf8(
            nuspec_doc(
                args.id@,
                args.version@,
                args.authors@,
                args.description@,
                args.dependencies.0@,
            ),
        ),
{
    let mut metadata = Writer::new();
    format_meta(&args, &mut metadata);
    format_dependencies(args.dependencies.0.as_slice(), &mut metadata);
    let none: Vec<Attribute> = Vec::new();
    let mut package = Writer::new();
    elem(&mut package, "metadata", none.as_slice(), &metadata);
    let attrs = one_attr(attr("xmlns", NUSPEC_XMLNS));
    let mut doc = writer();
    elem(&mut doc, "package", attrs.as_slice(), &package);
    proof {
        assert(none@ =~= Seq::<Attribute>::empty());
    }
    let xml = doc.into_inner();
    Nuspec { id: args.id, version: args.version, xml: Buf(xml) }
}

/// Writes the `nuspec` document for a package with the default
/// dependencies.
pub fn format_nuspec(args: FormatNuspecArgs) -> (r: Nuspec)
    ensures
        r.id@ == args.id@,
        r.version@ == args.version@,
        exists|deps: NugetDependencies|
            #![auto]
            deps.0@.len() == 1 && deps.0@[0].id@ == PLATFORM_PACKAGE_ID@ && deps.0@[0].version@
                == PLATFORM_PACKAGE_VERSION@ && r.xml@ == encode_utf8(
                nuspec_doc(args.id@, args.version@, args.authors@, args.description@, deps.0@),
            ),
{
    let spec_args = NugetSpecArgs {
        id: args.id,
        version: args.version,
        authors: args.authors,
        description: args.description,
        dependencies: NugetDependencies::default(),
    };
    let ghost deps = spec_args.dependencies;
    let r = spec(spec_args);
    assert(deps.0@.len() == 1);
    r
}

} // verus!
