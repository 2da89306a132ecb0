//! The parts every package archive holds besides its payload: the declared
//! content types and the relationship that points at the `nuspec` document.

use vstd::prelude::*;
use vstd::string::*;
use vstd::utf8::encode_utf8;
use crate::text::join2;
use crate::xml::{
    attr, attr_text, elem, element_with, one_attr, two_attrs, writer, xml_decl, Writer,
};

verus! {

/// The namespace of the content-types part.
pub const CONTENT_TYPES_XMLNS: &'static str =
    "http://schemas.openxmlformats.org/package/2006/content-types";

/// The namespace of a relationships part.
pub const RELATIONSHIPS_XMLNS: &'static str =
    "http://schemas.openxmlformats.org/package/2006/relationships";

/// The type of the relationship from a package to its manifest.
pub const MANIFEST_RELATIONSHIP: &'static str =
    "http://schemas.microsoft.com/packaging/2010/07/manifest";

/// The content type of relationship parts.
pub const RELATIONSHIPS_CONTENT_TYPE: &'static str =
    "application/vnd.openxmlformats-package.relationships+xml";

/// The content type of every other part.
pub const OCTET_CONTENT_TYPE: &'static str = "application/octet";

/// Where the content types are declared in the archive.
pub const CONTENT_TYPES_PATH: &'static str = "[Content_Types].xml";

/// Where the package relationships are declared in the archive.
pub const RELATIONSHIPS_PATH: &'static str = "_rels/.rels";

/// The default content type of one file extension.
pub open spec fn default_type(extension: Seq<char>, content_type: Seq<char>) -> Seq<char> {
    element_with(
        "Default"@,
        attr_text("Extension"@, extension) + attr_text("ContentType"@, content_type),
        Seq::empty(),
    )
}

/// The content-types document: relationship parts, text, each native
/// library extension and the `nuspec` extension.
pub open spec fn content_types_doc() -> Seq<char> {
    xml_decl() + element_with(
        "Types"@,
        attr_text("xmlns"@, CONTENT_TYPES_XMLNS@),
        default_type("rels"@, RELATIONSHIPS_CONTENT_TYPE@) + default_type(
            "txt"@,
            OCTET_CONTENT_TYPE@,
        ) + default_type("dll"@, OCTET_CONTENT_TYPE@) + default_type("dylib"@, OCTET_CONTENT_TYPE@)
            + default_type("so"@, OCTET_CONTENT_TYPE@) + default_type(
            "nuspec"@,
            OCTET_CONTENT_TYPE@,
        ),
    )
}

/// The relationships document: one manifest relationship whose target is
/// `/` followed by the path of the `nuspec` document.
pub open spec fn relationships_doc(nuspec_path: Seq<char>) -> Seq<char> {
    xml_decl() + element_with(
        "Relationships"@,
        attr_text("xmlns"@, RELATIONSHIPS_XMLNS@),
        element_with(
            "Relationship"@,
            attr_text("Type"@, MANIFEST_RELATIONSHIP@) + attr_text("Target"@, "/"@ + nuspec_path),
            Seq::empty(),
        ),
    )
}

/// Writes the default content type of one extension.
fn default(writer: &mut Writer, extension: &str, content_type: &str)
    ensures
        final(writer)@ == old(writer)@ + default_type(extension@, content_type@),
{
    let attrs = two_attrs(attr("Extension", extension), attr("ContentType", content_type));
    let empty = Writer::new();
    elem(writer, "Default", attrs.as_slice(), &empty);
}

/// The content-types part: its path in the archive and its document.
pub fn content_types() -> (r: (String, Vec<u8>))
    ensures
        r.0@ == CONTENT_TYPES_PATH@,
        r.1@ == encode_utf8(content_types_doc()),
{
    let mut body = Writer::new();
    default(&mut body, "rels", RELATIONSHIPS_CONTENT_TYPE);
    default(&mut body, "txt", OCTET_CONTENT_TYPE);
    default(&mut body, "dll", OCTET_CONTENT_TYPE);
    default(&mut body, "dylib", OCTET_CONTENT_TYPE);
    default(&mut body, "so", OCTET_CONTENT_TYPE);
    default(&mut body, "nuspec", OCTET_CONTENT_TYPE);
    let attrs = one_attr(attr("xmlns", CONTENT_TYPES_XMLNS));
    let mut doc = writer();
    elem(&mut doc, "Types", attrs.as_slice(), &body);
    assert(doc@ =~= content_types_doc());
    (String::from_str(CONTENT_TYPES_PATH), doc.into_inner())
}

/// The relationships part for a package whose `nuspec` document is at
/// `nuspec_path`: its path in the archive and its document.
pub fn relationships(nuspec_path: &str) -> (r: (String, Vec<u8>))
    ensures
        r.0@ == RELATIONSHIPS_PATH@,
        r.1@ == encode_utf8(relationships_doc(nuspec_path@)),
{
    let target = join2("/", nuspec_path);
    let rel_attrs = two_attrs(
        attr("Type", MANIFEST_RELATIONSHIP),
        attr("Target", target.as_str()),
    );
    let empty = Writer::new();
    let mut body = Writer::new();
    elem(&mut body, "Relationship", rel_attrs.as_slice(), &empty);
    let attrs = one_attr(attr("xmlns", RELATIONSHIPS_XMLNS));
    let mut doc = writer();
    elem(&mut doc, "Relationships", attrs.as_slice(), &body);
    assert(doc@ =~= relationships_doc(nuspec_path@));
    (String::from_str(RELATIONSHIPS_PATH), doc.into_inner())
}

} // verus!
