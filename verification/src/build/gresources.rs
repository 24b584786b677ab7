//! Rendering of the resource-bundle description: one `<file>` line per
//! icon, the app id in slash form, and a digest comparison that decides
//! whether the bundle must be recompiled.

use sha2::Digest;
use vstd::prelude::*;
use vstd::string::StringExecFns;

use crate::text::{join_strings, replace, spec_join, spec_replace};

verus! {

/// The SHA-256 digest of a byte string. Relies on `sha2::Sha256`: the
/// digest is a function of the input bytes alone.
pub uninterp spec fn sha256_of(b: Seq<u8>) -> Seq<u8>;

/// Relies on `sha2::Sha256` through the `Digest` trait: hashing the
/// input yields its 32-byte SHA-256 digest, a function of the input
/// bytes alone.
#[verifier::external_body]
fn sha256(b: &[u8]) -> (r: Vec<u8>)
    ensures
        r@ == sha256_of(b@),
        r@.len() == 32,
{
    let mut hasher = sha2::Sha256::new();
    hasher.update(b);
    hasher.finalize().as_slice().to_vec()
}

/// Whether two digests hold the same bytes.
fn digests_equal(a: &Vec<u8>, b: &Vec<u8>) -> (r: bool)
    ensures
        r == (a@ == b@),
{
    if a.len() != b.len() {
        return false;
    }
    let mut i: usize = 0;
    while i < a.len()
        invariant
            a@.len() == b@.len(),
            i <= a@.len(),
            forall|k: int| 0 <= k < i ==> a@[k] == b@[k],
        decreases a.len() - i,
    {
        if a[i] != b[i] {
            return false;
        }
        i += 1;
    }
    assert(a@ =~= b@);
    true
}

/// Whether the resource description must be rewritten and recompiled:
/// true unless an old description exists whose SHA-256 digest equals the
/// digest of the new content.
pub fn gresource_needs_update(old_content: Option<&Vec<u8>>, new_content: &Vec<u8>) -> (r: bool)
    ensures
        r == !(old_content matches Some(o) && sha256_of(o@) == sha256_of(new_content@)),
{
    match old_content {
        None => true,
        Some(o) => {
            let old_hash = sha256(o.as_slice());
            let new_hash = sha256(new_content.as_slice());
            !digests_equal(&old_hash, &new_hash)
        },
    }
}

/// One `<file>` line of the resource description for a named icon file
/// under the icons directory.
pub open spec fn spec_icon_resource_line(filename: Seq<char>, icons_path: Seq<char>) -> Seq<char> {
    "    <file preprocess=\"xml-stripblanks\" alias=\"icons/"@ + filename + "\">"@ + icons_path
        + "/"@ + filename + "</file>"@
}

/// One `<file>` line of the resource description for a named icon file.
pub fn icon_resource_line(filename: &str, icons_path: &str) -> (r: String)
    ensures
        r@ == spec_icon_resource_line(filename@, icons_path@),
{
    let mut out = String::new();
    out.append("    <file preprocess=\"xml-stripblanks\" alias=\"icons/");
    out.append(filename);
    out.append("\">");
    out.append(icons_path);
    out.append("/");
    out.append(filename);
    out.append("</file>");
    assert(out@ =~= spec_icon_resource_line(filename@, icons_path@));
    out
}

/// The `<file>` line of the resource description for the scalable app
/// icon, aliased after the app id.
pub open spec fn spec_svg_icon_line(id: Seq<char>) -> Seq<char> {
    "    <file preprocess=\"xml-stripblanks\" alias=\"icons/"@ + id
        + ".svg\">assets/icon.svg</file>"@
}

/// The `<file>` line of the resource description for the scalable app
/// icon.
pub fn svg_icon_line(id: &str) -> (r: String)
    ensures
        r@ == spec_svg_icon_line(id@),
{
    let mut out = String::new();
    out.append("    <file preprocess=\"xml-stripblanks\" alias=\"icons/");
    out.append(id);
    out.append(".svg\">assets/icon.svg</file>");
    assert(out@ =~= spec_svg_icon_line(id@));
    out
}

/// The resource description: the template with the app id in slash form
/// and the newline-joined resource lines substituted for their
/// placeholders.
pub open spec fn spec_gresource_xml(
    id: Seq<char>,
    resource_lines: Seq<Seq<char>>,
    template: Seq<char>,
) -> Seq<char> {
    spec_replace(
        spec_replace(template, "{id}"@, spec_replace(id, "."@, "/"@)),
        "{resources}"@,
        spec_join(resource_lines, "\n"@),
    )
}

/// Renders the resource description from the template.
pub fn render_gresource_xml(id: &str, resource_lines: &Vec<String>, template: &str) -> (r: String)
    ensures
        r@ == spec_gresource_xml(id@, resource_lines.deep_view(), template@),
{
    let slashed = replace(id, ".", "/");
    let t1 = replace(template, "{id}", slashed.as_str());
    let joined = join_strings(resource_lines, "\n");
    replace(t1.as_str(), "{resources}", joined.as_str())
}

} // verus!
