//! The decisions behind the translation-catalog build: which lines of
//! the language list name a locale, where each locale's catalog files
//! live, and which diagnostic lines of the external catalog tools are
//! worth reporting. Running those tools and touching the filesystem is
//! left to unverified glue.

use vstd::prelude::*;
use vstd::string::StringExecFns;

use crate::text::{contains_str, spec_contains};

verus! {

/// A line of the language list names a locale unless it is a comment
/// line starting with `#`.
pub open spec fn spec_is_locale_line(line: Seq<char>) -> bool {
    !(line.len() > 0 && line[0] == '#')
}

/// Whether a line of the language list names a locale.
pub fn is_locale_line(line: &str) -> (r: bool)
    ensures
        r == spec_is_locale_line(line@),
{
    let lv = crate::text::str_chars(line);
    if lv.len() == 0 {
        true
    } else {
        lv[0] != '#'
    }
}

/// The locale lines of the language list, comment lines dropped, order
/// kept.
pub open spec fn spec_locales(lines: Seq<Seq<char>>) -> Seq<Seq<char>>
    decreases lines.len(),
{
    if lines.len() == 0 {
        Seq::empty()
    } else if spec_is_locale_line(lines[0]) {
        seq![lines[0]] + spec_locales(lines.skip(1))
    } else {
        spec_locales(lines.skip(1))
    }
}

/// The locale lines of the language list, comment lines dropped.
pub fn locales(lines: &Vec<String>) -> (r: Vec<String>)
    ensures
        r.deep_view() == spec_locales(lines.deep_view()),
{
    let ghost dv = lines.deep_view();
    let mut out: Vec<String> = Vec::new();
    let mut k: usize = 0;
    assert(dv.skip(0) =~= dv);
    while k < lines.len()
        invariant
            k <= lines@.len(),
            dv == lines.deep_view(),
            dv.len() == lines@.len(),
            forall|i: int| 0 <= i < lines@.len() ==> dv[i] == lines@[i]@,
            out.deep_view() + spec_locales(dv.skip(k as int)) == spec_locales(dv),
        decreases lines.len() - k,
    {
        let ghost out_before = out.deep_view();
        proof {
            assert(dv.skip(k as int).skip(1) =~= dv.skip(k + 1));
        }
        if is_locale_line(lines[k].as_str()) {
            out.push(lines[k].clone());
            proof {
                assert(out.deep_view() =~= out_before.push(dv[k as int]));
                assert(out_before.push(dv[k as int]) + spec_locales(dv.skip(k + 1)) =~= out_before
                    + (seq![dv[k as int]] + spec_locales(dv.skip(k + 1))));
            }
        }
        k += 1;
    }
    assert(dv.skip(lines@.len() as int) =~= Seq::<Seq<char>>::empty());
    assert(out.deep_view() + Seq::<Seq<char>>::empty() =~= out.deep_view());
    out
}

/// The catalog source file of a locale, under the `po` directory.
pub fn po_file_path(locale: &str) -> (r: String)
    ensures
        r@ == "po/"@ + locale@ + ".po"@,
{
    let mut out = String::new();
    out.append("po/");
    out.append(locale);
    out.append(".po");
    assert(out@ =~= "po/"@ + locale@ + ".po"@);
    out
}

/// The file name of a locale's message template.
pub fn pot_file_name(locale: &str) -> (r: String)
    ensures
        r@ == locale@ + ".pot"@,
{
    let mut out = String::new();
    out.append(locale);
    out.append(".pot");
    assert(out@ =~= locale@ + ".pot"@);
    out
}

/// The file name of the compiled message catalog of a text domain.
pub fn mo_file_name(domain: &str) -> (r: String)
    ensures
        r@ == domain@ + ".mo"@,
{
    let mut out = String::new();
    out.append(domain);
    out.append(".mo");
    assert(out@ =~= domain@ + ".mo"@);
    out
}

/// The path of the app-store metadata document relative to the build
/// directory, listed among the translatable sources.
pub fn appdata_rel_path(id: &str) -> (r: String)
    ensures
        r@ == "data/"@ + id@ + ".appdata.xml"@,
{
    let mut out = String::new();
    out.append("data/");
    out.append(id);
    out.append(".appdata.xml");
    assert(out@ =~= "data/"@ + id@ + ".appdata.xml"@);
    out
}

/// A diagnostic line of the extraction tool is reported unless it is
/// empty, names the unknown source suffix, or is a warning.
pub open spec fn spec_is_reportable(line: Seq<char>) -> bool {
    !(line.len() == 0 || spec_contains(line, "'rs'"@) || spec_contains(line, "warning"@))
}

/// The diagnostic lines of the extraction tool worth reporting, order
/// kept.
pub open spec fn spec_report_lines(lines: Seq<Seq<char>>) -> Seq<Seq<char>>
    decreases lines.len(),
{
    if lines.len() == 0 {
        Seq::empty()
    } else if spec_is_reportable(lines[0]) {
        seq![lines[0]] + spec_report_lines(lines.skip(1))
    } else {
        spec_report_lines(lines.skip(1))
    }
}

/// The diagnostic lines of the extraction tool worth reporting.
pub fn report_lines(lines: &Vec<String>) -> (r: Vec<String>)
    ensures
        r.deep_view() == spec_report_lines(lines.deep_view()),
{
    let ghost dv = lines.deep_view();
    let mut out: Vec<String> = Vec::new();
    let mut k: usize = 0;
    assert(dv.skip(0) =~= dv);
    while k < lines.len()
        invariant
            k <= lines@.len(),
            dv == lines.deep_view(),
            dv.len() == lines@.len(),
            forall|i: int| 0 <= i < lines@.len() ==> dv[i] == lines@[i]@,
            out.deep_view() + spec_report_lines(dv.skip(k as int)) == spec_report_lines(dv),
        decreases lines.len() - k,
    {
        let ghost out_before = out.deep_view();
        proof {
            assert(dv.skip(k as int).skip(1) =~= dv.skip(k + 1));
        }
        let line = &lines[k];
        let reportable = if line.as_str().unicode_len() == 0 {
            false
        } else if contains_str(line.as_str(), "'rs'") {
            false
        } else if contains_str(line.as_str(), "warning") {
            false
        } else {
            true
        };
        if reportable {
            out.push(line.clone());
            proof {
                assert(out.deep_view() =~= out_before.push(dv[k as int]));
                assert(out_before.push(dv[k as int]) + spec_report_lines(dv.skip(k + 1))
                    =~= out_before + (seq![dv[k as int]] + spec_report_lines(dv.skip(k + 1))));
            }
        }
        k += 1;
    }
    assert(dv.skip(lines@.len() as int) =~= Seq::<Seq<char>>::empty());
    assert(out.deep_view() + Seq::<Seq<char>>::empty() =~= out.deep_view());
    out
}

/// Whether the merge tool's diagnostics are reported: progress output
/// containing an ellipsis is not.
pub fn is_merge_output_reported(s: &str) -> (r: bool)
    ensures
        r == !spec_contains(s@, "..."@),
{
    !contains_str(s, "...")
}

} // verus!
