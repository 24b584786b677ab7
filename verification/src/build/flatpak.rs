//! Rendering of the flatpak packaging artifacts: the desktop entry, the
//! flatpak manifest and the app-store metadata document, all produced by
//! placeholder substitution on a template.

use vstd::prelude::*;
use vstd::string::StringExecFns;

use crate::descriptor::{ContentRating, ProjectDescriptor, Recommend, Release, Screenshot};
use crate::text::{
    chars_str, find_char, first_occ, join_strings, repeat_char, replace, spec_join, spec_repeat_char,
    spec_replace, spec_trim, str_chars, trim_chars,
};

verus! {

/// `value` wrapped in an XML element `tagname` and indented by
/// `indentation` spaces; with `linebreaks` the value stands on lines of
/// its own between the tags.
pub open spec fn spec_to_tag(
    value: Seq<char>,
    tagname: Seq<char>,
    linebreaks: bool,
    indentation: nat,
) -> Seq<char> {
    if linebreaks {
        spec_repeat_char(' ', indentation) + "<"@ + tagname + ">\n"@ + value + "\n"@
            + spec_repeat_char(' ', indentation) + "</"@ + tagname + ">"@
    } else {
        spec_repeat_char(' ', indentation) + "<"@ + tagname + ">"@ + value + "</"@ + tagname + ">"@
    }
}

/// `value` wrapped in the XML element `tagname`, indented by
/// `indentation` spaces; with `linebreaks` the value stands on lines of
/// its own between the tags.
pub fn to_tag(value: &String, tagname: &str, linebreaks: bool, indentation: usize) -> (r: String)
    ensures
        r@ == spec_to_tag(value@, tagname@, linebreaks, indentation as nat),
{
    let mut out = repeat_char(' ', indentation);
    out.append("<");
    out.append(tagname);
    if linebreaks {
        out.append(">\n");
        out.append(value.as_str());
        out.append("\n");
        let sp = repeat_char(' ', indentation);
        out.append(sp.as_str());
        out.append("</");
        out.append(tagname);
        out.append(">");
    } else {
        out.append(">");
        out.append(value.as_str());
        out.append("</");
        out.append(tagname);
        out.append(">");
    }
    out
}

/// The given tag lines joined by newlines; `None` stays `None`. Callers
/// wrap each element in its tag first.
pub fn as_tag_list(elements: Option<&Vec<String>>) -> (r: Option<String>)
    ensures
        r is Some == elements is Some,
        r matches Some(s) ==> elements matches Some(v) && s@ == spec_join(v.deep_view(), "\n"@),
{
    match elements {
        None => None,
        Some(v) => Some(join_strings(v, "\n")),
    }
}

/// The `generic_name` of the app, falling back to the package name.
pub open spec fn spec_generic_name(d: ProjectDescriptor) -> Seq<char> {
    match d.app.generic_name {
        Some(g) => g@,
        None => d.package.name@,
    }
}

/// The desktop entry: the template with the app id, names, summary and
/// semicolon-joined categories substituted for their placeholders.
pub open spec fn spec_desktop_file(d: ProjectDescriptor, template: Seq<char>) -> Seq<char> {
    spec_replace(
        spec_replace(
            spec_replace(
                spec_replace(spec_replace(template, "{id}"@, d.app.id@), "{name}"@, d.package.name@),
                "{generic_name}"@,
                spec_generic_name(d),
            ),
            "{summary}"@,
            d.app.summary@,
        ),
        "{categories}"@,
        spec_join(d.app.categories.deep_view(), ";"@),
    )
}

/// Renders the desktop entry from the template.
pub fn render_desktop_file(d: &ProjectDescriptor, template: &str) -> (r: String)
    ensures
        r@ == spec_desktop_file(*d, template@),
{
    let t1 = replace(template, "{id}", d.app.id.as_str());
    let t2 = replace(t1.as_str(), "{name}", d.package.name.as_str());
    let generic_name = match &d.app.generic_name {
        Some(g) => g,
        None => &d.package.name,
    };
    let t3 = replace(t2.as_str(), "{generic_name}", generic_name.as_str());
    let t4 = replace(t3.as_str(), "{summary}", d.app.summary.as_str());
    let categories = join_strings(&d.app.categories, ";");
    replace(t4.as_str(), "{categories}", categories.as_str())
}

/// Each permission as a `- --permission` manifest line, the lines joined
/// by a newline and the manifest's two-space indentation.
pub open spec fn spec_permissions_list(ps: Seq<Seq<char>>) -> Seq<char> {
    spec_join(ps.map_values(|p: Seq<char>| "- --"@ + p), "\n  "@)
}

/// The finish-args list of the flatpak manifest, one line per permission.
pub fn permissions_list(ps: &Vec<String>) -> (r: String)
    ensures
        r@ == spec_permissions_list(ps.deep_view()),
{
    let mut lines: Vec<String> = Vec::new();
    let mut k: usize = 0;
    while k < ps.len()
        invariant
            k <= ps@.len(),
            lines@.len() == k,
            forall|i: int| 0 <= i < k ==> lines@[i]@ == "- --"@ + ps@[i]@,
        decreases ps.len() - k,
    {
        let mut line = String::new();
        line.append("- --");
        line.append(ps[k].as_str());
        assert(line@ =~= "- --"@ + ps@[k as int]@);
        lines.push(line);
        k += 1;
    }
    assert(lines.deep_view() =~= ps.deep_view().map_values(|p: Seq<char>| "- --"@ + p));
    join_strings(&lines, "\n  ")
}

/// The flatpak manifest: the template with the package name, the app id
/// and the permission lines substituted for their placeholders.
pub open spec fn spec_flatpak_yml(d: ProjectDescriptor, template: Seq<char>) -> Seq<char> {
    spec_replace(
        spec_replace(spec_replace(template, "{name}"@, d.package.name@), "{id}"@, d.app.id@),
        "{permissions}"@,
        spec_permissions_list(d.app.permissions.deep_view()),
    )
}

/// Renders a flatpak manifest from the template.
pub fn render_flatpak_yml(d: &ProjectDescriptor, template: &str) -> (r: String)
    ensures
        r@ == spec_flatpak_yml(*d, template@),
{
    let t1 = replace(template, "{name}", d.package.name.as_str());
    let t2 = replace(t1.as_str(), "{id}", d.app.id.as_str());
    let permissions = permissions_list(&d.app.permissions);
    replace(t2.as_str(), "{permissions}", permissions.as_str())
}

/// The file name of the desktop entry for the given app id.
pub fn desktop_file_name(id: &str) -> (r: String)
    ensures
        r@ == id@ + ".desktop"@,
{
    let mut out = id.to_owned();
    out.append(".desktop");
    out
}

/// The file name of a flatpak manifest for the given app id, with an
/// optional infix such as `.dev` before the extension.
pub fn flatpak_yml_file_name(id: &str, infix: Option<&str>) -> (r: String)
    ensures
        r@ == id@ + (match infix {
            Some(s) => s@,
            None => Seq::<char>::empty(),
        }) + ".yml"@,
{
    let mut out = id.to_owned();
    if let Some(s) = infix {
        out.append(s);
    }
    out.append(".yml");
    out
}

/// The file name of the app-store metadata document for the given app id.
pub fn appdata_file_name(id: &str) -> (r: String)
    ensures
        r@ == id@ + ".appdata.xml"@,
{
    let mut out = id.to_owned();
    out.append(".appdata.xml");
    out
}

/// An optional descriptor string, the empty string when absent.
pub open spec fn spec_opt_str(o: Option<String>) -> Seq<char> {
    match o {
        Some(s) => s@,
        None => Seq::empty(),
    }
}

/// One `<release>` line of the app-store metadata.
pub open spec fn spec_release_tag(r: Release) -> Seq<char> {
    "        <release version=\""@ + r.version@ + "\" date=\""@ + r.date@ + "\"><description>"@
        + r.description@ + "</description></release>"@
}

/// One `<screenshot>` line of the app-store metadata.
pub open spec fn spec_screenshot_tag(s: Screenshot) -> Seq<char> {
    "        <screenshot "@ + (match s.type_ {
        Some(t) => "type=\""@ + t@ + "\""@,
        None => Seq::<char>::empty(),
    }) + "><image  type=\"source\">"@ + s.url@ + "</image></screenshot>"@
}

/// One `<display>` or `<control>` line of the recommends block.
pub open spec fn spec_recommend_tag(r: Recommend) -> Seq<char> {
    match r {
        Recommend::Display(v) => spec_to_tag(v@, "display"@, false, 8),
        Recommend::Control(v) => spec_to_tag(v@, "control"@, false, 8),
    }
}

/// One `<content_attribute>` line of the content-rating block.
pub open spec fn spec_content_attr_tag(c: ContentRating) -> Seq<char> {
    "        <content_attribute type=\""@ + c.id@ + "\">"@ + c.value@ + "</content_attribute>"@
}

/// The `<recommends>` block of the app-store metadata.
pub open spec fn spec_recommends_block(rs: Seq<Recommend>) -> Seq<char> {
    spec_to_tag(
        spec_join(rs.map_values(|r: Recommend| spec_recommend_tag(r)), "\n"@),
        "recommends"@,
        true,
        4,
    )
}

/// The `<categories>` block of the app-store metadata.
pub open spec fn spec_categories_block(cs: Seq<Seq<char>>) -> Seq<char> {
    spec_to_tag(
        spec_join(cs.map_values(|c: Seq<char>| spec_to_tag(c, "category"@, false, 8)), "\n"@),
        "categories"@,
        true,
        4,
    )
}

/// The `<releases>` block; empty when the descriptor lists no releases.
pub open spec fn spec_releases_block(rs: Option<Vec<Release>>) -> Seq<char> {
    match rs {
        None => Seq::empty(),
        Some(v) => spec_to_tag(
            spec_join(v@.map_values(|r: Release| spec_release_tag(r)), "\n"@),
            "releases"@,
            true,
            4,
        ),
    }
}

/// The `<screenshots>` block; empty when the descriptor lists none.
pub open spec fn spec_screenshots_block(ss: Option<Vec<Screenshot>>) -> Seq<char> {
    match ss {
        None => Seq::empty(),
        Some(v) => spec_to_tag(
            spec_join(v@.map_values(|s: Screenshot| spec_screenshot_tag(s)), "\n"@),
            "screenshots"@,
            true,
            4,
        ),
    }
}

/// The `<content_rating>` block; empty when the descriptor lists none.
pub open spec fn spec_content_rating_block(cr: Option<Vec<ContentRating>>) -> Seq<char> {
    match cr {
        None => Seq::empty(),
        Some(v) => "    <content_rating type=\"oars-1.0\">\n"@ + spec_join(
            v@.map_values(|c: ContentRating| spec_content_attr_tag(c)),
            "\n"@,
        ) + "\n    </content_rating>"@,
    }
}

/// The developer name: the first author up to an email bracket, trimmed;
/// the whole first author when no bracket occurs; empty when the package
/// lists no authors.
pub open spec fn spec_author_name(authors: Option<Vec<String>>) -> Seq<char> {
    match authors {
        None => Seq::empty(),
        Some(v) => if v@.len() == 0 {
            Seq::empty()
        } else {
            let name = v@[0]@;
            if first_occ(name, '<') >= 0 {
                spec_trim(name.take(first_occ(name, '<')))
            } else {
                name
            }
        },
    }
}

/// The `<developer_name>` tag of the app-store metadata.
pub open spec fn spec_developer_tag(authors: Option<Vec<String>>) -> Seq<char> {
    spec_to_tag(spec_author_name(authors), "developer_name"@, false, 0)
}

/// The developer name rendered from the package's author list.
pub fn author_name(authors: &Option<Vec<String>>) -> (r: String)
    ensures
        r@ == spec_author_name(*authors),
{
    match authors {
        None => String::new(),
        Some(v) => {
            if v.len() == 0 {
                String::new()
            } else {
                let name = str_chars(v[0].as_str());
                match find_char(&name, '<') {
                    Some(i) => {
                        let mut prefix: Vec<char> = Vec::new();
                        let mut k: usize = 0;
                        while k < i
                            invariant
                                k <= i < name@.len(),
                                prefix@ == name@.take(k as int),
                            decreases i - k,
                        {
                            prefix.push(name[k]);
                            assert(name@.take(k as int).push(name@[k as int]) =~= name@.take(
                                k + 1,
                            ));
                            k += 1;
                        }
                        let trimmed = trim_chars(&prefix);
                        chars_str(&trimmed)
                    },
                    None => v[0].clone(),
                }
            }
        },
    }
}

/// The app-store metadata document: the template with identity, texts,
/// links and the generated metadata blocks substituted for their
/// placeholders.
pub open spec fn spec_appdata_xml(d: ProjectDescriptor, template: Seq<char>) -> Seq<char> {
    let t1 = spec_replace(template, "{id}"@, d.app.id@);
    let t2 = spec_replace(t1, "{name}"@, d.package.name@);
    let t3 = spec_replace(t2, "{summary}"@, d.app.summary@);
    let t4 = spec_replace(t3, "{description}"@, d.app.description@);
    let t5 = spec_replace(t4, "{license}"@, spec_opt_str(d.package.license));
    let t6 = spec_replace(t5, "{homepage}"@, spec_opt_str(d.package.homepage));
    let t7 = spec_replace(t6, "{repository}"@, spec_opt_str(d.package.repository));
    let t8 = spec_replace(t7, "{metadata_license}"@, d.app.metadata_license@);
    let t9 = spec_replace(t8, "{recommends}"@, spec_recommends_block(d.app.recommends@));
    let t10 = spec_replace(t9, "{categories}"@, spec_categories_block(d.app.categories.deep_view()));
    let t11 = spec_replace(t10, "{releases}"@, spec_releases_block(d.app.releases));
    let t12 = spec_replace(t11, "{screenshots}"@, spec_screenshots_block(d.app.screenshots));
    let t13 = spec_replace(t12, "{author}"@, spec_developer_tag(d.package.authors));
    spec_replace(t13, "{content_rating}"@, spec_content_rating_block(d.app.content_rating))
}

/// The tag lines of the recommends block, one per entry.
fn recommend_tags(rs: &Vec<Recommend>) -> (r: Vec<String>)
    ensures
        r.deep_view() == rs@.map_values(|x: Recommend| spec_recommend_tag(x)),
{
    let mut out: Vec<String> = Vec::new();
    let mut k: usize = 0;
    while k < rs.len()
        invariant
            k <= rs@.len(),
            out@.len() == k,
            forall|i: int| 0 <= i < k ==> out@[i]@ == spec_recommend_tag(rs@[i]),
        decreases rs.len() - k,
    {
        let t = match &rs[k] {
            Recommend::Display(v) => to_tag(v, "display", false, 8),
            Recommend::Control(v) => to_tag(v, "control", false, 8),
        };
        out.push(t);
        k += 1;
    }
    assert(out.deep_view() =~= rs@.map_values(|x: Recommend| spec_recommend_tag(x)));
    out
}

/// The tag lines of the categories block, one per category.
fn category_tags(cs: &Vec<String>) -> (r: Vec<String>)
    ensures
        r.deep_view() == cs.deep_view().map_values(
            |c: Seq<char>| spec_to_tag(c, "category"@, false, 8),
        ),
{
    let mut out: Vec<String> = Vec::new();
    let mut k: usize = 0;
    while k < cs.len()
        invariant
            k <= cs@.len(),
            out@.len() == k,
            forall|i: int| 0 <= i < k ==> out@[i]@ == spec_to_tag(cs@[i]@, "category"@, false, 8),
        decreases cs.len() - k,
    {
        let t = to_tag(&cs[k], "category", false, 8);
        out.push(t);
        k += 1;
    }
    assert(out.deep_view() =~= cs.deep_view().map_values(
        |c: Seq<char>| spec_to_tag(c, "category"@, false, 8),
    ));
    out
}

/// The release lines of the releases block, one per release.
fn release_tags(rs: &Vec<Release>) -> (r: Vec<String>)
    ensures
        r.deep_view() == rs@.map_values(|x: Release| spec_release_tag(x)),
{
    let mut out: Vec<String> = Vec::new();
    let mut k: usize = 0;
    while k < rs.len()
        invariant
            k <= rs@.len(),
            out@.len() == k,
            forall|i: int| 0 <= i < k ==> out@[i]@ == spec_release_tag(rs@[i]),
        decreases rs.len() - k,
    {
        let x = &rs[k];
        let mut t = String::new();
        t.append("        <release version=\"");
        t.append(x.version.as_str());
        t.append("\" date=\"");
        t.append(x.date.as_str());
        t.append("\"><description>");
        t.append(x.description.as_str());
        t.append("</description></release>");
        assert(t@ =~= spec_release_tag(rs@[k as int]));
        out.push(t);
        k += 1;
    }
    assert(out.deep_view() =~= rs@.map_values(|x: Release| spec_release_tag(x)));
    out
}

/// The screenshot lines of the screenshots block, one per screenshot.
fn screenshot_tags(ss: &Vec<Screenshot>) -> (r: Vec<String>)
    ensures
        r.deep_view() == ss@.map_values(|x: Screenshot| spec_screenshot_tag(x)),
{
    let mut out: Vec<String> = Vec::new();
    let mut k: usize = 0;
    while k < ss.len()
        invariant
            k <= ss@.len(),
            out@.len() == k,
            forall|i: int| 0 <= i < k ==> out@[i]@ == spec_screenshot_tag(ss@[i]),
        decreases ss.len() - k,
    {
        let x = &ss[k];
        let mut t = String::new();
        t.append("        <screenshot ");
        match &x.type_ {
            Some(ty) => {
                t.append("type=\"");
                t.append(ty.as_str());
                t.append("\"");
            },
            None => {},
        }
        t.append("><image  type=\"source\">");
        t.append(x.url.as_str());
        t.append("</image></screenshot>");
        assert(t@ =~= spec_screenshot_tag(ss@[k as int]));
        out.push(t);
        k += 1;
    }
    assert(out.deep_view() =~= ss@.map_values(|x: Screenshot| spec_screenshot_tag(x)));
    out
}

/// The attribute lines of the content-rating block, one per attribute.
fn content_attr_tags(cr: &Vec<ContentRating>) -> (r: Vec<String>)
    ensures
        r.deep_view() == cr@.map_values(|x: ContentRating| spec_content_attr_tag(x)),
{
    let mut out: Vec<String> = Vec::new();
    let mut k: usize = 0;
    while k < cr.len()
        invariant
            k <= cr@.len(),
            out@.len() == k,
            forall|i: int| 0 <= i < k ==> out@[i]@ == spec_content_attr_tag(cr@[i]),
        decreases cr.len() - k,
    {
        let x = &cr[k];
        let mut t = String::new();
        t.append("        <content_attribute type=\"");
        t.append(x.id.as_str());
        t.append("\">");
        t.append(x.value.as_str());
        t.append("</content_attribute>");
        assert(t@ =~= spec_content_attr_tag(cr@[k as int]));
        out.push(t);
        k += 1;
    }
    assert(out.deep_view() =~= cr@.map_values(|x: ContentRating| spec_content_attr_tag(x)));
    out
}

/// Renders the app-store metadata document from the template.
pub fn render_appdata_xml(d: &ProjectDescriptor, template: &str) -> (r: String)
    ensures
        r@ == spec_appdata_xml(*d, template@),
{
    let t1 = replace(template, "{id}", d.app.id.as_str());
    let t2 = replace(t1.as_str(), "{name}", d.package.name.as_str());
    let t3 = replace(t2.as_str(), "{summary}", d.app.summary.as_str());
    let t4 = replace(t3.as_str(), "{description}", d.app.description.as_str());
    proof {
        reveal_strlit("");
        assert(""@ =~= Seq::<char>::empty());
    }
    let license = match &d.package.license {
        Some(s) => s.as_str(),
        None => "",
    };
    let t5 = replace(t4.as_str(), "{license}", license);
    let homepage = match &d.package.homepage {
        Some(s) => s.as_str(),
        None => "",
    };
    let t6 = replace(t5.as_str(), "{homepage}", homepage);
    let repository = match &d.package.repository {
        Some(s) => s.as_str(),
        None => "",
    };
    let t7 = replace(t6.as_str(), "{repository}", repository);
    let t8 = replace(t7.as_str(), "{metadata_license}", d.app.metadata_license.as_str());

    let recommend_lines = recommend_tags(&d.app.recommends);
    let recommend_list = join_strings(&recommend_lines, "\n");
    let recommends_tagged = to_tag(&recommend_list, "recommends", true, 4);
    let t9 = replace(t8.as_str(), "{recommends}", recommends_tagged.as_str());

    let category_lines = category_tags(&d.app.categories);
    let categories = join_strings(&category_lines, "\n");
    let categories_tagged = to_tag(&categories, "categories", true, 4);
    let t10 = replace(t9.as_str(), "{categories}", categories_tagged.as_str());

    let releases_block = match &d.app.releases {
        None => String::new(),
        Some(v) => {
            let lines = release_tags(v);
            let joined = join_strings(&lines, "\n");
            to_tag(&joined, "releases", true, 4)
        },
    };
    let t11 = replace(t10.as_str(), "{releases}", releases_block.as_str());

    let screenshots_block = match &d.app.screenshots {
        None => String::new(),
        Some(v) => {
            let lines = screenshot_tags(v);
            let joined = join_strings(&lines, "\n");
            to_tag(&joined, "screenshots", true, 4)
        },
    };
    let t12 = replace(t11.as_str(), "{screenshots}", screenshots_block.as_str());

    let author = author_name(&d.package.authors);
    let author_tagged = to_tag(&author, "developer_name", false, 0);
    let t13 = replace(t12.as_str(), "{author}", author_tagged.as_str());

    let rating_block = match &d.app.content_rating {
        None => String::new(),
        Some(v) => {
            let lines = content_attr_tags(v);
            let joined = join_strings(&lines, "\n");
            let mut b = String::new();
            b.append("    <content_rating type=\"oars-1.0\">\n");
            b.append(joined.as_str());
            b.append("\n    </content_rating>");
            b
        },
    };
    assert(rating_block@ =~= spec_content_rating_block(d.app.content_rating));
    replace(t13.as_str(), "{content_rating}", rating_block.as_str())
}

} // verus!
