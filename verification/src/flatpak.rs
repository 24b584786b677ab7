//! The earlier, self-contained flatpak packaging model: a `[flatpak]`
//! manifest section with the app identity and age ratings, and the
//! desktop-entry and manifest rendering that works from it. The app name
//! shown to users is the last dot-separated segment of the package name.

use vstd::prelude::*;

use crate::descriptor::SettingValue;
use crate::text::{after_last, join_strings, replace, spec_after_last, spec_join, spec_replace};

verus! {

/// The `[flatpak]` section of the project manifest.
#[derive(Debug, Clone, PartialEq, Eq)]
pub struct FlatpakDescriptor {
    pub package_name: String,
    pub summary: String,
    pub description: String,
    pub categories: Vec<String>,
    pub screenshot: Option<String>,
    pub release_versions: Option<Vec<(String, String)>>,
    pub rating_violence_cartoon: Option<String>,
    pub rating_violence_fantasy: Option<String>,
    pub rating_violence_realistic: Option<String>,
    pub rating_violence_bloodshed: Option<String>,
    pub rating_violence_sexual: Option<String>,
    pub rating_drugs_alcohol: Option<String>,
    pub rating_drugs_narcotics: Option<String>,
    pub rating_drugs_tobacco: Option<String>,
    pub rating_sex_nudity: Option<String>,
    pub rating_sex_themes: Option<String>,
    pub rating_language_profanity: Option<String>,
    pub rating_language_humor: Option<String>,
    pub rating_language_discrimination: Option<String>,
    pub rating_social_chat: Option<String>,
    pub rating_social_info: Option<String>,
    pub rating_social_audio: Option<String>,
    pub rating_social_location: Option<String>,
    pub rating_social_contacts: Option<String>,
    pub rating_money_purchasing: Option<String>,
    pub rating_money_gambling: Option<String>,
}

/// A project manifest reduced to its settings and flatpak sections.
#[derive(Debug, Clone, PartialEq, Eq)]
pub struct ProjectDescriptor {
    pub settings: Vec<(String, SettingValue)>,
    pub flatpak: FlatpakDescriptor,
}

/// The short app name: the last dot-separated segment of the package
/// name.
pub open spec fn spec_app_name(package_name: Seq<char>) -> Seq<char> {
    spec_after_last(package_name, '.')
}

/// The desktop entry: the template with the short name, summary,
/// semicolon-joined categories and full package name substituted for
/// their placeholders.
pub open spec fn spec_desktop_entry(d: ProjectDescriptor, template: Seq<char>) -> Seq<char> {
    spec_replace(
        spec_replace(
            spec_replace(
                spec_replace(template, "{name}"@, spec_app_name(d.flatpak.package_name@)),
                "{summary}"@,
                d.flatpak.summary@,
            ),
            "{categories}"@,
            spec_join(d.flatpak.categories.deep_view(), ";"@),
        ),
        "{package_name}"@,
        d.flatpak.package_name@,
    )
}

/// Renders the desktop entry from the template.
pub fn render_desktop_entry(d: &ProjectDescriptor, template: &str) -> (r: String)
    ensures
        r@ == spec_desktop_entry(*d, template@),
{
    let name = after_last(d.flatpak.package_name.as_str(), '.');
    let t1 = replace(template, "{name}", name.as_str());
    let t2 = replace(t1.as_str(), "{summary}", d.flatpak.summary.as_str());
    let categories = join_strings(&d.flatpak.categories, ";");
    let t3 = replace(t2.as_str(), "{categories}", categories.as_str());
    replace(t3.as_str(), "{package_name}", d.flatpak.package_name.as_str())
}

/// The flatpak manifest: the template with the short name and the full
/// package name substituted for their placeholders.
pub open spec fn spec_flatpak_manifest(d: ProjectDescriptor, template: Seq<char>) -> Seq<char> {
    spec_replace(
        spec_replace(template, "{name}"@, spec_app_name(d.flatpak.package_name@)),
        "{package_name}"@,
        d.flatpak.package_name@,
    )
}

/// Renders the flatpak manifest from the template.
pub fn render_flatpak_manifest(d: &ProjectDescriptor, template: &str) -> (r: String)
    ensures
        r@ == spec_flatpak_manifest(*d, template@),
{
    let name = after_last(d.flatpak.package_name.as_str(), '.');
    let t1 = replace(template, "{name}", name.as_str());
    replace(t1.as_str(), "{package_name}", d.flatpak.package_name.as_str())
}

/// An age rating, `none` when the manifest leaves it out.
pub open spec fn spec_rating(o: Option<String>) -> Seq<char> {
    match o {
        Some(s) => s@,
        None => "none"@,
    }
}

/// One `<category>` line of the app-store metadata, with its trailing
/// line break.
pub open spec fn spec_category_line(c: Seq<char>) -> Seq<char> {
    "<category>"@ + c + "</category>\n"@
}

/// The app-store metadata document: the template with the short name,
/// the texts, the category lines and every age rating substituted for
/// their placeholders. Ratings left out of the manifest read `none`.
pub open spec fn spec_app_descriptor_xml(d: ProjectDescriptor, template: Seq<char>) -> Seq<char> {
    let f = d.flatpak;
    let t1 = spec_replace(template, "{name}"@, spec_app_name(f.package_name@));
    let t2 = spec_replace(t1, "{description}"@, f.description@);
    let t3 = spec_replace(t2, "{package_name}"@, f.package_name@);
    let t4 = spec_replace(
        t3,
        "{categories}"@,
        spec_join(
            f.categories.deep_view().map_values(|c: Seq<char>| spec_category_line(c)),
            Seq::empty(),
        ),
    );
    let t5 = spec_replace(t4, "{rating_violence_cartoon}"@, spec_rating(f.rating_violence_cartoon));
    let t6 = spec_replace(t5, "{rating_violence_fantasy}"@, spec_rating(f.rating_violence_fantasy));
    let t7 = spec_replace(
        t6,
        "{rating_violence_realistic}"@,
        spec_rating(f.rating_violence_realistic),
    );
    let t8 = spec_replace(
        t7,
        "{rating_violence_bloodshed}"@,
        spec_rating(f.rating_violence_bloodshed),
    );
    let t9 = spec_replace(t8, "{rating_violence_sexual}"@, spec_rating(f.rating_violence_sexual));
    let t10 = spec_replace(t9, "{rating_drugs_alcohol}"@, spec_rating(f.rating_drugs_alcohol));
    let t11 = spec_replace(t10, "{rating_drugs_narcotics}"@, spec_rating(f.rating_drugs_narcotics));
    let t12 = spec_replace(t11, "{rating_drugs_tobacco}"@, spec_rating(f.rating_drugs_tobacco));
    let t13 = spec_replace(t12, "{rating_sex_nudity}"@, spec_rating(f.rating_sex_nudity));
    let t14 = spec_replace(t13, "{rating_sex_themes}"@, spec_rating(f.rating_sex_themes));
    let t15 = spec_replace(
        t14,
        "{rating_language_profanity}"@,
        spec_rating(f.rating_language_profanity),
    );
    let t16 = spec_replace(t15, "{rating_language_humor}"@, spec_rating(f.rating_language_humor));
    let t17 = spec_replace(
        t16,
        "{rating_language_discrimination"@,
        spec_rating(f.rating_language_discrimination),
    );
    let t18 = spec_replace(t17, "{rating_social_chat}"@, spec_rating(f.rating_social_chat));
    let t19 = spec_replace(t18, "{rating_social_info}"@, spec_rating(f.rating_social_info));
    let t20 = spec_replace(t19, "{rating_social_audio}"@, spec_rating(f.rating_social_audio));
    let t21 = spec_replace(t20, "{rating_social_location}"@, spec_rating(f.rating_social_location));
    let t22 = spec_replace(t21, "{rating_social_contacts}"@, spec_rating(f.rating_social_contacts));
    let t23 = spec_replace(
        t22,
        "{rating_money_purchasing}"@,
        spec_rating(f.rating_money_purchasing),
    );
    spec_replace(t23, "{rating_money_gambling}"@, spec_rating(f.rating_money_gambling))
}

/// One age rating as text, `none` when the manifest leaves it out.
fn rating(o: &Option<String>) -> (r: &str)
    ensures
        r@ == spec_rating(*o),
{
    match o {
        Some(s) => s.as_str(),
        None => "none",
    }
}

/// Renders the app-store metadata document from the template. The
/// placeholder of the language-discrimination rating is matched without
/// its closing brace, as this renderer always did.
pub fn render_app_descriptor_xml(d: &ProjectDescriptor, template: &str) -> (r: String)
    ensures
        r@ == spec_app_descriptor_xml(*d, template@),
{
    let f = &d.flatpak;
    let name = after_last(f.package_name.as_str(), '.');
    let t1 = replace(template, "{name}", name.as_str());
    let t2 = replace(t1.as_str(), "{description}", f.description.as_str());
    let t3 = replace(t2.as_str(), "{package_name}", f.package_name.as_str());

    let mut category_lines: Vec<String> = Vec::new();
    let mut k: usize = 0;
    while k < f.categories.len()
        invariant
            k <= f.categories@.len(),
            category_lines@.len() == k,
            forall|i: int|
                0 <= i < k ==> category_lines@[i]@ == spec_category_line(f.categories@[i]@),
        decreases f.categories.len() - k,
    {
        let mut line = String::new();
        line.append("<category>");
        line.append(f.categories[k].as_str());
        line.append("</category>\n");
        assert(line@ =~= spec_category_line(f.categories@[k as int]@));
        category_lines.push(line);
        k += 1;
    }
    assert(category_lines.deep_view() =~= f.categories.deep_view().map_values(
        |c: Seq<char>| spec_category_line(c),
    ));
    let categories = join_strings(&category_lines, "");
    proof {
        reveal_strlit("");
        assert(""@ =~= Seq::<char>::empty());
    }
    let t4 = replace(t3.as_str(), "{categories}", categories.as_str());

    let t5 = replace(t4.as_str(), "{rating_violence_cartoon}", rating(&f.rating_violence_cartoon));
    let t6 = replace(t5.as_str(), "{rating_violence_fantasy}", rating(&f.rating_violence_fantasy));
    let t7 = replace(
        t6.as_str(),
        "{rating_violence_realistic}",
        rating(&f.rating_violence_realistic),
    );
    let t8 = replace(
        t7.as_str(),
        "{rating_violence_bloodshed}",
        rating(&f.rating_violence_bloodshed),
    );
    let t9 = replace(t8.as_str(), "{rating_violence_sexual}", rating(&f.rating_violence_sexual));
    let t10 = replace(t9.as_str(), "{rating_drugs_alcohol}", rating(&f.rating_drugs_alcohol));
    let t11 = replace(t10.as_str(), "{rating_drugs_narcotics}", rating(&f.rating_drugs_narcotics));
    let t12 = replace(t11.as_str(), "{rating_drugs_tobacco}", rating(&f.rating_drugs_tobacco));
    let t13 = replace(t12.as_str(), "{rating_sex_nudity}", rating(&f.rating_sex_nudity));
    let t14 = replace(t13.as_str(), "{rating_sex_themes}", rating(&f.rating_sex_themes));
    let t15 = replace(
        t14.as_str(),
        "{rating_language_profanity}",
        rating(&f.rating_language_profanity),
    );
    let t16 = replace(t15.as_str(), "{rating_language_humor}", rating(&f.rating_language_humor));
    let t17 = replace(
        t16.as_str(),
        "{rating_language_discrimination",
        rating(&f.rating_language_discrimination),
    );
    let t18 = replace(t17.as_str(), "{rating_social_chat}", rating(&f.rating_social_chat));
    let t19 = replace(t18.as_str(), "{rating_social_info}", rating(&f.rating_social_info));
    let t20 = replace(t19.as_str(), "{rating_social_audio}", rating(&f.rating_social_audio));
    let t21 = replace(t20.as_str(), "{rating_social_location}", rating(&f.rating_social_location));
    let t22 = replace(t21.as_str(), "{rating_social_contacts}", rating(&f.rating_social_contacts));
    let t23 = replace(
        t22.as_str(),
        "{rating_money_purchasing}",
        rating(&f.rating_money_purchasing),
    );
    replace(t23.as_str(), "{rating_money_gambling}", rating(&f.rating_money_gambling))
}

} // verus!
