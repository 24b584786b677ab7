//! The decisions of the locale setup: which outcome of binding the text
//! domain is silent, which is worth a warning and which is an error.
//! Binding the domain itself talks to the system's gettext runtime and
//! stays outside this crate; it hands its outcome in as plain data.

use vstd::prelude::*;
use vstd::string::StringExecFns;

use crate::text::str_chars;

verus! {

/// The outcome of binding the text domain, as plain data: bound to a
/// locale, bound without any locale, rejected for an invalid locale,
/// missing the catalog of a locale, or failed with a rendered error.
#[derive(Debug, Clone, PartialEq, Eq)]
pub enum TextDomainOutcome {
    Initialized,
    NoLocaleSet,
    InvalidLocale(String),
    TranslationNotFound(String),
    Failed(String),
}

/// What the app reports for an outcome: nothing, a warning line or an
/// error line.
#[derive(Debug, Clone, PartialEq, Eq)]
pub enum GettextReport {
    Silent,
    Warning(String),
    Error(String),
}

/// The debug form of a string: quoted, with its special characters
/// escaped. Relies on `str`'s `Debug` formatting: a function of the
/// characters alone.
pub uninterp spec fn debug_str_of(s: Seq<char>) -> Seq<char>;

/// Relies on `str`'s `Debug` formatting through `format!`: the quoted,
/// escaped form of the string, a function of its characters alone.
#[verifier::external_body]
fn debug_quoted(s: &str) -> (r: String)
    ensures
        r@ == debug_str_of(s@),
{
    format!("{:?}", s)
}

/// The report for an outcome of binding the text domain: silence when a
/// locale was bound, and for a missing catalog of the default language;
/// a warning when no locale was set or the locale is invalid; an error
/// for any other missing catalog and for a failure.
pub fn init_gettext_report(outcome: &TextDomainOutcome) -> (r: GettextReport)
    ensures
        outcome is Initialized ==> r is Silent,
        outcome is NoLocaleSet ==> (r matches GettextReport::Warning(w) && w@
            == "Warning: No locale was set! Probably /usr/share/locale/*/LC_MESSAGES does not contain a .mo file."@),
        outcome matches TextDomainOutcome::InvalidLocale(l) ==> (r matches GettextReport::Warning(
            w,
        ) && w@ == "Warning: Invalid locale "@ + debug_str_of(l@)),
        outcome matches TextDomainOutcome::TranslationNotFound(l) ==> (if l@ == "en"@ {
            r is Silent
        } else {
            r matches GettextReport::Error(e) && e@
                == "Warning: Could not find messages for locale "@ + debug_str_of(l@)
        }),
        outcome matches TextDomainOutcome::Failed(t) ==> (r matches GettextReport::Error(e) && e
            == t),
{
    match outcome {
        TextDomainOutcome::Initialized => GettextReport::Silent,
        TextDomainOutcome::NoLocaleSet => {
            let mut w = String::new();
            w.append(
                "Warning: No locale was set! Probably /usr/share/locale/*/LC_MESSAGES does not contain a .mo file.",
            );
            assert(w@ =~= "Warning: No locale was set! Probably /usr/share/locale/*/LC_MESSAGES does not contain a .mo file."@);
            GettextReport::Warning(w)
        },
        TextDomainOutcome::InvalidLocale(l) => {
            let mut w = String::new();
            w.append("Warning: Invalid locale ");
            let d = debug_quoted(l.as_str());
            w.append(d.as_str());
            assert(w@ =~= "Warning: Invalid locale "@ + debug_str_of(l@));
            GettextReport::Warning(w)
        },
        TextDomainOutcome::TranslationNotFound(l) => {
            let lv = str_chars(l.as_str());
            proof {
                reveal_strlit("en");
            }
            let is_default = lv.len() == 2 && lv[0] == 'e' && lv[1] == 'n';
            assert(is_default == (l@ == "en"@)) by {
                if lv@.len() == 2 && lv@[0] == 'e' && lv@[1] == 'n' {
                    assert(l@ =~= "en"@);
                }
                if l@ == "en"@ {
                    assert(lv@[0] == 'e' && lv@[1] == 'n');
                }
            }
            if is_default {
                GettextReport::Silent
            } else {
                let mut e = String::new();
                e.append("Warning: Could not find messages for locale ");
                let d = debug_quoted(l.as_str());
                e.append(d.as_str());
                assert(e@ =~= "Warning: Could not find messages for locale "@ + debug_str_of(l@));
                GettextReport::Error(e)
            }
        },
        TextDomainOutcome::Failed(t) => GettextReport::Error(t.clone()),
    }
}

} // verus!
