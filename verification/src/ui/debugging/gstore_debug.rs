//! The model of the store-debugging view: a list of dispatched-action
//! rows, a filter line and the current state text. The filter line holds
//! comma-separated searches; a row stays visible when any search matches
//! its title, where a search starting with `!` excludes one exact title
//! and any other search matches titles by prefix.

use vstd::prelude::*;

use crate::text::{match_at, spec_split, split_str, str_chars};

verus! {

/// One row of the action list: the action's name as title, the dispatch
/// time as subtitle, the action's argument, and whether the row is
/// visible under the current filter.
#[derive(Debug, Clone, PartialEq, Eq)]
pub struct ActionRow {
    pub title: String,
    pub subtitle: String,
    pub argument: Option<String>,
    pub visible: bool,
}

/// The store-debugging view: the action rows, newest first, the filter
/// line and the state text.
#[derive(Debug, Clone, PartialEq, Eq)]
pub struct GstoreDebug {
    pub rows: Vec<ActionRow>,
    pub filter_text: String,
    pub state_text: String,
}

/// One search matches a title: a search starting with `!` matches every
/// title but the named one; any other search matches titles it prefixes.
pub open spec fn spec_search_matches(search: Seq<char>, title: Seq<char>) -> bool {
    if search.len() > 0 && search[0] == '!' {
        title != search.skip(1)
    } else {
        match_at(title, search, 0)
    }
}

/// A title is visible under a filter line: always when the line is
/// empty, otherwise when any comma-separated search matches.
pub open spec fn spec_visible(filter: Seq<char>, title: Seq<char>) -> bool {
    filter.len() == 0 || exists|k: int|
        0 <= k < spec_split(filter, ',').len() && spec_search_matches(
            spec_split(filter, ',')[k],
            title,
        )
}

/// Whether the characters of `a` equal those of `b`.
fn chars_equal(a: &Vec<char>, b: &Vec<char>) -> (r: bool)
    ensures
        r == (a@ == b@),
{
    if a.len() != b.len() {
        return false;
    }
    let mut i: usize = 0;
    while i < a.len()
        invariant
            a@.len() == b@.len(),
            i <= a@.len(),
            forall|k: int| 0 <= k < i ==> a@[k] == b@[k],
        decreases a.len() - i,
    {
        if a[i] != b[i] {
            return false;
        }
        i += 1;
    }
    assert(a@ =~= b@);
    true
}

/// Whether one search of the filter line matches a title.
fn search_matches(search: &String, title: &String) -> (r: bool)
    ensures
        r == spec_search_matches(search@, title@),
{
    let sv = str_chars(search.as_str());
    let tv = str_chars(title.as_str());
    if sv.len() > 0 && sv[0] == '!' {
        let excluded = crate::text::suffix_chars(&sv, 1);
        !chars_equal(&tv, &excluded)
    } else {
        crate::text::matches_at(&tv, 0, &sv)
    }
}

impl GstoreDebug {
    /// The construction hook of the view; the model needs no setup.
    pub fn constructed(&self) {
    }

    /// Applies the filter line to the rows: every row's visibility is
    /// recomputed from its title; nothing else changes.
    pub fn filter(&mut self)
        ensures
            final(self).rows@.len() == old(self).rows@.len(),
            forall|i: int|
                0 <= i < old(self).rows@.len() ==> {
                    let before = #[trigger] old(self).rows@[i];
                    let after = final(self).rows@[i];
                    after.title == before.title && after.subtitle == before.subtitle
                        && after.argument == before.argument && after.visible == spec_visible(
                        old(self).filter_text@,
                        before.title@,
                    )
                },
            final(self).filter_text == old(self).filter_text,
            final(self).state_text == old(self).state_text,
    {
        let empty = self.filter_text.as_str().unicode_len() == 0;
        let searches: Vec<String> = if empty {
            Vec::new()
        } else {
            split_str(self.filter_text.as_str(), ',')
        };
        let ghost searches_dv = searches.deep_view();
        let mut i: usize = 0;
        while i < self.rows.len()
            invariant
                i <= self.rows@.len(),
                self.rows@.len() == old(self).rows@.len(),
                self.filter_text == old(self).filter_text,
                self.state_text == old(self).state_text,
                empty == (old(self).filter_text@.len() == 0),
                searches_dv == searches.deep_view(),
                !empty ==> searches_dv == spec_split(old(self).filter_text@, ','),
                searches_dv.len() == searches@.len(),
                forall|k: int| 0 <= k < searches@.len() ==> searches_dv[k] == searches@[k]@,
                forall|k: int|
                    i <= k < self.rows@.len() ==> self.rows@[k] == old(self).rows@[k],
                forall|k: int|
                    0 <= k < i ==> {
                        let before = #[trigger] old(self).rows@[k];
                        let after = self.rows@[k];
                        after.title == before.title && after.subtitle == before.subtitle
                            && after.argument == before.argument && after.visible == spec_visible(
                            old(self).filter_text@,
                            before.title@,
                        )
                    },
            decreases self.rows.len() - i,
        {
            let visible: bool;
            if empty {
                visible = true;
            } else {
                let mut found = false;
                let mut k: usize = 0;
                let title = self.rows[i].title.clone();
                while k < searches.len()
                    invariant
                        k <= searches@.len(),
                        searches_dv == searches.deep_view(),
                        searches_dv.len() == searches@.len(),
                        forall|m: int| 0 <= m < searches@.len() ==> searches_dv[m] == searches@[m]@,
                        title@ == self.rows@[i as int].title@,
                        i < self.rows@.len(),
                        found ==> exists|m: int|
                            0 <= m < searches_dv.len() && spec_search_matches(
                                searches_dv[m],
                                title@,
                            ),
                        !found ==> forall|m: int|
                            0 <= m < k ==> !spec_search_matches(searches_dv[m], title@),
                    decreases searches.len() - k,
                {
                    if !found {
                        if search_matches(&searches[k], &title) {
                            found = true;
                            assert(spec_search_matches(searches_dv[k as int], title@));
                        }
                    }
                    k += 1;
                }
                visible = found;
            }
            let src = &self.rows[i];
            let updated = ActionRow {
                title: src.title.clone(),
                subtitle: src.subtitle.clone(),
                argument: match &src.argument {
                    Some(a) => Some(a.clone()),
                    None => None,
                },
                visible,
            };
            self.rows.set(i, updated);
            i += 1;
        }
    }

    /// The filter line changed: reapply it to the rows.
    pub fn on_filter(&mut self)
        ensures
            final(self).rows@.len() == old(self).rows@.len(),
            forall|i: int|
                0 <= i < old(self).rows@.len() ==> {
                    let before = #[trigger] old(self).rows@[i];
                    let after = final(self).rows@[i];
                    after.title == before.title && after.subtitle == before.subtitle
                        && after.argument == before.argument && after.visible == spec_visible(
                        old(self).filter_text@,
                        before.title@,
                    )
                },
            final(self).filter_text == old(self).filter_text,
            final(self).state_text == old(self).state_text,
    {
        self.filter()
    }

    /// A dispatched action arrives: a row for it, visible as the filter
    /// line decides, goes in front of the list, every other row keeps
    /// its content with its visibility recomputed, and the state text is
    /// replaced.
    pub fn on_action(&mut self, name: String, argument: Option<String>, subtitle: String, state: String)
        ensures
            final(self).rows@.len() == old(self).rows@.len() + 1,
            final(self).rows@[0].title == name,
            final(self).rows@[0].subtitle == subtitle,
            final(self).rows@[0].argument == argument,
            final(self).rows@[0].visible == spec_visible(old(self).filter_text@, name@),
            forall|i: int|
                1 <= i < final(self).rows@.len() ==> {
                    let before = #[trigger] old(self).rows@[i - 1];
                    let after = final(self).rows@[i];
                    after.title == before.title && after.subtitle == before.subtitle
                        && after.argument == before.argument && after.visible == spec_visible(
                        old(self).filter_text@,
                        before.title@,
                    )
                },
            final(self).filter_text == old(self).filter_text,
            final(self).state_text == state,
    {
        let row = ActionRow { title: name, subtitle, argument, visible: true };
        let ghost orig = self.rows@;
        self.rows.insert(0, row);
        proof {
            orig.insert_ensures(0, row);
            assert(self.rows@[0] == row);
            assert(forall|i: int|
                1 <= i < self.rows@.len() ==> #[trigger] self.rows@[i] == orig[i - 1]);
        }
        let ghost inserted = self.rows@;
        self.filter();
        proof {
            assert(self.rows@[0].title == inserted[0].title);
            assert(forall|i: int|
                1 <= i < self.rows@.len() ==> #[trigger] self.rows@[i].title == inserted[i].title
                    && self.rows@[i].subtitle == inserted[i].subtitle && self.rows@[i].argument
                    == inserted[i].argument);
        }
        self.state_text = state;
    }
}

impl Default for GstoreDebug {
    /// An empty debugging view: no rows, no filter, no state text.
    fn default() -> (r: GstoreDebug)
        ensures
            r.rows@.len() == 0,
            r.filter_text@.len() == 0,
            r.state_text@.len() == 0,
    {
        GstoreDebug { rows: Vec::new(), filter_text: String::new(), state_text: String::new() }
    }
}

} // verus!
