//! The plain-data side of the adaptive two-pane layout: what a page and
//! a header widget declare, and which navigation rows the sidebar shows
//! for the declared pages.

use vstd::prelude::*;

verus! {

/// A page of the main view stack: an internal name, and optionally a
/// title and icon under which the page appears in the navigation.
#[derive(Debug, Clone, PartialEq, Eq)]
pub struct Page {
    pub name: String,
    pub title_and_icon: Option<(String, String)>,
}

impl Page {
    /// A page description from its name and optional title and icon.
    pub fn new(name: String, title_and_icon: Option<(String, String)>) -> (r: Page)
        ensures
            r.name == name,
            r.title_and_icon == title_and_icon,
    {
        Page { name, title_and_icon }
    }
}

/// Where a header widget is packed in a header bar.
#[derive(Debug, Clone, PartialEq, Eq)]
enum HeaderAlignment {
    Start,
    End,
}

/// A widget slot of the header bar, packed at its start or its end.
#[derive(Debug, Clone, PartialEq, Eq)]
pub struct HeaderWidget {
    alignment: HeaderAlignment,
}

impl HeaderWidget {
    /// Whether this slot packs at the start of the header bar.
    pub closed spec fn is_start(&self) -> bool {
        self.alignment == HeaderAlignment::Start
    }

    /// A slot packed at the start of the header bar.
    pub fn start() -> (r: HeaderWidget)
        ensures
            r.is_start(),
    {
        HeaderWidget { alignment: HeaderAlignment::Start }
    }

    /// A slot packed at the end of the header bar.
    pub fn end() -> (r: HeaderWidget)
        ensures
            !r.is_start(),
    {
        HeaderWidget { alignment: HeaderAlignment::End }
    }

    /// Whether this slot packs at the start of the header bar.
    pub fn packs_at_start(&self) -> (r: bool)
        ensures
            r == self.is_start(),
    {
        match self.alignment {
            HeaderAlignment::Start => true,
            HeaderAlignment::End => false,
        }
    }
}

/// One navigation row of the sidebar: the icon and title it shows, and
/// the name of the page it activates.
#[derive(Debug, Clone, PartialEq, Eq)]
pub struct SidebarRow {
    pub icon: String,
    pub title: String,
    pub page_name: String,
}

/// The sidebar row of a page, when the page declares a title and icon.
pub open spec fn spec_sidebar_row(p: Page) -> SidebarRow {
    match p.title_and_icon {
        Some(ti) => SidebarRow { icon: ti.1, title: ti.0, page_name: p.name },
        None => SidebarRow { icon: p.name, title: p.name, page_name: p.name },
    }
}

/// The sidebar rows of the declared pages: one row per page with a title
/// and icon, in page order; untitled pages get no row.
pub open spec fn spec_sidebar_rows(pages: Seq<Page>) -> Seq<SidebarRow>
    decreases pages.len(),
{
    if pages.len() == 0 {
        Seq::empty()
    } else if pages[0].title_and_icon is Some {
        seq![spec_sidebar_row(pages[0])] + spec_sidebar_rows(pages.skip(1))
    } else {
        spec_sidebar_rows(pages.skip(1))
    }
}

/// The navigation rows the sidebar shows for the declared pages: one per
/// titled page, in page order.
pub fn sidebar_rows(pages: &Vec<Page>) -> (r: Vec<SidebarRow>)
    ensures
        r@ == spec_sidebar_rows(pages@),
{
    let mut out: Vec<SidebarRow> = Vec::new();
    let mut k: usize = 0;
    assert(pages@.skip(0) =~= pages@);
    while k < pages.len()
        invariant
            k <= pages@.len(),
            out@ + spec_sidebar_rows(pages@.skip(k as int)) == spec_sidebar_rows(pages@),
        decreases pages.len() - k,
    {
        let ghost out_before = out@;
        proof {
            assert(pages@.skip(k as int).skip(1) =~= pages@.skip(k + 1));
        }
        let p = &pages[k];
        match &p.title_and_icon {
            Some(ti) => {
                let row = SidebarRow {
                    icon: ti.1.clone(),
                    title: ti.0.clone(),
                    page_name: p.name.clone(),
                };
                out.push(row);
                proof {
                    assert(out@ =~= out_before.push(spec_sidebar_row(pages@[k as int])));
                    assert(out_before.push(spec_sidebar_row(pages@[k as int]))
                        + spec_sidebar_rows(pages@.skip(k + 1)) =~= out_before + (seq![
                        spec_sidebar_row(pages@[k as int]),
                    ] + spec_sidebar_rows(pages@.skip(k + 1))));
                }
            },
            None => {},
        }
        k += 1;
    }
    assert(pages@.skip(pages@.len() as int) =~= Seq::<Page>::empty());
    assert(out@ + Seq::<SidebarRow>::empty() =~= out@);
    out
}

} // verus!
