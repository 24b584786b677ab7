//! Page and header-widget declarations of the adaptive two-pane layout,
//! as implementors of the layout hand them in.

use vstd::prelude::*;

verus! {

/// A page of the main view stack: an internal name, and optionally a
/// title and icon under which the page appears in the navigation.
pub trait Page {
    /// The internal name of the page.
    fn name(&self) -> &'static str;

    /// The title and icon under which the page appears, if any.
    fn title_and_icon(&self) -> Option<(String, String)>;
}

/// A page declaration collected from a `Page` implementor.
#[derive(Debug, Clone, PartialEq, Eq)]
pub struct PageDesc {
    pub name: &'static str,
    pub title_and_icon: Option<(String, String)>,
}

/// The declaration of a page, as the layout collects it.
pub fn page_desc<P: Page>(page: &P) -> PageDesc {
    PageDesc { name: page.name(), title_and_icon: page.title_and_icon() }
}

/// Where a header widget is packed in a header bar.
#[derive(Debug, Clone, PartialEq, Eq)]
enum HeaderAlignment {
    Start,
    End,
}

/// A widget slot of a header bar, packed at its start or its end.
#[derive(Debug, Clone, PartialEq, Eq)]
pub struct HeaderWidget {
    alignment: HeaderAlignment,
}

impl HeaderWidget {
    /// Whether this slot packs at the start of the header bar.
    pub closed spec fn is_start(&self) -> bool {
        self.alignment == HeaderAlignment::Start
    }

    /// A slot packed at the start of the header bar.
    pub fn start() -> (r: HeaderWidget)
        ensures
            r.is_start(),
    {
        HeaderWidget { alignment: HeaderAlignment::Start }
    }

    /// A slot packed at the end of the header bar.
    pub fn end() -> (r: HeaderWidget)
        ensures
            !r.is_start(),
    {
        HeaderWidget { alignment: HeaderAlignment::End }
    }
}

} // verus!
