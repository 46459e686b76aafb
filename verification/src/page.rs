//! The page data model: themes, sections, categories and the tagged page
//! union. A page's variant decides which resolution rules apply.

use vstd::prelude::*;
use crate::kvmap::KvMap;

verus! {

/// A theme: an accent color and a foreground color, both hex strings.
pub struct Theme {
    pub color: String,
    pub fgcolor: String,
}

/// A font family; opaque to the resolution pipeline, referenced by id.
pub struct FontFamily {
    pub name: String,
}

/// One navbar entry.
pub struct NavbarLink {
    pub title: String,
    pub link: String,
}

/// One full-viewport-capable block of a sectioned page. `content` is a path
/// to a markdown source, not rendered text, until resolution.
pub struct Section {
    pub theme: String,
    pub title: String,
    pub content: String,
    pub fitscreen: bool,
    pub bgvid: Option<String>,
    pub bgimg: Option<String>,
}

/// One grouping tab within a link-list page.
pub struct Category {
    pub title: String,
    pub theme: String,
}

/// The type-dependent part of a page.
pub enum PageKind {
    /// An ordered mapping name -> Section; insertion order is render order.
    Sections(KvMap<Section>),
    /// A single markdown path: a singular prose page.
    Content(String),
    /// Grouping tabs of an external-link page with no renderable body.
    Linklist(KvMap<Category>),
    /// A redirect-only stub; it must never resolve into a render context.
    Link,
}

/// A page record.
pub struct Page {
    pub kind: PageKind,
    pub link: String,
    pub theme: String,
    pub title: String,
    pub desc: Option<String>,
    pub keywords: Option<String>,
    pub favicon: Option<String>,
    pub icon: Option<String>,
    pub icontitle: Option<String>,
    pub cat: Option<String>,
    pub date: Option<String>,
    pub shownavbar: bool,
    pub menu: Option<Vec<String>>,
}

impl Page {
    /// The ordered maps inside a page variant are well-formed.
    pub open spec fn wf(&self) -> bool {
        match self.kind {
            PageKind::Sections(m) => m.wf(),
            PageKind::Linklist(m) => m.wf(),
            _ => true,
        }
    }
}

} // verus!
