//! The site configuration snapshot and the small default constructors its
//! loading uses, plus the final non-emptiness check of the load phase.

use vstd::prelude::*;
use crate::kvmap::KvMap;
use crate::page::{Page, Theme, FontFamily, NavbarLink};
use crate::errors::SiteError;

verus! {

/// What a file extension is classified as; `Config` files are never
/// published by static collection.
#[derive(PartialEq, Eq, Structural, Clone, Copy, Debug)]
pub enum ExtensionFileType {
    Binary,
    Config,
    Image,
    Pdf,
    Text,
    Video,
}

/// The five known page categories, each an id -> Page mapping.
pub struct PageRegistry {
    pub about: KvMap<Page>,
    pub blog: KvMap<Page>,
    pub linklist: KvMap<Page>,
    pub projects: KvMap<Page>,
    pub services: KvMap<Page>,
}

impl PageRegistry {
    pub open spec fn wf(&self) -> bool {
        &&& self.about.wf() && self.blog.wf() && self.linklist.wf()
        &&& self.projects.wf() && self.services.wf()
        &&& forall|i: int| 0 <= i < self.about.spec_len() ==> self.about.val_at(i).wf()
        &&& forall|i: int| 0 <= i < self.blog.spec_len() ==> self.blog.val_at(i).wf()
        &&& forall|i: int| 0 <= i < self.linklist.spec_len() ==> self.linklist.val_at(i).wf()
        &&& forall|i: int| 0 <= i < self.projects.spec_len() ==> self.projects.val_at(i).wf()
        &&& forall|i: int| 0 <= i < self.services.spec_len() ==> self.services.val_at(i).wf()
    }

    /// The mapping a category name resolves to; `None` for an unknown name.
    pub open spec fn spec_category(&self, cat: Seq<char>) -> Option<KvMap<Page>> {
        if cat == "about"@ {
            Some(self.about)
        } else if cat == "blog"@ {
            Some(self.blog)
        } else if cat == "linklist"@ {
            Some(self.linklist)
        } else if cat == "projects"@ {
            Some(self.projects)
        } else if cat == "services"@ {
            Some(self.services)
        } else {
            None
        }
    }

    pub open spec fn spec_total_pages(&self) -> nat {
        self.about.spec_len() + self.blog.spec_len() + self.linklist.spec_len()
            + self.projects.spec_len() + self.services.spec_len()
    }

    pub fn empty() -> (r: Self)
        ensures
            r.wf(),
            r.spec_total_pages() == 0,
    {
        PageRegistry {
            about: KvMap::new(),
            blog: KvMap::new(),
            linklist: KvMap::new(),
            projects: KvMap::new(),
            services: KvMap::new(),
        }
    }

    /// Resolve a category name to its page mapping.
    pub fn category(&self, cat: &str) -> (r: Option<&KvMap<Page>>)
        ensures
            match r {
                Some(m) => self.spec_category(cat@) == Some(*m),
                None => self.spec_category(cat@) is None,
            },
    {
        proof {
            reveal_strlit("about");
            reveal_strlit("blog");
            reveal_strlit("linklist");
            reveal_strlit("projects");
            reveal_strlit("services");
        }
        if crate::kvmap::str_eq(cat, "about") {
            Some(&self.about)
        } else if crate::kvmap::str_eq(cat, "blog") {
            Some(&self.blog)
        } else if crate::kvmap::str_eq(cat, "linklist") {
            Some(&self.linklist)
        } else if crate::kvmap::str_eq(cat, "projects") {
            Some(&self.projects)
        } else if crate::kvmap::str_eq(cat, "services") {
            Some(&self.services)
        } else {
            None
        }
    }

    /// Count of all pages over the five categories.
    pub fn total_pages(&self) -> (n: usize)
        requires
            self.spec_total_pages() <= usize::MAX,
        ensures
            n == self.spec_total_pages(),
    {
        let a = self.about.len();
        let b = self.blog.len();
        let l = self.linklist.len();
        let p = self.projects.len();
        let s = self.services.len();
        a + b + l + p + s
    }
}

/// The immutable site snapshot: identity, discovery paths, classification
/// rules and the three derived registries.
pub struct SiteConfig {
    pub bindip: String,
    pub bindport: u16,
    pub sitedomain: String,
    pub fontdir: String,
    pub jsdir: String,
    pub pagedir: String,
    pub staticdir: String,
    pub themedir: String,
    pub templatedir: String,
    pub defaulttheme: String,
    pub cpus: usize,
    pub redirects: KvMap<String>,
    pub navbar: Vec<NavbarLink>,
    pub minimizehtml: bool,
    pub filetypes: KvMap<ExtensionFileType>,
    pub themevars: Option<KvMap<String>>,
    pub uservars: Option<KvMap<String>>,
    pub pages: PageRegistry,
    pub themes: KvMap<Theme>,
    pub fonts: KvMap<FontFamily>,
}

impl SiteConfig {
    pub open spec fn wf(&self) -> bool {
        &&& self.redirects.wf()
        &&& self.filetypes.wf()
        &&& self.pages.wf()
        &&& self.themes.wf()
        &&& self.fonts.wf()
    }
}

/// The fields needed to start the server without loading the whole site.
pub struct PartialSiteConfig {
    pub bindip: String,
    pub bindport: u16,
    pub cpus: usize,
}

/// The load phase's final check: a site with zero pages or zero themes
/// cannot serve anything and is a fatal misconfiguration.
pub fn check_loaded(cfg: &SiteConfig) -> (r: Result<(), SiteError>)
    requires
        cfg.pages.spec_total_pages() <= usize::MAX,
    ensures
        r is Ok <==> cfg.pages.spec_total_pages() > 0 && cfg.themes.spec_len() > 0,
        cfg.pages.spec_total_pages() == 0 ==> (r matches Err(e) && e is NotFound),
        cfg.pages.spec_total_pages() > 0 && cfg.themes.spec_len() == 0 ==> (r matches Err(e)
            && e is NotFound),
{
    if cfg.pages.total_pages() == 0 {
        return Err(SiteError::NotFound("No pages found".to_owned()));
    }
    if cfg.themes.len() == 0 {
        return Err(SiteError::NotFound("No themes found".to_owned()));
    }
    Ok(())
}

/// A fresh, empty id -> Page mapping.
pub fn emptypagehashmap() -> (r: KvMap<Page>)
    ensures
        r.wf(),
        r.spec_len() == 0,
{
    KvMap::new()
}

/// A fresh, empty id -> Theme mapping.
pub fn emptythemehashmap() -> (r: KvMap<Theme>)
    ensures
        r.wf(),
        r.spec_len() == 0,
{
    KvMap::new()
}

/// A fresh, empty id -> FontFamily mapping.
pub fn emptyfonthashmap() -> (r: KvMap<FontFamily>)
    ensures
        r.wf(),
        r.spec_len() == 0,
{
    KvMap::new()
}

/// A fresh, empty id -> NavbarLink mapping.
pub fn emptynavbarlinkhashmap() -> (r: KvMap<NavbarLink>)
    ensures
        r.wf(),
        r.spec_len() == 0,
{
    KvMap::new()
}

/// A fresh, empty ordered string -> string mapping.
pub fn emptystringindexmap() -> (r: KvMap<String>)
    ensures
        r.wf(),
        r.spec_len() == 0,
{
    KvMap::new()
}

/// A fresh, empty string.
pub fn emptystring() -> (r: String)
    ensures
        r@ == Seq::<char>::empty(),
{
    String::new()
}

/// A fresh, empty vector of strings.
pub fn emptystringvec() -> (r: Vec<String>)
    ensures
        r@ == Seq::<String>::empty(),
{
    Vec::new()
}

/// A fresh, empty vector of sizes.
pub fn emptyusizevec() -> (r: Vec<usize>)
    ensures
        r@ == Seq::<usize>::empty(),
{
    Vec::new()
}

/// Three zero bytes: the default RGB triple.
pub fn emptytripleu8() -> (r: [u8; 3])
    ensures
        r@ == seq![0u8, 0u8, 0u8],
{
    [0u8; 3]
}

/// The default for flags that start off.
pub fn defaultfalse() -> (r: bool)
    ensures
        r == false,
{
    false
}

/// The default for flags that start on.
pub fn defaulttrue() -> (r: bool)
    ensures
        r == true,
{
    true
}

} // verus!
