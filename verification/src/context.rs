//! The page context builder: a pure read-and-transform over the immutable
//! snapshot. Markdown sources are handed in as a path -> text mapping read
//! beforehand; a path absent from it is the renderer's not-found fault.

use vstd::prelude::*;
use vstd::string::StringExecFns;
use crate::kvmap::KvMap;
use crate::page::{Page, PageKind, Section, Category};
use crate::config::SiteConfig;
use crate::errors::SiteError;
use crate::markdown::{html_of, render_markdown};
use crate::favicon::favicon_path_of;

verus! {

/// One resolved section: its markdown already rendered, without anchors.
pub struct SectionCtx {
    pub theme: String,
    pub title: String,
    pub content: String,
    pub fitscreen: bool,
    pub bgvid: Option<String>,
    pub bgimg: Option<String>,
}

/// One resolved navigation entry of a page's menu.
pub struct MenuItem {
    pub id: String,
    pub title: String,
    pub link: String,
    pub theme: String,
    pub desc: Option<String>,
    pub icon: Option<String>,
    pub icontitle: Option<String>,
    pub date: Option<String>,
}

/// The render context handed to the templating layer.
pub struct RenderContext {
    pub link: String,
    pub themeid: String,
    pub themecolor: String,
    pub title: String,
    pub desc: Option<String>,
    pub keywords: Option<String>,
    pub favicon: String,
    pub shownavbar: bool,
    pub sections: Option<KvMap<SectionCtx>>,
    pub content: Option<String>,
    pub cats: Option<KvMap<Category>>,
    pub menu: Option<Vec<MenuItem>>,
}

/// The view of an optional string.
pub open spec fn opt_view(o: Option<String>) -> Option<Seq<char>> {
    match o {
        Some(s) => Some(s@),
        None => None,
    }
}

/// Copy an optional string.
pub fn clone_opt(o: &Option<String>) -> (r: Option<String>)
    ensures
        opt_view(r) == opt_view(*o),
{
    match o {
        Some(s) => Some(s.clone()),
        None => None,
    }
}

/// The resolved section that `s` turns into, given the HTML of its body.
pub open spec fn section_resolved(c: SectionCtx, s: Section, sources: KvMap<String>) -> bool {
    &&& c.theme@ == s.theme@
    &&& c.title@ == s.title@
    &&& sources.contains_key(s.content@)
    &&& c.content@ == html_of(sources.spec_get(s.content@)->Some_0@, false)
    &&& c.fitscreen == s.fitscreen
    &&& opt_view(c.bgvid) == opt_view(s.bgvid)
    &&& opt_view(c.bgimg) == opt_view(s.bgimg)
}

/// Render every section body, without heading anchors, keeping name order.
/// Fails with the first section whose source text is missing.
fn resolve_sections(sm: &KvMap<Section>, sources: &KvMap<String>) -> (r: Result<
    KvMap<SectionCtx>,
    SiteError,
>)
    requires
        sm.wf(),
        sources.wf(),
    ensures
        r matches Ok(cm) ==> {
            &&& cm.wf()
            &&& cm.spec_len() == sm.spec_len()
            &&& forall|i: int|
                0 <= i < sm.spec_len() ==> #[trigger] cm.key_at(i) == sm.key_at(i)
                    && section_resolved(cm.val_at(i), sm.val_at(i), *sources)
        },
        r is Ok <==> forall|i: int|
            0 <= i < sm.spec_len() ==> sources.contains_key(#[trigger] sm.val_at(i).content@),
        r matches Err(e) ==> e is NotFound && exists|i: int|
            {
                &&& 0 <= i < sm.spec_len()
                &&& !sources.contains_key(#[trigger] sm.val_at(i).content@)
                &&& e.spec_message() == sm.val_at(i).content@
                &&& forall|j: int|
                    0 <= j < i ==> sources.contains_key(#[trigger] sm.val_at(j).content@)
            },
{
    let n = sm.len();
    let mut out: KvMap<SectionCtx> = KvMap::new();
    let mut i: usize = 0;
    while i < n
        invariant
            sm.wf(),
            sources.wf(),
            out.wf(),
            n == sm.spec_len(),
            i <= n,
            out.spec_len() == i,
            forall|j: int|
                0 <= j < i ==> #[trigger] out.key_at(j) == sm.key_at(j) && section_resolved(
                    out.val_at(j),
                    sm.val_at(j),
                    *sources,
                ),
        decreases n - i,
    {
        let name = sm.key_idx(i);
        let sec = sm.val_idx(i);
        let text = match sources.get(sec.content.as_str()) {
            Some(t) => t,
            None => {
                proof {
                    assert forall|j: int| 0 <= j < i implies sources.contains_key(
                        #[trigger] sm.val_at(j).content@,
                    ) by {
                        assert(out.key_at(j) == sm.key_at(j));
                        assert(section_resolved(out.val_at(j), sm.val_at(j), *sources));
                    }
                }
                return Err(SiteError::NotFound(sec.content.clone()));
            },
        };
        let rendered = render_markdown(text.as_str(), false);
        let ctx = SectionCtx {
            theme: sec.theme.clone(),
            title: sec.title.clone(),
            content: rendered,
            fitscreen: sec.fitscreen,
            bgvid: clone_opt(&sec.bgvid),
            bgimg: clone_opt(&sec.bgimg),
        };
        let ghost out0 = out;
        let added = out.push(name.clone(), ctx);
        proof {
            if !added {
                let k = out0.index_of(sm.key_at(i as int));
                assert(out0.key_at(k) == sm.key_at(k));
                assert(sm.key_at(k) == sm.key_at(i as int));
            }
        }
        i += 1;
    }
    proof {
        assert forall|j: int| 0 <= j < sm.spec_len() implies sources.contains_key(
            #[trigger] sm.val_at(j).content@,
        ) by {
            assert(out.key_at(j) == sm.key_at(j));
            assert(section_resolved(out.val_at(j), sm.val_at(j), *sources));
        }
    }
    Ok(out)
}

/// The resolved menu entry that page `p` (under id `id`) turns into.
pub open spec fn menu_item_for(m: MenuItem, id: Seq<char>, p: Page) -> bool {
    &&& m.id@ == id
    &&& m.title@ == p.title@
    &&& m.link@ == p.link@
    &&& m.theme@ == p.theme@
    &&& opt_view(m.desc) == opt_view(p.desc)
    &&& opt_view(m.icon) == opt_view(p.icon)
    &&& opt_view(m.icontitle) == opt_view(p.icontitle)
    &&& opt_view(m.date) == opt_view(p.date)
}

/// Resolve a menu's page ids against the page mapping of the same category,
/// in list order; the first unresolved id is named in the error.
fn resolve_menu(ids: &Vec<String>, pages: &KvMap<Page>) -> (r: Result<Vec<MenuItem>, SiteError>)
    requires
        pages.wf(),
    ensures
        r matches Ok(v) ==> {
            &&& v@.len() == ids@.len()
            &&& forall|k: int|
                0 <= k < ids@.len() ==> pages.contains_key(#[trigger] ids@[k]@) && menu_item_for(
                    v@[k],
                    ids@[k]@,
                    pages.spec_get(ids@[k]@)->Some_0,
                )
        },
        r is Ok <==> forall|k: int| 0 <= k < ids@.len() ==> pages.contains_key(#[trigger] ids@[k]@),
        r matches Err(e) ==> e is NotFound && exists|k: int|
            {
                &&& 0 <= k < ids@.len()
                &&& !pages.contains_key(#[trigger] ids@[k]@)
                &&& e.spec_message() == ids@[k]@
                &&& forall|k2: int| 0 <= k2 < k ==> pages.contains_key(#[trigger] ids@[k2]@)
            },
{
    let n = ids.len();
    let mut out: Vec<MenuItem> = Vec::new();
    let mut k: usize = 0;
    while k < n
        invariant
            pages.wf(),
            n == ids@.len(),
            k <= n,
            out@.len() == k,
            forall|j: int|
                0 <= j < k ==> pages.contains_key(#[trigger] ids@[j]@) && menu_item_for(
                    out@[j],
                    ids@[j]@,
                    pages.spec_get(ids@[j]@)->Some_0,
                ),
        decreases n - k,
    {
        let id = &ids[k];
        let page = match pages.get(id.as_str()) {
            Some(p) => p,
            None => {
                return Err(SiteError::NotFound(id.clone()));
            },
        };
        let item = MenuItem {
            id: id.clone(),
            title: page.title.clone(),
            link: page.link.clone(),
            theme: page.theme.clone(),
            desc: clone_opt(&page.desc),
            icon: clone_opt(&page.icon),
            icontitle: clone_opt(&page.icontitle),
            date: clone_opt(&page.date),
        };
        out.push(item);
        k += 1;
    }
    Ok(out)
}

/// Copy a category mapping through unchanged.
fn clone_cats(lm: &KvMap<Category>) -> (r: KvMap<Category>)
    requires
        lm.wf(),
    ensures
        r.wf(),
        r.spec_len() == lm.spec_len(),
        forall|i: int|
            0 <= i < lm.spec_len() ==> #[trigger] r.key_at(i) == lm.key_at(i) && r.val_at(
                i,
            ).title@ == lm.val_at(i).title@ && r.val_at(i).theme@ == lm.val_at(i).theme@,
{
    let n = lm.len();
    let mut out: KvMap<Category> = KvMap::new();
    let mut i: usize = 0;
    while i < n
        invariant
            lm.wf(),
            out.wf(),
            n == lm.spec_len(),
            i <= n,
            out.spec_len() == i,
            forall|j: int|
                0 <= j < i ==> #[trigger] out.key_at(j) == lm.key_at(j) && out.val_at(
                    j,
                ).title@ == lm.val_at(j).title@ && out.val_at(j).theme@ == lm.val_at(j).theme@,
        decreases n - i,
    {
        let name = lm.key_idx(i);
        let c = lm.val_idx(i);
        let copy = Category { title: c.title.clone(), theme: c.theme.clone() };
        let ghost out0 = out;
        let added = out.push(name.clone(), copy);
        proof {
            if !added {
                let k = out0.index_of(lm.key_at(i as int));
                assert(out0.key_at(k) == lm.key_at(k));
                assert(lm.key_at(k) == lm.key_at(i as int));
            }
        }
        i += 1;
    }
    out
}

/// The favicon a page resolves to: its own if set, else the deterministic
/// default of its theme.
pub open spec fn favicon_resolved(p: Page) -> Seq<char> {
    match p.favicon {
        Some(f) => f@,
        None => favicon_path_of(p.theme@),
    }
}

/// Everything the builder needs is resolvable: every section body and the
/// singular content have source text, and every menu id is a sibling page.
pub open spec fn page_resolvable(p: Page, pages: KvMap<Page>, sources: KvMap<String>) -> bool {
    &&& match p.kind {
        PageKind::Sections(sm) => forall|i: int|
            0 <= i < sm.spec_len() ==> sources.contains_key(#[trigger] sm.val_at(i).content@),
        PageKind::Content(path) => sources.contains_key(path@),
        _ => true,
    }
    &&& match p.menu {
        Some(ids) => forall|k: int| 0 <= k < ids@.len() ==> pages.contains_key(#[trigger] ids@[k]@),
        None => true,
    }
}

/// The context `c` resolves page `p` correctly against the snapshot.
pub open spec fn context_resolves(
    c: RenderContext,
    cfg: SiteConfig,
    p: Page,
    pages: KvMap<Page>,
    sources: KvMap<String>,
) -> bool {
    &&& c.link@ == cfg.sitedomain@ + p.link@
    &&& c.themeid@ == p.theme@
    &&& cfg.themes.contains_key(p.theme@)
    &&& c.themecolor@ == cfg.themes.spec_get(p.theme@)->Some_0.color@
    &&& c.title@ == p.title@
    &&& opt_view(c.desc) == opt_view(p.desc)
    &&& opt_view(c.keywords) == opt_view(p.keywords)
    &&& c.favicon@ == favicon_resolved(p)
    &&& c.shownavbar == p.shownavbar
    &&& match p.kind {
        PageKind::Sections(sm) => c.sections matches Some(cm) && cm.spec_len() == sm.spec_len()
            && forall|i: int|
            0 <= i < sm.spec_len() ==> #[trigger] cm.key_at(i) == sm.key_at(i) && section_resolved(
                cm.val_at(i),
                sm.val_at(i),
                sources,
            ),
        _ => c.sections is None,
    }
    &&& match p.kind {
        PageKind::Content(path) => c.content matches Some(h) && sources.contains_key(path@) && h@
            == html_of(sources.spec_get(path@)->Some_0@, true),
        _ => c.content is None,
    }
    &&& match p.kind {
        PageKind::Linklist(lm) => c.cats matches Some(cm) && cm.spec_len() == lm.spec_len()
            && forall|i: int|
            0 <= i < lm.spec_len() ==> #[trigger] cm.key_at(i) == lm.key_at(i) && cm.val_at(
                i,
            ).title@ == lm.val_at(i).title@ && cm.val_at(i).theme@ == lm.val_at(i).theme@,
        _ => c.cats is None,
    }
    &&& match p.menu {
        Some(ids) => c.menu matches Some(v) && v@.len() == ids@.len() && forall|k: int|
            0 <= k < ids@.len() ==> pages.contains_key(#[trigger] ids@[k]@) && menu_item_for(
                v@[k],
                ids@[k]@,
                pages.spec_get(ids@[k]@)->Some_0,
            ),
        None => c.menu is None,
    }
}

/// Build the render context for one page of one category against the
/// immutable snapshot. Each failure mode is distinct: an unknown category
/// or page id, a missing theme, a missing markdown source or a missing
/// menu sibling is `NotFound`; a page of the redirect-only `link` variant
/// is `InvalidInput` and never yields a context.
pub fn build_context(cfg: &SiteConfig, category: &str, pageid: &str, sources: &KvMap<String>) -> (r:
    Result<RenderContext, SiteError>)
    requires
        cfg.wf(),
        sources.wf(),
    ensures
        cfg.pages.spec_category(category@) is None ==> (r matches Err(e) && e is NotFound),
        cfg.pages.spec_category(category@) matches Some(pm) ==> {
            &&& !pm.contains_key(pageid@) ==> (r matches Err(e) && e is NotFound)
            &&& pm.spec_get(pageid@) matches Some(page) ==> {
                &&& page.kind is Link ==> (r matches Err(e) && e is InvalidInput)
                &&& !(page.kind is Link) && !cfg.themes.contains_key(page.theme@) ==> (
                r matches Err(e) && e is NotFound)
                &&& r matches Ok(c) ==> context_resolves(c, *cfg, page, pm, *sources)
                &&& r is Ok <==> !(page.kind is Link) && cfg.themes.contains_key(page.theme@)
                    && page_resolvable(page, pm, *sources)
                &&& !(page.kind is Link) && cfg.themes.contains_key(page.theme@)
                    && !page_resolvable(page, pm, *sources) ==> (r matches Err(e)
                    && e is NotFound)
            }
        },
        r is Ok ==> (cfg.pages.spec_category(category@) matches Some(pm) && pm.contains_key(
            pageid@,
        )),
{
    let pm = match cfg.pages.category(category) {
        Some(m) => m,
        None => {
            return Err(SiteError::NotFound(category.to_owned()));
        },
    };
    let page = match pm.get(pageid) {
        Some(p) => p,
        None => {
            return Err(SiteError::NotFound(pageid.to_owned()));
        },
    };
    if let PageKind::Link = &page.kind {
        return Err(SiteError::InvalidInput(pageid.to_owned()));
    }
    let theme = match cfg.themes.get(page.theme.as_str()) {
        Some(t) => t,
        None => {
            return Err(SiteError::NotFound(page.theme.clone()));
        },
    };
    let favicon = match &page.favicon {
        Some(f) => f.clone(),
        None => crate::favicon::favicon_path(page.theme.as_str()),
    };
    let mut link: String = cfg.sitedomain.clone();
    link.append(page.link.as_str());

    let mut sections: Option<KvMap<SectionCtx>> = None;
    let mut content: Option<String> = None;
    let mut cats: Option<KvMap<Category>> = None;
    match &page.kind {
        PageKind::Sections(sm) => {
            match resolve_sections(sm, sources) {
                Ok(cm) => {
                    sections = Some(cm);
                },
                Err(e) => {
                    return Err(e);
                },
            }
        },
        PageKind::Content(path) => {
            let text = match sources.get(path.as_str()) {
                Some(t) => t,
                None => {
                    return Err(SiteError::NotFound(path.clone()));
                },
            };
            content = Some(render_markdown(text.as_str(), true));
        },
        PageKind::Linklist(lm) => {
            cats = Some(clone_cats(lm));
        },
        PageKind::Link => {
            return Err(SiteError::InvalidInput(pageid.to_owned()));
        },
    }

    let menu: Option<Vec<MenuItem>> = match &page.menu {
        Some(ids) => {
            match resolve_menu(ids, pm) {
                Ok(v) => Some(v),
                Err(e) => {
                    return Err(e);
                },
            }
        },
        None => None,
    };

    Ok(
        RenderContext {
            link,
            themeid: page.theme.clone(),
            themecolor: theme.color.clone(),
            title: page.title.clone(),
            desc: clone_opt(&page.desc),
            keywords: clone_opt(&page.keywords),
            favicon,
            shownavbar: page.shownavbar,
            sections,
            content,
            cats,
            menu,
        },
    )
}

} // verus!
