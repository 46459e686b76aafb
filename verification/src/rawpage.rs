//! The raw, as-parsed shape of page records: the type tag is a string, the
//! variant payloads and defaulted flags are optional. Turning a raw record
//! into a `Page` populates declared defaults (`fitscreen`, `shownavbar`)
//! and gates the payload fields by the type tag; turning a `Page` back
//! into a raw record is its exact inverse.

use vstd::prelude::*;
use crate::kvmap::{KvMap, str_eq};
use crate::page::{Page, PageKind, Section, Category};
use crate::errors::SiteError;

verus! {

/// One section as parsed: `fitscreen` may be absent.
pub struct RawSection {
    pub theme: String,
    pub title: String,
    pub content: String,
    pub fitscreen: Option<bool>,
    pub bgvid: Option<String>,
    pub bgimg: Option<String>,
}

/// The section a raw section resolves to: absent `fitscreen` defaults on.
pub open spec fn spec_section_from_raw(r: RawSection) -> Section {
    Section {
        theme: r.theme,
        title: r.title,
        content: r.content,
        fitscreen: match r.fitscreen {
            Some(b) => b,
            None => true,
        },
        bgvid: r.bgvid,
        bgimg: r.bgimg,
    }
}

/// The raw form of a section, every field explicit.
pub open spec fn spec_section_to_raw(s: Section) -> RawSection {
    RawSection {
        theme: s.theme,
        title: s.title,
        content: s.content,
        fitscreen: Some(s.fitscreen),
        bgvid: s.bgvid,
        bgimg: s.bgimg,
    }
}

/// Writing a section out and reading it back yields the same section.
pub proof fn lemma_section_round_trip(s: Section)
    ensures
        spec_section_from_raw(spec_section_to_raw(s)) == s,
{
}

pub fn section_from_raw(r: RawSection) -> (s: Section)
    ensures
        s == spec_section_from_raw(r),
{
    let fitscreen = match r.fitscreen {
        Some(b) => b,
        None => true,
    };
    Section {
        theme: r.theme,
        title: r.title,
        content: r.content,
        fitscreen,
        bgvid: r.bgvid,
        bgimg: r.bgimg,
    }
}

pub fn section_to_raw(s: Section) -> (r: RawSection)
    ensures
        r == spec_section_to_raw(s),
{
    RawSection {
        theme: s.theme,
        title: s.title,
        content: s.content,
        fitscreen: Some(s.fitscreen),
        bgvid: s.bgvid,
        bgimg: s.bgimg,
    }
}

/// A page record as parsed: a string type tag, optional variant payloads,
/// optional defaulted flags.
pub struct RawPage {
    pub ptype: String,
    pub link: String,
    pub theme: String,
    pub title: String,
    pub desc: Option<String>,
    pub keywords: Option<String>,
    pub favicon: Option<String>,
    pub icon: Option<String>,
    pub icontitle: Option<String>,
    pub cat: Option<String>,
    pub date: Option<String>,
    pub shownavbar: Option<bool>,
    pub menu: Option<Vec<String>>,
    pub sections: Option<KvMap<Section>>,
    pub content: Option<String>,
    pub cats: Option<KvMap<Category>>,
}

/// The variant a raw record's tag and payload resolve to; `None` when the
/// tag is unknown or its required payload is missing.
pub open spec fn spec_kind_from_raw(r: RawPage) -> Option<PageKind> {
    if r.ptype@ == "sections"@ {
        match r.sections {
            Some(sm) => Some(PageKind::Sections(sm)),
            None => None,
        }
    } else if r.ptype@ == "content"@ {
        match r.content {
            Some(c) => Some(PageKind::Content(c)),
            None => None,
        }
    } else if r.ptype@ == "linklist"@ {
        match r.cats {
            Some(cm) => Some(PageKind::Linklist(cm)),
            None => None,
        }
    } else if r.ptype@ == "link"@ {
        Some(PageKind::Link)
    } else {
        None
    }
}

/// The page a raw record resolves to: the tag picks the variant, absent
/// `shownavbar` defaults on.
pub open spec fn spec_page_from_raw(r: RawPage) -> Option<Page> {
    match spec_kind_from_raw(r) {
        Some(kind) => Some(
            Page {
                kind,
                link: r.link,
                theme: r.theme,
                title: r.title,
                desc: r.desc,
                keywords: r.keywords,
                favicon: r.favicon,
                icon: r.icon,
                icontitle: r.icontitle,
                cat: r.cat,
                date: r.date,
                shownavbar: match r.shownavbar {
                    Some(b) => b,
                    None => true,
                },
                menu: r.menu,
            },
        ),
        None => None,
    }
}

/// The tag a page's variant writes out.
pub open spec fn spec_ptype_of(kind: PageKind) -> Seq<char> {
    match kind {
        PageKind::Sections(_) => "sections"@,
        PageKind::Content(_) => "content"@,
        PageKind::Linklist(_) => "linklist"@,
        PageKind::Link => "link"@,
    }
}

/// `r` is the written-out raw form of `p`: the tag names `p`'s variant,
/// only that variant's payload is set, every defaulted flag is explicit,
/// and the common fields carry over unchanged.
pub open spec fn raw_represents(r: RawPage, p: Page) -> bool {
    &&& r.ptype@ == spec_ptype_of(p.kind)
    &&& r.link == p.link
    &&& r.theme == p.theme
    &&& r.title == p.title
    &&& r.desc == p.desc
    &&& r.keywords == p.keywords
    &&& r.favicon == p.favicon
    &&& r.icon == p.icon
    &&& r.icontitle == p.icontitle
    &&& r.cat == p.cat
    &&& r.date == p.date
    &&& r.shownavbar == Some(p.shownavbar)
    &&& r.menu == p.menu
    &&& r.sections == (match p.kind {
        PageKind::Sections(sm) => Some(sm),
        _ => None::<KvMap<Section>>,
    })
    &&& r.content == (match p.kind {
        PageKind::Content(c) => Some(c),
        _ => None::<String>,
    })
    &&& r.cats == (match p.kind {
        PageKind::Linklist(cm) => Some(cm),
        _ => None::<KvMap<Category>>,
    })
}

/// Round trip: reading a written-out page record back yields the same page
/// on every field.
pub proof fn lemma_page_round_trip(r: RawPage, p: Page)
    requires
        raw_represents(r, p),
    ensures
        spec_page_from_raw(r) == Some(p),
{
    reveal_strlit("sections");
    reveal_strlit("content");
    reveal_strlit("linklist");
    reveal_strlit("link");
    assert("sections"@.len() == 8 && "content"@.len() == 7 && "linklist"@.len() == 8
        && "link"@.len() == 4);
    assert("linklist"@[0] == 'l' && "sections"@[0] == 's');
    assert("content"@ != "sections"@);
    assert("linklist"@ != "sections"@ && "linklist"@ != "content"@);
    assert("link"@ != "sections"@ && "link"@ != "content"@ && "link"@ != "linklist"@);
    match p.kind {
        PageKind::Sections(sm) => {
            assert(spec_kind_from_raw(r) == Some(PageKind::Sections(sm)));
        },
        PageKind::Content(c) => {
            assert(spec_kind_from_raw(r) == Some(PageKind::Content(c)));
        },
        PageKind::Linklist(cm) => {
            assert(spec_kind_from_raw(r) == Some(PageKind::Linklist(cm)));
        },
        PageKind::Link => {
            assert(spec_kind_from_raw(r) == Some(PageKind::Link));
        },
    }
}

/// Write a page out in its raw form.
pub fn page_to_raw(p: Page) -> (r: RawPage)
    ensures
        raw_represents(r, p),
        spec_page_from_raw(r) == Some(p),
{
    let (ptype, sections, content, cats): (
        String,
        Option<KvMap<Section>>,
        Option<String>,
        Option<KvMap<Category>>,
    ) = match p.kind {
        PageKind::Sections(sm) => ("sections".to_owned(), Some(sm), None, None),
        PageKind::Content(c) => ("content".to_owned(), None, Some(c), None),
        PageKind::Linklist(cm) => ("linklist".to_owned(), None, None, Some(cm)),
        PageKind::Link => ("link".to_owned(), None, None, None),
    };
    let r = RawPage {
        ptype,
        link: p.link,
        theme: p.theme,
        title: p.title,
        desc: p.desc,
        keywords: p.keywords,
        favicon: p.favicon,
        icon: p.icon,
        icontitle: p.icontitle,
        cat: p.cat,
        date: p.date,
        shownavbar: Some(p.shownavbar),
        menu: p.menu,
        sections,
        content,
        cats,
    };
    proof {
        let p2 = Page {
            kind: p.kind,
            link: r.link,
            theme: r.theme,
            title: r.title,
            desc: r.desc,
            keywords: r.keywords,
            favicon: r.favicon,
            icon: r.icon,
            icontitle: r.icontitle,
            cat: r.cat,
            date: r.date,
            shownavbar: p.shownavbar,
            menu: r.menu,
        };
        assert(p2 == p);
        lemma_page_round_trip(r, p2);
    }
    r
}

/// Read a raw record into a page: the tag picks the variant, a missing
/// payload or an unknown tag is a configuration error, and an absent
/// `shownavbar` defaults on.
pub fn page_from_raw(r: RawPage) -> (res: Result<Page, SiteError>)
    ensures
        match spec_page_from_raw(r) {
            Some(p) => res == Ok::<Page, SiteError>(p),
            None => res matches Err(e) && e is ConfigInvalid,
        },
{
    proof {
        reveal_strlit("sections");
        reveal_strlit("content");
        reveal_strlit("linklist");
        reveal_strlit("link");
    }
    let RawPage {
        ptype,
        link,
        theme,
        title,
        desc,
        keywords,
        favicon,
        icon,
        icontitle,
        cat,
        date,
        shownavbar,
        menu,
        sections,
        content,
        cats,
    } = r;
    let kind: PageKind = if str_eq(ptype.as_str(), "sections") {
        match sections {
            Some(sm) => PageKind::Sections(sm),
            None => {
                return Err(SiteError::ConfigInvalid("sections page without sections".to_owned()));
            },
        }
    } else if str_eq(ptype.as_str(), "content") {
        match content {
            Some(c) => PageKind::Content(c),
            None => {
                return Err(SiteError::ConfigInvalid("content page without content".to_owned()));
            },
        }
    } else if str_eq(ptype.as_str(), "linklist") {
        match cats {
            Some(cm) => PageKind::Linklist(cm),
            None => {
                return Err(SiteError::ConfigInvalid("linklist page without cats".to_owned()));
            },
        }
    } else if str_eq(ptype.as_str(), "link") {
        PageKind::Link
    } else {
        return Err(SiteError::ConfigInvalid("unknown page type".to_owned()));
    };
    Ok(
        Page {
            kind,
            link,
            theme,
            title,
            desc,
            keywords,
            favicon,
            icon,
            icontitle,
            cat,
            date,
            shownavbar: match shownavbar {
                Some(b) => b,
                None => true,
            },
            menu,
        },
    )
}

} // verus!
