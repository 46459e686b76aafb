use ctclsite::config::{
    defaultfalse, defaulttrue, emptyfonthashmap, emptynavbarlinkhashmap, emptypagehashmap,
    emptystring, emptystringindexmap, emptystringvec, emptythemehashmap, emptytripleu8,
    emptyusizevec, ExtensionFileType,
};
use ctclsite::errors::SiteError;
use ctclsite::kvmap::KvMap;
use ctclsite::markdown::render_markdown;
use ctclsite::page::{Page, PageKind, Section};
use ctclsite::rawpage::{page_from_raw, page_to_raw, section_from_raw, RawPage, RawSection};
use ctclsite::staticfiles::{collect_entry, js_dest, page_dest, publish_decision, static_dest, CopyAction};

fn filetypes() -> KvMap<ExtensionFileType> {
    let mut m = KvMap::new();
    m.push("png".to_string(), ExtensionFileType::Image);
    m.push("json".to_string(), ExtensionFileType::Config);
    m.push("md".to_string(), ExtensionFileType::Text);
    m
}

#[test]
fn config_extension_is_never_published() {
    let ft = filetypes();
    assert!(!publish_decision(Some("json"), &ft));
    match collect_entry(false, "blog/page.json", Some("json"), &ft) {
        CopyAction::Skip => (),
        _ => panic!("a config-classified file must never be published"),
    }
}

#[test]
fn known_extensions_are_published_unknown_skipped() {
    let ft = filetypes();
    assert!(publish_decision(Some("png"), &ft));
    assert!(!publish_decision(Some("exe"), &ft));
    assert!(!publish_decision(None, &ft));
    match collect_entry(false, "blog/cover.png", Some("png"), &ft) {
        CopyAction::CopyTo(d) => assert_eq!(d, "static/pages/blog/cover.png"),
        _ => panic!("an image file must be copied"),
    }
    match collect_entry(false, "blog/tool", None, &ft) {
        CopyAction::Skip => (),
        _ => panic!("a file without extension must be skipped"),
    }
}

#[test]
fn directories_are_mirrored() {
    let ft = filetypes();
    match collect_entry(true, "blog/2024", Some("ignored"), &ft) {
        CopyAction::MakeDir(d) => assert_eq!(d, "static/pages/blog/2024"),
        _ => panic!("a directory must be mirrored"),
    }
}

#[test]
fn destination_paths() {
    assert_eq!(page_dest("a/b.md"), "static/pages/a/b.md");
    assert_eq!(static_dest("robots.txt"), "static/robots.txt");
    assert_eq!(js_dest("main.js"), "static/js/main.js");
}

#[test]
fn markdown_renderer_actually_renders() {
    let html = render_markdown("*hi*", false);
    assert_ne!(html, "*hi*");
    assert!(html.contains("<em>hi</em>"));
    let table = render_markdown("|a|b|\n|-|-|\n|1|2|", false);
    assert!(table.contains("<table>"));
    let raw = render_markdown("<b>kept</b>", false);
    assert!(raw.contains("<b>kept</b>"));
}

#[test]
fn section_defaults_populate_when_absent() {
    let raw = RawSection {
        theme: "dark".to_string(),
        title: "T".to_string(),
        content: "t.md".to_string(),
        fitscreen: None,
        bgvid: None,
        bgimg: None,
    };
    let s = section_from_raw(raw);
    assert!(s.fitscreen);
    let raw2 = RawSection {
        theme: "dark".to_string(),
        title: "T".to_string(),
        content: "t.md".to_string(),
        fitscreen: Some(false),
        bgvid: None,
        bgimg: None,
    };
    assert!(!section_from_raw(raw2).fitscreen);
}

fn sample_page() -> Page {
    let mut sections = KvMap::new();
    sections.push(
        "intro".to_string(),
        Section {
            theme: "dark".to_string(),
            title: "Intro".to_string(),
            content: "intro.md".to_string(),
            fitscreen: false,
            bgvid: Some("bg.webm".to_string()),
            bgimg: None,
        },
    );
    Page {
        kind: PageKind::Sections(sections),
        link: "/home".to_string(),
        theme: "dark".to_string(),
        title: "Home".to_string(),
        desc: Some("d".to_string()),
        keywords: None,
        favicon: None,
        icon: Some("i.png".to_string()),
        icontitle: None,
        cat: None,
        date: Some("2024-01-01".to_string()),
        shownavbar: false,
        menu: Some(vec!["a".to_string()]),
    }
}

#[test]
fn page_round_trips_through_raw_form() {
    let p = sample_page();
    let raw = page_to_raw(sample_page());
    assert_eq!(raw.ptype, "sections");
    assert_eq!(raw.shownavbar, Some(false));
    let back = page_from_raw(raw).unwrap();
    assert_eq!(back.link, p.link);
    assert_eq!(back.theme, p.theme);
    assert_eq!(back.title, p.title);
    assert_eq!(back.desc, p.desc);
    assert_eq!(back.icon, p.icon);
    assert_eq!(back.date, p.date);
    assert_eq!(back.shownavbar, p.shownavbar);
    assert_eq!(back.menu, p.menu);
    match back.kind {
        PageKind::Sections(sm) => {
            assert_eq!(sm.len(), 1);
            assert_eq!(sm.key_idx(0), "intro");
            assert_eq!(sm.val_idx(0).content, "intro.md");
            assert!(!sm.val_idx(0).fitscreen);
        },
        _ => panic!("the variant must survive the round trip"),
    }
}

#[test]
fn raw_page_defaults_and_gating() {
    let raw = RawPage {
        ptype: "content".to_string(),
        link: "/a".to_string(),
        theme: "dark".to_string(),
        title: "A".to_string(),
        desc: None,
        keywords: None,
        favicon: None,
        icon: None,
        icontitle: None,
        cat: None,
        date: None,
        shownavbar: None,
        menu: None,
        sections: None,
        content: Some("a.md".to_string()),
        cats: None,
    };
    let p = page_from_raw(raw).unwrap();
    assert!(p.shownavbar);
    match p.kind {
        PageKind::Content(c) => assert_eq!(c, "a.md"),
        _ => panic!("the content tag must pick the content variant"),
    }
}

#[test]
fn raw_page_missing_payload_or_unknown_tag_is_config_invalid() {
    let raw = RawPage {
        ptype: "sections".to_string(),
        link: "/a".to_string(),
        theme: "dark".to_string(),
        title: "A".to_string(),
        desc: None,
        keywords: None,
        favicon: None,
        icon: None,
        icontitle: None,
        cat: None,
        date: None,
        shownavbar: None,
        menu: None,
        sections: None,
        content: None,
        cats: None,
    };
    match page_from_raw(raw) {
        Err(SiteError::ConfigInvalid(_)) => (),
        _ => panic!("a sections page without sections must be invalid"),
    }
    let raw2 = RawPage {
        ptype: "gallery".to_string(),
        link: "/a".to_string(),
        theme: "dark".to_string(),
        title: "A".to_string(),
        desc: None,
        keywords: None,
        favicon: None,
        icon: None,
        icontitle: None,
        cat: None,
        date: None,
        shownavbar: None,
        menu: None,
        sections: None,
        content: None,
        cats: None,
    };
    match page_from_raw(raw2) {
        Err(SiteError::ConfigInvalid(_)) => (),
        _ => panic!("an unknown tag must be invalid"),
    }
}

#[test]
fn empty_constructors_are_empty() {
    assert_eq!(emptypagehashmap().len(), 0);
    assert_eq!(emptythemehashmap().len(), 0);
    assert_eq!(emptyfonthashmap().len(), 0);
    assert_eq!(emptynavbarlinkhashmap().len(), 0);
    assert_eq!(emptystringindexmap().len(), 0);
    assert_eq!(emptystring(), "");
    assert!(emptystringvec().is_empty());
    assert!(emptyusizevec().is_empty());
    assert_eq!(emptytripleu8(), [0u8, 0u8, 0u8]);
    assert!(!defaultfalse());
    assert!(defaulttrue());
}

#[test]
fn kvmap_keeps_insertion_order_and_rejects_duplicates() {
    let mut m: KvMap<u32> = KvMap::new();
    assert!(m.push("b".to_string(), 1));
    assert!(m.push("a".to_string(), 2));
    assert!(!m.push("b".to_string(), 3));
    assert_eq!(m.len(), 2);
    assert_eq!(m.key_idx(0), "b");
    assert_eq!(m.key_idx(1), "a");
    assert_eq!(*m.get("b").unwrap(), 1);
    assert_eq!(*m.get("a").unwrap(), 2);
    assert!(m.get("c").is_none());
}
