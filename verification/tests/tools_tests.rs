use ldtstore_codegen::config::{
    tool_icon_emoji, tool_website_type, MirrorType, Tool, ToolGroup, ToolLink, ToolLinkIcon,
    ToolLinkTitle, ToolLinkTitleType, ToolLinkType, ToolLinks,
};
use ldtstore_codegen::ordered::OrderedMap;
use ldtstore_codegen::render::{Fragment, Rule, SemanticError};
use ldtstore_codegen::tools::{render_plain_each, Plain};

fn no_links() -> ToolLinks {
    ToolLinks {
        website: None,
        websites: None,
        downloads: None,
        mirror: None,
        mirrors: None,
        columns: None,
    }
}

fn tool(name: &str, links: ToolLinks) -> Tool {
    Tool {
        name: name.to_string(),
        title: "Title".to_string(),
        icon: None,
        description: None,
        notice: None,
        category: None,
        cross: None,
        keywords: None,
        cross_notice: None,
        links,
    }
}

fn texts(pairs: &[(&str, &str)]) -> OrderedMap<String> {
    let mut m = OrderedMap::new();
    for (k, v) in pairs {
        m.insert(k.to_string(), v.to_string());
    }
    m
}

fn markup<T: Fragment>(part: &T) -> String {
    part.render()
}

fn link() -> String {
    tool_icon_emoji(ToolLinkIcon::Link).to_string()
}

fn download() -> String {
    tool_icon_emoji(ToolLinkIcon::Download).to_string()
}

#[test]
fn a_tool_without_links_has_no_rows() {
    assert_eq!(tool("t", no_links()).link_rows(), vec![]);
}

#[test]
fn link_rows_come_in_the_fixed_order() {
    let mut websites = OrderedMap::new();
    websites.insert("z".to_string(), ToolLinkTitle::Text("Zed".to_string()));
    websites.insert("a".to_string(), ToolLinkTitle::Type(ToolLinkTitleType::Link));
    let links = ToolLinks {
        website: Some(ToolLinkTitle::Type(ToolLinkTitleType::Official)),
        websites: Some(websites),
        downloads: Some(texts(&[("x64", "64 bit"), ("arm", "ARM")])),
        mirror: Some(MirrorType::Locked),
        mirrors: Some(texts(&[("m2", "Second"), ("m1", "First")])),
        columns: None,
    };
    assert_eq!(
        tool("t", links).link_rows(),
        vec![
            ToolLink {
                title: ToolLinkTitle::Type(ToolLinkTitleType::Official),
                link_type: ToolLinkType::R2,
                link: "t".to_string(),
                icon: ToolLinkIcon::Link,
            },
            ToolLink {
                title: ToolLinkTitle::Text("Zed".to_string()),
                link_type: ToolLinkType::R2,
                link: "t-z".to_string(),
                icon: ToolLinkIcon::Link,
            },
            ToolLink {
                title: ToolLinkTitle::Type(ToolLinkTitleType::Link),
                link_type: ToolLinkType::R2,
                link: "t-a".to_string(),
                icon: ToolLinkIcon::Link,
            },
            ToolLink {
                title: ToolLinkTitle::Text("locked".to_string()),
                link_type: ToolLinkType::Mirror,
                link: "/t".to_string(),
                icon: ToolLinkIcon::Download,
            },
            ToolLink {
                title: ToolLinkTitle::Text("Second".to_string()),
                link_type: ToolLinkType::Mirror,
                link: "/t/m2".to_string(),
                icon: ToolLinkIcon::Download,
            },
            ToolLink {
                title: ToolLinkTitle::Text("First".to_string()),
                link_type: ToolLinkType::Mirror,
                link: "/t/m1".to_string(),
                icon: ToolLinkIcon::Download,
            },
            ToolLink {
                title: ToolLinkTitle::Text("64 bit".to_string()),
                link_type: ToolLinkType::R2,
                link: "t-d-x64".to_string(),
                icon: ToolLinkIcon::Download,
            },
            ToolLink {
                title: ToolLinkTitle::Text("ARM".to_string()),
                link_type: ToolLinkType::R2,
                link: "t-d-arm".to_string(),
                icon: ToolLinkIcon::Download,
            },
        ]
    );
}

#[test]
fn one_active_mirror_gives_one_mirror_row() {
    let mut links = no_links();
    links.website = Some(ToolLinkTitle::Type(ToolLinkTitleType::Official));
    links.downloads = Some(texts(&[("x", "X")]));
    links.mirror = Some(MirrorType::Active);
    let t = tool("t", links);
    let rows = t.link_rows();
    let mirrors: Vec<&ToolLink> =
        rows.iter().filter(|r| r.link_type == ToolLinkType::Mirror).collect();
    assert_eq!(mirrors.len(), 1);
    assert_eq!(
        *mirrors[0],
        ToolLink {
            title: ToolLinkTitle::Text("active".to_string()),
            link_type: ToolLinkType::Mirror,
            link: "/t".to_string(),
            icon: ToolLinkIcon::Download,
        }
    );
    assert_eq!(
        markup(mirrors[0]),
        format!("<a class=\"link\" href=\"{{{{MIRROR}}}}/t\">{} active</a>", download())
    );
}

#[test]
fn link_row_markup_shows_label_or_text() {
    let row = ToolLink {
        title: ToolLinkTitle::Type(ToolLinkTitleType::Official),
        link_type: ToolLinkType::R2,
        link: "t".to_string(),
        icon: ToolLinkIcon::Link,
    };
    assert_eq!(
        markup(&row),
        format!(
            "<a class=\"link\" href=\"//r.ldtstore.com.cn/r2/t\">{} {}</a>",
            link(),
            tool_website_type(ToolLinkTitleType::Official)
        )
    );
    let row = ToolLink {
        title: ToolLinkTitle::Text("Docs & more".to_string()),
        link_type: ToolLinkType::Mirror,
        link: "/t/docs".to_string(),
        icon: ToolLinkIcon::Download,
    };
    assert_eq!(
        markup(&row),
        format!("<a class=\"link\" href=\"{{{{MIRROR}}}}/t/docs\">{} Docs & more</a>", download())
    );
}

#[test]
fn website_and_websites_together_are_rejected() {
    let mut links = no_links();
    links.website = Some(ToolLinkTitle::Type(ToolLinkTitleType::Official));
    links.websites = Some(OrderedMap::new());
    assert_eq!(
        tool("t", links).check(),
        Err(SemanticError { rule: Rule::WebsiteConflict, subject: "t".to_string() })
    );
}

#[test]
fn mirror_and_mirrors_together_are_rejected() {
    let mut links = no_links();
    links.mirror = Some(MirrorType::Synced);
    links.mirrors = Some(texts(&[("a", "A")]));
    assert_eq!(
        tool("t", links).check(),
        Err(SemanticError { rule: Rule::MirrorConflict, subject: "t".to_string() })
    );
}

#[test]
fn website_conflict_is_reported_before_mirror_conflict() {
    let mut links = no_links();
    links.website = Some(ToolLinkTitle::Text("w".to_string()));
    links.websites = Some(OrderedMap::new());
    links.mirror = Some(MirrorType::Synced);
    links.mirrors = Some(OrderedMap::new());
    assert_eq!(
        tool("t", links).check(),
        Err(SemanticError { rule: Rule::WebsiteConflict, subject: "t".to_string() })
    );
}

#[test]
fn a_tool_with_one_form_of_each_link_is_in_order() {
    let mut links = no_links();
    links.website = Some(ToolLinkTitle::Text("w".to_string()));
    links.mirrors = Some(texts(&[("a", "A")]));
    assert_eq!(tool("t", links).check(), Ok(()));
    assert_eq!(tool("t", no_links()).check(), Ok(()));
}

#[test]
fn tool_markup_minimal() {
    assert_eq!(
        markup(&tool("t", no_links())),
        "<div class=\"tool\" id=\"tool-t\"><h3>Title</h3><div class=\"links\"></div></div>"
    );
}

#[test]
fn tool_markup_full() {
    let mut links = no_links();
    links.website = Some(ToolLinkTitle::Text("Site".to_string()));
    links.columns = Some(true);
    let mut t = tool("t", links);
    t.icon = Some("pic".to_string());
    t.description = Some("What it does".to_string());
    t.notice = Some("Careful".to_string());
    t.keywords = Some("k1 k2".to_string());
    assert_eq!(
        markup(&t),
        format!(
            "<div class=\"tool\" id=\"tool-t\" data-keywords=\"k1 k2\">\
<img src=\"{{{{IMAGE}}}}/icon-tool/pic.webp\"><h3>Title</h3><p>What it does</p>\
<p class=\"notice\">Careful</p><div class=\"links columns\">\
<a class=\"link\" href=\"//r.ldtstore.com.cn/r2/t\">{} Site</a></div></div>",
            link()
        )
    );
}

#[test]
fn tool_group_markup() {
    let g = ToolGroup {
        name: Some("image".to_string()),
        title: Some("Images".to_string()),
        cross_notice: None,
        list: vec![tool("a", no_links()), tool("b", no_links())],
    };
    assert_eq!(
        markup(&g),
        "<div class=\"tool-group\" id=\"group-image\"><h2>Images</h2>\
<div class=\"tool\" id=\"tool-a\"><h3>Title</h3><div class=\"links\"></div></div>\
<div class=\"tool\" id=\"tool-b\"><h3>Title</h3><div class=\"links\"></div></div></div>"
    );
    let g = ToolGroup { name: None, title: None, cross_notice: None, list: vec![] };
    assert_eq!(markup(&g), "<div class=\"tool-group\"></div>");
}

#[test]
fn tool_group_reports_its_first_bad_tool() {
    let mut bad = no_links();
    bad.mirror = Some(MirrorType::Active);
    bad.mirrors = Some(OrderedMap::new());
    let g = ToolGroup {
        name: None,
        title: None,
        cross_notice: None,
        list: vec![tool("good", no_links()), tool("bad", bad)],
    };
    assert_eq!(
        g.check(),
        Err(SemanticError { rule: Rule::MirrorConflict, subject: "bad".to_string() })
    );
}

#[test]
fn plain_markup() {
    let mut links = no_links();
    links.website = Some(ToolLinkTitle::Text("Site".to_string()));
    links.downloads = Some(texts(&[("x", "Get")]));
    let mut t = tool("t", links);
    t.description = Some("D".to_string());
    let g = ToolGroup {
        name: Some("g".to_string()),
        title: Some("Group".to_string()),
        cross_notice: None,
        list: vec![t],
    };
    assert_eq!(
        g.render_plain(),
        format!(
            "<h2>Group</h2><h3 id=\"t\">Title</h3><p>D</p><ul>\
<li><a class=\"link\" href=\"//r.ldtstore.com.cn/r2/t\">{} Site</a></li>\
<li><a class=\"link\" href=\"//r.ldtstore.com.cn/r2/t-d-x\">{} Get</a></li></ul>",
            link(),
            download()
        )
    );
    assert_eq!(
        render_plain_each(&vec![tool("a", no_links()), tool("b", no_links())]),
        "<h3 id=\"a\">Title</h3><ul></ul><h3 id=\"b\">Title</h3><ul></ul>"
    );
}
