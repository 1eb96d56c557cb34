use ldtstore_codegen::builder::{Config, FileType, GlobalStates};
use ldtstore_codegen::codegen::{check_sources, codegen, home_inserts, plain_inserts, Sources};
use ldtstore_codegen::config::{
    Category, CategoryGroup, CategoryTab, Side, Tile, TileAction, TileFont, TileGrids,
    TileTemplate, TileTemplateInner, TileTemplateTiles, Tool, ToolGroup, ToolLinkTitle,
    ToolLinkTitleType, ToolLinks,
};
use ldtstore_codegen::ordered::OrderedMap;
use ldtstore_codegen::render::{Rule, SemanticError};
use ldtstore_codegen::resolve::parse_sources;
use ldtstore_codegen::schema::Value;

fn heading(name: &str, title: Option<&str>) -> Tile {
    Tile {
        tile: None,
        font: Some(TileFont::H3),
        action: TileAction::Tool,
        icon_type: None,
        name: name.to_string(),
        title: title.map(|s| s.to_string()),
        icon: None,
    }
}

fn tool(name: &str, website: Option<ToolLinkTitle>, websites: bool, category: &[&str]) -> Tool {
    Tool {
        name: name.to_string(),
        title: name.to_uppercase(),
        icon: None,
        description: None,
        notice: None,
        category: Some(category.iter().map(|s| s.to_string()).collect()),
        cross: None,
        keywords: None,
        cross_notice: None,
        links: ToolLinks {
            website,
            websites: if websites { Some(OrderedMap::new()) } else { None },
            downloads: None,
            mirror: None,
            mirrors: None,
            columns: None,
        },
    }
}

fn sources() -> Sources {
    Sources {
        home_major: TileGrids { left: vec![heading("a", Some("A"))], middle: vec![] },
        home_sides: vec![Side {
            name: "s".to_string(),
            title: "S".to_string(),
            text: None,
            text_small: None,
            tiles: None,
            templated: Some(TileTemplate {
                template: TileTemplateInner {
                    tile: "X".to_string(),
                    font: None,
                    action: TileAction::Copy,
                    icon_type: None,
                },
                tiles: TileTemplateTiles::WithoutTitle(vec!["a".to_string(), "b".to_string()]),
            }),
        }],
        tool_major: vec![vec![heading("t", Some("T"))]],
        tool_sides: vec![],
        category: Category {
            tool: CategoryTab {
                title: "Tools".to_string(),
                content: vec![CategoryGroup { title: "G".to_string(), content: vec![heading("disk", Some("Disks"))] }],
            },
            link: CategoryTab { title: "Links".to_string(), content: vec![] },
        },
        tools: vec![ToolGroup {
            name: Some("g".to_string()),
            title: Some("Group".to_string()),
            cross_notice: None,
            list: vec![tool("t", Some(ToolLinkTitle::Text("Site".to_string())), false, &["disk"])],
        }],
    }
}

fn keys(m: &OrderedMap<String>) -> Vec<String> {
    (0..m.len()).map(|i| m.key_at(i).clone()).collect()
}

#[test]
fn codegen_gives_the_three_mappings() {
    let r = codegen(&sources()).unwrap();
    assert_eq!(
        keys(&r.home),
        vec!["<!--{{codegen-major}}-->", "<!--{{codegen-sides}}-->", "<!--{{codegen-data}}-->"]
    );
    assert_eq!(
        keys(&r.tools),
        vec![
            "<!--{{codegen-major}}-->",
            "<!--{{codegen-sides}}-->",
            "<!--{{codegen-tools}}-->",
            "<!--{{codegen-data}}-->"
        ]
    );
    assert_eq!(keys(&r.tools_plain), vec!["<!--{{codegen-plain}}-->"]);
}

#[test]
fn codegen_home_page() {
    let r = codegen(&sources()).unwrap();
    assert_eq!(
        r.home.value_at(0),
        "<div class=\"left\"><a class=\"tile\" data-tool=\"a\"><h3>A</h3></a></div><div class=\"middle\"></div>"
    );
    assert_eq!(
        r.home.value_at(1),
        "<div class=\"side\" id=\"side-s\"><h2>S</h2>\
<a class=\"tile X\" data-copy=\"a\"><img src=\"{{IMAGE}}/icon/a.webp\"></a>\
<a class=\"tile X\" data-copy=\"b\"><img src=\"{{IMAGE}}/icon/b.webp\"></a></div>"
    );
    assert_eq!(r.home.value_at(2), "<script>window.__DATA__={\"page_type\":\"home\"}</script>");
    let alone = home_inserts(&sources());
    assert_eq!(alone.value_at(0), r.home.value_at(0));
    assert_eq!(alone.value_at(1), r.home.value_at(1));
    assert_eq!(alone.value_at(2), r.home.value_at(2));
}

#[test]
fn codegen_tool_page() {
    let r = codegen(&sources()).unwrap();
    assert_eq!(
        r.tools.value_at(0),
        "<div class=\"column\"><a class=\"tile\" data-tool=\"t\"><h3>T</h3></a></div>"
    );
    assert_eq!(
        r.tools.value_at(1),
        "<div class=\"category\"><div class=\"tab\"><h2>Tools</h2><div class=\"group\"><h3>G</h3>\
<a class=\"tile\" data-tool=\"disk\"><h3>Disks</h3></a></div></div>\
<div class=\"tab\"><h2>Links</h2></div></div>"
    );
    assert!(r.tools.value_at(2).starts_with(
        "<div class=\"tool-group\" id=\"group-g\"><h2>Group</h2><div class=\"tool\" id=\"tool-t\"><h3>T</h3>"
    ));
    assert_eq!(
        r.tools.value_at(3),
        "<script>window.__DATA__={\"page_type\":\"tool\",\"tool\":{\
\"index\":{\"t\":{\"title\":\"T\",\"list\":[\"g\"],\"cross_list\":[]}},\
\"category\":{\"disk\":{\"title\":\"Disks\",\"list\":[\"t\"]}},\
\"all\":{\"t\":\"T\"},\"cross\":{}}}</script>"
    );
}

#[test]
fn codegen_plain_page() {
    let r = codegen(&sources()).unwrap();
    assert!(r.tools_plain.value_at(0).starts_with("<h2>Group</h2><h3 id=\"t\">T</h3><ul><li>"));
    assert_eq!(plain_inserts(&sources()).value_at(0), r.tools_plain.value_at(0));
}

#[test]
fn one_bad_tile_breaks_the_build() {
    let mut s = sources();
    s.tool_major[0].push(heading("bad", None));
    assert_eq!(
        codegen(&s).err(),
        Some(SemanticError { rule: Rule::TileTitle, subject: "bad".to_string() })
    );
    assert_eq!(
        check_sources(&s),
        Err(SemanticError { rule: Rule::TileTitle, subject: "bad".to_string() })
    );
}

#[test]
fn defects_are_reported_in_the_order_of_the_trees() {
    let mut s = sources();
    s.tools[0].list.push(tool("u", Some(ToolLinkTitle::Type(ToolLinkTitleType::Official)), true, &[]));
    s.tool_sides.push(Side {
        name: "empty".to_string(),
        title: "E".to_string(),
        text: None,
        text_small: None,
        tiles: None,
        templated: None,
    });
    assert_eq!(
        codegen(&s).err(),
        Some(SemanticError { rule: Rule::SideNoContent, subject: "empty".to_string() })
    );
    s.tool_sides.clear();
    assert_eq!(
        codegen(&s).err(),
        Some(SemanticError { rule: Rule::WebsiteConflict, subject: "u".to_string() })
    );
}

#[test]
fn a_tool_with_website_and_websites_is_rejected() {
    let mut s = sources();
    s.tools[0].list[0].links.websites = Some(OrderedMap::new());
    assert_eq!(
        codegen(&s).err(),
        Some(SemanticError { rule: Rule::WebsiteConflict, subject: "t".to_string() })
    );
}

#[test]
fn tools_together_are_checked_last() {
    let mut s = sources();
    s.tools[0].list.push(tool("t", None, false, &["none"]));
    assert_eq!(
        codegen(&s).err(),
        Some(SemanticError { rule: Rule::DuplicateTool, subject: "t".to_string() })
    );
    s.tools[0].list[1].name = "u".to_string();
    assert_eq!(
        codegen(&s).err(),
        Some(SemanticError { rule: Rule::UnknownCategory, subject: "none".to_string() })
    );
}

fn text(s: &str) -> Value {
    Value::Text(s.to_string())
}

fn record(pairs: Vec<(&str, Value)>) -> Value {
    Value::Pairs(pairs.into_iter().map(|(k, v)| (k.to_string(), v)).collect())
}

#[test]
fn from_decoded_input_to_a_written_page() {
    let grids = record(vec![("left", Value::List(vec![])), ("middle", Value::List(vec![]))]);
    let sides = Value::List(vec![record(vec![
        ("name", text("s")),
        ("title", text("S")),
        ("templated", record(vec![
            ("template", record(vec![("tile", text("X")), ("action", text("copy"))])),
            ("tiles", Value::List(vec![text("a"), text("b")])),
        ])),
    ])]);
    let tab = record(vec![("title", text("T")), ("content", Value::List(vec![]))]);
    let category = record(vec![("tool", tab), ("link", record(vec![("title", text("L")), ("content", Value::List(vec![]))]))]);
    let none = Value::List(vec![]);
    let parsed = parse_sources(&grids, &sides, &none, &none, &category, &none).unwrap();
    let result = codegen(&parsed).unwrap();
    let state =
        GlobalStates::init(Config::Test, "0123abcdef", OrderedMap::new(), result).unwrap();
    let page = state
        .emit("index", FileType::Html, true, "<body><!--{{codegen-sides}}--></body>".to_string())
        .unwrap();
    assert_eq!(page.path, "index.html");
    assert!(page.content.ends_with(
        "-->\n\n<body><div class=\"side\" id=\"side-s\"><h2>S</h2>\
<a class=\"tile X\" data-copy=\"a\"><img src=\"/image/icon/a.webp\"></a>\
<a class=\"tile X\" data-copy=\"b\"><img src=\"/image/icon/b.webp\"></a></div></body>"
    ));
}
