use ldtstore_codegen::config::{
    Category, CategoryGroup, CategoryTab, Side, Tile, TileAction, TileFont, TileGridMiddle,
    TileGrids, TileTemplate, TileTemplateInner, TileTemplateTiles,
};
use ldtstore_codegen::ordered::OrderedMap;
use ldtstore_codegen::render::{
    check_each, clone_text, render_attribute, render_each, wrap, Fragment, Rule, SemanticError,
};

fn tile(name: &str, action: TileAction) -> Tile {
    Tile {
        tile: None,
        font: None,
        action,
        icon_type: None,
        name: name.to_string(),
        title: None,
        icon: None,
    }
}

fn heading(name: &str, title: &str) -> Tile {
    Tile {
        tile: None,
        font: Some(TileFont::H3),
        action: TileAction::NoAction,
        icon_type: None,
        name: name.to_string(),
        title: Some(title.to_string()),
        icon: None,
    }
}

fn markup<T: Fragment>(part: &T) -> String {
    format!("^{}", part.render())
}

fn template(tiles: TileTemplateTiles) -> TileTemplate {
    TileTemplate {
        template: TileTemplateInner {
            tile: "X".to_string(),
            font: Some(TileFont::H4),
            action: TileAction::Copy,
            icon_type: Some("svg".to_string()),
        },
        tiles,
    }
}

fn titles(pairs: &[(&str, &str)]) -> OrderedMap<String> {
    let mut m = OrderedMap::new();
    for (k, v) in pairs {
        m.insert(k.to_string(), v.to_string());
    }
    m
}

fn side(tiles: Option<Vec<Tile>>, templated: Option<TileTemplate>) -> Side {
    Side {
        name: "about".to_string(),
        title: "About".to_string(),
        text: None,
        text_small: None,
        tiles,
        templated,
    }
}

#[test]
fn attribute_markup() {
    assert_eq!(render_attribute("href", "/x"), " href=\"/x\"");
    assert_eq!(render_attribute("a", ""), " a=\"\"");
}

#[test]
fn wrapped_markup() {
    assert_eq!(wrap("<p>", &Some("t".to_string()), "</p>"), "<p>t</p>");
    assert_eq!(wrap("<p>", &Some(String::new()), "</p>"), "<p></p>");
    assert_eq!(wrap("<p>", &None, "</p>"), "");
}

#[test]
fn clone_text_copies() {
    assert_eq!(clone_text(&Some("a".to_string())), Some("a".to_string()));
    assert_eq!(clone_text(&None), None);
}

#[test]
fn icon_tile_markup() {
    let t = Tile {
        tile: Some("item".to_string()),
        font: None,
        action: TileAction::Side,
        icon_type: None,
        name: "about".to_string(),
        title: Some("About".to_string()),
        icon: None,
    };
    assert_eq!(
        markup(&t),
        "^<a class=\"tile item\" data-side=\"about\"><img src=\"{{IMAGE}}/icon/about.webp\" alt=\"About\"></a>"
    );
}

#[test]
fn icon_tile_with_own_icon_and_type() {
    let t = Tile {
        tile: None,
        font: None,
        action: TileAction::NoAction,
        icon_type: Some("svg".to_string()),
        name: "n".to_string(),
        title: None,
        icon: Some("pics/i".to_string()),
    };
    assert_eq!(markup(&t), "^<a class=\"tile\"><img src=\"{{IMAGE}}/icon/pics/i.svg\"></a>");
}

#[test]
fn heading_tile_markup() {
    let mut t = heading("n", "Hi <b>there</b>");
    t.font = Some(TileFont::H2);
    t.action = TileAction::Href;
    t.name = "https://example.org/".to_string();
    assert_eq!(
        markup(&t),
        "^<a class=\"tile\" href=\"https://example.org/\"><h2>Hi <b>there</b></h2></a>"
    );
}

#[test]
fn tile_action_attributes() {
    assert_eq!(tile("k", TileAction::Side).render_target(), " data-side=\"k\"");
    assert_eq!(tile("k", TileAction::Tool).render_target(), " data-tool=\"k\"");
    assert_eq!(tile("k", TileAction::Category).render_target(), " data-category=\"k\"");
    assert_eq!(tile("text to copy", TileAction::Copy).render_target(), " data-copy=\"text to copy\"");
    assert_eq!(tile("//host/x", TileAction::Href).render_target(), " href=\"//host/x\"");
    assert_eq!(tile("k", TileAction::R).render_target(), " href=\"//r.ldtstore.com.cn/r/k\"");
    assert_eq!(tile("k", TileAction::R2).render_target(), " href=\"//r.ldtstore.com.cn/r2/k\"");
    assert_eq!(tile("k", TileAction::Home).render_target(), " href=\"/\"");
    assert_eq!(tile("k", TileAction::NoAction).render_target(), "");
}

#[test]
fn tile_with_font_needs_a_title() {
    let mut t = heading("n", "t");
    assert_eq!(t.check(), Ok(()));
    t.title = None;
    assert_eq!(t.check(), Err(SemanticError { rule: Rule::TileTitle, subject: "n".to_string() }));
    assert_eq!(tile("n", TileAction::Side).check(), Ok(()));
}

#[test]
fn tiles_are_rendered_in_order() {
    let tiles = vec![heading("a", "A"), heading("b", "B")];
    assert_eq!(
        render_each(&tiles),
        "<a class=\"tile\"><h3>A</h3></a><a class=\"tile\"><h3>B</h3></a>"
    );
    assert_eq!(render_each::<Tile>(&vec![]), "");
}

#[test]
fn first_defect_is_reported() {
    let mut bad1 = heading("first", "t");
    bad1.title = None;
    let mut bad2 = heading("second", "t");
    bad2.title = None;
    let tiles = vec![heading("ok", "t"), bad1, bad2];
    assert_eq!(
        check_each(&tiles),
        Err(SemanticError { rule: Rule::TileTitle, subject: "first".to_string() })
    );
    assert_eq!(check_each::<Tile>(&vec![]), Ok(()));
}

#[test]
fn template_with_titles_gives_every_tile_its_title() {
    let t = template(TileTemplateTiles::WithTitle(titles(&[("b", "Bee"), ("a", "Ay")])));
    let tiles = t.expand();
    assert_eq!(
        tiles,
        vec![
            Tile {
                tile: Some("X".to_string()),
                font: Some(TileFont::H4),
                action: TileAction::Copy,
                icon_type: Some("svg".to_string()),
                name: "b".to_string(),
                title: Some("Bee".to_string()),
                icon: None,
            },
            Tile {
                tile: Some("X".to_string()),
                font: Some(TileFont::H4),
                action: TileAction::Copy,
                icon_type: Some("svg".to_string()),
                name: "a".to_string(),
                title: Some("Ay".to_string()),
                icon: None,
            },
        ]
    );
}

#[test]
fn template_with_names_gives_tiles_without_title() {
    let t = template(TileTemplateTiles::WithoutTitle(vec!["a".to_string(), "b".to_string()]));
    let tiles = t.expand();
    assert_eq!(tiles.len(), 2);
    assert_eq!(tiles[0].name, "a");
    assert_eq!(tiles[1].name, "b");
    for tile in &tiles {
        assert_eq!(tile.title, None);
        assert_eq!(tile.tile, Some("X".to_string()));
        assert_eq!(tile.font, Some(TileFont::H4));
        assert_eq!(tile.action, TileAction::Copy);
        assert_eq!(tile.icon_type, Some("svg".to_string()));
        assert_eq!(tile.icon, None);
    }
}

#[test]
fn empty_template_gives_no_tiles() {
    assert_eq!(template(TileTemplateTiles::WithoutTitle(vec![])).expand(), vec![]);
    assert_eq!(template(TileTemplateTiles::WithTitle(OrderedMap::new())).expand(), vec![]);
}

#[test]
fn side_panel_with_templated_names() {
    let mut inner = template(TileTemplateTiles::WithoutTitle(vec![
        "a".to_string(),
        "b".to_string(),
    ]));
    inner.template.font = None;
    inner.template.icon_type = None;
    let s = side(None, Some(inner));
    assert_eq!(s.check(), Ok(()));
    assert_eq!(
        markup(&s),
        "^<div class=\"side\" id=\"side-about\"><h2>About</h2>\
<a class=\"tile X\" data-copy=\"a\"><img src=\"{{IMAGE}}/icon/a.webp\"></a>\
<a class=\"tile X\" data-copy=\"b\"><img src=\"{{IMAGE}}/icon/b.webp\"></a></div>"
    );
}

#[test]
fn side_panel_with_text_and_tiles() {
    let mut s = side(Some(vec![heading("a", "A")]), None);
    s.text = Some("Read me".to_string());
    assert_eq!(
        markup(&s),
        "^<div class=\"side\" id=\"side-about\"><h2>About</h2><p class=\"text\">Read me</p>\
<a class=\"tile\"><h3>A</h3></a></div>"
    );
    s.text_small = Some(true);
    assert_eq!(
        markup(&s),
        "^<div class=\"side\" id=\"side-about\"><h2>About</h2><p class=\"text small\">Read me</p>\
<a class=\"tile\"><h3>A</h3></a></div>"
    );
    s.text_small = Some(false);
    assert!(markup(&s).contains("<p class=\"text\">Read me</p>"));
}

#[test]
fn side_panel_needs_exactly_one_content() {
    let both = side(
        Some(vec![]),
        Some(template(TileTemplateTiles::WithoutTitle(vec!["a".to_string()]))),
    );
    assert_eq!(
        both.check(),
        Err(SemanticError { rule: Rule::SideBothContents, subject: "about".to_string() })
    );
    let neither = side(None, None);
    assert_eq!(
        neither.check(),
        Err(SemanticError { rule: Rule::SideNoContent, subject: "about".to_string() })
    );
    assert_eq!(side(Some(vec![]), None).check(), Ok(()));
}

#[test]
fn side_panel_reports_a_templated_tile_without_title() {
    // the template has a heading font, and a plain list gives no titles
    let s = side(
        None,
        Some(template(TileTemplateTiles::WithoutTitle(vec!["a".to_string(), "b".to_string()]))),
    );
    assert_eq!(
        s.check(),
        Err(SemanticError { rule: Rule::TileTitle, subject: "a".to_string() })
    );
    let s = side(None, Some(template(TileTemplateTiles::WithTitle(titles(&[("a", "A")])))));
    assert_eq!(s.check(), Ok(()));
}

#[test]
fn grids_markup_keeps_group_order_and_titles() {
    let g = TileGrids {
        left: vec![heading("l", "L")],
        middle: vec![
            TileGridMiddle { title: "Second & <first>".to_string(), content: vec![heading("a", "A")] },
            TileGridMiddle { title: "Alpha".to_string(), content: vec![] },
        ],
    };
    assert_eq!(
        markup(&g),
        "^<div class=\"left\"><a class=\"tile\"><h3>L</h3></a></div><div class=\"middle\">\
<div class=\"group\"><h3>Second & <first></h3><a class=\"tile\"><h3>A</h3></a></div>\
<div class=\"group\"><h3>Alpha</h3></div></div>"
    );
    assert_eq!(g.check(), Ok(()));
}

#[test]
fn grids_report_left_before_middle() {
    let mut l = heading("left", "x");
    l.title = None;
    let mut m = heading("middle", "x");
    m.title = None;
    let g = TileGrids {
        left: vec![l],
        middle: vec![TileGridMiddle { title: "g".to_string(), content: vec![m] }],
    };
    assert_eq!(
        g.check(),
        Err(SemanticError { rule: Rule::TileTitle, subject: "left".to_string() })
    );
}

#[test]
fn column_markup() {
    let column = vec![heading("a", "A")];
    assert_eq!(markup(&column), "^<div class=\"column\"><a class=\"tile\"><h3>A</h3></a></div>");
    let columns = vec![vec![heading("a", "A")], vec![]];
    assert_eq!(
        render_each(&columns),
        "<div class=\"column\"><a class=\"tile\"><h3>A</h3></a></div><div class=\"column\"></div>"
    );
}

#[test]
fn category_markup() {
    let c = Category {
        tool: CategoryTab {
            title: "Tools".to_string(),
            content: vec![CategoryGroup { title: "G".to_string(), content: vec![heading("c", "C")] }],
        },
        link: CategoryTab { title: "Links".to_string(), content: vec![] },
    };
    assert_eq!(
        markup(&c),
        "^<div class=\"category\"><div class=\"tab\"><h2>Tools</h2><div class=\"group\"><h3>G</h3>\
<a class=\"tile\"><h3>C</h3></a></div></div><div class=\"tab\"><h2>Links</h2></div></div>"
    );
    assert_eq!(c.check(), Ok(()));
}

#[test]
fn tile_with_a_target_needs_a_name() {
    for action in [
        TileAction::Side,
        TileAction::Tool,
        TileAction::Category,
        TileAction::Copy,
        TileAction::Href,
        TileAction::R,
        TileAction::R2,
    ] {
        assert_eq!(
            tile("", action).check(),
            Err(SemanticError { rule: Rule::TileTarget, subject: String::new() })
        );
        assert_eq!(tile("x", action).check(), Ok(()));
    }
    assert_eq!(tile("", TileAction::Home).check(), Ok(()));
    assert_eq!(tile("", TileAction::NoAction).check(), Ok(()));
}

#[test]
fn missing_target_is_reported_before_missing_title() {
    let mut t = heading("", "x");
    t.title = None;
    t.action = TileAction::Side;
    assert_eq!(
        t.check(),
        Err(SemanticError { rule: Rule::TileTarget, subject: String::new() })
    );
}
