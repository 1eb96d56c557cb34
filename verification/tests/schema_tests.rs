use ldtstore_codegen::config::{
    InputType, MirrorType, PageType, Side, Tile, TileAction, TileFont, TileGrids,
    TileTemplateTiles, Tool, ToolGroup, ToolLink, ToolLinkIcon, ToolLinkTitle, ToolLinkTitleType,
    ToolLinkType,
};
use ldtstore_codegen::ordered::OrderedMap;
use ldtstore_codegen::resolve::{parse_sources, resolve_link_title, resolve_template_tiles};
use ldtstore_codegen::schema::{get_field, Parse, SchemaError, Shape, Value};

fn text(s: &str) -> Value {
    Value::Text(s.to_string())
}

fn record(pairs: Vec<(&str, Value)>) -> Value {
    Value::Pairs(pairs.into_iter().map(|(k, v)| (k.to_string(), v)).collect())
}

fn list(items: Vec<Value>) -> Value {
    Value::List(items)
}

fn fault(field: &'static str, expected: Shape) -> SchemaError {
    SchemaError { field, expected }
}

fn keys<T>(m: &OrderedMap<T>) -> Vec<String> {
    (0..m.len()).map(|i| m.key_at(i).clone()).collect()
}

fn tile_value(name: &str) -> Value {
    record(vec![("action", text("side")), ("name", text(name))])
}

#[test]
fn classification_is_tried_before_free_text() {
    assert_eq!(
        resolve_link_title(&Value::Number(1)),
        Some(ToolLinkTitle::Type(ToolLinkTitleType::Official))
    );
    assert_eq!(
        resolve_link_title(&Value::Number(5)),
        Some(ToolLinkTitle::Type(ToolLinkTitleType::OfficialLimited))
    );
    assert_eq!(resolve_link_title(&text("1")), Some(ToolLinkTitle::Text("1".to_string())));
    assert_eq!(
        resolve_link_title(&text("Project page")),
        Some(ToolLinkTitle::Text("Project page".to_string()))
    );
}

#[test]
fn a_resolved_classification_shows_its_fixed_label() {
    let official = resolve_link_title(&Value::Number(1)).unwrap();
    assert_eq!(
        official.text(),
        ldtstore_codegen::config::tool_website_type(ToolLinkTitleType::Official)
    );
    let free = resolve_link_title(&text("as <b>it</b> is")).unwrap();
    assert_eq!(free.text(), "as <b>it</b> is");
}

#[test]
fn other_values_are_no_link_title() {
    assert_eq!(resolve_link_title(&Value::Number(0)), None);
    assert_eq!(resolve_link_title(&Value::Number(6)), None);
    assert_eq!(resolve_link_title(&Value::Bool(true)), None);
    assert_eq!(resolve_link_title(&Value::Null), None);
    assert_eq!(resolve_link_title(&list(vec![])), None);
    assert_eq!(
        ToolLinkTitle::parse(&Value::Number(9), "website"),
        Err(fault("website", Shape::LinkTitle))
    );
}

#[test]
fn template_tiles_as_mapping() {
    let v = record(vec![("b", text("Bee")), ("a", text("Ay"))]);
    match resolve_template_tiles(&v) {
        Some(TileTemplateTiles::WithTitle(m)) => {
            assert_eq!(keys(&m), vec!["b".to_string(), "a".to_string()]);
            assert_eq!(m.get("b"), Some(&"Bee".to_string()));
            assert_eq!(m.get("a"), Some(&"Ay".to_string()));
        },
        other => panic!("{:?}", other),
    }
}

#[test]
fn template_tiles_as_list() {
    let v = list(vec![text("a"), text("b")]);
    match resolve_template_tiles(&v) {
        Some(TileTemplateTiles::WithoutTitle(names)) => {
            assert_eq!(names, vec!["a".to_string(), "b".to_string()])
        },
        other => panic!("{:?}", other),
    }
}

#[test]
fn template_tiles_that_fit_both_shapes_are_a_mapping() {
    match resolve_template_tiles(&Value::Null) {
        Some(TileTemplateTiles::WithTitle(m)) => assert_eq!(m.len(), 0),
        other => panic!("{:?}", other),
    }
    match resolve_template_tiles(&record(vec![])) {
        Some(TileTemplateTiles::WithTitle(m)) => assert_eq!(m.len(), 0),
        other => panic!("{:?}", other),
    }
    match resolve_template_tiles(&list(vec![])) {
        Some(TileTemplateTiles::WithoutTitle(names)) => assert!(names.is_empty()),
        other => panic!("{:?}", other),
    }
}

#[test]
fn template_tiles_of_no_shape() {
    // a list of one-entry mappings is neither a mapping nor a list of names
    let v = list(vec![record(vec![("a", text("Ay"))])]);
    assert!(resolve_template_tiles(&v).is_none());
    assert!(resolve_template_tiles(&list(vec![text("a"), Value::Number(1)])).is_none());
    assert!(resolve_template_tiles(&record(vec![("a", Value::Number(1))])).is_none());
    assert!(resolve_template_tiles(&record(vec![("a", text("x")), ("a", text("y"))])).is_none());
    assert!(resolve_template_tiles(&text("a")).is_none());
    assert_eq!(
        TileTemplateTiles::parse(&text("a"), "tiles").err(),
        Some(fault("tiles", Shape::TemplateTiles))
    );
}

#[test]
fn enumerations_by_name() {
    assert_eq!(TileFont::parse(&text("h1"), "font"), Ok(TileFont::H1));
    assert_eq!(TileFont::parse(&text("h5"), "font"), Ok(TileFont::H5));
    assert_eq!(TileFont::parse(&text("h6"), "font"), Err(fault("font", Shape::Font)));
    assert_eq!(TileFont::parse(&Value::Number(1), "font"), Err(fault("font", Shape::Font)));
    let actions = [
        ("side", TileAction::Side),
        ("tool", TileAction::Tool),
        ("category", TileAction::Category),
        ("copy", TileAction::Copy),
        ("href", TileAction::Href),
        ("r", TileAction::R),
        ("r2", TileAction::R2),
        ("home", TileAction::Home),
        ("none", TileAction::NoAction),
    ];
    for (name, action) in actions {
        assert_eq!(TileAction::parse(&text(name), "action"), Ok(action));
    }
    assert_eq!(TileAction::parse(&text("Side"), "action"), Err(fault("action", Shape::Action)));
    assert_eq!(MirrorType::parse(&text("active"), "mirror"), Ok(MirrorType::Active));
    assert_eq!(MirrorType::parse(&text("locked"), "mirror"), Ok(MirrorType::Locked));
    assert_eq!(MirrorType::parse(&text("synced"), "mirror"), Ok(MirrorType::Synced));
    assert_eq!(MirrorType::parse(&text("off"), "mirror"), Err(fault("mirror", Shape::Mirror)));
}

#[test]
fn plain_values() {
    assert_eq!(String::parse(&text("a"), "f"), Ok("a".to_string()));
    assert_eq!(String::parse(&Value::Number(1), "f"), Err(fault("f", Shape::Text)));
    assert_eq!(bool::parse(&Value::Bool(true), "f"), Ok(true));
    assert_eq!(bool::parse(&text("true"), "f"), Err(fault("f", Shape::Flag)));
    assert_eq!(
        Vec::<String>::parse(&list(vec![text("a"), text("b")]), "f"),
        Ok(vec!["a".to_string(), "b".to_string()])
    );
    assert_eq!(
        Vec::<String>::parse(&list(vec![text("a"), Value::Null, Value::Number(2)]), "f"),
        Err(fault("f", Shape::Text))
    );
    assert_eq!(Vec::<String>::parse(&text("a"), "f"), Err(fault("f", Shape::List)));
    assert_eq!(
        OrderedMap::<String>::parse(&list(vec![]), "f").err(),
        Some(fault("f", Shape::Mapping))
    );
    assert_eq!(
        OrderedMap::<String>::parse(&record(vec![("a", text("1")), ("a", text("2"))]), "f").err(),
        Some(fault("f", Shape::Mapping))
    );
    assert_eq!(
        OrderedMap::<String>::parse(&record(vec![("a", Value::Bool(true))]), "f").err(),
        Some(fault("f", Shape::Text))
    );
}

#[test]
fn field_lookup_takes_the_first_pair() {
    let pairs = vec![
        ("a".to_string(), Value::Number(1)),
        ("b".to_string(), Value::Number(2)),
        ("a".to_string(), Value::Number(3)),
    ];
    assert!(matches!(get_field(&pairs, "a"), Some(Value::Number(1))));
    assert!(matches!(get_field(&pairs, "b"), Some(Value::Number(2))));
    assert!(get_field(&pairs, "c").is_none());
}

#[test]
fn tile_with_all_fields() {
    let v = record(vec![
        ("tile", text("item")),
        ("font", text("h2")),
        ("action", text("href")),
        ("icon_type", text("svg")),
        ("name", text("n")),
        ("title", text("T")),
        ("icon", text("i")),
        ("unknown", Value::Number(7)),
    ]);
    assert_eq!(
        Tile::parse(&v, "tile"),
        Ok(Tile {
            tile: Some("item".to_string()),
            font: Some(TileFont::H2),
            action: TileAction::Href,
            icon_type: Some("svg".to_string()),
            name: "n".to_string(),
            title: Some("T".to_string()),
            icon: Some("i".to_string()),
        })
    );
}

#[test]
fn tile_with_required_fields_only() {
    assert_eq!(
        Tile::parse(&record(vec![("name", text("n")), ("action", text("none")), ("title", Value::Null)]), "tile"),
        Ok(Tile {
            tile: None,
            font: None,
            action: TileAction::NoAction,
            icon_type: None,
            name: "n".to_string(),
            title: None,
            icon: None,
        })
    );
}

#[test]
fn tile_errors_name_the_field_and_the_shape() {
    assert_eq!(Tile::parse(&text("x"), "left"), Err(fault("left", Shape::Record)));
    assert_eq!(
        Tile::parse(&record(vec![("name", text("n"))]), "left"),
        Err(fault("action", Shape::Action))
    );
    assert_eq!(
        Tile::parse(&record(vec![("action", text("side"))]), "left"),
        Err(fault("name", Shape::Text))
    );
    assert_eq!(
        Tile::parse(&record(vec![("action", text("side")), ("name", Value::Null)]), "left"),
        Err(fault("name", Shape::Text))
    );
    assert_eq!(
        Tile::parse(&record(vec![("action", text("side")), ("name", text("n")), ("title", Value::Number(1))]), "left"),
        Err(fault("title", Shape::Text))
    );
    // fields are looked at in their declared order
    assert_eq!(
        Tile::parse(&record(vec![("icon", Value::Number(1)), ("font", text("big")), ("tile", Value::Bool(true))]), "left"),
        Err(fault("tile", Shape::Text))
    );
    assert_eq!(
        Tile::parse(&record(vec![("icon", Value::Number(1)), ("font", text("big"))]), "left"),
        Err(fault("font", Shape::Font))
    );
}

#[test]
fn grids_from_values() {
    let v = record(vec![
        ("left", list(vec![tile_value("a")])),
        ("middle", list(vec![record(vec![("title", text("G")), ("content", list(vec![tile_value("b"), tile_value("c")]))])])),
    ]);
    let g = TileGrids::parse(&v, "home_major").unwrap();
    assert_eq!(g.left.len(), 1);
    assert_eq!(g.left[0].name, "a");
    assert_eq!(g.middle.len(), 1);
    assert_eq!(g.middle[0].title, "G");
    assert_eq!(g.middle[0].content[1].name, "c");
    assert_eq!(
        TileGrids::parse(&record(vec![("left", list(vec![]))]), "home_major").err(),
        Some(fault("middle", Shape::List))
    );
}

#[test]
fn side_with_templated_names() {
    let v = record(vec![
        ("name", text("s")),
        ("title", text("S")),
        ("templated", record(vec![
            ("template", record(vec![("tile", text("X")), ("action", text("copy"))])),
            ("tiles", list(vec![text("a"), text("b")])),
        ])),
    ]);
    let s = Side::parse(&v, "home_sides").unwrap();
    assert_eq!(s.name, "s");
    assert!(s.tiles.is_none());
    let tiles = s.templated.unwrap().expand();
    assert_eq!(tiles.len(), 2);
    assert_eq!(tiles[0].name, "a");
    assert_eq!(tiles[1].name, "b");
    assert!(tiles.iter().all(|t| t.title.is_none() && t.tile == Some("X".to_string())));
}

#[test]
fn template_tiles_must_be_written_down() {
    let v = record(vec![
        ("name", text("s")),
        ("title", text("S")),
        ("templated", record(vec![("template", record(vec![("tile", text("X")), ("action", text("copy"))]))])),
    ]);
    assert_eq!(Side::parse(&v, "home_sides").err(), Some(fault("tiles", Shape::TemplateTiles)));
}

#[test]
fn tool_with_flattened_links() {
    let v = record(vec![
        ("name", text("t")),
        ("title", text("T")),
        ("category", list(vec![text("disk")])),
        ("cross_notice", record(vec![("x", text("n"))])),
        ("website", Value::Number(4)),
        ("downloads", record(vec![("x64", text("64 bit"))])),
        ("mirror", text("synced")),
        ("columns", Value::Bool(true)),
    ]);
    let t = Tool::parse(&v, "list").unwrap();
    assert_eq!(t.name, "t");
    assert_eq!(t.category, Some(vec!["disk".to_string()]));
    assert_eq!(t.cross, None);
    assert_eq!(t.cross_notice.unwrap().get("x"), Some(&"n".to_string()));
    assert_eq!(t.links.website, Some(ToolLinkTitle::Type(ToolLinkTitleType::Unofficial)));
    assert!(t.links.websites.is_none());
    assert_eq!(t.links.downloads.unwrap().get("x64"), Some(&"64 bit".to_string()));
    assert_eq!(t.links.mirror, Some(MirrorType::Synced));
    assert!(t.links.mirrors.is_none());
    assert_eq!(t.links.columns, Some(true));
}

#[test]
fn tool_errors() {
    let v = record(vec![("name", text("t")), ("title", text("T")), ("websites", record(vec![("a", Value::Number(8))]))]);
    assert_eq!(Tool::parse(&v, "list").err(), Some(fault("websites", Shape::LinkTitle)));
    let v = record(vec![("name", text("t")), ("title", text("T")), ("mirror", text("gone"))]);
    assert_eq!(Tool::parse(&v, "list").err(), Some(fault("mirror", Shape::Mirror)));
    let v = record(vec![("name", text("t"))]);
    assert_eq!(Tool::parse(&v, "list").err(), Some(fault("title", Shape::Text)));
}

#[test]
fn tool_group_from_values() {
    let v = record(vec![
        ("name", text("g")),
        ("cross_notice", text("see")),
        ("list", list(vec![record(vec![("name", text("t")), ("title", text("T"))])])),
    ]);
    let g = ToolGroup::parse(&v, "tools").unwrap();
    assert_eq!(g.name, Some("g".to_string()));
    assert_eq!(g.title, None);
    assert_eq!(g.cross_notice, Some("see".to_string()));
    assert_eq!(g.list.len(), 1);
    assert_eq!(
        ToolGroup::parse(&record(vec![("name", text("g"))]), "tools").err(),
        Some(fault("list", Shape::List))
    );
}

fn empty_tab() -> Value {
    record(vec![("title", text("T")), ("content", list(vec![]))])
}

#[test]
fn sources_from_values() {
    let grids = record(vec![("left", list(vec![])), ("middle", list(vec![]))]);
    let category = record(vec![("tool", empty_tab()), ("link", empty_tab())]);
    let columns = list(vec![list(vec![tile_value("a")]), list(vec![])]);
    let s = parse_sources(&grids, &list(vec![]), &columns, &list(vec![]), &category, &list(vec![]))
        .unwrap();
    assert_eq!(s.tool_major.len(), 2);
    assert_eq!(s.tool_major[0][0].name, "a");
    assert!(s.tool_major[1].is_empty());
    assert!(s.home_sides.is_empty());
    assert_eq!(s.category.link.title, "T");
}

#[test]
fn sources_report_the_first_tree_at_fault() {
    let grids = record(vec![("left", list(vec![])), ("middle", list(vec![]))]);
    let category = record(vec![("tool", empty_tab()), ("link", empty_tab())]);
    let r = parse_sources(&grids, &Value::Null, &text("x"), &list(vec![]), &category, &list(vec![]));
    assert_eq!(r.err(), Some(fault("home_sides", Shape::List)));
    let r = parse_sources(&grids, &list(vec![]), &text("x"), &list(vec![]), &Value::Null, &list(vec![]));
    assert_eq!(r.err(), Some(fault("tool_major", Shape::List)));
    let r = parse_sources(&grids, &list(vec![]), &list(vec![]), &list(vec![]), &list(vec![]), &list(vec![]));
    assert_eq!(r.err(), Some(fault("category", Shape::Record)));
}

#[test]
fn page_and_input_kinds_by_name() {
    assert_eq!(PageType::parse(&text("home"), "page"), Ok(PageType::Home));
    assert_eq!(PageType::parse(&text("tool"), "page"), Ok(PageType::Tool));
    assert_eq!(PageType::parse(&text("tools"), "page"), Err(fault("page", Shape::Page)));
    assert_eq!(InputType::parse(&text("major"), "input"), Ok(InputType::Major));
    assert_eq!(InputType::parse(&text("sides"), "input"), Ok(InputType::Sides));
    assert_eq!(InputType::parse(&text("tools"), "input"), Ok(InputType::Tools));
    assert_eq!(InputType::parse(&text("category"), "input"), Ok(InputType::Category));
    assert_eq!(InputType::parse(&Value::Null, "input"), Err(fault("input", Shape::Input)));
}

#[test]
fn link_row_from_values() {
    let v = record(vec![
        ("title", Value::Number(2)),
        ("link_type", text("mirror")),
        ("link", text("/x")),
        ("icon", text("download")),
    ]);
    assert_eq!(
        ToolLink::parse(&v, "link"),
        Ok(ToolLink {
            title: ToolLinkTitle::Type(ToolLinkTitleType::Link),
            link_type: ToolLinkType::Mirror,
            link: "/x".to_string(),
            icon: ToolLinkIcon::Download,
        })
    );
    assert_eq!(ToolLinkType::parse(&text("r2"), "f"), Ok(ToolLinkType::R2));
    assert_eq!(ToolLinkType::parse(&text("r"), "f"), Err(fault("f", Shape::LinkType)));
    assert_eq!(ToolLinkIcon::parse(&text("link"), "f"), Ok(ToolLinkIcon::Link));
    assert_eq!(ToolLinkIcon::parse(&text("up"), "f"), Err(fault("f", Shape::LinkIcon)));
    assert_eq!(
        ToolLinkTitleType::parse(&Value::Number(3), "f"),
        Ok(ToolLinkTitleType::PageLink)
    );
    assert_eq!(
        ToolLinkTitleType::parse(&text("3"), "f"),
        Err(fault("f", Shape::Classification))
    );
    assert_eq!(
        ToolLink::parse(&record(vec![("title", text("t")), ("link_type", text("r2"))]), "link"),
        Err(fault("link", Shape::Text))
    );
}
