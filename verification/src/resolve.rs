//! How each type of the configuration model is resolved from decoded
//! input: the closed enumerations by their names, the two types with
//! alternative shapes by trying their shapes in a fixed order, and the
//! records field by field.

use crate::codegen::{Sources, SourcesView};
use crate::config::{
    Category, CategoryGroup, CategoryTab, CategoryTabView, CategoryView, InputType, MirrorType,
    PageType, Side, SideView, Tile, TileAction, TileFont, TileGridMiddle, TileGrids,
    TileGridsView, TileGroupView, TileTemplate, TileTemplateInner, TileTemplateInnerView,
    TileTemplateTiles, TileTemplateTilesView, TileTemplateView, TileView, Tool, ToolGroup,
    ToolGroupView, ToolLink, ToolLinkIcon, ToolLinkTitle, ToolLinkTitleType, ToolLinkTitleView,
    ToolLinkType, ToolLinkView, ToolLinks, ToolLinksView, ToolView, website_type_label,
};
use crate::ordered::OrderedMap;
use crate::schema::{
    fault_of, get_field, items_of, lookup, optional, pairs_of, parse_items, parse_optional,
    parse_pairs, parse_required, parsed, required, OrFault, Parse, SchemaError, Shape, Value,
};
use crate::text::str_eq;
use crate::tools::link_title_text;
use vstd::prelude::*;

verus! {

/// The heading font of a name.
pub open spec fn font_named(name: Seq<char>) -> Option<TileFont> {
    if name == "h1"@ {
        Some(TileFont::H1)
    } else if name == "h2"@ {
        Some(TileFont::H2)
    } else if name == "h3"@ {
        Some(TileFont::H3)
    } else if name == "h4"@ {
        Some(TileFont::H4)
    } else if name == "h5"@ {
        Some(TileFont::H5)
    } else {
        None
    }
}

/// The tile action of a name.
pub open spec fn action_named(name: Seq<char>) -> Option<TileAction> {
    if name == "side"@ {
        Some(TileAction::Side)
    } else if name == "tool"@ {
        Some(TileAction::Tool)
    } else if name == "category"@ {
        Some(TileAction::Category)
    } else if name == "copy"@ {
        Some(TileAction::Copy)
    } else if name == "href"@ {
        Some(TileAction::Href)
    } else if name == "r"@ {
        Some(TileAction::R)
    } else if name == "r2"@ {
        Some(TileAction::R2)
    } else if name == "home"@ {
        Some(TileAction::Home)
    } else if name == "none"@ {
        Some(TileAction::NoAction)
    } else {
        None
    }
}

/// The mirror state of a name.
pub open spec fn mirror_named(name: Seq<char>) -> Option<MirrorType> {
    if name == "active"@ {
        Some(MirrorType::Active)
    } else if name == "locked"@ {
        Some(MirrorType::Locked)
    } else if name == "synced"@ {
        Some(MirrorType::Synced)
    } else {
        None
    }
}

impl Parse for TileFont {
    open spec fn shape() -> Shape {
        Shape::Font
    }

    open spec fn of(v: Value, field: &'static str) -> Result<TileFont, SchemaError> {
        match v {
            Value::Text(name) => match font_named(name@) {
                Some(font) => Ok(font),
                None => Err(SchemaError { field, expected: Shape::Font }),
            },
            _ => Err(SchemaError { field, expected: Shape::Font }),
        }
    }

    fn expected() -> (s: Shape) {
        Shape::Font
    }

    fn parse(v: &Value, field: &'static str) -> (r: Result<TileFont, SchemaError>) {
        let fault = SchemaError { field, expected: Shape::Font };
        match v {
            Value::Text(name) => {
                let name = name.as_str();
                if str_eq(name, "h1") {
                    Ok(TileFont::H1)
                } else if str_eq(name, "h2") {
                    Ok(TileFont::H2)
                } else if str_eq(name, "h3") {
                    Ok(TileFont::H3)
                } else if str_eq(name, "h4") {
                    Ok(TileFont::H4)
                } else if str_eq(name, "h5") {
                    Ok(TileFont::H5)
                } else {
                    Err(fault)
                }
            },
            _ => Err(fault),
        }
    }
}

impl Parse for TileAction {
    open spec fn shape() -> Shape {
        Shape::Action
    }

    open spec fn of(v: Value, field: &'static str) -> Result<TileAction, SchemaError> {
        match v {
            Value::Text(name) => match action_named(name@) {
                Some(action) => Ok(action),
                None => Err(SchemaError { field, expected: Shape::Action }),
            },
            _ => Err(SchemaError { field, expected: Shape::Action }),
        }
    }

    fn expected() -> (s: Shape) {
        Shape::Action
    }

    fn parse(v: &Value, field: &'static str) -> (r: Result<TileAction, SchemaError>) {
        let fault = SchemaError { field, expected: Shape::Action };
        match v {
            Value::Text(name) => {
                let name = name.as_str();
                if str_eq(name, "side") {
                    Ok(TileAction::Side)
                } else if str_eq(name, "tool") {
                    Ok(TileAction::Tool)
                } else if str_eq(name, "category") {
                    Ok(TileAction::Category)
                } else if str_eq(name, "copy") {
                    Ok(TileAction::Copy)
                } else if str_eq(name, "href") {
                    Ok(TileAction::Href)
                } else if str_eq(name, "r") {
                    Ok(TileAction::R)
                } else if str_eq(name, "r2") {
                    Ok(TileAction::R2)
                } else if str_eq(name, "home") {
                    Ok(TileAction::Home)
                } else if str_eq(name, "none") {
                    Ok(TileAction::NoAction)
                } else {
                    Err(fault)
                }
            },
            _ => Err(fault),
        }
    }
}

impl Parse for MirrorType {
    open spec fn shape() -> Shape {
        Shape::Mirror
    }

    open spec fn of(v: Value, field: &'static str) -> Result<MirrorType, SchemaError> {
        match v {
            Value::Text(name) => match mirror_named(name@) {
                Some(state) => Ok(state),
                None => Err(SchemaError { field, expected: Shape::Mirror }),
            },
            _ => Err(SchemaError { field, expected: Shape::Mirror }),
        }
    }

    fn expected() -> (s: Shape) {
        Shape::Mirror
    }

    fn parse(v: &Value, field: &'static str) -> (r: Result<MirrorType, SchemaError>) {
        let fault = SchemaError { field, expected: Shape::Mirror };
        match v {
            Value::Text(name) => {
                let name = name.as_str();
                if str_eq(name, "active") {
                    Ok(MirrorType::Active)
                } else if str_eq(name, "locked") {
                    Ok(MirrorType::Locked)
                } else if str_eq(name, "synced") {
                    Ok(MirrorType::Synced)
                } else {
                    Err(fault)
                }
            },
            _ => Err(fault),
        }
    }
}

/// The kind of page of a name.
pub open spec fn page_named(name: Seq<char>) -> Option<PageType> {
    if name == "home"@ {
        Some(PageType::Home)
    } else if name == "tool"@ {
        Some(PageType::Tool)
    } else {
        None
    }
}

impl Parse for PageType {
    open spec fn shape() -> Shape {
        Shape::Page
    }

    open spec fn of(v: Value, field: &'static str) -> Result<PageType, SchemaError> {
        match v {
            Value::Text(name) => match page_named(name@) {
                Some(x) => Ok(x),
                None => Err(SchemaError { field, expected: Shape::Page }),
            },
            _ => Err(SchemaError { field, expected: Shape::Page }),
        }
    }

    fn expected() -> (s: Shape) {
        Shape::Page
    }

    fn parse(v: &Value, field: &'static str) -> (r: Result<PageType, SchemaError>) {
        let fault = SchemaError { field, expected: Shape::Page };
        match v {
            Value::Text(name) => {
                let name = name.as_str();
                if str_eq(name, "home") {
                    Ok(PageType::Home)
                } else if str_eq(name, "tool") {
                    Ok(PageType::Tool)
                } else {
                    Err(fault)
                }
            },
            _ => Err(fault),
        }
    }
}

/// The kind of configuration tree of a name.
pub open spec fn input_named(name: Seq<char>) -> Option<InputType> {
    if name == "major"@ {
        Some(InputType::Major)
    } else if name == "sides"@ {
        Some(InputType::Sides)
    } else if name == "tools"@ {
        Some(InputType::Tools)
    } else if name == "category"@ {
        Some(InputType::Category)
    } else {
        None
    }
}

impl Parse for InputType {
    open spec fn shape() -> Shape {
        Shape::Input
    }

    open spec fn of(v: Value, field: &'static str) -> Result<InputType, SchemaError> {
        match v {
            Value::Text(name) => match input_named(name@) {
                Some(x) => Ok(x),
                None => Err(SchemaError { field, expected: Shape::Input }),
            },
            _ => Err(SchemaError { field, expected: Shape::Input }),
        }
    }

    fn expected() -> (s: Shape) {
        Shape::Input
    }

    fn parse(v: &Value, field: &'static str) -> (r: Result<InputType, SchemaError>) {
        let fault = SchemaError { field, expected: Shape::Input };
        match v {
            Value::Text(name) => {
                let name = name.as_str();
                if str_eq(name, "major") {
                    Ok(InputType::Major)
                } else if str_eq(name, "sides") {
                    Ok(InputType::Sides)
                } else if str_eq(name, "tools") {
                    Ok(InputType::Tools)
                } else if str_eq(name, "category") {
                    Ok(InputType::Category)
                } else {
                    Err(fault)
                }
            },
            _ => Err(fault),
        }
    }
}

/// The kind of link of a name.
pub open spec fn link_type_named(name: Seq<char>) -> Option<ToolLinkType> {
    if name == "r2"@ {
        Some(ToolLinkType::R2)
    } else if name == "mirror"@ {
        Some(ToolLinkType::Mirror)
    } else {
        None
    }
}

impl Parse for ToolLinkType {
    open spec fn shape() -> Shape {
        Shape::LinkType
    }

    open spec fn of(v: Value, field: &'static str) -> Result<ToolLinkType, SchemaError> {
        match v {
            Value::Text(name) => match link_type_named(name@) {
                Some(x) => Ok(x),
                None => Err(SchemaError { field, expected: Shape::LinkType }),
            },
            _ => Err(SchemaError { field, expected: Shape::LinkType }),
        }
    }

    fn expected() -> (s: Shape) {
        Shape::LinkType
    }

    fn parse(v: &Value, field: &'static str) -> (r: Result<ToolLinkType, SchemaError>) {
        let fault = SchemaError { field, expected: Shape::LinkType };
        match v {
            Value::Text(name) => {
                let name = name.as_str();
                if str_eq(name, "r2") {
                    Ok(ToolLinkType::R2)
                } else if str_eq(name, "mirror") {
                    Ok(ToolLinkType::Mirror)
                } else {
                    Err(fault)
                }
            },
            _ => Err(fault),
        }
    }
}

/// The link glyph of a name.
pub open spec fn link_icon_named(name: Seq<char>) -> Option<ToolLinkIcon> {
    if name == "link"@ {
        Some(ToolLinkIcon::Link)
    } else if name == "download"@ {
        Some(ToolLinkIcon::Download)
    } else {
        None
    }
}

impl Parse for ToolLinkIcon {
    open spec fn shape() -> Shape {
        Shape::LinkIcon
    }

    open spec fn of(v: Value, field: &'static str) -> Result<ToolLinkIcon, SchemaError> {
        match v {
            Value::Text(name) => match link_icon_named(name@) {
                Some(x) => Ok(x),
                None => Err(SchemaError { field, expected: Shape::LinkIcon }),
            },
            _ => Err(SchemaError { field, expected: Shape::LinkIcon }),
        }
    }

    fn expected() -> (s: Shape) {
        Shape::LinkIcon
    }

    fn parse(v: &Value, field: &'static str) -> (r: Result<ToolLinkIcon, SchemaError>) {
        let fault = SchemaError { field, expected: Shape::LinkIcon };
        match v {
            Value::Text(name) => {
                let name = name.as_str();
                if str_eq(name, "link") {
                    Ok(ToolLinkIcon::Link)
                } else if str_eq(name, "download") {
                    Ok(ToolLinkIcon::Download)
                } else {
                    Err(fault)
                }
            },
            _ => Err(fault),
        }
    }
}

impl Parse for ToolLinkTitleType {
    open spec fn shape() -> Shape {
        Shape::Classification
    }

    open spec fn of(v: Value, field: &'static str) -> Result<ToolLinkTitleType, SchemaError> {
        match v {
            Value::Number(n) => match ToolLinkTitleType::of_number(n as int) {
                Some(t) => Ok(t),
                None => Err(SchemaError { field, expected: Shape::Classification }),
            },
            _ => Err(SchemaError { field, expected: Shape::Classification }),
        }
    }

    fn expected() -> (s: Shape) {
        Shape::Classification
    }

    fn parse(v: &Value, field: &'static str) -> (r: Result<ToolLinkTitleType, SchemaError>) {
        let fault = SchemaError { field, expected: Shape::Classification };
        match v {
            Value::Number(n) => match ToolLinkTitleType::from_number(*n) {
                Some(t) => Ok(t),
                None => Err(fault),
            },
            _ => Err(fault),
        }
    }
}

/// The link title that a value stands for. The classification is tried
/// first: a number from 1 to 5 is the classification of that number. The
/// free text is tried second: a text is taken as it stands. Any other value
/// is no link title.
pub open spec fn link_title_of(v: Value) -> Option<ToolLinkTitleView> {
    match v {
        Value::Number(n) => match ToolLinkTitleType::of_number(n as int) {
            Some(t) => Some(ToolLinkTitleView::Type(t)),
            None => None,
        },
        Value::Text(text) => Some(ToolLinkTitleView::Text(text@)),
        _ => None,
    }
}

/// Resolves a link title: first as a classification, then as free text.
pub fn resolve_link_title(v: &Value) -> (title: Option<ToolLinkTitle>)
    ensures
        title.deep_view() == link_title_of(*v),
{
    match v {
        Value::Number(n) => match ToolLinkTitleType::from_number(*n) {
            Some(t) => Some(ToolLinkTitle::Type(t)),
            None => None,
        },
        Value::Text(text) => Some(ToolLinkTitle::Text(text.clone())),
        _ => None,
    }
}

/// A value that resolves to a classification shows the fixed label of that
/// classification; a text resolves to itself and shows as it stands.
pub proof fn lemma_link_title_shown(v: Value)
    ensures
        v matches Value::Number(n) ==> (ToolLinkTitleType::of_number(n as int) matches Some(t)
            ==> {
            &&& link_title_of(v) is Some
            &&& link_title_text(link_title_of(v)->0) == website_type_label(t)
        }),
        v matches Value::Text(text) ==> {
            &&& link_title_of(v) is Some
            &&& link_title_text(link_title_of(v)->0) == text@
        },
{
}

impl Parse for ToolLinkTitle {
    open spec fn shape() -> Shape {
        Shape::LinkTitle
    }

    open spec fn of(v: Value, field: &'static str) -> Result<ToolLinkTitleView, SchemaError> {
        match link_title_of(v) {
            Some(title) => Ok(title),
            None => Err(SchemaError { field, expected: Shape::LinkTitle }),
        }
    }

    fn expected() -> (s: Shape) {
        Shape::LinkTitle
    }

    fn parse(v: &Value, field: &'static str) -> (r: Result<ToolLinkTitle, SchemaError>) {
        match resolve_link_title(v) {
            Some(title) => Ok(title),
            None => Err(SchemaError { field, expected: Shape::LinkTitle }),
        }
    }
}

/// The value as a mapping from names to titles, if it has that shape:
/// nothing at all is the empty mapping, and a mapping fits where its keys
/// differ and its values are texts.
pub open spec fn as_title_map(v: Value) -> Option<Seq<(Seq<char>, Seq<char>)>> {
    match v {
        Value::Null => Some(Seq::empty()),
        Value::Pairs(pairs) => match pairs_of::<String>(pairs@, "tiles") {
            Ok(entries) => Some(entries),
            Err(_) => None,
        },
        _ => None,
    }
}

/// The value as a list of names, if it has that shape: nothing at all is
/// the empty list, and a list fits where its items are texts.
pub open spec fn as_name_list(v: Value) -> Option<Seq<Seq<char>>> {
    match v {
        Value::Null => Some(Seq::empty()),
        Value::List(items) => match items_of::<String>(items@, "tiles") {
            Ok(names) => Some(names),
            Err(_) => None,
        },
        _ => None,
    }
}

/// The tiles of a template that a value stands for. The mapping from names
/// to titles is tried first, the plain list of names second: a value that
/// fits both is a mapping.
pub open spec fn template_tiles_of(v: Value) -> Option<TileTemplateTilesView> {
    match as_title_map(v) {
        Some(entries) => Some(TileTemplateTilesView::WithTitle(entries)),
        None => match as_name_list(v) {
            Some(names) => Some(TileTemplateTilesView::WithoutTitle(names)),
            None => None,
        },
    }
}

/// A value that has the shape of a mapping resolves to the mapping,
/// whether or not it has the shape of a list too; the list is taken only
/// where the mapping does not fit.
pub proof fn lemma_mapping_is_tried_first(v: Value)
    ensures
        as_title_map(v) matches Some(entries) ==> template_tiles_of(v) == Some(
            TileTemplateTilesView::WithTitle(entries),
        ),
        as_title_map(v) is None ==> (as_name_list(v) matches Some(names) ==> template_tiles_of(v)
            == Some(TileTemplateTilesView::WithoutTitle(names))),
        as_title_map(v) is None && as_name_list(v) is None ==> template_tiles_of(v) is None,
{
}

/// Tries the value as a mapping from names to titles.
fn try_title_map(v: &Value) -> (r: Option<OrderedMap<String>>)
    ensures
        r.deep_view() == as_title_map(*v),
{
    match v {
        Value::Null => {
            let empty: OrderedMap<String> = OrderedMap::new();
            proof {
                assert(empty.deep_view() =~= Seq::empty());
            }
            Some(empty)
        },
        Value::Pairs(pairs) => match parse_pairs::<String>(pairs, "tiles") {
            Ok(entries) => Some(entries),
            Err(_) => None,
        },
        _ => None,
    }
}

/// Tries the value as a list of names.
fn try_name_list(v: &Value) -> (r: Option<Vec<String>>)
    ensures
        r.deep_view() == as_name_list(*v),
{
    match v {
        Value::Null => {
            let empty: Vec<String> = Vec::new();
            proof {
                assert(empty.deep_view() =~= Seq::empty());
            }
            Some(empty)
        },
        Value::List(items) => match parse_items::<String>(items, "tiles") {
            Ok(names) => Some(names),
            Err(_) => None,
        },
        _ => None,
    }
}

/// Resolves the tiles of a template: first as a mapping from names to
/// titles, then as a list of names.
pub fn resolve_template_tiles(v: &Value) -> (tiles: Option<TileTemplateTiles>)
    ensures
        tiles.deep_view() == template_tiles_of(*v),
{
    match try_title_map(v) {
        Some(entries) => Some(TileTemplateTiles::WithTitle(entries)),
        None => match try_name_list(v) {
            Some(names) => Some(TileTemplateTiles::WithoutTitle(names)),
            None => None,
        },
    }
}

impl Parse for TileTemplateTiles {
    open spec fn shape() -> Shape {
        Shape::TemplateTiles
    }

    open spec fn of(v: Value, field: &'static str) -> Result<TileTemplateTilesView, SchemaError> {
        match template_tiles_of(v) {
            Some(tiles) => Ok(tiles),
            None => Err(SchemaError { field, expected: Shape::TemplateTiles }),
        }
    }

    fn expected() -> (s: Shape) {
        Shape::TemplateTiles
    }

    fn parse(v: &Value, field: &'static str) -> (r: Result<TileTemplateTiles, SchemaError>) {
        match resolve_template_tiles(v) {
            Some(tiles) => Ok(tiles),
            None => Err(SchemaError { field, expected: Shape::TemplateTiles }),
        }
    }
}

/// What the schema makes of a field that must be written down, though it
/// may hold nothing: a missing field is an error that asks for the type's
/// shape.
pub open spec fn given<T: Parse>(pairs: Seq<(String, Value)>, name: &'static str) -> Result<
    T::V,
    SchemaError,
> {
    match lookup(pairs, name@) {
        None => Err(SchemaError { field: name, expected: T::shape() }),
        Some(v) => T::of(v, name),
    }
}

/// Resolves a field that must be written down.
pub fn parse_given<T: Parse>(pairs: &Vec<(String, Value)>, name: &'static str) -> (r: Result<
    T,
    SchemaError,
>)
    ensures
        parsed(r, given::<T>(pairs@, name)),
{
    match get_field(pairs, name) {
        None => Err(SchemaError { field: name, expected: T::expected() }),
        Some(v) => T::parse(v, name),
    }
}

/// The first field of a tile that does not resolve, the fields taken in
/// their order.
pub open spec fn tile_fault(pairs: Seq<(String, Value)>) -> Option<SchemaError> {
    fault_of(optional::<String>(pairs, "tile")).or_fault(
        fault_of(optional::<TileFont>(pairs, "font")),
    ).or_fault(
        fault_of(required::<TileAction>(pairs, "action")),
    ).or_fault(
        fault_of(optional::<String>(pairs, "icon_type")),
    ).or_fault(
        fault_of(required::<String>(pairs, "name")),
    ).or_fault(
        fault_of(optional::<String>(pairs, "title")),
    ).or_fault(
        fault_of(optional::<String>(pairs, "icon")),
    )
}

/// What the schema makes of the fields of a tile.
pub open spec fn tile_of(pairs: Seq<(String, Value)>) -> Result<TileView, SchemaError> {
    match tile_fault(pairs) {
        Some(e) => Err(e),
        None => Ok(
            TileView {
                tile: optional::<String>(pairs, "tile")->Ok_0,
                font: optional::<TileFont>(pairs, "font")->Ok_0,
                action: required::<TileAction>(pairs, "action")->Ok_0,
                icon_type: optional::<String>(pairs, "icon_type")->Ok_0,
                name: required::<String>(pairs, "name")->Ok_0,
                title: optional::<String>(pairs, "title")->Ok_0,
                icon: optional::<String>(pairs, "icon")->Ok_0,
            },
        ),
    }
}

/// Resolves the fields of a tile.
pub fn parse_tile(pairs: &Vec<(String, Value)>) -> (r: Result<Tile, SchemaError>)
    ensures
        parsed(r, tile_of(pairs@)),
{
    let tile = parse_optional::<String>(pairs, "tile")?;
    let font = parse_optional::<TileFont>(pairs, "font")?;
    let action = parse_required::<TileAction>(pairs, "action")?;
    let icon_type = parse_optional::<String>(pairs, "icon_type")?;
    let name = parse_required::<String>(pairs, "name")?;
    let title = parse_optional::<String>(pairs, "title")?;
    let icon = parse_optional::<String>(pairs, "icon")?;
    Ok(Tile { tile, font, action, icon_type, name, title, icon })
}

impl Parse for Tile {
    open spec fn shape() -> Shape {
        Shape::Record
    }

    open spec fn of(v: Value, field: &'static str) -> Result<TileView, SchemaError> {
        match v {
            Value::Pairs(pairs) => tile_of(pairs@),
            _ => Err(SchemaError { field, expected: Shape::Record }),
        }
    }

    fn expected() -> (s: Shape) {
        Shape::Record
    }

    fn parse(v: &Value, field: &'static str) -> (r: Result<Tile, SchemaError>) {
        match v {
            Value::Pairs(pairs) => parse_tile(pairs),
            _ => Err(SchemaError { field, expected: Shape::Record }),
        }
    }
}

/// The first field of a titled group of tiles that does not resolve, the
/// fields taken in their order.
pub open spec fn tile_grid_middle_fault(pairs: Seq<(String, Value)>) -> Option<SchemaError> {
    fault_of(required::<String>(pairs, "title")).or_fault(
        fault_of(required::<Vec<Tile>>(pairs, "content")),
    )
}

/// What the schema makes of the fields of a titled group of tiles.
pub open spec fn tile_grid_middle_of(pairs: Seq<(String, Value)>) -> Result<
    TileGroupView,
    SchemaError,
> {
    match tile_grid_middle_fault(pairs) {
        Some(e) => Err(e),
        None => Ok(
            TileGroupView {
                title: required::<String>(pairs, "title")->Ok_0,
                content: required::<Vec<Tile>>(pairs, "content")->Ok_0,
            },
        ),
    }
}

/// Resolves the fields of a titled group of tiles.
pub fn parse_tile_grid_middle(pairs: &Vec<(String, Value)>) -> (r: Result<
    TileGridMiddle,
    SchemaError,
>)
    ensures
        parsed(r, tile_grid_middle_of(pairs@)),
{
    let title = parse_required::<String>(pairs, "title")?;
    let content = parse_required::<Vec<Tile>>(pairs, "content")?;
    Ok(TileGridMiddle { title, content })
}

impl Parse for TileGridMiddle {
    open spec fn shape() -> Shape {
        Shape::Record
    }

    open spec fn of(v: Value, field: &'static str) -> Result<TileGroupView, SchemaError> {
        match v {
            Value::Pairs(pairs) => tile_grid_middle_of(pairs@),
            _ => Err(SchemaError { field, expected: Shape::Record }),
        }
    }

    fn expected() -> (s: Shape) {
        Shape::Record
    }

    fn parse(v: &Value, field: &'static str) -> (r: Result<TileGridMiddle, SchemaError>) {
        match v {
            Value::Pairs(pairs) => parse_tile_grid_middle(pairs),
            _ => Err(SchemaError { field, expected: Shape::Record }),
        }
    }
}

/// The first field of the two regions of tiles that does not resolve, the
/// fields taken in their order.
pub open spec fn tile_grids_fault(pairs: Seq<(String, Value)>) -> Option<SchemaError> {
    fault_of(required::<Vec<Tile>>(pairs, "left")).or_fault(
        fault_of(required::<Vec<TileGridMiddle>>(pairs, "middle")),
    )
}

/// What the schema makes of the fields of the two regions of tiles.
pub open spec fn tile_grids_of(pairs: Seq<(String, Value)>) -> Result<TileGridsView, SchemaError> {
    match tile_grids_fault(pairs) {
        Some(e) => Err(e),
        None => Ok(
            TileGridsView {
                left: required::<Vec<Tile>>(pairs, "left")->Ok_0,
                middle: required::<Vec<TileGridMiddle>>(pairs, "middle")->Ok_0,
            },
        ),
    }
}

/// Resolves the fields of the two regions of tiles.
pub fn parse_tile_grids(pairs: &Vec<(String, Value)>) -> (r: Result<TileGrids, SchemaError>)
    ensures
        parsed(r, tile_grids_of(pairs@)),
{
    let left = parse_required::<Vec<Tile>>(pairs, "left")?;
    let middle = parse_required::<Vec<TileGridMiddle>>(pairs, "middle")?;
    Ok(TileGrids { left, middle })
}

impl Parse for TileGrids {
    open spec fn shape() -> Shape {
        Shape::Record
    }

    open spec fn of(v: Value, field: &'static str) -> Result<TileGridsView, SchemaError> {
        match v {
            Value::Pairs(pairs) => tile_grids_of(pairs@),
            _ => Err(SchemaError { field, expected: Shape::Record }),
        }
    }

    fn expected() -> (s: Shape) {
        Shape::Record
    }

    fn parse(v: &Value, field: &'static str) -> (r: Result<TileGrids, SchemaError>) {
        match v {
            Value::Pairs(pairs) => parse_tile_grids(pairs),
            _ => Err(SchemaError { field, expected: Shape::Record }),
        }
    }
}

/// The first field of a group of a category tab that does not resolve, the
/// fields taken in their order.
pub open spec fn category_group_fault(pairs: Seq<(String, Value)>) -> Option<SchemaError> {
    fault_of(required::<String>(pairs, "title")).or_fault(
        fault_of(required::<Vec<Tile>>(pairs, "content")),
    )
}

/// What the schema makes of the fields of a group of a category tab.
pub open spec fn category_group_of(pairs: Seq<(String, Value)>) -> Result<
    TileGroupView,
    SchemaError,
> {
    match category_group_fault(pairs) {
        Some(e) => Err(e),
        None => Ok(
            TileGroupView {
                title: required::<String>(pairs, "title")->Ok_0,
                content: required::<Vec<Tile>>(pairs, "content")->Ok_0,
            },
        ),
    }
}

/// Resolves the fields of a group of a category tab.
pub fn parse_category_group(pairs: &Vec<(String, Value)>) -> (r: Result<CategoryGroup, SchemaError>)
    ensures
        parsed(r, category_group_of(pairs@)),
{
    let title = parse_required::<String>(pairs, "title")?;
    let content = parse_required::<Vec<Tile>>(pairs, "content")?;
    Ok(CategoryGroup { title, content })
}

impl Parse for CategoryGroup {
    open spec fn shape() -> Shape {
        Shape::Record
    }

    open spec fn of(v: Value, field: &'static str) -> Result<TileGroupView, SchemaError> {
        match v {
            Value::Pairs(pairs) => category_group_of(pairs@),
            _ => Err(SchemaError { field, expected: Shape::Record }),
        }
    }

    fn expected() -> (s: Shape) {
        Shape::Record
    }

    fn parse(v: &Value, field: &'static str) -> (r: Result<CategoryGroup, SchemaError>) {
        match v {
            Value::Pairs(pairs) => parse_category_group(pairs),
            _ => Err(SchemaError { field, expected: Shape::Record }),
        }
    }
}

/// The first field of a category tab that does not resolve, the fields taken in
/// their order.
pub open spec fn category_tab_fault(pairs: Seq<(String, Value)>) -> Option<SchemaError> {
    fault_of(required::<String>(pairs, "title")).or_fault(
        fault_of(required::<Vec<CategoryGroup>>(pairs, "content")),
    )
}

/// What the schema makes of the fields of a category tab.
pub open spec fn category_tab_of(pairs: Seq<(String, Value)>) -> Result<
    CategoryTabView,
    SchemaError,
> {
    match category_tab_fault(pairs) {
        Some(e) => Err(e),
        None => Ok(
            CategoryTabView {
                title: required::<String>(pairs, "title")->Ok_0,
                content: required::<Vec<CategoryGroup>>(pairs, "content")->Ok_0,
            },
        ),
    }
}

/// Resolves the fields of a category tab.
pub fn parse_category_tab(pairs: &Vec<(String, Value)>) -> (r: Result<CategoryTab, SchemaError>)
    ensures
        parsed(r, category_tab_of(pairs@)),
{
    let title = parse_required::<String>(pairs, "title")?;
    let content = parse_required::<Vec<CategoryGroup>>(pairs, "content")?;
    Ok(CategoryTab { title, content })
}

impl Parse for CategoryTab {
    open spec fn shape() -> Shape {
        Shape::Record
    }

    open spec fn of(v: Value, field: &'static str) -> Result<CategoryTabView, SchemaError> {
        match v {
            Value::Pairs(pairs) => category_tab_of(pairs@),
            _ => Err(SchemaError { field, expected: Shape::Record }),
        }
    }

    fn expected() -> (s: Shape) {
        Shape::Record
    }

    fn parse(v: &Value, field: &'static str) -> (r: Result<CategoryTab, SchemaError>) {
        match v {
            Value::Pairs(pairs) => parse_category_tab(pairs),
            _ => Err(SchemaError { field, expected: Shape::Record }),
        }
    }
}

/// The first field of the category browser that does not resolve, the fields
/// taken in their order.
pub open spec fn category_fault(pairs: Seq<(String, Value)>) -> Option<SchemaError> {
    fault_of(required::<CategoryTab>(pairs, "tool")).or_fault(
        fault_of(required::<CategoryTab>(pairs, "link")),
    )
}

/// What the schema makes of the fields of the category browser.
pub open spec fn category_of(pairs: Seq<(String, Value)>) -> Result<CategoryView, SchemaError> {
    match category_fault(pairs) {
        Some(e) => Err(e),
        None => Ok(
            CategoryView {
                tool: required::<CategoryTab>(pairs, "tool")->Ok_0,
                link: required::<CategoryTab>(pairs, "link")->Ok_0,
            },
        ),
    }
}

/// Resolves the fields of the category browser.
pub fn parse_category(pairs: &Vec<(String, Value)>) -> (r: Result<Category, SchemaError>)
    ensures
        parsed(r, category_of(pairs@)),
{
    let tool = parse_required::<CategoryTab>(pairs, "tool")?;
    let link = parse_required::<CategoryTab>(pairs, "link")?;
    Ok(Category { tool, link })
}

impl Parse for Category {
    open spec fn shape() -> Shape {
        Shape::Record
    }

    open spec fn of(v: Value, field: &'static str) -> Result<CategoryView, SchemaError> {
        match v {
            Value::Pairs(pairs) => category_of(pairs@),
            _ => Err(SchemaError { field, expected: Shape::Record }),
        }
    }

    fn expected() -> (s: Shape) {
        Shape::Record
    }

    fn parse(v: &Value, field: &'static str) -> (r: Result<Category, SchemaError>) {
        match v {
            Value::Pairs(pairs) => parse_category(pairs),
            _ => Err(SchemaError { field, expected: Shape::Record }),
        }
    }
}

/// The first field of the shared part of a template that does not resolve,
/// the fields taken in their order.
pub open spec fn tile_template_inner_fault(pairs: Seq<(String, Value)>) -> Option<SchemaError> {
    fault_of(required::<String>(pairs, "tile")).or_fault(
        fault_of(optional::<TileFont>(pairs, "font")),
    ).or_fault(
        fault_of(required::<TileAction>(pairs, "action")),
    ).or_fault(
        fault_of(optional::<String>(pairs, "icon_type")),
    )
}

/// What the schema makes of the fields of the shared part of a template.
pub open spec fn tile_template_inner_of(pairs: Seq<(String, Value)>) -> Result<
    TileTemplateInnerView,
    SchemaError,
> {
    match tile_template_inner_fault(pairs) {
        Some(e) => Err(e),
        None => Ok(
            TileTemplateInnerView {
                tile: required::<String>(pairs, "tile")->Ok_0,
                font: optional::<TileFont>(pairs, "font")->Ok_0,
                action: required::<TileAction>(pairs, "action")->Ok_0,
                icon_type: optional::<String>(pairs, "icon_type")->Ok_0,
            },
        ),
    }
}

/// Resolves the fields of the shared part of a template.
pub fn parse_tile_template_inner(pairs: &Vec<(String, Value)>) -> (r: Result<
    TileTemplateInner,
    SchemaError,
>)
    ensures
        parsed(r, tile_template_inner_of(pairs@)),
{
    let tile = parse_required::<String>(pairs, "tile")?;
    let font = parse_optional::<TileFont>(pairs, "font")?;
    let action = parse_required::<TileAction>(pairs, "action")?;
    let icon_type = parse_optional::<String>(pairs, "icon_type")?;
    Ok(TileTemplateInner { tile, font, action, icon_type })
}

impl Parse for TileTemplateInner {
    open spec fn shape() -> Shape {
        Shape::Record
    }

    open spec fn of(v: Value, field: &'static str) -> Result<TileTemplateInnerView, SchemaError> {
        match v {
            Value::Pairs(pairs) => tile_template_inner_of(pairs@),
            _ => Err(SchemaError { field, expected: Shape::Record }),
        }
    }

    fn expected() -> (s: Shape) {
        Shape::Record
    }

    fn parse(v: &Value, field: &'static str) -> (r: Result<TileTemplateInner, SchemaError>) {
        match v {
            Value::Pairs(pairs) => parse_tile_template_inner(pairs),
            _ => Err(SchemaError { field, expected: Shape::Record }),
        }
    }
}

/// The first field of a template that does not resolve, the fields taken in
/// their order.
pub open spec fn tile_template_fault(pairs: Seq<(String, Value)>) -> Option<SchemaError> {
    fault_of(required::<TileTemplateInner>(pairs, "template")).or_fault(
        fault_of(given::<TileTemplateTiles>(pairs, "tiles")),
    )
}

/// What the schema makes of the fields of a template.
pub open spec fn tile_template_of(pairs: Seq<(String, Value)>) -> Result<
    TileTemplateView,
    SchemaError,
> {
    match tile_template_fault(pairs) {
        Some(e) => Err(e),
        None => Ok(
            TileTemplateView {
                template: required::<TileTemplateInner>(pairs, "template")->Ok_0,
                tiles: given::<TileTemplateTiles>(pairs, "tiles")->Ok_0,
            },
        ),
    }
}

/// Resolves the fields of a template.
pub fn parse_tile_template(pairs: &Vec<(String, Value)>) -> (r: Result<TileTemplate, SchemaError>)
    ensures
        parsed(r, tile_template_of(pairs@)),
{
    let template = parse_required::<TileTemplateInner>(pairs, "template")?;
    let tiles = parse_given::<TileTemplateTiles>(pairs, "tiles")?;
    Ok(TileTemplate { template, tiles })
}

impl Parse for TileTemplate {
    open spec fn shape() -> Shape {
        Shape::Record
    }

    open spec fn of(v: Value, field: &'static str) -> Result<TileTemplateView, SchemaError> {
        match v {
            Value::Pairs(pairs) => tile_template_of(pairs@),
            _ => Err(SchemaError { field, expected: Shape::Record }),
        }
    }

    fn expected() -> (s: Shape) {
        Shape::Record
    }

    fn parse(v: &Value, field: &'static str) -> (r: Result<TileTemplate, SchemaError>) {
        match v {
            Value::Pairs(pairs) => parse_tile_template(pairs),
            _ => Err(SchemaError { field, expected: Shape::Record }),
        }
    }
}

/// The first field of a side panel that does not resolve, the fields taken in
/// their order.
pub open spec fn side_fault(pairs: Seq<(String, Value)>) -> Option<SchemaError> {
    fault_of(required::<String>(pairs, "name")).or_fault(
        fault_of(required::<String>(pairs, "title")),
    ).or_fault(
        fault_of(optional::<String>(pairs, "text")),
    ).or_fault(
        fault_of(optional::<bool>(pairs, "text_small")),
    ).or_fault(
        fault_of(optional::<Vec<Tile>>(pairs, "tiles")),
    ).or_fault(
        fault_of(optional::<TileTemplate>(pairs, "templated")),
    )
}

/// What the schema makes of the fields of a side panel.
pub open spec fn side_of(pairs: Seq<(String, Value)>) -> Result<SideView, SchemaError> {
    match side_fault(pairs) {
        Some(e) => Err(e),
        None => Ok(
            SideView {
                name: required::<String>(pairs, "name")->Ok_0,
                title: required::<String>(pairs, "title")->Ok_0,
                text: optional::<String>(pairs, "text")->Ok_0,
                text_small: optional::<bool>(pairs, "text_small")->Ok_0,
                tiles: optional::<Vec<Tile>>(pairs, "tiles")->Ok_0,
                templated: optional::<TileTemplate>(pairs, "templated")->Ok_0,
            },
        ),
    }
}

/// Resolves the fields of a side panel.
pub fn parse_side(pairs: &Vec<(String, Value)>) -> (r: Result<Side, SchemaError>)
    ensures
        parsed(r, side_of(pairs@)),
{
    let name = parse_required::<String>(pairs, "name")?;
    let title = parse_required::<String>(pairs, "title")?;
    let text = parse_optional::<String>(pairs, "text")?;
    let text_small = parse_optional::<bool>(pairs, "text_small")?;
    let tiles = parse_optional::<Vec<Tile>>(pairs, "tiles")?;
    let templated = parse_optional::<TileTemplate>(pairs, "templated")?;
    Ok(Side { name, title, text, text_small, tiles, templated })
}

impl Parse for Side {
    open spec fn shape() -> Shape {
        Shape::Record
    }

    open spec fn of(v: Value, field: &'static str) -> Result<SideView, SchemaError> {
        match v {
            Value::Pairs(pairs) => side_of(pairs@),
            _ => Err(SchemaError { field, expected: Shape::Record }),
        }
    }

    fn expected() -> (s: Shape) {
        Shape::Record
    }

    fn parse(v: &Value, field: &'static str) -> (r: Result<Side, SchemaError>) {
        match v {
            Value::Pairs(pairs) => parse_side(pairs),
            _ => Err(SchemaError { field, expected: Shape::Record }),
        }
    }
}

/// The first field of a link row that does not resolve, the fields taken in
/// their order.
pub open spec fn tool_link_fault(pairs: Seq<(String, Value)>) -> Option<SchemaError> {
    fault_of(required::<ToolLinkTitle>(pairs, "title")).or_fault(
        fault_of(required::<ToolLinkType>(pairs, "link_type")),
    ).or_fault(
        fault_of(required::<String>(pairs, "link")),
    ).or_fault(
        fault_of(required::<ToolLinkIcon>(pairs, "icon")),
    )
}

/// What the schema makes of the fields of a link row.
pub open spec fn tool_link_of(pairs: Seq<(String, Value)>) -> Result<ToolLinkView, SchemaError> {
    match tool_link_fault(pairs) {
        Some(e) => Err(e),
        None => Ok(
            ToolLinkView {
                title: required::<ToolLinkTitle>(pairs, "title")->Ok_0,
                link_type: required::<ToolLinkType>(pairs, "link_type")->Ok_0,
                link: required::<String>(pairs, "link")->Ok_0,
                icon: required::<ToolLinkIcon>(pairs, "icon")->Ok_0,
            },
        ),
    }
}

/// Resolves the fields of a link row.
pub fn parse_tool_link(pairs: &Vec<(String, Value)>) -> (r: Result<ToolLink, SchemaError>)
    ensures
        parsed(r, tool_link_of(pairs@)),
{
    let title = parse_required::<ToolLinkTitle>(pairs, "title")?;
    let link_type = parse_required::<ToolLinkType>(pairs, "link_type")?;
    let link = parse_required::<String>(pairs, "link")?;
    let icon = parse_required::<ToolLinkIcon>(pairs, "icon")?;
    Ok(ToolLink { title, link_type, link, icon })
}

impl Parse for ToolLink {
    open spec fn shape() -> Shape {
        Shape::Record
    }

    open spec fn of(v: Value, field: &'static str) -> Result<ToolLinkView, SchemaError> {
        match v {
            Value::Pairs(pairs) => tool_link_of(pairs@),
            _ => Err(SchemaError { field, expected: Shape::Record }),
        }
    }

    fn expected() -> (s: Shape) {
        Shape::Record
    }

    fn parse(v: &Value, field: &'static str) -> (r: Result<ToolLink, SchemaError>) {
        match v {
            Value::Pairs(pairs) => parse_tool_link(pairs),
            _ => Err(SchemaError { field, expected: Shape::Record }),
        }
    }
}

/// The first field of the links of a tool that does not resolve, the fields
/// taken in their order.
pub open spec fn tool_links_fault(pairs: Seq<(String, Value)>) -> Option<SchemaError> {
    fault_of(optional::<ToolLinkTitle>(pairs, "website")).or_fault(
        fault_of(optional::<OrderedMap<ToolLinkTitle>>(pairs, "websites")),
    ).or_fault(
        fault_of(optional::<OrderedMap<String>>(pairs, "downloads")),
    ).or_fault(
        fault_of(optional::<MirrorType>(pairs, "mirror")),
    ).or_fault(
        fault_of(optional::<OrderedMap<String>>(pairs, "mirrors")),
    ).or_fault(
        fault_of(optional::<bool>(pairs, "columns")),
    )
}

/// What the schema makes of the fields of the links of a tool.
pub open spec fn tool_links_of(pairs: Seq<(String, Value)>) -> Result<ToolLinksView, SchemaError> {
    match tool_links_fault(pairs) {
        Some(e) => Err(e),
        None => Ok(
            ToolLinksView {
                website: optional::<ToolLinkTitle>(pairs, "website")->Ok_0,
                websites: optional::<OrderedMap<ToolLinkTitle>>(pairs, "websites")->Ok_0,
                downloads: optional::<OrderedMap<String>>(pairs, "downloads")->Ok_0,
                mirror: optional::<MirrorType>(pairs, "mirror")->Ok_0,
                mirrors: optional::<OrderedMap<String>>(pairs, "mirrors")->Ok_0,
                columns: optional::<bool>(pairs, "columns")->Ok_0,
            },
        ),
    }
}

/// Resolves the fields of the links of a tool.
pub fn parse_tool_links(pairs: &Vec<(String, Value)>) -> (r: Result<ToolLinks, SchemaError>)
    ensures
        parsed(r, tool_links_of(pairs@)),
{
    let website = parse_optional::<ToolLinkTitle>(pairs, "website")?;
    let websites = parse_optional::<OrderedMap<ToolLinkTitle>>(pairs, "websites")?;
    let downloads = parse_optional::<OrderedMap<String>>(pairs, "downloads")?;
    let mirror = parse_optional::<MirrorType>(pairs, "mirror")?;
    let mirrors = parse_optional::<OrderedMap<String>>(pairs, "mirrors")?;
    let columns = parse_optional::<bool>(pairs, "columns")?;
    Ok(ToolLinks { website, websites, downloads, mirror, mirrors, columns })
}

/// The first field of a tool that does not resolve, the fields taken in
/// their order.
pub open spec fn tool_fault(pairs: Seq<(String, Value)>) -> Option<SchemaError> {
    fault_of(required::<String>(pairs, "name")).or_fault(
        fault_of(required::<String>(pairs, "title")),
    ).or_fault(
        fault_of(optional::<String>(pairs, "icon")),
    ).or_fault(
        fault_of(optional::<String>(pairs, "description")),
    ).or_fault(
        fault_of(optional::<String>(pairs, "notice")),
    ).or_fault(
        fault_of(optional::<Vec<String>>(pairs, "category")),
    ).or_fault(
        fault_of(optional::<Vec<String>>(pairs, "cross")),
    ).or_fault(
        fault_of(optional::<String>(pairs, "keywords")),
    ).or_fault(
        fault_of(optional::<OrderedMap<String>>(pairs, "cross_notice")),
    ).or_fault(
        fault_of(tool_links_of(pairs)),
    )
}

/// What the schema makes of the fields of a tool.
pub open spec fn tool_of(pairs: Seq<(String, Value)>) -> Result<ToolView, SchemaError> {
    match tool_fault(pairs) {
        Some(e) => Err(e),
        None => Ok(
            ToolView {
                name: required::<String>(pairs, "name")->Ok_0,
                title: required::<String>(pairs, "title")->Ok_0,
                icon: optional::<String>(pairs, "icon")->Ok_0,
                description: optional::<String>(pairs, "description")->Ok_0,
                notice: optional::<String>(pairs, "notice")->Ok_0,
                category: optional::<Vec<String>>(pairs, "category")->Ok_0,
                cross: optional::<Vec<String>>(pairs, "cross")->Ok_0,
                keywords: optional::<String>(pairs, "keywords")->Ok_0,
                cross_notice: optional::<OrderedMap<String>>(pairs, "cross_notice")->Ok_0,
                links: tool_links_of(pairs)->Ok_0,
            },
        ),
    }
}

/// Resolves the fields of a tool.
pub fn parse_tool(pairs: &Vec<(String, Value)>) -> (r: Result<Tool, SchemaError>)
    ensures
        parsed(r, tool_of(pairs@)),
{
    let name = parse_required::<String>(pairs, "name")?;
    let title = parse_required::<String>(pairs, "title")?;
    let icon = parse_optional::<String>(pairs, "icon")?;
    let description = parse_optional::<String>(pairs, "description")?;
    let notice = parse_optional::<String>(pairs, "notice")?;
    let category = parse_optional::<Vec<String>>(pairs, "category")?;
    let cross = parse_optional::<Vec<String>>(pairs, "cross")?;
    let keywords = parse_optional::<String>(pairs, "keywords")?;
    let cross_notice = parse_optional::<OrderedMap<String>>(pairs, "cross_notice")?;
    let links = parse_tool_links(pairs)?;
    Ok(
        Tool {
            name,
            title,
            icon,
            description,
            notice,
            category,
            cross,
            keywords,
            cross_notice,
            links,
        },
    )
}

impl Parse for Tool {
    open spec fn shape() -> Shape {
        Shape::Record
    }

    open spec fn of(v: Value, field: &'static str) -> Result<ToolView, SchemaError> {
        match v {
            Value::Pairs(pairs) => tool_of(pairs@),
            _ => Err(SchemaError { field, expected: Shape::Record }),
        }
    }

    fn expected() -> (s: Shape) {
        Shape::Record
    }

    fn parse(v: &Value, field: &'static str) -> (r: Result<Tool, SchemaError>) {
        match v {
            Value::Pairs(pairs) => parse_tool(pairs),
            _ => Err(SchemaError { field, expected: Shape::Record }),
        }
    }
}

/// The first field of a group of tools that does not resolve, the fields
/// taken in their order.
pub open spec fn tool_group_fault(pairs: Seq<(String, Value)>) -> Option<SchemaError> {
    fault_of(optional::<String>(pairs, "name")).or_fault(
        fault_of(optional::<String>(pairs, "title")),
    ).or_fault(
        fault_of(optional::<String>(pairs, "cross_notice")),
    ).or_fault(
        fault_of(required::<Vec<Tool>>(pairs, "list")),
    )
}

/// What the schema makes of the fields of a group of tools.
pub open spec fn tool_group_of(pairs: Seq<(String, Value)>) -> Result<ToolGroupView, SchemaError> {
    match tool_group_fault(pairs) {
        Some(e) => Err(e),
        None => Ok(
            ToolGroupView {
                name: optional::<String>(pairs, "name")->Ok_0,
                title: optional::<String>(pairs, "title")->Ok_0,
                cross_notice: optional::<String>(pairs, "cross_notice")->Ok_0,
                list: required::<Vec<Tool>>(pairs, "list")->Ok_0,
            },
        ),
    }
}

/// Resolves the fields of a group of tools.
pub fn parse_tool_group(pairs: &Vec<(String, Value)>) -> (r: Result<ToolGroup, SchemaError>)
    ensures
        parsed(r, tool_group_of(pairs@)),
{
    let name = parse_optional::<String>(pairs, "name")?;
    let title = parse_optional::<String>(pairs, "title")?;
    let cross_notice = parse_optional::<String>(pairs, "cross_notice")?;
    let list = parse_required::<Vec<Tool>>(pairs, "list")?;
    Ok(ToolGroup { name, title, cross_notice, list })
}

impl Parse for ToolGroup {
    open spec fn shape() -> Shape {
        Shape::Record
    }

    open spec fn of(v: Value, field: &'static str) -> Result<ToolGroupView, SchemaError> {
        match v {
            Value::Pairs(pairs) => tool_group_of(pairs@),
            _ => Err(SchemaError { field, expected: Shape::Record }),
        }
    }

    fn expected() -> (s: Shape) {
        Shape::Record
    }

    fn parse(v: &Value, field: &'static str) -> (r: Result<ToolGroup, SchemaError>) {
        match v {
            Value::Pairs(pairs) => parse_tool_group(pairs),
            _ => Err(SchemaError { field, expected: Shape::Record }),
        }
    }
}

/// The first of the six configuration trees that does not resolve, the
/// trees taken in their order: the tiles and panels of the home page, the
/// tiles and panels of the tool page, the category browser and the tool
/// groups.
pub open spec fn sources_fault(
    home_major: Value,
    home_sides: Value,
    tool_major: Value,
    tool_sides: Value,
    category: Value,
    tools: Value,
) -> Option<SchemaError> {
    fault_of(TileGrids::of(home_major, "home_major")).or_fault(
        fault_of(Vec::<Side>::of(home_sides, "home_sides")),
    ).or_fault(
        fault_of(Vec::<Vec<Tile>>::of(tool_major, "tool_major")),
    ).or_fault(
        fault_of(Vec::<Side>::of(tool_sides, "tool_sides")),
    ).or_fault(
        fault_of(Category::of(category, "category")),
    ).or_fault(
        fault_of(Vec::<ToolGroup>::of(tools, "tools")),
    )
}

/// What the schema makes of the six configuration trees.
pub open spec fn sources_of(
    home_major: Value,
    home_sides: Value,
    tool_major: Value,
    tool_sides: Value,
    category: Value,
    tools: Value,
) -> Result<SourcesView, SchemaError> {
    match sources_fault(home_major, home_sides, tool_major, tool_sides, category, tools) {
        Some(e) => Err(e),
        None => Ok(
            SourcesView {
                home_major: TileGrids::of(home_major, "home_major")->Ok_0,
                home_sides: Vec::<Side>::of(home_sides, "home_sides")->Ok_0,
                tool_major: Vec::<Vec<Tile>>::of(tool_major, "tool_major")->Ok_0,
                tool_sides: Vec::<Side>::of(tool_sides, "tool_sides")->Ok_0,
                category: Category::of(category, "category")->Ok_0,
                tools: Vec::<ToolGroup>::of(tools, "tools")->Ok_0,
            },
        ),
    }
}

/// Resolves the six configuration trees into the model.
pub fn parse_sources(
    home_major: &Value,
    home_sides: &Value,
    tool_major: &Value,
    tool_sides: &Value,
    category: &Value,
    tools: &Value,
) -> (r: Result<Sources, SchemaError>)
    ensures
        parsed(
            r,
            sources_of(*home_major, *home_sides, *tool_major, *tool_sides, *category, *tools),
        ),
{
    let home_major = TileGrids::parse(home_major, "home_major")?;
    let home_sides = Vec::<Side>::parse(home_sides, "home_sides")?;
    let tool_major = Vec::<Vec<Tile>>::parse(tool_major, "tool_major")?;
    let tool_sides = Vec::<Side>::parse(tool_sides, "tool_sides")?;
    let category = Category::parse(category, "category")?;
    let tools = Vec::<ToolGroup>::parse(tools, "tools")?;
    Ok(Sources { home_major, home_sides, tool_major, tool_sides, category, tools })
}

} // verus!
