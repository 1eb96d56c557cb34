//! Markup fragments: what each part of the configuration looks like on a
//! page, and which parts break a rule of the configuration.

use crate::config::{
    link_prefix, tool_link_prefix, Category, CategoryGroup, CategoryTab, CategoryTabView,
    CategoryView, Side, SideView, Tile, TileAction, TileGridMiddle, TileGrids, TileGridsView,
    TileGroupView, TileTemplate, TileTemplateInnerView, TileTemplateTiles, TileTemplateTilesView,
    TileTemplateView, TileView, ToolLinkType,
};
use crate::text::{matches_at, occurs};
use vstd::prelude::*;
use vstd::string::*;

verus! {

/// A rule of the configuration that the schema cannot express.
#[derive(Clone, Copy, Debug, PartialEq, Eq, Structural)]
pub enum Rule {
    /// A tile whose action has a target needs a name, which is that target.
    TileTarget,
    /// A tile with a heading font needs a title to show.
    TileTitle,
    /// A side panel gets its tiles from a list or from a template, not from
    /// both.
    SideBothContents,
    /// A side panel needs tiles, from a list or from a template.
    SideNoContent,
    /// A tool has one website or named websites, not both.
    WebsiteConflict,
    /// A tool has one mirror or named mirrors, not both.
    MirrorConflict,
    /// No two tools have the same name.
    DuplicateTool,
    /// A tool is filed under a category that the category tab declares.
    UnknownCategory,
}

/// A broken rule, with the name of the tile, panel or tool that breaks it.
#[derive(Debug, PartialEq, Eq)]
pub struct SemanticError {
    pub rule: Rule,
    pub subject: String,
}

/// A broken rule as plain values.
pub struct SemanticErrorView {
    pub rule: Rule,
    pub subject: Seq<char>,
}

impl DeepView for SemanticError {
    type V = SemanticErrorView;

    open spec fn deep_view(&self) -> SemanticErrorView {
        SemanticErrorView { rule: self.rule, subject: self.subject@ }
    }
}

/// Whether `r` reports exactly the defect `d`.
pub open spec fn reports(r: Result<(), SemanticError>, d: Option<SemanticErrorView>) -> bool {
    match d {
        Some(e) => r is Err && r->Err_0.deep_view() == e,
        None => r is Ok,
    }
}

/// A part of the configuration that is drawn on a page.
pub trait Fragment: DeepView {
    /// The markup of a part.
    spec fn markup(v: Self::V) -> Seq<char>;

    /// The first rule that a part breaks, if it breaks one.
    spec fn defect(v: Self::V) -> Option<SemanticErrorView>;

    /// Draws this part.
    fn render(&self) -> (markup: String)
        ensures
            markup@ == Self::markup(self.deep_view()),
    ;

    /// Checks this part against the rules.
    fn check(&self) -> (r: Result<(), SemanticError>)
        ensures
            reports(r, Self::defect(self.deep_view())),
    ;
}

/// The markup of the parts of `items`, one after another.
pub open spec fn markup_each<T: Fragment>(items: Seq<T::V>) -> Seq<char>
    decreases items.len(),
{
    if items.len() == 0 {
        Seq::empty()
    } else {
        markup_each::<T>(items.drop_last()) + T::markup(items.last())
    }
}

/// The defect of the first part of `items` that has one.
pub open spec fn defect_each<T: Fragment>(items: Seq<T::V>) -> Option<SemanticErrorView>
    decreases items.len(),
{
    if items.len() == 0 {
        None
    } else {
        match defect_each::<T>(items.drop_last()) {
            Some(e) => Some(e),
            None => T::defect(items.last()),
        }
    }
}

/// Draws every part of `items`, in order.
pub fn render_each<T: Fragment>(items: &Vec<T>) -> (markup: String)
    ensures
        markup@ == markup_each::<T>(items.deep_view()),
{
    let mut markup = String::new();
    let mut i: usize = 0;
    proof {
        assert(items.deep_view().take(0) =~= Seq::empty());
    }
    while i < items.len()
        invariant
            i <= items.len(),
            markup@ == markup_each::<T>(items.deep_view().take(i as int)),
        decreases items.len() - i,
    {
        proof {
            let all = items.deep_view();
            assert(all.take(i + 1).drop_last() =~= all.take(i as int));
            assert(all.take(i + 1).last() == items[i as int].deep_view());
        }
        markup.append(items[i].render().as_str());
        i += 1;
    }
    proof {
        assert(items.deep_view().take(i as int) =~= items.deep_view());
    }
    markup
}

/// Checks every part of `items` and reports the first defect.
pub fn check_each<T: Fragment>(items: &Vec<T>) -> (r: Result<(), SemanticError>)
    ensures
        reports(r, defect_each::<T>(items.deep_view())),
{
    let mut i: usize = 0;
    proof {
        assert(items.deep_view().take(0) =~= Seq::empty());
    }
    while i < items.len()
        invariant
            i <= items.len(),
            defect_each::<T>(items.deep_view().take(i as int)) is None,
        decreases items.len() - i,
    {
        proof {
            let all = items.deep_view();
            assert(all.take(i + 1).drop_last() =~= all.take(i as int));
            assert(all.take(i + 1).last() == items[i as int].deep_view());
        }
        match items[i].check() {
            Ok(()) => {},
            Err(e) => {
                proof {
                    lemma_defect_stays::<T>(items.deep_view(), i + 1);
                }
                return Err(e);
            },
        }
        i += 1;
    }
    proof {
        assert(items.deep_view().take(i as int) =~= items.deep_view());
    }
    Ok(())
}

/// A defect found among the first `n` parts is the defect of the whole.
pub proof fn lemma_defect_stays<T: Fragment>(items: Seq<T::V>, n: int)
    requires
        0 <= n <= items.len(),
        defect_each::<T>(items.take(n)) is Some,
    ensures
        defect_each::<T>(items) == defect_each::<T>(items.take(n)),
    decreases items.len() - n,
{
    if n < items.len() {
        assert(items.take(n + 1).drop_last() =~= items.take(n));
        lemma_defect_stays::<T>(items, n + 1);
    } else {
        assert(items.take(n) =~= items);
    }
}

/// The text, or no text where there is none.
pub open spec fn text_or_empty(text: Option<Seq<char>>) -> Seq<char> {
    match text {
        Some(t) => t,
        None => Seq::empty(),
    }
}

/// An optional text between an opening and a closing text; nothing at all
/// where there is no text.
pub open spec fn wrapped(open: Seq<char>, text: Option<Seq<char>>, close: Seq<char>) -> Seq<char> {
    match text {
        Some(t) => open + t + close,
        None => Seq::empty(),
    }
}

/// An optional text between an opening and a closing text.
pub fn wrap(open: &str, text: &Option<String>, close: &str) -> (markup: String)
    ensures
        markup@ == wrapped(open@, text.deep_view(), close@),
{
    match text {
        Some(t) => {
            let mut markup = String::from_str(open);
            markup.append(t.as_str());
            markup.append(close);
            markup
        },
        None => String::new(),
    }
}

/// An attribute of an element, with the blank before it.
pub open spec fn attribute(name: Seq<char>, value: Seq<char>) -> Seq<char> {
    " "@ + name + "=\""@ + value + "\""@
}

/// An attribute of an element, with the blank before it.
pub fn render_attribute(name: &str, value: &str) -> (markup: String)
    ensures
        markup@ == attribute(name@, value@),
{
    let mut markup = String::from_str(" ");
    markup.append(name);
    markup.append("=\"");
    markup.append(value);
    markup.append("\"");
    markup
}

/// The attribute that carries what the tile's action needs: the key of the
/// panel, tool or category that it opens, the text that it copies, or the
/// address that it leads to, with the prefix of the redirect already in
/// place. A tile without an action has none.
pub open spec fn tile_target(t: TileView) -> Seq<char> {
    match t.action {
        TileAction::Side => attribute("data-side"@, t.name),
        TileAction::Tool => attribute("data-tool"@, t.name),
        TileAction::Category => attribute("data-category"@, t.name),
        TileAction::Copy => attribute("data-copy"@, t.name),
        TileAction::Href => attribute("href"@, t.name),
        TileAction::R => attribute("href"@, "//r.ldtstore.com.cn/r/"@ + t.name),
        TileAction::R2 => attribute("href"@, link_prefix(ToolLinkType::R2) + t.name),
        TileAction::Home => attribute("href"@, "/"@),
        TileAction::NoAction => Seq::empty(),
    }
}

/// What a tile shows: its title in the heading of its font, or, without a
/// font, its icon, with the title as the icon's description.
pub open spec fn tile_face(t: TileView) -> Seq<char> {
    match t.font {
        Some(font) => "<"@ + font.tag() + ">"@ + text_or_empty(t.title) + "</"@ + font.tag()
            + ">"@,
        None => "<img src=\"{{IMAGE}}/icon/"@ + (match t.icon {
            Some(icon) => icon,
            None => t.name,
        }) + "."@ + (match t.icon_type {
            Some(icon_type) => icon_type,
            None => "webp"@,
        }) + "\""@ + (match t.title {
            Some(title) => attribute("alt"@, title),
            None => Seq::empty(),
        }) + ">"@,
    }
}

/// The markup of a tile.
pub open spec fn tile_markup(t: TileView) -> Seq<char> {
    "<a class=\"tile"@ + (match t.tile {
        Some(hint) => " "@ + hint,
        None => Seq::empty(),
    }) + "\""@ + tile_target(t) + ">"@ + tile_face(t) + "</a>"@
}

/// Whether an action works on what the tile's name gives: every action does
/// but going home and doing nothing.
pub open spec fn has_target(action: TileAction) -> bool {
    action != TileAction::Home && action != TileAction::NoAction
}

/// The rule that a tile breaks, if it breaks one. What a tile needs depends
/// on what it does and how it is drawn: an action with a target needs a
/// name that is not empty, and a heading needs a title.
pub open spec fn tile_defect(t: TileView) -> Option<SemanticErrorView> {
    if has_target(t.action) && t.name.len() == 0 {
        Some(SemanticErrorView { rule: Rule::TileTarget, subject: t.name })
    } else if t.font is Some && t.title is None {
        Some(SemanticErrorView { rule: Rule::TileTitle, subject: t.name })
    } else {
        None
    }
}

/// A tile that has a title shows it: the title stands in the tile's markup.
pub proof fn lemma_title_shown(t: TileView)
    requires
        t.title is Some,
    ensures
        occurs(tile_markup(t), t.title->0),
{
    let title = t.title->0;
    let before = "<a class=\"tile"@ + (match t.tile {
        Some(hint) => " "@ + hint,
        None => Seq::empty(),
    }) + "\""@ + tile_target(t) + ">"@;
    let (head, tail) = match t.font {
        Some(font) => ("<"@ + font.tag() + ">"@, "</"@ + font.tag() + ">"@),
        None => (
            "<img src=\"{{IMAGE}}/icon/"@ + (match t.icon {
                Some(icon) => icon,
                None => t.name,
            }) + "."@ + (match t.icon_type {
                Some(icon_type) => icon_type,
                None => "webp"@,
            }) + "\""@ + " "@ + "alt"@ + "=\""@,
            "\""@ + ">"@,
        ),
    };
    assert(tile_face(t) =~= head + title + tail);
    let markup = tile_markup(t);
    let at = (before + head).len() as int;
    assert(markup =~= before + head + title + tail + "</a>"@);
    assert(markup.subrange(at, at + title.len()) =~= title);
    assert(matches_at(markup, title, at));
}

impl Tile {
    /// The attribute of the tile's action.
    pub fn render_target(&self) -> (markup: String)
        ensures
            markup@ == tile_target(self.deep_view()),
    {
        match self.action {
            TileAction::Side => render_attribute("data-side", self.name.as_str()),
            TileAction::Tool => render_attribute("data-tool", self.name.as_str()),
            TileAction::Category => render_attribute("data-category", self.name.as_str()),
            TileAction::Copy => render_attribute("data-copy", self.name.as_str()),
            TileAction::Href => render_attribute("href", self.name.as_str()),
            TileAction::R => {
                let mut address = String::from_str("//r.ldtstore.com.cn/r/");
                address.append(self.name.as_str());
                render_attribute("href", address.as_str())
            },
            TileAction::R2 => {
                let mut address = String::from_str(tool_link_prefix(ToolLinkType::R2));
                address.append(self.name.as_str());
                render_attribute("href", address.as_str())
            },
            TileAction::Home => render_attribute("href", "/"),
            TileAction::NoAction => String::new(),
        }
    }

    /// What the tile shows.
    pub fn render_face(&self) -> (markup: String)
        ensures
            markup@ == tile_face(self.deep_view()),
    {
        match self.font {
            Some(font) => {
                let mut markup = String::from_str("<");
                markup.append(font.into_tag());
                markup.append(">");
                match &self.title {
                    Some(title) => markup.append(title.as_str()),
                    None => {
                        proof {
                            assert(markup@ + Seq::<char>::empty() =~= markup@);
                        }
                    },
                }
                markup.append("</");
                markup.append(font.into_tag());
                markup.append(">");
                markup
            },
            None => {
                let mut markup = String::from_str("<img src=\"{{IMAGE}}/icon/");
                match &self.icon {
                    Some(icon) => markup.append(icon.as_str()),
                    None => markup.append(self.name.as_str()),
                }
                markup.append(".");
                match &self.icon_type {
                    Some(icon_type) => markup.append(icon_type.as_str()),
                    None => markup.append("webp"),
                }
                markup.append("\"");
                let description = match &self.title {
                    Some(title) => render_attribute("alt", title.as_str()),
                    None => String::new(),
                };
                markup.append(description.as_str());
                markup.append(">");
                markup
            },
        }
    }

    /// The rendering hint as it stands among the classes of the tile.
    fn render_hint(&self) -> (markup: String)
        ensures
            markup@ == match self.tile.deep_view() {
                Some(hint) => " "@ + hint,
                None => Seq::empty(),
            },
    {
        match &self.tile {
            Some(hint) => {
                let mut markup = String::from_str(" ");
                markup.append(hint.as_str());
                markup
            },
            None => String::new(),
        }
    }
}

impl Fragment for Tile {
    open spec fn markup(v: TileView) -> Seq<char> {
        tile_markup(v)
    }

    open spec fn defect(v: TileView) -> Option<SemanticErrorView> {
        tile_defect(v)
    }

    fn render(&self) -> (markup: String) {
        let mut markup = String::from_str("<a class=\"tile");
        markup.append(self.render_hint().as_str());
        markup.append("\"");
        markup.append(self.render_target().as_str());
        markup.append(">");
        markup.append(self.render_face().as_str());
        markup.append("</a>");
        markup
    }

    fn check(&self) -> (r: Result<(), SemanticError>) {
        let targets = match self.action {
            TileAction::Home => false,
            TileAction::NoAction => false,
            _ => true,
        };
        if targets && self.name.as_str().is_empty() {
            Err(SemanticError { rule: Rule::TileTarget, subject: self.name.clone() })
        } else if self.font.is_some() && self.title.is_none() {
            Err(SemanticError { rule: Rule::TileTitle, subject: self.name.clone() })
        } else {
            Ok(())
        }
    }
}

/// The first of two defects, in their order.
pub open spec fn first_of(a: Option<SemanticErrorView>, b: Option<SemanticErrorView>) -> Option<
    SemanticErrorView,
> {
    match a {
        Some(e) => Some(e),
        None => b,
    }
}

/// A copy of an optional text.
pub fn clone_text(text: &Option<String>) -> (copy: Option<String>)
    ensures
        copy.deep_view() == text.deep_view(),
{
    match text {
        Some(t) => Some(t.clone()),
        None => None,
    }
}

/// The tile that a template makes for one entry: the template's rendering
/// hints with the entry's name and, where the entry has one, its title.
pub open spec fn template_tile(
    template: TileTemplateInnerView,
    name: Seq<char>,
    title: Option<Seq<char>>,
) -> TileView {
    TileView {
        tile: Some(template.tile),
        font: template.font,
        action: template.action,
        icon_type: template.icon_type,
        name,
        title,
        icon: None,
    }
}

/// The tiles that a template stands for, one for each entry, in the order
/// of the entries.
pub open spec fn expand_template(t: TileTemplateView) -> Seq<TileView> {
    match t.tiles {
        TileTemplateTilesView::WithoutTitle(names) => Seq::new(
            names.len(),
            |i: int| template_tile(t.template, names[i], None),
        ),
        TileTemplateTilesView::WithTitle(entries) => Seq::new(
            entries.len(),
            |i: int| template_tile(t.template, entries[i].0, Some(entries[i].1)),
        ),
    }
}

/// Where the entries of a template are a mapping from names to titles,
/// every tile carries the title of its entry; where they are a plain list
/// of names, no tile has a title. Either way there is one tile for each
/// entry, under the entry's name and in the entry's place.
pub proof fn lemma_template_titles(t: TileTemplateView)
    ensures
        match t.tiles {
            TileTemplateTilesView::WithTitle(entries) => {
                &&& expand_template(t).len() == entries.len()
                &&& forall|i: int|
                    0 <= i < entries.len() ==> {
                        &&& (#[trigger] expand_template(t)[i]).name == entries[i].0
                        &&& expand_template(t)[i].title == Some(entries[i].1)
                    }
            },
            TileTemplateTilesView::WithoutTitle(names) => {
                &&& expand_template(t).len() == names.len()
                &&& forall|i: int|
                    0 <= i < names.len() ==> {
                        &&& (#[trigger] expand_template(t)[i]).name == names[i]
                        &&& expand_template(t)[i].title is None
                    }
            },
        },
{
}

impl TileTemplate {
    /// The tile of this template for one entry.
    fn tile_for(&self, name: &String, title: Option<&String>) -> (tile: Tile)
        ensures
            tile.deep_view() == template_tile(
                self.template.deep_view(),
                name@,
                match title {
                    Some(t) => Some(t@),
                    None => None,
                },
            ),
    {
        Tile {
            tile: Some(self.template.tile.clone()),
            font: self.template.font,
            action: self.template.action,
            icon_type: clone_text(&self.template.icon_type),
            name: name.clone(),
            title: match title {
                Some(t) => Some(t.clone()),
                None => None,
            },
            icon: None,
        }
    }

    /// Makes the tiles that this template stands for.
    pub fn expand(&self) -> (tiles: Vec<Tile>)
        ensures
            tiles.deep_view() == expand_template(self.deep_view()),
    {
        let mut tiles: Vec<Tile> = Vec::new();
        match &self.tiles {
            TileTemplateTiles::WithoutTitle(names) => {
                let mut i: usize = 0;
                while i < names.len()
                    invariant
                        i <= names.len(),
                        self.tiles == TileTemplateTiles::WithoutTitle(*names),
                        tiles.deep_view() == expand_template(self.deep_view()).take(i as int),
                    decreases names.len() - i,
                {
                    let ghost before = tiles.deep_view();
                    let tile = self.tile_for(&names[i], None);
                    tiles.push(tile);
                    proof {
                        assert(names.deep_view()[i as int] == names[i as int]@);
                        assert(tiles.deep_view() =~= before.push(tile.deep_view()));
                        assert(tiles.deep_view() =~= expand_template(self.deep_view()).take(i + 1));
                    }
                    i += 1;
                }
                proof {
                    assert(tiles.deep_view() =~= expand_template(self.deep_view()));
                }
            },
            TileTemplateTiles::WithTitle(titles) => {
                let n = titles.len();
                let mut i: usize = 0;
                while i < n
                    invariant
                        i <= n,
                        n == titles.keys().len(),
                        n == titles.values().len(),
                        self.tiles == TileTemplateTiles::WithTitle(*titles),
                        tiles.deep_view() == expand_template(self.deep_view()).take(i as int),
                    decreases n - i,
                {
                    let ghost before = tiles.deep_view();
                    let tile = self.tile_for(titles.key_at(i), Some(titles.value_at(i)));
                    tiles.push(tile);
                    proof {
                        assert(tiles.deep_view() =~= before.push(tile.deep_view()));
                        assert(tiles.deep_view() =~= expand_template(self.deep_view()).take(i + 1));
                    }
                    i += 1;
                }
                proof {
                    assert(tiles.deep_view() =~= expand_template(self.deep_view()));
                }
            },
        }
        tiles
    }
}

/// The tiles of a side panel: those of its list, or those that its template
/// stands for.
pub open spec fn side_tiles(s: SideView) -> Seq<TileView> {
    match (s.tiles, s.templated) {
        (Some(tiles), None) => tiles,
        (None, Some(template)) => expand_template(template),
        _ => Seq::empty(),
    }
}

/// The paragraph of a side panel, in the smaller style where the panel asks
/// for it.
pub open spec fn side_text(s: SideView) -> Seq<char> {
    match s.text {
        Some(text) => (if s.text_small == Some(true) {
            "<p class=\"text small\">"@
        } else {
            "<p class=\"text\">"@
        }) + text + "</p>"@,
        None => Seq::empty(),
    }
}

/// The markup of a side panel.
pub open spec fn side_markup(s: SideView) -> Seq<char> {
    "<div class=\"side\" id=\"side-"@ + s.name + "\"><h2>"@ + s.title + "</h2>"@ + side_text(s)
        + markup_each::<Tile>(side_tiles(s)) + "</div>"@
}

/// The rule that a side panel breaks, if it breaks one: it has tiles from
/// exactly one source, and each of them is in order.
pub open spec fn side_defect(s: SideView) -> Option<SemanticErrorView> {
    if s.tiles is Some && s.templated is Some {
        Some(SemanticErrorView { rule: Rule::SideBothContents, subject: s.name })
    } else if s.tiles is None && s.templated is None {
        Some(SemanticErrorView { rule: Rule::SideNoContent, subject: s.name })
    } else {
        defect_each::<Tile>(side_tiles(s))
    }
}

impl Side {
    /// The paragraph of this panel.
    fn render_text(&self) -> (markup: String)
        ensures
            markup@ == side_text(self.deep_view()),
    {
        match &self.text {
            Some(text) => {
                let mut markup = match self.text_small {
                    Some(true) => String::from_str("<p class=\"text small\">"),
                    _ => String::from_str("<p class=\"text\">"),
                };
                markup.append(text.as_str());
                markup.append("</p>");
                markup
            },
            None => String::new(),
        }
    }

    /// The tiles of this panel.
    fn render_tiles(&self) -> (markup: String)
        ensures
            markup@ == markup_each::<Tile>(side_tiles(self.deep_view())),
    {
        match (&self.tiles, &self.templated) {
            (Some(tiles), None) => render_each(tiles),
            (None, Some(template)) => {
                let tiles = template.expand();
                render_each(&tiles)
            },
            _ => String::new(),
        }
    }
}

impl Fragment for Side {
    open spec fn markup(v: SideView) -> Seq<char> {
        side_markup(v)
    }

    open spec fn defect(v: SideView) -> Option<SemanticErrorView> {
        side_defect(v)
    }

    fn render(&self) -> (markup: String) {
        let mut markup = String::from_str("<div class=\"side\" id=\"side-");
        markup.append(self.name.as_str());
        markup.append("\"><h2>");
        markup.append(self.title.as_str());
        markup.append("</h2>");
        markup.append(self.render_text().as_str());
        markup.append(self.render_tiles().as_str());
        markup.append("</div>");
        markup
    }

    fn check(&self) -> (r: Result<(), SemanticError>) {
        match (&self.tiles, &self.templated) {
            (Some(_), Some(_)) => Err(
                SemanticError { rule: Rule::SideBothContents, subject: self.name.clone() },
            ),
            (None, None) => Err(
                SemanticError { rule: Rule::SideNoContent, subject: self.name.clone() },
            ),
            (Some(tiles), None) => check_each(tiles),
            (None, Some(template)) => {
                let tiles = template.expand();
                check_each(&tiles)
            },
        }
    }
}

/// The markup of a titled group of tiles.
pub open spec fn group_markup(g: TileGroupView) -> Seq<char> {
    "<div class=\"group\"><h3>"@ + g.title + "</h3>"@ + markup_each::<Tile>(g.content)
        + "</div>"@
}

/// Draws a titled group of tiles.
pub fn render_group(title: &String, content: &Vec<Tile>) -> (markup: String)
    ensures
        markup@ == group_markup(TileGroupView { title: title@, content: content.deep_view() }),
{
    let mut markup = String::from_str("<div class=\"group\"><h3>");
    markup.append(title.as_str());
    markup.append("</h3>");
    markup.append(render_each(content).as_str());
    markup.append("</div>");
    markup
}

impl Fragment for TileGridMiddle {
    open spec fn markup(v: TileGroupView) -> Seq<char> {
        group_markup(v)
    }

    open spec fn defect(v: TileGroupView) -> Option<SemanticErrorView> {
        defect_each::<Tile>(v.content)
    }

    fn render(&self) -> (markup: String) {
        render_group(&self.title, &self.content)
    }

    fn check(&self) -> (r: Result<(), SemanticError>) {
        check_each(&self.content)
    }
}

impl Fragment for CategoryGroup {
    open spec fn markup(v: TileGroupView) -> Seq<char> {
        group_markup(v)
    }

    open spec fn defect(v: TileGroupView) -> Option<SemanticErrorView> {
        defect_each::<Tile>(v.content)
    }

    fn render(&self) -> (markup: String) {
        render_group(&self.title, &self.content)
    }

    fn check(&self) -> (r: Result<(), SemanticError>) {
        check_each(&self.content)
    }
}

/// A column of tiles.
impl Fragment for Vec<Tile> {
    open spec fn markup(v: Seq<TileView>) -> Seq<char> {
        "<div class=\"column\">"@ + markup_each::<Tile>(v) + "</div>"@
    }

    open spec fn defect(v: Seq<TileView>) -> Option<SemanticErrorView> {
        defect_each::<Tile>(v)
    }

    fn render(&self) -> (markup: String) {
        let mut markup = String::from_str("<div class=\"column\">");
        markup.append(render_each(self).as_str());
        markup.append("</div>");
        markup
    }

    fn check(&self) -> (r: Result<(), SemanticError>) {
        check_each(self)
    }
}

impl Fragment for TileGrids {
    open spec fn markup(v: TileGridsView) -> Seq<char> {
        "<div class=\"left\">"@ + markup_each::<Tile>(v.left) + "</div><div class=\"middle\">"@
            + markup_each::<TileGridMiddle>(v.middle) + "</div>"@
    }

    open spec fn defect(v: TileGridsView) -> Option<SemanticErrorView> {
        first_of(defect_each::<Tile>(v.left), defect_each::<TileGridMiddle>(v.middle))
    }

    fn render(&self) -> (markup: String) {
        let mut markup = String::from_str("<div class=\"left\">");
        markup.append(render_each(&self.left).as_str());
        markup.append("</div><div class=\"middle\">");
        markup.append(render_each(&self.middle).as_str());
        markup.append("</div>");
        markup
    }

    fn check(&self) -> (r: Result<(), SemanticError>) {
        match check_each(&self.left) {
            Ok(()) => check_each(&self.middle),
            Err(e) => Err(e),
        }
    }
}

impl Fragment for CategoryTab {
    open spec fn markup(v: CategoryTabView) -> Seq<char> {
        "<div class=\"tab\"><h2>"@ + v.title + "</h2>"@ + markup_each::<CategoryGroup>(v.content)
            + "</div>"@
    }

    open spec fn defect(v: CategoryTabView) -> Option<SemanticErrorView> {
        defect_each::<CategoryGroup>(v.content)
    }

    fn render(&self) -> (markup: String) {
        let mut markup = String::from_str("<div class=\"tab\"><h2>");
        markup.append(self.title.as_str());
        markup.append("</h2>");
        markup.append(render_each(&self.content).as_str());
        markup.append("</div>");
        markup
    }

    fn check(&self) -> (r: Result<(), SemanticError>) {
        check_each(&self.content)
    }
}

impl Fragment for Category {
    open spec fn markup(v: CategoryView) -> Seq<char> {
        "<div class=\"category\">"@ + CategoryTab::markup(v.tool) + CategoryTab::markup(v.link)
            + "</div>"@
    }

    open spec fn defect(v: CategoryView) -> Option<SemanticErrorView> {
        first_of(CategoryTab::defect(v.tool), CategoryTab::defect(v.link))
    }

    fn render(&self) -> (markup: String) {
        let mut markup = String::from_str("<div class=\"category\">");
        markup.append(self.tool.render().as_str());
        markup.append(self.link.render().as_str());
        markup.append("</div>");
        markup
    }

    fn check(&self) -> (r: Result<(), SemanticError>) {
        match self.tool.check() {
            Ok(()) => self.link.check(),
            Err(e) => Err(e),
        }
    }
}

} // verus!
