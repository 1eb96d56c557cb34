//! The configuration model: tiles, side panels, category tabs and tools,
//! and the closed enumerations with their fixed texts.

use crate::ordered::OrderedMap;
use vstd::prelude::*;

verus! {

/// The kind of page that a configuration belongs to.
#[derive(Clone, Copy, Debug, PartialEq, Eq, Structural)]
pub enum PageType {
    Home,
    Tool,
}

/// The kind of configuration tree that an input file holds.
#[derive(Clone, Copy, Debug, PartialEq, Eq, Structural)]
pub enum InputType {
    Major,
    Sides,
    Tools,
    Category,
}

/// The heading level in which a tile shows its title.
#[derive(Clone, Copy, Debug, PartialEq, Eq, Structural)]
pub enum TileFont {
    H1,
    H2,
    H3,
    H4,
    H5,
}

impl TileFont {
    /// The name of the heading element of this level.
    pub open spec fn tag(self) -> Seq<char> {
        match self {
            TileFont::H1 => "h1"@,
            TileFont::H2 => "h2"@,
            TileFont::H3 => "h3"@,
            TileFont::H4 => "h4"@,
            TileFont::H5 => "h5"@,
        }
    }

    /// The name of the heading element of this level.
    pub fn into_tag(&self) -> (tag: &'static str)
        ensures
            tag@ == self.tag(),
    {
        match self {
            TileFont::H1 => "h1",
            TileFont::H2 => "h2",
            TileFont::H3 => "h3",
            TileFont::H4 => "h4",
            TileFont::H5 => "h5",
        }
    }
}

/// What a tile does when it is activated.
#[derive(Clone, Copy, Debug, PartialEq, Eq, Structural)]
pub enum TileAction {
    /// Opens the side panel named by the tile.
    Side,
    /// Opens the tool named by the tile.
    Tool,
    /// Opens the category tab named by the tile.
    Category,
    /// Copies the tile's name to the clipboard.
    Copy,
    /// Navigates to the address that the tile's name holds.
    Href,
    /// Navigates to the redirect of the first kind for the tile's name.
    R,
    /// Navigates to the redirect of the second kind for the tile's name.
    R2,
    /// Navigates to the home page.
    Home,
    /// Does nothing.
    NoAction,
}

/// The fixed classification of a link's title.
#[derive(Clone, Copy, Debug, PartialEq, Eq, Structural)]
pub enum ToolLinkTitleType {
    Official,
    Link,
    PageLink,
    Unofficial,
    OfficialLimited,
}

impl ToolLinkTitleType {
    /// The number under which a configuration writes this classification.
    pub open spec fn number(self) -> int {
        match self {
            ToolLinkTitleType::Official => 1,
            ToolLinkTitleType::Link => 2,
            ToolLinkTitleType::PageLink => 3,
            ToolLinkTitleType::Unofficial => 4,
            ToolLinkTitleType::OfficialLimited => 5,
        }
    }

    /// The classification written as `n`, if there is one.
    pub open spec fn of_number(n: int) -> Option<ToolLinkTitleType> {
        if n == 1 {
            Some(ToolLinkTitleType::Official)
        } else if n == 2 {
            Some(ToolLinkTitleType::Link)
        } else if n == 3 {
            Some(ToolLinkTitleType::PageLink)
        } else if n == 4 {
            Some(ToolLinkTitleType::Unofficial)
        } else if n == 5 {
            Some(ToolLinkTitleType::OfficialLimited)
        } else {
            None
        }
    }

    /// The classification written as `n`, if there is one.
    pub fn from_number(n: i64) -> (t: Option<ToolLinkTitleType>)
        ensures
            t == Self::of_number(n as int),
    {
        if n == 1 {
            Some(ToolLinkTitleType::Official)
        } else if n == 2 {
            Some(ToolLinkTitleType::Link)
        } else if n == 3 {
            Some(ToolLinkTitleType::PageLink)
        } else if n == 4 {
            Some(ToolLinkTitleType::Unofficial)
        } else if n == 5 {
            Some(ToolLinkTitleType::OfficialLimited)
        } else {
            None
        }
    }
}

/// Where a link leads: through the redirect service or to the mirror host.
#[derive(Clone, Copy, Debug, PartialEq, Eq, Structural)]
pub enum ToolLinkType {
    R2,
    Mirror,
}

impl ToolLinkType {
    /// The name of this kind.
    pub open spec fn name(self) -> Seq<char> {
        match self {
            ToolLinkType::R2 => "r2"@,
            ToolLinkType::Mirror => "mirror"@,
        }
    }

    /// The name of this kind.
    pub fn as_str(&self) -> (s: &'static str)
        ensures
            s@ == self.name(),
    {
        match self {
            ToolLinkType::R2 => "r2",
            ToolLinkType::Mirror => "mirror",
        }
    }
}

/// The glyph shown beside a link.
#[derive(Clone, Copy, Debug, PartialEq, Eq, Structural)]
pub enum ToolLinkIcon {
    Link,
    Download,
}

impl ToolLinkIcon {
    /// The name of this glyph.
    pub open spec fn name(self) -> Seq<char> {
        match self {
            ToolLinkIcon::Link => "link"@,
            ToolLinkIcon::Download => "download"@,
        }
    }

    /// The name of this glyph.
    pub fn as_str(&self) -> (s: &'static str)
        ensures
            s@ == self.name(),
    {
        match self {
            ToolLinkIcon::Link => "link",
            ToolLinkIcon::Download => "download",
        }
    }
}

/// The state of a tool's mirror.
#[derive(Clone, Copy, Debug, PartialEq, Eq, Structural)]
pub enum MirrorType {
    Active,
    Locked,
    Synced,
}

impl MirrorType {
    /// The name of this state.
    pub open spec fn name(self) -> Seq<char> {
        match self {
            MirrorType::Active => "active"@,
            MirrorType::Locked => "locked"@,
            MirrorType::Synced => "synced"@,
        }
    }

    /// The name of this state.
    pub fn as_str(&self) -> (s: &'static str)
        ensures
            s@ == self.name(),
    {
        match self {
            MirrorType::Active => "active",
            MirrorType::Locked => "locked",
            MirrorType::Synced => "synced",
        }
    }
}

/// The fixed label of a title classification.
pub open spec fn website_type_label(t: ToolLinkTitleType) -> Seq<char> {
    match t {
        ToolLinkTitleType::Official => "ÂÆòÊñπÁΩëÁ´ô"@,
        ToolLinkTitleType::Link => "È¶ñÂèëÈìæÊé•"@,
        ToolLinkTitleType::PageLink => "ÁΩëÈ°µÈìæÊé•"@,
        ToolLinkTitleType::Unofficial => "<b>ÈùûÂÆòÊñπ</b>È°µÈù¢"@,
        ToolLinkTitleType::OfficialLimited => "ÂÆòÊñπÁΩëÁ´ôÔºàÂõΩÂÜÖÊó†Ê≥ïËÆøÈóÆÔºâ"@,
    }
}

/// The fixed label of a title classification.
pub fn tool_website_type(t: ToolLinkTitleType) -> (label: &'static str)
    ensures
        label@ == website_type_label(t),
{
    match t {
        ToolLinkTitleType::Official => "ÂÆòÊñπÁΩëÁ´ô",
        ToolLinkTitleType::Link => "È¶ñÂèëÈìæÊé•",
        ToolLinkTitleType::PageLink => "ÁΩëÈ°µÈìæÊé•",
        ToolLinkTitleType::Unofficial => "<b>ÈùûÂÆòÊñπ</b>È°µÈù¢",
        ToolLinkTitleType::OfficialLimited => "ÂÆòÊñπÁΩëÁ´ôÔºàÂõΩÂÜÖÊó†Ê≥ïËÆøÈóÆÔºâ",
    }
}

/// The text that stands before the target of a link of kind `t`.
pub open spec fn link_prefix(t: ToolLinkType) -> Seq<char> {
    match t {
        ToolLinkType::R2 => "//r.ldtstore.com.cn/r2/"@,
        ToolLinkType::Mirror => "{{MIRROR}}"@,
    }
}

/// The text that stands before the target of a link of kind `t`.
pub fn tool_link_prefix(t: ToolLinkType) -> (prefix: &'static str)
    ensures
        prefix@ == link_prefix(t),
{
    match t {
        ToolLinkType::R2 => "//r.ldtstore.com.cn/r2/",
        ToolLinkType::Mirror => "{{MIRROR}}",
    }
}

/// The glyph of a link icon.
pub open spec fn icon_emoji(t: ToolLinkIcon) -> Seq<char> {
    match t {
        ToolLinkIcon::Link => "üîó"@,
        ToolLinkIcon::Download => "üíæ"@,
    }
}

/// The glyph of a link icon.
pub fn tool_icon_emoji(t: ToolLinkIcon) -> (glyph: &'static str)
    ensures
        glyph@ == icon_emoji(t),
{
    match t {
        ToolLinkIcon::Link => "üîó",
        ToolLinkIcon::Download => "üíæ",
    }
}

/// A navigation tile.
#[derive(Debug, PartialEq, Eq)]
pub struct Tile {
    /// The rendering hint: the class of tile to draw.
    pub tile: Option<String>,
    /// The heading level of the title, for a tile that shows text.
    pub font: Option<TileFont>,
    pub action: TileAction,
    /// The file type of the icon.
    pub icon_type: Option<String>,
    /// The stable key; what the action targets.
    pub name: String,
    pub title: Option<String>,
    /// The path of the icon, where it is not the name.
    pub icon: Option<String>,
}

/// A tile as plain values.
pub struct TileView {
    pub tile: Option<Seq<char>>,
    pub font: Option<TileFont>,
    pub action: TileAction,
    pub icon_type: Option<Seq<char>>,
    pub name: Seq<char>,
    pub title: Option<Seq<char>>,
    pub icon: Option<Seq<char>>,
}

impl DeepView for Tile {
    type V = TileView;

    open spec fn deep_view(&self) -> TileView {
        TileView {
            tile: self.tile.deep_view(),
            font: self.font,
            action: self.action,
            icon_type: self.icon_type.deep_view(),
            name: self.name@,
            title: self.title.deep_view(),
            icon: self.icon.deep_view(),
        }
    }
}

/// Columns of tiles.
pub type TileColumns = Vec<Vec<Tile>>;

/// A titled group of tiles in the middle region.
#[derive(Debug, PartialEq, Eq)]
pub struct TileGridMiddle {
    pub title: String,
    pub content: Vec<Tile>,
}

/// A titled group of tiles as plain values.
pub struct TileGroupView {
    pub title: Seq<char>,
    pub content: Seq<TileView>,
}

impl DeepView for TileGridMiddle {
    type V = TileGroupView;

    open spec fn deep_view(&self) -> TileGroupView {
        TileGroupView { title: self.title@, content: self.content.deep_view() }
    }
}

/// The two regions of a page of tiles.
#[derive(Debug, PartialEq, Eq)]
pub struct TileGrids {
    pub left: Vec<Tile>,
    pub middle: Vec<TileGridMiddle>,
}

/// The two regions as plain values.
pub struct TileGridsView {
    pub left: Seq<TileView>,
    pub middle: Seq<TileGroupView>,
}

impl DeepView for TileGrids {
    type V = TileGridsView;

    open spec fn deep_view(&self) -> TileGridsView {
        TileGridsView { left: self.left.deep_view(), middle: self.middle.deep_view() }
    }
}

/// A titled group of tiles in a category tab.
#[derive(Debug, PartialEq, Eq)]
pub struct CategoryGroup {
    pub title: String,
    pub content: Vec<Tile>,
}

impl DeepView for CategoryGroup {
    type V = TileGroupView;

    open spec fn deep_view(&self) -> TileGroupView {
        TileGroupView { title: self.title@, content: self.content.deep_view() }
    }
}

/// One tab of the category browser.
#[derive(Debug, PartialEq, Eq)]
pub struct CategoryTab {
    pub title: String,
    pub content: Vec<CategoryGroup>,
}

/// A category tab as plain values.
pub struct CategoryTabView {
    pub title: Seq<char>,
    pub content: Seq<TileGroupView>,
}

impl DeepView for CategoryTab {
    type V = CategoryTabView;

    open spec fn deep_view(&self) -> CategoryTabView {
        CategoryTabView { title: self.title@, content: self.content.deep_view() }
    }
}

/// The category browser: a tab of tool categories and a tab of links.
#[derive(Debug, PartialEq, Eq)]
pub struct Category {
    pub tool: CategoryTab,
    pub link: CategoryTab,
}

/// The category browser as plain values.
pub struct CategoryView {
    pub tool: CategoryTabView,
    pub link: CategoryTabView,
}

impl DeepView for Category {
    type V = CategoryView;

    open spec fn deep_view(&self) -> CategoryView {
        CategoryView { tool: self.tool.deep_view(), link: self.link.deep_view() }
    }
}

/// What the tiles of a template have in common.
#[derive(Debug, PartialEq, Eq)]
pub struct TileTemplateInner {
    pub tile: String,
    pub font: Option<TileFont>,
    pub action: TileAction,
    pub icon_type: Option<String>,
}

/// The shared part of a template as plain values.
pub struct TileTemplateInnerView {
    pub tile: Seq<char>,
    pub font: Option<TileFont>,
    pub action: TileAction,
    pub icon_type: Option<Seq<char>>,
}

impl DeepView for TileTemplateInner {
    type V = TileTemplateInnerView;

    open spec fn deep_view(&self) -> TileTemplateInnerView {
        TileTemplateInnerView {
            tile: self.tile@,
            font: self.font,
            action: self.action,
            icon_type: self.icon_type.deep_view(),
        }
    }
}

/// The tiles of a template: names alone, or names with their titles.
#[derive(Debug)]
pub enum TileTemplateTiles {
    WithoutTitle(Vec<String>),
    WithTitle(OrderedMap<String>),
}

/// The tiles of a template as plain values.
pub enum TileTemplateTilesView {
    WithoutTitle(Seq<Seq<char>>),
    WithTitle(Seq<(Seq<char>, Seq<char>)>),
}

impl DeepView for TileTemplateTiles {
    type V = TileTemplateTilesView;

    open spec fn deep_view(&self) -> TileTemplateTilesView {
        match self {
            TileTemplateTiles::WithoutTitle(names) => TileTemplateTilesView::WithoutTitle(
                names.deep_view(),
            ),
            TileTemplateTiles::WithTitle(titles) => TileTemplateTilesView::WithTitle(
                titles.deep_view(),
            ),
        }
    }
}

/// Many tiles of one make.
#[derive(Debug)]
pub struct TileTemplate {
    pub template: TileTemplateInner,
    pub tiles: TileTemplateTiles,
}

/// A template as plain values.
pub struct TileTemplateView {
    pub template: TileTemplateInnerView,
    pub tiles: TileTemplateTilesView,
}

impl DeepView for TileTemplate {
    type V = TileTemplateView;

    open spec fn deep_view(&self) -> TileTemplateView {
        TileTemplateView { template: self.template.deep_view(), tiles: self.tiles.deep_view() }
    }
}

/// A side panel. Its tiles are given either one by one or by a template.
#[derive(Debug)]
pub struct Side {
    pub name: String,
    pub title: String,
    pub text: Option<String>,
    pub text_small: Option<bool>,
    pub tiles: Option<Vec<Tile>>,
    pub templated: Option<TileTemplate>,
}

/// A side panel as plain values.
pub struct SideView {
    pub name: Seq<char>,
    pub title: Seq<char>,
    pub text: Option<Seq<char>>,
    pub text_small: Option<bool>,
    pub tiles: Option<Seq<TileView>>,
    pub templated: Option<TileTemplateView>,
}

impl DeepView for Side {
    type V = SideView;

    open spec fn deep_view(&self) -> SideView {
        SideView {
            name: self.name@,
            title: self.title@,
            text: self.text.deep_view(),
            text_small: self.text_small,
            tiles: self.tiles.deep_view(),
            templated: self.templated.deep_view(),
        }
    }
}

/// The title of a link: one of the fixed classifications, or free text.
#[derive(Debug, PartialEq, Eq)]
pub enum ToolLinkTitle {
    Type(ToolLinkTitleType),
    Text(String),
}

/// A link title as plain values.
pub enum ToolLinkTitleView {
    Type(ToolLinkTitleType),
    Text(Seq<char>),
}

impl DeepView for ToolLinkTitle {
    type V = ToolLinkTitleView;

    open spec fn deep_view(&self) -> ToolLinkTitleView {
        match self {
            ToolLinkTitle::Type(t) => ToolLinkTitleView::Type(*t),
            ToolLinkTitle::Text(s) => ToolLinkTitleView::Text(s@),
        }
    }
}

/// One row of a tool's links.
#[derive(Debug, PartialEq, Eq)]
pub struct ToolLink {
    pub title: ToolLinkTitle,
    pub link_type: ToolLinkType,
    pub link: String,
    pub icon: ToolLinkIcon,
}

/// A link row as plain values.
pub struct ToolLinkView {
    pub title: ToolLinkTitleView,
    pub link_type: ToolLinkType,
    pub link: Seq<char>,
    pub icon: ToolLinkIcon,
}

impl DeepView for ToolLink {
    type V = ToolLinkView;

    open spec fn deep_view(&self) -> ToolLinkView {
        ToolLinkView {
            title: self.title.deep_view(),
            link_type: self.link_type,
            link: self.link@,
            icon: self.icon,
        }
    }
}

/// The links of a tool as the configuration gives them.
#[derive(Debug)]
pub struct ToolLinks {
    /// The one canonical website.
    pub website: Option<ToolLinkTitle>,
    /// Named alternative websites.
    pub websites: Option<OrderedMap<ToolLinkTitle>>,
    /// Named downloads.
    pub downloads: Option<OrderedMap<String>>,
    /// The state of the one mirror.
    pub mirror: Option<MirrorType>,
    /// Named mirrors.
    pub mirrors: Option<OrderedMap<String>>,
    /// Whether the links are shown in columns.
    pub columns: Option<bool>,
}

/// The links of a tool as plain values.
pub struct ToolLinksView {
    pub website: Option<ToolLinkTitleView>,
    pub websites: Option<Seq<(Seq<char>, ToolLinkTitleView)>>,
    pub downloads: Option<Seq<(Seq<char>, Seq<char>)>>,
    pub mirror: Option<MirrorType>,
    pub mirrors: Option<Seq<(Seq<char>, Seq<char>)>>,
    pub columns: Option<bool>,
}

impl DeepView for ToolLinks {
    type V = ToolLinksView;

    open spec fn deep_view(&self) -> ToolLinksView {
        ToolLinksView {
            website: self.website.deep_view(),
            websites: self.websites.deep_view(),
            downloads: self.downloads.deep_view(),
            mirror: self.mirror,
            mirrors: self.mirrors.deep_view(),
            columns: self.columns,
        }
    }
}

/// A tool of the listing.
#[derive(Debug)]
pub struct Tool {
    pub name: String,
    pub title: String,
    pub icon: Option<String>,
    pub description: Option<String>,
    pub notice: Option<String>,
    /// The categories that the tool is filed under.
    pub category: Option<Vec<String>>,
    /// The cross-reference tags of the tool.
    pub cross: Option<Vec<String>>,
    pub keywords: Option<String>,
    /// Notices by cross-reference tag.
    pub cross_notice: Option<OrderedMap<String>>,
    pub links: ToolLinks,
}

/// A tool as plain values.
pub struct ToolView {
    pub name: Seq<char>,
    pub title: Seq<char>,
    pub icon: Option<Seq<char>>,
    pub description: Option<Seq<char>>,
    pub notice: Option<Seq<char>>,
    pub category: Option<Seq<Seq<char>>>,
    pub cross: Option<Seq<Seq<char>>>,
    pub keywords: Option<Seq<char>>,
    pub cross_notice: Option<Seq<(Seq<char>, Seq<char>)>>,
    pub links: ToolLinksView,
}

impl DeepView for Tool {
    type V = ToolView;

    open spec fn deep_view(&self) -> ToolView {
        ToolView {
            name: self.name@,
            title: self.title@,
            icon: self.icon.deep_view(),
            description: self.description.deep_view(),
            notice: self.notice.deep_view(),
            category: self.category.deep_view(),
            cross: self.cross.deep_view(),
            keywords: self.keywords.deep_view(),
            cross_notice: self.cross_notice.deep_view(),
            links: self.links.deep_view(),
        }
    }
}

/// A named, titled bucket of tools.
#[derive(Debug)]
pub struct ToolGroup {
    pub name: Option<String>,
    pub title: Option<String>,
    /// The notice for the cross-reference tags of the group's tools, where a
    /// tool gives none of its own.
    pub cross_notice: Option<String>,
    pub list: Vec<Tool>,
}

/// A bucket of tools as plain values.
pub struct ToolGroupView {
    pub name: Option<Seq<char>>,
    pub title: Option<Seq<char>>,
    pub cross_notice: Option<Seq<char>>,
    pub list: Seq<ToolView>,
}

impl DeepView for ToolGroup {
    type V = ToolGroupView;

    open spec fn deep_view(&self) -> ToolGroupView {
        ToolGroupView {
            name: self.name.deep_view(),
            title: self.title.deep_view(),
            cross_notice: self.cross_notice.deep_view(),
            list: self.list.deep_view(),
        }
    }
}

impl DeepView for TileFont {
    type V = TileFont;

    open spec fn deep_view(&self) -> TileFont {
        *self
    }
}

impl DeepView for TileAction {
    type V = TileAction;

    open spec fn deep_view(&self) -> TileAction {
        *self
    }
}

impl DeepView for MirrorType {
    type V = MirrorType;

    open spec fn deep_view(&self) -> MirrorType {
        *self
    }
}

impl DeepView for PageType {
    type V = PageType;

    open spec fn deep_view(&self) -> PageType {
        *self
    }
}

impl DeepView for InputType {
    type V = InputType;

    open spec fn deep_view(&self) -> InputType {
        *self
    }
}

impl DeepView for ToolLinkType {
    type V = ToolLinkType;

    open spec fn deep_view(&self) -> ToolLinkType {
        *self
    }
}

impl DeepView for ToolLinkIcon {
    type V = ToolLinkIcon;

    open spec fn deep_view(&self) -> ToolLinkIcon {
        *self
    }
}

impl DeepView for ToolLinkTitleType {
    type V = ToolLinkTitleType;

    open spec fn deep_view(&self) -> ToolLinkTitleType {
        *self
    }
}

} // verus!
