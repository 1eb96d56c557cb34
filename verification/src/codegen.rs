//! The transformer: from the parsed configuration to the dynamic inserts of
//! the three pages.

use crate::config::{
    Category, CategoryView, Side, SideView, Tile, TileColumns, TileGrids, TileGridsView, TileView,
    ToolGroup, ToolGroupView,
};
use crate::data::{build_tool_data, data_defect, tool_data, GlobalData};
use crate::json::{home_json, tool_page_json, Json};
use crate::ordered::entry_keys;
use crate::render::{
    check_each, defect_each, first_of, markup_each, render_each, reports, Fragment,
    SemanticError, SemanticErrorView,
};
use crate::substitute::{collect_inserts, Inserts};
use crate::tools::{plain_each, render_plain_each};
use vstd::prelude::*;
use vstd::string::*;

verus! {

/// The parsed configuration of both pages.
#[derive(Debug)]
pub struct Sources {
    /// The tiles of the home page.
    pub home_major: TileGrids,
    /// The side panels of the home page.
    pub home_sides: Vec<Side>,
    /// The tiles of the tool page.
    pub tool_major: TileColumns,
    /// The side panels of the tool page.
    pub tool_sides: Vec<Side>,
    /// The category browser of the tool page.
    pub category: Category,
    /// The tools of the tool page.
    pub tools: Vec<ToolGroup>,
}

/// The parsed configuration as plain values.
pub struct SourcesView {
    pub home_major: TileGridsView,
    pub home_sides: Seq<SideView>,
    pub tool_major: Seq<Seq<TileView>>,
    pub tool_sides: Seq<SideView>,
    pub category: CategoryView,
    pub tools: Seq<ToolGroupView>,
}

impl DeepView for Sources {
    type V = SourcesView;

    open spec fn deep_view(&self) -> SourcesView {
        SourcesView {
            home_major: self.home_major.deep_view(),
            home_sides: self.home_sides.deep_view(),
            tool_major: self.tool_major.deep_view(),
            tool_sides: self.tool_sides.deep_view(),
            category: self.category.deep_view(),
            tools: self.tools.deep_view(),
        }
    }
}

/// The dynamic inserts of the three pages.
#[derive(Debug)]
pub struct CodegenResult {
    /// For the home page.
    pub home: Inserts,
    /// For the tool page.
    pub tools: Inserts,
    /// For the tool page that works without scripts.
    pub tools_plain: Inserts,
}

/// The first rule that a part of the configuration breaks by itself, if one
/// does. The parts are looked at in a fixed order: the home page's tiles
/// and panels, the tool page's tiles and panels, the categories, and the
/// tools one by one.
pub open spec fn parts_defect(v: SourcesView) -> Option<SemanticErrorView> {
    first_of(
        TileGrids::defect(v.home_major),
        first_of(
            defect_each::<Side>(v.home_sides),
            first_of(
                defect_each::<Vec<Tile>>(v.tool_major),
                first_of(
                    defect_each::<Side>(v.tool_sides),
                    first_of(Category::defect(v.category), defect_each::<ToolGroup>(v.tools)),
                ),
            ),
        ),
    )
}

/// The first rule that the configuration breaks, if it breaks one: a rule
/// that a part breaks by itself, or else a rule that the tools break
/// together.
pub open spec fn sources_defect(v: SourcesView) -> Option<SemanticErrorView> {
    first_of(parts_defect(v), data_defect(v.tools, v.category.tool))
}

/// The element that hands a page's data to its scripts.
pub open spec fn data_element(json: Seq<char>) -> Seq<char> {
    "<script>window.__DATA__="@ + json + "</script>"@
}

/// The inserts of the home page: tiles, panels, data.
pub open spec fn home_entries(v: SourcesView) -> Seq<(Seq<char>, Seq<char>)> {
    seq![
        ("<!--{{codegen-major}}-->"@, TileGrids::markup(v.home_major)),
        ("<!--{{codegen-sides}}-->"@, markup_each::<Side>(v.home_sides)),
        ("<!--{{codegen-data}}-->"@, data_element(home_json())),
    ]
}

/// The inserts of the tool page: tiles, panels with the category browser,
/// the tool listing, data.
pub open spec fn tools_entries(v: SourcesView) -> Seq<(Seq<char>, Seq<char>)> {
    seq![
        ("<!--{{codegen-major}}-->"@, markup_each::<Vec<Tile>>(v.tool_major)),
        (
            "<!--{{codegen-sides}}-->"@,
            markup_each::<Side>(v.tool_sides) + Category::markup(v.category),
        ),
        ("<!--{{codegen-tools}}-->"@, markup_each::<ToolGroup>(v.tools)),
        (
            "<!--{{codegen-data}}-->"@,
            data_element(tool_page_json(tool_data(v.tools, v.category.tool))),
        ),
    ]
}

/// The inserts of the plain tool page: the tool listing.
pub open spec fn plain_entries(v: SourcesView) -> Seq<(Seq<char>, Seq<char>)> {
    seq![("<!--{{codegen-plain}}-->"@, plain_each::<ToolGroup>(v.tools))]
}

/// The four tokens of the pages differ from one another.
proof fn lemma_tokens_differ()
    ensures
        "<!--{{codegen-major}}-->"@ != "<!--{{codegen-sides}}-->"@,
        "<!--{{codegen-major}}-->"@ != "<!--{{codegen-tools}}-->"@,
        "<!--{{codegen-major}}-->"@ != "<!--{{codegen-data}}-->"@,
        "<!--{{codegen-sides}}-->"@ != "<!--{{codegen-tools}}-->"@,
        "<!--{{codegen-sides}}-->"@ != "<!--{{codegen-data}}-->"@,
        "<!--{{codegen-tools}}-->"@ != "<!--{{codegen-data}}-->"@,
{
    reveal_strlit("<!--{{codegen-major}}-->");
    reveal_strlit("<!--{{codegen-sides}}-->");
    reveal_strlit("<!--{{codegen-tools}}-->");
    reveal_strlit("<!--{{codegen-data}}-->");
    assert("<!--{{codegen-major}}-->"@[14] == 'm');
    assert("<!--{{codegen-sides}}-->"@[14] == 's');
    assert("<!--{{codegen-tools}}-->"@[14] == 't');
    assert("<!--{{codegen-data}}-->"@[14] == 'd');
}

/// Checks every part of the configuration against the rules.
pub fn check_sources(sources: &Sources) -> (r: Result<(), SemanticError>)
    ensures
        reports(r, parts_defect(sources.deep_view())),
{
    sources.home_major.check()?;
    check_each(&sources.home_sides)?;
    check_each(&sources.tool_major)?;
    check_each(&sources.tool_sides)?;
    sources.category.check()?;
    check_each(&sources.tools)
}

/// Makes the element that hands `json` to the page's scripts.
fn data_insert(json: &str) -> (text: String)
    ensures
        text@ == data_element(json@),
{
    let mut text = String::from_str("<script>window.__DATA__=");
    text.append(json);
    text.append("</script>");
    text
}

/// A mapping of entries whose tokens are known to differ.
fn distinct_inserts(entries: Vec<(String, String)>) -> (inserts: Inserts)
    requires
        entry_keys(entries.deep_view()).no_duplicates(),
    ensures
        inserts.deep_view() == entries.deep_view(),
{
    match collect_inserts(entries) {
        Some(inserts) => inserts,
        None => {
            proof {
                assert(false);
            }
            Inserts::new()
        },
    }
}

/// Makes the inserts of the home page.
pub fn home_inserts(sources: &Sources) -> (inserts: Inserts)
    ensures
        inserts.deep_view() == home_entries(sources.deep_view()),
{
    let major = sources.home_major.render();
    let sides = render_each(&sources.home_sides);
    let data = data_insert(GlobalData::Home.to_json().as_str());
    let mut entries: Vec<(String, String)> = Vec::new();
    entries.push((String::from_str("<!--{{codegen-major}}-->"), major));
    entries.push((String::from_str("<!--{{codegen-sides}}-->"), sides));
    entries.push((String::from_str("<!--{{codegen-data}}-->"), data));
    proof {
        lemma_tokens_differ();
        assert(entries.deep_view() =~= home_entries(sources.deep_view()));
    }
    distinct_inserts(entries)
}

/// Makes the inserts of the tool page. `json` is the page's data as JSON.
fn tool_page_inserts(sources: &Sources, json: &str) -> (inserts: Inserts)
    ensures
        inserts.deep_view() == seq![
            (
                "<!--{{codegen-major}}-->"@,
                markup_each::<Vec<Tile>>(sources.deep_view().tool_major),
            ),
            (
                "<!--{{codegen-sides}}-->"@,
                markup_each::<Side>(sources.deep_view().tool_sides) + Category::markup(
                    sources.deep_view().category,
                ),
            ),
            ("<!--{{codegen-tools}}-->"@, markup_each::<ToolGroup>(sources.deep_view().tools)),
            ("<!--{{codegen-data}}-->"@, data_element(json@)),
        ],
{
    let major = render_each(&sources.tool_major);
    let mut sides = render_each(&sources.tool_sides);
    sides.append(sources.category.render().as_str());
    let listing = render_each(&sources.tools);
    let data = data_insert(json);
    let ghost expected = seq![
        ("<!--{{codegen-major}}-->"@, major@),
        ("<!--{{codegen-sides}}-->"@, sides@),
        ("<!--{{codegen-tools}}-->"@, listing@),
        ("<!--{{codegen-data}}-->"@, data@),
    ];
    let mut entries: Vec<(String, String)> = Vec::new();
    entries.push((String::from_str("<!--{{codegen-major}}-->"), major));
    entries.push((String::from_str("<!--{{codegen-sides}}-->"), sides));
    entries.push((String::from_str("<!--{{codegen-tools}}-->"), listing));
    entries.push((String::from_str("<!--{{codegen-data}}-->"), data));
    proof {
        lemma_tokens_differ();
        assert(entries.deep_view() =~= expected);
    }
    distinct_inserts(entries)
}

/// Makes the inserts of the plain tool page.
pub fn plain_inserts(sources: &Sources) -> (inserts: Inserts)
    ensures
        inserts.deep_view() == plain_entries(sources.deep_view()),
{
    let plain = render_plain_each(&sources.tools);
    let mut entries: Vec<(String, String)> = Vec::new();
    entries.push((String::from_str("<!--{{codegen-plain}}-->"), plain));
    proof {
        assert(entries.deep_view() =~= plain_entries(sources.deep_view()));
    }
    distinct_inserts(entries)
}

/// Derives the dynamic inserts of the three pages from the configuration.
/// A configuration that breaks a rule yields no inserts at all, but the
/// first rule that it breaks.
pub fn codegen(sources: &Sources) -> (r: Result<CodegenResult, SemanticError>)
    ensures
        match sources_defect(sources.deep_view()) {
            Some(e) => r is Err && r->Err_0.deep_view() == e,
            None => {
                &&& r is Ok
                &&& r->Ok_0.home.deep_view() == home_entries(sources.deep_view())
                &&& r->Ok_0.tools.deep_view() == tools_entries(sources.deep_view())
                &&& r->Ok_0.tools_plain.deep_view() == plain_entries(sources.deep_view())
            },
        },
{
    check_sources(sources)?;
    let data = build_tool_data(&sources.tools, &sources.category.tool)?;
    let page_data = GlobalData::Tool { tool: data };
    let json = page_data.to_json();
    let home = home_inserts(sources);
    let tools = tool_page_inserts(sources, json.as_str());
    let tools_plain = plain_inserts(sources);
    Ok(CodegenResult { home, tools, tools_plain })
}

} // verus!
