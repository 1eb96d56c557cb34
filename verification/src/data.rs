//! The indices that the tool page looks tools up in. They are derived from
//! the tool groups and the category tab, in the order of the configuration.

use crate::config::{
    CategoryTab, CategoryTabView, Tile, TileGroupView, TileView, Tool, ToolGroup, ToolGroupView,
    ToolView,
};
use crate::ordered::{entry_keys, entry_value, OrderedMap};
use crate::render::{first_of, Rule, SemanticError, SemanticErrorView};
use crate::text::str_eq;
use vstd::prelude::*;

verus! {

/// What the index knows of a tool.
#[derive(Debug, PartialEq, Eq)]
pub struct ToolIndexItem {
    pub title: String,
    /// The groups that the tool belongs to.
    pub list: Vec<String>,
    /// The cross-reference tags of the tool.
    pub cross_list: Vec<String>,
}

/// An index item as plain values.
pub struct ToolIndexItemView {
    pub title: Seq<char>,
    pub list: Seq<Seq<char>>,
    pub cross_list: Seq<Seq<char>>,
}

impl DeepView for ToolIndexItem {
    type V = ToolIndexItemView;

    open spec fn deep_view(&self) -> ToolIndexItemView {
        ToolIndexItemView {
            title: self.title@,
            list: self.list.deep_view(),
            cross_list: self.cross_list.deep_view(),
        }
    }
}

/// A category with the tools filed under it.
#[derive(Debug, PartialEq, Eq)]
pub struct ToolCategoryItem {
    pub title: String,
    pub list: Vec<String>,
}

/// A category item as plain values.
pub struct ToolCategoryItemView {
    pub title: Seq<char>,
    pub list: Seq<Seq<char>>,
}

impl DeepView for ToolCategoryItem {
    type V = ToolCategoryItemView;

    open spec fn deep_view(&self) -> ToolCategoryItemView {
        ToolCategoryItemView { title: self.title@, list: self.list.deep_view() }
    }
}

/// From a tool's name to what the index knows of it.
pub type ToolIndex = OrderedMap<ToolIndexItem>;

/// From a category's name to the category.
pub type ToolCategory = OrderedMap<ToolCategoryItem>;

/// From a tool's name to its title.
pub type ToolAll = OrderedMap<String>;

/// From a tool's name to the notices of its cross-reference tags.
pub type ToolCross = OrderedMap<OrderedMap<String>>;

/// The indices of the tool page.
#[derive(Debug)]
pub struct ToolData {
    pub index: ToolIndex,
    pub category: ToolCategory,
    pub all: ToolAll,
    pub cross: ToolCross,
}

/// The indices as plain values.
pub struct ToolDataView {
    pub index: Seq<(Seq<char>, ToolIndexItemView)>,
    pub category: Seq<(Seq<char>, ToolCategoryItemView)>,
    pub all: Seq<(Seq<char>, Seq<char>)>,
    pub cross: Seq<(Seq<char>, Seq<(Seq<char>, Seq<char>)>)>,
}

impl DeepView for ToolData {
    type V = ToolDataView;

    open spec fn deep_view(&self) -> ToolDataView {
        ToolDataView {
            index: self.index.deep_view(),
            category: self.category.deep_view(),
            all: self.all.deep_view(),
            cross: self.cross.deep_view(),
        }
    }
}

/// The data that a page carries for its scripts.
#[derive(Debug)]
pub enum GlobalData {
    Home,
    Tool { tool: ToolData },
}

/// A tool together with what its group gives it.
pub struct Listed {
    pub group_name: Option<Seq<char>>,
    pub group_notice: Option<Seq<char>>,
    pub tool: ToolView,
}

/// The tools of one group.
pub open spec fn listed_in(g: ToolGroupView) -> Seq<Listed> {
    Seq::new(
        g.list.len(),
        |i: int| Listed { group_name: g.name, group_notice: g.cross_notice, tool: g.list[i] },
    )
}

/// All tools in the order of the configuration: group after group, and in
/// each group tool after tool.
pub open spec fn listing(groups: Seq<ToolGroupView>) -> Seq<Listed>
    decreases groups.len(),
{
    if groups.len() == 0 {
        Seq::empty()
    } else {
        listing(groups.drop_last()) + listed_in(groups.last())
    }
}

/// A tool and the group that lists it.
pub struct ListedTool<'a> {
    pub group: &'a ToolGroup,
    pub tool: &'a Tool,
}

impl<'a> DeepView for ListedTool<'a> {
    type V = Listed;

    open spec fn deep_view(&self) -> Listed {
        Listed {
            group_name: self.group.name.deep_view(),
            group_notice: self.group.cross_notice.deep_view(),
            tool: self.tool.deep_view(),
        }
    }
}

/// Lists all tools in the order of the configuration.
pub fn list_tools<'a>(groups: &'a Vec<ToolGroup>) -> (flat: Vec<ListedTool<'a>>)
    ensures
        flat.deep_view() == listing(groups.deep_view()),
{
    let mut flat: Vec<ListedTool<'a>> = Vec::new();
    let mut g: usize = 0;
    proof {
        assert(groups.deep_view().take(0) =~= Seq::empty());
    }
    while g < groups.len()
        invariant
            g <= groups.len(),
            flat.deep_view() == listing(groups.deep_view().take(g as int)),
        decreases groups.len() - g,
    {
        let group = &groups[g];
        let ghost done = flat.deep_view();
        let mut t: usize = 0;
        while t < group.list.len()
            invariant
                t <= group.list.len(),
                flat.deep_view() == done + listed_in(group.deep_view()).take(t as int),
            decreases group.list.len() - t,
        {
            let ghost before = flat.deep_view();
            let item = ListedTool { group, tool: &group.list[t] };
            flat.push(item);
            proof {
                assert(item.deep_view() == listed_in(group.deep_view())[t as int]);
                assert(flat.deep_view() =~= before.push(item.deep_view()));
                assert(flat.deep_view() =~= done + listed_in(group.deep_view()).take(t + 1));
            }
            t += 1;
        }
        proof {
            let all = groups.deep_view();
            assert(listed_in(group.deep_view()).take(t as int) =~= listed_in(group.deep_view()));
            assert(all.take(g + 1).drop_last() =~= all.take(g as int));
            assert(all.take(g + 1).last() == group.deep_view());
        }
        g += 1;
    }
    proof {
        assert(groups.deep_view().take(g as int) =~= groups.deep_view());
    }
    flat
}

/// The names of the tools of a listing, in its order.
pub open spec fn names(l: Seq<Listed>) -> Seq<Seq<char>> {
    Seq::new(l.len(), |i: int| l[i].tool.name)
}

/// The first name that stands in `names` behind an equal name.
pub open spec fn first_repeat(names: Seq<Seq<char>>) -> Option<Seq<char>>
    decreases names.len(),
{
    if names.len() == 0 {
        None
    } else {
        match first_repeat(names.drop_last()) {
            Some(name) => Some(name),
            None => if names.drop_last().contains(names.last()) {
                Some(names.last())
            } else {
                None
            },
        }
    }
}

/// A repeat found among the first `n` names is the first repeat of all.
pub proof fn lemma_repeat_stays(names: Seq<Seq<char>>, n: int)
    requires
        0 <= n <= names.len(),
        first_repeat(names.take(n)) is Some,
    ensures
        first_repeat(names) == first_repeat(names.take(n)),
    decreases names.len() - n,
{
    if n < names.len() {
        assert(names.take(n + 1).drop_last() =~= names.take(n));
        lemma_repeat_stays(names, n + 1);
    } else {
        assert(names.take(n) =~= names);
    }
}

/// Names without a repeat are all different, and the other way round.
pub proof fn lemma_no_repeat(names: Seq<Seq<char>>)
    ensures
        first_repeat(names) is None <==> names.no_duplicates(),
    decreases names.len(),
{
    if names.len() > 0 {
        let front = names.drop_last();
        lemma_no_repeat(front);
        if first_repeat(names) is None {
            assert forall|i: int, j: int|
                0 <= i < names.len() && 0 <= j < names.len() && i != j implies names[i]
                != names[j] by {
                if i < front.len() && j < front.len() {
                    assert(front[i] == names[i] && front[j] == names[j]);
                } else if i < front.len() {
                    assert(front[i] == names[i]);
                } else {
                    assert(front[j] == names[j]);
                }
            }
        } else if first_repeat(front) is Some {
            let (i, j) = choose|i: int, j: int|
                0 <= i < front.len() && 0 <= j < front.len() && i != j && front[i] == front[j];
            assert(names[i] == names[j]);
        } else {
            let i = choose|i: int| 0 <= i < front.len() && front[i] == names.last();
            assert(names[i] == names[names.len() - 1]);
        }
    }
}

/// The flat index: every tool's title under the tool's name.
pub open spec fn all_entries(l: Seq<Listed>) -> Seq<(Seq<char>, Seq<char>)> {
    Seq::new(l.len(), |i: int| (l[i].tool.name, l[i].tool.title))
}

/// What the index knows of a listed tool: its title, the group that lists
/// it, where that group has a name, and its cross-reference tags.
pub open spec fn index_item(x: Listed) -> ToolIndexItemView {
    ToolIndexItemView {
        title: x.tool.title,
        list: match x.group_name {
            Some(name) => seq![name],
            None => Seq::empty(),
        },
        cross_list: match x.tool.cross {
            Some(tags) => tags,
            None => Seq::empty(),
        },
    }
}

/// The tool index: every tool's item under the tool's name.
pub open spec fn index_entries(l: Seq<Listed>) -> Seq<(Seq<char>, ToolIndexItemView)> {
    Seq::new(l.len(), |i: int| (l[i].tool.name, index_item(l[i])))
}

/// The notice of a listed tool for a cross-reference tag: the tool's own
/// notice for the tag, or else the notice of its group.
pub open spec fn notice_for(x: Listed, tag: Seq<char>) -> Option<Seq<char>> {
    match x.tool.cross_notice {
        Some(own) => match entry_value(own, tag) {
            Some(notice) => Some(notice),
            None => x.group_notice,
        },
        None => x.group_notice,
    }
}

/// The notices of a listed tool for the given tags, in the order of the
/// tags. A tag without a notice is left out, and so is a tag that came
/// before.
pub open spec fn notices(x: Listed, tags: Seq<Seq<char>>) -> Seq<(Seq<char>, Seq<char>)>
    decreases tags.len(),
{
    if tags.len() == 0 {
        Seq::empty()
    } else {
        let front = notices(x, tags.drop_last());
        if entry_keys(front).contains(tags.last()) {
            front
        } else {
            match notice_for(x, tags.last()) {
                Some(notice) => front.push((tags.last(), notice)),
                None => front,
            }
        }
    }
}

/// The notices of a listed tool for its cross-reference tags.
pub open spec fn tool_notices(x: Listed) -> Seq<(Seq<char>, Seq<char>)> {
    notices(
        x,
        match x.tool.cross {
            Some(tags) => tags,
            None => Seq::empty(),
        },
    )
}

/// The cross-reference table: under the name of every tool that has
/// notices, its notices.
pub open spec fn cross_entries(l: Seq<Listed>) -> Seq<(Seq<char>, Seq<(Seq<char>, Seq<char>)>)>
    decreases l.len(),
{
    if l.len() == 0 {
        Seq::empty()
    } else if tool_notices(l.last()).len() > 0 {
        cross_entries(l.drop_last()).push((l.last().tool.name, tool_notices(l.last())))
    } else {
        cross_entries(l.drop_last())
    }
}

/// Every key of the cross-reference table is the name of a listed tool.
pub proof fn lemma_cross_keys(l: Seq<Listed>, key: Seq<char>)
    requires
        entry_keys(cross_entries(l)).contains(key),
    ensures
        names(l).contains(key),
    decreases l.len(),
{
    let keys = entry_keys(cross_entries(l));
    let i = choose|i: int| 0 <= i < keys.len() && keys[i] == key;
    if l.len() > 0 {
        let front = cross_entries(l.drop_last());
        if i < front.len() {
            assert(entry_keys(front)[i] == key);
            lemma_cross_keys(l.drop_last(), key);
            let j = choose|j: int|
                0 <= j < names(l.drop_last()).len() && names(l.drop_last())[j] == key;
            assert(names(l)[j] == key);
        } else {
            assert(names(l)[l.len() - 1] == key);
        }
    }
}

/// A copy of a list of texts.
pub fn clone_texts(texts: &Vec<String>) -> (copy: Vec<String>)
    ensures
        copy.deep_view() == texts.deep_view(),
{
    let mut copy: Vec<String> = Vec::new();
    let mut i: usize = 0;
    while i < texts.len()
        invariant
            i <= texts.len(),
            copy.deep_view() == texts.deep_view().take(i as int),
        decreases texts.len() - i,
    {
        let ghost before = copy.deep_view();
        copy.push(texts[i].clone());
        proof {
            assert(copy.deep_view() =~= before.push(texts[i as int]@));
            assert(copy.deep_view() =~= texts.deep_view().take(i + 1));
        }
        i += 1;
    }
    proof {
        assert(texts.deep_view().take(i as int) =~= texts.deep_view());
    }
    copy
}

impl<'a> ListedTool<'a> {
    /// What the index knows of this tool.
    pub fn index_item(&self) -> (item: ToolIndexItem)
        ensures
            item.deep_view() == index_item(self.deep_view()),
    {
        let mut list: Vec<String> = Vec::new();
        match &self.group.name {
            Some(name) => {
                list.push(name.clone());
                proof {
                    assert(list.deep_view() =~= seq![name@]);
                }
            },
            None => {
                proof {
                    assert(list.deep_view() =~= Seq::empty());
                }
            },
        }
        let cross_list = match &self.tool.cross {
            Some(tags) => clone_texts(tags),
            None => {
                let none: Vec<String> = Vec::new();
                proof {
                    assert(none.deep_view() =~= Seq::empty());
                }
                none
            },
        };
        ToolIndexItem { title: self.tool.title.clone(), list, cross_list }
    }

    /// The notice of this tool for a cross-reference tag.
    pub fn notice_for(&self, tag: &str) -> (notice: Option<&String>)
        ensures
            notice.deep_view() == notice_for(self.deep_view(), tag@),
    {
        match &self.tool.cross_notice {
            Some(own) => {
                let n = own.len();
                proof {
                    own.lemma_entry_keys();
                }
                match own.get(tag) {
                    Some(notice) => Some(notice),
                    None => self.group.cross_notice.as_ref(),
                }
            },
            None => self.group.cross_notice.as_ref(),
        }
    }

    /// The notices of this tool for its cross-reference tags.
    pub fn notices(&self) -> (found: OrderedMap<String>)
        ensures
            found.deep_view() == tool_notices(self.deep_view()),
    {
        let mut found: OrderedMap<String> = OrderedMap::new();
        let ghost x = self.deep_view();
        proof {
            assert(found.deep_view() =~= Seq::empty());
        }
        match &self.tool.cross {
            Some(tags) => {
                let mut i: usize = 0;
                proof {
                    assert(tags.deep_view().take(0) =~= Seq::empty());
                }
                while i < tags.len()
                    invariant
                        i <= tags.len(),
                        x == self.deep_view(),
                        found.keys().len() == found.values().len(),
                        found.deep_view() == notices(x, tags.deep_view().take(i as int)),
                    decreases tags.len() - i,
                {
                    let ghost before = found.deep_view();
                    proof {
                        let all = tags.deep_view();
                        assert(all.take(i + 1).drop_last() =~= all.take(i as int));
                        assert(all.take(i + 1).last() == tags[i as int]@);
                        found.lemma_entry_keys();
                    }
                    let tag = &tags[i];
                    if !found.contains_key(tag.as_str()) {
                        match self.notice_for(tag.as_str()) {
                            Some(notice) => {
                                let previous = found.insert(tag.clone(), notice.clone());
                                proof {
                                    assert(previous is None);
                                    assert(found.deep_view() =~= before.push((tag@, notice@)));
                                }
                            },
                            None => {},
                        }
                    }
                    i += 1;
                }
                proof {
                    assert(tags.deep_view().take(i as int) =~= tags.deep_view());
                }
            },
            None => {},
        }
        found
    }
}

/// The defect of a listing in which two tools have one name: the first
/// name that repeats an earlier one.
pub open spec fn duplicate_defect(l: Seq<Listed>) -> Option<SemanticErrorView> {
    match first_repeat(names(l)) {
        Some(name) => Some(SemanticErrorView { rule: Rule::DuplicateTool, subject: name }),
        None => None,
    }
}

/// Builds the flat index, the tool index and the cross-reference table.
/// Each gets its entries in the order of the listing. Two tools with one
/// name are an error.
pub fn index_tools<'a>(flat: &Vec<ListedTool<'a>>) -> (r: Result<
    (ToolAll, ToolIndex, ToolCross),
    SemanticError,
>)
    ensures
        match duplicate_defect(flat.deep_view()) {
            Some(e) => r is Err && r->Err_0.deep_view() == e,
            None => {
                &&& r is Ok
                &&& r->Ok_0.0.deep_view() == all_entries(flat.deep_view())
                &&& r->Ok_0.1.deep_view() == index_entries(flat.deep_view())
                &&& r->Ok_0.2.deep_view() == cross_entries(flat.deep_view())
            },
        },
{
    let ghost l = flat.deep_view();
    let mut all: ToolAll = OrderedMap::new();
    let mut index: ToolIndex = OrderedMap::new();
    let mut cross: ToolCross = OrderedMap::new();
    let mut i: usize = 0;
    proof {
        assert(l.take(0) =~= Seq::empty());
        assert(names(l.take(0)) =~= Seq::empty());
        assert(cross.deep_view() =~= Seq::empty());
    }
    while i < flat.len()
        invariant
            i <= flat.len(),
            l == flat.deep_view(),
            first_repeat(names(l.take(i as int))) is None,
            all.keys() == names(l.take(i as int)),
            all.values().len() == i,
            forall|j: int| 0 <= j < i ==> (#[trigger] all.values()[j])@ == l[j].tool.title,
            index.keys() == names(l.take(i as int)),
            index.values().len() == i,
            forall|j: int|
                0 <= j < i ==> (#[trigger] index.values()[j]).deep_view() == index_item(l[j]),
            cross.keys().len() == cross.values().len(),
            cross.deep_view() == cross_entries(l.take(i as int)),
        decreases flat.len() - i,
    {
        let item = &flat[i];
        let ghost seen = names(l.take(i as int));
        let ghost cross_before = cross.deep_view();
        proof {
            assert(l.take(i + 1).drop_last() =~= l.take(i as int));
            assert(l.take(i + 1).last() == item.deep_view());
            assert(names(l.take(i + 1)) =~= seen.push(item.tool.name@));
            assert(names(l.take(i + 1)).drop_last() =~= seen);
        }
        match all.insert(item.tool.name.clone(), item.tool.title.clone()) {
            Some(_) => {
                proof {
                    assert(names(l).take(i + 1) =~= names(l.take(i + 1)));
                    lemma_repeat_stays(names(l), i + 1);
                }
                return Err(
                    SemanticError { rule: Rule::DuplicateTool, subject: item.tool.name.clone() },
                );
            },
            None => {},
        }
        let previous = index.insert(item.tool.name.clone(), item.index_item());
        assert(previous is None);
        let found = item.notices();
        if found.len() > 0 {
            proof {
                cross.lemma_entry_keys();
                if cross.keys().contains(item.tool.name@) {
                    lemma_cross_keys(l.take(i as int), item.tool.name@);
                }
            }
            let previous = cross.insert(item.tool.name.clone(), found);
            proof {
                assert(previous is None);
                assert(cross.deep_view() =~= cross_before.push(
                    (item.tool.name@, found.deep_view()),
                ));
            }
        }
        i += 1;
    }
    proof {
        assert(l.take(i as int) =~= l);
        assert(all.deep_view() =~= all_entries(l));
        assert(index.deep_view() =~= index_entries(l));
    }
    Ok((all, index, cross))
}

/// The categories that a listed tool is filed under.
pub open spec fn tool_tags(x: Listed) -> Seq<Seq<char>> {
    match x.tool.category {
        Some(tags) => tags,
        None => Seq::empty(),
    }
}

/// The category tags of all tools, in the order of the listing.
pub open spec fn all_tags(l: Seq<Listed>) -> Seq<Seq<char>>
    decreases l.len(),
{
    if l.len() == 0 {
        Seq::empty()
    } else {
        all_tags(l.drop_last()) + tool_tags(l.last())
    }
}

/// The different texts of `s`, each at the place of its first occurrence.
pub open spec fn distinct(s: Seq<Seq<char>>) -> Seq<Seq<char>>
    decreases s.len(),
{
    if s.len() == 0 {
        Seq::empty()
    } else if distinct(s.drop_last()).contains(s.last()) {
        distinct(s.drop_last())
    } else {
        distinct(s.drop_last()).push(s.last())
    }
}

/// The names of the tools that are filed under `key`, in the order of the
/// listing.
pub open spec fn members(l: Seq<Listed>, key: Seq<char>) -> Seq<Seq<char>>
    decreases l.len(),
{
    if l.len() == 0 {
        Seq::empty()
    } else if tool_tags(l.last()).contains(key) {
        members(l.drop_last(), key).push(l.last().tool.name)
    } else {
        members(l.drop_last(), key)
    }
}

/// The title that a tile gives a category: the tile's title, or its name
/// where it has no title.
pub open spec fn tile_title(t: TileView) -> Seq<char> {
    match t.title {
        Some(title) => title,
        None => t.name,
    }
}

/// The title of the first tile named `key`.
pub open spec fn title_among(tiles: Seq<TileView>, key: Seq<char>) -> Option<Seq<char>>
    decreases tiles.len(),
{
    if tiles.len() == 0 {
        None
    } else if tiles[0].name == key {
        Some(tile_title(tiles[0]))
    } else {
        title_among(tiles.skip(1), key)
    }
}

/// The title of the category `key`: that of the first tile of the tab that
/// is named `key`. A category without such a tile is not declared.
pub open spec fn category_title(groups: Seq<TileGroupView>, key: Seq<char>) -> Option<Seq<char>>
    decreases groups.len(),
{
    if groups.len() == 0 {
        None
    } else {
        match title_among(groups[0].content, key) {
            Some(title) => Some(title),
            None => category_title(groups.skip(1), key),
        }
    }
}

/// The first tag that names no declared category.
pub open spec fn first_undeclared(tags: Seq<Seq<char>>, groups: Seq<TileGroupView>) -> Option<
    Seq<char>,
>
    decreases tags.len(),
{
    if tags.len() == 0 {
        None
    } else {
        match first_undeclared(tags.drop_last(), groups) {
            Some(tag) => Some(tag),
            None => if category_title(groups, tags.last()) is None {
                Some(tags.last())
            } else {
                None
            },
        }
    }
}

/// The defect of a listing in which a tool is filed under a category that
/// the tab does not declare.
pub open spec fn undeclared_defect(l: Seq<Listed>, tab: CategoryTabView) -> Option<
    SemanticErrorView,
> {
    match first_undeclared(all_tags(l), tab.content) {
        Some(tag) => Some(SemanticErrorView { rule: Rule::UnknownCategory, subject: tag }),
        None => None,
    }
}

/// A category with its title from the tab and its tools from the listing.
pub open spec fn category_item(l: Seq<Listed>, tab: CategoryTabView, key: Seq<char>)
    -> ToolCategoryItemView {
    ToolCategoryItemView {
        title: match category_title(tab.content, key) {
            Some(title) => title,
            None => Seq::empty(),
        },
        list: members(l, key),
    }
}

/// The category index: the categories that tools are filed under, each at
/// the place where the listing first names it.
pub open spec fn category_entries(l: Seq<Listed>, tab: CategoryTabView) -> Seq<
    (Seq<char>, ToolCategoryItemView),
> {
    Seq::new(
        distinct(all_tags(l)).len(),
        |i: int| (distinct(all_tags(l))[i], category_item(l, tab, distinct(all_tags(l))[i])),
    )
}

/// The different texts of `s` are the texts of `s`.
pub proof fn lemma_distinct_contains(s: Seq<Seq<char>>, x: Seq<char>)
    ensures
        distinct(s).contains(x) <==> s.contains(x),
    decreases s.len(),
{
    if s.len() > 0 {
        let front = s.drop_last();
        lemma_distinct_contains(front, x);
        lemma_distinct_contains(front, s.last());
        if s.contains(x) {
            let i = choose|i: int| 0 <= i < s.len() && s[i] == x;
            if i < front.len() {
                assert(front[i] == x);
                let d = distinct(front);
                let j = choose|j: int| 0 <= j < d.len() && d[j] == x;
                assert(distinct(s)[j] == x);
            } else {
                if distinct(front).contains(s.last()) {
                } else {
                    assert(distinct(s)[distinct(front).len() as int] == x);
                }
            }
        }
        if distinct(s).contains(x) {
            let d = distinct(s);
            let j = choose|j: int| 0 <= j < d.len() && d[j] == x;
            if j < distinct(front).len() {
                assert(distinct(front)[j] == x);
                let i = choose|i: int| 0 <= i < front.len() && front[i] == x;
                assert(s[i] == x);
            } else {
                assert(s[s.len() - 1] == x);
            }
        }
    }
}

/// Where no tag is undeclared, every tag names a declared category.
pub proof fn lemma_all_declared(tags: Seq<Seq<char>>, groups: Seq<TileGroupView>, x: Seq<char>)
    requires
        first_undeclared(tags, groups) is None,
        tags.contains(x),
    ensures
        category_title(groups, x) is Some,
    decreases tags.len(),
{
    let i = choose|i: int| 0 <= i < tags.len() && tags[i] == x;
    if i < tags.len() - 1 {
        assert(tags.drop_last()[i] == x);
        lemma_all_declared(tags.drop_last(), groups, x);
    }
}

/// An undeclared tag found among the first `n` tags is the first of all.
pub proof fn lemma_undeclared_stays(tags: Seq<Seq<char>>, groups: Seq<TileGroupView>, n: int)
    requires
        0 <= n <= tags.len(),
        first_undeclared(tags.take(n), groups) is Some,
    ensures
        first_undeclared(tags, groups) == first_undeclared(tags.take(n), groups),
    decreases tags.len() - n,
{
    if n < tags.len() {
        assert(tags.take(n + 1).drop_last() =~= tags.take(n));
        lemma_undeclared_stays(tags, groups, n + 1);
    } else {
        assert(tags.take(n) =~= tags);
    }
}

/// The tags of the first `n` tools stand at the head of all tags.
pub proof fn lemma_tags_prefix(l: Seq<Listed>, n: int)
    requires
        0 <= n <= l.len(),
    ensures
        all_tags(l.take(n)).len() <= all_tags(l).len(),
        all_tags(l).take(all_tags(l.take(n)).len() as int) == all_tags(l.take(n)),
    decreases l.len() - n,
{
    if n < l.len() {
        lemma_tags_prefix(l, n + 1);
        assert(l.take(n + 1).drop_last() =~= l.take(n));
        assert(all_tags(l).take(all_tags(l.take(n)).len() as int) =~= all_tags(l.take(n)));
    } else {
        assert(l.take(n) =~= l);
        assert(all_tags(l).take(all_tags(l).len() as int) =~= all_tags(l));
    }
}

/// No tool is filed under a category that no tag names.
pub proof fn lemma_no_members(l: Seq<Listed>, key: Seq<char>)
    requires
        !all_tags(l).contains(key),
    ensures
        members(l, key) == Seq::<Seq<char>>::empty(),
    decreases l.len(),
{
    if l.len() > 0 {
        let front = all_tags(l.drop_last());
        let tags = tool_tags(l.last());
        if tags.contains(key) {
            let i = choose|i: int| 0 <= i < tags.len() && tags[i] == key;
            assert(all_tags(l)[front.len() + i] == key);
        }
        if front.contains(key) {
            let i = choose|i: int| 0 <= i < front.len() && front[i] == key;
            assert(all_tags(l)[i] == key);
        }
        lemma_no_members(l.drop_last(), key);
    }
}

/// The title of the first tile named `key`.
pub fn find_title_among<'a>(tiles: &'a Vec<Tile>, key: &str) -> (found: Option<&'a String>)
    ensures
        found.deep_view() == title_among(tiles.deep_view(), key@),
{
    let mut i: usize = 0;
    proof {
        assert(tiles.deep_view().skip(0) =~= tiles.deep_view());
    }
    while i < tiles.len()
        invariant
            i <= tiles.len(),
            title_among(tiles.deep_view(), key@) == title_among(
                tiles.deep_view().skip(i as int),
                key@,
            ),
        decreases tiles.len() - i,
    {
        let tile = &tiles[i];
        proof {
            let rest = tiles.deep_view().skip(i as int);
            assert(rest[0] == tile.deep_view());
            assert(rest.skip(1) =~= tiles.deep_view().skip(i + 1));
        }
        if str_eq(tile.name.as_str(), key) {
            return match &tile.title {
                Some(title) => Some(title),
                None => Some(&tile.name),
            };
        }
        i += 1;
    }
    None
}

/// The title of the category `key` in a tab.
pub fn find_title<'a>(tab: &'a CategoryTab, key: &str) -> (found: Option<&'a String>)
    ensures
        found.deep_view() == category_title(tab.deep_view().content, key@),
{
    let groups = &tab.content;
    let mut i: usize = 0;
    proof {
        assert(groups.deep_view().skip(0) =~= groups.deep_view());
    }
    while i < groups.len()
        invariant
            i <= groups.len(),
            groups == &tab.content,
            category_title(groups.deep_view(), key@) == category_title(
                groups.deep_view().skip(i as int),
                key@,
            ),
        decreases groups.len() - i,
    {
        proof {
            let rest = groups.deep_view().skip(i as int);
            assert(rest[0] == groups[i as int].deep_view());
            assert(rest.skip(1) =~= groups.deep_view().skip(i + 1));
        }
        match find_title_among(&groups[i].content, key) {
            Some(title) => {
                return Some(title);
            },
            None => {},
        }
        i += 1;
    }
    None
}

/// Whether the text at position `j` stands at an earlier position too.
pub fn seen_before(texts: &Vec<String>, j: usize) -> (seen: bool)
    requires
        j < texts.len(),
    ensures
        seen == texts.deep_view().take(j as int).contains(texts[j as int]@),
{
    let mut i: usize = 0;
    while i < j
        invariant
            i <= j,
            j < texts.len(),
            !texts.deep_view().take(i as int).contains(texts[j as int]@),
        decreases j - i,
    {
        if str_eq(texts[i].as_str(), texts[j].as_str()) {
            proof {
                assert(texts.deep_view().take(j as int)[i as int] == texts[j as int]@);
            }
            return true;
        }
        proof {
            let head = texts.deep_view().take(i + 1);
            assert forall|k: int| 0 <= k < head.len() implies head[k] != texts[j as int]@ by {
                if k < i {
                    assert(texts.deep_view().take(i as int)[k] == head[k]);
                }
            }
        }
        i += 1;
    }
    false
}

/// What the category index holds while the tool `name` is being filed:
/// `done` are the tools before it, `tags` the tags of the tool that were
/// already looked at.
pub open spec fn filing(
    category: ToolCategory,
    done: Seq<Listed>,
    tab: CategoryTabView,
    name: Seq<char>,
    tags: Seq<Seq<char>>,
) -> bool {
    &&& category.keys().len() == category.values().len()
    &&& category.keys() == distinct(all_tags(done) + tags)
    &&& first_undeclared(all_tags(done) + tags, tab.content) is None
    &&& forall|x: int|
        0 <= x < category.keys().len() ==> {
            &&& (#[trigger] category.values()[x]).title@ == category_item(
                done,
                tab,
                category.keys()[x],
            ).title
            &&& category.values()[x].list.deep_view() == members(done, category.keys()[x]) + (
            if tags.contains(category.keys()[x]) {
                seq![name]
            } else {
                Seq::empty()
            })
        }
}

/// Files one tag of a tool: the category of the tag gets the tool's name,
/// once for each tool. A tag that names no declared category is an error.
fn file_tag<'a>(
    category: &mut ToolCategory,
    tab: &CategoryTab,
    item: &ListedTool<'a>,
    tags: &Vec<String>,
    j: usize,
    Ghost(done): Ghost<Seq<Listed>>,
) -> (r: Result<(), SemanticError>)
    requires
        j < tags.len(),
        item.tool.category == Some(*tags),
        filing(
            *old(category),
            done,
            tab.deep_view(),
            item.tool.name@,
            tags.deep_view().take(j as int),
        ),
    ensures
        match first_undeclared(
            all_tags(done) + tags.deep_view().take(j + 1),
            tab.deep_view().content,
        ) {
            Some(tag) => r is Err && r->Err_0.deep_view() == (SemanticErrorView {
                rule: Rule::UnknownCategory,
                subject: tag,
            }),
            None => r is Ok && filing(
                *final(category),
                done,
                tab.deep_view(),
                item.tool.name@,
                tags.deep_view().take(j + 1),
            ),
        },
{
    let ghost name = item.tool.name@;
    let ghost groups = tab.deep_view().content;
    let ghost head = tags.deep_view().take(j as int);
    let ghost next = tags.deep_view().take(j + 1);
    let ghost before = all_tags(done) + head;
    let ghost after = all_tags(done) + next;
    let ghost keys = category.keys();
    let ghost values = category.values();
    let tag = &tags[j];
    let n = category.len();
    proof {
        assert(next =~= head.push(tag@));
        assert(after =~= before.push(tag@));
        assert(after.drop_last() =~= before);
        lemma_distinct_contains(before, tag@);
        assert forall|y: Seq<char>| y != tag@ implies next.contains(y) == head.contains(y) by {
            if next.contains(y) {
                let i = choose|i: int| 0 <= i < next.len() && next[i] == y;
                assert(head[i] == y);
            }
            if head.contains(y) {
                let i = choose|i: int| 0 <= i < head.len() && head[i] == y;
                assert(next[i] == y);
            }
        }
        assert(next.contains(tag@)) by {
            assert(next[j as int] == tag@);
        }
    }
    match category.index_of(tag.as_str()) {
        Some(x) => {
            proof {
                lemma_all_declared(before, groups, tag@);
            }
            if !seen_before(tags, j) {
                let empty = ToolCategoryItem { title: String::new(), list: Vec::new() };
                let mut entry = category.replace_at(x, empty);
                let ghost list_before = entry.list.deep_view();
                entry.list.push(item.tool.name.clone());
                proof {
                    assert(entry.list.deep_view() =~= list_before.push(name));
                    assert(entry.list.deep_view() =~= members(done, tag@) + seq![name]);
                }
                let _ = category.replace_at(x, entry);
                proof {
                    assert(category.values() =~= values.update(x as int, entry));
                }
            }
            proof {
                assert forall|y: int| 0 <= y < keys.len() && y != x implies keys[y] != tag@ by {
                    assert(keys[x as int] == tag@);
                }
            }
            Ok(())
        },
        None => {
            match find_title(tab, tag.as_str()) {
                Some(title) => {
                    let mut list: Vec<String> = Vec::new();
                    list.push(item.tool.name.clone());
                    let entry = ToolCategoryItem { title: title.clone(), list };
                    let previous = category.insert(tag.clone(), entry);
                    proof {
                        assert(previous is None);
                        assert(!before.contains(tag@));
                        assert(!all_tags(done).contains(tag@)) by {
                            if all_tags(done).contains(tag@) {
                                let i = choose|i: int|
                                    0 <= i < all_tags(done).len() && all_tags(done)[i] == tag@;
                                assert(before[i] == tag@);
                            }
                        }
                        lemma_no_members(done, tag@);
                        assert(entry.list.deep_view() =~= members(done, tag@) + seq![name]);
                        assert forall|y: int| 0 <= y < keys.len() implies keys[y] != tag@ by {
                            if keys[y] == tag@ {
                                assert(keys.contains(tag@));
                            }
                        }
                    }
                    Ok(())
                },
                None => Err(SemanticError { rule: Rule::UnknownCategory, subject: tag.clone() }),
            }
        },
    }
}

/// Builds the category index. The categories stand in the order in which
/// the listing first names them, and the tools of a category in the order
/// of the listing. A tag that names no category of the tab is an error.
pub fn categorize<'a>(flat: &Vec<ListedTool<'a>>, tab: &CategoryTab) -> (r: Result<
    ToolCategory,
    SemanticError,
>)
    ensures
        match undeclared_defect(flat.deep_view(), tab.deep_view()) {
            Some(e) => r is Err && r->Err_0.deep_view() == e,
            None => r is Ok && r->Ok_0.deep_view() == category_entries(
                flat.deep_view(),
                tab.deep_view(),
            ),
        },
{
    let ghost l = flat.deep_view();
    let ghost t = tab.deep_view();
    let mut category: ToolCategory = OrderedMap::new();
    let mut i: usize = 0;
    proof {
        assert(l.take(0) =~= Seq::empty());
        assert(all_tags(l.take(0)) + Seq::<Seq<char>>::empty() =~= Seq::empty());
    }
    while i < flat.len()
        invariant
            i <= flat.len(),
            l == flat.deep_view(),
            t == tab.deep_view(),
            filing(category, l.take(i as int), t, Seq::empty(), Seq::empty()),
        decreases flat.len() - i,
    {
        let item = &flat[i];
        let ghost done = l.take(i as int);
        let ghost name = item.tool.name@;
        proof {
            assert(l.take(i + 1).drop_last() =~= done);
            assert(l.take(i + 1).last() == item.deep_view());
        }
        match &item.tool.category {
            Some(tags) => {
                let mut j: usize = 0;
                proof {
                    assert(tags.deep_view().take(0) =~= Seq::empty());
                    assert(tool_tags(item.deep_view()) == tags.deep_view());
                }
                while j < tags.len()
                    invariant
                        j <= tags.len(),
                        i < flat.len(),
                        all_tags(l.take(i + 1)) == all_tags(done) + tags.deep_view(),
                        l == flat.deep_view(),
                        t == tab.deep_view(),
                        done == l.take(i as int),
                        item == &flat[i as int],
                        item.tool.category == Some(*tags),
                        filing(category, done, t, item.tool.name@, tags.deep_view().take(j as int)),
                    decreases tags.len() - j,
                {
                    match file_tag(&mut category, tab, item, tags, j, Ghost(done)) {
                        Ok(()) => {},
                        Err(e) => {
                            proof {
                                let found = all_tags(done) + tags.deep_view().take(j + 1);
                                let whole = all_tags(l.take(i + 1));
                                assert(whole.take(found.len() as int) =~= found);
                                lemma_undeclared_stays(whole, t.content, found.len() as int);
                                lemma_tags_prefix(l, i + 1);
                                lemma_undeclared_stays(all_tags(l), t.content, whole.len() as int);
                            }
                            return Err(e);
                        },
                    }
                    j += 1;
                }
                proof {
                    assert(tags.deep_view().take(j as int) =~= tags.deep_view());
                }
            },
            None => {
                proof {
                    assert(all_tags(done) + Seq::<Seq<char>>::empty() =~= all_tags(done));
                }
            },
        }
        proof {
            let tags = tool_tags(item.deep_view());
            assert(filing(category, done, t, name, tags));
            assert(all_tags(l.take(i + 1)) + Seq::<Seq<char>>::empty() =~= all_tags(done) + tags);
            assert forall|x: int| 0 <= x < category.keys().len() implies (
            #[trigger] category.values()[x]).list.deep_view() == members(
                l.take(i + 1),
                category.keys()[x],
            ) + Seq::<Seq<char>>::empty() by {
                let key = category.keys()[x];
                assert(members(l.take(i + 1), key) =~= members(done, key) + (if tags.contains(
                    key,
                ) {
                    seq![name]
                } else {
                    Seq::empty()
                }));
            }
        }
        i += 1;
    }
    proof {
        assert(l.take(i as int) =~= l);
        assert(all_tags(l) + Seq::<Seq<char>>::empty() =~= all_tags(l));
        assert forall|x: int| 0 <= x < category.keys().len() implies (
        #[trigger] category.values()[x]).deep_view() == category_item(l, t, category.keys()[x]) by {
            assert(members(l, category.keys()[x]) + Seq::<Seq<char>>::empty() =~= members(
                l,
                category.keys()[x],
            ));
        }
        assert(category.deep_view() =~= category_entries(l, t));
    }
    Ok(category)
}

/// The first defect of the tool listing: two tools with one name, or else a
/// tool filed under a category that is not declared.
pub open spec fn data_defect(groups: Seq<ToolGroupView>, tab: CategoryTabView) -> Option<
    SemanticErrorView,
> {
    first_of(duplicate_defect(listing(groups)), undeclared_defect(listing(groups), tab))
}

/// The indices of a tool listing.
pub open spec fn tool_data(groups: Seq<ToolGroupView>, tab: CategoryTabView) -> ToolDataView {
    ToolDataView {
        index: index_entries(listing(groups)),
        category: category_entries(listing(groups), tab),
        all: all_entries(listing(groups)),
        cross: cross_entries(listing(groups)),
    }
}

/// Derives the indices from the tool groups and the tab that declares the
/// categories.
pub fn build_tool_data(groups: &Vec<ToolGroup>, tab: &CategoryTab) -> (r: Result<
    ToolData,
    SemanticError,
>)
    ensures
        match data_defect(groups.deep_view(), tab.deep_view()) {
            Some(e) => r is Err && r->Err_0.deep_view() == e,
            None => r is Ok && r->Ok_0.deep_view() == tool_data(
                groups.deep_view(),
                tab.deep_view(),
            ),
        },
{
    let flat = list_tools(groups);
    let (all, index, cross) = index_tools(&flat)?;
    let category = categorize(&flat, tab)?;
    Ok(ToolData { index, category, all, cross })
}

/// The indices keep the order of the configuration: the flat index and the
/// tool index hold the tools in the order in which the groups list them, and
/// the category index holds the categories in the order in which the tools
/// first name them, each with its tools in the order of the listing.
pub proof fn lemma_indices_keep_order(groups: Seq<ToolGroupView>, tab: CategoryTabView)
    ensures
        entry_keys(tool_data(groups, tab).all) == names(listing(groups)),
        entry_keys(tool_data(groups, tab).index) == names(listing(groups)),
        entry_keys(tool_data(groups, tab).category) == distinct(all_tags(listing(groups))),
        forall|i: int|
            0 <= i < tool_data(groups, tab).category.len() ==> (#[trigger] tool_data(
                groups,
                tab,
            ).category[i]).1.list == members(listing(groups), tool_data(groups, tab).category[i].0),
{
    let data = tool_data(groups, tab);
    assert(entry_keys(data.all) =~= names(listing(groups)));
    assert(entry_keys(data.index) =~= names(listing(groups)));
    assert(entry_keys(data.category) =~= distinct(all_tags(listing(groups))));
}

/// A listing is the listing of the groups before the last, followed by the
/// tools of the last group: a tool of an earlier group comes before every
/// tool of a later one, and the tools of one group keep their order.
pub proof fn lemma_listing_order(groups: Seq<ToolGroupView>, g: int, t: int)
    requires
        0 <= g < groups.len(),
        0 <= t < groups[g].list.len(),
    ensures
        listing(groups.take(g)).len() + t < listing(groups).len(),
        listing(groups)[listing(groups.take(g)).len() + t].tool == groups[g].list[t],
        listing(groups)[listing(groups.take(g)).len() + t].group_name == groups[g].name,
    decreases groups.len(),
{
    if g == groups.len() - 1 {
        assert(groups.take(g) =~= groups.drop_last());
    } else {
        lemma_listing_order(groups.drop_last(), g, t);
        assert(groups.drop_last().take(g) =~= groups.take(g));
    }
}

} // verus!
