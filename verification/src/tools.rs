//! The tool listing: the link rows of a tool and the markup of tools and
//! their groups, for the page with scripts and for the plain page.

use crate::config::{
    icon_emoji, link_prefix, tool_icon_emoji, tool_link_prefix, tool_website_type,
    website_type_label, MirrorType, Tool, ToolGroup, ToolGroupView, ToolLink, ToolLinkIcon,
    ToolLinkTitle, ToolLinkTitleView, ToolLinkType, ToolLinkView, ToolLinksView, ToolView,
};
use crate::render::{
    attribute, check_each, defect_each, markup_each, render_attribute, render_each, wrap,
    wrapped, Fragment, Rule, SemanticError, SemanticErrorView,
};
use vstd::prelude::*;
use vstd::string::*;

verus! {

/// The text that a link title shows: the fixed label of its classification,
/// or its free text as it stands.
pub open spec fn link_title_text(title: ToolLinkTitleView) -> Seq<char> {
    match title {
        ToolLinkTitleView::Type(t) => website_type_label(t),
        ToolLinkTitleView::Text(text) => text,
    }
}

impl ToolLinkTitle {
    /// The text that this title shows.
    pub fn text(&self) -> (text: &str)
        ensures
            text@ == link_title_text(self.deep_view()),
    {
        match self {
            ToolLinkTitle::Type(t) => tool_website_type(*t),
            ToolLinkTitle::Text(text) => text.as_str(),
        }
    }

    /// A copy of this title.
    pub fn copy(&self) -> (title: ToolLinkTitle)
        ensures
            title.deep_view() == self.deep_view(),
    {
        match self {
            ToolLinkTitle::Type(t) => ToolLinkTitle::Type(*t),
            ToolLinkTitle::Text(text) => ToolLinkTitle::Text(text.clone()),
        }
    }
}

/// The row of a tool's one website.
pub open spec fn website_row(name: Seq<char>, title: ToolLinkTitleView) -> ToolLinkView {
    ToolLinkView { title, link_type: ToolLinkType::R2, link: name, icon: ToolLinkIcon::Link }
}

/// The row of a named website.
pub open spec fn named_website_row(name: Seq<char>, entry: (Seq<char>, ToolLinkTitleView))
    -> ToolLinkView {
    ToolLinkView {
        title: entry.1,
        link_type: ToolLinkType::R2,
        link: name + "-"@ + entry.0,
        icon: ToolLinkIcon::Link,
    }
}

/// The row of a tool's one mirror, titled by the mirror's state.
pub open spec fn mirror_row(name: Seq<char>, state: MirrorType) -> ToolLinkView {
    ToolLinkView {
        title: ToolLinkTitleView::Text(state.name()),
        link_type: ToolLinkType::Mirror,
        link: "/"@ + name,
        icon: ToolLinkIcon::Download,
    }
}

/// The row of a named mirror.
pub open spec fn named_mirror_row(name: Seq<char>, entry: (Seq<char>, Seq<char>)) -> ToolLinkView {
    ToolLinkView {
        title: ToolLinkTitleView::Text(entry.1),
        link_type: ToolLinkType::Mirror,
        link: "/"@ + name + "/"@ + entry.0,
        icon: ToolLinkIcon::Download,
    }
}

/// The row of a named download.
pub open spec fn download_row(name: Seq<char>, entry: (Seq<char>, Seq<char>)) -> ToolLinkView {
    ToolLinkView {
        title: ToolLinkTitleView::Text(entry.1),
        link_type: ToolLinkType::R2,
        link: name + "-d-"@ + entry.0,
        icon: ToolLinkIcon::Download,
    }
}

/// The rows that lead to websites: the one website, then the named ones in
/// the order of their mapping.
pub open spec fn website_rows(name: Seq<char>, links: ToolLinksView) -> Seq<ToolLinkView> {
    (match links.website {
        Some(title) => seq![website_row(name, title)],
        None => Seq::empty(),
    }) + (match links.websites {
        Some(entries) => Seq::new(entries.len(), |i: int| named_website_row(name, entries[i])),
        None => Seq::empty(),
    })
}

/// The rows that lead to mirrors: the one mirror, then the named ones in
/// the order of their mapping.
pub open spec fn mirror_rows(name: Seq<char>, links: ToolLinksView) -> Seq<ToolLinkView> {
    (match links.mirror {
        Some(state) => seq![mirror_row(name, state)],
        None => Seq::empty(),
    }) + (match links.mirrors {
        Some(entries) => Seq::new(entries.len(), |i: int| named_mirror_row(name, entries[i])),
        None => Seq::empty(),
    })
}

/// The rows that lead to downloads, in the order of their mapping.
pub open spec fn download_rows(name: Seq<char>, links: ToolLinksView) -> Seq<ToolLinkView> {
    match links.downloads {
        Some(entries) => Seq::new(entries.len(), |i: int| download_row(name, entries[i])),
        None => Seq::empty(),
    }
}

/// The link rows of a tool: websites, then mirrors, then downloads.
pub open spec fn tool_link_rows(name: Seq<char>, links: ToolLinksView) -> Seq<ToolLinkView> {
    website_rows(name, links) + mirror_rows(name, links) + download_rows(name, links)
}

/// A tool with one mirror and no named mirrors has exactly one row that
/// leads to the mirror host: the row of that mirror, whose address begins
/// with the mirror placeholder.
pub proof fn lemma_single_mirror_row(name: Seq<char>, links: ToolLinksView)
    requires
        links.mirror is Some,
        links.mirrors is None,
    ensures
        exists|k: int|
            {
                &&& 0 <= k < tool_link_rows(name, links).len()
                &&& #[trigger] tool_link_rows(name, links)[k] == mirror_row(name, links.mirror->0)
                &&& forall|i: int|
                    0 <= i < tool_link_rows(name, links).len() && (#[trigger] tool_link_rows(
                        name,
                        links,
                    )[i]).link_type == ToolLinkType::Mirror ==> i == k
            },
        link_prefix(mirror_row(name, links.mirror->0).link_type) == "{{MIRROR}}"@,
{
    let rows = tool_link_rows(name, links);
    let k = website_rows(name, links).len() as int;
    assert(mirror_rows(name, links) =~= seq![mirror_row(name, links.mirror->0)]);
    assert(rows[k] == mirror_row(name, links.mirror->0));
    assert forall|i: int|
        0 <= i < rows.len() && (#[trigger] rows[i]).link_type == ToolLinkType::Mirror implies i
        == k by {
        if i < k {
            assert(rows[i] == website_rows(name, links)[i]);
        } else if i > k {
            assert(rows[i] == download_rows(name, links)[i - k - 1]);
        }
    }
}

impl Tool {
    /// Derives the link rows of this tool.
    pub fn link_rows(&self) -> (rows: Vec<ToolLink>)
        ensures
            rows.deep_view() == tool_link_rows(self.name@, self.links.deep_view()),
    {
        let ghost name = self.name@;
        let ghost links = self.links.deep_view();
        let mut rows: Vec<ToolLink> = Vec::new();
        match &self.links.website {
            Some(title) => {
                rows.push(
                    ToolLink {
                        title: title.copy(),
                        link_type: ToolLinkType::R2,
                        link: self.name.clone(),
                        icon: ToolLinkIcon::Link,
                    },
                );
            },
            None => {},
        }
        let ghost first = rows.deep_view();
        proof {
            assert(first =~= match links.website {
                Some(title) => seq![website_row(name, title)],
                None => Seq::empty(),
            });
        }
        match &self.links.websites {
            Some(entries) => {
                let n = entries.len();
                let mut i: usize = 0;
                while i < n
                    invariant
                        i <= n,
                        n == entries.keys().len(),
                        n == entries.values().len(),
                        name == self.name@,
                        rows.deep_view() == first + Seq::new(
                            i as nat,
                            |j: int| named_website_row(name, entries.deep_view()[j]),
                        ),
                    decreases n - i,
                {
                    let ghost before = rows.deep_view();
                    let mut link = self.name.clone();
                    link.append("-");
                    link.append(entries.key_at(i).as_str());
                    let row = ToolLink {
                        title: entries.value_at(i).copy(),
                        link_type: ToolLinkType::R2,
                        link,
                        icon: ToolLinkIcon::Link,
                    };
                    rows.push(row);
                    proof {
                        assert(row.deep_view() == named_website_row(
                            name,
                            entries.deep_view()[i as int],
                        ));
                        assert(rows.deep_view() =~= before.push(row.deep_view()));
                        assert(rows.deep_view() =~= first + Seq::new(
                            (i + 1) as nat,
                            |j: int| named_website_row(name, entries.deep_view()[j]),
                        ));
                    }
                    i += 1;
                }
            },
            None => {
                proof {
                    assert(rows.deep_view() =~= first + Seq::empty());
                }
            },
        }
        let ghost websites = rows.deep_view();
        proof {
            assert(websites =~= website_rows(name, links));
        }
        match self.links.mirror {
            Some(state) => {
                let mut link = String::from_str("/");
                link.append(self.name.as_str());
                let row = ToolLink {
                    title: ToolLinkTitle::Text(String::from_str(state.as_str())),
                    link_type: ToolLinkType::Mirror,
                    link,
                    icon: ToolLinkIcon::Download,
                };
                rows.push(row);
                proof {
                    assert(row.deep_view() == mirror_row(name, state));
                    assert(rows.deep_view() =~= websites.push(row.deep_view()));
                }
            },
            None => {},
        }
        let ghost second = rows.deep_view();
        proof {
            assert(second =~= websites + match links.mirror {
                Some(state) => seq![mirror_row(name, state)],
                None => Seq::empty(),
            });
        }
        match &self.links.mirrors {
            Some(entries) => {
                let n = entries.len();
                let mut i: usize = 0;
                while i < n
                    invariant
                        i <= n,
                        n == entries.keys().len(),
                        n == entries.values().len(),
                        name == self.name@,
                        rows.deep_view() == second + Seq::new(
                            i as nat,
                            |j: int| named_mirror_row(name, entries.deep_view()[j]),
                        ),
                    decreases n - i,
                {
                    let ghost before = rows.deep_view();
                    let mut link = String::from_str("/");
                    link.append(self.name.as_str());
                    link.append("/");
                    link.append(entries.key_at(i).as_str());
                    let row = ToolLink {
                        title: ToolLinkTitle::Text(entries.value_at(i).clone()),
                        link_type: ToolLinkType::Mirror,
                        link,
                        icon: ToolLinkIcon::Download,
                    };
                    rows.push(row);
                    proof {
                        assert(row.deep_view() == named_mirror_row(
                            name,
                            entries.deep_view()[i as int],
                        ));
                        assert(rows.deep_view() =~= before.push(row.deep_view()));
                        assert(rows.deep_view() =~= second + Seq::new(
                            (i + 1) as nat,
                            |j: int| named_mirror_row(name, entries.deep_view()[j]),
                        ));
                    }
                    i += 1;
                }
            },
            None => {
                proof {
                    assert(rows.deep_view() =~= second + Seq::empty());
                }
            },
        }
        let ghost mirrors = rows.deep_view();
        proof {
            assert(mirrors =~= website_rows(name, links) + mirror_rows(name, links));
        }
        match &self.links.downloads {
            Some(entries) => {
                let n = entries.len();
                let mut i: usize = 0;
                while i < n
                    invariant
                        i <= n,
                        n == entries.keys().len(),
                        n == entries.values().len(),
                        name == self.name@,
                        rows.deep_view() == mirrors + Seq::new(
                            i as nat,
                            |j: int| download_row(name, entries.deep_view()[j]),
                        ),
                    decreases n - i,
                {
                    let ghost before = rows.deep_view();
                    let mut link = self.name.clone();
                    link.append("-d-");
                    link.append(entries.key_at(i).as_str());
                    let row = ToolLink {
                        title: ToolLinkTitle::Text(entries.value_at(i).clone()),
                        link_type: ToolLinkType::R2,
                        link,
                        icon: ToolLinkIcon::Download,
                    };
                    rows.push(row);
                    proof {
                        assert(row.deep_view() == download_row(name, entries.deep_view()[i as int]));
                        assert(rows.deep_view() =~= before.push(row.deep_view()));
                        assert(rows.deep_view() =~= mirrors + Seq::new(
                            (i + 1) as nat,
                            |j: int| download_row(name, entries.deep_view()[j]),
                        ));
                    }
                    i += 1;
                }
            },
            None => {
                proof {
                    assert(rows.deep_view() =~= mirrors + Seq::empty());
                }
            },
        }
        proof {
            assert(rows.deep_view() =~= tool_link_rows(name, links));
        }
        rows
    }
}

/// The address of a link: the prefix of its kind, then its target.
pub open spec fn link_address(link: ToolLinkView) -> Seq<char> {
    link_prefix(link.link_type) + link.link
}

/// The markup of a link row.
pub open spec fn link_markup(link: ToolLinkView) -> Seq<char> {
    "<a class=\"link\" href=\""@ + link_address(link) + "\">"@ + icon_emoji(link.icon) + " "@
        + link_title_text(link.title) + "</a>"@
}

impl Fragment for ToolLink {
    open spec fn markup(v: ToolLinkView) -> Seq<char> {
        link_markup(v)
    }

    open spec fn defect(v: ToolLinkView) -> Option<SemanticErrorView> {
        None
    }

    fn render(&self) -> (markup: String) {
        let mut address = String::from_str(tool_link_prefix(self.link_type));
        address.append(self.link.as_str());
        let mut markup = String::from_str("<a class=\"link\" href=\"");
        markup.append(address.as_str());
        markup.append("\">");
        markup.append(tool_icon_emoji(self.icon));
        markup.append(" ");
        markup.append(self.title.text());
        markup.append("</a>");
        markup
    }

    fn check(&self) -> (r: Result<(), SemanticError>) {
        Ok(())
    }
}

/// The opening of a tool's element, with the tool's keywords where it has
/// some.
pub open spec fn tool_opening(t: ToolView) -> Seq<char> {
    "<div class=\"tool\" id=\"tool-"@ + t.name + "\""@ + (match t.keywords {
        Some(keywords) => attribute("data-keywords"@, keywords),
        None => Seq::empty(),
    }) + ">"@
}

/// The head of a tool's entry: icon, title, description and notice.
pub open spec fn tool_head(t: ToolView) -> Seq<char> {
    wrapped("<img src=\"{{IMAGE}}/icon-tool/"@, t.icon, ".webp\">"@) + "<h3>"@ + t.title
        + "</h3>"@ + wrapped("<p>"@, t.description, "</p>"@) + wrapped(
        "<p class=\"notice\">"@,
        t.notice,
        "</p>"@,
    )
}

/// The markup of a tool's entry in the listing.
pub open spec fn tool_markup(t: ToolView) -> Seq<char> {
    tool_opening(t) + tool_head(t) + (if t.links.columns == Some(true) {
        "<div class=\"links columns\">"@
    } else {
        "<div class=\"links\">"@
    }) + markup_each::<ToolLink>(tool_link_rows(t.name, t.links)) + "</div></div>"@
}

/// The rule that a tool breaks, if it breaks one. A tool that gives both
/// its one website and named websites is rejected, and so is a tool that
/// gives both its one mirror and named mirrors: neither is merged.
pub open spec fn tool_defect(t: ToolView) -> Option<SemanticErrorView> {
    if t.links.website is Some && t.links.websites is Some {
        Some(SemanticErrorView { rule: Rule::WebsiteConflict, subject: t.name })
    } else if t.links.mirror is Some && t.links.mirrors is Some {
        Some(SemanticErrorView { rule: Rule::MirrorConflict, subject: t.name })
    } else {
        None
    }
}

impl Tool {
    /// The opening of this tool's element.
    fn render_opening(&self) -> (markup: String)
        ensures
            markup@ == tool_opening(self.deep_view()),
    {
        let keywords = match &self.keywords {
            Some(keywords) => render_attribute("data-keywords", keywords.as_str()),
            None => String::new(),
        };
        let mut markup = String::from_str("<div class=\"tool\" id=\"tool-");
        markup.append(self.name.as_str());
        markup.append("\"");
        markup.append(keywords.as_str());
        markup.append(">");
        markup
    }

    /// The head of this tool's entry.
    fn render_head(&self) -> (markup: String)
        ensures
            markup@ == tool_head(self.deep_view()),
    {
        let mut markup = wrap("<img src=\"{{IMAGE}}/icon-tool/", &self.icon, ".webp\">");
        markup.append("<h3>");
        markup.append(self.title.as_str());
        markup.append("</h3>");
        markup.append(wrap("<p>", &self.description, "</p>").as_str());
        markup.append(wrap("<p class=\"notice\">", &self.notice, "</p>").as_str());
        markup
    }
}

impl Fragment for Tool {
    open spec fn markup(v: ToolView) -> Seq<char> {
        tool_markup(v)
    }

    open spec fn defect(v: ToolView) -> Option<SemanticErrorView> {
        tool_defect(v)
    }

    fn render(&self) -> (markup: String) {
        let rows = self.link_rows();
        let mut markup = self.render_opening();
        markup.append(self.render_head().as_str());
        match self.links.columns {
            Some(true) => markup.append("<div class=\"links columns\">"),
            _ => markup.append("<div class=\"links\">"),
        }
        markup.append(render_each(&rows).as_str());
        markup.append("</div></div>");
        markup
    }

    fn check(&self) -> (r: Result<(), SemanticError>) {
        if self.links.website.is_some() && self.links.websites.is_some() {
            Err(SemanticError { rule: Rule::WebsiteConflict, subject: self.name.clone() })
        } else if self.links.mirror.is_some() && self.links.mirrors.is_some() {
            Err(SemanticError { rule: Rule::MirrorConflict, subject: self.name.clone() })
        } else {
            Ok(())
        }
    }
}

/// The markup of a group of tools.
pub open spec fn tool_group_markup(g: ToolGroupView) -> Seq<char> {
    "<div class=\"tool-group\""@ + (match g.name {
        Some(name) => attribute("id"@, "group-"@ + name),
        None => Seq::empty(),
    }) + ">"@ + wrapped("<h2>"@, g.title, "</h2>"@) + markup_each::<Tool>(g.list) + "</div>"@
}

impl Fragment for ToolGroup {
    open spec fn markup(v: ToolGroupView) -> Seq<char> {
        tool_group_markup(v)
    }

    open spec fn defect(v: ToolGroupView) -> Option<SemanticErrorView> {
        defect_each::<Tool>(v.list)
    }

    fn render(&self) -> (markup: String) {
        let id = match &self.name {
            Some(name) => {
                let mut id = String::from_str("group-");
                id.append(name.as_str());
                render_attribute("id", id.as_str())
            },
            None => String::new(),
        };
        let mut markup = String::from_str("<div class=\"tool-group\"");
        markup.append(id.as_str());
        markup.append(">");
        markup.append(wrap("<h2>", &self.title, "</h2>").as_str());
        markup.append(render_each(&self.list).as_str());
        markup.append("</div>");
        markup
    }

    fn check(&self) -> (r: Result<(), SemanticError>) {
        check_each(&self.list)
    }
}

/// A part of the tool listing that is also drawn on the plain page, which
/// works without scripts.
pub trait Plain: DeepView {
    /// The markup of a part on the plain page.
    spec fn plain(v: Self::V) -> Seq<char>;

    /// Draws this part for the plain page.
    fn render_plain(&self) -> (markup: String)
        ensures
            markup@ == Self::plain(self.deep_view()),
    ;
}

/// The plain markup of the parts of `items`, one after another.
pub open spec fn plain_each<T: Plain>(items: Seq<T::V>) -> Seq<char>
    decreases items.len(),
{
    if items.len() == 0 {
        Seq::empty()
    } else {
        plain_each::<T>(items.drop_last()) + T::plain(items.last())
    }
}

/// Draws every part of `items` for the plain page, in order.
pub fn render_plain_each<T: Plain>(items: &Vec<T>) -> (markup: String)
    ensures
        markup@ == plain_each::<T>(items.deep_view()),
{
    let mut markup = String::new();
    let mut i: usize = 0;
    proof {
        assert(items.deep_view().take(0) =~= Seq::empty());
    }
    while i < items.len()
        invariant
            i <= items.len(),
            markup@ == plain_each::<T>(items.deep_view().take(i as int)),
        decreases items.len() - i,
    {
        proof {
            let all = items.deep_view();
            assert(all.take(i + 1).drop_last() =~= all.take(i as int));
            assert(all.take(i + 1).last() == items[i as int].deep_view());
        }
        markup.append(items[i].render_plain().as_str());
        i += 1;
    }
    proof {
        assert(items.deep_view().take(i as int) =~= items.deep_view());
    }
    markup
}

impl Plain for ToolLink {
    open spec fn plain(v: ToolLinkView) -> Seq<char> {
        "<li>"@ + link_markup(v) + "</li>"@
    }

    fn render_plain(&self) -> (markup: String) {
        let mut markup = String::from_str("<li>");
        markup.append(self.render().as_str());
        markup.append("</li>");
        markup
    }
}

/// The plain markup of a tool: its title, its description and the list of
/// its link rows.
pub open spec fn plain_tool(t: ToolView) -> Seq<char> {
    "<h3 id=\""@ + t.name + "\">"@ + t.title + "</h3>"@ + wrapped("<p>"@, t.description, "</p>"@)
        + "<ul>"@ + plain_each::<ToolLink>(tool_link_rows(t.name, t.links)) + "</ul>"@
}

impl Plain for Tool {
    open spec fn plain(v: ToolView) -> Seq<char> {
        plain_tool(v)
    }

    fn render_plain(&self) -> (markup: String) {
        let rows = self.link_rows();
        let mut markup = String::from_str("<h3 id=\"");
        markup.append(self.name.as_str());
        markup.append("\">");
        markup.append(self.title.as_str());
        markup.append("</h3>");
        markup.append(wrap("<p>", &self.description, "</p>").as_str());
        markup.append("<ul>");
        markup.append(render_plain_each(&rows).as_str());
        markup.append("</ul>");
        markup
    }
}

/// The plain markup of a group of tools: its title and its tools.
pub open spec fn plain_group(g: ToolGroupView) -> Seq<char> {
    wrapped("<h2>"@, g.title, "</h2>"@) + plain_each::<Tool>(g.list)
}

impl Plain for ToolGroup {
    open spec fn plain(v: ToolGroupView) -> Seq<char> {
        plain_group(v)
    }

    fn render_plain(&self) -> (markup: String) {
        let mut markup = wrap("<h2>", &self.title, "</h2>");
        markup.append(render_plain_each(&self.list).as_str());
        markup
    }
}

} // verus!
