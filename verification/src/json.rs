//! The indices written as JSON text that can stand inside a page.

use crate::data::{
    GlobalData, ToolCategoryItem, ToolCategoryItemView, ToolData, ToolDataView, ToolIndexItem,
    ToolIndexItemView,
};
use crate::ordered::OrderedMap;
use crate::text::{chars_of, push_char};
use vstd::prelude::*;
use vstd::string::*;

verus! {

/// The digit of `n` to the base sixteen, in lower case.
pub open spec fn hex_char(n: int) -> char {
    if n == 0 {
        '0'
    } else if n == 1 {
        '1'
    } else if n == 2 {
        '2'
    } else if n == 3 {
        '3'
    } else if n == 4 {
        '4'
    } else if n == 5 {
        '5'
    } else if n == 6 {
        '6'
    } else if n == 7 {
        '7'
    } else if n == 8 {
        '8'
    } else if n == 9 {
        '9'
    } else if n == 10 {
        'a'
    } else if n == 11 {
        'b'
    } else if n == 12 {
        'c'
    } else if n == 13 {
        'd'
    } else if n == 14 {
        'e'
    } else {
        'f'
    }
}

/// The digit of `n` to the base sixteen, in lower case.
pub fn hex_digit(n: u32) -> (c: char)
    requires
        n < 16,
    ensures
        c == hex_char(n as int),
{
    if n == 0 {
        '0'
    } else if n == 1 {
        '1'
    } else if n == 2 {
        '2'
    } else if n == 3 {
        '3'
    } else if n == 4 {
        '4'
    } else if n == 5 {
        '5'
    } else if n == 6 {
        '6'
    } else if n == 7 {
        '7'
    } else if n == 8 {
        '8'
    } else if n == 9 {
        '9'
    } else if n == 10 {
        'a'
    } else if n == 11 {
        'b'
    } else if n == 12 {
        'c'
    } else if n == 13 {
        'd'
    } else if n == 14 {
        'e'
    } else {
        'f'
    }
}

/// How a character stands inside a JSON string. The quotation mark, the
/// backslash and the control characters are escaped, as JSON asks; `<` is
/// escaped too, so that no text can close the element that holds the data.
pub open spec fn escaped_char(c: char) -> Seq<char> {
    if c == '"' {
        "\\\""@
    } else if c == '\\' {
        "\\\\"@
    } else if c == '\n' {
        "\\n"@
    } else if c == '\r' {
        "\\r"@
    } else if c == '\t' {
        "\\t"@
    } else if c == '<' {
        "\\u003c"@
    } else if (c as u32) < 0x20 {
        "\\u00"@.push(hex_char((c as u32) as int / 16)).push(hex_char((c as u32) as int % 16))
    } else {
        seq![c]
    }
}

/// How a text stands inside a JSON string.
pub open spec fn escaped(s: Seq<char>) -> Seq<char>
    decreases s.len(),
{
    if s.len() == 0 {
        Seq::empty()
    } else {
        escaped(s.drop_last()) + escaped_char(s.last())
    }
}

/// A text as a JSON string.
pub open spec fn json_string(s: Seq<char>) -> Seq<char> {
    "\""@ + escaped(s) + "\""@
}

/// Appends `c` to `out` as it stands inside a JSON string.
pub fn write_escaped_char(out: &mut String, c: char)
    ensures
        final(out)@ == old(out)@ + escaped_char(c),
{
    let ghost start = out@;
    if c == '"' {
        out.append("\\\"");
    } else if c == '\\' {
        out.append("\\\\");
    } else if c == '\n' {
        out.append("\\n");
    } else if c == '\r' {
        out.append("\\r");
    } else if c == '\t' {
        out.append("\\t");
    } else if c == '<' {
        out.append("\\u003c");
    } else if (c as u32) < 0x20 {
        let code = c as u32;
        out.append("\\u00");
        push_char(out, hex_digit(code / 16));
        push_char(out, hex_digit(code % 16));
        proof {
            assert(out@ =~= start + escaped_char(c));
        }
    } else {
        push_char(out, c);
        proof {
            assert(out@ =~= start + seq![c]);
        }
    }
}

/// A text as a JSON string.
pub fn string_json(s: &str) -> (text: String)
    ensures
        text@ == json_string(s@),
{
    let chars = chars_of(s);
    let mut text = String::from_str("\"");
    let mut i: usize = 0;
    proof {
        assert(s@.take(0) =~= Seq::empty());
        assert(text@ =~= "\""@ + escaped(s@.take(0)));
    }
    while i < chars.len()
        invariant
            i <= chars.len(),
            chars@ == s@,
            text@ == "\""@ + escaped(s@.take(i as int)),
        decreases chars.len() - i,
    {
        proof {
            assert(s@.take(i + 1).drop_last() =~= s@.take(i as int));
        }
        write_escaped_char(&mut text, chars[i]);
        proof {
            assert(text@ =~= "\""@ + escaped(s@.take(i + 1)));
        }
        i += 1;
    }
    proof {
        assert(s@.take(i as int) =~= s@);
    }
    text.append("\"");
    text
}

/// A value that is written as JSON.
pub trait Json: DeepView {
    /// The JSON text of a value.
    spec fn json(v: Self::V) -> Seq<char>;

    /// Writes this value as JSON.
    fn to_json(&self) -> (text: String)
        ensures
            text@ == Self::json(self.deep_view()),
    ;
}

impl Json for String {
    open spec fn json(v: Seq<char>) -> Seq<char> {
        json_string(v)
    }

    fn to_json(&self) -> (text: String) {
        string_json(self.as_str())
    }
}

/// The JSON texts of the items, with commas between them.
pub open spec fn json_items<T: Json>(items: Seq<T::V>) -> Seq<char>
    decreases items.len(),
{
    if items.len() == 0 {
        Seq::empty()
    } else if items.len() == 1 {
        T::json(items[0])
    } else {
        json_items::<T>(items.drop_last()) + ","@ + T::json(items.last())
    }
}

/// An entry of a JSON object: the key as a string, a colon, the value.
pub open spec fn json_member<T: Json>(entry: (Seq<char>, T::V)) -> Seq<char> {
    json_string(entry.0) + ":"@ + T::json(entry.1)
}

/// The entries of a JSON object, with commas between them.
pub open spec fn json_members<T: Json>(entries: Seq<(Seq<char>, T::V)>) -> Seq<char>
    decreases entries.len(),
{
    if entries.len() == 0 {
        Seq::empty()
    } else if entries.len() == 1 {
        json_member::<T>(entries[0])
    } else {
        json_members::<T>(entries.drop_last()) + ","@ + json_member::<T>(entries.last())
    }
}

/// Writes the items with commas between them.
fn items_json<T: Json>(items: &Vec<T>) -> (text: String)
    ensures
        text@ == json_items::<T>(items.deep_view()),
{
    let mut text = String::new();
    let mut i: usize = 0;
    proof {
        assert(items.deep_view().take(0) =~= Seq::empty());
    }
    while i < items.len()
        invariant
            i <= items.len(),
            text@ == json_items::<T>(items.deep_view().take(i as int)),
        decreases items.len() - i,
    {
        proof {
            let all = items.deep_view();
            assert(all.take(i + 1).drop_last() =~= all.take(i as int));
            assert(all.take(i + 1).last() == items[i as int].deep_view());
            assert(all.take(i + 1)[0] == all[0]);
        }
        if i > 0 {
            text.append(",");
        }
        let item = items[i].to_json();
        proof {
            if i == 0 {
                assert(text@ + item@ =~= item@);
            }
        }
        text.append(item.as_str());
        i += 1;
    }
    proof {
        assert(items.deep_view().take(i as int) =~= items.deep_view());
    }
    text
}

/// Writes the entries of a map with commas between them.
fn members_json<T: Json>(map: &OrderedMap<T>) -> (text: String)
    ensures
        text@ == json_members::<T>(map.deep_view()),
{
    let n = map.len();
    let mut text = String::new();
    let mut i: usize = 0;
    proof {
        assert(map.deep_view().take(0) =~= Seq::empty());
    }
    while i < n
        invariant
            i <= n,
            n == map.keys().len(),
            n == map.values().len(),
            text@ == json_members::<T>(map.deep_view().take(i as int)),
        decreases n - i,
    {
        proof {
            let all = map.deep_view();
            assert(all.take(i + 1).drop_last() =~= all.take(i as int));
            assert(all.take(i + 1).last() == all[i as int]);
            assert(all.take(i + 1)[0] == all[0]);
        }
        if i > 0 {
            text.append(",");
        }
        let mut member = string_json(map.key_at(i).as_str());
        member.append(":");
        member.append(map.value_at(i).to_json().as_str());
        proof {
            assert(member@ == json_member::<T>(map.deep_view()[i as int]));
            if i == 0 {
                assert(text@ + member@ =~= member@);
            }
        }
        text.append(member.as_str());
        i += 1;
    }
    proof {
        assert(map.deep_view().take(i as int) =~= map.deep_view());
    }
    text
}

/// A list is written as a JSON array, its items in their order.
impl<T: Json> Json for Vec<T> {
    open spec fn json(v: Seq<T::V>) -> Seq<char> {
        "["@ + json_items::<T>(v) + "]"@
    }

    fn to_json(&self) -> (text: String) {
        let mut text = String::from_str("[");
        text.append(items_json(self).as_str());
        text.append("]");
        text
    }
}

/// An ordered map is written as a JSON object, its entries in their order.
impl<T: Json> Json for OrderedMap<T> {
    open spec fn json(v: Seq<(Seq<char>, T::V)>) -> Seq<char> {
        "{"@ + json_members::<T>(v) + "}"@
    }

    fn to_json(&self) -> (text: String) {
        let mut text = String::from_str("{");
        text.append(members_json(self).as_str());
        text.append("}");
        text
    }
}

impl Json for ToolIndexItem {
    open spec fn json(v: ToolIndexItemView) -> Seq<char> {
        "{\"title\":"@ + json_string(v.title) + ",\"list\":"@ + Vec::<String>::json(v.list)
            + ",\"cross_list\":"@ + Vec::<String>::json(v.cross_list) + "}"@
    }

    fn to_json(&self) -> (text: String) {
        let mut text = String::from_str("{\"title\":");
        text.append(string_json(self.title.as_str()).as_str());
        text.append(",\"list\":");
        text.append(self.list.to_json().as_str());
        text.append(",\"cross_list\":");
        text.append(self.cross_list.to_json().as_str());
        text.append("}");
        text
    }
}

impl Json for ToolCategoryItem {
    open spec fn json(v: ToolCategoryItemView) -> Seq<char> {
        "{\"title\":"@ + json_string(v.title) + ",\"list\":"@ + Vec::<String>::json(v.list) + "}"@
    }

    fn to_json(&self) -> (text: String) {
        let mut text = String::from_str("{\"title\":");
        text.append(string_json(self.title.as_str()).as_str());
        text.append(",\"list\":");
        text.append(self.list.to_json().as_str());
        text.append("}");
        text
    }
}

impl Json for ToolData {
    open spec fn json(v: ToolDataView) -> Seq<char> {
        "{\"index\":"@ + OrderedMap::<ToolIndexItem>::json(v.index) + ",\"category\":"@
            + OrderedMap::<ToolCategoryItem>::json(v.category) + ",\"all\":"@ + OrderedMap::<
            String,
        >::json(v.all) + ",\"cross\":"@ + OrderedMap::<OrderedMap<String>>::json(v.cross) + "}"@
    }

    fn to_json(&self) -> (text: String) {
        let mut text = String::from_str("{\"index\":");
        text.append(self.index.to_json().as_str());
        text.append(",\"category\":");
        text.append(self.category.to_json().as_str());
        text.append(",\"all\":");
        text.append(self.all.to_json().as_str());
        text.append(",\"cross\":");
        text.append(self.cross.to_json().as_str());
        text.append("}");
        text
    }
}

/// The data of a page as plain values.
pub enum GlobalDataView {
    Home,
    Tool { tool: ToolDataView },
}

impl DeepView for GlobalData {
    type V = GlobalDataView;

    open spec fn deep_view(&self) -> GlobalDataView {
        match self {
            GlobalData::Home => GlobalDataView::Home,
            GlobalData::Tool { tool } => GlobalDataView::Tool { tool: tool.deep_view() },
        }
    }
}

/// The data of the home page as JSON.
pub open spec fn home_json() -> Seq<char> {
    "{\"page_type\":\"home\"}"@
}

/// The data of the tool page as JSON.
pub open spec fn tool_page_json(data: ToolDataView) -> Seq<char> {
    "{\"page_type\":\"tool\",\"tool\":"@ + ToolData::json(data) + "}"@
}

/// The data of a page is written as an object that names the kind of the
/// page and, for the tool page, holds the indices.
impl Json for GlobalData {
    open spec fn json(v: GlobalDataView) -> Seq<char> {
        match v {
            GlobalDataView::Home => home_json(),
            GlobalDataView::Tool { tool } => tool_page_json(tool),
        }
    }

    fn to_json(&self) -> (text: String) {
        match self {
            GlobalData::Home => String::from_str("{\"page_type\":\"home\"}"),
            GlobalData::Tool { tool } => {
                let mut text = String::from_str("{\"page_type\":\"tool\",\"tool\":");
                text.append(tool.to_json().as_str());
                text.append("}");
                text
            },
        }
    }
}

} // verus!
