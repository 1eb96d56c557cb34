//! The build steps that need no file system: which inserts a page gets, what
//! a written file holds and under which name it is written.

use crate::codegen::CodegenResult;
use crate::ordered::entry_keys;
use crate::substitute::{collect_inserts, insert_all, pass, passes, Inserts};
use crate::text::{
    chars_between, chars_of, find, find_first, join3, lemma_replace_leaves_none, matches_at,
    occurs, replace, replace_all, shares_no_char, str_eq, text_between,
};
use vstd::prelude::*;
use vstd::string::*;

verus! {

/// The deployment profile, which selects the hosts that pages refer to.
#[derive(Clone, Copy, Debug, PartialEq, Eq, Structural)]
pub enum Config {
    Default,
    Intl,
    Test,
}

/// A profile name that names no profile.
#[derive(Clone, Copy, Debug, PartialEq, Eq, Structural)]
pub struct ParseEnumError;

impl ParseEnumError {
    /// What went wrong, in words.
    pub fn message(&self) -> (s: String)
        ensures
            s@ == "error parsing enum"@,
    {
        String::from_str("error parsing enum")
    }
}

/// The profile that `s` names.
pub open spec fn config_of(s: Seq<char>) -> Result<Config, ParseEnumError> {
    if s == "default"@ {
        Ok(Config::Default)
    } else if s == "intl"@ {
        Ok(Config::Intl)
    } else if s == "test"@ {
        Ok(Config::Test)
    } else {
        Err(ParseEnumError)
    }
}

impl Config {
    /// Reads a profile name: `default`, `intl` or `test`.
    pub fn from_str(s: &str) -> (r: Result<Config, ParseEnumError>)
        ensures
            r == config_of(s@),
    {
        if str_eq(s, "default") {
            Ok(Config::Default)
        } else if str_eq(s, "intl") {
            Ok(Config::Intl)
        } else if str_eq(s, "test") {
            Ok(Config::Test)
        } else {
            Err(ParseEnumError)
        }
    }
}

/// The kind of an output file.
#[derive(Clone, Copy, Debug, PartialEq, Eq, Structural)]
pub enum FileType {
    Html,
    Css,
    Script,
}

impl FileType {
    /// The extension of the source file.
    pub open spec fn src_ext(self) -> Seq<char> {
        match self {
            FileType::Html => "html"@,
            FileType::Css => "css"@,
            FileType::Script => "ts"@,
        }
    }

    /// The extension of the written file.
    pub open spec fn dest_ext(self) -> Seq<char> {
        match self {
            FileType::Html => "html"@,
            FileType::Css => "css"@,
            FileType::Script => "js"@,
        }
    }

    /// The opening and closing marks of a comment in a file of this kind.
    pub open spec fn comment_marks(self) -> (Seq<char>, Seq<char>) {
        match self {
            FileType::Html => ("<!--"@, "-->"@),
            FileType::Css => ("/*"@, "*/"@),
            FileType::Script => ("/*"@, "*/"@),
        }
    }

    /// The extension of the source file.
    pub fn as_src(&self) -> (ext: &'static str)
        ensures
            ext@ == self.src_ext(),
    {
        match self {
            FileType::Html => "html",
            FileType::Css => "css",
            FileType::Script => "ts",
        }
    }

    /// The extension of the written file.
    pub fn as_dest(&self) -> (ext: &'static str)
        ensures
            ext@ == self.dest_ext(),
    {
        match self {
            FileType::Html => "html",
            FileType::Css => "css",
            FileType::Script => "js",
        }
    }

    /// The opening and closing marks of a comment in a file of this kind.
    pub fn comment(&self) -> (marks: (&'static str, &'static str))
        ensures
            marks.0@ == self.comment_marks().0,
            marks.1@ == self.comment_marks().1,
    {
        match self {
            FileType::Html => ("<!--", "-->"),
            FileType::Css => ("/*", "*/"),
            FileType::Script => ("/*", "*/"),
        }
    }
}

/// The hosts that the two environment placeholders stand for.
#[allow(non_snake_case)]
#[derive(Clone, Copy, Debug)]
pub struct TemplatePaths {
    /// The root of the images.
    pub IMAGE: &'static str,
    /// The root of the mirror.
    pub MIRROR: &'static str,
}

/// The root of the images under a profile.
pub open spec fn image_root(config: Config) -> Seq<char> {
    match config {
        Config::Default => "//s0.ldtstore.com.cn"@,
        Config::Intl => "//fastly.jsdelivr.net/gh/stackinspector/ldtstore-assert@latest/image"@,
        Config::Test => "/image"@,
    }
}

/// The root of the mirror under a profile.
pub open spec fn mirror_root(config: Config) -> Seq<char> {
    match config {
        Config::Default => "//d1.ldtstore.com.cn"@,
        Config::Intl => "//d1.ldtstore.net"@,
        Config::Test => "//d1.ldtstore.net"@,
    }
}

/// The hosts of a profile.
pub fn template_paths(config: Config) -> (paths: TemplatePaths)
    ensures
        paths.IMAGE@ == image_root(config),
        paths.MIRROR@ == mirror_root(config),
{
    match config {
        Config::Default => TemplatePaths {
            IMAGE: "//s0.ldtstore.com.cn",
            MIRROR: "//d1.ldtstore.com.cn",
        },
        Config::Intl => TemplatePaths {
            IMAGE: "//fastly.jsdelivr.net/gh/stackinspector/ldtstore-assert@latest/image",
            MIRROR: "//d1.ldtstore.net",
        },
        Config::Test => TemplatePaths { IMAGE: "/image", MIRROR: "//d1.ldtstore.net" },
    }
}

/// What can stop a build short of the file system.
#[derive(Clone, Copy, Debug, PartialEq, Eq, Structural)]
pub enum BuildError {
    /// Two static inserts have the same token.
    DuplicateToken,
    /// The page has no dynamic inserts.
    UnknownPage,
    /// An outside tool reported a failure.
    ToolFailed,
    /// The script compiler's output does not end in a line break.
    ToolOutputMalformed,
    /// The revision's hash is too short to take the fingerprint from.
    HashTooShort,
}

/// The notice at the head of every written file, up to the fingerprint.
pub const COPYRIGHT: &'static str =
    "\n  Copyright (c) 2021-2022 CarrotGeball and stackinspector. All rights reserved. MIT license.\n  Source code: https://github.com/stackinspector/ldtstore-homepage\n  Commit: ";

/// The number of characters of a fingerprint.
pub const FINGERPRINT_LEN: usize = 7;

/// The build fingerprint: the first seven characters of the revision's
/// hash. A shorter text has none.
pub fn fingerprint(hash: &str) -> (short: Option<String>)
    ensures
        short is Some == (hash@.len() >= FINGERPRINT_LEN),
        short is Some ==> short->0@ == hash@.take(FINGERPRINT_LEN as int),
{
    if hash.unicode_len() >= FINGERPRINT_LEN {
        Some(String::from_str(hash.substring_char(0, FINGERPRINT_LEN)))
    } else {
        None
    }
}

/// The first line of a text, without its line break.
pub open spec fn first_line(s: Seq<char>) -> Seq<char> {
    match find_first(s, seq!['\n']) {
        Some(end) => s.take(end),
        None => s,
    }
}

/// The reference that the head of a repository names: what stands in its
/// first line behind the first `ref: `, up to the next `ref: ` where there
/// is one. A head whose first line holds no `ref: ` names no reference.
pub open spec fn head_reference(head: Seq<char>) -> Option<Seq<char>> {
    match find_first(first_line(head), "ref: "@) {
        Some(at) => {
            let rest = first_line(head).skip(at + "ref: "@.len());
            match find_first(rest, "ref: "@) {
                Some(end) => Some(rest.take(end)),
                None => Some(rest),
            }
        },
        None => None,
    }
}

/// Reads the reference that the head of a repository names.
pub fn head_ref(head: &str) -> (reference: Option<String>)
    ensures
        reference.deep_view() == head_reference(head@),
{
    let chars = chars_of(head);
    let marker = chars_of("ref: ");
    let mut line_break: Vec<char> = Vec::new();
    line_break.push('\n');
    proof {
        assert(line_break@ =~= seq!['\n']);
    }
    let end = match find(&chars, &line_break) {
        Some(end) => end,
        None => chars.len(),
    };
    let line = chars_between(&chars, 0, end);
    proof {
        assert(line@ =~= first_line(head@));
    }
    let at = match find(&line, &marker) {
        Some(at) => at,
        None => {
            return None;
        },
    };
    let rest = chars_between(&line, at + marker.len(), line.len());
    proof {
        assert(rest@ =~= first_line(head@).skip(at + "ref: "@.len()));
    }
    let stop = match find(&rest, &marker) {
        Some(stop) => stop,
        None => rest.len(),
    };
    let reference = text_between(&rest, 0, stop);
    proof {
        assert(rest@.subrange(0, rest@.len() as int) =~= rest@);
    }
    Some(reference)
}

/// The file that holds the footer under a profile.
pub open spec fn footer_file(config: Config) -> Seq<char> {
    match config {
        Config::Intl => "footer-intl.html"@,
        _ => "footer.html"@,
    }
}

/// The file that holds the footer under a profile.
pub fn footer_fragment(config: Config) -> (file: &'static str)
    ensures
        file@ == footer_file(config),
{
    match config {
        Config::Intl => "footer-intl.html",
        _ => "footer.html",
    }
}

/// The token that a fragment file of the given name is inserted for.
pub open spec fn fragment_token(file_name: Seq<char>) -> Seq<char> {
    "<!--{{"@ + file_name + "}}-->"@
}

/// The static inserts in their order: the references to script and
/// stylesheet under their fingerprinted names, the attribute that opens
/// links in a new tab, the fragment files, the footer, the shared
/// stylesheet.
pub open spec fn static_entries(
    commit: Seq<char>,
    fragments: Seq<(Seq<char>, Seq<char>)>,
    footer: Seq<char>,
    plain_css: Seq<char>,
) -> Seq<(Seq<char>, Seq<char>)> {
    seq![
        (
            "<script src=\"/main.js\"></script>"@,
            "<script src=\"/main-"@ + commit + ".js\"></script>"@,
        ),
        (
            "<link rel=\"stylesheet\" href=\"/style.css\">"@,
            "<link rel=\"stylesheet\" href=\"/style-"@ + commit + ".css\">"@,
        ),
        ("<a n "@, "<a target=\"_blank\" "@),
    ] + Seq::new(fragments.len(), |i: int| (fragment_token(fragments[i].0), fragments[i].1))
        + seq![("<!--{{footer}}-->"@, footer), ("/*{{minified:plain.css}}*/"@, plain_css)]
}

/// Builds the static inserts from what was read: the fingerprint, the
/// fragment files by name with their contents, the footer of the profile and
/// the minified shared stylesheet. A fragment file whose token is already
/// taken is an error.
pub fn build_static_inserts(
    commit: &str,
    fragments: Vec<(String, String)>,
    footer: String,
    plain_css: String,
) -> (r: Result<Inserts, BuildError>)
    ensures
        r is Ok == entry_keys(
            static_entries(commit@, fragments.deep_view(), footer@, plain_css@),
        ).no_duplicates(),
        r is Ok ==> r->Ok_0.deep_view() == static_entries(
            commit@,
            fragments.deep_view(),
            footer@,
            plain_css@,
        ),
        r is Err ==> r->Err_0 == BuildError::DuplicateToken,
{
    let ghost given = fragments.deep_view();
    let mut entries: Vec<(String, String)> = Vec::new();
    entries.push(
        (
            String::from_str("<script src=\"/main.js\"></script>"),
            join3("<script src=\"/main-", commit, ".js\"></script>"),
        ),
    );
    entries.push(
        (
            String::from_str("<link rel=\"stylesheet\" href=\"/style.css\">"),
            join3("<link rel=\"stylesheet\" href=\"/style-", commit, ".css\">"),
        ),
    );
    entries.push((String::from_str("<a n "), String::from_str("<a target=\"_blank\" ")));
    let ghost head = entries.deep_view();
    for pair in it: fragments
        invariant
            given == fragments.deep_view(),
            head.len() == 3,
            entries.deep_view() == head + Seq::new(
                it.index() as nat,
                |i: int| (fragment_token(given[i].0), given[i].1),
            ),
    {
        let ghost n = it.index() as int;
        let ghost before = entries.deep_view();
        let (name, content) = pair;
        assert(name@ == given[n].0 && content@ == given[n].1);
        entries.push((join3("<!--{{", name.as_str(), "}}-->"), content));
        proof {
            assert(entries.deep_view() =~= before.push((fragment_token(given[n].0), given[n].1)));
            assert(entries.deep_view() =~= head + Seq::new(
                (n + 1) as nat,
                |i: int| (fragment_token(given[i].0), given[i].1),
            ));
        }
    }
    let ghost middle = entries.deep_view();
    entries.push((String::from_str("<!--{{footer}}-->"), footer));
    entries.push((String::from_str("/*{{minified:plain.css}}*/"), plain_css));
    proof {
        assert(entries.deep_view() =~= middle.push(("<!--{{footer}}-->"@, footer@)).push(
            ("/*{{minified:plain.css}}*/"@, plain_css@),
        ));
        assert(entries.deep_view() =~= static_entries(commit@, given, footer@, plain_css@));
    }
    match collect_inserts(entries) {
        Some(inserts) => Ok(inserts),
        None => Err(BuildError::DuplicateToken),
    }
}

/// The compiled script in its own scope: what the compiler printed,
/// without the line break at its end, inside an immediately-invoked
/// function.
pub open spec fn scoped_script(stdout: Seq<char>) -> Seq<char> {
    "(function(){"@ + stdout.drop_last() + "})()\n"@
}

/// What the script compiler's run amounts to.
pub open spec fn script_outcome(success: bool, stdout: Seq<char>) -> Result<Seq<char>, BuildError> {
    if !success {
        Err(BuildError::ToolFailed)
    } else if stdout.len() == 0 || stdout.last() != '\n' {
        Err(BuildError::ToolOutputMalformed)
    } else {
        Ok(scoped_script(stdout))
    }
}

/// Takes what the script compiler reported and printed, and wraps the
/// script in a scope of its own. A failed run is an error, and so is output
/// that does not end in a line break.
pub fn compile_script(success: bool, stdout: &str) -> (r: Result<String, BuildError>)
    ensures
        match script_outcome(success, stdout@) {
            Ok(text) => r is Ok && r->Ok_0@ == text,
            Err(e) => r == Err::<String, BuildError>(e),
        },
{
    if !success {
        return Err(BuildError::ToolFailed);
    }
    let n = stdout.unicode_len();
    if n == 0 || stdout.get_char(n - 1) != '\n' {
        return Err(BuildError::ToolOutputMalformed);
    }
    let body = stdout.substring_char(0, n - 1);
    proof {
        assert(body@ =~= stdout@.drop_last());
    }
    Ok(join3("(function(){", body, "})()\n"))
}

/// The dynamic inserts of a page, by the page's name.
pub fn page_inserts<'a>(name: &str, codegen_result: &'a CodegenResult) -> (found: Option<
    &'a Inserts,
>)
    ensures
        found == if name@ == "index"@ {
            Some(&codegen_result.home)
        } else if name@ == "ldtools/index"@ {
            Some(&codegen_result.tools)
        } else if name@ == "ldtools/plain"@ {
            Some(&codegen_result.tools_plain)
        } else {
            None
        },
{
    if str_eq(name, "index") {
        Some(&codegen_result.home)
    } else if str_eq(name, "ldtools/index") {
        Some(&codegen_result.tools)
    } else if str_eq(name, "ldtools/plain") {
        Some(&codegen_result.tools_plain)
    } else {
        None
    }
}

/// The name of a page's source file.
pub open spec fn source_name(name: Seq<char>, ty: FileType) -> Seq<char> {
    name + "."@ + ty.src_ext()
}

/// The name under which a file is written: a page keeps its name, a
/// stylesheet or script carries the fingerprint.
pub open spec fn dest_name(name: Seq<char>, ty: FileType, commit: Seq<char>) -> Seq<char> {
    if ty == FileType::Html {
        name + "."@ + ty.dest_ext()
    } else {
        name + "-"@ + commit + "."@ + ty.dest_ext()
    }
}

/// The comment at the head of a written file.
pub open spec fn file_header(ty: FileType, commit: Seq<char>) -> Seq<char> {
    ty.comment_marks().0 + COPYRIGHT@ + commit + "\n"@ + ty.comment_marks().1 + "\n\n"@
}

/// The mapping of the two environment placeholders.
pub open spec fn placeholder_entries(image: Seq<char>, mirror: Seq<char>) -> Seq<
    (Seq<char>, Seq<char>),
> {
    seq![("{{IMAGE}}"@, image), ("{{MIRROR}}"@, mirror)]
}

/// A text with the two environment placeholders resolved, the image root
/// first.
pub open spec fn resolved(content: Seq<char>, image: Seq<char>, mirror: Seq<char>) -> Seq<char> {
    replace_all(replace_all(content, "{{IMAGE}}"@, image), "{{MIRROR}}"@, mirror)
}

/// Whether a character is neither a brace nor a capital letter. The roots
/// of every profile are made of such characters, and the placeholders of
/// no such character.
pub open spec fn plain_char(c: char) -> bool {
    c != '{' && c != '}' && !('A' <= c <= 'Z')
}

/// Whether every character of a text is neither a brace nor a capital
/// letter.
pub open spec fn plain_text(s: Seq<char>) -> bool {
    forall|i: int| 0 <= i < s.len() ==> plain_char(#[trigger] s[i])
}

/// The roots of every profile are not empty and hold neither a brace nor a
/// capital letter.
pub proof fn lemma_roots_are_plain(config: Config)
    ensures
        image_root(config).len() > 0,
        mirror_root(config).len() > 0,
        plain_text(image_root(config)),
        plain_text(mirror_root(config)),
{
    reveal_strlit("//s0.ldtstore.com.cn");
    reveal_strlit("//d1.ldtstore.com.cn");
    reveal_strlit("//fastly.jsdelivr.net/gh/stackinspector/ldtstore-assert@latest/image");
    reveal_strlit("//d1.ldtstore.net");
    reveal_strlit("/image");
}

/// A text without braces and capital letters has no character in common
/// with either placeholder.
pub proof fn lemma_plain_shares_nothing(root: Seq<char>)
    requires
        plain_text(root),
    ensures
        shares_no_char(root, "{{IMAGE}}"@),
        shares_no_char(root, "{{MIRROR}}"@),
{
    reveal_strlit("{{IMAGE}}");
    reveal_strlit("{{MIRROR}}");
}

/// Under every profile, resolving leaves neither placeholder behind: the
/// roots have no character in common with the placeholders, so no
/// placeholder can stand where one was resolved or reach into a root.
pub proof fn lemma_placeholders_resolved(content: Seq<char>, config: Config)
    ensures
        !occurs(resolved(content, image_root(config), mirror_root(config)), "{{IMAGE}}"@),
        !occurs(resolved(content, image_root(config), mirror_root(config)), "{{MIRROR}}"@),
{
    reveal_strlit("{{IMAGE}}");
    reveal_strlit("{{MIRROR}}");
    let image = image_root(config);
    let mirror = mirror_root(config);
    lemma_roots_are_plain(config);
    lemma_plain_shares_nothing(image);
    lemma_plain_shares_nothing(mirror);
    let first = replace_all(content, "{{IMAGE}}"@, image);
    lemma_replace_leaves_none(content, "{{IMAGE}}"@, image, "{{IMAGE}}"@);
    lemma_replace_leaves_none(first, "{{MIRROR}}"@, mirror, "{{IMAGE}}"@);
    lemma_replace_leaves_none(first, "{{MIRROR}}"@, mirror, "{{MIRROR}}"@);
}

/// The header of a file keeps a text out that begins with a brace, is
/// longer than a fingerprint and holds no line break: the header has a
/// brace at most in the fingerprint, and a line break follows the
/// fingerprint.
proof fn lemma_header_keeps_out(ty: FileType, commit: Seq<char>, rest: Seq<char>, pat: Seq<char>)
    requires
        commit.len() == FINGERPRINT_LEN,
        pat.len() > FINGERPRINT_LEN,
        pat[0] == '{',
        forall|j: int| 0 <= j < pat.len() ==> pat[j] != '\n',
        !occurs(rest, pat),
    ensures
        !occurs(file_header(ty, commit) + rest, pat),
{
    reveal_strlit(
        "\n  Copyright (c) 2021-2022 CarrotGeball and stackinspector. All rights reserved. MIT license.\n  Source code: https://github.com/stackinspector/ldtstore-homepage\n  Commit: ",
    );
    reveal_strlit("<!--");
    reveal_strlit("-->");
    reveal_strlit("/*");
    reveal_strlit("*/");
    reveal_strlit("\n");
    reveal_strlit("\n\n");
    let before = ty.comment_marks().0 + COPYRIGHT@;
    let behind = "\n"@ + ty.comment_marks().1 + "\n\n"@;
    let header = file_header(ty, commit);
    let whole = header + rest;
    let a = before.len() as int;
    let n = pat.len() as int;
    assert(header =~= before + commit + behind);
    assert(forall|k: int| 0 <= k < a ==> before[k] != '{');
    assert(forall|k: int| 0 <= k < behind.len() ==> behind[k] != '{');
    assert(behind[0] == '\n');
    assert forall|i: int| !matches_at(whole, pat, i) by {
        if matches_at(whole, pat, i) {
            let window = whole.subrange(i, i + n);
            if i >= header.len() {
                let k = i - header.len();
                assert(rest.subrange(k, k + n) =~= window);
                assert(matches_at(rest, pat, k));
            } else {
                assert(window[0] == whole[i]);
                assert(whole[i] == header[i]);
                if i < a {
                    assert(header[i] == before[i]);
                } else if i >= a + commit.len() {
                    assert(header[i] == behind[i - a - commit.len()]);
                } else {
                    let at = a + commit.len();
                    assert(window[at - i] == whole[at]);
                    assert(whole[at] == header[at]);
                    assert(header[at] == behind[0]);
                }
            }
        }
    }
}

/// A written file holds neither placeholder, whatever its body was before
/// the placeholders were resolved: not in the body, by the roots of the
/// profile, and not in the header, by the length of the fingerprint.
pub proof fn lemma_written_file_is_resolved(
    ty: FileType,
    commit: Seq<char>,
    body: Seq<char>,
    config: Config,
)
    requires
        commit.len() == FINGERPRINT_LEN,
    ensures
        !occurs(
            file_header(ty, commit) + resolved(body, image_root(config), mirror_root(config)),
            "{{IMAGE}}"@,
        ),
        !occurs(
            file_header(ty, commit) + resolved(body, image_root(config), mirror_root(config)),
            "{{MIRROR}}"@,
        ),
{
    reveal_strlit("{{IMAGE}}");
    reveal_strlit("{{MIRROR}}");
    lemma_placeholders_resolved(body, config);
    let rest = resolved(body, image_root(config), mirror_root(config));
    lemma_header_keeps_out(ty, commit, rest, "{{IMAGE}}"@);
    lemma_header_keeps_out(ty, commit, rest, "{{MIRROR}}"@);
}

/// Resolving the placeholders is one more pass, with the mapping of the two
/// placeholders.
pub proof fn lemma_resolved_is_a_pass(content: Seq<char>, image: Seq<char>, mirror: Seq<char>)
    ensures
        resolved(content, image, mirror) == pass(content, placeholder_entries(image, mirror)),
{
    let entries = placeholder_entries(image, mirror);
    let first = entries.drop_last();
    assert(first.drop_last().len() == 0);
    assert(pass(content, first.drop_last()) == content);
    assert(first.last() == ("{{IMAGE}}"@, image));
    assert(pass(content, first) == replace_all(content, "{{IMAGE}}"@, image));
    assert(entries.last() == ("{{MIRROR}}"@, mirror));
}

/// The pages refer to the script and the stylesheet by the names under
/// which these are written: the first two static inserts put the written
/// names of `main` and `style` in the place of the plain ones.
pub proof fn lemma_pages_refer_to_written_names(
    commit: Seq<char>,
    fragments: Seq<(Seq<char>, Seq<char>)>,
    footer: Seq<char>,
    plain_css: Seq<char>,
)
    ensures
        static_entries(commit, fragments, footer, plain_css)[0].1 == "<script src=\"/"@
            + dest_name("main"@, FileType::Script, commit) + "\"></script>"@,
        static_entries(commit, fragments, footer, plain_css)[1].1
            == "<link rel=\"stylesheet\" href=\"/"@ + dest_name("style"@, FileType::Css, commit)
            + "\">"@,
{
    reveal_strlit("<script src=\"/main-");
    reveal_strlit(".js\"></script>");
    reveal_strlit("<script src=\"/");
    reveal_strlit("\"></script>");
    reveal_strlit("<link rel=\"stylesheet\" href=\"/style-");
    reveal_strlit(".css\">");
    reveal_strlit("<link rel=\"stylesheet\" href=\"/");
    reveal_strlit("\">");
    reveal_strlit("main");
    reveal_strlit("style");
    reveal_strlit("-");
    reveal_strlit(".");
    reveal_strlit("js");
    reveal_strlit("css");
    let entries = static_entries(commit, fragments, footer, plain_css);
    assert(entries[0].1 == "<script src=\"/main-"@ + commit + ".js\"></script>"@);
    assert("<script src=\"/main-"@ + commit + ".js\"></script>"@ =~= "<script src=\"/"@ + (
    "main"@ + "-"@ + commit + "."@ + "js"@) + "\"></script>"@);
    assert(entries[1].1 == "<link rel=\"stylesheet\" href=\"/style-"@ + commit + ".css\">"@);
    assert("<link rel=\"stylesheet\" href=\"/style-"@ + commit + ".css\">"@
        =~= "<link rel=\"stylesheet\" href=\"/"@ + ("style"@ + "-"@ + commit + "."@ + "css"@)
        + "\">"@);
}

/// The outputs of a build: the three pages, the stylesheet and the script.
pub open spec fn planned() -> Seq<(Seq<char>, FileType)> {
    seq![
        ("index"@, FileType::Html),
        ("ldtools/index"@, FileType::Html),
        ("ldtools/plain"@, FileType::Html),
        ("style"@, FileType::Css),
        ("main"@, FileType::Script),
    ]
}

/// The outputs of a build, in the order in which they are made.
pub fn outputs() -> (list: Vec<(&'static str, FileType)>)
    ensures
        list.len() == planned().len(),
        forall|i: int|
            0 <= i < list.len() ==> (#[trigger] list[i]).0@ == planned()[i].0 && list[i].1
                == planned()[i].1,
{
    let mut list: Vec<(&'static str, FileType)> = Vec::new();
    list.push(("index", FileType::Html));
    list.push(("ldtools/index", FileType::Html));
    list.push(("ldtools/plain", FileType::Html));
    list.push(("style", FileType::Css));
    list.push(("main", FileType::Script));
    list
}

/// No two outputs of a build are written under one name, whatever the
/// fingerprint: within one build no file is written twice.
pub proof fn lemma_written_names_differ(commit: Seq<char>, i: int, j: int)
    requires
        0 <= i < j < planned().len(),
    ensures
        dest_name(planned()[i].0, planned()[i].1, commit) != dest_name(
            planned()[j].0,
            planned()[j].1,
            commit,
        ),
{
    reveal_strlit("index");
    reveal_strlit("ldtools/index");
    reveal_strlit("ldtools/plain");
    reveal_strlit("style");
    reveal_strlit("main");
    let index = dest_name("index"@, FileType::Html, commit);
    let tools = dest_name("ldtools/index"@, FileType::Html, commit);
    let plain = dest_name("ldtools/plain"@, FileType::Html, commit);
    let style = dest_name("style"@, FileType::Css, commit);
    let main = dest_name("main"@, FileType::Script, commit);
    assert(index[0] == 'i');
    assert(tools[0] == 'l' && tools[8] == 'i');
    assert(plain[0] == 'l' && plain[8] == 'p');
    assert(style[0] == 's');
    assert(main[0] == 'm');
}

/// A file to write: its name below the destination, and all that it holds.
#[derive(Debug, PartialEq, Eq)]
pub struct Artifact {
    pub path: String,
    pub content: String,
}

/// What every output of one build shares.
#[derive(Debug)]
pub struct GlobalStates {
    pub template: TemplatePaths,
    /// The build fingerprint.
    pub commit: String,
    pub static_inserts: Inserts,
    pub codegen_result: CodegenResult,
}

impl GlobalStates {
    /// Whether the fingerprint of this state has the length of a
    /// fingerprint.
    pub open spec fn wf(&self) -> bool {
        self.commit@.len() == FINGERPRINT_LEN
    }

    /// Puts together the state of a build. The fingerprint is taken from the
    /// revision's hash, so it is exactly as long as a fingerprint is; a hash
    /// that is too short for that makes no state.
    pub fn init(
        config: Config,
        hash: &str,
        static_inserts: Inserts,
        codegen_result: CodegenResult,
    ) -> (r: Result<GlobalStates, BuildError>)
        ensures
            r is Ok == (hash@.len() >= FINGERPRINT_LEN),
            r is Ok ==> {
                &&& r->Ok_0.wf()
                &&& r->Ok_0.commit@ == hash@.take(FINGERPRINT_LEN as int)
                &&& r->Ok_0.template.IMAGE@ == image_root(config)
                &&& r->Ok_0.template.MIRROR@ == mirror_root(config)
                &&& r->Ok_0.static_inserts == static_inserts
                &&& r->Ok_0.codegen_result == codegen_result
            },
            r is Err ==> r->Err_0 == BuildError::HashTooShort,
    {
        match fingerprint(hash) {
            Some(commit) => Ok(
                GlobalStates {
                    template: template_paths(config),
                    commit,
                    static_inserts,
                    codegen_result,
                },
            ),
            None => Err(BuildError::HashTooShort),
        }
    }

    /// The name of the source file of an output.
    pub fn source_path(name: &str, ty: FileType) -> (path: String)
        ensures
            path@ == source_name(name@, ty),
    {
        join3(name, ".", ty.as_src())
    }

    /// The dynamic inserts of a page, by the page's name.
    pub open spec fn dynamic_inserts(&self, name: Seq<char>) -> Option<
        Seq<(Seq<char>, Seq<char>)>,
    > {
        if name == "index"@ {
            Some(self.codegen_result.home.deep_view())
        } else if name == "ldtools/index"@ {
            Some(self.codegen_result.tools.deep_view())
        } else if name == "ldtools/plain"@ {
            Some(self.codegen_result.tools_plain.deep_view())
        } else {
            None
        }
    }

    /// Every page among the outputs of a build has its dynamic inserts.
    pub proof fn lemma_planned_pages_have_inserts(&self, i: int)
        requires
            0 <= i < planned().len(),
            planned()[i].1 == FileType::Html,
        ensures
            self.dynamic_inserts(planned()[i].0) is Some,
    {
    }

    /// The body of an output before the placeholders are resolved. For a
    /// page, `input` is the page's source, which gets two passes: the static
    /// inserts, then the dynamic inserts of the page. For a stylesheet,
    /// `input` is the minified stylesheet. For a script, `input` is what the
    /// compiler printed.
    pub open spec fn body(&self, name: Seq<char>, ty: FileType, success: bool, input: Seq<char>)
        -> Result<Seq<char>, BuildError> {
        match ty {
            FileType::Html => match self.dynamic_inserts(name) {
                Some(dynamic) => Ok(
                    passes(input, seq![self.static_inserts.deep_view(), dynamic]),
                ),
                None => Err(BuildError::UnknownPage),
            },
            FileType::Css => if success {
                Ok(input)
            } else {
                Err(BuildError::ToolFailed)
            },
            FileType::Script => script_outcome(success, input),
        }
    }

    /// Makes the file for one output. `success` says whether the outside
    /// tool that produced `input` reported success; for a page there is no
    /// such tool and it is not looked at. The file holds the header comment
    /// and then the body with the two environment placeholders resolved.
    pub fn emit(&self, name: &str, ty: FileType, success: bool, input: String) -> (r: Result<
        Artifact,
        BuildError,
    >)
        ensures
            match self.body(name@, ty, success, input@) {
                Ok(body) => {
                    &&& r is Ok
                    &&& r->Ok_0.path@ == dest_name(name@, ty, self.commit@)
                    &&& r->Ok_0.content@ == file_header(ty, self.commit@) + resolved(
                        body,
                        self.template.IMAGE@,
                        self.template.MIRROR@,
                    )
                },
                Err(e) => r is Err && r->Err_0 == e,
            },
    {
        let content = match ty {
            FileType::Html => {
                let dynamic = match page_inserts(name, &self.codegen_result) {
                    Some(inserts) => inserts,
                    None => {
                        return Err(BuildError::UnknownPage);
                    },
                };
                let mut mappings: Vec<&Inserts> = Vec::new();
                mappings.push(&self.static_inserts);
                mappings.push(dynamic);
                proof {
                    assert(mappings.deep_view() =~= seq![
                        self.static_inserts.deep_view(),
                        dynamic.deep_view(),
                    ]);
                }
                insert_all(input, &mappings)
            },
            FileType::Css => {
                if !success {
                    return Err(BuildError::ToolFailed);
                }
                input
            },
            FileType::Script => compile_script(success, input.as_str())?,
        };
        let content = replace(content.as_str(), "{{IMAGE}}", self.template.IMAGE);
        let content = replace(content.as_str(), "{{MIRROR}}", self.template.MIRROR);
        let path = match ty {
            FileType::Html => join3(name, ".", ty.as_dest()),
            _ => {
                let mut path = join3(name, "-", self.commit.as_str());
                path.append(".");
                path.append(ty.as_dest());
                path
            },
        };
        let (comment_l, comment_r) = ty.comment();
        let mut file = String::from_str(comment_l);
        file.append(COPYRIGHT);
        file.append(self.commit.as_str());
        file.append("\n");
        file.append(comment_r);
        file.append("\n\n");
        file.append(content.as_str());
        Ok(Artifact { path, content: file })
    }
}

} // verus!
