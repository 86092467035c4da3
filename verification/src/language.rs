//! Comment delimiters, and the languages that are known to use them.

use vstd::prelude::*;
use vstd::string::*;
use vstd::utf8::is_ascii_chars;

use crate::text::same_text;

verus! {

/// The mathematical content of a [`CommentSyntax`]: the opening and the
/// closing delimiter as sequences of characters.
pub struct DelimiterPair {
    pub start: Seq<char>,
    pub end: Seq<char>,
}

/// The pair of markers that opens and closes a comment in some language.
#[derive(Debug)]
pub struct CommentSyntax {
    pub start: String,
    pub end: String,
}

impl View for CommentSyntax {
    type V = DelimiterPair;

    open spec fn view(&self) -> DelimiterPair {
        DelimiterPair { start: self.start@, end: self.end@ }
    }
}

/// Shell style: one hash on either side.
pub open spec fn shell_style() -> DelimiterPair {
    DelimiterPair { start: "#"@, end: "#"@ }
}

/// C style.
pub open spec fn c_style() -> DelimiterPair {
    DelimiterPair { start: "/*"@, end: "*/"@ }
}

/// Markup style.
pub open spec fn markup_style() -> DelimiterPair {
    DelimiterPair { start: "<!-"@, end: "->"@ }
}

/// Erlang style: one percent sign on either side.
pub open spec fn erlang_style() -> DelimiterPair {
    DelimiterPair { start: "%"@, end: "%"@ }
}

/// Curl style.
pub open spec fn curl_style() -> DelimiterPair {
    DelimiterPair { start: "|#"@, end: "#|"@ }
}

/// Julia style.
pub open spec fn julia_style() -> DelimiterPair {
    DelimiterPair { start: "#="@, end: "=#"@ }
}

/// Haskell style.
pub open spec fn haskell_style() -> DelimiterPair {
    DelimiterPair { start: "{-"@, end: "-}"@ }
}

/// Clojure style: two semicolons on either side.
pub open spec fn clojure_style() -> DelimiterPair {
    DelimiterPair { start: ";;"@, end: ";;"@ }
}

/// SQL style: two dashes on either side.
pub open spec fn sql_style() -> DelimiterPair {
    DelimiterPair { start: "--"@, end: "--"@ }
}

/// PowerShell style.
pub open spec fn powershell_style() -> DelimiterPair {
    DelimiterPair { start: "<#"@, end: "#>"@ }
}

/// Lisp style.
pub open spec fn lisp_style() -> DelimiterPair {
    DelimiterPair { start: "#|"@, end: "|#"@ }
}

/// Pascal style.
pub open spec fn pascal_style() -> DelimiterPair {
    DelimiterPair { start: "{"@, end: "}"@ }
}

/// JSP style.
pub open spec fn jsp_style() -> DelimiterPair {
    DelimiterPair { start: "<%--"@, end: "--%>"@ }
}

/// OCaml style.
pub open spec fn ocaml_style() -> DelimiterPair {
    DelimiterPair { start: "(*"@, end: "*)"@ }
}

/// Assembly style: one semicolon on either side.
pub open spec fn assembly_style() -> DelimiterPair {
    DelimiterPair { start: ";"@, end: ";"@ }
}

/// The registry: each known language identifier with the delimiters of its
/// comments. Identifiers are case-sensitive; several may share one style.
pub open spec fn registry() -> Seq<(Seq<char>, DelimiterPair)> {
    seq![
        ("shell"@, shell_style()),
        ("r"@, shell_style()),
        ("perl"@, shell_style()),
        ("ruby"@, shell_style()),
        ("elixir"@, shell_style()),
        ("python"@, shell_style()),
        ("java"@, c_style()),
        ("scala"@, c_style()),
        ("kotlin"@, c_style()),
        ("rust"@, c_style()),
        ("objective-c"@, c_style()),
        ("swift"@, c_style()),
        ("go"@, c_style()),
        ("js"@, c_style()),
        ("ts"@, c_style()),
        ("c"@, c_style()),
        ("cpp"@, c_style()),
        ("csharp"@, c_style()),
        ("php"@, c_style()),
        ("html"@, markup_style()),
        ("xml"@, markup_style()),
        ("erlang"@, erlang_style()),
        ("tex"@, erlang_style()),
        ("latex"@, erlang_style()),
        ("matlab"@, erlang_style()),
        ("curl"@, curl_style()),
        ("julia"@, julia_style()),
        ("haskell"@, haskell_style()),
        ("clojure"@, clojure_style()),
        ("sql"@, sql_style()),
        ("lua"@, sql_style()),
        ("ps"@, powershell_style()),
        ("lisp"@, lisp_style()),
        ("pascal"@, pascal_style()),
        ("jsp"@, jsp_style()),
        ("ocaml"@, ocaml_style()),
        ("assembly"@, assembly_style()),
        ("obj"@, assembly_style()),
    ]
}

/// The delimiters that `table` holds for `id`, in its first entry for it.
pub open spec fn find(table: Seq<(Seq<char>, DelimiterPair)>, id: Seq<char>) -> Option<
    DelimiterPair,
>
    decreases table.len(),
{
    if table.len() == 0 {
        None
    } else if table.first().0 == id {
        Some(table.first().1)
    } else {
        find(table.drop_first(), id)
    }
}

/// The delimiters registered for the language `id`, if it is known.
pub open spec fn delimiters_of(id: Seq<char>) -> Option<DelimiterPair> {
    find(registry(), id)
}

/// Whether `id` is a known language identifier.
pub open spec fn is_registered(id: Seq<char>) -> bool {
    delimiters_of(id) is Some
}

/// The delimiters that `id` resolves to: those registered for it, and shell
/// style for every identifier that is not known.
pub open spec fn resolved(id: Seq<char>) -> DelimiterPair {
    match delimiters_of(id) {
        Some(pair) => pair,
        None => shell_style(),
    }
}

/// The known language identifiers, in the order of the registry.
pub open spec fn identifiers() -> Seq<Seq<char>> {
    registry().map_values(|entry: (Seq<char>, DelimiterPair)| entry.0)
}

/// The set of the known language identifiers.
pub open spec fn supported() -> Set<Seq<char>> {
    identifiers().to_set()
}

/// The notice that tells of an unknown language that shell style is used.
pub open spec fn fallback_notice(id: Seq<char>) -> Seq<char> {
    "language `"@ + id + "` not found, defaults to shell style"@
}

/// Whether `table` holds the registry, entry by entry.
spec fn holds_registry(table: Seq<(&'static str, (&'static str, &'static str))>) -> bool {
    &&& table.len() == registry().len()
    &&& forall|i: int|
        0 <= i < table.len() ==> {
            &&& (#[trigger] table[i]).0@ == registry()[i].0
            &&& table[i].1.0@ == registry()[i].1.start
            &&& table[i].1.1@ == registry()[i].1.end
        }
}

/// The registry as the program holds it: each identifier with the opening
/// and the closing delimiter.
fn entries() -> (table: Vec<(&'static str, (&'static str, &'static str))>)
    ensures
        holds_registry(table@),
{
    let shell = ("#", "#");
    let c = ("/*", "*/");
    let markup = ("<!-", "->");
    let erlang = ("%", "%");
    let curl = ("|#", "#|");
    let julia = ("#=", "=#");
    let haskell = ("{-", "-}");
    let clojure = (";;", ";;");
    let sql = ("--", "--");
    let powershell = ("<#", "#>");
    let lisp = ("#|", "|#");
    let pascal = ("{", "}");
    let jsp = ("<%--", "--%>");
    let ocaml = ("(*", "*)");
    let assembly = (";", ";");
    vec![
        ("shell", shell),
        ("r", shell),
        ("perl", shell),
        ("ruby", shell),
        ("elixir", shell),
        ("python", shell),
        ("java", c),
        ("scala", c),
        ("kotlin", c),
        ("rust", c),
        ("objective-c", c),
        ("swift", c),
        ("go", c),
        ("js", c),
        ("ts", c),
        ("c", c),
        ("cpp", c),
        ("csharp", c),
        ("php", c),
        ("html", markup),
        ("xml", markup),
        ("erlang", erlang),
        ("tex", erlang),
        ("latex", erlang),
        ("matlab", erlang),
        ("curl", curl),
        ("julia", julia),
        ("haskell", haskell),
        ("clojure", clojure),
        ("sql", sql),
        ("lua", sql),
        ("ps", powershell),
        ("lisp", lisp),
        ("pascal", pascal),
        ("jsp", jsp),
        ("ocaml", ocaml),
        ("assembly", assembly),
        ("obj", assembly),
    ]
}

impl CommentSyntax {
    /// A syntax whose comments open with `start` and close with `end`.
    pub fn new(start: &str, end: &str) -> (syntax: Self)
        ensures
            syntax@.start == start@,
            syntax@.end == end@,
    {
        CommentSyntax { start: start.to_owned(), end: end.to_owned() }
    }

    /// The syntax registered for `language`, if the language is known.
    pub fn lookup(language: &str) -> (found: Option<Self>)
        ensures
            match found {
                Some(syntax) => delimiters_of(language@) == Some(syntax@),
                None => delimiters_of(language@) is None,
            },
    {
        let table = entries();
        let mut i: usize = 0;
        while i < table.len()
            invariant
                i <= table@.len(),
                holds_registry(table@),
                forall|j: int| 0 <= j < i ==> (#[trigger] registry()[j]).0 != language@,
            decreases table@.len() - i,
        {
            let (name, (start, end)) = table[i];
            if same_text(name, language) {
                proof {
                    lemma_find_skips(registry(), language@, i as int);
                    assert(registry().skip(i as int).first() == registry()[i as int]);
                }
                return Some(CommentSyntax::new(start, end));
            }
            i += 1;
        }
        proof {
            lemma_find_skips(registry(), language@, registry().len() as int);
        }
        None
    }

    /// The syntax that `language` resolves to: the one registered for it, or
    /// shell style where the language is not known.
    pub fn get(language: &str) -> (syntax: Self)
        ensures
            syntax@ == resolved(language@),
    {
        match CommentSyntax::lookup(language) {
            Some(syntax) => syntax,
            None => CommentSyntax::new("#", "#"),
        }
    }
}

impl PartialEq for CommentSyntax {
    fn eq(&self, other: &Self) -> (equal: bool) {
        self.start == other.start && self.end == other.end
    }
}

impl vstd::std_specs::cmp::PartialEqSpecImpl for CommentSyntax {
    open spec fn obeys_eq_spec() -> bool {
        true
    }

    open spec fn eq_spec(&self, other: &Self) -> bool {
        self@ == other@
    }
}

impl Clone for CommentSyntax {
    fn clone(&self) -> (copy: Self)
        ensures
            copy@ == self@,
    {
        CommentSyntax::new(self.start.as_str(), self.end.as_str())
    }
}

/// The identifiers of all known languages, each once.
pub fn supported_languages() -> (names: Vec<&'static str>)
    ensures
        names.deep_view() == identifiers(),
{
    let table = entries();
    let mut names: Vec<&'static str> = Vec::new();
    let mut i: usize = 0;
    while i < table.len()
        invariant
            i <= table@.len(),
            names@.len() == i,
            holds_registry(table@),
            forall|j: int| 0 <= j < i ==> (#[trigger] names@[j])@ == registry()[j].0,
        decreases table@.len() - i,
    {
        names.push(table[i].0);
        i += 1;
    }
    assert(names.deep_view() =~= identifiers());
    names
}

/// What a language identifier resolves to.
#[derive(Debug)]
pub struct Resolution {
    /// The delimiters to use.
    pub syntax: CommentSyntax,
    /// For a language that is not known: the notice that says so.
    pub notice: Option<String>,
}

/// The mathematical content of a [`Resolution`].
pub struct ResolutionView {
    pub syntax: DelimiterPair,
    pub notice: Option<Seq<char>>,
}

impl View for Resolution {
    type V = ResolutionView;

    open spec fn view(&self) -> ResolutionView {
        ResolutionView { syntax: self.syntax@, notice: self.notice.deep_view() }
    }
}

/// What `id` resolves to: the delimiters registered for it and no notice, or
/// shell style and the notice that the language is not known.
pub open spec fn resolution_of(id: Seq<char>) -> ResolutionView {
    ResolutionView {
        syntax: resolved(id),
        notice: if is_registered(id) {
            None
        } else {
            Some(fallback_notice(id))
        },
    }
}

/// Resolves `language` as [`CommentSyntax::get`] does, and tells by a notice
/// when the language was not known and shell style stands in for it.
pub fn resolve(language: &str) -> (resolution: Resolution)
    ensures
        resolution@ == resolution_of(language@),
{
    match CommentSyntax::lookup(language) {
        Some(syntax) => Resolution { syntax, notice: None },
        None => {
            let mut text = String::new();
            text.append("language `");
            text.append(language);
            text.append("` not found, defaults to shell style");
            assert(text@ =~= fallback_notice(language@));
            Resolution { syntax: CommentSyntax::new("#", "#"), notice: Some(text) }
        },
    }
}

/// What `find` gives does not change when entries that do not match are
/// dropped from the front.
proof fn lemma_find_skips(table: Seq<(Seq<char>, DelimiterPair)>, id: Seq<char>, n: int)
    requires
        0 <= n <= table.len(),
        forall|j: int| 0 <= j < n ==> (#[trigger] table[j]).0 != id,
    ensures
        find(table, id) == find(table.skip(n), id),
    decreases n,
{
    if n == 0 {
        assert(table.skip(0) =~= table);
    } else {
        let rest = table.drop_first();
        assert forall|j: int| 0 <= j < n - 1 implies (#[trigger] rest[j]).0 != id by {
            assert(rest[j] == table[j + 1]);
        }
        lemma_find_skips(rest, id, n - 1);
        assert(rest.skip(n - 1) =~= table.skip(n));
    }
}

/// Length, first and last character of an identifier: enough to tell any
/// two registered identifiers apart.
spec fn outline(id: Seq<char>) -> (nat, char, char) {
    (id.len(), id.first(), id.last())
}

/// The registry has 38 entries; no identifier in it is empty, and none stands
/// in it twice.
pub proof fn lemma_identifiers_are_distinct()
    ensures
        registry().len() == 38,
        forall|i: int| 0 <= i < registry().len() ==> (#[trigger] registry()[i]).0.len() > 0,
        forall|i: int, j: int|
            0 <= i < j < registry().len() ==> (#[trigger] registry()[i]).0 != (
            #[trigger] registry()[j]).0,
{
    reveal_strlit("shell");
    reveal_strlit("r");
    reveal_strlit("perl");
    reveal_strlit("ruby");
    reveal_strlit("elixir");
    reveal_strlit("python");
    reveal_strlit("java");
    reveal_strlit("scala");
    reveal_strlit("kotlin");
    reveal_strlit("rust");
    reveal_strlit("objective-c");
    reveal_strlit("swift");
    reveal_strlit("go");
    reveal_strlit("js");
    reveal_strlit("ts");
    reveal_strlit("c");
    reveal_strlit("cpp");
    reveal_strlit("csharp");
    reveal_strlit("php");
    reveal_strlit("html");
    reveal_strlit("xml");
    reveal_strlit("erlang");
    reveal_strlit("tex");
    reveal_strlit("latex");
    reveal_strlit("matlab");
    reveal_strlit("curl");
    reveal_strlit("julia");
    reveal_strlit("haskell");
    reveal_strlit("clojure");
    reveal_strlit("sql");
    reveal_strlit("lua");
    reveal_strlit("ps");
    reveal_strlit("lisp");
    reveal_strlit("pascal");
    reveal_strlit("jsp");
    reveal_strlit("ocaml");
    reveal_strlit("assembly");
    reveal_strlit("obj");
    assert forall|i: int| 0 <= i < registry().len() implies (#[trigger] registry()[i]).0.len()
        > 0 by {
        assert(outline(registry()[i].0).0 > 0);
    }
    assert forall|i: int, j: int| 0 <= i < j < registry().len() implies (
    #[trigger] registry()[i]).0 != (#[trigger] registry()[j]).0 by {
        assert(outline(registry()[i].0) != outline(registry()[j].0));
    }
}

/// Every entry of the registry is found under its identifier: a registered
/// language resolves to exactly the delimiters that the registry gives it.
pub proof fn lemma_registered_language_resolves(i: int)
    requires
        0 <= i < registry().len(),
    ensures
        is_registered(registry()[i].0),
        delimiters_of(registry()[i].0) == Some(registry()[i].1),
        resolved(registry()[i].0) == registry()[i].1,
{
    lemma_identifiers_are_distinct();
    lemma_find_skips(registry(), registry()[i].0, i);
    assert(registry().skip(i).first() == registry()[i]);
}

/// The registered identifiers are those of the registry's entries.
pub proof fn lemma_registered_iff_listed(id: Seq<char>)
    ensures
        is_registered(id) <==> supported().contains(id),
{
    if identifiers().contains(id) {
        let i = choose|i: int| 0 <= i < identifiers().len() && identifiers()[i] == id;
        lemma_registered_language_resolves(i);
    } else {
        assert forall|j: int| 0 <= j < registry().len() implies (#[trigger] registry()[j]).0
            != id by {
            assert(identifiers()[j] == registry()[j].0);
        }
        lemma_find_skips(registry(), id, registry().len() as int);
    }
}

/// An identifier that is not registered resolves to shell style: one hash
/// on either side.
pub proof fn lemma_unknown_language_resolves_to_shell(id: Seq<char>)
    requires
        !is_registered(id),
    ensures
        resolved(id) == shell_style(),
        resolved(id).start == seq!['#'],
        resolved(id).end == seq!['#'],
{
    reveal_strlit("#");
    assert("#"@ =~= seq!['#']);
}

/// The empty identifier is not registered.
pub proof fn lemma_empty_identifier_is_unknown()
    ensures
        !is_registered(Seq::<char>::empty()),
        resolved(Seq::<char>::empty()) == shell_style(),
{
    lemma_identifiers_are_distinct();
    let none = Seq::<char>::empty();
    assert forall|j: int| 0 <= j < identifiers().len() implies identifiers()[j] != none by {
        assert(identifiers()[j] == registry()[j].0);
    }
    lemma_registered_iff_listed(none);
}

/// There are exactly 38 known languages, and the list of their identifiers
/// names each of them once.
pub proof fn lemma_supported_count()
    ensures
        identifiers().len() == 38,
        identifiers().no_duplicates(),
        supported().finite(),
        supported().len() == 38,
{
    lemma_identifiers_are_distinct();
    vstd::seq_lib::seq_to_set_is_finite(identifiers());
    let names = identifiers();
    assert forall|i: int, j: int|
        0 <= i < names.len() && 0 <= j < names.len() && i != j implies names[i] != names[j] by {
        assert(names[i] == registry()[i].0);
        assert(names[j] == registry()[j].0);
    }
    identifiers().unique_seq_to_set();
}

/// The delimiters of every entry of the registry are ASCII.
proof fn lemma_registry_is_ascii()
    ensures
        forall|i: int|
            0 <= i < registry().len() ==> is_ascii_chars((#[trigger] registry()[i]).1.start)
                && is_ascii_chars(registry()[i].1.end),
{
    reveal_strlit("#");
    reveal_strlit("/*");
    reveal_strlit("*/");
    reveal_strlit("<!-");
    reveal_strlit("->");
    reveal_strlit("%");
    reveal_strlit("|#");
    reveal_strlit("#|");
    reveal_strlit("#=");
    reveal_strlit("=#");
    reveal_strlit("{-");
    reveal_strlit("-}");
    reveal_strlit(";;");
    reveal_strlit("--");
    reveal_strlit("<#");
    reveal_strlit("#>");
    reveal_strlit("{");
    reveal_strlit("}");
    reveal_strlit("<%--");
    reveal_strlit("--%>");
    reveal_strlit("(*");
    reveal_strlit("*)");
    reveal_strlit(";");
}

/// Whatever an identifier resolves to, its delimiters are ASCII.
pub proof fn lemma_resolved_delimiters_are_ascii(id: Seq<char>)
    ensures
        is_ascii_chars(resolved(id).start),
        is_ascii_chars(resolved(id).end),
{
    lemma_registry_is_ascii();
    lemma_registered_iff_listed(id);
    if is_registered(id) {
        let i = choose|i: int| 0 <= i < identifiers().len() && identifiers()[i] == id;
        lemma_registered_language_resolves(i);
        assert(resolved(id) == registry()[i].1);
    } else {
        assert(resolved(id) == registry()[0].1);
    }
}

} // verus!
