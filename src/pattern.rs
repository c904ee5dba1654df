//! Exclusion patterns: regular expressions that remember the exact text
//! they were compiled from.
use regex::Regex;
use vstd::prelude::*;

verus! {

#[verifier::external_type_specification]
#[verifier::external_body]
pub struct ExRegex(regex::Regex);

#[verifier::external_type_specification]
#[verifier::external_body]
pub struct ExRegexError(regex::Error);

/// Relies on `Clone` of `regex::Regex`: the copy is the same compiled regex,
/// which keeps a cloned `Pattern` matching as its source says.
pub assume_specification[ <regex::Regex as Clone>::clone ](r: &regex::Regex) -> regex::Regex;

/// Whether the regex engine accepts `pattern` (with its default limits).
pub uninterp spec fn compiles(pattern: Seq<char>) -> bool;

/// Whether the regex compiled from `pattern` finds a match anywhere in `text`.
pub uninterp spec fn pattern_matches(pattern: Seq<char>, text: Seq<char>) -> bool;

/// Relies on `regex::Regex::new`: it succeeds exactly when the pattern is
/// accepted, which depends on the pattern text alone.
#[verifier::external_body]
fn compile(source: &str) -> (r: Result<Regex, regex::Error>)
    ensures
        r is Ok <==> compiles(source@),
{
    Regex::new(source)
}

/// Relies on the `Display` impl of `regex::Error` for a readable reason.
#[verifier::external_body]
fn describe(e: &regex::Error) -> String {
    e.to_string()
}

/// Relies on `regex::Regex::is_match`: an unanchored search of `link`.
/// The `regex` field of a `Pattern` is set only by `Pattern::new`, from the
/// compilation of its `source`, and `Clone` copies the two together.
#[verifier::external_body]
fn regex_is_match(p: &Pattern, link: &str) -> (r: bool)
    ensures
        r == pattern_matches(p@, link@),
{
    p.regex.is_match(link)
}

/// The error of compiling an exclusion pattern that the regex engine rejects.
#[derive(Clone, Debug)]
pub struct InvalidExcludePattern {
    /// The offending pattern text.
    pub pattern: String,
    /// The regex engine's description of the failure.
    pub reason: String,
}

/// A compiled exclusion pattern together with its source text.
#[derive(Clone, Debug)]
pub struct Pattern {
    source: String,
    regex: Regex,
}

impl View for Pattern {
    type V = Seq<char>;

    closed spec fn view(&self) -> Seq<char> {
        self.source@
    }
}

impl Pattern {
    /// A pattern is well formed when its source is a valid regex.
    pub open spec fn wf(&self) -> bool {
        compiles(self@)
    }

    /// Compiles `source`, keeping the text exactly as given.
    pub fn new(source: &str) -> (r: Result<Pattern, InvalidExcludePattern>)
        ensures
            r is Ok <==> compiles(source@),
            r is Ok ==> r->Ok_0@ == source@ && r->Ok_0.wf(),
            r is Err ==> r->Err_0.pattern@ == source@,
    {
        match compile(source) {
            Ok(regex) => Ok(Pattern { source: source.to_string(), regex }),
            Err(e) => Err(InvalidExcludePattern { pattern: source.to_string(), reason: describe(&e) }),
        }
    }

    /// The text this pattern was compiled from.
    pub fn as_str(&self) -> (r: &str)
        ensures
            r@ == self@,
    {
        self.source.as_str()
    }

    /// Whether the pattern matches somewhere in `link`.
    pub fn is_match(&self, link: &str) -> (r: bool)
        ensures
            r == pattern_matches(self@, link@),
    {
        regex_is_match(self, link)
    }
}

impl PartialEq for Pattern {
    fn eq(&self, other: &Pattern) -> (r: bool) {
        self.source == other.source
    }
}

impl vstd::std_specs::cmp::PartialEqSpecImpl for Pattern {
    open spec fn obeys_eq_spec() -> bool {
        true
    }

    open spec fn eq_spec(&self, other: &Pattern) -> bool {
        self@ == other@
    }
}

/// The source texts of a sequence of patterns, in order.
pub open spec fn sources(ps: Seq<Pattern>) -> Seq<Seq<char>> {
    ps.map_values(|p: Pattern| p@)
}

/// The contents of a sequence of strings, in order.
pub open spec fn texts(ss: Seq<String>) -> Seq<Seq<char>> {
    ss.map_values(|s: String| s@)
}

/// Whether every pattern text in `ps` is a valid regex.
pub open spec fn all_compile(ps: Seq<Seq<char>>) -> bool {
    forall|i: int| 0 <= i < ps.len() ==> #[trigger] compiles(ps[i])
}

/// `i` is the position of the first pattern text in `ps` that is not a valid regex.
pub open spec fn first_invalid(ps: Seq<Seq<char>>, i: int) -> bool {
    &&& 0 <= i < ps.len()
    &&& !compiles(ps[i])
    &&& forall|j: int| 0 <= j < i ==> #[trigger] compiles(ps[j])
}

/// Writes a list of patterns as their source texts.
pub fn serialize(patterns: &Vec<Pattern>) -> (r: Vec<String>)
    ensures
        texts(r@) == sources(patterns@),
{
    let mut out: Vec<String> = Vec::new();
    let mut i: usize = 0;
    while i < patterns.len()
        invariant
            i <= patterns@.len(),
            out@.len() == i,
            texts(out@) == sources(patterns@).take(i as int),
        decreases patterns@.len() - i,
    {
        let text = patterns[i].as_str().to_string();
        proof {
            assert(text@ == sources(patterns@)[i as int]);
        }
        out.push(text);
        assert(texts(out@) =~= sources(patterns@).take(i + 1)) by {
            assert(texts(out@)[i as int] == text@);
        }
        i = i + 1;
    }
    assert(sources(patterns@).take(i as int) =~= sources(patterns@));
    out
}

/// Compiles a list of pattern texts, failing on the first one that is not
/// a valid regex.
pub fn deserialize(raw: &Vec<String>) -> (r: Result<Vec<Pattern>, InvalidExcludePattern>)
    ensures
        r is Ok <==> all_compile(texts(raw@)),
        r is Ok ==> sources(r->Ok_0@) == texts(raw@),
        r is Err ==> exists|i: int|
            first_invalid(texts(raw@), i) && r->Err_0.pattern@ == texts(raw@)[i],
{
    let mut patterns: Vec<Pattern> = Vec::new();
    let mut i: usize = 0;
    while i < raw.len()
        invariant
            i <= raw@.len(),
            patterns@.len() == i,
            sources(patterns@) == texts(raw@).take(i as int),
            forall|j: int| 0 <= j < i ==> #[trigger] compiles(texts(raw@)[j]),
        decreases raw@.len() - i,
    {
        match Pattern::new(raw[i].as_str()) {
            Ok(p) => {
                assert(p@ == texts(raw@)[i as int]);
                patterns.push(p);
                assert(sources(patterns@) =~= texts(raw@).take(i + 1)) by {
                    assert(sources(patterns@)[i as int] == p@);
                }
            },
            Err(e) => {
                assert(first_invalid(texts(raw@), i as int));
                return Err(e);
            },
        }
        i = i + 1;
    }
    assert(texts(raw@).take(i as int) =~= texts(raw@));
    Ok(patterns)
}

/// The texts that `serialize` writes for well-formed patterns all compile
/// again, so `deserialize` reads them back to patterns with the same sources.
pub proof fn lemma_sources_compile(ps: Seq<Pattern>)
    requires
        forall|i: int| 0 <= i < ps.len() ==> #[trigger] ps[i].wf(),
    ensures
        all_compile(sources(ps)),
{
    assert forall|i: int| 0 <= i < sources(ps).len() implies #[trigger] compiles(sources(ps)[i]) by {
        assert(ps[i].wf());
    }
}

} // verus!
