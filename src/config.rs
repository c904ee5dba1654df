//! The configuration options of the link checker, their defaults, and their
//! plain structured form.
use crate::pattern::{
    all_compile, deserialize, first_invalid, pattern_matches, serialize, sources, texts,
    InvalidExcludePattern, Pattern,
};
use vstd::prelude::*;

verus! {

/// The number of seconds a cached result stays valid by default (12 hours).
pub const DEFAULT_CACHE_TIMEOUT: u64 = 60 * 60 * 12;

/// The user agent presented to remote servers by default: tool name and version.
pub const DEFAULT_USER_AGENT: &'static str = "mdbook-linkcheck-0.1.0";

/// The default cache timeout, in seconds.
pub fn default_cache_timeout() -> (r: u64)
    ensures
        r == DEFAULT_CACHE_TIMEOUT,
{
    DEFAULT_CACHE_TIMEOUT
}

/// The default user agent, as an owned string.
pub fn default_user_agent() -> (r: String)
    ensures
        r@ == DEFAULT_USER_AGENT@,
{
    DEFAULT_USER_AGENT.to_string()
}

/// The mathematical content of a `Config`: patterns are their source texts.
pub struct ConfigView {
    pub follow_web_links: bool,
    pub traverse_parent_directories: bool,
    pub exclude: Seq<Seq<char>>,
    pub user_agent: Seq<char>,
    pub cache_timeout: u64,
}

/// The configuration with every option at its default.
pub open spec fn default_view() -> ConfigView {
    ConfigView {
        follow_web_links: false,
        traverse_parent_directories: false,
        exclude: Seq::empty(),
        user_agent: DEFAULT_USER_AGENT@,
        cache_timeout: DEFAULT_CACHE_TIMEOUT,
    }
}

/// Whether some pattern of `exclude` matches `link`.
pub open spec fn skips(exclude: Seq<Seq<char>>, link: Seq<char>) -> bool {
    exists|i: int| 0 <= i < exclude.len() && #[trigger] pattern_matches(exclude[i], link)
}

/// The configuration options available with this backend.
#[derive(Clone, Debug)]
pub struct Config {
    /// If a link on the internet is encountered, should we still try to check
    /// if it's valid? Defaults to `false` because this has a big performance
    /// impact.
    pub follow_web_links: bool,
    /// Are we allowed to link to files outside of the book's source directory?
    pub traverse_parent_directories: bool,
    /// Links matching any of these patterns are skipped.
    pub exclude: Vec<Pattern>,
    /// The user agent presented to remote servers.
    pub user_agent: String,
    /// The number of seconds a cached result is valid for.
    pub cache_timeout: u64,
}

impl View for Config {
    type V = ConfigView;

    open spec fn view(&self) -> ConfigView {
        ConfigView {
            follow_web_links: self.follow_web_links,
            traverse_parent_directories: self.traverse_parent_directories,
            exclude: sources(self.exclude@),
            user_agent: self.user_agent@,
            cache_timeout: self.cache_timeout,
        }
    }
}

impl Config {
    /// Every exclusion pattern is a valid regex.
    pub open spec fn wf(&self) -> bool {
        all_compile(self@.exclude)
    }

    /// Whether `link` matches one of the exclusion patterns.
    pub fn should_skip(&self, link: &str) -> (r: bool)
        ensures
            r == skips(self@.exclude, link@),
    {
        let mut i: usize = 0;
        while i < self.exclude.len()
            invariant
                i <= self.exclude@.len(),
                forall|j: int| 0 <= j < i ==> !#[trigger] pattern_matches(self@.exclude[j], link@),
            decreases self.exclude@.len() - i,
        {
            if self.exclude[i].is_match(link) {
                assert(pattern_matches(self@.exclude[i as int], link@));
                return true;
            }
            i = i + 1;
        }
        false
    }
}

impl Default for Config {
    fn default() -> (r: Config)
        ensures
            r@ == default_view(),
            r.wf(),
    {
        let r = Config {
            follow_web_links: false,
            traverse_parent_directories: false,
            exclude: Vec::new(),
            user_agent: default_user_agent(),
            cache_timeout: default_cache_timeout(),
        };
        assert(r@.exclude =~= Seq::<Seq<char>>::empty());
        r
    }
}

impl PartialEq for Config {
    fn eq(&self, other: &Config) -> (r: bool) {
        if self.follow_web_links != other.follow_web_links
            || self.traverse_parent_directories != other.traverse_parent_directories
            || self.exclude.len() != other.exclude.len()
            || !(self.user_agent == other.user_agent)
            || self.cache_timeout != other.cache_timeout
        {
            assert(self@.exclude.len() == self.exclude@.len());
            assert(other@.exclude.len() == other.exclude@.len());
            return false;
        }
        let mut i: usize = 0;
        while i < self.exclude.len()
            invariant
                i <= self.exclude@.len(),
                self.exclude@.len() == other.exclude@.len(),
                forall|j: int| 0 <= j < i ==> #[trigger] self@.exclude[j] == other@.exclude[j],
            decreases self.exclude@.len() - i,
        {
            if !(self.exclude[i] == other.exclude[i]) {
                assert(self@.exclude[i as int] != other@.exclude[i as int]);
                return false;
            }
            i = i + 1;
        }
        assert(self@.exclude =~= other@.exclude);
        true
    }
}

impl vstd::std_specs::cmp::PartialEqSpecImpl for Config {
    open spec fn obeys_eq_spec() -> bool {
        true
    }

    open spec fn eq_spec(&self, other: &Config) -> bool {
        self@ == other@
    }
}

/// The mathematical content of a `RawConfig`.
pub struct RawView {
    pub follow_web_links: Option<bool>,
    pub traverse_parent_directories: Option<bool>,
    pub exclude: Option<Seq<Seq<char>>>,
    pub user_agent: Option<Seq<char>>,
    pub cache_timeout: Option<u64>,
}

/// The configuration as it is stored: each option may be absent, and
/// exclusion patterns are plain text. In a document the options are keyed
/// `follow-web-links`, `traverse-parent-directories`, `exclude`,
/// `user-agent` and `cache-timeout`, in this order.
#[derive(Clone, Debug)]
pub struct RawConfig {
    pub follow_web_links: Option<bool>,
    pub traverse_parent_directories: Option<bool>,
    pub exclude: Option<Vec<String>>,
    pub user_agent: Option<String>,
    pub cache_timeout: Option<u64>,
}

impl View for RawConfig {
    type V = RawView;

    open spec fn view(&self) -> RawView {
        RawView {
            follow_web_links: self.follow_web_links,
            traverse_parent_directories: self.traverse_parent_directories,
            exclude: match self.exclude {
                Some(list) => Some(texts(list@)),
                None => None,
            },
            user_agent: match self.user_agent {
                Some(text) => Some(text@),
                None => None,
            },
            cache_timeout: self.cache_timeout,
        }
    }
}

/// `value` when present, else `default`.
pub open spec fn or_default<T>(value: Option<T>, default: T) -> T {
    match value {
        Some(v) => v,
        None => default,
    }
}

/// The configuration that a stored form describes, with every absent
/// option taken from its default.
pub open spec fn decode(raw: RawView) -> ConfigView {
    ConfigView {
        follow_web_links: or_default(raw.follow_web_links, default_view().follow_web_links),
        traverse_parent_directories: or_default(
            raw.traverse_parent_directories,
            default_view().traverse_parent_directories,
        ),
        exclude: or_default(raw.exclude, default_view().exclude),
        user_agent: or_default(raw.user_agent, default_view().user_agent),
        cache_timeout: or_default(raw.cache_timeout, default_view().cache_timeout),
    }
}

/// The stored form of a configuration: every option written out.
pub open spec fn encode(c: ConfigView) -> RawView {
    RawView {
        follow_web_links: Some(c.follow_web_links),
        traverse_parent_directories: Some(c.traverse_parent_directories),
        exclude: Some(c.exclude),
        user_agent: Some(c.user_agent),
        cache_timeout: Some(c.cache_timeout),
    }
}

impl Config {
    /// Builds a configuration from its stored form. Absent options take their
    /// defaults; every exclusion pattern is compiled, and the first one that
    /// is not a valid regex fails the whole conversion.
    pub fn from_raw(raw: RawConfig) -> (r: Result<Config, InvalidExcludePattern>)
        ensures
            r is Ok <==> all_compile(decode(raw@).exclude),
            r is Ok ==> r->Ok_0@ == decode(raw@) && r->Ok_0.wf(),
            r is Err ==> exists|i: int|
                first_invalid(decode(raw@).exclude, i) && r->Err_0.pattern@
                    == decode(raw@).exclude[i],
    {
        let ghost view = raw@;
        let exclude = match raw.exclude {
            Some(list) => match deserialize(&list) {
                Ok(patterns) => patterns,
                Err(e) => {
                    return Err(e);
                },
            },
            None => Vec::new(),
        };
        assert(sources(exclude@) =~= decode(view).exclude);
        let follow_web_links = match raw.follow_web_links {
            Some(b) => b,
            None => false,
        };
        let traverse_parent_directories = match raw.traverse_parent_directories {
            Some(b) => b,
            None => false,
        };
        let user_agent = match raw.user_agent {
            Some(text) => text,
            None => default_user_agent(),
        };
        let cache_timeout = match raw.cache_timeout {
            Some(n) => n,
            None => default_cache_timeout(),
        };
        Ok(Config { follow_web_links, traverse_parent_directories, exclude, user_agent, cache_timeout })
    }

    /// The stored form of this configuration, with every option written out
    /// and each pattern as its exact source text.
    pub fn to_raw(&self) -> (r: RawConfig)
        ensures
            r@ == encode(self@),
    {
        RawConfig {
            follow_web_links: Some(self.follow_web_links),
            traverse_parent_directories: Some(self.traverse_parent_directories),
            exclude: Some(serialize(&self.exclude)),
            user_agent: Some(self.user_agent.clone()),
            cache_timeout: Some(self.cache_timeout),
        }
    }
}

/// An option absent from the stored form takes exactly its default value.
pub proof fn lemma_absent_options_default(raw: RawView)
    ensures
        raw.follow_web_links is None ==> decode(raw).follow_web_links == false,
        raw.traverse_parent_directories is None ==> decode(raw).traverse_parent_directories
            == false,
        raw.exclude is None ==> decode(raw).exclude == Seq::<Seq<char>>::empty(),
        raw.user_agent is None ==> decode(raw).user_agent == DEFAULT_USER_AGENT@,
        raw.cache_timeout is None ==> decode(raw).cache_timeout == DEFAULT_CACHE_TIMEOUT,
{
}

/// Reading back the stored form of a well-formed configuration succeeds and
/// gives an equal configuration.
pub proof fn lemma_round_trip(c: ConfigView)
    requires
        all_compile(c.exclude),
    ensures
        all_compile(decode(encode(c)).exclude),
        decode(encode(c)) == c,
{
}

/// A stored form that writes out every option is reproduced exactly when it
/// is read and stored again.
pub proof fn lemma_explicit_form_is_stable(raw: RawView)
    requires
        raw.follow_web_links is Some,
        raw.traverse_parent_directories is Some,
        raw.exclude is Some,
        raw.user_agent is Some,
        raw.cache_timeout is Some,
    ensures
        encode(decode(raw)) == raw,
{
}

/// Equality keeps the order of the exclusion patterns: two configurations
/// whose patterns are the same up to order, but not in the same order, are
/// not equal, although they skip exactly the same links.
pub proof fn lemma_pattern_order(a: ConfigView, b: ConfigView)
    requires
        a.exclude.to_multiset() == b.exclude.to_multiset(),
        a.exclude != b.exclude,
    ensures
        a != b,
        forall|link: Seq<char>| skips(a.exclude, link) == skips(b.exclude, link),
{
    assert forall|link: Seq<char>| skips(a.exclude, link) implies skips(b.exclude, link) by {
        lemma_skips_by_membership(a.exclude, b.exclude, link);
    }
    assert forall|link: Seq<char>| skips(b.exclude, link) implies skips(a.exclude, link) by {
        lemma_skips_by_membership(b.exclude, a.exclude, link);
    }
}

proof fn lemma_skips_by_membership(a: Seq<Seq<char>>, b: Seq<Seq<char>>, link: Seq<char>)
    requires
        a.to_multiset() == b.to_multiset(),
        skips(a, link),
    ensures
        skips(b, link),
{
    let i = choose|i: int| 0 <= i < a.len() && #[trigger] pattern_matches(a[i], link);
    assert(a.contains(a[i]));
    vstd::seq_lib::to_multiset_contains(a, a[i]);
    vstd::seq_lib::to_multiset_contains(b, a[i]);
    let j = choose|j: int| 0 <= j < b.len() && b[j] == a[i];
    assert(pattern_matches(b[j], link));
}

} // verus!
