use mdbook_linkcheck::config::{DEFAULT_CACHE_TIMEOUT, DEFAULT_USER_AGENT};
use mdbook_linkcheck::{
    default_cache_timeout, default_user_agent, deserialize, serialize, Config, Pattern, RawConfig,
};

const CONFIG: &str = r#"follow-web-links = true
traverse-parent-directories = true
exclude = ["google\\.com"]
user-agent = "Internet Explorer"
cache-timeout = 3600
"#;

fn raw_from_toml(text: &str) -> RawConfig {
    let doc: toml::Value = toml::from_str(text).unwrap();
    RawConfig {
        follow_web_links: doc.get("follow-web-links").map(|v| v.as_bool().unwrap()),
        traverse_parent_directories: doc
            .get("traverse-parent-directories")
            .map(|v| v.as_bool().unwrap()),
        exclude: doc.get("exclude").map(|v| {
            v.as_array()
                .unwrap()
                .iter()
                .map(|p| p.as_str().unwrap().to_string())
                .collect()
        }),
        user_agent: doc.get("user-agent").map(|v| v.as_str().unwrap().to_string()),
        cache_timeout: doc
            .get("cache-timeout")
            .map(|v| v.as_integer().unwrap() as u64),
    }
}

fn raw_to_toml(raw: &RawConfig) -> String {
    let mut table = toml::map::Map::new();
    if let Some(b) = raw.follow_web_links {
        table.insert("follow-web-links".to_string(), toml::Value::Boolean(b));
    }
    if let Some(b) = raw.traverse_parent_directories {
        table.insert("traverse-parent-directories".to_string(), toml::Value::Boolean(b));
    }
    if let Some(list) = &raw.exclude {
        let items = list.iter().map(|p| toml::Value::String(p.clone())).collect();
        table.insert("exclude".to_string(), toml::Value::Array(items));
    }
    if let Some(ua) = &raw.user_agent {
        table.insert("user-agent".to_string(), toml::Value::String(ua.clone()));
    }
    if let Some(n) = raw.cache_timeout {
        table.insert("cache-timeout".to_string(), toml::Value::Integer(n as i64));
    }
    toml::to_string(&toml::Value::Table(table)).unwrap()
}

fn empty_raw() -> RawConfig {
    RawConfig {
        follow_web_links: None,
        traverse_parent_directories: None,
        exclude: None,
        user_agent: None,
        cache_timeout: None,
    }
}

fn config_with(exclude: &[&str]) -> Config {
    Config {
        follow_web_links: true,
        traverse_parent_directories: false,
        exclude: exclude.iter().map(|p| Pattern::new(p).unwrap()).collect(),
        user_agent: String::from("checker"),
        cache_timeout: 60,
    }
}

#[test]
fn deserialize_a_config() {
    let should_be = Config {
        follow_web_links: true,
        traverse_parent_directories: true,
        exclude: vec![Pattern::new(r"google\.com").unwrap()],
        user_agent: String::from("Internet Explorer"),
        cache_timeout: 3600,
    };

    let got = Config::from_raw(raw_from_toml(CONFIG)).unwrap();

    assert_eq!(got, should_be);
}

#[test]
fn round_trip_config() {
    let deserialized = Config::from_raw(raw_from_toml(CONFIG)).unwrap();
    let reserialized = raw_to_toml(&deserialized.to_raw());

    assert_eq!(reserialized, CONFIG);
}

#[test]
fn default_constants() {
    assert_eq!(default_cache_timeout(), 43200);
    assert_eq!(DEFAULT_CACHE_TIMEOUT, 43200);
    assert_eq!(default_user_agent(), "mdbook-linkcheck-0.1.0");
    assert_eq!(default_user_agent(), DEFAULT_USER_AGENT);
}

#[test]
fn default_config_has_documented_values() {
    let c = Config::default();
    assert!(!c.follow_web_links);
    assert!(!c.traverse_parent_directories);
    assert!(c.exclude.is_empty());
    assert_eq!(c.user_agent, "mdbook-linkcheck-0.1.0");
    assert_eq!(c.cache_timeout, 43200);
}

#[test]
fn empty_input_gives_defaults() {
    let c = Config::from_raw(empty_raw()).unwrap();
    assert_eq!(c, Config::default());
    let c = Config::from_raw(raw_from_toml("")).unwrap();
    assert_eq!(c, Config::default());
}

#[test]
fn omitted_fields_take_defaults() {
    let c = Config::from_raw(raw_from_toml("follow-web-links = true\nexclude = [\"a+\"]\n")).unwrap();
    assert!(c.follow_web_links);
    assert!(!c.traverse_parent_directories);
    assert_eq!(c.exclude.len(), 1);
    assert_eq!(c.exclude[0].as_str(), "a+");
    assert_eq!(c.user_agent, DEFAULT_USER_AGENT);
    assert_eq!(c.cache_timeout, 43200);

    let c = Config::from_raw(raw_from_toml("cache-timeout = 5\nuser-agent = \"x\"\n")).unwrap();
    assert!(!c.follow_web_links);
    assert!(c.exclude.is_empty());
    assert_eq!(c.user_agent, "x");
    assert_eq!(c.cache_timeout, 5);
}

#[test]
fn round_trip_preserves_equality() {
    for c in [
        Config::default(),
        config_with(&[]),
        config_with(&[r"google\.com", "^https?://", "(a|b)*c"]),
    ] {
        let back = Config::from_raw(c.to_raw()).unwrap();
        assert_eq!(back, c);
    }
}

#[test]
fn to_raw_writes_every_option() {
    let raw = config_with(&["x.y"]).to_raw();
    assert_eq!(raw.follow_web_links, Some(true));
    assert_eq!(raw.traverse_parent_directories, Some(false));
    assert_eq!(raw.exclude, Some(vec!["x.y".to_string()]));
    assert_eq!(raw.user_agent, Some("checker".to_string()));
    assert_eq!(raw.cache_timeout, Some(60));
}

#[test]
fn should_skip_matches_substring() {
    let c = config_with(&[r"google\.com"]);
    assert!(c.should_skip("http://google.com/page"));
    assert!(!c.should_skip("http://example.com"));
}

#[test]
fn should_skip_with_no_patterns_is_false() {
    let c = Config::default();
    assert!(!c.should_skip("http://google.com/page"));
    assert!(!c.should_skip(""));
}

#[test]
fn should_skip_any_pattern() {
    let c = config_with(&["^ftp:", r"\.pdf$"]);
    assert!(c.should_skip("ftp://host/file"));
    assert!(c.should_skip("http://host/doc.pdf"));
    assert!(!c.should_skip("http://host/doc.pdf.html"));
}

#[test]
fn invalid_pattern_is_rejected() {
    let mut raw = empty_raw();
    raw.exclude = Some(vec!["(".to_string()]);
    let err = Config::from_raw(raw).unwrap_err();
    assert_eq!(err.pattern, "(");
    assert!(!err.reason.is_empty());

    let got = Config::from_raw(raw_from_toml("cache-timeout = 7\nexclude = [\"(\"]\n"));
    assert!(got.is_err());
}

#[test]
fn first_invalid_pattern_is_reported() {
    let raw = vec!["ok".to_string(), "[".to_string(), "(".to_string()];
    let err = deserialize(&raw).unwrap_err();
    assert_eq!(err.pattern, "[");
}

#[test]
fn pattern_new_keeps_source() {
    let p = Pattern::new(r"google\.com").unwrap();
    assert_eq!(p.as_str(), r"google\.com");
    assert!(p.is_match("www.google.com"));
    assert!(!p.is_match("googlexcom"));
    assert!(Pattern::new("(").is_err());
    assert_eq!(Pattern::new("(").unwrap_err().pattern, "(");
}

#[test]
fn pattern_list_codec() {
    let patterns = vec![Pattern::new("a").unwrap(), Pattern::new(r"b\d+").unwrap()];
    let texts = serialize(&patterns);
    assert_eq!(texts, vec!["a".to_string(), r"b\d+".to_string()]);
    let back = deserialize(&texts).unwrap();
    assert_eq!(back, patterns);
    assert!(deserialize(&Vec::new()).unwrap().is_empty());
}

#[test]
fn equality_is_order_sensitive() {
    let a = config_with(&["a", "b"]);
    let b = config_with(&["b", "a"]);
    assert_ne!(a, b);
    for link in ["a", "b", "c", "ab"] {
        assert_eq!(a.should_skip(link), b.should_skip(link));
    }
    assert_eq!(a, config_with(&["a", "b"]));
}

#[test]
fn equality_compares_every_field() {
    let base = config_with(&["a"]);
    let mut other = config_with(&["a"]);
    other.cache_timeout = 61;
    assert_ne!(base, other);
    let mut other = config_with(&["a"]);
    other.user_agent = String::from("other");
    assert_ne!(base, other);
    let mut other = config_with(&["a"]);
    other.traverse_parent_directories = true;
    assert_ne!(base, other);
    assert_ne!(base, config_with(&["a", "a"]));
    assert_ne!(base, config_with(&["b"]));
}
