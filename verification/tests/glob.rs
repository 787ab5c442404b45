use snowdrop::glob::{compiles, is_portable, is_within_limits, MAX_PATTERN_CHARS, MAX_PATTERN_GROUPS};
use snowdrop::picker::{AssetPicker, ChooseError, ReleaseAsset};
use snowdrop::platform::PlatformDescriptor;

fn named(name: &str) -> ReleaseAsset {
    ReleaseAsset { id: 1, name: name.to_string(), size: 0, download_url: String::new() }
}

fn picker() -> AssetPicker {
    AssetPicker::for_platform(PlatformDescriptor::new("x86_64-unknown-linux-gnu", "linux"))
}

fn nested(depth: usize) -> String {
    let mut pattern = "x".to_string();
    for _ in 0..depth {
        pattern = format!("{{a,b{pattern}}}");
    }
    pattern
}

#[test]
fn limits_are_what_they_are() {
    assert_eq!(MAX_PATTERN_CHARS, 1024);
    assert_eq!(MAX_PATTERN_GROUPS, 64);
}

#[test]
fn text_without_backslash_is_portable() {
    assert!(is_portable(""));
    assert!(is_portable("tool-*.tar.gz"));
    assert!(is_portable("a/b"));
    assert!(!is_portable("\\"));
    assert!(!is_portable("a\\b"));
    assert!(!is_portable("tool-\\*.zip"));
}

#[test]
fn pattern_length_is_limited() {
    assert!(is_within_limits(&"a".repeat(1024)));
    assert!(!is_within_limits(&"a".repeat(1025)));
    assert!(is_within_limits(&"\u{20ac}".repeat(1024)));
    assert!(!is_within_limits(&"\u{20ac}".repeat(1025)));
}

#[test]
fn pattern_groups_are_limited() {
    assert!(is_within_limits(&"{a}".repeat(64)));
    assert!(!is_within_limits(&"{a}".repeat(65)));
    assert!(is_within_limits(&"{".repeat(64)));
    assert!(!is_within_limits(&"{".repeat(65)));
    assert!(is_within_limits(&"}".repeat(200)));
}

#[test]
fn pattern_with_backslash_is_outside_the_limits() {
    assert!(!is_within_limits("tool-\\[.zip"));
    assert!(!compiles("tool-\\[.zip"));
}

#[test]
fn well_formed_patterns_compile() {
    for pattern in ["", "*", "tool-*.tar.gz", "tool-?.zip", "[a-z]*", "[!a-z]?", "{a,b}", "**/*.rs", "{{version}}"] {
        assert!(compiles(pattern), "{pattern}");
    }
}

#[test]
fn malformed_patterns_do_not_compile() {
    for pattern in ["[", "tool-[a-z.zip", "[z-a]", "{a,b", "a}", "tool-{.zip"] {
        assert!(!compiles(pattern), "{pattern}");
    }
}

#[test]
fn patterns_beyond_the_limits_do_not_compile() {
    assert!(compiles(&"a".repeat(1024)));
    assert!(!compiles(&"a".repeat(1025)));
    assert!(compiles(&"{a}".repeat(64)));
    assert!(!compiles(&"{a}".repeat(65)));
}

#[test]
fn deepest_nesting_within_the_limits_is_matched() {
    let pattern = nested(64);
    assert!(compiles(&pattern));
    let mut name = String::new();
    for _ in 0..64 {
        name.push('b');
    }
    name.push('x');
    let chosen = picker().choose_asset(vec![named("c"), named(&name), named("a")], pattern);
    assert_eq!(chosen, Ok(named(&name)));
}

#[test]
fn largest_patterns_within_the_limits_are_matched() {
    let classes = "[a-z\u{e9}-\u{20ac}]".repeat(128);
    assert_eq!(classes.chars().count(), 1024);
    let name = "q".repeat(128);
    assert_eq!(picker().choose_asset(vec![named(&name)], classes), Ok(named(&name)));

    let stars = "*a".repeat(512);
    let name = "a".repeat(600);
    assert_eq!(picker().choose_asset(vec![named(&name)], stars), Ok(named(&name)));

    let wide = "\u{10ffff}".repeat(1024);
    assert_eq!(picker().choose_asset(vec![named(&wide)], wide.clone()), Ok(named(&wide)));

    let groups = format!("{}{}", "{a,**/,[c-d]*}".repeat(64), "e");
    let name = "a".repeat(64) + "e";
    assert_eq!(picker().choose_asset(vec![named(&name)], groups), Ok(named(&name)));
}

#[test]
fn file_name_with_backslash_matches_nothing() {
    let assets = vec![named("tool\\linux.zip")];
    assert_eq!(
        picker().choose_asset(assets.clone(), "*".to_string()),
        Err(ChooseError::NoMatch(assets))
    );
}
