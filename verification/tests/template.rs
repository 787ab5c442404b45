use snowdrop::platform::{Placeholder, PlatformDescriptor};
use snowdrop::template::expand;

fn linux() -> PlatformDescriptor {
    PlatformDescriptor::new("x86_64-unknown-linux-gnu", "linux")
}

fn macos() -> PlatformDescriptor {
    PlatformDescriptor::new("aarch64-apple-darwin", "macos")
}

#[test]
fn expand_replaces_the_triple() {
    assert_eq!(
        expand("tool-{{llvm_triple}}.tar.gz", &linux()),
        "tool-x86_64-unknown-linux-gnu.tar.gz"
    );
}

#[test]
fn expand_replaces_the_platform_name() {
    assert_eq!(expand("tool-{{basic_platform}}.zip", &linux()), "tool-linux.zip");
    assert_eq!(expand("tool-{{basic_platform}}.zip", &macos()), "tool-macos.zip");
}

#[test]
fn expand_replaces_the_platform_alias() {
    assert_eq!(expand("tool-{{basic_platform_osx}}.zip", &macos()), "tool-osx.zip");
    assert_eq!(expand("tool-{{basic_platform_osx}}.zip", &linux()), "tool-linux.zip");
}

#[test]
fn expand_replaces_every_occurrence() {
    assert_eq!(
        expand("{{basic_platform}}/{{basic_platform}}-{{llvm_triple}}-{{basic_platform}}", &linux()),
        "linux/linux-x86_64-unknown-linux-gnu-linux"
    );
}

#[test]
fn expand_replaces_placeholders_that_touch() {
    assert_eq!(
        expand("{{basic_platform}}{{basic_platform_osx}}{{llvm_triple}}", &macos()),
        "macososxaarch64-apple-darwin"
    );
}

#[test]
fn expand_is_the_whole_template_when_it_is_one_placeholder() {
    for placeholder in [
        Placeholder::LlvmTriple,
        Placeholder::BasicPlatform,
        Placeholder::BasicPlatformOsx,
    ] {
        let platform = macos();
        assert_eq!(expand(placeholder.token(), &platform), platform.value(placeholder));
    }
}

#[test]
fn expand_leaves_unknown_placeholders_alone() {
    assert_eq!(
        expand("tool-{{version}}-{{basic_platform}}.zip", &linux()),
        "tool-{{version}}-linux.zip"
    );
    assert_eq!(expand("{{LLVM_TRIPLE}}", &linux()), "{{LLVM_TRIPLE}}");
    assert_eq!(expand("{{ llvm_triple }}", &linux()), "{{ llvm_triple }}");
    assert_eq!(expand("{llvm_triple}", &linux()), "{llvm_triple}");
}

#[test]
fn expand_leaves_glob_syntax_alone() {
    let scheme = "tool-v?.*-[a-z]*{.tar.gz,.zip}";
    assert_eq!(expand(scheme, &linux()), scheme);
    assert_eq!(
        expand("*-{{llvm_triple}}?.tar.*", &linux()),
        "*-x86_64-unknown-linux-gnu?.tar.*"
    );
}

#[test]
fn expand_changes_nothing_without_placeholders() {
    for scheme in ["", "tool.zip", "{", "{{", "}}", "{{}}", "{{llvm_triple}", "{llvm_triple}}"] {
        let once = expand(scheme, &linux());
        assert_eq!(once, scheme);
        assert_eq!(expand(&once, &linux()), once);
    }
}

#[test]
fn expand_reads_a_placeholder_between_braces() {
    assert_eq!(expand("{{{basic_platform}}}", &linux()), "{linux}");
    assert_eq!(expand("{{{{basic_platform}}}}", &linux()), "{{linux}}");
}

#[test]
fn expand_does_not_read_a_value_again() {
    let odd = PlatformDescriptor::new("{{basic_platform}}", "platform");
    assert_eq!(expand("{{llvm_triple}}", &odd), "{{basic_platform}}");
    assert_eq!(expand("{{basic_{{basic_platform}}}}", &odd), "{{basic_platform}}");
}

#[test]
fn expand_keeps_text_outside_ascii() {
    assert_eq!(
        expand("outil-\u{e9}t\u{e9}-{{basic_platform}}-\u{5de5}\u{5177}.zip", &linux()),
        "outil-\u{e9}t\u{e9}-linux-\u{5de5}\u{5177}.zip"
    );
}

#[test]
fn expand_splits_at_a_placeholder() {
    let platform = linux();
    let before = "a-{{basic_platform}}-*";
    let after = "?.{{unknown}}.{{llvm_triple}}";
    let whole = format!("{before}{}{after}", Placeholder::BasicPlatformOsx.token());
    let expected = format!(
        "{}{}{}",
        expand(before, &platform),
        platform.value(Placeholder::BasicPlatformOsx),
        expand(after, &platform)
    );
    assert_eq!(expand(&whole, &platform), expected);
}

#[test]
fn expand_agrees_with_replacing_one_placeholder_after_another() {
    let platforms = [
        ("x86_64-unknown-linux-gnu", "linux"),
        ("aarch64-apple-darwin", "macos"),
        ("x86_64-pc-windows-msvc", "windows"),
        ("wasm32-wasi", "wasi"),
    ];
    let templates = [
        "tool-{{llvm_triple}}.tar.gz",
        "{{basic_platform}}-{{basic_platform_osx}}-{{llvm_triple}}",
        "{{basic_platform_osx}}{{basic_platform}}{{basic_platform_osx}}",
        "{{{llvm_triple}}}-{{basic_platform_{{basic_platform}}}}",
        "{{basic_platform_{{basic_platform_osx}}}}",
        "*-{{version}}-[{{basic_platform}}]?.{zip,tar.{gz,xz}}",
        "{{llvm_triple}{{llvm_triple}}}",
        "{{basic_platform}}}}{{{{basic_platform_osx}}",
        "",
    ];
    let orders: [[usize; 3]; 6] = [[0, 1, 2], [0, 2, 1], [1, 0, 2], [1, 2, 0], [2, 0, 1], [2, 1, 0]];
    for (triple, os) in platforms {
        let platform = PlatformDescriptor::new(triple, os);
        let pairs = [
            (Placeholder::LlvmTriple.token(), platform.value(Placeholder::LlvmTriple)),
            (Placeholder::BasicPlatform.token(), platform.value(Placeholder::BasicPlatform)),
            (Placeholder::BasicPlatformOsx.token(), platform.value(Placeholder::BasicPlatformOsx)),
        ];
        for template in templates {
            let expanded = expand(template, &platform);
            for order in orders {
                let mut replaced = template.to_string();
                for index in order {
                    replaced = replaced.replace(pairs[index].0, pairs[index].1);
                }
                assert_eq!(expanded, replaced, "{template} on {triple}");
            }
        }
    }
}
