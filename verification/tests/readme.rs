//! The README's text: example bodies and the page.

use scripty::chars::{chars_of, string_of};
use scripty::readme::{build_enhanced_readme, clean_example_content};

#[test]
fn body_of_main_is_cut_out() {
    let source = "//! An example.\n//\nuse scripty::*;\nuse std::io;\n\nfn main() -> Result<()> {\n    println!(\"hi\");\n    if x {\n        y();\n    }\n\n    Ok(())\n}\n\nfn helper() {}\n";
    assert_eq!(
        clean_example_content(source),
        "println!(\"hi\");\nif x {\n    y();\n}\nOk(())"
    );
}

#[test]
fn opening_brace_on_its_own_line() {
    let source = "fn main()\n{\n    a();\n  b();\n\tc();\n}\n";
    assert_eq!(clean_example_content(source), "a();\n  b();\n\tc();");
}

#[test]
fn nothing_without_main() {
    assert_eq!(clean_example_content(""), "");
    assert_eq!(clean_example_content("// only a comment\nuse a::b;\nfn other() {\n    x();\n}\n"), "");
}

#[test]
fn carriage_returns_before_line_feeds_are_dropped() {
    let source = "fn main() {\r\n    a();\r\n    \r\n    b();\r\n}\r\nrest\r\n";
    assert_eq!(clean_example_content(source), "a();\nb();");
}

#[test]
fn last_line_needs_no_ending() {
    assert_eq!(clean_example_content("fn main() {\n    only();"), "only();");
    assert_eq!(clean_example_content("fn main() {\n    a();\n}"), "a();");
}

#[test]
fn comments_inside_main_stay() {
    let source = "    // indented comment before main\n  use x;\nfn main() {\n    // kept\n    use inner;\n    run();\n}\n";
    assert_eq!(clean_example_content(source), "// kept\nuse inner;\nrun();");
}

#[test]
fn closing_brace_counts_only_at_depth_zero() {
    let source = "fn main() {\n    {\n        deep();\n    }\n}\nafter();\n";
    // The lone opening brace is passed over, its closing brace is kept.
    assert_eq!(clean_example_content(source), "    deep();\n}");
}

#[test]
fn blank_and_space_only_lines_are_dropped() {
    let source = "fn main() {\n\n        \n    a();\n \n    \u{a0}\n}\n";
    assert_eq!(clean_example_content(source), "a();");
}

#[test]
fn characters_round_trip() {
    let text = "a\u{e9}\u{1F600}\n\0z";
    assert_eq!(string_of(&chars_of(text)), text);
    assert_eq!(chars_of("").len(), 0);
    assert_eq!(chars_of("\u{1F600}x"), vec!['\u{1F600}', 'x']);
}

const HEAD: &str = "# scripty\n\n[![Crates.io](https://img.shields.io/crates/v/scripty.svg)](https://crates.io/crates/scripty)\n[![Documentation](https://docs.rs/scripty/badge.svg)](https://docs.rs/scripty)\n[![License: MIT](https://img.shields.io/badge/License-MIT-yellow.svg)](https://opensource.org/licenses/MIT)\n[![Build Status](https://github.com/MozkTaberenai/scripty/workflows/CI/badge.svg)](https://github.com/MozkTaberenai/scripty/actions)\n\n";

const FOOT: &str = "\n## Development\n\nThis project uses `cargo xtask` for development tasks:\n\n```bash\n# Generate README.md\ncargo xtask readme\n\n# Run all tests\ncargo xtask test\n\n# Run code formatting\ncargo xtask fmt\n\n# Run clippy lints\ncargo xtask clippy\n\n# Run full CI pipeline\ncargo xtask ci\n```\n\n";

#[test]
fn page_without_examples() {
    let page = build_enhanced_readme("Body text.\n", &Vec::new());
    assert_eq!(page, format!("{}Body text.\n{}", HEAD, FOOT));
}

#[test]
fn page_with_examples_in_the_order_given() {
    let examples = vec![
        ("00_hello".to_string(), "run();".to_string()),
        ("01_pipes".to_string(), "a();\nb();".to_string()),
    ];
    let page = build_enhanced_readme("Body.", &examples);
    let expected = format!(
        "{}Body.\n\n## Examples\n\nThe following examples are available in the `examples/` directory:\n\n### 00_hello\n\n```rust\nrun();\n```\n\nRun with: `cargo run --example 00_hello`\n\n### 01_pipes\n\n```rust\na();\nb();\n```\n\nRun with: `cargo run --example 01_pipes`\n\n{}",
        HEAD, FOOT
    );
    assert_eq!(page, expected);
}

/// The same reading, written with the standard library's own notion of
/// lines, of white space and of prefixes.
fn by_the_standard_library(content: &str) -> String {
    let mut kept: Vec<&str> = Vec::new();
    let mut found_main = false;
    let mut in_main = false;
    let mut depth: i64 = 0;
    for line in content.lines() {
        let trimmed = line.trim();
        if !found_main && (trimmed.starts_with("//") || trimmed.starts_with("use ")) {
            continue;
        }
        if trimmed.starts_with("fn main()") {
            found_main = true;
            in_main = true;
            depth += line.chars().filter(|&c| c == '{').count() as i64;
            continue;
        }
        if in_main {
            depth += line.chars().filter(|&c| c == '{').count() as i64;
            depth -= line.chars().filter(|&c| c == '}').count() as i64;
            if depth >= 1 && trimmed == "{" {
                continue;
            }
            if depth == 0 && trimmed == "}" {
                break;
            }
            if let Some(rest) = line.strip_prefix("    ") {
                if !rest.trim().is_empty() {
                    kept.push(rest);
                }
            } else if !line.trim().is_empty() {
                kept.push(line);
            }
        }
    }
    kept.join("\n")
}

#[test]
fn agrees_with_the_standard_library_on_chosen_texts() {
    let samples = [
        "",
        "\n",
        "\r\n",
        "\r",
        "fn main() {\r",
        "fn main() {\n    a();\r",
        "fn main() {\n    a();\r\r\n}\n",
        "fn main() {\n\r\n    a();\n}",
        "fn main() {}\n    after();\n",
        "fn main() { {\n    }\n    x();\n}\n}\n",
        "  fn main() {\n     five();\n   three();\n}\n",
        "fn main(){\n    not_main();\n}\n",
        "// c\nfn main() {\n    a();\n}\nfn main() {\n    b();\n}\n",
        "fn main() {\n    }\n    tail();\n}\n",
        "fn main() {\n    \u{2003}\n    \u{a0}x\u{a0}\n\u{3000}\n}\n",
        "fn main() {\n    \u{200b}\n}\n",
        "use a;\n//x\nstruct S;\nfn main() {\n    use b;\n    //y\n}\n",
        "fn main() {\n{\n}\n    z();\n}\n",
        "fn main()\n\n{\n\n    a();\n\n}\n\n",
        "fn main() {\n    let s = \"{{{\";\n    b();\n}\n}\n}\n}\n    c();\n",
    ];
    for sample in samples {
        assert_eq!(clean_example_content(sample), by_the_standard_library(sample), "{:?}", sample);
    }
}

#[test]
fn agrees_with_the_standard_library_on_many_texts() {
    let pieces = [
        "\n", "\n", "\r\n", "\r", " ", "    ", "\t", "{", "}", "fn main()", "fn main() {", "//",
        "use ", "x();", "\u{a0}", "\u{2003}", "é", "    }", "    {",
    ];
    let mut seed: u64 = 0x2545_F491_4F6C_DD1D;
    let mut next = move || {
        seed ^= seed << 13;
        seed ^= seed >> 7;
        seed ^= seed << 17;
        seed
    };
    for _ in 0..3000 {
        let mut text = String::new();
        if next() % 2 == 0 {
            text.push_str("fn main() {\n");
        }
        let len = next() % 24;
        for _ in 0..len {
            text.push_str(pieces[(next() % pieces.len() as u64) as usize]);
        }
        assert_eq!(clean_example_content(&text), by_the_standard_library(&text), "{:?}", text);
    }
}
