//! The text of the project's README: the body of an example program, cut
//! out of its source, and the page that is put together from the crate's
//! documentation and the examples.

use crate::chars::chars_of;
use crate::chars::count;
use crate::chars::count_in;
use crate::chars::find_line_end;
use crate::chars::join_lines;
use crate::chars::lemma_line_end;
use crate::chars::lines_from;
use crate::chars::lines_of;
use crate::chars::range_is;
use crate::chars::range_starts_with;
use crate::chars::starts_with;
use crate::chars::string_of;
use crate::chars::trim_range;
use crate::chars::trimmed;
use vstd::prelude::*;
use vstd::string::StringExecFns;

verus! {

/// What is known while the lines of an example are read one by one.
pub struct Scan {
    /// Whether the line that opens `main` was seen.
    pub found_main: bool,
    /// Whether the lines being read belong to `main`.
    pub in_main: bool,
    /// Opening braces seen less closing braces seen.
    pub depth: int,
    /// Whether the brace that closes `main` was seen: nothing is read then.
    pub done: bool,
    /// The lines of the body that are kept, in order.
    pub kept: Seq<Seq<char>>,
}

/// Before the first line.
pub open spec fn scan_start() -> Scan {
    Scan { found_main: false, in_main: false, depth: 0, done: false, kept: Seq::empty() }
}

/// What a line inside `main` contributes to the body: without its first
/// four spaces where it has them, and nothing where only white space is
/// left of it.
pub open spec fn body_line(line: Seq<char>) -> Option<Seq<char>> {
    if starts_with(line, "    "@) {
        if trimmed(line.skip(4)).len() > 0 {
            Some(line.skip(4))
        } else {
            None
        }
    } else if trimmed(line).len() > 0 {
        Some(line)
    } else {
        None
    }
}

/// The state after one more line. Before `main`, comments and imports are
/// passed over, and so is everything else. The line that opens `main` is
/// passed over, and its opening braces count. Inside `main` braces are
/// counted; a line that is a lone opening brace is passed over, the lone
/// brace that brings the count to zero ends the reading, and every other
/// line goes to the body, one level of indentation less, unless it is blank.
pub open spec fn scan_line(st: Scan, line: Seq<char>) -> Scan {
    let t = trimmed(line);
    if st.done {
        st
    } else if !st.found_main && (starts_with(t, "//"@) || starts_with(t, "use "@)) {
        st
    } else if starts_with(t, "fn main()"@) {
        Scan { found_main: true, in_main: true, depth: st.depth + count(line, '{'), ..st }
    } else if st.in_main {
        let depth = st.depth + count(line, '{') - count(line, '}');
        if depth >= 1 && t == "{"@ {
            Scan { depth, ..st }
        } else if depth == 0 && t == "}"@ {
            Scan { depth, done: true, ..st }
        } else {
            match body_line(line) {
                Some(kept) => Scan { depth, kept: st.kept.push(kept), ..st },
                None => Scan { depth, ..st },
            }
        }
    } else {
        st
    }
}

/// The state after the lines `lines`, read in order.
pub open spec fn scan_lines(st: Scan, lines: Seq<Seq<char>>) -> Scan
    decreases lines.len(),
{
    if lines.len() == 0 {
        st
    } else {
        scan_lines(scan_line(st, lines[0]), lines.drop_first())
    }
}

/// The body of the `main` function of the example `content`, as it is
/// shown in the README: the kept lines, joined by line feeds.
pub open spec fn cleaned(content: Seq<char>) -> Seq<char> {
    join_lines(scan_lines(scan_start(), lines_of(content)).kept)
}

/// Once the reading has ended no line changes anything.
pub proof fn lemma_done_stays(st: Scan, lines: Seq<Seq<char>>)
    requires
        st.done,
    ensures
        scan_lines(st, lines) == st,
    decreases lines.len(),
{
    if lines.len() > 0 {
        lemma_done_stays(st, lines.drop_first());
    }
}

/// Appends the stretch `[from, to)` of `text` to `out`.
fn append_range(out: &mut Vec<char>, text: &Vec<char>, from: usize, to: usize)
    requires
        from <= to <= text@.len(),
    ensures
        final(out)@ == old(out)@ + text@.subrange(from as int, to as int),
{
    let mut i = from;
    assert(out@ =~= old(out)@ + text@.subrange(from as int, from as int));
    while i < to
        invariant
            from <= i <= to <= text.len(),
            out@ == old(out)@ + text@.subrange(from as int, i as int),
        decreases to - i,
    {
        out.push(text[i]);
        i += 1;
    }
}

/// The fixed texts that the reading looks for.
struct Marks {
    slashes: Vec<char>,
    import: Vec<char>,
    main_head: Vec<char>,
    open: Vec<char>,
    close: Vec<char>,
    indent: Vec<char>,
}

impl Marks {
    spec fn wf(&self) -> bool {
        &&& self.slashes@ == "//"@
        &&& self.import@ == "use "@
        &&& self.main_head@ == "fn main()"@
        &&& self.open@ == "{"@
        &&& self.close@ == "}"@
        &&& self.indent@ == "    "@
        &&& self.indent@.len() == 4
    }

    fn new() -> (marks: Marks)
        ensures
            marks.wf(),
    {
        proof {
            reveal_strlit("    ");
        }
        Marks {
            slashes: chars_of("//"),
            import: chars_of("use "),
            main_head: chars_of("fn main()"),
            open: chars_of("{"),
            close: chars_of("}"),
            indent: chars_of("    "),
        }
    }
}

/// The reading's state as the machine holds it.
struct Progress {
    found_main: bool,
    in_main: bool,
    done: bool,
    depth: i128,
    any_kept: bool,
}

impl Progress {
    spec fn agrees(&self, st: Scan) -> bool {
        &&& self.found_main == st.found_main
        &&& self.in_main == st.in_main
        &&& self.done == st.done
        &&& self.depth == st.depth
        &&& self.any_kept == (st.kept.len() > 0)
    }
}

/// Where the part of the line `[from, to)` begins that goes to the body,
/// if any part does.
fn body_start(text: &Vec<char>, from: usize, to: usize, marks: &Marks) -> (start: Option<usize>)
    requires
        from <= to <= text@.len(),
        marks.wf(),
    ensures
        match start {
            Some(at) => from <= at <= to && body_line(text@.subrange(from as int, to as int))
                == Some(text@.subrange(at as int, to as int)),
            None => body_line(text@.subrange(from as int, to as int)) is None,
        },
{
    let ghost line = text@.subrange(from as int, to as int);
    if range_starts_with(text, from, to, &marks.indent) {
        assert(line.skip(4) =~= text@.subrange(from + 4, to as int));
        let (a, b) = trim_range(text, from + 4, to);
        if a < b {
            Some(from + 4)
        } else {
            None
        }
    } else {
        let (a, b) = trim_range(text, from, to);
        if a < b {
            Some(from)
        } else {
            None
        }
    }
}

/// Reads the line `[from, to)`: the state after it, with what it adds to
/// the body appended to `out`.
fn read_line(
    text: &Vec<char>,
    from: usize,
    to: usize,
    marks: &Marks,
    now: Progress,
    out: &mut Vec<char>,
    Ghost(st): Ghost<Scan>,
) -> (after: Progress)
    requires
        from <= to <= text@.len(),
        marks.wf(),
        now.agrees(st),
        !now.done,
        -(from as int) <= now.depth <= from,
        old(out)@ == join_lines(st.kept),
    ensures
        after.agrees(scan_line(st, text@.subrange(from as int, to as int))),
        -(to as int) <= after.depth <= to,
        final(out)@ == join_lines(scan_line(st, text@.subrange(from as int, to as int)).kept),
{
    let ghost line = text@.subrange(from as int, to as int);
    let (ta, tb) = trim_range(text, from, to);
    if !now.found_main && (range_starts_with(text, ta, tb, &marks.slashes) || range_starts_with(
        text,
        ta,
        tb,
        &marks.import,
    )) {
        now
    } else if range_starts_with(text, ta, tb, &marks.main_head) {
        let opens = count_in(text, from, to, '{');
        Progress {
            found_main: true,
            in_main: true,
            done: now.done,
            depth: now.depth + opens as i128,
            any_kept: now.any_kept,
        }
    } else if now.in_main {
        let opens = count_in(text, from, to, '{');
        let closes = count_in(text, from, to, '}');
        let depth = now.depth + opens as i128 - closes as i128;
        if depth >= 1 && range_is(text, ta, tb, &marks.open) {
            Progress { depth, ..now }
        } else if depth == 0 && range_is(text, ta, tb, &marks.close) {
            Progress { depth, done: true, ..now }
        } else {
            match body_start(text, from, to, marks) {
                Some(at) => {
                    let ghost piece = text@.subrange(at as int, to as int);
                    if now.any_kept {
                        out.push('\n');
                    }
                    append_range(out, text, at, to);
                    proof {
                        let kept = st.kept.push(piece);
                        assert(kept.drop_last() =~= st.kept);
                    }
                    Progress { depth, any_kept: true, ..now }
                },
                None => Progress { depth, ..now },
            }
        }
    } else {
        now
    }
}

/// Cuts the body of `main` out of the source of an example: what stands
/// before `main` is dropped, the lines of the body lose one level of
/// indentation, blank lines are dropped, and the reading ends at the brace
/// that closes `main`.
pub fn clean_example_content(content: &str) -> (body: String)
    ensures
        body@ == cleaned(content@),
{
    let text = chars_of(content);
    let marks = Marks::new();
    let mut out: Vec<char> = Vec::new();
    let mut now = Progress {
        found_main: false,
        in_main: false,
        done: false,
        depth: 0,
        any_kept: false,
    };
    let mut pos: usize = 0;
    let ghost mut st = scan_start();
    while pos < text.len() && !now.done
        invariant
            0 <= pos <= text.len(),
            text@ == content@,
            marks.wf(),
            now.agrees(st),
            -(pos as int) <= now.depth <= pos,
            out@ == join_lines(st.kept),
            scan_lines(st, lines_from(text@, pos as int)) == scan_lines(
                scan_start(),
                lines_of(text@),
            ),
        decreases text.len() - pos + (if now.done { 0int } else { 1int }),
    {
        let end = find_line_end(&text, pos);
        let terminated = end < text.len();
        let stop = if terminated && end > pos && text[end - 1] == '\r' {
            end - 1
        } else {
            end
        };
        let next = if terminated {
            end + 1
        } else {
            end
        };
        let ghost line = text@.subrange(pos as int, stop as int);
        proof {
            lemma_line_end(text@, pos as int);
            let whole = text@.subrange(pos as int, end as int);
            if terminated && whole.len() > 0 && whole.last() == '\r' {
                assert(whole.drop_last() =~= line);
            }
            let lines = lines_from(text@, pos as int);
            assert(lines == seq![line] + lines_from(text@, next as int));
            assert(lines.drop_first() =~= lines_from(text@, next as int));
        }
        now = read_line(&text, pos, stop, &marks, now, &mut out, Ghost(st));
        proof {
            st = scan_line(st, line);
        }
        pos = next;
    }
    proof {
        if now.done {
            lemma_done_stays(st, lines_from(text@, pos as int));
        }
    }
    string_of(&out)
}

/// The head of the page: the title and the badges.
pub open spec fn page_head() -> Seq<char> {
    "# scripty\n\n[![Crates.io](https://img.shields.io/crates/v/scripty.svg)](https://crates.io/crates/scripty)\n[![Documentation](https://docs.rs/scripty/badge.svg)](https://docs.rs/scripty)\n[![License: MIT](https://img.shields.io/badge/License-MIT-yellow.svg)](https://opensource.org/licenses/MIT)\n[![Build Status](https://github.com/MozkTaberenai/scripty/workflows/CI/badge.svg)](https://github.com/MozkTaberenai/scripty/actions)\n\n"@
}

/// The foot of the page: how the project is developed.
pub open spec fn page_foot() -> Seq<char> {
    "\n## Development\n\nThis project uses `cargo xtask` for development tasks:\n\n```bash\n# Generate README.md\ncargo xtask readme\n\n# Run all tests\ncargo xtask test\n\n# Run code formatting\ncargo xtask fmt\n\n# Run clippy lints\ncargo xtask clippy\n\n# Run full CI pipeline\ncargo xtask ci\n```\n\n"@
}

/// The section of one example: its name as a heading, its body as a block
/// of code, and the command that runs it.
pub open spec fn example_section(name: Seq<char>, body: Seq<char>) -> Seq<char> {
    "### "@ + name + "\n\n"@ + "```rust\n"@ + body + "\n```\n\n"@
        + "Run with: `cargo run --example "@ + name + "`\n\n"@
}

/// The sections of the examples, in the order given.
pub open spec fn example_sections(examples: Seq<(Seq<char>, Seq<char>)>) -> Seq<char>
    decreases examples.len(),
{
    if examples.len() == 0 {
        Seq::empty()
    } else {
        example_sections(examples.drop_last()) + example_section(
            examples.last().0,
            examples.last().1,
        )
    }
}

/// The part of the page on the examples: nothing where there are none.
pub open spec fn examples_part(examples: Seq<(Seq<char>, Seq<char>)>) -> Seq<char> {
    if examples.len() == 0 {
        Seq::empty()
    } else {
        "\n\n## Examples\n\n"@
            + "The following examples are available in the `examples/` directory:\n\n"@
            + example_sections(examples)
    }
}

/// The whole page: head, the crate's documentation, examples, foot.
pub open spec fn enhanced_readme(base: Seq<char>, examples: Seq<(Seq<char>, Seq<char>)>) -> Seq<
    char,
> {
    page_head() + base + examples_part(examples) + page_foot()
}

/// Puts the page together from the crate's documentation `base` and the
/// examples, each a name with a body, in the order given.
pub fn build_enhanced_readme(base: &str, examples: &Vec<(String, String)>) -> (page: String)
    ensures
        page@ == enhanced_readme(base@, examples.deep_view()),
{
    let mut page = String::new();
    page.append(
        "# scripty\n\n[![Crates.io](https://img.shields.io/crates/v/scripty.svg)](https://crates.io/crates/scripty)\n[![Documentation](https://docs.rs/scripty/badge.svg)](https://docs.rs/scripty)\n[![License: MIT](https://img.shields.io/badge/License-MIT-yellow.svg)](https://opensource.org/licenses/MIT)\n[![Build Status](https://github.com/MozkTaberenai/scripty/workflows/CI/badge.svg)](https://github.com/MozkTaberenai/scripty/actions)\n\n",
    );
    page.append(base);
    let ghost start = page@;
    assert(start =~= page_head() + base@);
    if examples.len() > 0 {
        page.append("\n\n## Examples\n\n");
        page.append("The following examples are available in the `examples/` directory:\n\n");
        let ghost intro = page@;
        let mut i: usize = 0;
        assert(examples.deep_view().take(0) =~= Seq::empty());
        while i < examples.len()
            invariant
                0 <= i <= examples.len(),
                page@ == intro + example_sections(examples.deep_view().take(i as int)),
            decreases examples.len() - i,
        {
            let ghost upto = examples.deep_view().take(i + 1);
            assert(upto.drop_last() =~= examples.deep_view().take(i as int));
            page.append("### ");
            page.append(examples[i].0.as_str());
            page.append("\n\n");
            page.append("```rust\n");
            page.append(examples[i].1.as_str());
            page.append("\n```\n\n");
            page.append("Run with: `cargo run --example ");
            page.append(examples[i].0.as_str());
            page.append("`\n\n");
            i += 1;
        }
        assert(examples.deep_view().take(i as int) =~= examples.deep_view());
    } else {
        assert(page@ =~= start + examples_part(examples.deep_view()));
    }
    page.append(
        "\n## Development\n\nThis project uses `cargo xtask` for development tasks:\n\n```bash\n# Generate README.md\ncargo xtask readme\n\n# Run all tests\ncargo xtask test\n\n# Run code formatting\ncargo xtask fmt\n\n# Run clippy lints\ncargo xtask clippy\n\n# Run full CI pipeline\ncargo xtask ci\n```\n\n",
    );
    page
}

} // verus!
