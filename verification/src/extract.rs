//! The grammar of commands in a model's answer.
//!
//! Two rules find shell commands in free text. A fenced block opens with
//! three backticks and one of the tags `bash`, `sh`, `shell`, followed by
//! blanks up to a line feed, and closes at the next three backticks; every
//! line of it that is not empty and not a `#` comment is a command. And a line
//! of the form `$ text` is a command too, unless the same command was found
//! before it. What the two rules find comes out in the order of the text.

use vstd::prelude::*;
use crate::models::CommandSource;
use crate::text::{
    find_from, first_match, has_prefix, is_whitespace, lines_of, match_at, matches_at, numbered,
    numbered_lines, same, slice, split_lines, split_numbered, starts_with, texts, to_chars, trim,
    trimmed, whitespace,
};

verus! {

/// From index `k` on, `s` holds only whitespace up to and including a line
/// feed.
pub open spec fn blank_to_newline(s: Seq<char>, k: int) -> bool
    decreases s.len() - k,
{
    if k < 0 || k >= s.len() {
        false
    } else if s[k] == '\n' {
        true
    } else if is_whitespace(s[k]) {
        blank_to_newline(s, k + 1)
    } else {
        false
    }
}

/// Where the body of a fenced shell block begins, if such a block opens at
/// `pos`: three backticks, a shell tag, blanks and a line feed.
pub open spec fn opener_at(s: Seq<char>, pos: int) -> Option<int> {
    if matches_at(s, "```bash"@, pos) && blank_to_newline(s, pos + 7) {
        Some(pos + 7)
    } else if matches_at(s, "```shell"@, pos) && blank_to_newline(s, pos + 8) {
        Some(pos + 8)
    } else if matches_at(s, "```sh"@, pos) && blank_to_newline(s, pos + 5) {
        Some(pos + 5)
    } else {
        None
    }
}

/// What `first_match` finds lies at or after `from`, is a match, and is the
/// first one.
pub proof fn lemma_first_match(hay: Seq<char>, needle: Seq<char>, from: int)
    ensures
        first_match(hay, needle, from) matches Some(i) ==> from <= i && matches_at(hay, needle, i)
            && forall|j: int| from <= j < i ==> !matches_at(hay, needle, j),
        first_match(hay, needle, from) is None && 0 <= from ==> forall|j: int|
            from <= j ==> !matches_at(hay, needle, j),
    decreases hay.len() - from + 1,
{
    if from < 0 || from + needle.len() > hay.len() {
    } else if matches_at(hay, needle, from) {
    } else {
        lemma_first_match(hay, needle, from + 1);
    }
}

/// The fenced shell blocks of `s` that open at or after `pos`, in the order
/// of the text, each as the index where it opens and its body. A block runs
/// from its opener to the first three backticks after it; the next block is
/// looked for behind those. An opener that nothing closes opens no block.
pub open spec fn blocks_from(s: Seq<char>, pos: int) -> Seq<(int, Seq<char>)>
    decreases s.len() - pos,
    via blocks_from_decreases
{
    if pos < 0 || pos >= s.len() {
        Seq::empty()
    } else {
        match opener_at(s, pos) {
            Some(start) => match first_match(s, "```"@, start) {
                Some(end) => seq![(pos, s.subrange(start, end))] + blocks_from(s, end + 3),
                None => blocks_from(s, pos + 1),
            },
            None => blocks_from(s, pos + 1),
        }
    }
}

#[via_fn]
proof fn blocks_from_decreases(s: Seq<char>, pos: int) {
    if 0 <= pos < s.len() {
        match opener_at(s, pos) {
            Some(start) => {
                lemma_first_match(s, "```"@, start);
                reveal_strlit("```");
            },
            None => {},
        }
    }
}

/// A trimmed line that is a command: not empty and not a comment.
pub open spec fn is_command_line(line: Seq<char>) -> bool {
    line.len() > 0 && line[0] != '#'
}

/// The commands among `lines`: each line trimmed, empty lines and comments
/// left out.
pub open spec fn command_lines(lines: Seq<Seq<char>>) -> Seq<Seq<char>>
    decreases lines.len(),
{
    if lines.len() == 0 {
        Seq::empty()
    } else {
        let before = command_lines(lines.drop_last());
        let line = trimmed(lines.last());
        if is_command_line(line) {
            before.push(line)
        } else {
            before
        }
    }
}

/// Whether a line of a block, as it stands, gives a command.
pub open spec fn gives_command() -> spec_fn(Seq<char>) -> bool {
    |line: Seq<char>| is_command_line(trimmed(line))
}

/// As many commands come out of some lines as there are lines among them
/// that give one.
pub proof fn lemma_command_count(lines: Seq<Seq<char>>)
    ensures
        command_lines(lines).len() == lines.filter(gives_command()).len(),
    decreases lines.len(),
{
    reveal(Seq::filter);
    if lines.len() > 0 {
        lemma_command_count(lines.drop_last());
    }
}

/// For any fenced block, the number of commands extracted from it is the
/// number of its lines that are not empty and do not begin with `#`.
pub proof fn lemma_block_command_count(body: Seq<char>)
    ensures
        block_commands(body).len() == lines_of(trimmed(body)).filter(gives_command()).len(),
{
    lemma_command_count(lines_of(trimmed(body)));
}

/// The commands of one fenced block.
pub open spec fn block_commands(body: Seq<char>) -> Seq<Seq<char>> {
    command_lines(lines_of(trimmed(body)))
}

/// A command as the extractor finds it: its text and the rule that found it.
pub type Found = (Seq<char>, CommandSource);

/// The commands `cmds`, marked as found by the rule `source`.
pub open spec fn tagged(cmds: Seq<Seq<char>>, source: CommandSource) -> Seq<Found> {
    Seq::new(cmds.len(), |i: int| (cmds[i], source))
}

/// Whether a command with the text `c` is among `found`.
pub open spec fn holds_text(found: Seq<Found>, c: Seq<char>) -> bool {
    exists|i: int| 0 <= i < found.len() && (#[trigger] found[i]).0 == c
}

/// The command that a `$ text` line proposes.
pub open spec fn inline_command(line: Seq<char>) -> Option<Seq<char>> {
    let t = trimmed(line);
    if has_prefix(t, "$ "@) && trimmed(t.skip(2)).len() > 0 {
        Some(trimmed(t.skip(2)))
    } else {
        None
    }
}

/// `found`, and after it the command that `line` proposes, if it proposes
/// one that is not among `found`.
pub open spec fn with_inline(found: Seq<Found>, line: Seq<char>) -> Seq<Found> {
    match inline_command(line) {
        Some(c) => if holds_text(found, c) {
            found
        } else {
            found.push((c, CommandSource::Inline))
        },
        None => found,
    }
}

/// `found`, followed by what the blocks and the lines give, taken in the
/// order of the indices at which they begin, a block before a line that
/// begins where it does. A block gives all its commands; a line gives its
/// command unless that was found before.
pub open spec fn merged(
    blocks: Seq<(int, Seq<char>)>,
    lines: Seq<(int, Seq<char>)>,
    found: Seq<Found>,
) -> Seq<Found>
    decreases blocks.len() + lines.len(),
{
    if blocks.len() > 0 && (lines.len() == 0 || blocks[0].0 <= lines[0].0) {
        merged(
            blocks.drop_first(),
            lines,
            found + tagged(block_commands(blocks[0].1), CommandSource::Fenced),
        )
    } else if lines.len() > 0 {
        merged(blocks, lines.drop_first(), with_inline(found, lines[0].1))
    } else {
        found
    }
}

/// Every command of a text, in the order of the text.
pub open spec fn extracted_commands(s: Seq<char>) -> Seq<Found> {
    merged(blocks_from(s, 0), numbered_lines(s), Seq::empty())
}

/// The texts and rules that a sequence of found commands holds.
pub open spec fn found_views(v: Seq<(Vec<char>, CommandSource)>) -> Seq<Found> {
    Seq::new(v.len(), |i: int| (v[i].0@, v[i].1))
}

/// Whether only blanks stand between index `k` and the next line feed.
fn blank_line_rest(v: &Vec<char>, k: usize) -> (b: bool)
    ensures
        b == blank_to_newline(v@, k as int),
{
    let mut i: usize = k;
    while i < v.len()
        invariant
            k <= i,
            blank_to_newline(v@, k as int) == blank_to_newline(v@, i as int),
        decreases v.len() - i,
    {
        if v[i] == '\n' {
            return true;
        }
        if !whitespace(v[i]) {
            return false;
        }
        i += 1;
    }
    false
}

/// Where the body of the block that opens at `pos` begins.
fn opener(v: &Vec<char>, pos: usize) -> (r: Option<usize>)
    requires
        pos < v.len(),
    ensures
        match r {
            Some(start) => opener_at(v@, pos as int) == Some(start as int) && pos < start
                <= v.len(),
            None => opener_at(v@, pos as int) is None,
        },
{
    let bash = to_chars("```bash");
    let shell = to_chars("```shell");
    let sh = to_chars("```sh");
    proof {
        reveal_strlit("```bash");
        reveal_strlit("```shell");
        reveal_strlit("```sh");
    }
    if match_at(v, &bash, pos) && blank_line_rest(v, pos + 7) {
        Some(pos + 7)
    } else if match_at(v, &shell, pos) && blank_line_rest(v, pos + 8) {
        Some(pos + 8)
    } else if match_at(v, &sh, pos) && blank_line_rest(v, pos + 5) {
        Some(pos + 5)
    } else {
        None
    }
}

/// The fenced shell blocks of a text, each with the index where it opens.
pub fn fenced_blocks(v: &Vec<char>) -> (r: Vec<(usize, Vec<char>)>)
    ensures
        numbered(r@) == blocks_from(v@, 0),
{
    let fence = to_chars("```");
    proof {
        reveal_strlit("```");
    }
    let mut out: Vec<(usize, Vec<char>)> = Vec::new();
    let mut pos: usize = 0;
    assert(numbered(out@) + blocks_from(v@, 0) == blocks_from(v@, 0));
    while pos < v.len()
        invariant
            fence@ == "```"@,
            fence@.len() == 3,
            blocks_from(v@, 0) == numbered(out@) + blocks_from(v@, pos as int),
        decreases v.len() - pos,
    {
        let mut next: usize = pos + 1;
        match opener(v, pos) {
            Some(start) => {
                match find_from(v, &fence, start) {
                    Some(end) => {
                        let body = slice(v, start, end);
                        let ghost before = out@;
                        out.push((pos, body));
                        assert(numbered(out@) == numbered(before).push((pos as int, body@)));
                        assert(numbered(before) + (seq![(pos as int, body@)] + blocks_from(
                            v@,
                            end + 3,
                        )) == numbered(out@) + blocks_from(v@, end + 3));
                        next = end + 3;
                    },
                    None => {},
                }
            },
            None => {},
        }
        pos = next;
    }
    assert(numbered(out@) + blocks_from(v@, pos as int) == numbered(out@));
    out
}

/// Appends to `out` the commands of the block `body`.
fn push_block_commands(out: &mut Vec<(Vec<char>, CommandSource)>, body: &Vec<char>)
    ensures
        found_views(final(out)@) == found_views(old(out)@) + tagged(
            block_commands(body@),
            CommandSource::Fenced,
        ),
{
    let lines = split_lines(&trim(body));
    let ghost all = texts(lines@);
    let ghost start = found_views(out@);
    let mut i: usize = 0;
    assert(start + tagged(command_lines(all.take(0)), CommandSource::Fenced) == start);
    while i < lines.len()
        invariant
            i <= lines.len(),
            all == texts(lines@),
            found_views(out@) == start + tagged(
                command_lines(all.take(i as int)),
                CommandSource::Fenced,
            ),
        decreases lines.len() - i,
    {
        assert(all.take(i + 1).drop_last() == all.take(i as int));
        let line = trim(&lines[i]);
        if line.len() > 0 && line[0] != '#' {
            let ghost before = found_views(out@);
            out.push((line, CommandSource::Fenced));
            assert(found_views(out@) == before.push((line@, CommandSource::Fenced)));
            assert(found_views(out@) == start + tagged(
                command_lines(all.take(i + 1)),
                CommandSource::Fenced,
            ));
        }
        i += 1;
    }
    assert(all.take(lines.len() as int) == all);
}

/// Whether `found` already holds the text `c`.
fn holds(found: &Vec<(Vec<char>, CommandSource)>, c: &Vec<char>) -> (b: bool)
    ensures
        b == holds_text(found_views(found@), c@),
{
    let mut i: usize = 0;
    while i < found.len()
        invariant
            i <= found.len(),
            forall|j: int| 0 <= j < i ==> (#[trigger] found_views(found@)[j]).0 != c@,
        decreases found.len() - i,
    {
        if same(&found[i].0, c) {
            assert(found_views(found@)[i as int].0 == c@);
            return true;
        }
        i += 1;
    }
    false
}

/// The command that a `$ text` line proposes.
fn inline_of(line: &Vec<char>) -> (r: Option<Vec<char>>)
    ensures
        match r {
            Some(c) => inline_command(line@) == Some(c@),
            None => inline_command(line@) is None,
        },
{
    let t = trim(line);
    let mark = to_chars("$ ");
    proof {
        reveal_strlit("$ ");
    }
    if starts_with(&t, &mark) {
        let rest = slice(&t, 2, t.len());
        assert(t@.skip(2) == t@.subrange(2, t.len() as int));
        let c = trim(&rest);
        if c.len() > 0 {
            return Some(c);
        }
    }
    None
}

/// Every command of a text, in the order of the text, each with the rule
/// that found it.
pub fn command_texts(v: &Vec<char>) -> (r: Vec<(Vec<char>, CommandSource)>)
    ensures
        found_views(r@) == extracted_commands(v@),
{
    let blocks = fenced_blocks(v);
    let lines = split_numbered(v);
    let ghost bs = numbered(blocks@);
    let ghost ls = numbered(lines@);
    let mut out: Vec<(Vec<char>, CommandSource)> = Vec::new();
    let mut i: usize = 0;
    let mut j: usize = 0;
    assert(bs.skip(0) == bs);
    assert(ls.skip(0) == ls);
    assert(found_views(out@) == Seq::<Found>::empty());
    while i < blocks.len() || j < lines.len()
        invariant
            i <= blocks.len(),
            j <= lines.len(),
            bs == numbered(blocks@),
            ls == numbered(lines@),
            extracted_commands(v@) == merged(bs.skip(i as int), ls.skip(j as int), found_views(out@)),
        decreases blocks.len() - i + lines.len() - j,
    {
        if i < blocks.len() && (j >= lines.len() || blocks[i].0 <= lines[j].0) {
            assert(bs.skip(i as int).drop_first() == bs.skip(i + 1));
            assert(bs.skip(i as int)[0] == bs[i as int]);
            if j < lines.len() {
                assert(ls.skip(j as int)[0] == ls[j as int]);
            }
            push_block_commands(&mut out, &blocks[i].1);
            i += 1;
        } else {
            assert(ls.skip(j as int).drop_first() == ls.skip(j + 1));
            assert(ls.skip(j as int)[0] == ls[j as int]);
            if i < blocks.len() {
                assert(bs.skip(i as int)[0] == bs[i as int]);
            }
            match inline_of(&lines[j].1) {
                Some(c) => {
                    if !holds(&out, &c) {
                        let ghost before = found_views(out@);
                        out.push((c, CommandSource::Inline));
                        assert(found_views(out@) == before.push((c@, CommandSource::Inline)));
                    }
                },
                None => {},
            }
            j += 1;
        }
    }
    out
}

} // verus!
