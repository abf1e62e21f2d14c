//! The commands of the debug console, which drives the machine one cycle at
//! a time.

use vstd::prelude::*;
use vstd::string::StringSliceAdditionalSpecFns;

verus! {

/// What a line that was typed at the console asks for.
#[derive(Debug, Clone, Copy, PartialEq, Eq, Structural)]
pub enum Command {
    /// `r` or `run`: let the machine run freely from now on.
    Run,
    /// `h` or `help`: explain the commands.
    Help,
    /// An empty line: take one more cycle.
    Step,
    /// Anything else.
    Invalid,
}

/// Whether a byte is a blank: a space, a tab, or one of the characters that
/// end or feed a line.
pub open spec fn is_blank(byte: u8) -> bool {
    byte == 0x20 || (0x09 <= byte && byte <= 0x0d)
}

/// A line without the blanks at its start and at its end.
pub open spec fn trimmed(line: Seq<u8>) -> Seq<u8>
    decreases line.len(),
{
    if line.len() > 0 && is_blank(line[0]) {
        trimmed(line.skip(1))
    } else if line.len() > 0 && is_blank(line.last()) {
        trimmed(line.drop_last())
    } else {
        line
    }
}

/// The command that a word stands for.
pub open spec fn command_of(word: Seq<u8>) -> Command {
    if word == seq![0x72u8] || word == seq![0x72u8, 0x75u8, 0x6eu8] {
        Command::Run
    } else if word == seq![0x68u8] || word == seq![0x68u8, 0x65u8, 0x6cu8, 0x70u8] {
        Command::Help
    } else if word.len() == 0 {
        Command::Step
    } else {
        Command::Invalid
    }
}

/// Blanks before `from` and from `to` on do not count.
proof fn lemma_trimmed_within(line: Seq<u8>, from: int, to: int)
    requires
        0 <= from <= to <= line.len(),
        forall|k: int| 0 <= k < from ==> is_blank(line[k]),
        forall|k: int| to <= k < line.len() ==> is_blank(line[k]),
    ensures
        trimmed(line) == trimmed(line.subrange(from, to)),
    decreases line.len(),
{
    let inner = line.subrange(from, to);
    if from == 0 && to == line.len() {
        assert(inner =~= line);
    } else if from > 0 {
        let rest = line.skip(1);
        assert(rest.subrange(from - 1, to - 1) =~= inner);
        lemma_trimmed_within(rest, from - 1, to - 1);
    } else if is_blank(line[0]) {
        let rest = line.skip(1);
        if to == 0 {
            assert(inner =~= Seq::<u8>::empty());
            lemma_trimmed_within(rest, 0, 0);
            assert(rest.subrange(0, 0) =~= inner);
        } else {
            assert(inner.skip(1) =~= rest.subrange(0, to - 1));
            lemma_trimmed_within(rest, 0, to - 1);
        }
    } else {
        let rest = line.drop_last();
        assert(rest.subrange(0, to) =~= inner);
        lemma_trimmed_within(rest, 0, to);
    }
}

fn blank(byte: u8) -> (b: bool)
    ensures
        b == is_blank(byte),
{
    byte == 0x20 || (0x09 <= byte && byte <= 0x0d)
}

/// Whether the bytes of `line` from `from` to `to` are those of `word`.
fn matches_word(line: &[u8], from: usize, to: usize, word: &[u8]) -> (same: bool)
    requires
        from <= to <= line@.len(),
    ensures
        same == (line@.subrange(from as int, to as int) == word@),
{
    let ghost part = line@.subrange(from as int, to as int);
    if to - from != word.len() {
        return false;
    }
    let mut i: usize = 0;
    while i < word.len()
        invariant
            i <= word@.len(),
            from <= to <= line@.len(),
            to - from == word@.len(),
            part == line@.subrange(from as int, to as int),
            forall|k: int| 0 <= k < i ==> part[k] == word@[k],
        decreases word@.len() - i,
    {
        if line[from + i] != word[i] {
            assert(part[i as int] != word@[i as int]);
            return false;
        }
        i += 1;
    }
    assert(part =~= word@);
    true
}

/// Reads the command that a line of the console holds.
pub fn parse_command(line: &str) -> (command: Command)
    ensures
        command == command_of(trimmed(line.spec_bytes())),
{
    let bytes = line.as_bytes();
    let mut from: usize = 0;
    while from < bytes.len() && blank(bytes[from])
        invariant
            from <= bytes@.len(),
            forall|k: int| 0 <= k < from ==> is_blank(bytes@[k]),
        decreases bytes@.len() - from,
    {
        from += 1;
    }
    let mut to: usize = bytes.len();
    while to > from && blank(bytes[to - 1])
        invariant
            from <= to <= bytes@.len(),
            forall|k: int| to <= k < bytes@.len() ==> is_blank(bytes@[k]),
        decreases to,
    {
        to -= 1;
    }
    let ghost word = bytes@.subrange(from as int, to as int);
    proof {
        lemma_trimmed_within(bytes@, from as int, to as int);
        if word.len() > 0 {
            assert(word[0] == bytes@[from as int]);
            assert(word.last() == bytes@[to - 1]);
        }
        assert(trimmed(word) == word);
    }
    let run_short: [u8; 1] = [0x72];
    let run_long: [u8; 3] = [0x72, 0x75, 0x6e];
    let help_short: [u8; 1] = [0x68];
    let help_long: [u8; 4] = [0x68, 0x65, 0x6c, 0x70];
    assert(run_short@ =~= seq![0x72u8]);
    assert(run_long@ =~= seq![0x72u8, 0x75u8, 0x6eu8]);
    assert(help_short@ =~= seq![0x68u8]);
    assert(help_long@ =~= seq![0x68u8, 0x65u8, 0x6cu8, 0x70u8]);
    if matches_word(bytes, from, to, run_short.as_slice()) || matches_word(
        bytes,
        from,
        to,
        run_long.as_slice(),
    ) {
        Command::Run
    } else if matches_word(bytes, from, to, help_short.as_slice()) || matches_word(
        bytes,
        from,
        to,
        help_long.as_slice(),
    ) {
        Command::Help
    } else if to == from {
        Command::Step
    } else {
        Command::Invalid
    }
}

} // verus!
