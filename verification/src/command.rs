//! The configured command line, split into a program and its arguments.

use vstd::prelude::*;
use crate::record::texts;

verus! {

/// Whether `c` has the Unicode property `White_Space`.
pub uninterp spec fn is_white_space(c: char) -> bool;

/// `char::is_whitespace` tells whether a character has the Unicode property
/// `White_Space`. Of the ASCII characters those are the tab, the line feed,
/// the vertical tab, the form feed, the carriage return and the space;
/// nothing is claimed of which others have it.
pub assume_specification[ char::is_whitespace ](c: char) -> (r: bool)
    ensures
        r == is_white_space(c),
        (c as u32) < 128 ==> (r <==> (9 <= (c as u32) <= 13 || (c as u32) == 32)),
;

/// The tokens of `line`: its maximal runs of characters that are not white
/// space, from left to right.
///
/// Read character by character: white space adds nothing; another character
/// extends the last token where the character before it belongs to one, and
/// starts a new token otherwise.
pub open spec fn tokens(line: Seq<char>) -> Seq<Seq<char>>
    decreases line.len(),
{
    if line.len() == 0 {
        Seq::empty()
    } else {
        let before = tokens(line.drop_last());
        let c = line.last();
        if is_white_space(c) {
            before
        } else if line.len() >= 2 && !is_white_space(line[line.len() - 2]) {
            before.drop_last().push(before.last().push(c))
        } else {
            before.push(seq![c])
        }
    }
}

/// Whether `token` is not empty and holds no white space.
pub open spec fn is_token(token: Seq<char>) -> bool {
    &&& token.len() > 0
    &&& forall|i: int| 0 <= i < token.len() ==> !is_white_space(#[trigger] token[i])
}

/// Every token of a line is a non-empty run without white space, and a line
/// that ends in such a character ends in its last token.
pub proof fn tokens_are_runs(line: Seq<char>)
    ensures
        forall|k: int| 0 <= k < tokens(line).len() ==> is_token(#[trigger] tokens(line)[k]),
        line.len() > 0 && !is_white_space(line.last()) ==> tokens(line).len() > 0,
    decreases line.len(),
{
    if line.len() > 0 {
        let shorter = line.drop_last();
        tokens_are_runs(shorter);
        let before = tokens(shorter);
        let c = line.last();
        if !is_white_space(c) {
            if line.len() >= 2 && !is_white_space(line[line.len() - 2]) {
                assert(shorter.last() == line[line.len() - 2]);
                let grown = before.last().push(c);
                assert(is_token(before[before.len() - 1]));
                assert(is_token(grown)) by {
                    assert forall|i: int| 0 <= i < grown.len() implies !is_white_space(
                        #[trigger] grown[i],
                    ) by {
                        if i < before.last().len() {
                            assert(grown[i] == before.last()[i]);
                        }
                    }
                }
                assert forall|k: int| 0 <= k < tokens(line).len() implies is_token(
                    #[trigger] tokens(line)[k],
                ) by {
                    if k < before.len() - 1 {
                        assert(tokens(line)[k] == before[k]);
                    }
                }
            } else {
                assert(is_token(seq![c]));
                assert forall|k: int| 0 <= k < tokens(line).len() implies is_token(
                    #[trigger] tokens(line)[k],
                ) by {
                    if k < before.len() {
                        assert(tokens(line)[k] == before[k]);
                    }
                }
            }
        }
    }
}

/// Splits `line` at white space into its tokens. Quotes mean nothing here:
/// an argument that holds a space comes out as two tokens.
pub fn split_command(line: &str) -> (r: Vec<String>)
    ensures
        texts(r@) == tokens(line@),
{
    let n = line.unicode_len();
    let mut out: Vec<String> = Vec::new();
    let mut start: usize = 0;
    let mut inside = false;
    let mut i: usize = 0;
    assert(line@.take(0) =~= Seq::<char>::empty());
    assert(texts(out@) =~= tokens(line@.take(0)));
    while i < n
        invariant
            n == line@.len(),
            i <= n,
            inside ==> start < i,
            inside <==> (i > 0 && !is_white_space(line@[i - 1])),
            tokens(line@.take(i as int)) == if inside {
                texts(out@).push(line@.subrange(start as int, i as int))
            } else {
                texts(out@)
            },
        decreases n - i,
    {
        let c = line.get_char(i);
        let ghost seen = line@.take(i as int);
        let ghost next = line@.take(i + 1);
        let ghost old_out = texts(out@);
        assert(next.drop_last() =~= seen);
        assert(next.last() == c);
        assert(i > 0 ==> next[next.len() - 2] == line@[i - 1]);
        if c.is_whitespace() {
            if inside {
                let token = line.substring_char(start, i).to_owned();
                out.push(token);
                assert(texts(out@) =~= old_out.push(line@.subrange(start as int, i as int)));
                inside = false;
            }
        } else if !inside {
            assert(line@.subrange(i as int, i + 1) =~= seq![c]);
            start = i;
            inside = true;
        } else {
            assert(line@.subrange(start as int, i + 1) =~= line@.subrange(
                start as int,
                i as int,
            ).push(c));
            assert(tokens(seen).drop_last() =~= old_out);
        }
        i = i + 1;
    }
    assert(line@.take(n as int) =~= line@);
    if inside {
        let ghost old_out = texts(out@);
        let token = line.substring_char(start, n).to_owned();
        out.push(token);
        assert(texts(out@) =~= old_out.push(line@.subrange(start as int, n as int)));
    }
    out
}

/// A program and the arguments to start it with.
#[derive(Debug)]
pub struct CommandLine {
    /// The executable: the first token of the configured line.
    pub program: String,
    /// The remaining tokens, in order.
    pub args: Vec<String>,
}

/// The command that `line` asks for: its first token is the program, the
/// others are the arguments. `None` where the line holds no token.
pub fn parse_command(line: &str) -> (r: Option<CommandLine>)
    ensures
        r is None <==> tokens(line@).len() == 0,
        r matches Some(command) ==> command.program@ == tokens(line@)[0] && texts(command.args@)
            == tokens(line@).skip(1),
{
    let mut parts = split_command(line);
    if parts.len() == 0 {
        None
    } else {
        let ghost all = parts@;
        let program = parts.remove(0);
        assert(texts(parts@) =~= texts(all).skip(1));
        assert(texts(all)[0] == program@);
        Some(CommandLine { program, args: parts })
    }
}

/// The line that the program's log gets where the application could not be
/// started: the configured command line, and below it the cause.
pub open spec fn spec_spawn_failure_message(line: Seq<char>, cause: Seq<char>) -> Seq<char> {
    "Failed to spawn subprocess. ("@ + line + ")\n\t"@ + cause
}

/// The line that the program's log gets where the application could not be
/// started.
pub fn spawn_failure_message(line: &str, cause: &str) -> (r: String)
    ensures
        r@ == spec_spawn_failure_message(line@, cause@),
{
    let mut message = "Failed to spawn subprocess. (".to_owned();
    message.append(line);
    message.append(")\n\t");
    message.append(cause);
    message
}

} // verus!
