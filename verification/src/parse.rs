//! The line-oriented command grammar: a `MOVE <theta> <rho>` line, split on
//! single spaces exactly as the input task splits a completed command
//! buffer.  Splitting on every single space means consecutive spaces
//! produce empty pieces; those travel on to numeric parsing, which rejects
//! them.

use vstd::prelude::*;

verus! {

/// Space, the argument separator.
pub const SEPARATOR: u8 = 32;

/// What a completed command line means.
#[derive(Debug, PartialEq, Eq)]
pub enum ParsedLine {
    /// The line's first piece is not the `MOVE` keyword (an empty or
    /// unknown command); it is silently ignored.
    NotMove,
    /// The keyword without two following pieces.
    MissingArgs,
    /// A move command with its two raw argument texts, still to be parsed
    /// as numbers by the caller.
    Move { theta_text: Vec<u8>, rho_text: Vec<u8> },
}

/// Index of the first separator at or after `from`, or the length when the
/// rest holds none: the end of the piece that starts at `from`.
pub open spec fn token_end(s: Seq<u8>, from: int) -> int
    recommends
        0 <= from <= s.len(),
    decreases s.len() - from,
{
    if from >= s.len() {
        s.len() as int
    } else if s[from] == SEPARATOR {
        from
    } else {
        token_end(s, from + 1)
    }
}

/// The byte sequence of the `MOVE` keyword.
pub open spec fn move_keyword() -> Seq<u8> {
    seq![77u8, 79u8, 86u8, 69u8]
}

/// The line's first piece.
pub open spec fn first_token(s: Seq<u8>) -> Seq<u8> {
    s.subrange(0, token_end(s, 0))
}

/// Whether the line is a move command at all.
pub open spec fn is_move_line(s: Seq<u8>) -> bool {
    first_token(s) == move_keyword()
}

/// End of the second piece (the angle argument).
pub open spec fn theta_end(s: Seq<u8>) -> int {
    token_end(s, token_end(s, 0) + 1)
}

/// Whether a second and a third piece exist: pieces exist exactly where a
/// separator ended the piece before them.
pub open spec fn has_both_args(s: Seq<u8>) -> bool {
    token_end(s, 0) < s.len() && theta_end(s) < s.len()
}

/// The raw text of the angle argument.
pub open spec fn theta_text(s: Seq<u8>) -> Seq<u8> {
    s.subrange(token_end(s, 0) + 1, theta_end(s))
}

/// The raw text of the radius argument.
pub open spec fn rho_text(s: Seq<u8>) -> Seq<u8> {
    s.subrange(theta_end(s) + 1, token_end(s, theta_end(s) + 1))
}

/// `token_end` stays within the line, lands on a separator unless it is the
/// line's end, and skips no separator.
pub proof fn lemma_token_end(s: Seq<u8>, from: int)
    requires
        0 <= from <= s.len(),
    ensures
        from <= token_end(s, from) <= s.len(),
        token_end(s, from) < s.len() ==> s[token_end(s, from)] == SEPARATOR,
        forall|k: int| from <= k < token_end(s, from) ==> s[k] != SEPARATOR,
    decreases s.len() - from,
{
    if from < s.len() && s[from] != SEPARATOR {
        lemma_token_end(s, from + 1);
    }
}

/// Finds the end of the piece that starts at `from`.
fn find_separator(line: &Vec<u8>, from: usize) -> (r: usize)
    requires
        from <= line@.len(),
    ensures
        r == token_end(line@, from as int),
        from <= r <= line@.len(),
{
    let mut i = from;
    while i < line.len() && line[i] != SEPARATOR
        invariant
            from <= i <= line@.len(),
            token_end(line@, from as int) == token_end(line@, i as int),
        decreases line@.len() - i,
    {
        i = i + 1;
    }
    proof {
        lemma_token_end(line@, i as int);
    }
    i
}

/// Copies `line[from..to]` out as its own vector.
fn copy_range(line: &Vec<u8>, from: usize, to: usize) -> (r: Vec<u8>)
    requires
        from <= to <= line@.len(),
    ensures
        r@ == line@.subrange(from as int, to as int),
{
    let mut out: Vec<u8> = Vec::new();
    let mut i = from;
    while i < to
        invariant
            from <= i <= to <= line@.len(),
            out@ == line@.subrange(from as int, i as int),
        decreases to - i,
    {
        let b = line[i];
        out.push(b);
        assert(out@ =~= line@.subrange(from as int, i + 1));
        i = i + 1;
    }
    out
}

/// Splits a completed command line into its meaning: not a move command at
/// all, a move command missing arguments, or a move command with its two
/// raw argument texts.
pub fn parse_move_line(line: &Vec<u8>) -> (r: ParsedLine)
    ensures
        !is_move_line(line@) ==> r == ParsedLine::NotMove,
        is_move_line(line@) && !has_both_args(line@) ==> r == ParsedLine::MissingArgs,
        is_move_line(line@) && has_both_args(line@) ==> (r matches ParsedLine::Move {
            theta_text: t,
            rho_text: rh,
        } && t@ == theta_text(line@) && rh@ == rho_text(line@)),
{
    let method_end = find_separator(line, 0);
    let is_move = method_end == 4 && line[0] == 77u8 && line[1] == 79u8 && line[2] == 86u8
        && line[3] == 69u8;
    proof {
        if is_move {
            assert(first_token(line@) =~= move_keyword());
        } else {
            if is_move_line(line@) {
                assert(first_token(line@).len() == token_end(line@, 0));
                assert(move_keyword().len() == 4);
                assert(method_end == 4);
                assert(line@.subrange(0, 4)[0] == line@[0] && move_keyword()[0] == 77u8);
                assert(line@.subrange(0, 4)[1] == line@[1] && move_keyword()[1] == 79u8);
                assert(line@.subrange(0, 4)[2] == line@[2] && move_keyword()[2] == 86u8);
                assert(line@.subrange(0, 4)[3] == line@[3] && move_keyword()[3] == 69u8);
                assert(false);
            }
        }
    }
    if !is_move {
        return ParsedLine::NotMove;
    }
    if method_end >= line.len() {
        // "MOVE" with nothing behind it: no second piece at all
        return ParsedLine::MissingArgs;
    }
    let arg_theta_end = find_separator(line, method_end + 1);
    if arg_theta_end >= line.len() {
        // an angle piece but no separator behind it: no radius piece
        return ParsedLine::MissingArgs;
    }
    let arg_rho_end = find_separator(line, arg_theta_end + 1);
    let theta_bytes = copy_range(line, method_end + 1, arg_theta_end);
    let rho_bytes = copy_range(line, arg_theta_end + 1, arg_rho_end);
    ParsedLine::Move { theta_text: theta_bytes, rho_text: rho_bytes }
}

} // verus!
