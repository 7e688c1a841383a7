//! Reading a move written as a two-character token: a row digit `1`–`3`
//! followed by a column letter `A`–`C` (either case).
use vstd::prelude::*;

verus! {

/// A token that could not be read as a move; it holds the token.
#[derive(Debug, Clone)]
pub struct InvalidMove(pub String);

/// The row that the character `ch` names, if it names one.
pub open spec fn row_of(ch: char) -> Option<usize> {
    if ch == '1' {
        Some(0)
    } else if ch == '2' {
        Some(1)
    } else if ch == '3' {
        Some(2)
    } else {
        None
    }
}

/// The column that the character `ch` names, if it names one.
pub open spec fn col_of(ch: char) -> Option<usize> {
    if ch == 'A' || ch == 'a' {
        Some(0)
    } else if ch == 'B' || ch == 'b' {
        Some(1)
    } else if ch == 'C' || ch == 'c' {
        Some(2)
    } else {
        None
    }
}

/// The (row, col) that the token `s` names, if it is a move.
pub open spec fn move_of(s: Seq<char>) -> Option<(usize, usize)> {
    if s.len() == 2 && row_of(s[0]) is Some && col_of(s[1]) is Some {
        Some((row_of(s[0])->Some_0, col_of(s[1])->Some_0))
    } else {
        None
    }
}

fn row_char(ch: char) -> (r: Option<usize>)
    ensures
        r == row_of(ch),
{
    match ch {
        '1' => Some(0),
        '2' => Some(1),
        '3' => Some(2),
        _ => None,
    }
}

fn col_char(ch: char) -> (r: Option<usize>)
    ensures
        r == col_of(ch),
{
    match ch {
        'A' | 'a' => Some(0),
        'B' | 'b' => Some(1),
        'C' | 'c' => Some(2),
        _ => None,
    }
}

/// Reads `input` as a move: exactly two characters, a row digit and a column
/// letter. Anything else is refused, with the whole token handed back.
pub fn parse_move(input: &str) -> (r: Result<(usize, usize), InvalidMove>)
    ensures
        match move_of(input@) {
            Some(m) => r == Ok::<(usize, usize), InvalidMove>(m),
            None => r is Err && r->Err_0.0@ == input@,
        },
{
    if input.unicode_len() == 2 {
        if let Some(row) = row_char(input.get_char(0)) {
            if let Some(col) = col_char(input.get_char(1)) {
                return Ok((row, col));
            }
        }
    }
    Err(InvalidMove(input.to_string()))
}

} // verus!
