//! Reading the access token out of the text of a credentials file, which
//! holds a line such as `CANVAS_TOKEN="..."`.

use vstd::prelude::*;

verus! {

/// The first place at or after `from` where `mark` stands in `text`, or the
/// length of `text` if there is none.
pub open spec fn first_at(text: Seq<char>, from: int, mark: char) -> int
    decreases text.len() - from,
{
    if from < 0 || from >= text.len() {
        text.len() as int
    } else if text[from] == mark {
        from
    } else {
        first_at(text, from + 1, mark)
    }
}

/// The token that the text of a credentials file gives: what stands between
/// the first double quote after the first equals sign and the double quote
/// that follows it, or the end of the text where none follows. There is no
/// token without an equals sign, or without a double quote after it.
pub open spec fn env_token(contents: Seq<char>) -> Option<Seq<char>> {
    let equals = first_at(contents, 0, '=');
    let opening = first_at(contents, equals + 1, '"');
    if opening < contents.len() {
        Some(contents.subrange(opening + 1, first_at(contents, opening + 1, '"')))
    } else {
        None
    }
}

fn find(text: &str, from: usize, len: usize, mark: char) -> (at: usize)
    requires
        len == text@.len(),
        from <= len,
    ensures
        at == first_at(text@, from as int, mark),
        from <= at <= len,
{
    let mut i = from;
    while i < len
        invariant
            from <= i <= len,
            len == text@.len(),
            first_at(text@, from as int, mark) == first_at(text@, i as int, mark),
        decreases len - i,
    {
        if text.get_char(i) == mark {
            return i;
        }
        i += 1;
    }
    i
}

/// Reads the access token out of the text of a credentials file.
pub fn token_from_env(contents: &str) -> (token: Option<String>)
    ensures
        token.deep_view() == env_token(contents@),
{
    let len = contents.unicode_len();
    let equals = find(contents, 0, len, '=');
    if equals == len {
        return None;
    }
    let opening = find(contents, equals + 1, len, '"');
    if opening == len {
        return None;
    }
    let closing = find(contents, opening + 1, len, '"');
    Some(String::from_str(contents.substring_char(opening + 1, closing)))
}

} // verus!
