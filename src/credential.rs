use vstd::prelude::*;
use crate::pipeline::AuthError;
use crate::text::collect_chars;

verus! {

/// Unicode `White_Space`, the characters that separate the words of a header value.
pub open spec fn is_white_space(c: char) -> bool {
    let u = c as u32;
    ||| 0x09 <= u <= 0x0d
    ||| u == 0x20
    ||| u == 0x85
    ||| u == 0xa0
    ||| u == 0x1680
    ||| 0x2000 <= u <= 0x200a
    ||| u == 0x2028
    ||| u == 0x2029
    ||| u == 0x202f
    ||| u == 0x205f
    ||| u == 0x3000
}

fn white_space(c: char) -> (r: bool)
    ensures
        r == is_white_space(c),
{
    let u = c as u32;
    (0x09 <= u && u <= 0x0d) || u == 0x20 || u == 0x85 || u == 0xa0 || u == 0x1680 || (0x2000
        <= u && u <= 0x200a) || u == 0x2028 || u == 0x2029 || u == 0x202f || u == 0x205f || u
        == 0x3000
}

/// The first index at or after `i` that holds no white space (or the end).
pub open spec fn skip_space(s: Seq<char>, i: int) -> int
    decreases s.len() - i,
{
    if 0 <= i < s.len() && is_white_space(s[i]) {
        skip_space(s, i + 1)
    } else {
        i
    }
}

/// The first index at or after `i` that holds white space (or the end).
pub open spec fn skip_word(s: Seq<char>, i: int) -> int
    decreases s.len() - i,
{
    if 0 <= i < s.len() && !is_white_space(s[i]) {
        skip_word(s, i + 1)
    } else {
        i
    }
}

/// Where the second word of `s` starts, or `s.len()` when there is none.
pub open spec fn second_word_start(s: Seq<char>) -> int {
    skip_space(s, skip_word(s, skip_space(s, 0)))
}

/// The second of the words that white space separates in `s`, if there are two.
pub open spec fn second_word(s: Seq<char>) -> Option<Seq<char>> {
    let start = second_word_start(s);
    if start < s.len() {
        Some(s.subrange(start, skip_word(s, start)))
    } else {
        None
    }
}

fn skip_space_from(v: &Vec<char>, i: usize) -> (r: usize)
    requires
        i <= v.len(),
    ensures
        r == skip_space(v@, i as int),
        i <= r <= v.len(),
{
    let mut j = i;
    while j < v.len() && white_space(v[j])
        invariant
            i <= j <= v.len(),
            skip_space(v@, j as int) == skip_space(v@, i as int),
        decreases v.len() - j,
    {
        j = j + 1;
    }
    j
}

fn skip_word_from(v: &Vec<char>, i: usize) -> (r: usize)
    requires
        i <= v.len(),
    ensures
        r == skip_word(v@, i as int),
        i <= r <= v.len(),
{
    let mut j = i;
    while j < v.len() && !white_space(v[j])
        invariant
            i <= j <= v.len(),
            skip_word(v@, j as int) == skip_word(v@, i as int),
        decreases v.len() - j,
    {
        j = j + 1;
    }
    j
}

/// Takes the bearer credential out of an `Authorization` header value: the
/// second of its white-space separated words (`Bearer <token>`). `None` stands
/// for a header that is absent or cannot be read as text.
pub fn extract_auth_header(header: Option<&str>) -> (r: Result<String, AuthError>)
    ensures
        match header {
            None => r == Err::<String, AuthError>(AuthError::MissingCredential),
            Some(h) => match second_word(h@) {
                Some(w) => r matches Ok(t) && t@ == w,
                None => r == Err::<String, AuthError>(AuthError::MissingCredential),
            },
        },
{
    match header {
        None => Err(AuthError::MissingCredential),
        Some(h) => {
            let v = collect_chars(h);
            let a = skip_space_from(&v, 0);
            let b = skip_word_from(&v, a);
            let c = skip_space_from(&v, b);
            if c >= v.len() {
                return Err(AuthError::MissingCredential);
            }
            let d = skip_word_from(&v, c);
            Ok(h.substring_char(c, d).to_owned())
        },
    }
}

} // verus!
