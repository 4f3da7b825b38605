//! Raw scalar tokens, and the escape grammar of string tokens.

use vstd::prelude::*;
use crate::text::push_char;
use vstd::string::StrSliceExecFns;

verus! {

/// A raw lexeme of a scalar literal, as the lexer cut it from the request.
/// A string token holds the text between the quotes, escapes untouched.
#[derive(Clone, Copy, Debug, PartialEq)]
pub enum ScalarToken<'a> {
    String(&'a str),
    Float(&'a str),
    Int(&'a str),
}

/// Why a token could not be parsed.
#[derive(Clone, Debug, PartialEq)]
pub enum ParseError {
    /// The token is not of the kind the type reads; holds its lexeme.
    UnexpectedToken(String),
    /// A backslash escape that the grammar does not know; holds it.
    UnknownEscapeSequence(String),
    /// The string ends inside an escape.
    UnterminatedString,
}

/// Model of a [`ParseError`].
pub enum ParseErrorModel {
    UnexpectedToken(Seq<char>),
    UnknownEscapeSequence(Seq<char>),
    UnterminatedString,
}

impl View for ParseError {
    type V = ParseErrorModel;

    open spec fn view(&self) -> ParseErrorModel {
        match self {
            ParseError::UnexpectedToken(s) => ParseErrorModel::UnexpectedToken(s@),
            ParseError::UnknownEscapeSequence(s) => ParseErrorModel::UnknownEscapeSequence(s@),
            ParseError::UnterminatedString => ParseErrorModel::UnterminatedString,
        }
    }
}

/// The character that a one-letter escape `\e` stands for.
pub open spec fn simple_escape(e: char) -> Option<char> {
    if e == '"' { Some('"') }
    else if e == '/' { Some('/') }
    else if e == '\\' { Some('\\') }
    else if e == 'n' { Some('\n') }
    else if e == 'r' { Some('\r') }
    else if e == 't' { Some('\t') }
    else if e == 'f' { Some('\u{000c}') }
    else if e == 'b' { Some('\u{0008}') }
    else { None }
}

/// The value of a hexadecimal digit, either case.
pub open spec fn hex_value(c: char) -> Option<int> {
    if '0' <= c && c <= '9' {
        Some(c as int - '0' as int)
    } else if 'a' <= c && c <= 'f' {
        Some(c as int - 'a' as int + 10)
    } else if 'A' <= c && c <= 'F' {
        Some(c as int - 'A' as int + 10)
    } else {
        None
    }
}

/// The number written by four hexadecimal digits.
pub open spec fn hex4(d: Seq<char>) -> Option<int> {
    if d.len() == 4 && hex_value(d[0]) is Some && hex_value(d[1]) is Some && hex_value(
        d[2],
    ) is Some && hex_value(d[3]) is Some {
        Some(
            4096 * hex_value(d[0])->0 + 256 * hex_value(d[1])->0 + 16 * hex_value(d[2])->0
                + hex_value(d[3])->0,
        )
    } else {
        None
    }
}

/// The character with code point `n`, where there is one.
pub open spec fn code_point_char(n: int) -> Option<char> {
    if (0 <= n && n < 0xD800) || (0xE000 <= n && n <= 0x10FFFF) {
        Some(n as char)
    } else {
        None
    }
}

/// The escape `\u` followed by the (at most four) characters read after it.
pub open spec fn unicode_escape_text(d: Seq<char>) -> Seq<char> {
    seq!['\\', 'u'] + d
}

/// The character of a `\uXXXX` escape whose digits start at `i`.
pub open spec fn unicode_escape(s: Seq<char>, i: int) -> Result<char, ParseErrorModel> {
    if s.len() < i + 4 {
        Err(ParseErrorModel::UnknownEscapeSequence(unicode_escape_text(s.subrange(i, s.len() as int))))
    } else {
        let d = s.subrange(i, i + 4);
        match hex4(d) {
            Some(n) => match code_point_char(n) {
                Some(c) => Ok(c),
                None => Err(ParseErrorModel::UnknownEscapeSequence(unicode_escape_text(d))),
            },
            None => Err(ParseErrorModel::UnknownEscapeSequence(unicode_escape_text(d))),
        }
    }
}

/// Reads `s` from position `i` on, `acc` holding what was read before.
pub open spec fn unescape_from(s: Seq<char>, i: int, acc: Seq<char>) -> Result<
    Seq<char>,
    ParseErrorModel,
>
    decreases s.len() - i,
{
    if i < 0 || i >= s.len() {
        Ok(acc)
    } else if s[i] != '\\' {
        unescape_from(s, i + 1, acc.push(s[i]))
    } else if i + 1 >= s.len() {
        Err(ParseErrorModel::UnterminatedString)
    } else if simple_escape(s[i + 1]) is Some {
        unescape_from(s, i + 2, acc.push(simple_escape(s[i + 1])->0))
    } else if s[i + 1] == 'u' {
        match unicode_escape(s, i + 2) {
            Ok(c) => unescape_from(s, i + 6, acc.push(c)),
            Err(e) => Err(e),
        }
    } else {
        Err(ParseErrorModel::UnknownEscapeSequence(seq!['\\', s[i + 1]]))
    }
}

/// The text that the body of a string token stands for.
pub open spec fn unescape_spec(s: Seq<char>) -> Result<Seq<char>, ParseErrorModel> {
    unescape_from(s, 0, seq![])
}

/// Relies on char::from_u32: the character with that code point, if the
/// number is one.
#[verifier::external_body]
fn char_from_u32(n: u32) -> (r: Option<char>)
    ensures
        r == code_point_char(n as int),
{
    char::from_u32(n)
}

fn hex_digit(c: char) -> (r: Option<u32>)
    ensures
        r is Some <==> hex_value(c) is Some,
        r is Some ==> r->0 as int == hex_value(c)->0,
{
    if '0' <= c && c <= '9' {
        Some((c as u32) - ('0' as u32))
    } else if 'a' <= c && c <= 'f' {
        Some((c as u32) - ('a' as u32) + 10)
    } else if 'A' <= c && c <= 'F' {
        Some((c as u32) - ('A' as u32) + 10)
    } else {
        None
    }
}

fn escape_char(e: char) -> (r: Option<char>)
    ensures
        r == simple_escape(e),
{
    if e == '"' { Some('"') }
    else if e == '/' { Some('/') }
    else if e == '\\' { Some('\\') }
    else if e == 'n' { Some('\n') }
    else if e == 'r' { Some('\r') }
    else if e == 't' { Some('\t') }
    else if e == 'f' { Some('\u{000c}') }
    else if e == 'b' { Some('\u{0008}') }
    else { None }
}

/// The text `\u` followed by the characters of `s` from `j` up to `k`.
fn unicode_text(s: &str, j: usize, k: usize) -> (r: String)
    requires
        j <= k <= s@.len(),
    ensures
        r@ == unicode_escape_text(s@.subrange(j as int, k as int)),
{
    let mut t = String::new();
    push_char(&mut t, '\\');
    push_char(&mut t, 'u');
    let mut x: usize = j;
    while x < k
        invariant
            j <= x <= k <= s@.len(),
            t@ == unicode_escape_text(s@.subrange(j as int, x as int)),
        decreases k - x,
    {
        let c = s.get_char(x);
        push_char(&mut t, c);
        assert(s@.subrange(j as int, x + 1) =~= s@.subrange(j as int, x as int).push(c));
        x += 1;
        assert(t@ =~= unicode_escape_text(s@.subrange(j as int, x as int)));
    }
    t
}

/// Reads the four digits of a `\u` escape that start at `j`.
fn read_unicode_escape(s: &str, j: usize) -> (r: Result<char, ParseError>)
    requires
        j <= s@.len(),
    ensures
        r is Ok <==> unicode_escape(s@, j as int) is Ok,
        r is Ok ==> r->Ok_0 == unicode_escape(s@, j as int)->Ok_0,
        r is Err ==> r->Err_0@ == unicode_escape(s@, j as int)->Err_0,
{
    let n = s.unicode_len();
    if n - j < 4 {
        return Err(ParseError::UnknownEscapeSequence(unicode_text(s, j, n)));
    }
    let ghost d = s@.subrange(j as int, j + 4);
    let c0 = s.get_char(j);
    let c1 = s.get_char(j + 1);
    let c2 = s.get_char(j + 2);
    let c3 = s.get_char(j + 3);
    assert(d[0] == c0 && d[1] == c1 && d[2] == c2 && d[3] == c3);
    match (hex_digit(c0), hex_digit(c1), hex_digit(c2), hex_digit(c3)) {
        (Some(h0), Some(h1), Some(h2), Some(h3)) => {
            let v: u32 = 4096 * h0 + 256 * h1 + 16 * h2 + h3;
            match char_from_u32(v) {
                Some(c) => Ok(c),
                None => Err(ParseError::UnknownEscapeSequence(unicode_text(s, j, j + 4))),
            }
        },
        _ => Err(ParseError::UnknownEscapeSequence(unicode_text(s, j, j + 4))),
    }
}

/// Reads the body of a string token, resolving its escapes.
pub fn unescape(s: &str) -> (r: Result<String, ParseError>)
    ensures
        r is Ok <==> unescape_spec(s@) is Ok,
        r is Ok ==> r->Ok_0@ == unescape_spec(s@)->Ok_0,
        r is Err ==> r->Err_0@ == unescape_spec(s@)->Err_0,
{
    let n = s.unicode_len();
    let mut out = String::new();
    let mut i: usize = 0;
    while i < n
        invariant
            n == s@.len(),
            i <= n,
            unescape_from(s@, i as int, out@) == unescape_spec(s@),
        decreases n - i,
    {
        let c = s.get_char(i);
        if c != '\\' {
            push_char(&mut out, c);
            i += 1;
        } else if i + 1 >= n {
            return Err(ParseError::UnterminatedString);
        } else {
            let e = s.get_char(i + 1);
            match escape_char(e) {
                Some(x) => {
                    push_char(&mut out, x);
                    i += 2;
                },
                None => {
                    if e == 'u' {
                        match read_unicode_escape(s, i + 2) {
                            Ok(x) => {
                                push_char(&mut out, x);
                                i += 6;
                            },
                            Err(err) => {
                                return Err(err);
                            },
                        }
                    } else {
                        let mut t = String::new();
                        push_char(&mut t, '\\');
                        push_char(&mut t, e);
                        assert(t@ =~= seq!['\\', e]);
                        return Err(ParseError::UnknownEscapeSequence(t));
                    }
                },
            }
        }
    }
    Ok(out)
}

} // verus!
