//! HTML escaping of the labels of the data-flow diagram, by
//! `marksman_escape::Escape`.

use vstd::prelude::*;
use marksman_escape::Escape;

verus! {

/// What `Escape` writes for one character: an HTML character reference for
/// each of `& > < " ' ` ! $ % ( ) + = @ [ ] { }`, and the character itself for
/// every other one.
pub open spec fn escape_char(c: char) -> Seq<char> {
    if c == '&' {
        seq!['&', 'a', 'm', 'p', ';']
    } else if c == '>' {
        seq!['&', 'g', 't', ';']
    } else if c == '<' {
        seq!['&', 'l', 't', ';']
    } else if c == '"' {
        seq!['&', '#', '3', '4', ';']
    } else if c == '\'' {
        seq!['&', '#', '3', '9', ';']
    } else if c == '`' {
        seq!['&', '#', '9', '6', ';']
    } else if c == '!' {
        seq!['&', '#', '3', '3', ';']
    } else if c == '$' {
        seq!['&', '#', '3', '6', ';']
    } else if c == '%' {
        seq!['&', '#', '3', '7', ';']
    } else if c == '(' {
        seq!['&', '#', '4', '0', ';']
    } else if c == ')' {
        seq!['&', '#', '4', '1', ';']
    } else if c == '+' {
        seq!['&', '#', '4', '3', ';']
    } else if c == '=' {
        seq!['&', '#', '6', '1', ';']
    } else if c == '@' {
        seq!['&', '#', '6', '4', ';']
    } else if c == '[' {
        seq!['&', '#', '9', '1', ';']
    } else if c == ']' {
        seq!['&', '#', '9', '3', ';']
    } else if c == '{' {
        seq!['&', '#', '1', '2', '3', ';']
    } else if c == '}' {
        seq!['&', '#', '1', '2', '5', ';']
    } else {
        seq![c]
    }
}

/// What `Escape` writes for a string: each character escaped in turn.
pub open spec fn escape(s: Seq<char>) -> Seq<char>
    decreases s.len(),
{
    if s.len() == 0 {
        Seq::empty()
    } else {
        escape(s.drop_last()) + escape_char(s.last())
    }
}

/// `marksman_escape::Escape` over the bytes of `s`, collected into a string.
///
/// `Escape` replaces each of the ASCII bytes listed in `escape_char` by its
/// character reference and passes every other byte through. In UTF-8 every
/// byte of a multi-byte character is at least 0x80, so escaping the bytes is
/// escaping the characters, and the result is valid UTF-8.
#[verifier::external_body]
pub(crate) fn escape_html(s: &str) -> (r: String)
    ensures
        r@ == escape(s@),
{
    String::from_utf8(Escape::new(s.bytes()).collect()).unwrap()
}

} // verus!
