//! String literals handed to a procedural macro, and what the macro computes
//! from them.

use vstd::prelude::*;
use vstd::string::*;
use vstd::utf8::encode_utf8;

use proc_macro2::TokenTree;

verus! {

#[verifier::external_type_specification]
#[verifier::external_body]
pub struct ExSynError(syn::Error);

#[verifier::external_type_specification]
#[verifier::external_body]
pub struct ExLexError(proc_macro2::LexError);

/// A token tree at the top level of a token stream: the text of a literal,
/// or only the kind of any other token tree.
#[derive(Clone, Debug, PartialEq, Eq)]
pub enum LexedToken {
    /// A delimited group, such as `( .. )`.
    Group,
    Ident,
    Punct,
    /// A literal, with its text as written (suffix included).
    Literal(String),
}

/// Lexes `source` with `proc_macro2::TokenStream`'s `FromStr` and gives,
/// for each top-level token tree, its kind, with `Display`'s text for a
/// literal.
///
/// Nothing is claimed of the outcome: proc-macro2 lexes with the compiler's
/// lexer inside a procedural macro and with its own lexer elsewhere, so the
/// same text need not give the same tokens everywhere.
#[verifier::external_body]
fn lex(source: &str) -> (r: Result<Vec<LexedToken>, proc_macro2::LexError>) {
    let stream: proc_macro2::TokenStream = match source.parse() {
        Ok(stream) => stream,
        Err(e) => return Err(e),
    };
    Ok(stream.into_iter().map(|tt| match tt {
        TokenTree::Group(_) => LexedToken::Group,
        TokenTree::Ident(_) => LexedToken::Ident,
        TokenTree::Punct(_) => LexedToken::Punct,
        TokenTree::Literal(lit) => LexedToken::Literal(lit.to_string()),
    }).collect())
}

/// Whether the text of a literal token is that of a string literal, plain
/// (`"..."`) or raw (`r"..."`, `r#"..."#`), possibly with a suffix: no other
/// literal begins with `"` or `r`.
pub open spec fn is_string_literal_text(text: Seq<char>) -> bool {
    text.len() > 0 && (text[0] == '"' || text[0] == 'r')
}

/// The text of the one string literal that `tokens` consist of; none where
/// they are not exactly one string literal.
pub open spec fn single_string_literal(tokens: Seq<LexedToken>) -> Option<Seq<char>> {
    if tokens.len() == 1 {
        match tokens[0] {
            LexedToken::Literal(text) => if is_string_literal_text(text@) {
                Some(text@)
            } else {
                None
            },
            _ => None,
        }
    } else {
        None
    }
}

/// Whether `c` stands for itself inside a string literal written without
/// escapes: it is not a quote, a backslash or a carriage return.
pub open spec fn is_plain_char(c: char) -> bool {
    c != '"' && c != '\\' && c != '\r'
}

/// The content of a string literal written with no escape, no hashes and no
/// suffix: `"s"` where no character of `s` is a quote, a backslash or a
/// carriage return, or `r"s"` where none is a quote or a carriage return.
/// Such a literal stands for `s` itself.
pub open spec fn plain_literal_content(text: Seq<char>) -> Option<Seq<char>> {
    if text.len() >= 2 && text[0] == '"' && text[text.len() - 1] == '"' && (forall|k: int|
        1 <= k < text.len() - 1 ==> is_plain_char(#[trigger] text[k])) {
        Some(text.subrange(1, text.len() - 1))
    } else if text.len() >= 3 && text[0] == 'r' && text[1] == '"' && text[text.len() - 1] == '"'
        && (forall|k: int|
        2 <= k < text.len() - 1 ==> #[trigger] text[k] != '"' && text[k] != '\r') {
        Some(text.subrange(2, text.len() - 1))
    } else {
        None
    }
}

/// Parses the text of one string literal token with
/// `syn::parse_str::<syn::LitStr>` and, where that succeeds, takes the
/// literal's `syn::LitStr::value`.
///
/// The text must begin with `"` or `r`: lexed from there, the first token is
/// a string literal or an identifier, never a literal of a kind that syn's
/// `Lit::new` does not know and panics on (such as `c"..."`).
///
/// The text is lexed again, by whichever lexer proc-macro2 uses where the
/// call runs, so in general nothing is claimed of the outcome. Claimed of it:
/// a literal written with no escape, no hashes, no suffix and no carriage
/// return (`plain_literal_content`) is read, by either lexer, and its value
/// is its content.
#[verifier::external_body]
fn parse_string_literal(text: &str) -> (r: Result<String, syn::Error>)
    requires
        is_string_literal_text(text@),
    ensures
        plain_literal_content(text@) is Some ==> (r is Ok && r->Ok_0@ == plain_literal_content(
            text@,
        )->Some_0),
{
    match syn::parse_str::<syn::LitStr>(text) {
        Ok(lit) => Ok(lit.value()),
        Err(e) => Err(e),
    }
}

/// Every plain string literal and every raw one, with hashes or without, is
/// taken for a string literal; no literal that begins otherwise (a C string,
/// a byte string, a number, a character) is.
pub proof fn lemma_string_literal_forms(s: Seq<char>)
    ensures
        is_string_literal_text(seq!['"'] + s),
        is_string_literal_text(seq!['r', '"'] + s),
        is_string_literal_text(seq!['r', '#'] + s),
        !is_string_literal_text(seq!['c'] + s),
        !is_string_literal_text(seq!['b'] + s),
        !is_string_literal_text(seq!['\''] + s),
        !is_string_literal_text(seq!['0'] + s),
        !is_string_literal_text(Seq::empty()),
{
}

/// A string literal written as its content between quotes, with no escape,
/// stands for exactly that content, spaces and all; so does a raw one.
pub proof fn lemma_plain_literal_content(s: Seq<char>)
    ensures
        (forall|k: int| 0 <= k < s.len() ==> is_plain_char(#[trigger] s[k]))
            ==> plain_literal_content(seq!['"'] + s + seq!['"']) == Some(s),
        (forall|k: int| 0 <= k < s.len() ==> #[trigger] s[k] != '"' && s[k] != '\r')
            ==> plain_literal_content(seq!['r', '"'] + s + seq!['"']) == Some(s),
{
    let t = seq!['"'] + s + seq!['"'];
    if forall|k: int| 0 <= k < s.len() ==> is_plain_char(#[trigger] s[k]) {
        assert forall|k: int| 1 <= k < t.len() - 1 implies is_plain_char(#[trigger] t[k]) by {
            assert(t[k] == s[k - 1]);
        }
        assert(t.subrange(1, t.len() - 1) =~= s);
    }
    let u = seq!['r', '"'] + s + seq!['"'];
    if forall|k: int| 0 <= k < s.len() ==> #[trigger] s[k] != '"' && s[k] != '\r' {
        assert forall|k: int| 2 <= k < u.len() - 1 implies #[trigger] u[k] != '"' && u[k] != '\r' by {
            assert(u[k] == s[k - 2]);
        }
        assert(u.subrange(2, u.len() - 1) =~= s);
    }
}

/// Why a macro input was refused.
#[derive(Debug)]
pub enum LiteralError {
    /// The input is not valid Rust tokens; the lexer's error is kept.
    Lex(proc_macro2::LexError),
    /// The input is valid tokens, but not exactly one string literal.
    NotAStringLiteral,
    /// The parser refused the string literal; its error, with its message
    /// and place, is kept to be reported.
    Syntax(syn::Error),
}

/// The text of the one string literal that `tokens` consist of, if they
/// are exactly one string literal.
pub fn string_literal_token(tokens: &Vec<LexedToken>) -> (r: Option<&String>)
    ensures
        match r {
            Some(text) => single_string_literal(tokens@) == Some(text@),
            None => single_string_literal(tokens@) is None,
        },
        r is Some <==> (tokens@.len() == 1 && tokens@[0] is Literal && tokens@[0]->Literal_0@.len()
            > 0 && (tokens@[0]->Literal_0@[0] == '"' || tokens@[0]->Literal_0@[0] == 'r')),
        r is Some ==> r->Some_0@ == tokens@[0]->Literal_0@,
{
    if tokens.len() != 1 {
        return None;
    }
    match &tokens[0] {
        LexedToken::Literal(text) => {
            let t = text.as_str();
            if t.unicode_len() == 0 {
                None
            } else {
                let first = t.get_char(0);
                if first == '"' || first == 'r' {
                    Some(text)
                } else {
                    None
                }
            }
        },
        _ => None,
    }
}

/// The number of bytes that `value` takes in UTF-8.
pub fn string_length(value: &str) -> (n: usize)
    ensures
        n == encode_utf8(value@).len() as usize,
{
    value.len()
}

/// The length in bytes of the value of the one string literal that `tokens`
/// consist of.
///
/// Refuses anything but exactly one string literal. The value itself comes
/// from syn, read from the literal's text.
pub fn string_length_of_tokens(tokens: &Vec<LexedToken>) -> (r: Result<usize, LiteralError>)
    ensures
        single_string_literal(tokens@) is None <==> r matches Err(LiteralError::NotAStringLiteral),
        !(r matches Err(LiteralError::Lex(_))),
        r matches Err(LiteralError::NotAStringLiteral) <==> !(tokens@.len() == 1
            && tokens@[0] is Literal && tokens@[0]->Literal_0@.len() > 0 && (
        tokens@[0]->Literal_0@[0] == '"' || tokens@[0]->Literal_0@[0] == 'r')),
        tokens@.len() == 1 && tokens@[0] is Literal && plain_literal_content(
            tokens@[0]->Literal_0@,
        ) is Some ==> (r is Ok && r->Ok_0 == encode_utf8(
            plain_literal_content(tokens@[0]->Literal_0@)->Some_0,
        ).len() as usize),
{
    match string_literal_token(tokens) {
        None => Err(LiteralError::NotAStringLiteral),
        Some(text) => match parse_string_literal(text.as_str()) {
            Ok(value) => Ok(string_length(value.as_str())),
            Err(e) => Err(LiteralError::Syntax(e)),
        },
    }
}

/// The length in bytes of the string that the string literal written as
/// `literal` stands for.
///
/// The text is lexed, then must be exactly one string literal, whose value is
/// measured. Which tokens a text lexes into depends on the lexer that
/// proc-macro2 uses where the call runs, so nothing here is stated of the
/// text itself: see `string_length_of_tokens` for what follows the lexing.
pub fn get_string_length(literal: &str) -> (r: Result<usize, LiteralError>) {
    match lex(literal) {
        Ok(tokens) => string_length_of_tokens(&tokens),
        Err(e) => Err(LiteralError::Lex(e)),
    }
}

} // verus!
