//! The function-name injection: every braced group at the top level of a
//! function item gets, as its first statement, a local that holds the
//! function's name.

use crate::text::{concatenated, same_text};
use vstd::prelude::*;

verus! {

// The fixed parts of the rewritten item.

pub const DEBUG_ARGS: &'static str = "\"debug\"";

pub const LOCAL_OPEN: &'static str = "{ let __func__: &str = stringify!(";

pub const LOCAL_CLOSE: &'static str = "); ";

pub const BRACE_CLOSE: &'static str = " } ";

pub const PARENTHESIS_OPEN: &'static str = "(";

pub const PARENTHESIS_CLOSE: &'static str = ") ";

pub const BRACKET_OPEN: &'static str = "[";

pub const BRACKET_CLOSE: &'static str = "] ";

pub const SPACE: &'static str = " ";

/// What encloses a group of tokens.
#[derive(Clone, Copy, Debug, PartialEq, Eq)]
pub enum Delimiter {
    /// `( ... )`
    Parenthesis,
    /// `{ ... }`
    Brace,
    /// `[ ... ]`
    Bracket,
    /// Nothing that is written.
    Invisible,
}

/// One token at the top level of an item.
#[derive(Clone, Debug)]
pub enum TokenTree {
    /// A group, with the text of the tokens in it.
    Group { delimiter: Delimiter, stream: String },
    /// A word, a punctuation character or a literal. `joint` says that the
    /// next token follows without a space, as the `-` of `->` does.
    Other { text: String, joint: bool },
}

/// The text of one token once the local is injected: a braced group with
/// the local in front of its tokens, any other token as it was.
pub open spec fn injected_token(func_ident: Seq<char>, token: TokenTree) -> Seq<char> {
    match token {
        TokenTree::Group { delimiter: Delimiter::Brace, stream } => LOCAL_OPEN@ + func_ident
            + LOCAL_CLOSE@ + stream@ + BRACE_CLOSE@,
        TokenTree::Group { delimiter: Delimiter::Parenthesis, stream } => PARENTHESIS_OPEN@
            + stream@ + PARENTHESIS_CLOSE@,
        TokenTree::Group { delimiter: Delimiter::Bracket, stream } => BRACKET_OPEN@ + stream@
            + BRACKET_CLOSE@,
        TokenTree::Group { delimiter: Delimiter::Invisible, stream } => stream@ + SPACE@,
        TokenTree::Other { text, joint } => if joint {
            text@
        } else {
            text@ + SPACE@
        },
    }
}

/// The texts of all tokens once the local is injected, in order.
pub open spec fn injected_tokens(func_ident: Seq<char>, function: Seq<TokenTree>) -> Seq<
    Seq<char>,
> {
    function.map_values(|t: TokenTree| injected_token(func_ident, t))
}

/// The text of a function item once the local is injected.
pub open spec fn injected(func_ident: Seq<char>, function: Seq<TokenTree>) -> Seq<char> {
    concatenated(injected_tokens(func_ident, function))
}

/// Whether the arguments of the attribute ask for the item to be shown
/// before and after the injection: they do where they are the one string
/// literal `"debug"`.
pub fn wants_debug(args: &str) -> (r: bool)
    ensures
        r == (args@ == DEBUG_ARGS@),
{
    same_text(args, DEBUG_ARGS)
}

/// The text of one token once the local is injected.
fn inject_token(func_ident: &str, token: &TokenTree) -> (r: String)
    ensures
        r@ == injected_token(func_ident@, *token),
{
    match token {
        TokenTree::Group { delimiter, stream } => {
            match delimiter {
                Delimiter::Brace => {
                    let mut out = LOCAL_OPEN.to_owned();
                    out.append(func_ident);
                    out.append(LOCAL_CLOSE);
                    out.append(stream.as_str());
                    out.append(BRACE_CLOSE);
                    out
                },
                Delimiter::Parenthesis => {
                    let mut out = PARENTHESIS_OPEN.to_owned();
                    out.append(stream.as_str());
                    out.append(PARENTHESIS_CLOSE);
                    out
                },
                Delimiter::Bracket => {
                    let mut out = BRACKET_OPEN.to_owned();
                    out.append(stream.as_str());
                    out.append(BRACKET_CLOSE);
                    out
                },
                Delimiter::Invisible => {
                    let mut out = stream.clone();
                    out.append(SPACE);
                    out
                },
            }
        },
        TokenTree::Other { text, joint } => {
            let mut out = text.clone();
            if !*joint {
                out.append(SPACE);
            }
            out
        },
    }
}

/// Rewrites a function item so that its body begins with
/// `let __func__: &str = stringify!(name);`, where `name` is the function's
/// name. `function` holds the tokens at the top level of the item; every
/// braced group among them gets the local, every other token stays as it is.
pub fn auto_func_name(func_ident: &str, function: &Vec<TokenTree>) -> (r: String)
    ensures
        r@ == injected(func_ident@, function@),
{
    let mut all_stream = String::new();
    let mut i: usize = 0;
    while i < function.len()
        invariant
            i <= function.len(),
            all_stream@ == injected(func_ident@, function@.take(i as int)),
        decreases function.len() - i,
    {
        let piece = inject_token(func_ident, &function[i]);
        proof {
            let before = injected_tokens(func_ident@, function@.take(i as int));
            let after = injected_tokens(func_ident@, function@.take(i + 1));
            assert(after.drop_last() =~= before);
            assert(after.last() == piece@);
        }
        all_stream.append(piece.as_str());
        i += 1;
    }
    assert(function@.take(function.len() as int) =~= function@);
    all_stream
}

} // verus!
