//! The pipeline-description tokenizer.

use vstd::prelude::*;

use vstd::string::StringExecFns;

use crate::strutil::{trim_ascii, trim_spec};

verus! {

/// One token of a pipeline description: a separator, or the item text
/// gathered before it.
#[derive(Debug, Clone, PartialEq)]
pub enum Token {
    /// The `=` separator.
    Equal,
    /// The `:` separator.
    Colon,
    /// The `;` separator.
    Semicolon,
    /// Item text, trimmed.
    Item(String),
}

/// The mathematical shape of a [`Token`], with a character sequence for the
/// item payload.
pub enum TokenView {
    /// The `=` separator.
    Equal,
    /// The `:` separator.
    Colon,
    /// The `;` separator.
    Semicolon,
    /// Item text, trimmed.
    Item(Seq<char>),
}

impl View for Token {
    type V = TokenView;

    open spec fn view(&self) -> TokenView {
        match self {
            Token::Equal => TokenView::Equal,
            Token::Colon => TokenView::Colon,
            Token::Semicolon => TokenView::Semicolon,
            Token::Item(text) => TokenView::Item(text@),
        }
    }
}

/// The views of a token sequence.
pub open spec fn token_views(tokens: Seq<Token>) -> Seq<TokenView> {
    tokens.map_values(|t: Token| t@)
}

/// The tokens remaining in `s` when `buffer` holds the item characters
/// gathered so far. At each separator the gathered text, trimmed, becomes an
/// item token when it is non-empty, followed by the separator's token; any
/// other character joins the gathering. The gathering is never reset, so an
/// item token holds every non-separator character seen up to its separator;
/// characters after the last separator form no token.
pub open spec fn tokenize_from(s: Seq<char>, buffer: Seq<char>) -> Seq<TokenView>
    decreases s.len(),
{
    if s.len() == 0 {
        Seq::empty()
    } else {
        let c = s[0];
        let rest = s.drop_first();
        if c == ':' || c == ';' || c == '=' {
            let sep = if c == ':' {
                TokenView::Colon
            } else if c == ';' {
                TokenView::Semicolon
            } else {
                TokenView::Equal
            };
            if buffer.len() > 0 {
                seq![TokenView::Item(trim_spec(buffer)), sep] + tokenize_from(rest, buffer)
            } else {
                seq![sep] + tokenize_from(rest, buffer)
            }
        } else {
            tokenize_from(rest, buffer.push(c))
        }
    }
}

/// The token sequence a description denotes: the description is trimmed,
/// then scanned left to right.
pub open spec fn tokenize_spec(s: Seq<char>) -> Seq<TokenView> {
    tokenize_from(trim_spec(s), Seq::empty())
}

/// The pipeline-description tokenizer.
pub struct Parser;

impl Parser {
    /// Splits a description into separator and item tokens, as
    /// [`tokenize_spec`] prescribes.
    pub fn tokenize(s: &str) -> (r: Vec<Token>)
        ensures
            token_views(r@) == tokenize_spec(s@),
    {
        let trimmed = trim_ascii(s);
        let n = trimmed.unicode_len();
        let mut buffer = String::new();
        let mut tokens: Vec<Token> = Vec::new();
        let mut i: usize = 0;
        proof {
            assert(trimmed@.skip(0) =~= trimmed@);
            assert(token_views(Seq::<Token>::empty()) =~= Seq::<TokenView>::empty());
            assert(Seq::<TokenView>::empty() + tokenize_from(trimmed@, Seq::<char>::empty())
                =~= tokenize_from(trimmed@, Seq::<char>::empty()));
        }
        while i < n
            invariant
                i <= n,
                n == trimmed@.len(),
                trimmed@ == trim_spec(s@),
                token_views(tokens@) + tokenize_from(trimmed@.skip(i as int), buffer@)
                    == tokenize_spec(s@),
            decreases n - i,
        {
            let ghost prior_tokens = tokens@;
            let ghost prior_buffer = buffer@;
            let ghost suffix = trimmed@.skip(i as int);
            let c = trimmed.get_char(i);
            proof {
                assert(suffix.drop_first() =~= trimmed@.skip(i + 1 as int));
                assert(suffix[0] == trimmed@[i as int]);
            }
            if c == ':' || c == ';' || c == '=' {
                if !buffer.as_str().is_empty() {
                    let item = trim_ascii(buffer.as_str()).to_owned();
                    tokens.push(Token::Item(item));
                }
                if c == ':' {
                    tokens.push(Token::Colon);
                } else if c == ';' {
                    tokens.push(Token::Semicolon);
                } else {
                    tokens.push(Token::Equal);
                }
                proof {
                    let sep = if c == ':' {
                        TokenView::Colon
                    } else if c == ';' {
                        TokenView::Semicolon
                    } else {
                        TokenView::Equal
                    };
                    if prior_buffer.len() > 0 {
                        assert(token_views(tokens@) =~= token_views(prior_tokens) + seq![
                            TokenView::Item(trim_spec(prior_buffer)),
                            sep,
                        ]);
                        assert(token_views(tokens@) + tokenize_from(
                            trimmed@.skip(i + 1 as int),
                            buffer@,
                        ) =~= token_views(prior_tokens) + (seq![
                            TokenView::Item(trim_spec(prior_buffer)),
                            sep,
                        ] + tokenize_from(trimmed@.skip(i + 1 as int), buffer@)));
                    } else {
                        assert(token_views(tokens@) =~= token_views(prior_tokens) + seq![sep]);
                        assert(token_views(tokens@) + tokenize_from(
                            trimmed@.skip(i + 1 as int),
                            buffer@,
                        ) =~= token_views(prior_tokens) + (seq![sep] + tokenize_from(
                            trimmed@.skip(i + 1 as int),
                            buffer@,
                        )));
                    }
                }
            } else {
                let piece = trimmed.substring_char(i, i + 1);
                buffer.append(piece);
                proof {
                    assert(piece@ =~= seq![trimmed@[i as int]]);
                    assert(buffer@ =~= prior_buffer.push(c));
                }
            }
            i = i + 1;
        }
        proof {
            assert(trimmed@.skip(n as int) =~= Seq::<char>::empty());
        }
        tokens
    }
}

} // verus!
