use vstd::prelude::*;

verus! {

/// A token of the already-lexed input, or of the rendered output.
///
/// Punctuation and keywords carry nothing; lifetimes keep their text with the
/// leading quote (`'a`), identifiers their name.
#[derive(Debug, Clone, PartialEq, Eq)]
pub enum Tok {
    /// `<`
    Lt,
    /// `>`
    Gt,
    /// `,`
    Comma,
    /// `:`
    Colon,
    /// `::`
    PathSep,
    /// `+`
    Plus,
    /// `=`
    Eq,
    /// `?`
    Question,
    /// `#`
    Pound,
    /// `[`
    LBracket,
    /// `]`
    RBracket,
    /// the keyword `for`
    For,
    /// the keyword `where`
    Where,
    Lifetime(String),
    Ident(String),
}

/// The tokens of a list: the parts joined by `delim`.
pub open spec fn join_toks(parts: Seq<Seq<Tok>>, delim: Tok) -> Seq<Tok>
    decreases parts.len(),
{
    if parts.len() == 0 {
        seq![]
    } else if parts.len() == 1 {
        parts[0]
    } else {
        join_toks(parts.drop_last(), delim) + seq![delim] + parts.last()
    }
}

/// The tokens of a delimited list: the parts joined by `delim`, and one more
/// `delim` after the last part when `trailing` is set.
pub open spec fn list_toks(parts: Seq<Seq<Tok>>, delim: Tok, trailing: bool) -> Seq<Tok> {
    join_toks(parts, delim) + if trailing && parts.len() > 0 {
        seq![delim]
    } else {
        seq![]
    }
}

/// The tokens of several parts one after another.
pub open spec fn concat_toks(parts: Seq<Seq<Tok>>) -> Seq<Tok>
    decreases parts.len(),
{
    if parts.len() == 0 {
        seq![]
    } else {
        concat_toks(parts.drop_last()) + parts.last()
    }
}

pub proof fn lemma_join_step(parts: Seq<Seq<Tok>>, delim: Tok, i: int)
    requires
        0 < i <= parts.len(),
    ensures
        join_toks(parts.take(i), delim) == if i == 1 {
            parts[0]
        } else {
            join_toks(parts.take(i - 1), delim) + seq![delim] + parts[i - 1]
        },
{
    assert(parts.take(i).drop_last() =~= parts.take(i - 1));
}

pub proof fn lemma_concat_step(parts: Seq<Seq<Tok>>, i: int)
    requires
        0 < i <= parts.len(),
    ensures
        concat_toks(parts.take(i)) == concat_toks(parts.take(i - 1)) + parts[i - 1],
{
    assert(parts.take(i).drop_last() =~= parts.take(i - 1));
}

} // verus!
