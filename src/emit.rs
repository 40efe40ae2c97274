//! Appending to an argument list: the steps that every encoder is made of.
use vstd::prelude::*;

use crate::token::{
    appended, counted, int_token, join, texts, Built, BuildError, Keyword, Token, int_of_u64,
};

verus! {

/// The tokens of a flag: its keyword when set, nothing otherwise.
pub open spec fn flag(set: bool, kw: Keyword) -> Seq<Token> {
    if set { seq![Token::Keyword(kw)] } else { seq![] }
}

/// The tokens of an optional signed value: the keyword and the value, or nothing.
pub open spec fn opt_int(kw: Keyword, v: Option<i64>) -> Seq<Token> {
    match v {
        Some(n) => seq![Token::Keyword(kw), Token::Integer(n)],
        None => seq![],
    }
}

/// The tokens of an optional unsigned value, which must fit `i64`.
pub open spec fn opt_count(kw: Keyword, v: Option<u64>) -> Built {
    match v {
        Some(n) => match int_token(n as nat, kw) {
            Ok(t) => Ok(seq![Token::Keyword(kw), t]),
            Err(e) => Err(e),
        },
        None => Ok(seq![]),
    }
}

/// The tokens of an optional text value: the keyword and the text, or nothing.
pub open spec fn opt_text(kw: Keyword, v: Option<String>) -> Seq<Token> {
    match v {
        Some(s) => seq![Token::Keyword(kw), Token::Text(s)],
        None => seq![],
    }
}

/// Chaining a step that may fail after steps that succeeded.
pub proof fn lemma_chain(start: Seq<Token>, mid: Seq<Token>, after: Seq<Token>, r: Result<(), BuildError>, acc: Built, part: Built)
    requires
        appended(start, mid, Ok(()), acc),
        appended(mid, after, r, part),
    ensures
        appended(start, after, r, join(acc, part)),
{
    let d = acc->Ok_0;
    if let Ok(t) = part {
        assert(after =~= start + (d + t));
    }
}

/// Chaining a step that cannot fail after steps that succeeded.
pub proof fn lemma_chain_ok(start: Seq<Token>, mid: Seq<Token>, after: Seq<Token>, acc: Built, t: Seq<Token>)
    requires
        appended(start, mid, Ok(()), acc),
        after == mid + t,
    ensures
        appended(start, after, Ok(()), join(acc, Ok(t))),
{
    let d = acc->Ok_0;
    assert(after =~= start + (d + t));
}

/// Appends the keyword when `set` holds.
pub(crate) fn push_flag(args: &mut Vec<Token>, set: bool, kw: Keyword)
    ensures
        final(args)@ == old(args)@ + flag(set, kw),
{
    if set {
        args.push(Token::Keyword(kw));
    }
    assert(final(args)@ =~= old(args)@ + flag(set, kw));
}

/// Appends the keyword and the value when one is given.
pub(crate) fn push_opt_int(args: &mut Vec<Token>, kw: Keyword, v: Option<i64>)
    ensures
        final(args)@ == old(args)@ + opt_int(kw, v),
{
    if let Some(n) = v {
        args.push(Token::Keyword(kw));
        args.push(Token::Integer(n));
    }
    assert(final(args)@ =~= old(args)@ + opt_int(kw, v));
}

/// Appends the keyword and the text when one is given.
pub(crate) fn push_opt_text(args: &mut Vec<Token>, kw: Keyword, v: &Option<String>)
    ensures
        final(args)@ == old(args)@ + opt_text(kw, *v),
{
    if let Some(s) = v {
        args.push(Token::Keyword(kw));
        args.push(Token::Text(s.clone()));
    }
    assert(final(args)@ =~= old(args)@ + opt_text(kw, *v));
}

/// Appends the keyword and the value when one is given, failing when the value
/// exceeds `i64::MAX`.
pub(crate) fn push_opt_count(args: &mut Vec<Token>, kw: Keyword, v: Option<u64>) -> (r: Result<(), BuildError>)
    ensures
        appended(old(args)@, final(args)@, r, opt_count(kw, v)),
{
    if let Some(n) = v {
        let t = int_of_u64(n, kw)?;
        args.push(Token::Keyword(kw));
        args.push(t);
        assert(final(args)@ =~= old(args)@ + seq![Token::Keyword(kw), t]);
    }
    Ok(())
}

/// Appends `[at, n]` followed by a text token for each string of `items`.
pub(crate) fn push_counted_texts(args: &mut Vec<Token>, at: Keyword, items: &Vec<String>) -> (r: Result<(), BuildError>)
    ensures
        appended(old(args)@, final(args)@, r, counted(at, items@.len(), texts(items@))),
{
    let ghost start = args@;
    let c = int_of_u64(items.len() as u64, at)?;
    args.push(Token::Keyword(at));
    args.push(c);
    push_texts(args, items);
    assert(args@ =~= start + (seq![Token::Keyword(at), c] + texts(items@)));
    Ok(())
}

/// Appends a text token for each string of `items`, in order.
pub(crate) fn push_texts(args: &mut Vec<Token>, items: &Vec<String>)
    ensures
        final(args)@ == old(args)@ + texts(items@),
{
    let ghost start = args@;
    let mut i: usize = 0;
    while i < items.len()
        invariant
            i <= items@.len(),
            args@ == start + texts(items@.take(i as int)),
        decreases items@.len() - i,
    {
        args.push(Token::Text(items[i].clone()));
        assert(texts(items@.take(i + 1)) =~= texts(items@.take(i as int)).push(Token::Text(items@[i as int])));
        assert(start + texts(items@.take(i + 1)) =~= (start + texts(items@.take(i as int))).push(Token::Text(items@[i as int])));
        i = i + 1;
    }
    assert(items@.take(items@.len() as int) =~= items@);
}

} // verus!
