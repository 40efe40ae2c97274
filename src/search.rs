//! `FT.SEARCH`: whole-query search options.
use vstd::prelude::*;

use crate::aggregate::{alias, fields_tokens, params_tokens, params_block, push_fields, push_params, SearchField, SearchParameter};
use crate::emit::{
    flag, lemma_chain, lemma_chain_ok, opt_count, opt_int, opt_text, push_counted_texts, push_flag,
    push_opt_count, push_opt_int, push_opt_text,
};
use crate::token::{
    appended, counted, int_token, lemma_concat_assoc, int_of_u64, join, lemma_join_empty, texts, Built, BuildError, GeoUnit, Keyword,
    SortOrder, Token,
};

verus! {

/// A numeric range filter on an attribute. The bounds are given in their wire
/// form, already serialized (for example `-inf`, `(5` or `10.5`).
#[derive(Clone, Debug, PartialEq, Eq)]
pub struct FtSearchFilter {
    pub attribute: String,
    pub min: String,
    pub max: String,
}

/// A geographic radius filter on an attribute. The coordinates and the radius
/// are given in their wire form, already serialized.
#[derive(Clone, Debug, PartialEq, Eq)]
pub struct FtSearchGeoFilter {
    pub attribute: String,
    pub longitude: String,
    pub latitude: String,
    pub radius: String,
    pub units: GeoUnit,
}

/// Settings of `SUMMARIZE`.
#[derive(Clone, Debug, PartialEq, Eq, Default)]
pub struct FtSearchSummarize {
    pub fields: Vec<String>,
    pub frags: Option<u64>,
    pub len: Option<u64>,
    pub separator: Option<String>,
}

/// Settings of `HIGHLIGHT`: the fields, and the open and close tags.
#[derive(Clone, Debug, PartialEq, Eq, Default)]
pub struct FtSearchHighlight {
    pub fields: Vec<String>,
    pub tags: Option<(String, String)>,
}

/// Settings of `SORTBY` in a search.
#[derive(Clone, Debug, PartialEq, Eq)]
pub struct FtSearchSortBy {
    pub attribute: String,
    pub order: Option<SortOrder>,
    pub withcount: bool,
}

/// The options of a search query.
#[derive(Clone, Debug, PartialEq, Eq, Default)]
pub struct FtSearchOptions {
    pub nocontent: bool,
    pub verbatim: bool,
    pub nostopwords: bool,
    pub withscores: bool,
    pub withpayloads: bool,
    pub withsortkeys: bool,
    pub filters: Vec<FtSearchFilter>,
    pub geofilters: Vec<FtSearchGeoFilter>,
    pub inkeys: Vec<String>,
    pub infields: Vec<String>,
    pub return_fields: Vec<SearchField>,
    pub summarize: Option<FtSearchSummarize>,
    pub highlight: Option<FtSearchHighlight>,
    pub slop: Option<i64>,
    pub timeout: Option<i64>,
    pub inorder: bool,
    pub language: Option<String>,
    pub expander: Option<String>,
    pub scorer: Option<String>,
    pub explainscore: bool,
    pub payload: Option<Vec<u8>>,
    pub sortby: Option<FtSearchSortBy>,
    pub limit: Option<(i64, i64)>,
    pub params: Vec<SearchParameter>,
    pub dialect: Option<i64>,
}

/// `FILTER attribute min max` for each filter.
pub open spec fn filters_tokens(fs: Seq<FtSearchFilter>) -> Seq<Token>
    decreases fs.len(),
{
    if fs.len() == 0 {
        seq![]
    } else {
        seq![Token::Keyword(Keyword::Filter), Token::Text(fs[0].attribute), Token::Text(fs[0].min), Token::Text(fs[0].max)]
            + filters_tokens(fs.skip(1))
    }
}

/// `GEOFILTER attribute longitude latitude radius unit` for each filter.
pub open spec fn geofilters_tokens(gs: Seq<FtSearchGeoFilter>) -> Seq<Token>
    decreases gs.len(),
{
    if gs.len() == 0 {
        seq![]
    } else {
        seq![
            Token::Keyword(Keyword::GeoFilter),
            Token::Text(gs[0].attribute),
            Token::Text(gs[0].longitude),
            Token::Text(gs[0].latitude),
            Token::Text(gs[0].radius),
            Token::Unit(gs[0].units),
        ] + geofilters_tokens(gs.skip(1))
    }
}

/// `kw N item...` for a non-empty list, nothing for an empty one.
pub open spec fn nonempty_texts(kw: Keyword, items: Seq<String>) -> Built {
    if items.len() == 0 {
        Ok(seq![])
    } else {
        counted(kw, items.len(), texts(items))
    }
}

/// `RETURN N identifier [AS property]...` for a non-empty list.
pub open spec fn return_tokens(fs: Seq<SearchField>) -> Built {
    if fs.len() == 0 {
        Ok(seq![])
    } else {
        counted(Keyword::Return, fs.len(), fields_tokens(fs))
    }
}

/// `SUMMARIZE [FIELDS N field...] [FRAGS n] [LEN n] [SEPARATOR s]`.
pub open spec fn summarize_tokens(s: Option<FtSearchSummarize>) -> Built {
    match s {
        None => Ok(seq![]),
        Some(s) => {
            let r = Ok(seq![Token::Keyword(Keyword::Summarize)]);
            let r = join(r, nonempty_texts(Keyword::Fields, s.fields@));
            let r = join(r, opt_count(Keyword::Frags, s.frags));
            let r = join(r, opt_count(Keyword::Len, s.len));
            join(r, Ok(opt_text(Keyword::Separator, s.separator)))
        },
    }
}

/// `TAGS open close` when tags are given.
pub open spec fn tags_tokens(tags: Option<(String, String)>) -> Seq<Token> {
    match tags {
        Some((a, b)) => seq![Token::Keyword(Keyword::Tags), Token::Text(a), Token::Text(b)],
        None => seq![],
    }
}

/// `HIGHLIGHT [FIELDS N field...] [TAGS open close]`.
pub open spec fn highlight_tokens(h: Option<FtSearchHighlight>) -> Built {
    match h {
        None => Ok(seq![]),
        Some(h) => join(
            join(Ok(seq![Token::Keyword(Keyword::Highlight)]), nonempty_texts(Keyword::Fields, h.fields@)),
            Ok(tags_tokens(h.tags)),
        ),
    }
}

/// `PAYLOAD bytes` when a payload is given.
pub open spec fn payload_tokens(p: Option<Vec<u8>>) -> Seq<Token> {
    match p {
        Some(b) => seq![Token::Keyword(Keyword::Payload), Token::Bytes(b)],
        None => seq![],
    }
}

/// `SORTBY attribute [direction] [WITHCOUNT]`.
pub open spec fn sortby_tokens(s: Option<FtSearchSortBy>) -> Seq<Token> {
    match s {
        None => seq![],
        Some(s) => seq![Token::Keyword(Keyword::SortBy), Token::Text(s.attribute)]
            + (match s.order {
                Some(o) => seq![Token::Order(o)],
                None => seq![],
            })
            + flag(s.withcount, Keyword::WithCount),
    }
}

/// `LIMIT offset count` when a page is given.
pub open spec fn limit_tokens(l: Option<(i64, i64)>) -> Seq<Token> {
    match l {
        Some((o, c)) => seq![Token::Keyword(Keyword::Limit), Token::Integer(o), Token::Integer(c)],
        None => seq![],
    }
}

/// The result-shaping flags, in their fixed order.
pub open spec fn search_flags(o: FtSearchOptions) -> Seq<Token> {
    flag(o.nocontent, Keyword::NoContent) + flag(o.verbatim, Keyword::Verbatim) + flag(o.nostopwords, Keyword::NoStopwords)
        + flag(o.withscores, Keyword::WithScores) + flag(o.withpayloads, Keyword::WithPayloads)
        + flag(o.withsortkeys, Keyword::WithSortKeys)
}

/// The tokens of the search options from the flags to `RETURN`.
pub open spec fn search_head(o: FtSearchOptions) -> Built {
    let r = Ok(search_flags(o));
    let r = join(r, Ok(filters_tokens(o.filters@)));
    let r = join(r, Ok(geofilters_tokens(o.geofilters@)));
    let r = join(r, nonempty_texts(Keyword::InKeys, o.inkeys@));
    let r = join(r, nonempty_texts(Keyword::InFields, o.infields@));
    join(r, return_tokens(o.return_fields@))
}

/// `SUMMARIZE` and `HIGHLIGHT`.
pub open spec fn search_display(o: FtSearchOptions) -> Built {
    join(summarize_tokens(o.summarize), highlight_tokens(o.highlight))
}

/// The tokens of the search options from `SLOP` to `EXPLAINSCORE`.
pub open spec fn search_tuning(o: FtSearchOptions) -> Built {
    let r = Ok(opt_int(Keyword::Slop, o.slop));
    let r = join(r, Ok(opt_int(Keyword::Timeout, o.timeout)));
    let r = join(r, Ok(flag(o.inorder, Keyword::InOrder)));
    let r = join(r, Ok(opt_text(Keyword::Language, o.language)));
    let r = join(r, Ok(opt_text(Keyword::Expander, o.expander)));
    let r = join(r, Ok(opt_text(Keyword::Scorer, o.scorer)));
    join(r, Ok(flag(o.explainscore, Keyword::ExplainScore)))
}

/// The tokens of the search options from `PAYLOAD` to `DIALECT`.
pub open spec fn search_end(o: FtSearchOptions) -> Built {
    let r = Ok(payload_tokens(o.payload));
    let r = join(r, Ok(sortby_tokens(o.sortby)));
    let r = join(r, Ok(limit_tokens(o.limit)));
    let r = join(r, params_block(o.params@));
    join(r, Ok(opt_int(Keyword::Dialect, o.dialect)))
}

/// The tokens of the search options, in their fixed order.
pub open spec fn search_options_tokens(o: FtSearchOptions) -> Built {
    join(join(join(search_head(o), search_display(o)), search_tuning(o)), search_end(o))
}

/// Appends each numeric filter.
fn push_filters(args: &mut Vec<Token>, fs: &Vec<FtSearchFilter>)
    ensures
        final(args)@ == old(args)@ + filters_tokens(fs@),
{
    let ghost start = args@;
    assert(fs@.skip(0) =~= fs@);
    let mut i: usize = 0;
    while i < fs.len()
        invariant
            i <= fs@.len(),
            args@ + filters_tokens(fs@.skip(i as int)) == start + filters_tokens(fs@),
        decreases fs@.len() - i,
    {
        let ghost before = args@;
        assert(fs@.skip(i as int).skip(1) =~= fs@.skip(i + 1));
        args.push(Token::Keyword(Keyword::Filter));
        args.push(Token::Text(fs[i].attribute.clone()));
        args.push(Token::Text(fs[i].min.clone()));
        args.push(Token::Text(fs[i].max.clone()));
        assert(args@ + filters_tokens(fs@.skip(i + 1)) =~= before + filters_tokens(fs@.skip(i as int)));
        i = i + 1;
    }
    assert(args@ =~= args@ + filters_tokens(fs@.skip(i as int)));
}

/// Appends each geographic filter.
fn push_geofilters(args: &mut Vec<Token>, gs: &Vec<FtSearchGeoFilter>)
    ensures
        final(args)@ == old(args)@ + geofilters_tokens(gs@),
{
    let ghost start = args@;
    assert(gs@.skip(0) =~= gs@);
    let mut i: usize = 0;
    while i < gs.len()
        invariant
            i <= gs@.len(),
            args@ + geofilters_tokens(gs@.skip(i as int)) == start + geofilters_tokens(gs@),
        decreases gs@.len() - i,
    {
        let ghost before = args@;
        assert(gs@.skip(i as int).skip(1) =~= gs@.skip(i + 1));
        let g = &gs[i];
        args.push(Token::Keyword(Keyword::GeoFilter));
        args.push(Token::Text(g.attribute.clone()));
        args.push(Token::Text(g.longitude.clone()));
        args.push(Token::Text(g.latitude.clone()));
        args.push(Token::Text(g.radius.clone()));
        args.push(Token::Unit(g.units));
        assert(args@ + geofilters_tokens(gs@.skip(i + 1)) =~= before + geofilters_tokens(gs@.skip(i as int)));
        i = i + 1;
    }
    assert(args@ =~= args@ + geofilters_tokens(gs@.skip(i as int)));
}

/// Appends `kw N item...` for a non-empty list.
fn push_nonempty_texts(args: &mut Vec<Token>, kw: Keyword, items: &Vec<String>) -> (r: Result<(), BuildError>)
    ensures
        appended(old(args)@, final(args)@, r, nonempty_texts(kw, items@)),
{
    if items.len() == 0 {
        assert(final(args)@ =~= old(args)@ + seq![]);
        Ok(())
    } else {
        push_counted_texts(args, kw, items)
    }
}

/// Appends the `RETURN` block for a non-empty list.
fn push_return(args: &mut Vec<Token>, fs: &Vec<SearchField>) -> (r: Result<(), BuildError>)
    ensures
        appended(old(args)@, final(args)@, r, return_tokens(fs@)),
{
    if fs.len() > 0 {
        let n = int_of_u64(fs.len() as u64, Keyword::Return)?;
        args.push(Token::Keyword(Keyword::Return));
        args.push(n);
        push_fields(args, fs);
    }
    assert(final(args)@ =~= old(args)@ + return_tokens(fs@)->Ok_0);
    Ok(())
}

/// Appends the `SUMMARIZE` block.
fn push_summarize(args: &mut Vec<Token>, s: &Option<FtSearchSummarize>) -> (r: Result<(), BuildError>)
    ensures
        appended(old(args)@, final(args)@, r, summarize_tokens(*s)),
{
    match s {
        None => {
            assert(final(args)@ =~= old(args)@ + seq![]);
            Ok(())
        },
        Some(s) => {
            let ghost start = args@;
            args.push(Token::Keyword(Keyword::Summarize));
            let ghost acc: Built = Ok(seq![Token::Keyword(Keyword::Summarize)]);
            assert(args@ =~= start + seq![Token::Keyword(Keyword::Summarize)]);
            let ghost mid = args@;
            let r = push_nonempty_texts(args, Keyword::Fields, &s.fields);
            proof { lemma_chain(start, mid, args@, r, acc, nonempty_texts(Keyword::Fields, s.fields@)); acc = join(acc, nonempty_texts(Keyword::Fields, s.fields@)); }
            r?;
            let ghost mid = args@;
            let r = push_opt_count(args, Keyword::Frags, s.frags);
            proof { lemma_chain(start, mid, args@, r, acc, opt_count(Keyword::Frags, s.frags)); acc = join(acc, opt_count(Keyword::Frags, s.frags)); }
            r?;
            let ghost mid = args@;
            let r = push_opt_count(args, Keyword::Len, s.len);
            proof { lemma_chain(start, mid, args@, r, acc, opt_count(Keyword::Len, s.len)); acc = join(acc, opt_count(Keyword::Len, s.len)); }
            r?;
            let ghost mid = args@;
            push_opt_text(args, Keyword::Separator, &s.separator);
            proof { lemma_chain_ok(start, mid, args@, acc, opt_text(Keyword::Separator, s.separator)); }
            Ok(())
        },
    }
}

/// Appends the `HIGHLIGHT` block.
fn push_highlight(args: &mut Vec<Token>, h: &Option<FtSearchHighlight>) -> (r: Result<(), BuildError>)
    ensures
        appended(old(args)@, final(args)@, r, highlight_tokens(*h)),
{
    match h {
        None => {
            assert(final(args)@ =~= old(args)@ + seq![]);
            Ok(())
        },
        Some(h) => {
            let ghost start = args@;
            args.push(Token::Keyword(Keyword::Highlight));
            let ghost acc: Built = Ok(seq![Token::Keyword(Keyword::Highlight)]);
            assert(args@ =~= start + seq![Token::Keyword(Keyword::Highlight)]);
            let ghost mid = args@;
            let r = push_nonempty_texts(args, Keyword::Fields, &h.fields);
            proof { lemma_chain(start, mid, args@, r, acc, nonempty_texts(Keyword::Fields, h.fields@)); acc = join(acc, nonempty_texts(Keyword::Fields, h.fields@)); }
            r?;
            let ghost mid = args@;
            if let Some((a, b)) = &h.tags {
                args.push(Token::Keyword(Keyword::Tags));
                args.push(Token::Text(a.clone()));
                args.push(Token::Text(b.clone()));
            }
            assert(args@ =~= mid + tags_tokens(h.tags));
            proof { lemma_chain_ok(start, mid, args@, acc, tags_tokens(h.tags)); }
            Ok(())
        },
    }
}

/// Appends `SORTBY attribute [direction] [WITHCOUNT]`.
fn push_sortby(args: &mut Vec<Token>, s: &Option<FtSearchSortBy>)
    ensures
        final(args)@ == old(args)@ + sortby_tokens(*s),
{
    if let Some(s) = s {
        args.push(Token::Keyword(Keyword::SortBy));
        args.push(Token::Text(s.attribute.clone()));
        if let Some(o) = s.order {
            args.push(Token::Order(o));
        }
        if s.withcount {
            args.push(Token::Keyword(Keyword::WithCount));
        }
    }
    assert(final(args)@ =~= old(args)@ + sortby_tokens(*s));
}


/// Appends the result-shaping flags.
fn push_search_flags(args: &mut Vec<Token>, options: &FtSearchOptions)
    ensures
        final(args)@ == old(args)@ + search_flags(*options),
{
    let ghost start = args@;
    push_flag(args, options.nocontent, Keyword::NoContent);
    assert(args@ == start + flag(options.nocontent, Keyword::NoContent));
    push_flag(args, options.verbatim, Keyword::Verbatim);
    proof { lemma_concat_assoc(start, flag(options.nocontent, Keyword::NoContent), flag(options.verbatim, Keyword::Verbatim)); }
    push_flag(args, options.nostopwords, Keyword::NoStopwords);
    proof { lemma_concat_assoc(start, flag(options.nocontent, Keyword::NoContent) + flag(options.verbatim, Keyword::Verbatim), flag(options.nostopwords, Keyword::NoStopwords)); }
    push_flag(args, options.withscores, Keyword::WithScores);
    proof { lemma_concat_assoc(start, flag(options.nocontent, Keyword::NoContent) + flag(options.verbatim, Keyword::Verbatim) + flag(options.nostopwords, Keyword::NoStopwords), flag(options.withscores, Keyword::WithScores)); }
    push_flag(args, options.withpayloads, Keyword::WithPayloads);
    proof { lemma_concat_assoc(start, flag(options.nocontent, Keyword::NoContent) + flag(options.verbatim, Keyword::Verbatim) + flag(options.nostopwords, Keyword::NoStopwords) + flag(options.withscores, Keyword::WithScores), flag(options.withpayloads, Keyword::WithPayloads)); }
    push_flag(args, options.withsortkeys, Keyword::WithSortKeys);
    proof { lemma_concat_assoc(start, flag(options.nocontent, Keyword::NoContent) + flag(options.verbatim, Keyword::Verbatim) + flag(options.nostopwords, Keyword::NoStopwords) + flag(options.withscores, Keyword::WithScores) + flag(options.withpayloads, Keyword::WithPayloads), flag(options.withsortkeys, Keyword::WithSortKeys)); }
}

/// Appends the flags, filters, restrictions and projection.
fn push_search_head(args: &mut Vec<Token>, options: &FtSearchOptions) -> (r: Result<(), BuildError>)
    ensures
        appended(old(args)@, final(args)@, r, search_head(*options)),
{
    let ghost o = *options;
    let ghost start = args@;
    push_search_flags(args, options);
    let ghost mut acc: Built = Ok(search_flags(o));

    let ghost mid = args@;
    push_filters(args, &options.filters);
    proof {
        lemma_chain_ok(start, mid, args@, acc, filters_tokens(o.filters@));
        acc = join(acc, Ok(filters_tokens(o.filters@)));
    }

    let ghost mid = args@;
    push_geofilters(args, &options.geofilters);
    proof {
        lemma_chain_ok(start, mid, args@, acc, geofilters_tokens(o.geofilters@));
        acc = join(acc, Ok(geofilters_tokens(o.geofilters@)));
    }

    let ghost mid = args@;
    let r = push_nonempty_texts(args, Keyword::InKeys, &options.inkeys);
    proof {
        lemma_chain(start, mid, args@, r, acc, nonempty_texts(Keyword::InKeys, o.inkeys@));
        acc = join(acc, nonempty_texts(Keyword::InKeys, o.inkeys@));
    }
    r?;

    let ghost mid = args@;
    let r = push_nonempty_texts(args, Keyword::InFields, &options.infields);
    proof {
        lemma_chain(start, mid, args@, r, acc, nonempty_texts(Keyword::InFields, o.infields@));
        acc = join(acc, nonempty_texts(Keyword::InFields, o.infields@));
    }
    r?;

    let ghost mid = args@;
    let r = push_return(args, &options.return_fields);
    proof {
        lemma_chain(start, mid, args@, r, acc, return_tokens(o.return_fields@));
        acc = join(acc, return_tokens(o.return_fields@));
    }
    r?;

    Ok(())
}

/// Appends the `SUMMARIZE` and `HIGHLIGHT` blocks.
fn push_search_display(args: &mut Vec<Token>, options: &FtSearchOptions) -> (r: Result<(), BuildError>)
    ensures
        appended(old(args)@, final(args)@, r, search_display(*options)),
{
    let ghost start = args@;
    let r = push_summarize(args, &options.summarize);
    proof {
        lemma_join_empty(summarize_tokens(options.summarize));
        assert(start =~= start + seq![]);
        lemma_chain(start, start, args@, r, Ok(seq![]), summarize_tokens(options.summarize));
    }
    r?;
    let ghost mid = args@;
    let r = push_highlight(args, &options.highlight);
    proof {
        lemma_chain(start, mid, args@, r, summarize_tokens(options.summarize), highlight_tokens(options.highlight));
    }
    r
}

/// Appends `SLOP`, `TIMEOUT`, `INORDER`, `LANGUAGE`, `EXPANDER`, `SCORER` and `EXPLAINSCORE`.
fn push_search_tuning(args: &mut Vec<Token>, options: &FtSearchOptions)
    ensures
        appended(old(args)@, final(args)@, Ok(()), search_tuning(*options)),
{
    let ghost o = *options;
    let ghost start = args@;
    let ghost mid = args@;
    push_opt_int(args, Keyword::Slop, options.slop);
    let ghost mut acc: Built = Ok(opt_int(Keyword::Slop, o.slop));

    let ghost mid = args@;
    push_opt_int(args, Keyword::Timeout, options.timeout);
    proof {
        lemma_chain_ok(start, mid, args@, acc, opt_int(Keyword::Timeout, o.timeout));
        acc = join(acc, Ok(opt_int(Keyword::Timeout, o.timeout)));
    }

    let ghost mid = args@;
    push_flag(args, options.inorder, Keyword::InOrder);
    proof {
        lemma_chain_ok(start, mid, args@, acc, flag(o.inorder, Keyword::InOrder));
        acc = join(acc, Ok(flag(o.inorder, Keyword::InOrder)));
    }

    let ghost mid = args@;
    push_opt_text(args, Keyword::Language, &options.language);
    proof {
        lemma_chain_ok(start, mid, args@, acc, opt_text(Keyword::Language, o.language));
        acc = join(acc, Ok(opt_text(Keyword::Language, o.language)));
    }

    let ghost mid = args@;
    push_opt_text(args, Keyword::Expander, &options.expander);
    proof {
        lemma_chain_ok(start, mid, args@, acc, opt_text(Keyword::Expander, o.expander));
        acc = join(acc, Ok(opt_text(Keyword::Expander, o.expander)));
    }

    let ghost mid = args@;
    push_opt_text(args, Keyword::Scorer, &options.scorer);
    proof {
        lemma_chain_ok(start, mid, args@, acc, opt_text(Keyword::Scorer, o.scorer));
        acc = join(acc, Ok(opt_text(Keyword::Scorer, o.scorer)));
    }

    let ghost mid = args@;
    push_flag(args, options.explainscore, Keyword::ExplainScore);
    proof {
        lemma_chain_ok(start, mid, args@, acc, flag(o.explainscore, Keyword::ExplainScore));
        acc = join(acc, Ok(flag(o.explainscore, Keyword::ExplainScore)));
    }

}

/// Appends `PAYLOAD`, `SORTBY`, `LIMIT`, `PARAMS` and `DIALECT`.
fn push_search_end(args: &mut Vec<Token>, options: FtSearchOptions) -> (r: Result<(), BuildError>)
    ensures
        appended(old(args)@, final(args)@, r, search_end(options)),
{
    let ghost o = options;
    let ghost start = args@;
    let ghost mid = args@;
    if let Some(p) = options.payload {
        args.push(Token::Keyword(Keyword::Payload));
        args.push(Token::Bytes(p));
    }
    assert(args@ =~= mid + payload_tokens(o.payload));
    let ghost mut acc: Built = Ok(payload_tokens(o.payload));

    let ghost mid = args@;
    push_sortby(args, &options.sortby);
    proof {
        lemma_chain_ok(start, mid, args@, acc, sortby_tokens(o.sortby));
        acc = join(acc, Ok(sortby_tokens(o.sortby)));
    }

    let ghost mid = args@;
    if let Some((offset, count)) = options.limit {
        args.push(Token::Keyword(Keyword::Limit));
        args.push(Token::Integer(offset));
        args.push(Token::Integer(count));
    }
    assert(args@ =~= mid + limit_tokens(o.limit));
    proof {
        lemma_chain_ok(start, mid, args@, acc, limit_tokens(o.limit));
        acc = join(acc, Ok(limit_tokens(o.limit)));
    }

    let ghost mid = args@;
    let r = push_params(args, &options.params);
    proof {
        lemma_chain(start, mid, args@, r, acc, params_block(o.params@));
        acc = join(acc, params_block(o.params@));
    }
    r?;

    let ghost mid = args@;
    push_opt_int(args, Keyword::Dialect, options.dialect);
    proof {
        lemma_chain_ok(start, mid, args@, acc, opt_int(Keyword::Dialect, o.dialect));
    }
    Ok(())
}


/// Appends the search options in their fixed order: the result-shaping flags
/// (`NOCONTENT`, `VERBATIM`, `NOSTOPWORDS`, `WITHSCORES`, `WITHPAYLOADS`,
/// `WITHSORTKEYS`), the numeric and geographic filters, `INKEYS`, `INFIELDS`,
/// `RETURN`, `SUMMARIZE`, `HIGHLIGHT`, `SLOP`, `TIMEOUT`, `INORDER`,
/// `LANGUAGE`, `EXPANDER`, `SCORER`, `EXPLAINSCORE`, `PAYLOAD`, `SORTBY`,
/// `LIMIT`, `PARAMS` and `DIALECT`. Absent options and empty lists add
/// nothing. Fails, naming the option, on a count above `i64::MAX`.
pub fn gen_search_options(args: &mut Vec<Token>, options: FtSearchOptions) -> (r: Result<(), BuildError>)
    ensures
        appended(old(args)@, final(args)@, r, search_options_tokens(options)),
{
    let ghost start = args@;
    assert(args@ =~= start + seq![]);
    let r = push_search_head(args, &options);
    proof {
        lemma_join_empty(search_head(options));
        lemma_chain(start, start, args@, r, Ok(seq![]), search_head(options));
    }
    r?;
    let ghost mid = args@;
    let r = push_search_display(args, &options);
    proof {
        lemma_chain(start, mid, args@, r, search_head(options), search_display(options));
    }
    r?;
    let ghost mid = args@;
    push_search_tuning(args, &options);
    proof {
        lemma_chain(start, mid, args@, Ok(()), join(search_head(options), search_display(options)), search_tuning(options));
    }
    let ghost mid = args@;
    let ghost o = options;
    let r = push_search_end(args, options);
    proof {
        lemma_chain(start, mid, args@, r, join(join(search_head(o), search_display(o)), search_tuning(o)), search_end(o));
    }
    r
}

/// No token of `s` is the keyword `k`.
pub open spec fn lacks(s: Seq<Token>, k: Keyword) -> bool {
    forall|i: int| 0 <= i < s.len() ==> s[i] != Token::Keyword(k)
}

/// A build that, when it succeeds, holds no keyword `k`.
pub open spec fn built_lacks(r: Built, k: Keyword) -> bool {
    r is Ok ==> lacks(r->Ok_0, k)
}

proof fn lemma_concat_lacks(a: Seq<Token>, b: Seq<Token>, k: Keyword)
    requires
        lacks(a, k),
        lacks(b, k),
    ensures
        lacks(a + b, k),
{
    assert forall|i: int| 0 <= i < (a + b).len() implies (a + b)[i] != Token::Keyword(k) by {
        if i >= a.len() {
            assert((a + b)[i] == b[i - a.len()]);
        }
    }
}

proof fn lemma_join_lacks(a: Built, b: Built, k: Keyword)
    requires
        built_lacks(a, k),
        built_lacks(b, k),
    ensures
        built_lacks(join(a, b), k),
{
    if a is Ok && b is Ok {
        lemma_concat_lacks(a->Ok_0, b->Ok_0, k);
    }
}

proof fn lemma_texts_lacks(items: Seq<String>, k: Keyword)
    ensures
        lacks(texts(items), k),
{
}

proof fn lemma_counted_lacks(kw: Keyword, n: nat, items: Seq<Token>, k: Keyword)
    requires
        kw != k,
        lacks(items, k),
    ensures
        built_lacks(counted(kw, n, items), k),
{
    if counted(kw, n, items) is Ok {
        let c = int_token(n, kw)->Ok_0;
        lemma_concat_lacks(seq![Token::Keyword(kw), c], items, k);
    }
}

proof fn lemma_nonempty_texts_lacks(kw: Keyword, items: Seq<String>, k: Keyword)
    requires
        kw != k,
    ensures
        built_lacks(nonempty_texts(kw, items), k),
{
    lemma_texts_lacks(items, k);
    lemma_counted_lacks(kw, items.len(), texts(items), k);
}

proof fn lemma_filters_lacks(fs: Seq<FtSearchFilter>, k: Keyword)
    requires
        k != Keyword::Filter,
    ensures
        lacks(filters_tokens(fs), k),
    decreases fs.len(),
{
    if fs.len() > 0 {
        lemma_filters_lacks(fs.skip(1), k);
        lemma_concat_lacks(
            seq![Token::Keyword(Keyword::Filter), Token::Text(fs[0].attribute), Token::Text(fs[0].min), Token::Text(fs[0].max)],
            filters_tokens(fs.skip(1)),
            k,
        );
    }
}

proof fn lemma_geofilters_lacks(gs: Seq<FtSearchGeoFilter>, k: Keyword)
    requires
        k != Keyword::GeoFilter,
    ensures
        lacks(geofilters_tokens(gs), k),
    decreases gs.len(),
{
    if gs.len() > 0 {
        lemma_geofilters_lacks(gs.skip(1), k);
        lemma_concat_lacks(
            seq![
                Token::Keyword(Keyword::GeoFilter),
                Token::Text(gs[0].attribute),
                Token::Text(gs[0].longitude),
                Token::Text(gs[0].latitude),
                Token::Text(gs[0].radius),
                Token::Unit(gs[0].units),
            ],
            geofilters_tokens(gs.skip(1)),
            k,
        );
    }
}

proof fn lemma_fields_lacks(fs: Seq<SearchField>, k: Keyword)
    requires
        k != Keyword::As,
    ensures
        lacks(fields_tokens(fs), k),
    decreases fs.len(),
{
    if fs.len() > 0 {
        lemma_fields_lacks(fs.skip(1), k);
        let head = seq![Token::Text(fs[0].identifier)];
        assert(lacks(alias(fs[0].property), k));
        lemma_concat_lacks(head, alias(fs[0].property), k);
        lemma_concat_lacks(head + alias(fs[0].property), fields_tokens(fs.skip(1)), k);
    }
}

proof fn lemma_params_lacks(ps: Seq<SearchParameter>, k: Keyword)
    ensures
        lacks(params_tokens(ps), k),
    decreases ps.len(),
{
    if ps.len() > 0 {
        lemma_params_lacks(ps.skip(1), k);
        lemma_concat_lacks(seq![Token::Text(ps[0].name), Token::Text(ps[0].value)], params_tokens(ps.skip(1)), k);
    }
}

proof fn lemma_flags_lack_inkeys(o: FtSearchOptions)
    ensures
        lacks(search_flags(o), Keyword::InKeys),
{
    let k = Keyword::InKeys;
    let f1 = flag(o.nocontent, Keyword::NoContent);
    let f2 = flag(o.verbatim, Keyword::Verbatim);
    let f3 = flag(o.nostopwords, Keyword::NoStopwords);
    let f4 = flag(o.withscores, Keyword::WithScores);
    let f5 = flag(o.withpayloads, Keyword::WithPayloads);
    let f6 = flag(o.withsortkeys, Keyword::WithSortKeys);
    assert(lacks(f1, k) && lacks(f2, k) && lacks(f3, k) && lacks(f4, k) && lacks(f5, k) && lacks(f6, k));
    lemma_concat_lacks(f1, f2, k);
    lemma_concat_lacks(f1 + f2, f3, k);
    lemma_concat_lacks(f1 + f2 + f3, f4, k);
    lemma_concat_lacks(f1 + f2 + f3 + f4, f5, k);
    lemma_concat_lacks(f1 + f2 + f3 + f4 + f5, f6, k);
}

proof fn lemma_head_lacks_inkeys(o: FtSearchOptions)
    requires
        o.inkeys@.len() == 0,
    ensures
        built_lacks(search_head(o), Keyword::InKeys),
{
    let k = Keyword::InKeys;
    lemma_flags_lack_inkeys(o);
    lemma_filters_lacks(o.filters@, k);
    lemma_geofilters_lacks(o.geofilters@, k);
    lemma_nonempty_texts_lacks(Keyword::InFields, o.infields@, k);
    lemma_fields_lacks(o.return_fields@, k);
    lemma_counted_lacks(Keyword::Return, o.return_fields@.len(), fields_tokens(o.return_fields@), k);
    let r1 = Ok(search_flags(o));
    let r2 = join(r1, Ok(filters_tokens(o.filters@)));
    lemma_join_lacks(r1, Ok(filters_tokens(o.filters@)), k);
    let r3 = join(r2, Ok(geofilters_tokens(o.geofilters@)));
    lemma_join_lacks(r2, Ok(geofilters_tokens(o.geofilters@)), k);
    assert(nonempty_texts(Keyword::InKeys, o.inkeys@) == Ok::<Seq<Token>, BuildError>(seq![]));
    let r4 = join(r3, nonempty_texts(Keyword::InKeys, o.inkeys@));
    lemma_join_lacks(r3, nonempty_texts(Keyword::InKeys, o.inkeys@), k);
    let r5 = join(r4, nonempty_texts(Keyword::InFields, o.infields@));
    lemma_join_lacks(r4, nonempty_texts(Keyword::InFields, o.infields@), k);
    lemma_join_lacks(r5, return_tokens(o.return_fields@), k);
}

proof fn lemma_display_lacks_inkeys(o: FtSearchOptions)
    ensures
        built_lacks(search_display(o), Keyword::InKeys),
{
    let k = Keyword::InKeys;
    if let Some(s) = o.summarize {
        let r1: Built = Ok(seq![Token::Keyword(Keyword::Summarize)]);
        lemma_nonempty_texts_lacks(Keyword::Fields, s.fields@, k);
        lemma_join_lacks(r1, nonempty_texts(Keyword::Fields, s.fields@), k);
        let r2 = join(r1, nonempty_texts(Keyword::Fields, s.fields@));
        lemma_join_lacks(r2, opt_count(Keyword::Frags, s.frags), k);
        let r3 = join(r2, opt_count(Keyword::Frags, s.frags));
        lemma_join_lacks(r3, opt_count(Keyword::Len, s.len), k);
        let r4 = join(r3, opt_count(Keyword::Len, s.len));
        lemma_join_lacks(r4, Ok(opt_text(Keyword::Separator, s.separator)), k);
    }
    if let Some(h) = o.highlight {
        let r1: Built = Ok(seq![Token::Keyword(Keyword::Highlight)]);
        lemma_nonempty_texts_lacks(Keyword::Fields, h.fields@, k);
        lemma_join_lacks(r1, nonempty_texts(Keyword::Fields, h.fields@), k);
        let r2 = join(r1, nonempty_texts(Keyword::Fields, h.fields@));
        lemma_join_lacks(r2, Ok(tags_tokens(h.tags)), k);
    }
    lemma_join_lacks(summarize_tokens(o.summarize), highlight_tokens(o.highlight), k);
}

proof fn lemma_tuning_lacks_inkeys(o: FtSearchOptions)
    ensures
        built_lacks(search_tuning(o), Keyword::InKeys),
{
    let k = Keyword::InKeys;
    let r1: Built = Ok(opt_int(Keyword::Slop, o.slop));
    lemma_join_lacks(r1, Ok(opt_int(Keyword::Timeout, o.timeout)), k);
    let r2 = join(r1, Ok(opt_int(Keyword::Timeout, o.timeout)));
    lemma_join_lacks(r2, Ok(flag(o.inorder, Keyword::InOrder)), k);
    let r3 = join(r2, Ok(flag(o.inorder, Keyword::InOrder)));
    lemma_join_lacks(r3, Ok(opt_text(Keyword::Language, o.language)), k);
    let r4 = join(r3, Ok(opt_text(Keyword::Language, o.language)));
    lemma_join_lacks(r4, Ok(opt_text(Keyword::Expander, o.expander)), k);
    let r5 = join(r4, Ok(opt_text(Keyword::Expander, o.expander)));
    lemma_join_lacks(r5, Ok(opt_text(Keyword::Scorer, o.scorer)), k);
    let r6 = join(r5, Ok(opt_text(Keyword::Scorer, o.scorer)));
    lemma_join_lacks(r6, Ok(flag(o.explainscore, Keyword::ExplainScore)), k);
}

proof fn lemma_end_lacks_inkeys(o: FtSearchOptions)
    ensures
        built_lacks(search_end(o), Keyword::InKeys),
{
    let k = Keyword::InKeys;
    let r1: Built = Ok(payload_tokens(o.payload));
    if let Some(srt) = o.sortby {
        let head = seq![Token::Keyword(Keyword::SortBy), Token::Text(srt.attribute)];
        let ord = match srt.order {
            Some(x) => seq![Token::Order(x)],
            None => seq![],
        };
        assert(lacks(ord, k));
        lemma_concat_lacks(head, ord, k);
        lemma_concat_lacks(head + ord, flag(srt.withcount, Keyword::WithCount), k);
    }
    lemma_join_lacks(r1, Ok(sortby_tokens(o.sortby)), k);
    let r2 = join(r1, Ok(sortby_tokens(o.sortby)));
    lemma_join_lacks(r2, Ok(limit_tokens(o.limit)), k);
    let r3 = join(r2, Ok(limit_tokens(o.limit)));
    lemma_params_lacks(o.params@, k);
    lemma_counted_lacks(Keyword::Params, 2 * o.params@.len(), params_tokens(o.params@), k);
    lemma_join_lacks(r3, params_block(o.params@), k);
    let r4 = join(r3, params_block(o.params@));
    lemma_join_lacks(r4, Ok(opt_int(Keyword::Dialect, o.dialect)), k);
}

/// Omission: a search with no restricting keys holds no `INKEYS` token
/// anywhere.
pub proof fn lemma_empty_inkeys_omitted(o: FtSearchOptions)
    requires
        o.inkeys@.len() == 0,
        search_options_tokens(o) is Ok,
    ensures
        lacks(search_options_tokens(o)->Ok_0, Keyword::InKeys),
{
    let k = Keyword::InKeys;
    lemma_head_lacks_inkeys(o);
    lemma_display_lacks_inkeys(o);
    lemma_tuning_lacks_inkeys(o);
    lemma_end_lacks_inkeys(o);
    lemma_join_lacks(search_head(o), search_display(o), k);
    lemma_join_lacks(join(search_head(o), search_display(o)), search_tuning(o), k);
    lemma_join_lacks(join(join(search_head(o), search_display(o)), search_tuning(o)), search_end(o), k);
}

/// Omission: a search restricted to one key holds exactly `INKEYS 1 key`.
pub proof fn lemma_single_inkey(o: FtSearchOptions, key: String)
    requires
        o.inkeys@ == seq![key],
        search_options_tokens(o) is Ok,
    ensures
        ({
            let t = search_options_tokens(o)->Ok_0;
            exists|i: int|
                0 <= i && i + 3 <= t.len() && #[trigger] t.subrange(i, i + 3) == seq![
                    Token::Keyword(Keyword::InKeys),
                    Token::Integer(1),
                    Token::Text(key),
                ]
        }),
{
    let x = join(join(Ok(search_flags(o)), Ok(filters_tokens(o.filters@))), Ok(geofilters_tokens(o.geofilters@)))->Ok_0;
    let block = seq![Token::Keyword(Keyword::InKeys), Token::Integer(1), Token::Text(key)];
    assert(texts(o.inkeys@) =~= seq![Token::Text(key)]);
    assert(int_token(1, Keyword::InKeys) == Ok::<Token, BuildError>(Token::Integer(1)));
    assert(seq![Token::Keyword(Keyword::InKeys), Token::Integer(1)] + seq![Token::Text(key)] =~= block);
    assert(nonempty_texts(Keyword::InKeys, o.inkeys@) == Ok::<Seq<Token>, BuildError>(block));
    let h = search_head(o)->Ok_0;
    let t = search_options_tokens(o)->Ok_0;
    let i = x.len() as int;
    assert(t.subrange(i, i + 3) =~= block);
}

} // verus!
