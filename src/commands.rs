//! One builder per command: the command's name and its full argument list,
//! ready for a transport to send. Building happens before anything is sent,
//! so a failure means that nothing goes out.
use vstd::prelude::*;

use crate::aggregate::{aggregate_options_tokens, gen_aggregate_options, FtAggregateOptions};
use crate::emit::{flag, opt_count, opt_int, push_flag, push_opt_count, push_opt_int, push_texts};
use crate::search::{gen_search_options, search_options_tokens, FtSearchOptions};
use crate::token::{texts, Built, BuildError, Keyword, Token};

verus! {

/// The commands of the search module.
#[derive(Clone, Copy, Debug, PartialEq, Eq, Hash)]
pub enum CommandKind {
    FtList,
    FtAggregate,
    FtSearch,
    FtCreate,
    FtAlter,
    FtAliasAdd,
    FtAliasDel,
    FtAliasUpdate,
    FtConfigGet,
    FtConfigSet,
    FtCursorDel,
    FtCursorRead,
    FtDictAdd,
    FtDictDel,
    FtDictDump,
    FtDropIndex,
    FtExplain,
    FtInfo,
    FtSpellCheck,
    FtSugAdd,
    FtSugDel,
    FtSugGet,
    FtSugLen,
    FtSynDump,
    FtSynUpdate,
    FtTagVals,
}

/// The name of each command on the wire.
pub open spec fn command_name(k: CommandKind) -> Seq<char> {
    match k {
        CommandKind::FtList => "FT._LIST"@,
        CommandKind::FtAggregate => "FT.AGGREGATE"@,
        CommandKind::FtSearch => "FT.SEARCH"@,
        CommandKind::FtCreate => "FT.CREATE"@,
        CommandKind::FtAlter => "FT.ALTER"@,
        CommandKind::FtAliasAdd => "FT.ALIASADD"@,
        CommandKind::FtAliasDel => "FT.ALIASDEL"@,
        CommandKind::FtAliasUpdate => "FT.ALIASUPDATE"@,
        CommandKind::FtConfigGet => "FT.CONFIG GET"@,
        CommandKind::FtConfigSet => "FT.CONFIG SET"@,
        CommandKind::FtCursorDel => "FT.CURSOR DEL"@,
        CommandKind::FtCursorRead => "FT.CURSOR READ"@,
        CommandKind::FtDictAdd => "FT.DICTADD"@,
        CommandKind::FtDictDel => "FT.DICTDEL"@,
        CommandKind::FtDictDump => "FT.DICTDUMP"@,
        CommandKind::FtDropIndex => "FT.DROPINDEX"@,
        CommandKind::FtExplain => "FT.EXPLAIN"@,
        CommandKind::FtInfo => "FT.INFO"@,
        CommandKind::FtSpellCheck => "FT.SPELLCHECK"@,
        CommandKind::FtSugAdd => "FT.SUGADD"@,
        CommandKind::FtSugDel => "FT.SUGDEL"@,
        CommandKind::FtSugGet => "FT.SUGGET"@,
        CommandKind::FtSugLen => "FT.SUGLEN"@,
        CommandKind::FtSynDump => "FT.SYNDUMP"@,
        CommandKind::FtSynUpdate => "FT.SYNUPDATE"@,
        CommandKind::FtTagVals => "FT.TAGVALS"@,
    }
}

impl CommandKind {
    /// The command's name as it is sent.
    pub fn as_str(&self) -> (r: &'static str)
        ensures
            r@ == command_name(*self),
    {
        match self {
            CommandKind::FtList => "FT._LIST",
            CommandKind::FtAggregate => "FT.AGGREGATE",
            CommandKind::FtSearch => "FT.SEARCH",
            CommandKind::FtCreate => "FT.CREATE",
            CommandKind::FtAlter => "FT.ALTER",
            CommandKind::FtAliasAdd => "FT.ALIASADD",
            CommandKind::FtAliasDel => "FT.ALIASDEL",
            CommandKind::FtAliasUpdate => "FT.ALIASUPDATE",
            CommandKind::FtConfigGet => "FT.CONFIG GET",
            CommandKind::FtConfigSet => "FT.CONFIG SET",
            CommandKind::FtCursorDel => "FT.CURSOR DEL",
            CommandKind::FtCursorRead => "FT.CURSOR READ",
            CommandKind::FtDictAdd => "FT.DICTADD",
            CommandKind::FtDictDel => "FT.DICTDEL",
            CommandKind::FtDictDump => "FT.DICTDUMP",
            CommandKind::FtDropIndex => "FT.DROPINDEX",
            CommandKind::FtExplain => "FT.EXPLAIN",
            CommandKind::FtInfo => "FT.INFO",
            CommandKind::FtSpellCheck => "FT.SPELLCHECK",
            CommandKind::FtSugAdd => "FT.SUGADD",
            CommandKind::FtSugDel => "FT.SUGDEL",
            CommandKind::FtSugGet => "FT.SUGGET",
            CommandKind::FtSugLen => "FT.SUGLEN",
            CommandKind::FtSynDump => "FT.SYNDUMP",
            CommandKind::FtSynUpdate => "FT.SYNUPDATE",
            CommandKind::FtTagVals => "FT.TAGVALS",
        }
    }
}

/// A command ready to send: which command, and its arguments in order.
#[derive(Clone, Debug, PartialEq, Eq)]
pub struct Command {
    pub kind: CommandKind,
    pub args: Vec<Token>,
}

/// Terms that a spell check includes from, or excludes by, a dictionary.
#[derive(Clone, Debug, PartialEq, Eq)]
pub enum SpellcheckTerms {
    Include { dictionary: String, terms: Vec<String> },
    Exclude { dictionary: String, terms: Vec<String> },
}

/// Options for creating an index. Index definitions have no encoding here.
#[derive(Clone, Copy, Debug, PartialEq, Eq, Default)]
pub struct FtCreateOptions {}

/// Options for altering an index. Index definitions have no encoding here.
#[derive(Clone, Copy, Debug, PartialEq, Eq, Default)]
pub struct FtAlterOptions {}

/// The schema of one indexed field. Index definitions have no encoding here.
#[derive(Clone, Copy, Debug, PartialEq, Eq, Default)]
pub struct SearchSchema {}

/// `c` is the command `kind` with exactly the arguments `args`.
pub open spec fn is_command(c: Command, kind: CommandKind, args: Seq<Token>) -> bool {
    c.kind == kind && c.args@ == args
}

/// `r` is the command `kind` with `fixed` followed by `rest`, or the error
/// met while building `rest`.
pub open spec fn built_command(r: Result<Command, BuildError>, kind: CommandKind, fixed: Seq<Token>, rest: Built) -> bool {
    match rest {
        Ok(t) => r is Ok && is_command(r->Ok_0, kind, fixed + t),
        Err(e) => r == Err::<Command, BuildError>(e),
    }
}

/// The terms block of a spell check.
pub open spec fn spellcheck_terms_tokens(terms: Option<SpellcheckTerms>) -> Seq<Token> {
    match terms {
        None => seq![],
        Some(SpellcheckTerms::Include { dictionary, terms }) => seq![
            Token::Keyword(Keyword::Terms),
            Token::Keyword(Keyword::Include),
            Token::Text(dictionary),
        ] + texts(terms@),
        Some(SpellcheckTerms::Exclude { dictionary, terms }) => seq![
            Token::Keyword(Keyword::Terms),
            Token::Keyword(Keyword::Exclude),
            Token::Text(dictionary),
        ] + texts(terms@),
    }
}

/// The arguments of a spell check after the index and the query.
pub open spec fn spellcheck_tokens(distance: Option<u8>, terms: Option<SpellcheckTerms>, dialect: Option<i64>) -> Seq<Token> {
    (match distance {
        Some(d) => seq![Token::Keyword(Keyword::Distance), Token::Integer(d as i64)],
        None => seq![],
    }) + spellcheck_terms_tokens(terms) + opt_int(Keyword::Dialect, dialect)
}

/// The arguments of a suggestion lookup after the key and the prefix.
pub open spec fn sugget_tokens(fuzzy: bool, withscores: bool, withpayloads: bool, max: Option<u64>) -> Built {
    match opt_count(Keyword::Max, max) {
        Ok(m) => Ok(flag(fuzzy, Keyword::Fuzzy) + flag(withscores, Keyword::WithScores) + flag(withpayloads, Keyword::WithPayloads) + m),
        Err(e) => Err(e),
    }
}

/// The arguments of a suggestion after the key, the string and the score.
pub open spec fn sugadd_tokens(incr: bool, payload: Option<Vec<u8>>) -> Seq<Token> {
    flag(incr, Keyword::Incr) + match payload {
        Some(p) => seq![Token::Keyword(Keyword::Payload), Token::Bytes(p)],
        None => seq![],
    }
}

/// Index creation options have no encoding: this always fails and leaves
/// `args` as it was.
pub fn gen_create_options(args: &mut Vec<Token>, options: FtCreateOptions) -> (r: Result<(), BuildError>)
    ensures
        r == Err::<(), BuildError>(BuildError::Unsupported),
        final(args)@ == old(args)@,
{
    Err(BuildError::Unsupported)
}

/// Index alteration options have no encoding: this always fails and leaves
/// `args` as it was.
pub fn gen_alter_options(args: &mut Vec<Token>, options: FtAlterOptions) -> (r: Result<(), BuildError>)
    ensures
        r == Err::<(), BuildError>(BuildError::Unsupported),
        final(args)@ == old(args)@,
{
    Err(BuildError::Unsupported)
}

/// Field schemas have no encoding: this always fails and leaves `args` as it
/// was.
pub fn gen_schema_args(args: &mut Vec<Token>, options: SearchSchema) -> (r: Result<(), BuildError>)
    ensures
        r == Err::<(), BuildError>(BuildError::Unsupported),
        final(args)@ == old(args)@,
{
    Err(BuildError::Unsupported)
}

/// `FT._LIST`, without arguments.
pub fn ft_list() -> (r: Command)
    ensures
        is_command(r, CommandKind::FtList, seq![]),
{
    Command { kind: CommandKind::FtList, args: Vec::new() }
}

/// `FT.AGGREGATE index query` followed by the aggregation options.
pub fn ft_aggregate(index: String, query: String, options: FtAggregateOptions) -> (r: Result<Command, BuildError>)
    ensures
        built_command(r, CommandKind::FtAggregate, seq![Token::Text(index), Token::Text(query)], aggregate_options_tokens(options)),
{
    let mut args: Vec<Token> = Vec::new();
    args.push(Token::Text(index));
    args.push(Token::Text(query));
    assert(args@ =~= seq![Token::Text(index), Token::Text(query)]);
    gen_aggregate_options(&mut args, options)?;
    Ok(Command { kind: CommandKind::FtAggregate, args })
}

/// `FT.SEARCH index query` followed by the search options.
pub fn ft_search(index: String, query: String, options: FtSearchOptions) -> (r: Result<Command, BuildError>)
    ensures
        built_command(r, CommandKind::FtSearch, seq![Token::Text(index), Token::Text(query)], search_options_tokens(options)),
{
    let mut args: Vec<Token> = Vec::new();
    args.push(Token::Text(index));
    args.push(Token::Text(query));
    assert(args@ =~= seq![Token::Text(index), Token::Text(query)]);
    gen_search_options(&mut args, options)?;
    Ok(Command { kind: CommandKind::FtSearch, args })
}

/// `FT.CREATE`: index definitions have no encoding, so this always fails.
pub fn ft_create(index: String, options: FtCreateOptions, schema: Vec<SearchSchema>) -> (r: Result<Command, BuildError>)
    ensures
        r == Err::<Command, BuildError>(BuildError::Unsupported),
{
    let mut args: Vec<Token> = Vec::new();
    args.push(Token::Text(index));
    gen_create_options(&mut args, options)?;
    let mut i: usize = 0;
    while i < schema.len()
        invariant
            i <= schema@.len(),
        decreases schema@.len() - i,
    {
        gen_schema_args(&mut args, schema[i])?;
        i = i + 1;
    }
    Ok(Command { kind: CommandKind::FtCreate, args })
}

/// `FT.ALTER`: index definitions have no encoding, so this always fails.
pub fn ft_alter(index: String, options: FtAlterOptions) -> (r: Result<Command, BuildError>)
    ensures
        r == Err::<Command, BuildError>(BuildError::Unsupported),
{
    let mut args: Vec<Token> = Vec::new();
    args.push(Token::Text(index));
    gen_alter_options(&mut args, options)?;
    Ok(Command { kind: CommandKind::FtAlter, args })
}

/// `FT.ALIASADD alias index`.
pub fn ft_aliasadd(alias: String, index: String) -> (r: Command)
    ensures
        is_command(r, CommandKind::FtAliasAdd, seq![Token::Text(alias), Token::Text(index)]),
{
    let mut args: Vec<Token> = Vec::new();
    args.push(Token::Text(alias));
    args.push(Token::Text(index));
    assert(args@ =~= seq![Token::Text(alias), Token::Text(index)]);
    Command { kind: CommandKind::FtAliasAdd, args }
}

/// `FT.ALIASDEL alias`.
pub fn ft_aliasdel(alias: String) -> (r: Command)
    ensures
        is_command(r, CommandKind::FtAliasDel, seq![Token::Text(alias)]),
{
    let mut args: Vec<Token> = Vec::new();
    args.push(Token::Text(alias));
    assert(args@ =~= seq![Token::Text(alias)]);
    Command { kind: CommandKind::FtAliasDel, args }
}

/// `FT.ALIASUPDATE alias index`.
pub fn ft_aliasupdate(alias: String, index: String) -> (r: Command)
    ensures
        is_command(r, CommandKind::FtAliasUpdate, seq![Token::Text(alias), Token::Text(index)]),
{
    let mut args: Vec<Token> = Vec::new();
    args.push(Token::Text(alias));
    args.push(Token::Text(index));
    assert(args@ =~= seq![Token::Text(alias), Token::Text(index)]);
    Command { kind: CommandKind::FtAliasUpdate, args }
}

/// `FT.CONFIG GET option`.
pub fn ft_config_get(option: String) -> (r: Command)
    ensures
        is_command(r, CommandKind::FtConfigGet, seq![Token::Text(option)]),
{
    let mut args: Vec<Token> = Vec::new();
    args.push(Token::Text(option));
    assert(args@ =~= seq![Token::Text(option)]);
    Command { kind: CommandKind::FtConfigGet, args }
}

/// `FT.CONFIG SET option value`.
pub fn ft_config_set(option: String, value: Token) -> (r: Command)
    ensures
        is_command(r, CommandKind::FtConfigSet, seq![Token::Text(option), value]),
{
    let mut args: Vec<Token> = Vec::new();
    args.push(Token::Text(option));
    args.push(value);
    assert(args@ =~= seq![Token::Text(option), value]);
    Command { kind: CommandKind::FtConfigSet, args }
}

/// `FT.CURSOR DEL index cursor`.
pub fn ft_cursor_del(index: String, cursor: Token) -> (r: Command)
    ensures
        is_command(r, CommandKind::FtCursorDel, seq![Token::Text(index), cursor]),
{
    let mut args: Vec<Token> = Vec::new();
    args.push(Token::Text(index));
    args.push(cursor);
    assert(args@ =~= seq![Token::Text(index), cursor]);
    Command { kind: CommandKind::FtCursorDel, args }
}

/// `FT.CURSOR READ index cursor [COUNT n]`; fails when `n` exceeds `i64::MAX`.
pub fn ft_cursor_read(index: String, cursor: Token, count: Option<u64>) -> (r: Result<Command, BuildError>)
    ensures
        built_command(r, CommandKind::FtCursorRead, seq![Token::Text(index), cursor], opt_count(Keyword::Count, count)),
{
    let mut args: Vec<Token> = Vec::new();
    args.push(Token::Text(index));
    args.push(cursor);
    assert(args@ =~= seq![Token::Text(index), cursor]);
    push_opt_count(&mut args, Keyword::Count, count)?;
    Ok(Command { kind: CommandKind::FtCursorRead, args })
}

/// `FT.DICTADD dict term...`.
pub fn ft_dictadd(dict: String, terms: Vec<String>) -> (r: Command)
    ensures
        is_command(r, CommandKind::FtDictAdd, seq![Token::Text(dict)] + texts(terms@)),
{
    let mut args: Vec<Token> = Vec::new();
    args.push(Token::Text(dict));
    push_texts(&mut args, &terms);
    assert(args@ =~= seq![Token::Text(dict)] + texts(terms@));
    Command { kind: CommandKind::FtDictAdd, args }
}

/// `FT.DICTDEL dict term...`.
pub fn ft_dictdel(dict: String, terms: Vec<String>) -> (r: Command)
    ensures
        is_command(r, CommandKind::FtDictDel, seq![Token::Text(dict)] + texts(terms@)),
{
    let mut args: Vec<Token> = Vec::new();
    args.push(Token::Text(dict));
    push_texts(&mut args, &terms);
    assert(args@ =~= seq![Token::Text(dict)] + texts(terms@));
    Command { kind: CommandKind::FtDictDel, args }
}

/// `FT.DICTDUMP dict`.
pub fn ft_dictdump(dict: String) -> (r: Command)
    ensures
        is_command(r, CommandKind::FtDictDump, seq![Token::Text(dict)]),
{
    let mut args: Vec<Token> = Vec::new();
    args.push(Token::Text(dict));
    assert(args@ =~= seq![Token::Text(dict)]);
    Command { kind: CommandKind::FtDictDump, args }
}

/// `FT.DROPINDEX index [DD]`.
pub fn ft_dropindex(index: String, dd: bool) -> (r: Command)
    ensures
        is_command(r, CommandKind::FtDropIndex, seq![Token::Text(index)] + flag(dd, Keyword::Dd)),
{
    let mut args: Vec<Token> = Vec::new();
    args.push(Token::Text(index));
    push_flag(&mut args, dd, Keyword::Dd);
    assert(args@ =~= seq![Token::Text(index)] + flag(dd, Keyword::Dd));
    Command { kind: CommandKind::FtDropIndex, args }
}

/// `FT.EXPLAIN index query [DIALECT d]`.
pub fn ft_explain(index: String, query: String, dialect: Option<i64>) -> (r: Command)
    ensures
        is_command(r, CommandKind::FtExplain, seq![Token::Text(index), Token::Text(query)] + opt_int(Keyword::Dialect, dialect)),
{
    let mut args: Vec<Token> = Vec::new();
    args.push(Token::Text(index));
    args.push(Token::Text(query));
    push_opt_int(&mut args, Keyword::Dialect, dialect);
    assert(args@ =~= seq![Token::Text(index), Token::Text(query)] + opt_int(Keyword::Dialect, dialect));
    Command { kind: CommandKind::FtExplain, args }
}

/// `FT.INFO index`.
pub fn ft_info(index: String) -> (r: Command)
    ensures
        is_command(r, CommandKind::FtInfo, seq![Token::Text(index)]),
{
    let mut args: Vec<Token> = Vec::new();
    args.push(Token::Text(index));
    assert(args@ =~= seq![Token::Text(index)]);
    Command { kind: CommandKind::FtInfo, args }
}

/// `FT.SPELLCHECK index query [DISTANCE d] [TERMS INCLUDE|EXCLUDE dict
/// term...] [DIALECT d]`.
pub fn ft_spellcheck(
    index: String,
    query: String,
    distance: Option<u8>,
    terms: Option<SpellcheckTerms>,
    dialect: Option<i64>,
) -> (r: Command)
    ensures
        is_command(
            r,
            CommandKind::FtSpellCheck,
            seq![Token::Text(index), Token::Text(query)] + spellcheck_tokens(distance, terms, dialect),
        ),
{
    let ghost t = terms;
    let mut args: Vec<Token> = Vec::new();
    args.push(Token::Text(index));
    args.push(Token::Text(query));
    if let Some(d) = distance {
        args.push(Token::Keyword(Keyword::Distance));
        args.push(Token::Integer(d as i64));
    }
    let ghost mid = args@;
    if let Some(terms) = terms {
        args.push(Token::Keyword(Keyword::Terms));
        let (dictionary, terms) = match terms {
            SpellcheckTerms::Include { dictionary, terms } => {
                args.push(Token::Keyword(Keyword::Include));
                (dictionary, terms)
            },
            SpellcheckTerms::Exclude { dictionary, terms } => {
                args.push(Token::Keyword(Keyword::Exclude));
                (dictionary, terms)
            },
        };
        args.push(Token::Text(dictionary));
        push_texts(&mut args, &terms);
    }
    assert(args@ =~= mid + spellcheck_terms_tokens(t));
    let ghost mid2 = args@;
    push_opt_int(&mut args, Keyword::Dialect, dialect);
    assert(args@ =~= seq![Token::Text(index), Token::Text(query)] + spellcheck_tokens(distance, t, dialect));
    Command { kind: CommandKind::FtSpellCheck, args }
}

/// `FT.SUGADD key string score [INCR] [PAYLOAD payload]`. The score is given
/// in its wire form.
pub fn ft_sugadd(key: Vec<u8>, string: String, score: String, incr: bool, payload: Option<Vec<u8>>) -> (r: Command)
    ensures
        is_command(
            r,
            CommandKind::FtSugAdd,
            seq![Token::Bytes(key), Token::Text(string), Token::Text(score)] + sugadd_tokens(incr, payload),
        ),
{
    let ghost p = payload;
    let mut args: Vec<Token> = Vec::new();
    args.push(Token::Bytes(key));
    args.push(Token::Text(string));
    args.push(Token::Text(score));
    push_flag(&mut args, incr, Keyword::Incr);
    if let Some(p) = payload {
        args.push(Token::Keyword(Keyword::Payload));
        args.push(Token::Bytes(p));
    }
    assert(args@ =~= seq![Token::Bytes(key), Token::Text(string), Token::Text(score)] + sugadd_tokens(incr, p));
    Command { kind: CommandKind::FtSugAdd, args }
}

/// `FT.SUGDEL key string`.
pub fn ft_sugdel(key: Vec<u8>, string: String) -> (r: Command)
    ensures
        is_command(r, CommandKind::FtSugDel, seq![Token::Bytes(key), Token::Text(string)]),
{
    let mut args: Vec<Token> = Vec::new();
    args.push(Token::Bytes(key));
    args.push(Token::Text(string));
    assert(args@ =~= seq![Token::Bytes(key), Token::Text(string)]);
    Command { kind: CommandKind::FtSugDel, args }
}

/// `FT.SUGGET key prefix [FUZZY] [WITHSCORES] [WITHPAYLOADS] [MAX m]`; fails
/// when `m` exceeds `i64::MAX`.
pub fn ft_sugget(
    key: Vec<u8>,
    prefix: String,
    fuzzy: bool,
    withscores: bool,
    withpayloads: bool,
    max: Option<u64>,
) -> (r: Result<Command, BuildError>)
    ensures
        built_command(r, CommandKind::FtSugGet, seq![Token::Bytes(key), Token::Text(prefix)], sugget_tokens(fuzzy, withscores, withpayloads, max)),
{
    let mut args: Vec<Token> = Vec::new();
    args.push(Token::Bytes(key));
    args.push(Token::Text(prefix));
    let ghost fixed = args@;
    assert(fixed =~= seq![Token::Bytes(key), Token::Text(prefix)]);
    push_flag(&mut args, fuzzy, Keyword::Fuzzy);
    push_flag(&mut args, withscores, Keyword::WithScores);
    push_flag(&mut args, withpayloads, Keyword::WithPayloads);
    let ghost mid = args@;
    push_opt_count(&mut args, Keyword::Max, max)?;
    assert(args@ =~= fixed + sugget_tokens(fuzzy, withscores, withpayloads, max)->Ok_0);
    Ok(Command { kind: CommandKind::FtSugGet, args })
}

/// `FT.SUGLEN key`.
pub fn ft_suglen(key: Vec<u8>) -> (r: Command)
    ensures
        is_command(r, CommandKind::FtSugLen, seq![Token::Bytes(key)]),
{
    let mut args: Vec<Token> = Vec::new();
    args.push(Token::Bytes(key));
    assert(args@ =~= seq![Token::Bytes(key)]);
    Command { kind: CommandKind::FtSugLen, args }
}

/// `FT.SYNDUMP index`.
pub fn ft_syndump(index: String) -> (r: Command)
    ensures
        is_command(r, CommandKind::FtSynDump, seq![Token::Text(index)]),
{
    let mut args: Vec<Token> = Vec::new();
    args.push(Token::Text(index));
    assert(args@ =~= seq![Token::Text(index)]);
    Command { kind: CommandKind::FtSynDump, args }
}

/// `FT.SYNUPDATE index group [SKIPINITIALSCAN] term...`.
pub fn ft_synupdate(index: String, synonym_group_id: String, skipinitialscan: bool, terms: Vec<String>) -> (r: Command)
    ensures
        is_command(
            r,
            CommandKind::FtSynUpdate,
            seq![Token::Text(index), Token::Text(synonym_group_id)] + flag(skipinitialscan, Keyword::SkipInitialScan) + texts(terms@),
        ),
{
    let mut args: Vec<Token> = Vec::new();
    args.push(Token::Text(index));
    args.push(Token::Text(synonym_group_id));
    assert(args@ =~= seq![Token::Text(index), Token::Text(synonym_group_id)]);
    push_flag(&mut args, skipinitialscan, Keyword::SkipInitialScan);
    push_texts(&mut args, &terms);
    assert(args@ =~= seq![Token::Text(index), Token::Text(synonym_group_id)] + flag(skipinitialscan, Keyword::SkipInitialScan) + texts(terms@));
    Command { kind: CommandKind::FtSynUpdate, args }
}

/// `FT.TAGVALS index field`.
pub fn ft_tagvals(index: String, field_name: String) -> (r: Command)
    ensures
        is_command(r, CommandKind::FtTagVals, seq![Token::Text(index), Token::Text(field_name)]),
{
    let mut args: Vec<Token> = Vec::new();
    args.push(Token::Text(index));
    args.push(Token::Text(field_name));
    assert(args@ =~= seq![Token::Text(index), Token::Text(field_name)]);
    Command { kind: CommandKind::FtTagVals, args }
}

} // verus!
