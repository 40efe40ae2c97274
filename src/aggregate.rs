//! `FT.AGGREGATE`: pipeline stages and whole-query options.
use vstd::prelude::*;

use crate::emit::{
    flag, lemma_chain, lemma_chain_ok, opt_count, opt_int, push_counted_texts, push_flag,
    push_opt_count, push_opt_int, push_texts,
};
use crate::token::{
    appended, counted, int_of_u64, int_token, join, lemma_join_assoc, lemma_join_empty, texts, Built, BuildError,
    Keyword, ReduceFunction, SortOrder, Token,
};

verus! {

/// A field to load or return, optionally renamed.
#[derive(Clone, Debug, PartialEq, Eq)]
pub struct SearchField {
    pub identifier: String,
    pub property: Option<String>,
}

/// A named query parameter.
#[derive(Clone, Debug, PartialEq, Eq)]
pub struct SearchParameter {
    pub name: String,
    pub value: String,
}

/// A reducer of a `GROUPBY` stage: a function, its arguments, and an
/// optional name for its output.
#[derive(Clone, Debug, PartialEq, Eq)]
pub struct FtReducer {
    pub func: ReduceFunction,
    pub args: Vec<String>,
    pub name: Option<String>,
}

/// One stage of an aggregation pipeline.
#[derive(Clone, Debug, PartialEq, Eq)]
pub enum AggregateOperation {
    Filter { expression: String },
    Limit { offset: u64, num: u64 },
    Apply { expression: String, name: String },
    SortBy { properties: Vec<(String, SortOrder)>, max: Option<u64> },
    GroupBy { fields: Vec<String>, reducers: Vec<FtReducer> },
}

/// Which fields an aggregation loads.
#[derive(Clone, Debug, PartialEq, Eq)]
pub enum Load {
    All,
    Fields(Vec<SearchField>),
}

/// Cursor settings of an aggregation.
#[derive(Clone, Copy, Debug, PartialEq, Eq, Default)]
pub struct FtAggregateCursor {
    pub count: Option<u64>,
    pub max_idle: Option<u64>,
}

/// The options of an aggregation query.
#[derive(Clone, Debug, PartialEq, Eq, Default)]
pub struct FtAggregateOptions {
    pub verbatim: bool,
    pub load: Option<Load>,
    pub timeout: Option<i64>,
    pub pipeline: Vec<AggregateOperation>,
    pub cursor: Option<FtAggregateCursor>,
    pub params: Vec<SearchParameter>,
    pub dialect: Option<i64>,
}

/// `AS alias` when an alias is given.
pub open spec fn alias(name: Option<String>) -> Seq<Token> {
    match name {
        Some(n) => seq![Token::Keyword(Keyword::As), Token::Text(n)],
        None => seq![],
    }
}

/// Each field's identifier, followed by `AS property` where it is renamed.
pub open spec fn fields_tokens(fs: Seq<SearchField>) -> Seq<Token>
    decreases fs.len(),
{
    if fs.len() == 0 {
        seq![]
    } else {
        seq![Token::Text(fs[0].identifier)] + alias(fs[0].property) + fields_tokens(fs.skip(1))
    }
}

/// Each parameter as its name followed by its value.
pub open spec fn params_tokens(ps: Seq<SearchParameter>) -> Seq<Token>
    decreases ps.len(),
{
    if ps.len() == 0 {
        seq![]
    } else {
        seq![Token::Text(ps[0].name), Token::Text(ps[0].value)] + params_tokens(ps.skip(1))
    }
}

/// `PARAMS 2K name value ...`, or nothing when there are no parameters.
pub open spec fn params_block(ps: Seq<SearchParameter>) -> Built {
    if ps.len() == 0 {
        Ok(seq![])
    } else {
        counted(Keyword::Params, 2 * ps.len(), params_tokens(ps))
    }
}

/// Each sort property followed by its direction.
pub open spec fn properties_tokens(ps: Seq<(String, SortOrder)>) -> Seq<Token>
    decreases ps.len(),
{
    if ps.len() == 0 {
        seq![]
    } else {
        seq![Token::Text(ps[0].0), Token::Order(ps[0].1)] + properties_tokens(ps.skip(1))
    }
}

/// `REDUCE func M arg... [AS alias]`.
pub open spec fn reducer_tokens(r: FtReducer) -> Built {
    match int_token(r.args@.len(), Keyword::Reduce) {
        Ok(m) => Ok(seq![Token::Keyword(Keyword::Reduce), Token::Reducer(r.func), m] + texts(r.args@) + alias(r.name)),
        Err(e) => Err(e),
    }
}

/// The reducers one after the other.
pub open spec fn reducers_tokens(rs: Seq<FtReducer>) -> Built
    decreases rs.len(),
{
    if rs.len() == 0 {
        Ok(seq![])
    } else {
        join(reducer_tokens(rs[0]), reducers_tokens(rs.skip(1)))
    }
}

/// The tokens of one pipeline stage.
pub open spec fn operation_tokens(op: AggregateOperation) -> Built {
    match op {
        AggregateOperation::Filter { expression } => Ok(seq![Token::Keyword(Keyword::Filter), Token::Text(expression)]),
        AggregateOperation::Limit { offset, num } => match (int_token(offset as nat, Keyword::Limit), int_token(num as nat, Keyword::Limit)) {
            (Ok(o), Ok(n)) => Ok(seq![Token::Keyword(Keyword::Limit), o, n]),
            (Err(e), _) => Err(e),
            (_, Err(e)) => Err(e),
        },
        AggregateOperation::Apply { expression, name } => Ok(
            seq![Token::Keyword(Keyword::Apply), Token::Text(expression), Token::Keyword(Keyword::As), Token::Text(name)],
        ),
        AggregateOperation::SortBy { properties, max } => join(
            counted(Keyword::SortBy, properties@.len(), properties_tokens(properties@)),
            opt_count(Keyword::Max, max),
        ),
        AggregateOperation::GroupBy { fields, reducers } => join(
            counted(Keyword::GroupBy, fields@.len(), texts(fields@)),
            reducers_tokens(reducers@),
        ),
    }
}

/// The stages one after the other.
pub open spec fn pipeline_tokens(ops: Seq<AggregateOperation>) -> Built
    decreases ops.len(),
{
    if ops.len() == 0 {
        Ok(seq![])
    } else {
        join(operation_tokens(ops[0]), pipeline_tokens(ops.skip(1)))
    }
}

/// `LOAD *`, or `LOAD N field [AS alias]...` for a non-empty list, or nothing.
pub open spec fn load_tokens(load: Option<Load>) -> Built {
    match load {
        None => Ok(seq![]),
        Some(Load::All) => Ok(seq![Token::Keyword(Keyword::Load), Token::Keyword(Keyword::AllFields)]),
        Some(Load::Fields(fs)) => if fs@.len() == 0 {
            Ok(seq![])
        } else {
            counted(Keyword::Load, fs@.len(), fields_tokens(fs@))
        },
    }
}

/// `WITHCURSOR [COUNT c] [MAXIDLE i]` when a cursor is asked for.
pub open spec fn cursor_tokens(cursor: Option<FtAggregateCursor>) -> Built {
    match cursor {
        None => Ok(seq![]),
        Some(c) => join(
            join(Ok(seq![Token::Keyword(Keyword::WithCursor)]), opt_count(Keyword::Count, c.count)),
            opt_count(Keyword::MaxIdle, c.max_idle),
        ),
    }
}

/// The tokens of the aggregation options, in their fixed order.
pub open spec fn aggregate_options_tokens(o: FtAggregateOptions) -> Built {
    let r = Ok(flag(o.verbatim, Keyword::Verbatim));
    let r = join(r, load_tokens(o.load));
    let r = join(r, Ok(opt_int(Keyword::Timeout, o.timeout)));
    let r = join(r, pipeline_tokens(o.pipeline@));
    let r = join(r, cursor_tokens(o.cursor));
    let r = join(r, params_block(o.params@));
    join(r, Ok(opt_int(Keyword::Dialect, o.dialect)))
}

/// Appends `AS alias` when an alias is given.
fn push_alias(args: &mut Vec<Token>, name: &Option<String>)
    ensures
        final(args)@ == old(args)@ + alias(*name),
{
    if let Some(n) = name {
        args.push(Token::Keyword(Keyword::As));
        args.push(Token::Text(n.clone()));
    }
    assert(final(args)@ =~= old(args)@ + alias(*name));
}

/// Appends each field's identifier and, where it is renamed, `AS property`.
pub(crate) fn push_fields(args: &mut Vec<Token>, fs: &Vec<SearchField>)
    ensures
        final(args)@ == old(args)@ + fields_tokens(fs@),
{
    let ghost start = args@;
    assert(fs@.skip(0) =~= fs@);
    let mut i: usize = 0;
    while i < fs.len()
        invariant
            i <= fs@.len(),
            args@ + fields_tokens(fs@.skip(i as int)) == start + fields_tokens(fs@),
        decreases fs@.len() - i,
    {
        let ghost before = args@;
        assert(fs@.skip(i as int).skip(1) =~= fs@.skip(i + 1));
        args.push(Token::Text(fs[i].identifier.clone()));
        push_alias(args, &fs[i].property);
        assert(args@ + fields_tokens(fs@.skip(i + 1)) =~= before + fields_tokens(fs@.skip(i as int)));
        i = i + 1;
    }
    assert(args@ =~= args@ + fields_tokens(fs@.skip(i as int)));
}

/// Appends `PARAMS 2K` and the name/value pairs, or nothing for no parameters.
pub(crate) fn push_params(args: &mut Vec<Token>, ps: &Vec<SearchParameter>) -> (r: Result<(), BuildError>)
    ensures
        appended(old(args)@, final(args)@, r, params_block(ps@)),
{
    if ps.len() == 0 {
        assert(final(args)@ =~= old(args)@ + seq![]);
        return Ok(());
    }
    let k = ps.len() as u64;
    if k > (i64::MAX as u64) / 2 {
        return Err(BuildError::OutOfRange(Keyword::Params));
    }
    args.push(Token::Keyword(Keyword::Params));
    args.push(Token::Integer((2 * k) as i64));
    let ghost start = args@;
    assert(ps@.skip(0) =~= ps@);
    let mut i: usize = 0;
    while i < ps.len()
        invariant
            i <= ps@.len(),
            args@ + params_tokens(ps@.skip(i as int)) == start + params_tokens(ps@),
        decreases ps@.len() - i,
    {
        let ghost before = args@;
        assert(ps@.skip(i as int).skip(1) =~= ps@.skip(i + 1));
        args.push(Token::Text(ps[i].name.clone()));
        args.push(Token::Text(ps[i].value.clone()));
        assert(args@ + params_tokens(ps@.skip(i + 1)) =~= before + params_tokens(ps@.skip(i as int)));
        i = i + 1;
    }
    assert(args@ =~= args@ + params_tokens(ps@.skip(i as int)));
    assert(args@ =~= old(args)@ + (seq![Token::Keyword(Keyword::Params), Token::Integer((2 * k) as i64)] + params_tokens(ps@)));
    Ok(())
}

/// Appends each sort property and its direction.
fn push_properties(args: &mut Vec<Token>, ps: &Vec<(String, SortOrder)>)
    ensures
        final(args)@ == old(args)@ + properties_tokens(ps@),
{
    let ghost start = args@;
    assert(ps@.skip(0) =~= ps@);
    let mut i: usize = 0;
    while i < ps.len()
        invariant
            i <= ps@.len(),
            args@ + properties_tokens(ps@.skip(i as int)) == start + properties_tokens(ps@),
        decreases ps@.len() - i,
    {
        let ghost before = args@;
        assert(ps@.skip(i as int).skip(1) =~= ps@.skip(i + 1));
        args.push(Token::Text(ps[i].0.clone()));
        args.push(Token::Order(ps[i].1));
        assert(args@ + properties_tokens(ps@.skip(i + 1)) =~= before + properties_tokens(ps@.skip(i as int)));
        i = i + 1;
    }
    assert(args@ =~= args@ + properties_tokens(ps@.skip(i as int)));
}

/// Appends one reducer.
fn push_reducer(args: &mut Vec<Token>, r: &FtReducer) -> (res: Result<(), BuildError>)
    ensures
        appended(old(args)@, final(args)@, res, reducer_tokens(*r)),
{
    let m = int_of_u64(r.args.len() as u64, Keyword::Reduce)?;
    args.push(Token::Keyword(Keyword::Reduce));
    args.push(Token::Reducer(r.func));
    args.push(m);
    push_texts(args, &r.args);
    push_alias(args, &r.name);
    assert(final(args)@ =~= old(args)@ + (seq![Token::Keyword(Keyword::Reduce), Token::Reducer(r.func), m] + texts(r.args@) + alias(r.name)));
    Ok(())
}

/// Appends the reducers in order.
fn push_reducers(args: &mut Vec<Token>, rs: &Vec<FtReducer>) -> (r: Result<(), BuildError>)
    ensures
        appended(old(args)@, final(args)@, r, reducers_tokens(rs@)),
{
    let ghost start = args@;
    let ghost mut done: Seq<Token> = seq![];
    assert(rs@.skip(0) =~= rs@);
    proof { lemma_join_empty(reducers_tokens(rs@)); }
    let mut i: usize = 0;
    while i < rs.len()
        invariant
            i <= rs@.len(),
            args@ == start + done,
            reducers_tokens(rs@) == join(Ok(done), reducers_tokens(rs@.skip(i as int))),
        decreases rs@.len() - i,
    {
        let ghost before = args@;
        assert(rs@.skip(i as int).skip(1) =~= rs@.skip(i + 1));
        assert(rs@.skip(i as int)[0] == rs@[i as int]);
        push_reducer(args, &rs[i])?;
        proof {
            let t = reducer_tokens(rs@[i as int])->Ok_0;
            lemma_join_assoc(done, t, reducers_tokens(rs@.skip(i + 1)));
            assert(args@ =~= start + (done + t));
            done = done + t;
        }
        i = i + 1;
    }
    assert(rs@.skip(i as int) =~= Seq::<FtReducer>::empty());
    assert(done + seq![] =~= done);
    Ok(())
}

/// Appends one pipeline stage.
fn push_operation(args: &mut Vec<Token>, operation: &AggregateOperation) -> (r: Result<(), BuildError>)
    ensures
        appended(old(args)@, final(args)@, r, operation_tokens(*operation)),
{
    match operation {
        AggregateOperation::Filter { expression } => {
            args.push(Token::Keyword(Keyword::Filter));
            args.push(Token::Text(expression.clone()));
            assert(final(args)@ =~= old(args)@ + operation_tokens(*operation)->Ok_0);
        },
        AggregateOperation::Limit { offset, num } => {
            let o = int_of_u64(*offset, Keyword::Limit)?;
            let n = int_of_u64(*num, Keyword::Limit)?;
            args.push(Token::Keyword(Keyword::Limit));
            args.push(o);
            args.push(n);
            assert(final(args)@ =~= old(args)@ + operation_tokens(*operation)->Ok_0);
        },
        AggregateOperation::Apply { expression, name } => {
            args.push(Token::Keyword(Keyword::Apply));
            args.push(Token::Text(expression.clone()));
            args.push(Token::Keyword(Keyword::As));
            args.push(Token::Text(name.clone()));
            assert(final(args)@ =~= old(args)@ + operation_tokens(*operation)->Ok_0);
        },
        AggregateOperation::SortBy { properties, max } => {
            let n = int_of_u64(properties.len() as u64, Keyword::SortBy)?;
            args.push(Token::Keyword(Keyword::SortBy));
            args.push(n);
            push_properties(args, properties);
            let ghost mid = args@;
            let r = push_opt_count(args, Keyword::Max, *max);
            proof {
                assert(mid =~= old(args)@ + (seq![Token::Keyword(Keyword::SortBy), n] + properties_tokens(properties@)));
                lemma_chain(old(args)@, mid, args@, r, counted(Keyword::SortBy, properties@.len(), properties_tokens(properties@)), opt_count(Keyword::Max, *max));
            }
            return r;
        },
        AggregateOperation::GroupBy { fields, reducers } => {
            push_counted_texts(args, Keyword::GroupBy, fields)?;
            let ghost mid = args@;
            let r = push_reducers(args, reducers);
            proof {
                lemma_chain(old(args)@, mid, args@, r, counted(Keyword::GroupBy, fields@.len(), texts(fields@)), reducers_tokens(reducers@));
            }
            return r;
        },
    }
    Ok(())
}

/// Appends the tokens of one pipeline stage: `FILTER expr`, `LIMIT offset
/// count`, `APPLY expr AS name`, `SORTBY N (property direction)... [MAX m]` or
/// `GROUPBY N field... (REDUCE func M arg... [AS alias])...`. Fails, naming
/// the option, on a number above `i64::MAX`.
pub fn gen_aggregate_op(args: &mut Vec<Token>, operation: AggregateOperation) -> (r: Result<(), BuildError>)
    ensures
        appended(old(args)@, final(args)@, r, operation_tokens(operation)),
{
    push_operation(args, &operation)
}


/// Appends the stages in pipeline order.
fn push_pipeline(args: &mut Vec<Token>, ops: &Vec<AggregateOperation>) -> (r: Result<(), BuildError>)
    ensures
        appended(old(args)@, final(args)@, r, pipeline_tokens(ops@)),
{
    let ghost start = args@;
    let ghost mut done: Seq<Token> = seq![];
    assert(ops@.skip(0) =~= ops@);
    proof { lemma_join_empty(pipeline_tokens(ops@)); }
    let mut i: usize = 0;
    while i < ops.len()
        invariant
            i <= ops@.len(),
            args@ == start + done,
            pipeline_tokens(ops@) == join(Ok(done), pipeline_tokens(ops@.skip(i as int))),
        decreases ops@.len() - i,
    {
        assert(ops@.skip(i as int).skip(1) =~= ops@.skip(i + 1));
        assert(ops@.skip(i as int)[0] == ops@[i as int]);
        push_operation(args, &ops[i])?;
        proof {
            let t = operation_tokens(ops@[i as int])->Ok_0;
            lemma_join_assoc(done, t, pipeline_tokens(ops@.skip(i + 1)));
            assert(args@ =~= start + (done + t));
            done = done + t;
        }
        i = i + 1;
    }
    assert(ops@.skip(i as int) =~= Seq::<AggregateOperation>::empty());
    assert(done + seq![] =~= done);
    Ok(())
}

/// Appends the load specification.
fn push_load(args: &mut Vec<Token>, load: &Option<Load>) -> (r: Result<(), BuildError>)
    ensures
        appended(old(args)@, final(args)@, r, load_tokens(*load)),
{
    match load {
        None => {},
        Some(Load::All) => {
            args.push(Token::Keyword(Keyword::Load));
            args.push(Token::Keyword(Keyword::AllFields));
        },
        Some(Load::Fields(fs)) => {
            if fs.len() > 0 {
                let n = int_of_u64(fs.len() as u64, Keyword::Load)?;
                args.push(Token::Keyword(Keyword::Load));
                args.push(n);
                push_fields(args, fs);
            }
        },
    }
    assert(final(args)@ =~= old(args)@ + load_tokens(*load)->Ok_0);
    Ok(())
}

/// Appends the cursor block.
fn push_cursor(args: &mut Vec<Token>, cursor: Option<FtAggregateCursor>) -> (r: Result<(), BuildError>)
    ensures
        appended(old(args)@, final(args)@, r, cursor_tokens(cursor)),
{
    if let Some(c) = cursor {
        let ghost start = args@;
        args.push(Token::Keyword(Keyword::WithCursor));
        let ghost acc: Built = Ok(seq![Token::Keyword(Keyword::WithCursor)]);
        let ghost mid = args@;
        assert(mid =~= start + seq![Token::Keyword(Keyword::WithCursor)]);
        let r1 = push_opt_count(args, Keyword::Count, c.count);
        proof { lemma_chain(start, mid, args@, r1, acc, opt_count(Keyword::Count, c.count)); }
        r1?;
        let ghost mid = args@;
        let r2 = push_opt_count(args, Keyword::MaxIdle, c.max_idle);
        proof { lemma_chain(start, mid, args@, r2, join(acc, opt_count(Keyword::Count, c.count)), opt_count(Keyword::MaxIdle, c.max_idle)); }
        return r2;
    }
    assert(final(args)@ =~= old(args)@ + seq![]);
    Ok(())
}

/// Appends the aggregation options in their fixed order: `VERBATIM`, the load
/// specification, `TIMEOUT`, the pipeline stages in order, the cursor block,
/// `PARAMS 2K name value...` and `DIALECT`. Absent options and empty lists add
/// nothing. Fails, naming the option, on a number above `i64::MAX`.
pub fn gen_aggregate_options(args: &mut Vec<Token>, options: FtAggregateOptions) -> (r: Result<(), BuildError>)
    ensures
        appended(old(args)@, final(args)@, r, aggregate_options_tokens(options)),
{
    let ghost start = args@;
    let ghost mut acc: Built = Ok(seq![]);
    assert(args@ =~= start + seq![]);

    let ghost mid = args@;
    push_flag(args, options.verbatim, Keyword::Verbatim);
    proof {
        lemma_chain_ok(start, mid, args@, acc, flag(options.verbatim, Keyword::Verbatim));
        lemma_join_empty(Ok(flag(options.verbatim, Keyword::Verbatim)));
        acc = Ok(flag(options.verbatim, Keyword::Verbatim));
    }

    let ghost mid = args@;
    let r = push_load(args, &options.load);
    proof { lemma_chain(start, mid, args@, r, acc, load_tokens(options.load)); acc = join(acc, load_tokens(options.load)); }
    r?;

    let ghost mid = args@;
    push_opt_int(args, Keyword::Timeout, options.timeout);
    proof {
        lemma_chain_ok(start, mid, args@, acc, opt_int(Keyword::Timeout, options.timeout));
        acc = join(acc, Ok(opt_int(Keyword::Timeout, options.timeout)));
    }

    let ghost mid = args@;
    let r = push_pipeline(args, &options.pipeline);
    proof { lemma_chain(start, mid, args@, r, acc, pipeline_tokens(options.pipeline@)); acc = join(acc, pipeline_tokens(options.pipeline@)); }
    r?;

    let ghost mid = args@;
    let r = push_cursor(args, options.cursor);
    proof { lemma_chain(start, mid, args@, r, acc, cursor_tokens(options.cursor)); acc = join(acc, cursor_tokens(options.cursor)); }
    r?;

    let ghost mid = args@;
    let r = push_params(args, &options.params);
    proof { lemma_chain(start, mid, args@, r, acc, params_block(options.params@)); acc = join(acc, params_block(options.params@)); }
    r?;

    let ghost mid = args@;
    push_opt_int(args, Keyword::Dialect, options.dialect);
    proof { lemma_chain_ok(start, mid, args@, acc, opt_int(Keyword::Dialect, options.dialect)); }
    Ok(())
}

/// A pipeline with a stage that cannot be built cannot be built.
pub proof fn lemma_pipeline_stage_error(ops: Seq<AggregateOperation>, k: int)
    requires
        0 <= k < ops.len(),
        operation_tokens(ops[k]) is Err,
    ensures
        pipeline_tokens(ops) is Err,
    decreases k,
{
    if k > 0 {
        assert(ops.skip(1)[k - 1] == ops[k]);
        lemma_pipeline_stage_error(ops.skip(1), k - 1);
    }
}

/// Fail-fast: an aggregation with a `LIMIT` stage whose offset or count
/// exceeds `i64::MAX` cannot be built, so `ft_aggregate` returns an error and
/// no command exists to send.
pub proof fn lemma_limit_out_of_range_fails(o: FtAggregateOptions, k: int)
    requires
        0 <= k < o.pipeline@.len(),
        o.pipeline@[k] matches AggregateOperation::Limit { offset, num } && (offset > i64::MAX || num > i64::MAX),
    ensures
        aggregate_options_tokens(o) is Err,
{
    lemma_pipeline_stage_error(o.pipeline@, k);
}

/// The tokens of a stage begin with the stage's keyword.
pub open spec fn stage_keyword(op: AggregateOperation) -> Keyword {
    match op {
        AggregateOperation::Filter { .. } => Keyword::Filter,
        AggregateOperation::Limit { .. } => Keyword::Limit,
        AggregateOperation::Apply { .. } => Keyword::Apply,
        AggregateOperation::SortBy { .. } => Keyword::SortBy,
        AggregateOperation::GroupBy { .. } => Keyword::GroupBy,
    }
}

/// Every stage that builds opens with its keyword.
pub proof fn lemma_stage_opens_with_keyword(op: AggregateOperation)
    requires
        operation_tokens(op) is Ok,
    ensures
        operation_tokens(op)->Ok_0.len() > 0,
        operation_tokens(op)->Ok_0[0] == Token::Keyword(stage_keyword(op)),
{
    match op {
        AggregateOperation::SortBy { properties, max } => {
            let c = counted(Keyword::SortBy, properties@.len(), properties_tokens(properties@))->Ok_0;
            assert(c[0] == Token::Keyword(Keyword::SortBy));
        },
        AggregateOperation::GroupBy { fields, reducers } => {
            let c = counted(Keyword::GroupBy, fields@.len(), texts(fields@))->Ok_0;
            assert(c[0] == Token::Keyword(Keyword::GroupBy));
        },
        _ => {},
    }
}

/// Order preservation: when the pipeline is a filter, then a grouping, then
/// a sort, the built aggregation holds the `FILTER`, `GROUPBY` and `SORTBY`
/// keywords in that order.
pub proof fn lemma_pipeline_order(o: FtAggregateOptions)
    requires
        o.pipeline@.len() == 3,
        o.pipeline@[0] is Filter,
        o.pipeline@[1] is GroupBy,
        o.pipeline@[2] is SortBy,
        aggregate_options_tokens(o) is Ok,
    ensures
        ({
            let t = aggregate_options_tokens(o)->Ok_0;
            exists|i: int, j: int, k: int|
                0 <= i < j < k < t.len() && t[i] == Token::Keyword(Keyword::Filter) && t[j] == Token::Keyword(Keyword::GroupBy)
                    && t[k] == Token::Keyword(Keyword::SortBy)
        }),
{
    let ops = o.pipeline@;
    let s1 = ops.skip(1);
    let s2 = s1.skip(1);
    let s3 = s2.skip(1);
    assert(s1[0] == ops[1]);
    assert(s2[0] == ops[2]);
    assert(s3.len() == 0);
    assert(pipeline_tokens(s3) == Ok::<Seq<Token>, BuildError>(seq![]));
    let pre = join(join(Ok(flag(o.verbatim, Keyword::Verbatim)), load_tokens(o.load)), Ok(opt_int(Keyword::Timeout, o.timeout)));
    let full = join(pre, pipeline_tokens(ops));
    assert(pre is Ok && pipeline_tokens(ops) is Ok && cursor_tokens(o.cursor) is Ok && params_block(o.params@) is Ok);
    assert(operation_tokens(ops[0]) is Ok && pipeline_tokens(s1) is Ok);
    assert(operation_tokens(ops[1]) is Ok && pipeline_tokens(s2) is Ok);
    assert(operation_tokens(ops[2]) is Ok);
    let x = pre->Ok_0;
    let a = operation_tokens(ops[0])->Ok_0;
    let b = operation_tokens(ops[1])->Ok_0;
    let c = operation_tokens(ops[2])->Ok_0;
    lemma_stage_opens_with_keyword(ops[0]);
    lemma_stage_opens_with_keyword(ops[1]);
    lemma_stage_opens_with_keyword(ops[2]);
    assert(pipeline_tokens(s2) == Ok::<Seq<Token>, BuildError>(c + seq![]));
    assert(pipeline_tokens(s1) == Ok::<Seq<Token>, BuildError>(b + (c + seq![])));
    assert(pipeline_tokens(ops) == Ok::<Seq<Token>, BuildError>(a + (b + (c + seq![]))));
    let p = a + (b + (c + seq![]));
    let t = aggregate_options_tokens(o)->Ok_0;
    assert(t == x + p + cursor_tokens(o.cursor)->Ok_0 + params_block(o.params@)->Ok_0 + opt_int(Keyword::Dialect, o.dialect));
    let i = x.len() as int;
    let j = i + a.len();
    let k = j + b.len();
    assert(p[0] == a[0]);
    assert(p[a.len() as int] == b[0]);
    assert(p[(a.len() + b.len()) as int] == c[0]);
    assert(t[i] == p[0]);
    assert(t[j] == p[a.len() as int]);
    assert(t[k] == p[(a.len() + b.len()) as int]);
}

} // verus!
