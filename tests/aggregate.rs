use search_commands::{
    ft_aggregate, gen_aggregate_op, gen_aggregate_options, AggregateOperation, BuildError, CommandKind,
    FtAggregateCursor, FtAggregateOptions, FtReducer, Keyword, Load, ReduceFunction, SearchField, SearchParameter,
    SortOrder, Token,
};

fn kw(k: Keyword) -> Token {
    Token::Keyword(k)
}

fn text(s: &str) -> Token {
    Token::Text(s.to_string())
}

fn op_tokens(op: AggregateOperation) -> Result<Vec<Token>, BuildError> {
    let mut args = Vec::new();
    gen_aggregate_op(&mut args, op)?;
    Ok(args)
}

#[test]
fn sortby_counts_properties_and_adds_max() {
    let op = AggregateOperation::SortBy {
        properties: vec![("p1".to_string(), SortOrder::Asc), ("p2".to_string(), SortOrder::Desc)],
        max: Some(5),
    };
    assert_eq!(
        op_tokens(op).unwrap(),
        vec![
            kw(Keyword::SortBy),
            Token::Integer(2),
            text("p1"),
            Token::Order(SortOrder::Asc),
            text("p2"),
            Token::Order(SortOrder::Desc),
            kw(Keyword::Max),
            Token::Integer(5),
        ]
    );
}

#[test]
fn sortby_without_max() {
    let op = AggregateOperation::SortBy { properties: vec![("p".to_string(), SortOrder::Asc)], max: None };
    assert_eq!(op_tokens(op).unwrap(), vec![kw(Keyword::SortBy), Token::Integer(1), text("p"), Token::Order(SortOrder::Asc)]);
}

#[test]
fn groupby_with_reducer_and_alias() {
    let op = AggregateOperation::GroupBy {
        fields: vec!["f".to_string()],
        reducers: vec![FtReducer { func: ReduceFunction::Count, args: vec![], name: Some("n".to_string()) }],
    };
    assert_eq!(
        op_tokens(op).unwrap(),
        vec![
            kw(Keyword::GroupBy),
            Token::Integer(1),
            text("f"),
            kw(Keyword::Reduce),
            Token::Reducer(ReduceFunction::Count),
            Token::Integer(0),
            kw(Keyword::As),
            text("n"),
        ]
    );
}

#[test]
fn groupby_reducers_in_order_with_arguments() {
    let op = AggregateOperation::GroupBy {
        fields: vec!["a".to_string(), "b".to_string()],
        reducers: vec![
            FtReducer { func: ReduceFunction::Sum, args: vec!["@x".to_string()], name: None },
            FtReducer { func: ReduceFunction::Quantile, args: vec!["@y".to_string(), "0.5".to_string()], name: Some("q".to_string()) },
        ],
    };
    assert_eq!(
        op_tokens(op).unwrap(),
        vec![
            kw(Keyword::GroupBy),
            Token::Integer(2),
            text("a"),
            text("b"),
            kw(Keyword::Reduce),
            Token::Reducer(ReduceFunction::Sum),
            Token::Integer(1),
            text("@x"),
            kw(Keyword::Reduce),
            Token::Reducer(ReduceFunction::Quantile),
            Token::Integer(2),
            text("@y"),
            text("0.5"),
            kw(Keyword::As),
            text("q"),
        ]
    );
}

#[test]
fn filter_limit_apply_stages() {
    assert_eq!(op_tokens(AggregateOperation::Filter { expression: "@x>1".to_string() }).unwrap(), vec![kw(Keyword::Filter), text("@x>1")]);
    assert_eq!(
        op_tokens(AggregateOperation::Limit { offset: 10, num: 20 }).unwrap(),
        vec![kw(Keyword::Limit), Token::Integer(10), Token::Integer(20)]
    );
    assert_eq!(
        op_tokens(AggregateOperation::Apply { expression: "@a*2".to_string(), name: "b".to_string() }).unwrap(),
        vec![kw(Keyword::Apply), text("@a*2"), kw(Keyword::As), text("b")]
    );
}

#[test]
fn limit_out_of_range_fails() {
    let big = (i64::MAX as u64) + 1;
    assert_eq!(op_tokens(AggregateOperation::Limit { offset: big, num: 1 }), Err(BuildError::OutOfRange(Keyword::Limit)));
    assert_eq!(op_tokens(AggregateOperation::Limit { offset: 0, num: u64::MAX }), Err(BuildError::OutOfRange(Keyword::Limit)));
    assert_eq!(
        op_tokens(AggregateOperation::Limit { offset: i64::MAX as u64, num: 0 }).unwrap(),
        vec![kw(Keyword::Limit), Token::Integer(i64::MAX), Token::Integer(0)]
    );
}

#[test]
fn sortby_max_out_of_range_fails() {
    let op = AggregateOperation::SortBy { properties: vec![], max: Some(u64::MAX) };
    assert_eq!(op_tokens(op), Err(BuildError::OutOfRange(Keyword::Max)));
}

#[test]
fn pipeline_stages_keep_their_order() {
    let options = FtAggregateOptions {
        pipeline: vec![
            AggregateOperation::Filter { expression: "e".to_string() },
            AggregateOperation::GroupBy { fields: vec!["f".to_string()], reducers: vec![] },
            AggregateOperation::SortBy { properties: vec![("p".to_string(), SortOrder::Asc)], max: None },
        ],
        ..Default::default()
    };
    let cmd = ft_aggregate("idx".to_string(), "*".to_string(), options).unwrap();
    assert_eq!(cmd.kind, CommandKind::FtAggregate);
    let pos = |k: Keyword| cmd.args.iter().position(|t| *t == Token::Keyword(k)).unwrap();
    assert!(pos(Keyword::Filter) < pos(Keyword::GroupBy));
    assert!(pos(Keyword::GroupBy) < pos(Keyword::SortBy));
    assert_eq!(
        cmd.args,
        vec![
            text("idx"),
            text("*"),
            kw(Keyword::Filter),
            text("e"),
            kw(Keyword::GroupBy),
            Token::Integer(1),
            text("f"),
            kw(Keyword::SortBy),
            Token::Integer(1),
            text("p"),
            Token::Order(SortOrder::Asc),
        ]
    );
}

#[test]
fn aggregate_options_in_fixed_order() {
    let options = FtAggregateOptions {
        verbatim: true,
        load: Some(Load::Fields(vec![
            SearchField { identifier: "a".to_string(), property: None },
            SearchField { identifier: "b".to_string(), property: Some("c".to_string()) },
        ])),
        timeout: Some(100),
        pipeline: vec![AggregateOperation::Limit { offset: 0, num: 10 }],
        cursor: Some(FtAggregateCursor { count: Some(5), max_idle: Some(1000) }),
        params: vec![
            SearchParameter { name: "x".to_string(), value: "1".to_string() },
            SearchParameter { name: "y".to_string(), value: "2".to_string() },
        ],
        dialect: Some(2),
    };
    let mut args = Vec::new();
    gen_aggregate_options(&mut args, options).unwrap();
    assert_eq!(
        args,
        vec![
            kw(Keyword::Verbatim),
            kw(Keyword::Load),
            Token::Integer(2),
            text("a"),
            text("b"),
            kw(Keyword::As),
            text("c"),
            kw(Keyword::Timeout),
            Token::Integer(100),
            kw(Keyword::Limit),
            Token::Integer(0),
            Token::Integer(10),
            kw(Keyword::WithCursor),
            kw(Keyword::Count),
            Token::Integer(5),
            kw(Keyword::MaxIdle),
            Token::Integer(1000),
            kw(Keyword::Params),
            Token::Integer(4),
            text("x"),
            text("1"),
            text("y"),
            text("2"),
            kw(Keyword::Dialect),
            Token::Integer(2),
        ]
    );
}

#[test]
fn aggregate_load_all_and_empty_load() {
    let mut args = Vec::new();
    gen_aggregate_options(&mut args, FtAggregateOptions { load: Some(Load::All), ..Default::default() }).unwrap();
    assert_eq!(args, vec![kw(Keyword::Load), kw(Keyword::AllFields)]);
    let mut args = Vec::new();
    gen_aggregate_options(&mut args, FtAggregateOptions { load: Some(Load::Fields(vec![])), ..Default::default() }).unwrap();
    assert!(args.is_empty());
}

#[test]
fn aggregate_defaults_add_nothing() {
    let cmd = ft_aggregate("i".to_string(), "q".to_string(), FtAggregateOptions::default()).unwrap();
    assert_eq!(cmd.args, vec![text("i"), text("q")]);
}

#[test]
fn aggregate_bare_cursor() {
    let mut args = Vec::new();
    let options = FtAggregateOptions { cursor: Some(FtAggregateCursor { count: None, max_idle: None }), ..Default::default() };
    gen_aggregate_options(&mut args, options).unwrap();
    assert_eq!(args, vec![kw(Keyword::WithCursor)]);
}

#[test]
fn aggregate_fails_fast_on_bad_number() {
    let options = FtAggregateOptions {
        pipeline: vec![
            AggregateOperation::Filter { expression: "e".to_string() },
            AggregateOperation::Limit { offset: u64::MAX, num: 1 },
        ],
        ..Default::default()
    };
    assert_eq!(ft_aggregate("i".to_string(), "q".to_string(), options), Err(BuildError::OutOfRange(Keyword::Limit)));
    let options = FtAggregateOptions { cursor: Some(FtAggregateCursor { count: None, max_idle: Some(u64::MAX) }), ..Default::default() };
    assert_eq!(ft_aggregate("i".to_string(), "q".to_string(), options), Err(BuildError::OutOfRange(Keyword::MaxIdle)));
}

#[test]
fn keyword_and_name_texts() {
    assert_eq!(Keyword::GroupBy.as_str(), "GROUPBY");
    assert_eq!(Keyword::AllFields.as_str(), "*");
    assert_eq!(Keyword::ExplainScore.as_str(), "EXPLAINSCORE");
    assert_eq!(SortOrder::Desc.as_str(), "DESC");
    assert_eq!(ReduceFunction::CountDistinctIsh.as_str(), "COUNT_DISTINCTISH");
    assert_eq!(ReduceFunction::FirstValue.as_str(), "FIRST_VALUE");
    assert_eq!(CommandKind::FtAggregate.as_str(), "FT.AGGREGATE");
}
