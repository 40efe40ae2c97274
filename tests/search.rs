use search_commands::{
    ft_search, gen_search_options, BuildError, CommandKind, FtSearchFilter, FtSearchGeoFilter, FtSearchHighlight,
    FtSearchOptions, FtSearchSortBy, FtSearchSummarize, GeoUnit, Keyword, SearchField, SearchParameter, SortOrder,
    Token,
};

fn kw(k: Keyword) -> Token {
    Token::Keyword(k)
}

fn text(s: &str) -> Token {
    Token::Text(s.to_string())
}

fn search_tokens(options: FtSearchOptions) -> Result<Vec<Token>, BuildError> {
    let mut args = Vec::new();
    gen_search_options(&mut args, options)?;
    Ok(args)
}

#[test]
fn empty_inkeys_emit_nothing() {
    let args = search_tokens(FtSearchOptions { inkeys: vec![], ..Default::default() }).unwrap();
    assert!(!args.contains(&kw(Keyword::InKeys)));
    assert!(args.is_empty());
}

#[test]
fn one_inkey_is_counted() {
    let args = search_tokens(FtSearchOptions { inkeys: vec!["k".to_string()], ..Default::default() }).unwrap();
    assert_eq!(args, vec![kw(Keyword::InKeys), Token::Integer(1), text("k")]);
}

#[test]
fn inkeys_among_other_options() {
    let options = FtSearchOptions {
        verbatim: true,
        inkeys: vec!["k".to_string()],
        infields: vec!["f".to_string(), "g".to_string()],
        ..Default::default()
    };
    let cmd = ft_search("idx".to_string(), "q".to_string(), options).unwrap();
    assert_eq!(cmd.kind, CommandKind::FtSearch);
    assert_eq!(
        cmd.args,
        vec![
            text("idx"),
            text("q"),
            kw(Keyword::Verbatim),
            kw(Keyword::InKeys),
            Token::Integer(1),
            text("k"),
            kw(Keyword::InFields),
            Token::Integer(2),
            text("f"),
            text("g"),
        ]
    );
}

#[test]
fn search_options_in_fixed_order() {
    let options = FtSearchOptions {
        nocontent: true,
        verbatim: true,
        nostopwords: true,
        withscores: true,
        withpayloads: true,
        withsortkeys: true,
        filters: vec![FtSearchFilter { attribute: "price".to_string(), min: "-inf".to_string(), max: "(100".to_string() }],
        geofilters: vec![FtSearchGeoFilter {
            attribute: "loc".to_string(),
            longitude: "1.5".to_string(),
            latitude: "2.5".to_string(),
            radius: "10".to_string(),
            units: GeoUnit::Kilometers,
        }],
        inkeys: vec![],
        infields: vec![],
        return_fields: vec![SearchField { identifier: "t".to_string(), property: Some("title".to_string()) }],
        summarize: Some(FtSearchSummarize { fields: vec!["body".to_string()], frags: Some(3), len: Some(20), separator: Some("...".to_string()) }),
        highlight: Some(FtSearchHighlight { fields: vec![], tags: Some(("<b>".to_string(), "</b>".to_string())) }),
        slop: Some(1),
        timeout: Some(500),
        inorder: true,
        language: Some("english".to_string()),
        expander: Some("x".to_string()),
        scorer: Some("BM25".to_string()),
        explainscore: true,
        payload: Some(vec![1, 2, 3]),
        sortby: Some(FtSearchSortBy { attribute: "price".to_string(), order: Some(SortOrder::Desc), withcount: true }),
        limit: Some((0, 10)),
        params: vec![SearchParameter { name: "p".to_string(), value: "v".to_string() }],
        dialect: Some(3),
    };
    assert_eq!(
        search_tokens(options).unwrap(),
        vec![
            kw(Keyword::NoContent),
            kw(Keyword::Verbatim),
            kw(Keyword::NoStopwords),
            kw(Keyword::WithScores),
            kw(Keyword::WithPayloads),
            kw(Keyword::WithSortKeys),
            kw(Keyword::Filter),
            text("price"),
            text("-inf"),
            text("(100"),
            kw(Keyword::GeoFilter),
            text("loc"),
            text("1.5"),
            text("2.5"),
            text("10"),
            Token::Unit(GeoUnit::Kilometers),
            kw(Keyword::Return),
            Token::Integer(1),
            text("t"),
            kw(Keyword::As),
            text("title"),
            kw(Keyword::Summarize),
            kw(Keyword::Fields),
            Token::Integer(1),
            text("body"),
            kw(Keyword::Frags),
            Token::Integer(3),
            kw(Keyword::Len),
            Token::Integer(20),
            kw(Keyword::Separator),
            text("..."),
            kw(Keyword::Highlight),
            kw(Keyword::Tags),
            text("<b>"),
            text("</b>"),
            kw(Keyword::Slop),
            Token::Integer(1),
            kw(Keyword::Timeout),
            Token::Integer(500),
            kw(Keyword::InOrder),
            kw(Keyword::Language),
            text("english"),
            kw(Keyword::Expander),
            text("x"),
            kw(Keyword::Scorer),
            text("BM25"),
            kw(Keyword::ExplainScore),
            kw(Keyword::Payload),
            Token::Bytes(vec![1, 2, 3]),
            kw(Keyword::SortBy),
            text("price"),
            Token::Order(SortOrder::Desc),
            kw(Keyword::WithCount),
            kw(Keyword::Limit),
            Token::Integer(0),
            Token::Integer(10),
            kw(Keyword::Params),
            Token::Integer(2),
            text("p"),
            text("v"),
            kw(Keyword::Dialect),
            Token::Integer(3),
        ]
    );
}

#[test]
fn bare_summarize_and_highlight() {
    let options = FtSearchOptions {
        summarize: Some(FtSearchSummarize::default()),
        highlight: Some(FtSearchHighlight::default()),
        sortby: Some(FtSearchSortBy { attribute: "a".to_string(), order: None, withcount: false }),
        ..Default::default()
    };
    assert_eq!(search_tokens(options).unwrap(), vec![kw(Keyword::Summarize), kw(Keyword::Highlight), kw(Keyword::SortBy), text("a")]);
}

#[test]
fn summarize_frags_out_of_range_fails() {
    let options = FtSearchOptions {
        summarize: Some(FtSearchSummarize { frags: Some(u64::MAX), ..Default::default() }),
        ..Default::default()
    };
    assert_eq!(ft_search("i".to_string(), "q".to_string(), options), Err(BuildError::OutOfRange(Keyword::Frags)));
    let options = FtSearchOptions {
        summarize: Some(FtSearchSummarize { len: Some((i64::MAX as u64) + 1), ..Default::default() }),
        ..Default::default()
    };
    assert_eq!(ft_search("i".to_string(), "q".to_string(), options), Err(BuildError::OutOfRange(Keyword::Len)));
}

#[test]
fn unit_texts() {
    assert_eq!(GeoUnit::Meters.as_str(), "m");
    assert_eq!(GeoUnit::Miles.as_str(), "mi");
    assert_eq!(GeoUnit::Feet.as_str(), "ft");
    assert_eq!(Keyword::GeoFilter.as_str(), "GEOFILTER");
}
