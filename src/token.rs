//! The wire vocabulary: keywords, tokens, build errors, and the integer
//! conversion that fails on numbers the wire cannot carry.
use vstd::prelude::*;

verus! {

/// A fixed protocol keyword.
#[derive(Clone, Copy, Debug, PartialEq, Eq, Hash)]
pub enum Keyword {
    Dd,
    Dialect,
    Distance,
    Include,
    Exclude,
    Terms,
    Incr,
    Payload,
    Fuzzy,
    WithScores,
    WithPayloads,
    Max,
    SkipInitialScan,
    NoContent,
    Verbatim,
    NoStopwords,
    WithSortKeys,
    Filter,
    GeoFilter,
    InKeys,
    InFields,
    Return,
    As,
    Summarize,
    Fields,
    Frags,
    Len,
    Separator,
    Highlight,
    Tags,
    Slop,
    Timeout,
    InOrder,
    Language,
    Expander,
    Scorer,
    ExplainScore,
    SortBy,
    Params,
    WithCount,
    Load,
    AllFields,
    WithCursor,
    MaxIdle,
    Apply,
    GroupBy,
    Reduce,
    Limit,
    Count,
}

/// The text of each keyword on the wire.
pub open spec fn keyword_text(k: Keyword) -> Seq<char> {
    match k {
        Keyword::Dd => "DD"@,
        Keyword::Dialect => "DIALECT"@,
        Keyword::Distance => "DISTANCE"@,
        Keyword::Include => "INCLUDE"@,
        Keyword::Exclude => "EXCLUDE"@,
        Keyword::Terms => "TERMS"@,
        Keyword::Incr => "INCR"@,
        Keyword::Payload => "PAYLOAD"@,
        Keyword::Fuzzy => "FUZZY"@,
        Keyword::WithScores => "WITHSCORES"@,
        Keyword::WithPayloads => "WITHPAYLOADS"@,
        Keyword::Max => "MAX"@,
        Keyword::SkipInitialScan => "SKIPINITIALSCAN"@,
        Keyword::NoContent => "NOCONTENT"@,
        Keyword::Verbatim => "VERBATIM"@,
        Keyword::NoStopwords => "NOSTOPWORDS"@,
        Keyword::WithSortKeys => "WITHSORTKEYS"@,
        Keyword::Filter => "FILTER"@,
        Keyword::GeoFilter => "GEOFILTER"@,
        Keyword::InKeys => "INKEYS"@,
        Keyword::InFields => "INFIELDS"@,
        Keyword::Return => "RETURN"@,
        Keyword::As => "AS"@,
        Keyword::Summarize => "SUMMARIZE"@,
        Keyword::Fields => "FIELDS"@,
        Keyword::Frags => "FRAGS"@,
        Keyword::Len => "LEN"@,
        Keyword::Separator => "SEPARATOR"@,
        Keyword::Highlight => "HIGHLIGHT"@,
        Keyword::Tags => "TAGS"@,
        Keyword::Slop => "SLOP"@,
        Keyword::Timeout => "TIMEOUT"@,
        Keyword::InOrder => "INORDER"@,
        Keyword::Language => "LANGUAGE"@,
        Keyword::Expander => "EXPANDER"@,
        Keyword::Scorer => "SCORER"@,
        Keyword::ExplainScore => "EXPLAINSCORE"@,
        Keyword::SortBy => "SORTBY"@,
        Keyword::Params => "PARAMS"@,
        Keyword::WithCount => "WITHCOUNT"@,
        Keyword::Load => "LOAD"@,
        Keyword::AllFields => "*"@,
        Keyword::WithCursor => "WITHCURSOR"@,
        Keyword::MaxIdle => "MAXIDLE"@,
        Keyword::Apply => "APPLY"@,
        Keyword::GroupBy => "GROUPBY"@,
        Keyword::Reduce => "REDUCE"@,
        Keyword::Limit => "LIMIT"@,
        Keyword::Count => "COUNT"@,
    }
}

impl Keyword {
    /// The keyword as it is sent.
    pub fn as_str(&self) -> (r: &'static str)
        ensures
            r@ == keyword_text(*self),
    {
        match self {
            Keyword::Dd => "DD",
            Keyword::Dialect => "DIALECT",
            Keyword::Distance => "DISTANCE",
            Keyword::Include => "INCLUDE",
            Keyword::Exclude => "EXCLUDE",
            Keyword::Terms => "TERMS",
            Keyword::Incr => "INCR",
            Keyword::Payload => "PAYLOAD",
            Keyword::Fuzzy => "FUZZY",
            Keyword::WithScores => "WITHSCORES",
            Keyword::WithPayloads => "WITHPAYLOADS",
            Keyword::Max => "MAX",
            Keyword::SkipInitialScan => "SKIPINITIALSCAN",
            Keyword::NoContent => "NOCONTENT",
            Keyword::Verbatim => "VERBATIM",
            Keyword::NoStopwords => "NOSTOPWORDS",
            Keyword::WithSortKeys => "WITHSORTKEYS",
            Keyword::Filter => "FILTER",
            Keyword::GeoFilter => "GEOFILTER",
            Keyword::InKeys => "INKEYS",
            Keyword::InFields => "INFIELDS",
            Keyword::Return => "RETURN",
            Keyword::As => "AS",
            Keyword::Summarize => "SUMMARIZE",
            Keyword::Fields => "FIELDS",
            Keyword::Frags => "FRAGS",
            Keyword::Len => "LEN",
            Keyword::Separator => "SEPARATOR",
            Keyword::Highlight => "HIGHLIGHT",
            Keyword::Tags => "TAGS",
            Keyword::Slop => "SLOP",
            Keyword::Timeout => "TIMEOUT",
            Keyword::InOrder => "INORDER",
            Keyword::Language => "LANGUAGE",
            Keyword::Expander => "EXPANDER",
            Keyword::Scorer => "SCORER",
            Keyword::ExplainScore => "EXPLAINSCORE",
            Keyword::SortBy => "SORTBY",
            Keyword::Params => "PARAMS",
            Keyword::WithCount => "WITHCOUNT",
            Keyword::Load => "LOAD",
            Keyword::AllFields => "*",
            Keyword::WithCursor => "WITHCURSOR",
            Keyword::MaxIdle => "MAXIDLE",
            Keyword::Apply => "APPLY",
            Keyword::GroupBy => "GROUPBY",
            Keyword::Reduce => "REDUCE",
            Keyword::Limit => "LIMIT",
            Keyword::Count => "COUNT",
        }
    }
}

/// Direction of a sort.
#[derive(Clone, Copy, Debug, PartialEq, Eq, Hash)]
pub enum SortOrder {
    Asc,
    Desc,
}

impl SortOrder {
    /// The direction as it is sent.
    pub fn as_str(&self) -> (r: &'static str)
        ensures
            r@ == (match *self {
                SortOrder::Asc => "ASC"@,
                SortOrder::Desc => "DESC"@,
            }),
    {
        match self {
            SortOrder::Asc => "ASC",
            SortOrder::Desc => "DESC",
        }
    }
}

/// Unit of a geographic radius.
#[derive(Clone, Copy, Debug, PartialEq, Eq, Hash)]
pub enum GeoUnit {
    Meters,
    Kilometers,
    Miles,
    Feet,
}

impl GeoUnit {
    /// The unit as it is sent.
    pub fn as_str(&self) -> (r: &'static str)
        ensures
            r@ == (match *self {
                GeoUnit::Meters => "m"@,
                GeoUnit::Kilometers => "km"@,
                GeoUnit::Miles => "mi"@,
                GeoUnit::Feet => "ft"@,
            }),
    {
        match self {
            GeoUnit::Meters => "m",
            GeoUnit::Kilometers => "km",
            GeoUnit::Miles => "mi",
            GeoUnit::Feet => "ft",
        }
    }
}

/// The function of a reducer in a `GROUPBY` stage.
#[derive(Clone, Copy, Debug, PartialEq, Eq, Hash)]
pub enum ReduceFunction {
    Count,
    CountDistinct,
    CountDistinctIsh,
    Sum,
    Min,
    Max,
    Avg,
    StdDev,
    Quantile,
    ToList,
    FirstValue,
    RandomSample,
}

impl ReduceFunction {
    /// The function name as it is sent.
    pub fn as_str(&self) -> (r: &'static str)
        ensures
            r@ == (match *self {
                ReduceFunction::Count => "COUNT"@,
                ReduceFunction::CountDistinct => "COUNT_DISTINCT"@,
                ReduceFunction::CountDistinctIsh => "COUNT_DISTINCTISH"@,
                ReduceFunction::Sum => "SUM"@,
                ReduceFunction::Min => "MIN"@,
                ReduceFunction::Max => "MAX"@,
                ReduceFunction::Avg => "AVG"@,
                ReduceFunction::StdDev => "STDDEV"@,
                ReduceFunction::Quantile => "QUANTILE"@,
                ReduceFunction::ToList => "TOLIST"@,
                ReduceFunction::FirstValue => "FIRST_VALUE"@,
                ReduceFunction::RandomSample => "RANDOM_SAMPLE"@,
            }),
    {
        match self {
            ReduceFunction::Count => "COUNT",
            ReduceFunction::CountDistinct => "COUNT_DISTINCT",
            ReduceFunction::CountDistinctIsh => "COUNT_DISTINCTISH",
            ReduceFunction::Sum => "SUM",
            ReduceFunction::Min => "MIN",
            ReduceFunction::Max => "MAX",
            ReduceFunction::Avg => "AVG",
            ReduceFunction::StdDev => "STDDEV",
            ReduceFunction::Quantile => "QUANTILE",
            ReduceFunction::ToList => "TOLIST",
            ReduceFunction::FirstValue => "FIRST_VALUE",
            ReduceFunction::RandomSample => "RANDOM_SAMPLE",
        }
    }
}

/// One argument of a command as it goes on the wire.
#[derive(Clone, Debug, PartialEq, Eq)]
pub enum Token {
    Keyword(Keyword),
    Order(SortOrder),
    Unit(GeoUnit),
    Reducer(ReduceFunction),
    Text(String),
    Bytes(Vec<u8>),
    Integer(i64),
}

/// Why an argument list could not be built.
#[derive(Clone, Copy, Debug, PartialEq, Eq)]
pub enum BuildError {
    /// A number that belongs to the option introduced by this keyword does not
    /// fit the wire's signed 64-bit integers.
    OutOfRange(Keyword),
    /// Index definitions (creating or altering an index, field schemas) have
    /// no encoding: building them always fails.
    Unsupported,
}

/// A number written as an integer token, or the error naming the option it
/// belongs to when it exceeds `i64::MAX`.
pub open spec fn int_token(n: nat, at: Keyword) -> Result<Token, BuildError> {
    if n <= i64::MAX {
        Ok(Token::Integer(n as i64))
    } else {
        Err(BuildError::OutOfRange(at))
    }
}

/// Tokens, or the first failure met while producing them.
pub type Built = Result<Seq<Token>, BuildError>;

/// `a` followed by `b`; the first error wins.
pub open spec fn join(a: Built, b: Built) -> Built {
    match a {
        Err(e) => Err(e),
        Ok(x) => match b {
            Err(e) => Err(e),
            Ok(y) => Ok(x + y),
        },
    }
}

/// A keyword followed by a count and then the counted items.
pub open spec fn counted(at: Keyword, n: nat, items: Seq<Token>) -> Built {
    match int_token(n, at) {
        Ok(c) => Ok(seq![Token::Keyword(at), c] + items),
        Err(e) => Err(e),
    }
}

/// Each string as a text token, in order.
pub open spec fn texts(s: Seq<String>) -> Seq<Token> {
    s.map_values(|x: String| Token::Text(x))
}

/// The outcome of appending `out` to a list that held `before` and now holds
/// `after`, where `r` is what the appending function returned.
pub open spec fn appended(before: Seq<Token>, after: Seq<Token>, r: Result<(), BuildError>, out: Built) -> bool {
    match out {
        Ok(t) => r is Ok && after == before + t,
        Err(e) => r == Err::<(), BuildError>(e),
    }
}

/// `join` is associative on a successful prefix.
pub proof fn lemma_join_assoc(a: Seq<Token>, b: Seq<Token>, c: Built)
    ensures
        join(Ok(a), join(Ok(b), c)) == join(Ok(a + b), c),
{
    match c {
        Ok(z) => {
            assert(a + (b + z) =~= (a + b) + z);
        },
        Err(_) => {},
    }
}

/// Concatenation of token sequences is associative.
pub proof fn lemma_concat_assoc(a: Seq<Token>, b: Seq<Token>, c: Seq<Token>)
    ensures
        (a + b) + c == a + (b + c),
{
    assert((a + b) + c =~= a + (b + c));
}

/// Nothing followed by `b` is `b`.
pub proof fn lemma_join_empty(b: Built)
    ensures
        join(Ok(seq![]), b) == b,
{
    if let Ok(y) = b {
        assert(seq![] + y =~= y);
    }
}

/// Writes `n` as an integer token, failing when it exceeds `i64::MAX`.
pub fn int_of_u64(n: u64, at: Keyword) -> (r: Result<Token, BuildError>)
    ensures
        r == int_token(n as nat, at),
{
    if n <= i64::MAX as u64 {
        Ok(Token::Integer(n as i64))
    } else {
        Err(BuildError::OutOfRange(at))
    }
}

} // verus!
