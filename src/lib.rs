//! Builds the argument lists of the full-text search commands (`FT.*`) of a
//! key-value server: typed query options go in, the exact positional token
//! sequence that the server's parser expects comes out.
//!
//! Every builder is a pure function. It either returns the whole command or
//! fails before anything exists to send, so no partial command can go out.

pub mod token;
pub mod emit;
pub mod aggregate;
pub mod search;
pub mod commands;

pub use aggregate::{
    gen_aggregate_op, gen_aggregate_options, AggregateOperation, FtAggregateCursor, FtAggregateOptions, FtReducer,
    Load, SearchField, SearchParameter,
};
pub use commands::{
    ft_aggregate, ft_aliasadd, ft_aliasdel, ft_aliasupdate, ft_alter, ft_config_get, ft_config_set, ft_create,
    ft_cursor_del, ft_cursor_read, ft_dictadd, ft_dictdel, ft_dictdump, ft_dropindex, ft_explain, ft_info, ft_list,
    ft_search, ft_spellcheck, ft_sugadd, ft_sugdel, ft_sugget, ft_suglen, ft_syndump, ft_synupdate, ft_tagvals,
    gen_alter_options, gen_create_options, gen_schema_args, Command, CommandKind, FtAlterOptions, FtCreateOptions,
    SearchSchema, SpellcheckTerms,
};
pub use search::{
    gen_search_options, FtSearchFilter, FtSearchGeoFilter, FtSearchHighlight, FtSearchOptions, FtSearchSortBy,
    FtSearchSummarize,
};
pub use token::{BuildError, GeoUnit, Keyword, ReduceFunction, SortOrder, Token};
