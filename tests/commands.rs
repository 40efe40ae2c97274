use search_commands::{
    ft_aliasadd, ft_aliasdel, ft_aliasupdate, ft_alter, ft_config_get, ft_config_set, ft_create, ft_cursor_del,
    ft_cursor_read, ft_dictadd, ft_dictdel, ft_dictdump, ft_dropindex, ft_explain, ft_info, ft_list, ft_spellcheck,
    ft_sugadd, ft_sugdel, ft_sugget, ft_suglen, ft_syndump, ft_synupdate, ft_tagvals, gen_alter_options,
    gen_create_options, gen_schema_args, BuildError, CommandKind, FtAlterOptions, FtCreateOptions, Keyword,
    SearchSchema, SpellcheckTerms, Token,
};

fn kw(k: Keyword) -> Token {
    Token::Keyword(k)
}

fn text(s: &str) -> Token {
    Token::Text(s.to_string())
}

fn strings(v: &[&str]) -> Vec<String> {
    v.iter().map(|s| s.to_string()).collect()
}

#[test]
fn spellcheck_includes_terms() {
    let terms = SpellcheckTerms::Include { dictionary: "d".to_string(), terms: strings(&["a", "b"]) };
    let cmd = ft_spellcheck("idx".to_string(), "q".to_string(), None, Some(terms), None);
    assert_eq!(cmd.kind, CommandKind::FtSpellCheck);
    assert_eq!(cmd.args, vec![text("idx"), text("q"), kw(Keyword::Terms), kw(Keyword::Include), text("d"), text("a"), text("b")]);
}

#[test]
fn spellcheck_excludes_with_distance_and_dialect() {
    let terms = SpellcheckTerms::Exclude { dictionary: "d".to_string(), terms: vec![] };
    let cmd = ft_spellcheck("idx".to_string(), "q".to_string(), Some(2), Some(terms), Some(1));
    assert_eq!(
        cmd.args,
        vec![
            text("idx"),
            text("q"),
            kw(Keyword::Distance),
            Token::Integer(2),
            kw(Keyword::Terms),
            kw(Keyword::Exclude),
            text("d"),
            kw(Keyword::Dialect),
            Token::Integer(1),
        ]
    );
}

#[test]
fn dropindex_with_and_without_flag() {
    let cmd = ft_dropindex("idx".to_string(), true);
    assert_eq!(cmd.kind, CommandKind::FtDropIndex);
    assert_eq!(cmd.args, vec![text("idx"), kw(Keyword::Dd)]);
    assert_eq!(ft_dropindex("idx".to_string(), false).args, vec![text("idx")]);
}

#[test]
fn sugadd_arguments() {
    let cmd = ft_sugadd(b"key".to_vec(), "hello".to_string(), "1.5".to_string(), true, Some(vec![9]));
    assert_eq!(cmd.kind, CommandKind::FtSugAdd);
    assert_eq!(
        cmd.args,
        vec![Token::Bytes(b"key".to_vec()), text("hello"), text("1.5"), kw(Keyword::Incr), kw(Keyword::Payload), Token::Bytes(vec![9])]
    );
    let cmd = ft_sugadd(b"key".to_vec(), "hello".to_string(), "2".to_string(), false, None);
    assert_eq!(cmd.args, vec![Token::Bytes(b"key".to_vec()), text("hello"), text("2")]);
}

#[test]
fn sugget_arguments() {
    let cmd = ft_sugget(b"k".to_vec(), "he".to_string(), true, true, true, Some(3)).unwrap();
    assert_eq!(cmd.kind, CommandKind::FtSugGet);
    assert_eq!(
        cmd.args,
        vec![
            Token::Bytes(b"k".to_vec()),
            text("he"),
            kw(Keyword::Fuzzy),
            kw(Keyword::WithScores),
            kw(Keyword::WithPayloads),
            kw(Keyword::Max),
            Token::Integer(3),
        ]
    );
    let cmd = ft_sugget(b"k".to_vec(), "he".to_string(), false, true, false, None).unwrap();
    assert_eq!(cmd.args, vec![Token::Bytes(b"k".to_vec()), text("he"), kw(Keyword::WithScores)]);
    assert_eq!(ft_sugget(b"k".to_vec(), "he".to_string(), false, false, false, Some(u64::MAX)), Err(BuildError::OutOfRange(Keyword::Max)));
}

#[test]
fn cursor_commands() {
    let cmd = ft_cursor_read("idx".to_string(), Token::Integer(42), Some(10)).unwrap();
    assert_eq!(cmd.kind, CommandKind::FtCursorRead);
    assert_eq!(cmd.args, vec![text("idx"), Token::Integer(42), kw(Keyword::Count), Token::Integer(10)]);
    assert_eq!(ft_cursor_read("idx".to_string(), Token::Integer(42), None).unwrap().args, vec![text("idx"), Token::Integer(42)]);
    assert_eq!(ft_cursor_read("idx".to_string(), Token::Integer(42), Some(u64::MAX)), Err(BuildError::OutOfRange(Keyword::Count)));
    let cmd = ft_cursor_del("idx".to_string(), Token::Integer(42));
    assert_eq!(cmd.kind, CommandKind::FtCursorDel);
    assert_eq!(cmd.args, vec![text("idx"), Token::Integer(42)]);
}

#[test]
fn dictionary_and_synonym_commands() {
    let cmd = ft_dictadd("d".to_string(), strings(&["x", "y"]));
    assert_eq!((cmd.kind, cmd.args), (CommandKind::FtDictAdd, vec![text("d"), text("x"), text("y")]));
    let cmd = ft_dictdel("d".to_string(), strings(&["x"]));
    assert_eq!((cmd.kind, cmd.args), (CommandKind::FtDictDel, vec![text("d"), text("x")]));
    let cmd = ft_dictdump("d".to_string());
    assert_eq!((cmd.kind, cmd.args), (CommandKind::FtDictDump, vec![text("d")]));
    let cmd = ft_synupdate("idx".to_string(), "g".to_string(), true, strings(&["a", "b"]));
    assert_eq!(
        (cmd.kind, cmd.args),
        (CommandKind::FtSynUpdate, vec![text("idx"), text("g"), kw(Keyword::SkipInitialScan), text("a"), text("b")])
    );
    let cmd = ft_synupdate("idx".to_string(), "g".to_string(), false, vec![]);
    assert_eq!(cmd.args, vec![text("idx"), text("g")]);
    let cmd = ft_syndump("idx".to_string());
    assert_eq!((cmd.kind, cmd.args), (CommandKind::FtSynDump, vec![text("idx")]));
}

#[test]
fn simple_index_commands() {
    let cmd = ft_list();
    assert_eq!((cmd.kind, cmd.args), (CommandKind::FtList, vec![]));
    let cmd = ft_info("idx".to_string());
    assert_eq!((cmd.kind, cmd.args), (CommandKind::FtInfo, vec![text("idx")]));
    let cmd = ft_aliasadd("a".to_string(), "idx".to_string());
    assert_eq!((cmd.kind, cmd.args), (CommandKind::FtAliasAdd, vec![text("a"), text("idx")]));
    let cmd = ft_aliasdel("a".to_string());
    assert_eq!((cmd.kind, cmd.args), (CommandKind::FtAliasDel, vec![text("a")]));
    let cmd = ft_aliasupdate("a".to_string(), "idx".to_string());
    assert_eq!((cmd.kind, cmd.args), (CommandKind::FtAliasUpdate, vec![text("a"), text("idx")]));
    let cmd = ft_config_get("TIMEOUT".to_string());
    assert_eq!((cmd.kind, cmd.args), (CommandKind::FtConfigGet, vec![text("TIMEOUT")]));
    let cmd = ft_config_set("TIMEOUT".to_string(), Token::Integer(50));
    assert_eq!((cmd.kind, cmd.args), (CommandKind::FtConfigSet, vec![text("TIMEOUT"), Token::Integer(50)]));
    let cmd = ft_tagvals("idx".to_string(), "tags".to_string());
    assert_eq!((cmd.kind, cmd.args), (CommandKind::FtTagVals, vec![text("idx"), text("tags")]));
    let cmd = ft_suglen(b"k".to_vec());
    assert_eq!((cmd.kind, cmd.args), (CommandKind::FtSugLen, vec![Token::Bytes(b"k".to_vec())]));
    let cmd = ft_sugdel(b"k".to_vec(), "s".to_string());
    assert_eq!((cmd.kind, cmd.args), (CommandKind::FtSugDel, vec![Token::Bytes(b"k".to_vec()), text("s")]));
}

#[test]
fn explain_with_and_without_dialect() {
    let cmd = ft_explain("idx".to_string(), "q".to_string(), Some(2));
    assert_eq!((cmd.kind, cmd.args), (CommandKind::FtExplain, vec![text("idx"), text("q"), kw(Keyword::Dialect), Token::Integer(2)]));
    assert_eq!(ft_explain("idx".to_string(), "q".to_string(), None).args, vec![text("idx"), text("q")]);
}

#[test]
fn index_definitions_are_unsupported() {
    assert_eq!(ft_create("idx".to_string(), FtCreateOptions::default(), vec![SearchSchema::default()]), Err(BuildError::Unsupported));
    assert_eq!(ft_alter("idx".to_string(), FtAlterOptions::default()), Err(BuildError::Unsupported));
    let mut args = vec![Token::Integer(1)];
    assert_eq!(gen_create_options(&mut args, FtCreateOptions::default()), Err(BuildError::Unsupported));
    assert_eq!(gen_alter_options(&mut args, FtAlterOptions::default()), Err(BuildError::Unsupported));
    assert_eq!(gen_schema_args(&mut args, SearchSchema::default()), Err(BuildError::Unsupported));
    assert_eq!(args, vec![Token::Integer(1)]);
}
