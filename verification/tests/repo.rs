use game_server::repo::{
    find_by_id_key, GameRepoKey, GameRepoName, KeyError, KeyPart, QueryArgs, QueryArgsError,
    ScriptArg, ShortcutPK, SkillPK, SqlParam, SubClassVariant,
};

#[test]
fn repository_names_round_trip() {
    for n in [GameRepoName::Character, GameRepoName::CharacterSkills, GameRepoName::CharacterShortcuts, GameRepoName::Items] {
        assert_eq!(GameRepoName::from_name(n.as_str()), Some(n));
    }
    assert_eq!(GameRepoName::CharacterSkills.as_str(), "character_skills");
    assert_eq!(GameRepoName::from_name("Items"), None);
}

#[test]
fn object_id_keys() {
    assert_eq!(
        GameRepoKey::from_script_value(GameRepoName::Character, &ScriptArg::Integer(7)),
        Ok(GameRepoKey::Character(7))
    );
    assert_eq!(
        GameRepoKey::from_script_value(GameRepoName::Items, &ScriptArg::Integer(-1)),
        Err(KeyError::ValueMismatch { part: KeyPart::ItemsKey })
    );
    assert_eq!(
        GameRepoKey::from_script_value(GameRepoName::Character, &ScriptArg::Str("7".to_string())),
        Err(KeyError::ValueMismatch { part: KeyPart::CharacterKey })
    );
}

#[test]
fn skill_and_shortcut_keys_are_triples() {
    let v = ScriptArg::List(vec![ScriptArg::Integer(10), ScriptArg::Integer(1216), ScriptArg::Integer(0)]);
    assert_eq!(
        GameRepoKey::from_script_value(GameRepoName::CharacterSkills, &v),
        Ok(GameRepoKey::CharacterSkills(SkillPK { char_id: 10, skill_id: 1216, sub_class: SubClassVariant::Main }))
    );
    let v = ScriptArg::List(vec![ScriptArg::Integer(10), ScriptArg::Integer(3), ScriptArg::Integer(2)]);
    assert_eq!(
        GameRepoKey::from_script_value(GameRepoName::CharacterShortcuts, &v),
        Ok(GameRepoKey::CharacterShortcuts(ShortcutPK { char_id: 10, slot_id: 3, class_variant: SubClassVariant::Sub2 }))
    );
    let short = ScriptArg::List(vec![ScriptArg::Integer(10)]);
    assert_eq!(
        GameRepoKey::from_script_value(GameRepoName::CharacterSkills, &short),
        Err(KeyError::LengthMismatch { expected: 3, got: 1, part: KeyPart::SkillsKey })
    );
    let bad_class = ScriptArg::List(vec![ScriptArg::Integer(10), ScriptArg::Integer(3), ScriptArg::Integer(9)]);
    assert_eq!(
        GameRepoKey::from_script_value(GameRepoName::CharacterShortcuts, &bad_class),
        Err(KeyError::InvalidSubClass { part: KeyPart::ClassVariant })
    );
    let bad_id = ScriptArg::List(vec![ScriptArg::Integer(10), ScriptArg::Bool(true), ScriptArg::Integer(0)]);
    assert_eq!(
        GameRepoKey::from_script_value(GameRepoName::CharacterSkills, &bad_id),
        Err(KeyError::ValueMismatch { part: KeyPart::SkillId })
    );
    assert_eq!(
        GameRepoKey::from_script_value(GameRepoName::CharacterShortcuts, &ScriptArg::Integer(1)),
        Err(KeyError::TypeMismatch { part: KeyPart::ShortcutsKey })
    );
}

#[test]
fn find_by_id_names_the_repository() {
    assert_eq!(find_by_id_key("items", &ScriptArg::Integer(3)), Ok(GameRepoKey::Items(3)));
    assert_eq!(find_by_id_key("nope", &ScriptArg::Integer(3)), Err(KeyError::UnknownRepository));
    assert_eq!(GameRepoKey::Items(3).repo_name(), GameRepoName::Items);
}

fn table(entries: Vec<(&str, ScriptArg)>) -> ScriptArg {
    ScriptArg::Table(entries.into_iter().map(|(k, v)| (k.to_string(), v)).collect())
}

#[test]
fn query_arguments() {
    let args = QueryArgs::from_script_value(&table(vec![
        ("sql", ScriptArg::Str("SELECT 1".to_string())),
        ("params", ScriptArg::List(vec![
            ScriptArg::Unit,
            ScriptArg::Bool(true),
            ScriptArg::Integer(5),
            ScriptArg::Float(2.5f64.to_bits()),
            ScriptArg::Str("x".to_string()),
            ScriptArg::List(vec![]),
        ])),
        ("return_multiple", ScriptArg::Bool(true)),
    ]))
    .unwrap();
    assert_eq!(args.sql, "SELECT 1");
    assert!(args.return_multiple);
    assert_eq!(
        args.params,
        vec![
            SqlParam::Null,
            SqlParam::Bool(true),
            SqlParam::BigInt(5),
            SqlParam::Double(2.5f64.to_bits()),
            SqlParam::Text("x".to_string()),
            SqlParam::DebugText { index: 5 },
        ]
    );
    let args = QueryArgs::from_script_value(&table(vec![("sql", ScriptArg::Str("S".to_string()))])).unwrap();
    assert!(args.params.is_empty());
    assert!(!args.return_multiple);
}

#[test]
fn query_argument_errors() {
    assert_eq!(QueryArgs::from_script_value(&ScriptArg::Integer(1)), Err(QueryArgsError::NotATable));
    assert_eq!(QueryArgs::from_script_value(&table(vec![])), Err(QueryArgsError::MissingSql));
    assert_eq!(
        QueryArgs::from_script_value(&table(vec![("sql", ScriptArg::Integer(1))])),
        Err(QueryArgsError::SqlNotString)
    );
    assert_eq!(
        QueryArgs::from_script_value(&table(vec![
            ("sql", ScriptArg::Str("S".to_string())),
            ("params", ScriptArg::Integer(1)),
        ])),
        Err(QueryArgsError::ParamsNotArray)
    );
    assert_eq!(
        QueryArgs::from_script_value(&table(vec![
            ("sql", ScriptArg::Str("S".to_string())),
            ("return_multiple", ScriptArg::Integer(1)),
        ])),
        Err(QueryArgsError::ReturnMultipleNotBool)
    );
}
