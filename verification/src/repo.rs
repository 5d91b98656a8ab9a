//! Database repositories as scripts reach them: repository names, primary
//! keys read from script values, and raw query arguments.
use vstd::prelude::*;

verus! {

/// A value handed over by a script. Floating-point numbers travel as their
/// bit patterns; references and functions are opaque.
#[derive(Debug, PartialEq, Eq)]
pub enum ScriptArg {
    Unit,
    Bool(bool),
    Integer(i64),
    Float(u64),
    Str(String),
    List(Vec<ScriptArg>),
    Table(Vec<(String, ScriptArg)>),
    Reference,
    Function,
}

/// The repositories of the game server.
#[derive(Clone, Copy, Debug, PartialEq, Eq, Hash, Structural)]
pub enum GameRepoName {
    Character,
    CharacterSkills,
    CharacterShortcuts,
    Items,
}

/// The name a repository is registered and looked up under.
pub open spec fn repo_name_text(n: GameRepoName) -> Seq<char> {
    match n {
        GameRepoName::Character => seq!['c', 'h', 'a', 'r', 'a', 'c', 't', 'e', 'r'],
        GameRepoName::CharacterSkills => seq!['c', 'h', 'a', 'r', 'a', 'c', 't', 'e', 'r', '_', 's', 'k', 'i', 'l', 'l', 's'],
        GameRepoName::CharacterShortcuts => seq![
            'c', 'h', 'a', 'r', 'a', 'c', 't', 'e', 'r', '_', 's', 'h', 'o', 'r', 't', 'c', 'u', 't', 's'
        ],
        GameRepoName::Items => seq!['i', 't', 'e', 'm', 's'],
    }
}

/// The repository registered under `s`, if any.
pub open spec fn parse_repo_name(s: Seq<char>) -> Option<GameRepoName> {
    if s == repo_name_text(GameRepoName::Character) {
        Some(GameRepoName::Character)
    } else if s == repo_name_text(GameRepoName::CharacterSkills) {
        Some(GameRepoName::CharacterSkills)
    } else if s == repo_name_text(GameRepoName::CharacterShortcuts) {
        Some(GameRepoName::CharacterShortcuts)
    } else if s == repo_name_text(GameRepoName::Items) {
        Some(GameRepoName::Items)
    } else {
        None
    }
}

impl GameRepoName {
    /// The name the repository is registered under, in snake case.
    pub fn as_str(&self) -> (s: &'static str)
        ensures
            s@ == repo_name_text(*self),
    {
        match self {
            GameRepoName::Character => {
                proof { reveal_strlit("character"); }
                "character"
            },
            GameRepoName::CharacterSkills => {
                proof { reveal_strlit("character_skills"); }
                "character_skills"
            },
            GameRepoName::CharacterShortcuts => {
                proof { reveal_strlit("character_shortcuts"); }
                "character_shortcuts"
            },
            GameRepoName::Items => {
                proof { reveal_strlit("items"); }
                "items"
            },
        }
    }

    /// The repository registered under `s`.
    pub fn from_name(s: &str) -> (r: Option<GameRepoName>)
        ensures
            r == parse_repo_name(s@),
    {
        let given = String::from_str(s);
        let names = [
            GameRepoName::Character,
            GameRepoName::CharacterSkills,
            GameRepoName::CharacterShortcuts,
            GameRepoName::Items,
        ];
        let mut i: usize = 0;
        while i < 4
            invariant
                i <= 4,
                given@ == s@,
                names@ == seq![
                    GameRepoName::Character,
                    GameRepoName::CharacterSkills,
                    GameRepoName::CharacterShortcuts,
                    GameRepoName::Items,
                ],
                forall|j: int| 0 <= j < i ==> s@ != repo_name_text(#[trigger] names@[j]),
            decreases 4 - i,
        {
            let candidate = String::from_str(names[i].as_str());
            if given == candidate {
                return Some(names[i]);
            }
            i = i + 1;
        }
        assert(s@ != repo_name_text(names@[0]));
        assert(s@ != repo_name_text(names@[1]));
        assert(s@ != repo_name_text(names@[2]));
        assert(s@ != repo_name_text(names@[3]));
        None
    }
}

/// Every repository is found again under the name it is registered under.
pub proof fn law_repo_name_round_trip(n: GameRepoName)
    ensures
        parse_repo_name(repo_name_text(n)) == Some(n),
{
    let c = repo_name_text(GameRepoName::Character);
    let sk = repo_name_text(GameRepoName::CharacterSkills);
    let sh = repo_name_text(GameRepoName::CharacterShortcuts);
    let it = repo_name_text(GameRepoName::Items);
    assert(c.len() != sk.len() && c.len() != sh.len() && c.len() != it.len());
    assert(sk.len() != sh.len() && sk.len() != it.len() && sh.len() != it.len());
}


/// Which character class a skill or shortcut belongs to: the main class or
/// one of the three subclasses.
#[derive(Clone, Copy, Debug, PartialEq, Eq, Hash, Structural)]
pub enum SubClassVariant {
    Main,
    Sub1,
    Sub2,
    Sub3,
}

/// The class variant stored as `v`.
pub open spec fn sub_class_of(v: i16) -> Option<SubClassVariant> {
    if v == 0 {
        Some(SubClassVariant::Main)
    } else if v == 1 {
        Some(SubClassVariant::Sub1)
    } else if v == 2 {
        Some(SubClassVariant::Sub2)
    } else if v == 3 {
        Some(SubClassVariant::Sub3)
    } else {
        None
    }
}

impl SubClassVariant {
    /// The class variant stored as `v`.
    pub fn from_i16(v: i16) -> (r: Option<SubClassVariant>)
        ensures
            r == sub_class_of(v),
    {
        if v == 0 {
            Some(SubClassVariant::Main)
        } else if v == 1 {
            Some(SubClassVariant::Sub1)
        } else if v == 2 {
            Some(SubClassVariant::Sub2)
        } else if v == 3 {
            Some(SubClassVariant::Sub3)
        } else {
            None
        }
    }
}

/// The primary key of a character's skill.
#[derive(Clone, Copy, Debug, PartialEq, Eq, Hash, Structural)]
pub struct SkillPK {
    pub char_id: u32,
    pub skill_id: u32,
    pub sub_class: SubClassVariant,
}

/// The primary key of a character's shortcut.
#[derive(Clone, Copy, Debug, PartialEq, Eq, Hash, Structural)]
pub struct ShortcutPK {
    pub char_id: u32,
    pub slot_id: u32,
    pub class_variant: SubClassVariant,
}

/// A primary key in one of the repositories.
#[derive(Clone, Copy, Debug, PartialEq, Eq, Structural)]
pub enum GameRepoKey {
    Character(u32),
    CharacterSkills(SkillPK),
    CharacterShortcuts(ShortcutPK),
    Items(u32),
}

/// The part of a key that a script got wrong.
#[derive(Clone, Copy, Debug, PartialEq, Eq, Structural)]
pub enum KeyPart {
    CharacterKey,
    ItemsKey,
    SkillsKey,
    SkillCharId,
    SkillId,
    SkillSubClass,
    ShortcutsKey,
    ShortcutCharId,
    SlotId,
    ClassVariant,
}

/// Why a script value is no key of a repository.
#[derive(Clone, Copy, Debug, PartialEq, Eq, Structural)]
pub enum KeyError {
    /// No repository has that name.
    UnknownRepository,
    /// The value has the wrong type for this part.
    ValueMismatch { part: KeyPart },
    /// A list of the wrong length.
    LengthMismatch { expected: usize, got: usize, part: KeyPart },
    /// Not a list where one is needed.
    TypeMismatch { part: KeyPart },
    /// A number that is no class variant.
    InvalidSubClass { part: KeyPart },
}

/// An object id given by a script: an integer that fits an object id.
pub open spec fn object_id_of(v: ScriptArg) -> Option<u32> {
    match v {
        ScriptArg::Integer(i) => if 0 <= i <= u32::MAX { Some(i as u32) } else { None },
        _ => None,
    }
}

fn object_id_from(v: &ScriptArg) -> (r: Option<u32>)
    ensures
        r == object_id_of(*v),
{
    match v {
        ScriptArg::Integer(i) => {
            if 0 <= *i && *i <= 0xffff_ffff {
                Some(*i as u32)
            } else {
                None
            }
        },
        _ => None,
    }
}

/// A three-part key `[char_id, id, class]` of a skill or shortcut:
/// (char_id, id, class variant), with `id` and the class taken from
/// integers by truncation, as the server stores them.
pub open spec fn triple_key(
    v: ScriptArg,
    list_part: KeyPart,
    char_part: KeyPart,
    id_part: KeyPart,
    class_part: KeyPart,
) -> Result<(u32, u32, SubClassVariant), KeyError> {
    match v {
        ScriptArg::List(l) => if l.len() != 3 {
            Err(KeyError::LengthMismatch { expected: 3, got: l.len(), part: list_part })
        } else {
            match object_id_of(l@[0]) {
                None => Err(KeyError::ValueMismatch { part: char_part }),
                Some(char_id) => match l@[1] {
                    ScriptArg::Integer(id) => match l@[2] {
                        ScriptArg::Integer(c) => match sub_class_of(c as i16) {
                            Some(sc) => Ok((char_id, id as u32, sc)),
                            None => Err(KeyError::InvalidSubClass { part: class_part }),
                        },
                        _ => Err(KeyError::ValueMismatch { part: class_part }),
                    },
                    _ => Err(KeyError::ValueMismatch { part: id_part }),
                },
            }
        },
        _ => Err(KeyError::TypeMismatch { part: list_part }),
    }
}

fn triple_key_from(
    v: &ScriptArg,
    list_part: KeyPart,
    char_part: KeyPart,
    id_part: KeyPart,
    class_part: KeyPart,
) -> (r: Result<(u32, u32, SubClassVariant), KeyError>)
    ensures
        r == triple_key(*v, list_part, char_part, id_part, class_part),
{
    match v {
        ScriptArg::List(l) => {
            if l.len() != 3 {
                return Err(KeyError::LengthMismatch { expected: 3, got: l.len(), part: list_part });
            }
            let char_id = match object_id_from(&l[0]) {
                None => {
                    return Err(KeyError::ValueMismatch { part: char_part });
                },
                Some(c) => c,
            };
            let id = match &l[1] {
                ScriptArg::Integer(id) => *id as u32,
                _ => {
                    return Err(KeyError::ValueMismatch { part: id_part });
                },
            };
            match &l[2] {
                ScriptArg::Integer(c) => match SubClassVariant::from_i16(*c as i16) {
                    Some(sc) => Ok((char_id, id, sc)),
                    None => Err(KeyError::InvalidSubClass { part: class_part }),
                },
                _ => Err(KeyError::ValueMismatch { part: class_part }),
            }
        },
        _ => Err(KeyError::TypeMismatch { part: list_part }),
    }
}

/// The key of repository `name` that script value `v` stands for.
pub open spec fn repo_key(name: GameRepoName, v: ScriptArg) -> Result<GameRepoKey, KeyError> {
    match name {
        GameRepoName::Character => match object_id_of(v) {
            Some(id) => Ok(GameRepoKey::Character(id)),
            None => Err(KeyError::ValueMismatch { part: KeyPart::CharacterKey }),
        },
        GameRepoName::Items => match object_id_of(v) {
            Some(id) => Ok(GameRepoKey::Items(id)),
            None => Err(KeyError::ValueMismatch { part: KeyPart::ItemsKey }),
        },
        GameRepoName::CharacterSkills => match triple_key(v, KeyPart::SkillsKey, KeyPart::SkillCharId, KeyPart::SkillId, KeyPart::SkillSubClass) {
            Ok(t) => Ok(GameRepoKey::CharacterSkills(SkillPK { char_id: t.0, skill_id: t.1, sub_class: t.2 })),
            Err(e) => Err(e),
        },
        GameRepoName::CharacterShortcuts => match triple_key(v, KeyPart::ShortcutsKey, KeyPart::ShortcutCharId, KeyPart::SlotId, KeyPart::ClassVariant) {
            Ok(t) => Ok(GameRepoKey::CharacterShortcuts(ShortcutPK { char_id: t.0, slot_id: t.1, class_variant: t.2 })),
            Err(e) => Err(e),
        },
    }
}

impl GameRepoKey {
    /// Reads the key of repository `name` from a script value: an object id
    /// for characters and items, a list `[char_id, skill_id, sub_class]` for
    /// skills and `[char_id, slot_id, class_variant]` for shortcuts.
    pub fn from_script_value(name: GameRepoName, v: &ScriptArg) -> (r: Result<GameRepoKey, KeyError>)
        ensures
            r == repo_key(name, *v),
    {
        match name {
            GameRepoName::Character => match object_id_from(v) {
                Some(id) => Ok(GameRepoKey::Character(id)),
                None => Err(KeyError::ValueMismatch { part: KeyPart::CharacterKey }),
            },
            GameRepoName::Items => match object_id_from(v) {
                Some(id) => Ok(GameRepoKey::Items(id)),
                None => Err(KeyError::ValueMismatch { part: KeyPart::ItemsKey }),
            },
            GameRepoName::CharacterSkills => {
                let (char_id, skill_id, sub_class) = triple_key_from(
                    v, KeyPart::SkillsKey, KeyPart::SkillCharId, KeyPart::SkillId, KeyPart::SkillSubClass)?;
                Ok(GameRepoKey::CharacterSkills(SkillPK { char_id, skill_id, sub_class }))
            },
            GameRepoName::CharacterShortcuts => {
                let (char_id, slot_id, class_variant) = triple_key_from(
                    v, KeyPart::ShortcutsKey, KeyPart::ShortcutCharId, KeyPart::SlotId, KeyPart::ClassVariant)?;
                Ok(GameRepoKey::CharacterShortcuts(ShortcutPK { char_id, slot_id, class_variant }))
            },
        }
    }

    /// The repository this key belongs to.
    pub fn repo_name(&self) -> (n: GameRepoName)
        ensures
            n == match *self {
                GameRepoKey::Character(_) => GameRepoName::Character,
                GameRepoKey::CharacterSkills(_) => GameRepoName::CharacterSkills,
                GameRepoKey::CharacterShortcuts(_) => GameRepoName::CharacterShortcuts,
                GameRepoKey::Items(_) => GameRepoName::Items,
            },
    {
        match self {
            GameRepoKey::Character(_) => GameRepoName::Character,
            GameRepoKey::CharacterSkills(_) => GameRepoName::CharacterSkills,
            GameRepoKey::CharacterShortcuts(_) => GameRepoName::CharacterShortcuts,
            GameRepoKey::Items(_) => GameRepoName::Items,
        }
    }
}

/// The key a "find by id" script call asks for: the repository named
/// `repo`, and the key read from `v`.
pub fn find_by_id_key(repo: &str, v: &ScriptArg) -> (r: Result<GameRepoKey, KeyError>)
    ensures
        r == match parse_repo_name(repo@) {
            None => Err(KeyError::UnknownRepository),
            Some(n) => repo_key(n, *v),
        },
{
    match GameRepoName::from_name(repo) {
        None => Err(KeyError::UnknownRepository),
        Some(n) => GameRepoKey::from_script_value(n, v),
    }
}

/// A key read for a repository belongs to that repository.
pub proof fn law_key_belongs_to_repo(name: GameRepoName, v: ScriptArg)
    ensures
        repo_key(name, v) matches Ok(k) ==> match k {
            GameRepoKey::Character(_) => name == GameRepoName::Character,
            GameRepoKey::CharacterSkills(_) => name == GameRepoName::CharacterSkills,
            GameRepoKey::CharacterShortcuts(_) => name == GameRepoName::CharacterShortcuts,
            GameRepoKey::Items(_) => name == GameRepoName::Items,
        },
{
}


/// A parameter of a raw SQL query.
#[derive(Debug, PartialEq, Eq)]
pub enum SqlParam {
    /// SQL NULL (from a script's unit).
    Null,
    Bool(bool),
    BigInt(i64),
    /// A double, as its bit pattern.
    Double(u64),
    Text(String),
    /// Text holding the debug rendering of the script value at this
    /// position of the parameter list (for lists, tables and opaque values).
    DebugText { index: usize },
}

/// The SQL parameter for script value `v` at position `index` of the list.
pub open spec fn sql_param(v: ScriptArg, index: usize) -> SqlParam {
    match v {
        ScriptArg::Unit => SqlParam::Null,
        ScriptArg::Bool(b) => SqlParam::Bool(b),
        ScriptArg::Integer(i) => SqlParam::BigInt(i),
        ScriptArg::Float(f) => SqlParam::Double(f),
        ScriptArg::Str(s) => SqlParam::Text(s),
        _ => SqlParam::DebugText { index },
    }
}

fn sql_param_from(v: &ScriptArg, index: usize) -> (p: SqlParam)
    ensures
        p == sql_param(*v, index),
{
    match v {
        ScriptArg::Unit => SqlParam::Null,
        ScriptArg::Bool(b) => SqlParam::Bool(*b),
        ScriptArg::Integer(i) => SqlParam::BigInt(*i),
        ScriptArg::Float(f) => SqlParam::Double(*f),
        ScriptArg::Str(s) => SqlParam::Text(s.clone()),
        _ => SqlParam::DebugText { index },
    }
}

/// The arguments of a raw SQL query from a script.
#[derive(Debug, PartialEq, Eq)]
pub struct QueryArgs {
    pub sql: String,
    pub params: Vec<SqlParam>,
    pub return_multiple: bool,
}

/// Why a script's query arguments were refused.
#[derive(Clone, Copy, Debug, PartialEq, Eq, Structural)]
pub enum QueryArgsError {
    /// The arguments are not a table.
    NotATable,
    /// No "sql" entry.
    MissingSql,
    /// "sql" is not a string.
    SqlNotString,
    /// "params" is not a list.
    ParamsNotArray,
    /// "return_multiple" is not a boolean.
    ReturnMultipleNotBool,
}

/// The value stored under `key` in a script table (the first one, should
/// the key occur twice).
pub open spec fn table_get(entries: Seq<(String, ScriptArg)>, key: Seq<char>) -> Option<ScriptArg>
    decreases entries.len(),
{
    if entries.len() == 0 {
        None
    } else if entries[0].0@ == key {
        Some(entries[0].1)
    } else {
        table_get(entries.drop_first(), key)
    }
}

fn table_lookup<'a>(entries: &'a Vec<(String, ScriptArg)>, key: &str) -> (r: Option<&'a ScriptArg>)
    ensures
        match r {
            Some(v) => table_get(entries@, key@) == Some(*v),
            None => table_get(entries@, key@) is None,
        },
{
    let wanted = String::from_str(key);
    let mut i: usize = 0;
    assert(entries@.skip(0) =~= entries@);
    while i < entries.len()
        invariant
            i <= entries@.len(),
            wanted@ == key@,
            table_get(entries@, key@) == table_get(entries@.skip(i as int), key@),
        decreases entries@.len() - i,
    {
        assert(entries@.skip(i as int).drop_first() =~= entries@.skip(i + 1));
        assert(entries@.skip(i as int)[0] == entries@[i as int]);
        if entries[i].0 == wanted {
            return Some(&entries[i].1);
        }
        i = i + 1;
    }
    assert(entries@.skip(i as int).len() == 0);
    None
}

/// The SQL parameters for a script's parameter list.
pub open spec fn sql_params(v: ScriptArg) -> Option<Seq<SqlParam>> {
    match v {
        ScriptArg::List(l) => Some(Seq::new(l.len() as nat, |i: int| sql_param(l@[i], i as usize))),
        _ => None,
    }
}

fn parse_params_array(v: &ScriptArg) -> (r: Result<Vec<SqlParam>, QueryArgsError>)
    ensures
        match sql_params(*v) {
            Some(ps) => r matches Ok(params) && params@ == ps,
            None => r == Err::<Vec<SqlParam>, QueryArgsError>(QueryArgsError::ParamsNotArray),
        },
{
    match v {
        ScriptArg::List(l) => {
            let mut params: Vec<SqlParam> = Vec::new();
            let mut i: usize = 0;
            while i < l.len()
                invariant
                    i <= l@.len(),
                    params@.len() == i,
                    forall|k: int| 0 <= k < i ==> params@[k] == sql_param(l@[k], k as usize),
                decreases l@.len() - i,
            {
                params.push(sql_param_from(&l[i], i));
                i = i + 1;
            }
            assert(params@ =~= Seq::new(l.len() as nat, |k: int| sql_param(l@[k], k as usize)));
            Ok(params)
        },
        _ => Err(QueryArgsError::ParamsNotArray),
    }
}

/// The query arguments a script value stands for: a table with a string
/// "sql", an optional list "params" (none: no parameters) and an optional
/// boolean "return_multiple" (none: false), checked in that order.
pub open spec fn query_args(v: ScriptArg) -> Result<(Seq<char>, Seq<SqlParam>, bool), QueryArgsError> {
    match v {
        ScriptArg::Table(t) => match table_get(t@, seq!['s', 'q', 'l']) {
            None => Err(QueryArgsError::MissingSql),
            Some(ScriptArg::Str(sql)) => {
                let params = match table_get(t@, seq!['p', 'a', 'r', 'a', 'm', 's']) {
                    None => Some(Seq::empty()),
                    Some(p) => sql_params(p),
                };
                match params {
                    None => Err(QueryArgsError::ParamsNotArray),
                    Some(ps) => match table_get(t@, seq!['r', 'e', 't', 'u', 'r', 'n', '_', 'm', 'u', 'l', 't', 'i', 'p', 'l', 'e']) {
                        None => Ok((sql@, ps, false)),
                        Some(ScriptArg::Bool(b)) => Ok((sql@, ps, b)),
                        Some(_) => Err(QueryArgsError::ReturnMultipleNotBool),
                    },
                }
            },
            Some(_) => Err(QueryArgsError::SqlNotString),
        },
        _ => Err(QueryArgsError::NotATable),
    }
}

impl QueryArgs {
    /// Reads a script's raw query arguments; see `query_args`.
    pub fn from_script_value(v: &ScriptArg) -> (r: Result<QueryArgs, QueryArgsError>)
        ensures
            match query_args(*v) {
                Ok(a) => r matches Ok(q) && q.sql@ == a.0 && q.params@ == a.1 && q.return_multiple == a.2,
                Err(e) => r == Err::<QueryArgs, QueryArgsError>(e),
            },
    {
        proof {
            reveal_strlit("sql");
            reveal_strlit("params");
            reveal_strlit("return_multiple");
            assert("sql"@ =~= seq!['s', 'q', 'l']);
            assert("params"@ =~= seq!['p', 'a', 'r', 'a', 'm', 's']);
            assert("return_multiple"@ =~= seq!['r', 'e', 't', 'u', 'r', 'n', '_', 'm', 'u', 'l', 't', 'i', 'p', 'l', 'e']);
        }
        let t = match v {
            ScriptArg::Table(t) => t,
            _ => {
                return Err(QueryArgsError::NotATable);
            },
        };
        let sql = match table_lookup(t, "sql") {
            None => {
                return Err(QueryArgsError::MissingSql);
            },
            Some(ScriptArg::Str(s)) => s.clone(),
            Some(_) => {
                return Err(QueryArgsError::SqlNotString);
            },
        };
        let params = match table_lookup(t, "params") {
            None => Vec::new(),
            Some(p) => parse_params_array(p)?,
        };
        let return_multiple = match table_lookup(t, "return_multiple") {
            None => false,
            Some(ScriptArg::Bool(b)) => *b,
            Some(_) => {
                return Err(QueryArgsError::ReturnMultipleNotBool);
            },
        };
        Ok(QueryArgs { sql, params, return_multiple })
    }
}

} // verus!
