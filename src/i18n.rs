//! Localized text: per language, a table from text keys to phrases, and the
//! language currently shown.

pub mod config;

use bevy::platform::collections::HashMap;
use bevy::platform::hash::FixedHasher;
use vstd::prelude::*;

verus! {

#[verifier::external_type_specification]
#[verifier::external_body]
#[verifier::reject_recursive_types(K)]
#[verifier::reject_recursive_types(V)]
#[verifier::reject_recursive_types(S)]
pub struct ExHashMap<K, V, S>(HashMap<K, V, S>);

#[verifier::external_type_specification]
#[verifier::external_body]
pub struct ExFixedHasher(FixedHasher);

/// A supported language.
#[derive(Clone, Copy, PartialEq, Eq, Structural, Hash, Debug, Default)]
pub enum LanguageId {
    /// Simplified Chinese.
    #[default]
    ZhCn,
    /// English.
    EnUs,
}

/// The name of a language, written in that language.
pub open spec fn language_name(l: LanguageId) -> Seq<char> {
    match l {
        LanguageId::ZhCn => "简体中文"@,
        LanguageId::EnUs => "English"@,
    }
}

impl LanguageId {
    /// The other supported language: the one a click on the language
    /// button switches to.
    pub fn toggled(&self) -> (l: LanguageId)
        ensures
            l == if *self == LanguageId::ZhCn {
                LanguageId::EnUs
            } else {
                LanguageId::ZhCn
            },
    {
        if *self == LanguageId::ZhCn {
            LanguageId::EnUs
        } else {
            LanguageId::ZhCn
        }
    }

    /// The name of the language, written in that language.
    pub fn name(&self) -> (s: String)
        ensures
            s@ == language_name(*self),
    {
        match self {
            LanguageId::ZhCn => "简体中文".to_owned(),
            LanguageId::EnUs => "English".to_owned(),
        }
    }
}

/// Text key to phrase, in one language.
pub type Phrases = Map<Seq<char>, Seq<char>>;

/// Language to its phrases.
pub type Tables = Map<LanguageId, Phrases>;

/// What a phrase table holds: text key to phrase.
pub uninterp spec fn phrases_of(t: HashMap<String, String>) -> Phrases;

/// What the table of tables holds: language to its phrases.
pub uninterp spec fn tables_of(m: HashMap<LanguageId, HashMap<String, String>>) -> Tables;

/// Relies on `HashMap::new`: an empty map.
#[verifier::external_body]
fn new_tables() -> (m: HashMap<LanguageId, HashMap<String, String>>)
    ensures
        tables_of(m) == Tables::empty(),
{
    HashMap::new()
}

/// Relies on `HashMap::new`: an empty map.
#[verifier::external_body]
fn new_phrases() -> (t: HashMap<String, String>)
    ensures
        phrases_of(t) == Phrases::empty(),
{
    HashMap::new()
}

/// Relies on `HashMap::get`: the table of `l`, if there is one.
#[verifier::external_body]
fn table_get<'a>(m: &'a HashMap<LanguageId, HashMap<String, String>>, l: &LanguageId) -> (r:
    Option<&'a HashMap<String, String>>)
    ensures
        r.is_some() == tables_of(*m).contains_key(*l),
        r matches Some(t) ==> phrases_of(*t) == tables_of(*m)[*l],
{
    m.get(l)
}

/// Relies on `HashMap::get`: the phrase of `key`, if there is one.
#[verifier::external_body]
fn phrase_get<'a>(t: &'a HashMap<String, String>, key: &str) -> (r: Option<&'a String>)
    ensures
        r.is_some() == phrases_of(*t).contains_key(key@),
        r matches Some(p) ==> p@ == phrases_of(*t)[key@],
{
    t.get(key)
}

/// Relies on `HashMap::remove`: takes the table of `l` out, if there is one.
#[verifier::external_body]
fn remove_table(m: &mut HashMap<LanguageId, HashMap<String, String>>, l: &LanguageId) -> (r:
    Option<HashMap<String, String>>)
    ensures
        tables_of(*final(m)) == tables_of(*old(m)).remove(*l),
        r.is_some() == tables_of(*old(m)).contains_key(*l),
        r matches Some(t) ==> phrases_of(t) == tables_of(*old(m))[*l],
{
    m.remove(l)
}

/// Relies on `HashMap::insert`: sets the table of `l`.
#[verifier::external_body]
fn insert_table(
    m: &mut HashMap<LanguageId, HashMap<String, String>>,
    l: LanguageId,
    t: HashMap<String, String>,
)
    ensures
        tables_of(*final(m)) == tables_of(*old(m)).insert(l, phrases_of(t)),
{
    m.insert(l, t);
}

/// Relies on `HashMap::insert`: sets the phrase of `key`.
#[verifier::external_body]
fn insert_phrase(t: &mut HashMap<String, String>, key: String, phrase: String)
    ensures
        phrases_of(*final(t)) == phrases_of(*old(t)).insert(key@, phrase@),
{
    t.insert(key, phrase);
}

/// The tables after `phrase` is set for `key` in `language`, creating the
/// language's table if it has none.
pub open spec fn with_phrase(
    tables: Tables,
    language: LanguageId,
    key: Seq<char>,
    phrase: Seq<char>,
) -> Tables {
    let table = if tables.contains_key(language) {
        tables[language]
    } else {
        Map::empty()
    };
    tables.insert(language, table.insert(key, phrase))
}

/// The text shown for `key` in `language`: its phrase there, or the key
/// itself when the language has none.
pub open spec fn text_for(
    tables: Tables,
    language: LanguageId,
    key: Seq<char>,
) -> Seq<char> {
    if tables.contains_key(language) && tables[language].contains_key(key) {
        tables[language][key]
    } else {
        key
    }
}

fn list_contains(list: &Vec<LanguageId>, language: LanguageId) -> (r: bool)
    ensures
        r == list@.contains(language),
{
    let mut i: usize = 0;
    while i < list.len()
        invariant
            i <= list@.len(),
            forall|j: int| 0 <= j < i ==> list@[j] != language,
        decreases list@.len() - i,
    {
        if list[i] == language {
            return true;
        }
        i = i + 1;
    }
    false
}

/// The localized text of every supported language, and the one shown.
pub struct LanguageRes {
    pub curr_language: LanguageId,
    pub language_list: Vec<LanguageId>,
    pub language_hash: HashMap<LanguageId, HashMap<String, String>>,
}

impl Default for LanguageRes {
    /// Chinese shown, both languages supported, no phrases.
    fn default() -> (r: Self)
        ensures
            r.curr_language == LanguageId::ZhCn,
            r.language_list@ == seq![LanguageId::ZhCn, LanguageId::EnUs],
            tables_of(r.language_hash) == Tables::empty(),
    {
        LanguageRes {
            curr_language: LanguageId::ZhCn,
            language_list: vec![LanguageId::ZhCn, LanguageId::EnUs],
            language_hash: new_tables(),
        }
    }
}

impl LanguageRes {
    /// Shows `language` from now on if it is supported; otherwise nothing
    /// changes.
    pub fn set_language(&mut self, language: LanguageId)
        ensures
            final(self).curr_language == if old(self).language_list@.contains(language) {
                language
            } else {
                old(self).curr_language
            },
            final(self).language_list@ == old(self).language_list@,
            tables_of(final(self).language_hash) == tables_of(old(self).language_hash),
    {
        if list_contains(&self.language_list, language) {
            self.curr_language = language;
        }
    }

    /// Sets the Chinese phrase of `key`.
    pub fn zh_cn(&mut self, key: &str, value: &str)
        ensures
            final(self).curr_language == old(self).curr_language,
            final(self).language_list@ == if old(self).language_list@.contains(LanguageId::ZhCn) {
                old(self).language_list@
            } else {
                old(self).language_list@.push(LanguageId::ZhCn)
            },
            tables_of(final(self).language_hash) == with_phrase(
                tables_of(old(self).language_hash),
                LanguageId::ZhCn,
                key@,
                value@,
            ),
    {
        self.add(LanguageId::ZhCn, key, value);
    }

    /// Sets the English phrase of `key`.
    pub fn en_us(&mut self, key: &str, value: &str)
        ensures
            final(self).curr_language == old(self).curr_language,
            final(self).language_list@ == if old(self).language_list@.contains(LanguageId::EnUs) {
                old(self).language_list@
            } else {
                old(self).language_list@.push(LanguageId::EnUs)
            },
            tables_of(final(self).language_hash) == with_phrase(
                tables_of(old(self).language_hash),
                LanguageId::EnUs,
                key@,
                value@,
            ),
    {
        self.add(LanguageId::EnUs, key, value);
    }

    /// Sets the phrase of `key` in `language`, which becomes supported if it
    /// was not.
    pub fn add(&mut self, language: LanguageId, key: &str, value: &str)
        ensures
            final(self).curr_language == old(self).curr_language,
            final(self).language_list@ == if old(self).language_list@.contains(language) {
                old(self).language_list@
            } else {
                old(self).language_list@.push(language)
            },
            tables_of(final(self).language_hash) == with_phrase(
                tables_of(old(self).language_hash),
                language,
                key@,
                value@,
            ),
    {
        if !list_contains(&self.language_list, language) {
            self.language_list.push(language);
        }
        let mut table = match remove_table(&mut self.language_hash, &language) {
            Some(t) => t,
            None => new_phrases(),
        };
        insert_phrase(&mut table, key.to_owned(), value.to_owned());
        insert_table(&mut self.language_hash, language, table);
    }

    /// The text of `key` in the language shown: its phrase, or the key
    /// itself when there is none.
    pub fn get(&self, key: &str) -> (text: String)
        ensures
            text@ == text_for(tables_of(self.language_hash), self.curr_language, key@),
    {
        match table_get(&self.language_hash, &self.curr_language) {
            Some(table) => match phrase_get(table, key) {
                Some(phrase) => phrase.clone(),
                None => key.to_owned(),
            },
            None => key.to_owned(),
        }
    }
}

} // verus!
