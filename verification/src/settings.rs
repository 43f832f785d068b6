//! The book's settings as the feed reads them: the book's own metadata and one
//! section of loosely typed keys per preprocessor.

use vstd::prelude::*;
use crate::text::{first_index_of, lemma_first_index_is, same_text};

verus! {

/// What a key of a section holds.
#[derive(Debug, Clone)]
pub enum SettingValue {
    /// A string.
    Text(String),
    /// Anything that is not a string.
    Other,
}

/// One key of a section, with what it holds.
#[derive(Debug, Clone)]
pub struct Setting {
    pub key: String,
    pub value: SettingValue,
}

/// The settings of one preprocessor.
#[derive(Debug, Clone)]
pub struct Section {
    pub name: String,
    pub settings: Vec<Setting>,
}

/// The settings of a book.
#[derive(Debug, Clone)]
pub struct BookSettings {
    pub title: Option<String>,
    pub description: Option<String>,
    pub authors: Vec<String>,
    pub preprocessors: Vec<Section>,
}

/// What looking a key up as a string finds.
pub enum Lookup {
    /// The section has no such key.
    Missing,
    /// The key holds something that is not a string.
    NotText,
    /// The key holds this string.
    Text(Seq<char>),
}

/// The names of the sections, in their order.
pub open spec fn section_names(sections: Seq<Section>) -> Seq<Seq<char>> {
    sections.map_values(|section: Section| section.name@)
}

/// The keys of the settings, in their order.
pub open spec fn setting_keys(settings: Seq<Setting>) -> Seq<Seq<char>> {
    settings.map_values(|setting: Setting| setting.key@)
}

/// The index of the first section named `name`, or the number of sections where
/// none has that name.
pub open spec fn section_index(sections: Seq<Section>, name: Seq<char>) -> int {
    first_index_of(section_names(sections), name)
}

/// The index of the first setting under `key`, or the number of settings where
/// the key is not among them.
pub open spec fn setting_index(settings: Seq<Setting>, key: Seq<char>) -> int {
    first_index_of(setting_keys(settings), key)
}

/// What `key` holds in `settings`, read as a string.
pub open spec fn lookup_text(settings: Seq<Setting>, key: Seq<char>) -> Lookup {
    let i = setting_index(settings, key);
    if i >= settings.len() {
        Lookup::Missing
    } else {
        match settings[i].value {
            SettingValue::Text(text) => Lookup::Text(text@),
            SettingValue::Other => Lookup::NotText,
        }
    }
}

impl Section {
    /// The first setting under `key`, if the section has one.
    pub fn get(&self, key: &str) -> (found: Option<&SettingValue>)
        ensures
            found is Some <==> setting_index(self.settings@, key@) < self.settings.len(),
            found matches Some(value) ==> *value == self.settings[setting_index(
                self.settings@,
                key@,
            )].value,
    {
        let mut i: usize = 0;
        while i < self.settings.len()
            invariant
                i <= self.settings.len(),
                forall|j: int| 0 <= j < i ==> setting_keys(self.settings@)[j] != key@,
            decreases self.settings.len() - i,
        {
            if same_text(self.settings[i].key.as_str(), key) {
                proof {
                    lemma_first_index_is(setting_keys(self.settings@), key@, i as int);
                }
                return Some(&self.settings[i].value);
            }
            i = i + 1;
        }
        proof {
            lemma_first_index_is(setting_keys(self.settings@), key@, i as int);
        }
        None
    }
}

impl BookSettings {
    /// The first section named `name`, if the book has one.
    pub fn get_preprocessor(&self, name: &str) -> (found: Option<&Section>)
        ensures
            found is Some <==> section_index(self.preprocessors@, name@)
                < self.preprocessors.len(),
            found matches Some(section) ==> *section == self.preprocessors[section_index(
                self.preprocessors@,
                name@,
            )],
    {
        let mut i: usize = 0;
        while i < self.preprocessors.len()
            invariant
                i <= self.preprocessors.len(),
                forall|j: int| 0 <= j < i ==> section_names(self.preprocessors@)[j] != name@,
            decreases self.preprocessors.len() - i,
        {
            if same_text(self.preprocessors[i].name.as_str(), name) {
                proof {
                    lemma_first_index_is(section_names(self.preprocessors@), name@, i as int);
                }
                return Some(&self.preprocessors[i]);
            }
            i = i + 1;
        }
        proof {
            lemma_first_index_is(section_names(self.preprocessors@), name@, i as int);
        }
        None
    }
}

} // verus!
