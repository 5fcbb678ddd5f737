//! Text and word lists that carry a default value and per-locale variants.

use vstd::prelude::*;
use vstd::std_specs::cmp::PartialEqSpecImpl;
use crate::locale::{
    agrees_on_keys, assoc_get, assoc_map, keys_unique, lemma_absent_key,
    lemma_last_occurrence, lemma_push_inserts, lemma_push_keeps_unique, lemma_same_map,
    lemma_update_inserts, lemma_update_keeps_unique, position,
};
use crate::text::{copied_words, owned, owned_words, same_text, same_words};

verus! {

/// The tag of the locale whose value is the default one.
pub open spec fn default_tag() -> Seq<char> {
    "C"@
}

/// Whether a locale marker selects the default value: no marker, or the default tag.
pub open spec fn selects_default(locale: Option<Seq<char>>) -> bool {
    locale is None || locale == Some(default_tag())
}

/// The mathematical value of a translatable text.
pub struct TranslatedText {
    pub default: Seq<char>,
    pub locales: Map<Seq<char>, Seq<char>>,
}

impl TranslatedText {
    /// The text with no default and no variant.
    pub open spec fn empty() -> TranslatedText {
        TranslatedText { default: Seq::empty(), locales: Map::empty() }
    }

    /// This text after `text` was written for `locale`: the last write for a locale wins.
    pub open spec fn with(self, locale: Option<Seq<char>>, text: Seq<char>) -> TranslatedText {
        if selects_default(locale) {
            TranslatedText { default: text, ..self }
        } else {
            TranslatedText { locales: self.locales.insert(locale.unwrap(), text), ..self }
        }
    }
}

/// A text with a default value and variants by locale tag.
#[derive(Debug)]
pub struct TranslatableString {
    default: String,
    locales: Vec<(String, String)>,
}

impl DeepView for TranslatableString {
    type V = TranslatedText;

    closed spec fn deep_view(&self) -> TranslatedText {
        TranslatedText { default: self.default@, locales: assoc_map(self.locales.deep_view()) }
    }
}

/// Whether a locale marker selects the default value.
pub fn is_default_locale(locale: Option<&str>) -> (r: bool)
    ensures
        r == selects_default(locale.deep_view()),
{
    match locale {
        None => true,
        Some(tag) => same_text(tag, "C"),
    }
}

/// Whether every locale of `a` has the same text in `b` as in `a`.
fn same_texts_by_key(a: &Vec<(String, String)>, b: &Vec<(String, String)>) -> (r: bool)
    ensures
        r == agrees_on_keys(a.deep_view(), b.deep_view()),
{
    let mut i: usize = 0;
    while i < a.len()
        invariant
            i <= a.len(),
            forall|k: int|
                0 <= k < i ==> assoc_get(b.deep_view(), (#[trigger] a.deep_view()[k]).0)
                    == assoc_get(a.deep_view(), a.deep_view()[k].0),
        decreases a.len() - i,
    {
        let key = a[i].0.as_str();
        let in_a = position(a, key);
        let in_b = position(b, key);
        proof {
            match in_a {
                Some(at) => lemma_last_occurrence(a.deep_view(), key@, at as int),
                None => {
                    assert(a.deep_view()[i as int].0 == key@);
                },
            }
            match in_b {
                Some(at) => lemma_last_occurrence(b.deep_view(), key@, at as int),
                None => lemma_absent_key(b.deep_view(), key@),
            }
        }
        let same = match (in_a, in_b) {
            (Some(x), Some(y)) => a[x].1 == b[y].1,
            _ => false,
        };
        if !same {
            assert(assoc_get(b.deep_view(), a.deep_view()[i as int].0) != assoc_get(
                a.deep_view(),
                a.deep_view()[i as int].0,
            ));
            return false;
        }
        i = i + 1;
    }
    true
}

impl Clone for TranslatableString {
    fn clone(&self) -> (r: Self)
        ensures
            r.deep_view() == self.deep_view(),
    {
        proof {
            use_type_invariant(self);
        }
        let mut locales: Vec<(String, String)> = Vec::new();
        let mut i: usize = 0;
        while i < self.locales.len()
            invariant
                i <= self.locales.len(),
                locales.deep_view() == self.locales.deep_view().take(i as int),
            decreases self.locales.len() - i,
        {
            let ghost before = locales.deep_view();
            let ghost all = self.locales.deep_view();
            let key = self.locales[i].0.clone();
            let value = self.locales[i].1.clone();
            locales.push((key, value));
            assert(locales.deep_view() =~= before.push((key@, value@)));
            assert(all.take(i + 1) =~= all.take(i as int).push(all[i as int]));
            i = i + 1;
        }
        assert(locales.deep_view() =~= self.locales.deep_view());
        TranslatableString { default: self.default.clone(), locales }
    }
}

impl PartialEq for TranslatableString {
    fn eq(&self, other: &Self) -> (r: bool) {
        proof {
            lemma_same_map(self.locales.deep_view(), other.locales.deep_view());
        }
        self.default == other.default && same_texts_by_key(&self.locales, &other.locales)
            && same_texts_by_key(&other.locales, &self.locales)
    }
}

impl PartialEqSpecImpl for TranslatableString {
    open spec fn obeys_eq_spec() -> bool {
        true
    }

    open spec fn eq_spec(&self, other: &Self) -> bool {
        self.deep_view() == other.deep_view()
    }
}

impl Default for TranslatableString {
    fn default() -> (r: Self)
        ensures
            r.deep_view() == TranslatedText::empty(),
    {
        let locales: Vec<(String, String)> = Vec::new();
        assert(locales.deep_view() =~= Seq::empty());
        let r = TranslatableString { default: String::new(), locales };
        assert(r.deep_view().locales =~= Map::empty());
        r
    }
}

impl TranslatableString {
    /// No locale tag is stored twice.
    #[verifier::type_invariant]
    spec fn tidy(self) -> bool {
        keys_unique(self.locales.deep_view())
    }

    /// A text with the default value `text` and no variant.
    pub fn with_default(text: &str) -> (r: Self)
        ensures
            r.deep_view() == TranslatedText::empty().with(None, text@),
    {
        let locales: Vec<(String, String)> = Vec::new();
        assert(locales.deep_view() =~= Seq::empty());
        let r = TranslatableString { default: owned(text), locales };
        assert(r.deep_view().locales =~= Map::empty());
        r
    }

    /// This text with `text` written for `locale`.
    pub fn and_locale(self, locale: &str, text: &str) -> (r: Self)
        ensures
            r.deep_view() == self.deep_view().with(Some(locale@), text@),
    {
        let mut r = self;
        r.add_for_locale(Some(locale), text);
        r
    }

    /// Writes `text` for `locale`; without a marker, or under the default
    /// tag, it becomes the default value. A second write for a locale
    /// replaces the first.
    pub fn add_for_locale(&mut self, locale: Option<&str>, text: &str)
        ensures
            final(self).deep_view() == old(self).deep_view().with(locale.deep_view(), text@),
    {
        proof {
            use_type_invariant(&*self);
        }
        if is_default_locale(locale) {
            self.default = owned(text);
            return ;
        }
        let tag = match locale {
            Some(t) => t,
            None => "C",
        };
        let mut locales: Vec<(String, String)> = Vec::new();
        std::mem::swap(&mut locales, &mut self.locales);
        let ghost before = locales.deep_view();
        match position(&locales, tag) {
            Some(at) => {
                locales.set(at, (owned(tag), owned(text)));
                proof {
                    assert(locales.deep_view() =~= before.update(at as int, (tag@, text@)));
                    lemma_update_inserts(before, at as int, tag@, text@);
                    lemma_update_keeps_unique(before, at as int, tag@, text@);
                }
            },
            None => {
                locales.push((owned(tag), owned(text)));
                proof {
                    assert(locales.deep_view() =~= before.push((tag@, text@)));
                    lemma_push_inserts(before, tag@, text@);
                    lemma_push_keeps_unique(before, tag@, text@);
                }
            },
        }
        self.locales = locales;
    }

    /// The default value.
    pub fn default_text(&self) -> (r: &String)
        ensures
            r@ == self.deep_view().default,
    {
        &self.default
    }

    /// The variant for `locale`, if one was written.
    pub fn for_locale(&self, locale: &str) -> (r: Option<&String>)
        ensures
            r.deep_view() == (if self.deep_view().locales.contains_key(locale@) {
                Some(self.deep_view().locales[locale@])
            } else {
                None
            }),
    {
        match position(&self.locales, locale) {
            Some(at) => {
                proof {
                    lemma_last_occurrence(self.locales.deep_view(), locale@, at as int);
                }
                Some(&self.locales[at].1)
            },
            None => {
                proof {
                    lemma_absent_key(self.locales.deep_view(), locale@);
                }
                None
            },
        }
    }

    /// The stored variants: one entry for each locale tag, none twice.
    pub fn entries(&self) -> (r: &Vec<(String, String)>)
        ensures
            assoc_map(r.deep_view()) == self.deep_view().locales,
            keys_unique(r.deep_view()),
    {
        proof {
            use_type_invariant(self);
        }
        &self.locales
    }
}

/// A text that may hold limited markup, with a default value and variants by locale tag.
#[derive(Clone, Debug, PartialEq)]
pub struct MarkupTranslatableString {
    text: TranslatableString,
}

impl DeepView for MarkupTranslatableString {
    type V = TranslatedText;

    closed spec fn deep_view(&self) -> TranslatedText {
        self.text.deep_view()
    }
}

impl Default for MarkupTranslatableString {
    fn default() -> (r: Self)
        ensures
            r.deep_view() == TranslatedText::empty(),
    {
        MarkupTranslatableString { text: TranslatableString::default() }
    }
}

impl MarkupTranslatableString {
    /// A text with the default value `text` and no variant.
    pub fn with_default(text: &str) -> (r: Self)
        ensures
            r.deep_view() == TranslatedText::empty().with(None, text@),
    {
        MarkupTranslatableString { text: TranslatableString::with_default(text) }
    }

    /// This text with `text` written for `locale`.
    pub fn and_locale(self, locale: &str, text: &str) -> (r: Self)
        ensures
            r.deep_view() == self.deep_view().with(Some(locale@), text@),
    {
        MarkupTranslatableString { text: self.text.and_locale(locale, text) }
    }

    /// Writes `text` for `locale`; without a marker, or under the default
    /// tag, it becomes the default value.
    pub fn add_for_locale(&mut self, locale: Option<&str>, text: &str)
        ensures
            final(self).deep_view() == old(self).deep_view().with(locale.deep_view(), text@),
    {
        self.text.add_for_locale(locale, text);
    }

    /// The same content as a plain translatable text.
    pub fn as_text(&self) -> (r: &TranslatableString)
        ensures
            r.deep_view() == self.deep_view(),
    {
        &self.text
    }
}

/// The mathematical value of a translatable list of words.
pub struct TranslatedList {
    pub default: Seq<Seq<char>>,
    pub locales: Map<Seq<char>, Seq<Seq<char>>>,
}

impl TranslatedList {
    /// The list with no default word and no variant.
    pub open spec fn empty() -> TranslatedList {
        TranslatedList { default: Seq::empty(), locales: Map::empty() }
    }

    /// The words written so far for a locale tag.
    pub open spec fn words_for(self, tag: Seq<char>) -> Seq<Seq<char>> {
        if self.locales.contains_key(tag) {
            self.locales[tag]
        } else {
            Seq::empty()
        }
    }

    /// This list after `words` replaced what `locale` had.
    pub open spec fn with_words(self, locale: Option<Seq<char>>, words: Seq<Seq<char>>) -> TranslatedList {
        if selects_default(locale) {
            TranslatedList { default: words, ..self }
        } else {
            TranslatedList { locales: self.locales.insert(locale.unwrap(), words), ..self }
        }
    }

    /// This list after `word` was appended to what `locale` had.
    pub open spec fn with_word(self, locale: Option<Seq<char>>, word: Seq<char>) -> TranslatedList {
        if selects_default(locale) {
            TranslatedList { default: self.default.push(word), ..self }
        } else {
            TranslatedList {
                locales: self.locales.insert(
                    locale.unwrap(),
                    self.words_for(locale.unwrap()).push(word),
                ),
                ..self
            }
        }
    }
}

/// A list of words with a default value and variants by locale tag.
#[derive(Debug)]
pub struct TranslatableList {
    default: Vec<String>,
    locales: Vec<(String, Vec<String>)>,
}

impl DeepView for TranslatableList {
    type V = TranslatedList;

    closed spec fn deep_view(&self) -> TranslatedList {
        TranslatedList {
            default: self.default.deep_view(),
            locales: assoc_map(self.locales.deep_view()),
        }
    }
}

/// Whether every locale of `a` has the same words in `b` as in `a`.
fn same_lists_by_key(a: &Vec<(String, Vec<String>)>, b: &Vec<(String, Vec<String>)>) -> (r: bool)
    ensures
        r == agrees_on_keys(a.deep_view(), b.deep_view()),
{
    let mut i: usize = 0;
    while i < a.len()
        invariant
            i <= a.len(),
            forall|k: int|
                0 <= k < i ==> assoc_get(b.deep_view(), (#[trigger] a.deep_view()[k]).0)
                    == assoc_get(a.deep_view(), a.deep_view()[k].0),
        decreases a.len() - i,
    {
        let key = a[i].0.as_str();
        let in_a = position(a, key);
        let in_b = position(b, key);
        proof {
            match in_a {
                Some(at) => lemma_last_occurrence(a.deep_view(), key@, at as int),
                None => {
                    assert(a.deep_view()[i as int].0 == key@);
                },
            }
            match in_b {
                Some(at) => lemma_last_occurrence(b.deep_view(), key@, at as int),
                None => lemma_absent_key(b.deep_view(), key@),
            }
        }
        let same = match (in_a, in_b) {
            (Some(x), Some(y)) => same_words(&a[x].1, &b[y].1),
            _ => false,
        };
        if !same {
            assert(assoc_get(b.deep_view(), a.deep_view()[i as int].0) != assoc_get(
                a.deep_view(),
                a.deep_view()[i as int].0,
            ));
            return false;
        }
        i = i + 1;
    }
    true
}

impl Clone for TranslatableList {
    fn clone(&self) -> (r: Self)
        ensures
            r.deep_view() == self.deep_view(),
    {
        proof {
            use_type_invariant(self);
        }
        let mut locales: Vec<(String, Vec<String>)> = Vec::new();
        let mut i: usize = 0;
        while i < self.locales.len()
            invariant
                i <= self.locales.len(),
                locales.deep_view() == self.locales.deep_view().take(i as int),
            decreases self.locales.len() - i,
        {
            let ghost before = locales.deep_view();
            let ghost all = self.locales.deep_view();
            let key = self.locales[i].0.clone();
            let value = copied_words(&self.locales[i].1);
            locales.push((key, value));
            assert(locales.deep_view() =~= before.push((key@, value.deep_view())));
            assert(all.take(i + 1) =~= all.take(i as int).push(all[i as int]));
            i = i + 1;
        }
        assert(locales.deep_view() =~= self.locales.deep_view());
        TranslatableList { default: copied_words(&self.default), locales }
    }
}

impl PartialEq for TranslatableList {
    fn eq(&self, other: &Self) -> (r: bool) {
        proof {
            lemma_same_map(self.locales.deep_view(), other.locales.deep_view());
        }
        same_words(&self.default, &other.default) && same_lists_by_key(
            &self.locales,
            &other.locales,
        ) && same_lists_by_key(&other.locales, &self.locales)
    }
}

impl PartialEqSpecImpl for TranslatableList {
    open spec fn obeys_eq_spec() -> bool {
        true
    }

    open spec fn eq_spec(&self, other: &Self) -> bool {
        self.deep_view() == other.deep_view()
    }
}

impl Default for TranslatableList {
    fn default() -> (r: Self)
        ensures
            r.deep_view() == TranslatedList::empty(),
    {
        let locales: Vec<(String, Vec<String>)> = Vec::new();
        assert(locales.deep_view() =~= Seq::empty());
        let r = TranslatableList { default: Vec::new(), locales };
        assert(r.deep_view().locales =~= Map::empty());
        assert(r.deep_view().default =~= Seq::empty());
        r
    }
}

impl TranslatableList {
    /// No locale tag is stored twice.
    #[verifier::type_invariant]
    spec fn tidy(self) -> bool {
        keys_unique(self.locales.deep_view())
    }

    /// A list with the default words `words` and no variant.
    pub fn with_default(words: Vec<&str>) -> (r: Self)
        ensures
            r.deep_view() == TranslatedList::empty().with_words(None, words.deep_view()),
    {
        let locales: Vec<(String, Vec<String>)> = Vec::new();
        assert(locales.deep_view() =~= Seq::empty());
        let r = TranslatableList { default: owned_words(&words), locales };
        assert(r.deep_view().locales =~= Map::empty());
        r
    }

    /// This list with `words` as the whole variant for `locale`.
    pub fn and_locale(self, locale: &str, words: Vec<&str>) -> (r: Self)
        ensures
            r.deep_view() == self.deep_view().with_words(Some(locale@), words.deep_view()),
    {
        let mut r = self;
        r.set_for_locale(Some(locale), owned_words(&words));
        r
    }

    /// Replaces what `locale` had by `words`; without a marker, or under
    /// the default tag, they become the default words.
    pub fn set_for_locale(&mut self, locale: Option<&str>, words: Vec<String>)
        ensures
            final(self).deep_view() == old(self).deep_view().with_words(
                locale.deep_view(),
                words.deep_view(),
            ),
    {
        proof {
            use_type_invariant(&*self);
        }
        if is_default_locale(locale) {
            self.default = words;
            return ;
        }
        let tag = match locale {
            Some(t) => t,
            None => "C",
        };
        let mut locales: Vec<(String, Vec<String>)> = Vec::new();
        std::mem::swap(&mut locales, &mut self.locales);
        let ghost before = locales.deep_view();
        let ghost value = words.deep_view();
        match position(&locales, tag) {
            Some(at) => {
                locales.set(at, (owned(tag), words));
                proof {
                    assert(locales.deep_view() =~= before.update(at as int, (tag@, value)));
                    lemma_update_inserts(before, at as int, tag@, value);
                    lemma_update_keeps_unique(before, at as int, tag@, value);
                }
            },
            None => {
                locales.push((owned(tag), words));
                proof {
                    assert(locales.deep_view() =~= before.push((tag@, value)));
                    lemma_push_inserts(before, tag@, value);
                    lemma_push_keeps_unique(before, tag@, value);
                }
            },
        }
        self.locales = locales;
    }

    /// Appends `word` to what `locale` has; without a marker, or under the
    /// default tag, to the default words.
    pub fn add_for_locale(&mut self, locale: Option<&str>, word: &str)
        ensures
            final(self).deep_view() == old(self).deep_view().with_word(locale.deep_view(), word@),
    {
        proof {
            use_type_invariant(&*self);
        }
        if is_default_locale(locale) {
            let mut words: Vec<String> = Vec::new();
            std::mem::swap(&mut words, &mut self.default);
            let ghost before = words.deep_view();
            words.push(owned(word));
            assert(words.deep_view() =~= before.push(word@));
            self.default = words;
            return ;
        }
        let tag = match locale {
            Some(t) => t,
            None => "C",
        };
        let ghost before = self.locales.deep_view();
        match position(&self.locales, tag) {
            Some(at) => {
                proof {
                    lemma_last_occurrence(before, tag@, at as int);
                }
                let mut words = copied_words(&self.locales[at].1);
                let ghost had = words.deep_view();
                words.push(owned(word));
                assert(words.deep_view() =~= had.push(word@));
                self.set_for_locale(locale, words);
            },
            None => {
                proof {
                    lemma_absent_key(before, tag@);
                }
                let mut words: Vec<String> = Vec::new();
                words.push(owned(word));
                assert(words.deep_view() =~= Seq::<Seq<char>>::empty().push(word@));
                self.set_for_locale(locale, words);
            },
        }
    }

    /// The default words.
    pub fn default_words(&self) -> (r: &Vec<String>)
        ensures
            r.deep_view() == self.deep_view().default,
    {
        &self.default
    }

    /// The stored variants: one entry for each locale tag, none twice.
    pub fn entries(&self) -> (r: &Vec<(String, Vec<String>)>)
        ensures
            assoc_map(r.deep_view()) == self.deep_view().locales,
            keys_unique(r.deep_view()),
    {
        proof {
            use_type_invariant(self);
        }
        &self.locales
    }
}

/// The last write for a locale wins: an earlier write for the same
/// locale leaves no trace.
pub proof fn lemma_last_text_wins(
    text: TranslatedText,
    locale: Option<Seq<char>>,
    first: Seq<char>,
    second: Seq<char>,
)
    ensures
        text.with(locale, first).with(locale, second) == text.with(locale, second),
{
    if !selects_default(locale) {
        assert(text.locales.insert(locale.unwrap(), first).insert(locale.unwrap(), second)
            =~= text.locales.insert(locale.unwrap(), second));
    }
}

/// Writes for different locales do not disturb each other, whatever their order.
pub proof fn lemma_locales_independent(
    text: TranslatedText,
    one: Seq<char>,
    other: Seq<char>,
    a: Seq<char>,
    b: Seq<char>,
)
    requires
        one != other,
        !selects_default(Some(one)),
        !selects_default(Some(other)),
    ensures
        text.with(Some(one), a).with(Some(other), b) == text.with(Some(other), b).with(
            Some(one),
            a,
        ),
{
    assert(text.locales.insert(one, a).insert(other, b) =~= text.locales.insert(other, b).insert(
        one,
        a,
    ));
}

} // verus!
