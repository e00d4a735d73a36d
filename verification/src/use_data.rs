use crate::data::{
    lemma_filter_next, lemma_filter_none, views, Duplicate, EnglishWordInfo,
    EnglishWordInfoView, Inflection, InflectionView, LatinWordInfo, LatinWordInfoView, Modifier,
    ModifierView, Stem, StemView, UniqueLatinWordInfo, UniqueLatinWordInfoView,
};
use crate::text::{is_prefix, same_text, starts_with};
use vstd::prelude::*;
use vstd::string::*;

verus! {

/// The categories of the dictionary.
#[derive(Debug, Clone, Copy, PartialEq, Eq, Structural)]
pub enum WordType {
    English,
    Latin,
    Inflections,
    NotPackons,
    Packons,
    Prefixes,
    Stems,
    Suffixes,
    Tackons,
    Tickons,
    UniqueLatin,
}

/// The category that a name stands for, if it is the name of one.
pub open spec fn word_type_named(s: Seq<char>) -> Option<WordType> {
    if s == "english"@ {
        Some(WordType::English)
    } else if s == "latin"@ {
        Some(WordType::Latin)
    } else if s == "inflections"@ {
        Some(WordType::Inflections)
    } else if s == "not_packons"@ {
        Some(WordType::NotPackons)
    } else if s == "packons"@ {
        Some(WordType::Packons)
    } else if s == "prefixes"@ {
        Some(WordType::Prefixes)
    } else if s == "stems"@ {
        Some(WordType::Stems)
    } else if s == "suffixes"@ {
        Some(WordType::Suffixes)
    } else if s == "tackons"@ {
        Some(WordType::Tackons)
    } else if s == "tickons"@ {
        Some(WordType::Tickons)
    } else if s == "unique_latin"@ {
        Some(WordType::UniqueLatin)
    } else {
        None
    }
}

/// What is reported of a name that stands for no category.
pub open spec fn invalid_word_type(s: Seq<char>) -> Seq<char> {
    "Invalid word type: "@ + s
}

impl WordType {
    /// Reads the name of a category. A name of none is an error, which
    /// repeats the name.
    pub fn from_str(s: &str) -> (r: Result<WordType, String>)
        ensures
            match r {
                Ok(word_type) => word_type_named(s@) == Some(word_type),
                Err(message) => word_type_named(s@).is_none() && message@ == invalid_word_type(
                    s@,
                ),
            },
    {
        if same_text(s, "english") {
            Ok(WordType::English)
        } else if same_text(s, "latin") {
            Ok(WordType::Latin)
        } else if same_text(s, "inflections") {
            Ok(WordType::Inflections)
        } else if same_text(s, "not_packons") {
            Ok(WordType::NotPackons)
        } else if same_text(s, "packons") {
            Ok(WordType::Packons)
        } else if same_text(s, "prefixes") {
            Ok(WordType::Prefixes)
        } else if same_text(s, "stems") {
            Ok(WordType::Stems)
        } else if same_text(s, "suffixes") {
            Ok(WordType::Suffixes)
        } else if same_text(s, "tackons") {
            Ok(WordType::Tackons)
        } else if same_text(s, "tickons") {
            Ok(WordType::Tickons)
        } else if same_text(s, "unique_latin") {
            Ok(WordType::UniqueLatin)
        } else {
            Err(String::from_str("Invalid word type: ").concat(s))
        }
    }
}

/// A list of entries of the Latin or of the English dictionary.
#[derive(Debug, PartialEq, Eq)]
pub enum OutputList {
    Latin(Vec<LatinWordInfo>),
    English(Vec<EnglishWordInfo>),
}

/// The dictionary: one table for each category, each in the order of its
/// source. It is filled once and read from then on.
#[derive(Debug, PartialEq, Eq)]
pub struct Lexicon {
    pub english: Vec<EnglishWordInfo>,
    pub latin: Vec<LatinWordInfo>,
    pub inflections: Vec<Inflection>,
    pub not_packons: Vec<Modifier>,
    pub packons: Vec<Modifier>,
    pub prefixes: Vec<Modifier>,
    pub stems: Vec<Stem>,
    pub suffixes: Vec<Modifier>,
    pub tackons: Vec<Modifier>,
    pub tickons: Vec<Modifier>,
    pub unique_latin: Vec<UniqueLatinWordInfo>,
}

/// The view of `Lexicon`: each table as a sequence of views.
pub ghost struct LexiconView {
    pub english: Seq<EnglishWordInfoView>,
    pub latin: Seq<LatinWordInfoView>,
    pub inflections: Seq<InflectionView>,
    pub not_packons: Seq<ModifierView>,
    pub packons: Seq<ModifierView>,
    pub prefixes: Seq<ModifierView>,
    pub stems: Seq<StemView>,
    pub suffixes: Seq<ModifierView>,
    pub tackons: Seq<ModifierView>,
    pub tickons: Seq<ModifierView>,
    pub unique_latin: Seq<UniqueLatinWordInfoView>,
}

impl View for Lexicon {
    type V = LexiconView;

    open spec fn view(&self) -> LexiconView {
        LexiconView {
            english: views(self.english@),
            latin: views(self.latin@),
            inflections: views(self.inflections@),
            not_packons: views(self.not_packons@),
            packons: views(self.packons@),
            prefixes: views(self.prefixes@),
            stems: views(self.stems@),
            suffixes: views(self.suffixes@),
            tackons: views(self.tackons@),
            tickons: views(self.tickons@),
            unique_latin: views(self.unique_latin@),
        }
    }
}

/// The number of entries of a category.
pub open spec fn table_len(lexicon: LexiconView, word_type: WordType) -> nat {
    match word_type {
        WordType::English => lexicon.english.len(),
        WordType::Latin => lexicon.latin.len(),
        WordType::Inflections => lexicon.inflections.len(),
        WordType::NotPackons => lexicon.not_packons.len(),
        WordType::Packons => lexicon.packons.len(),
        WordType::Prefixes => lexicon.prefixes.len(),
        WordType::Stems => lexicon.stems.len(),
        WordType::Suffixes => lexicon.suffixes.len(),
        WordType::Tackons => lexicon.tackons.len(),
        WordType::Tickons => lexicon.tickons.len(),
        WordType::UniqueLatin => lexicon.unique_latin.len(),
    }
}

impl Lexicon {
    /// The dictionary without entries.
    pub fn new() -> (r: Lexicon)
        ensures
            forall|word_type: WordType| table_len(r@, word_type) == 0,
    {
        Lexicon {
            english: Vec::new(),
            latin: Vec::new(),
            inflections: Vec::new(),
            not_packons: Vec::new(),
            packons: Vec::new(),
            prefixes: Vec::new(),
            stems: Vec::new(),
            suffixes: Vec::new(),
            tackons: Vec::new(),
            tickons: Vec::new(),
            unique_latin: Vec::new(),
        }
    }

    /// Counts the entries of a category.
    pub fn len(&self, word_type: WordType) -> (r: usize)
        ensures
            r == table_len(self@, word_type),
    {
        match word_type {
            WordType::English => self.english.len(),
            WordType::Latin => self.latin.len(),
            WordType::Inflections => self.inflections.len(),
            WordType::NotPackons => self.not_packons.len(),
            WordType::Packons => self.packons.len(),
            WordType::Prefixes => self.prefixes.len(),
            WordType::Stems => self.stems.len(),
            WordType::Suffixes => self.suffixes.len(),
            WordType::Tackons => self.tackons.len(),
            WordType::Tickons => self.tickons.len(),
            WordType::UniqueLatin => self.unique_latin.len(),
        }
    }
}

/// An entry of a table of the dictionary, which is found by its key: the
/// spelling of a word, stem or particle, or the ending of an inflection.
pub trait Entry: Duplicate {
    /// The key of an entry.
    spec fn key_of(entry: Self::V) -> Seq<char>;

    /// Reads the key.
    fn key(&self) -> (r: &str)
        ensures
            r@ == Self::key_of(self@),
    ;
}

/// An English headword is found by its spelling.
impl Entry for EnglishWordInfo {
    open spec fn key_of(entry: EnglishWordInfoView) -> Seq<char> {
        entry.orth
    }

    fn key(&self) -> (r: &str) {
        self.orth.as_str()
    }
}

/// A lemma is found by its spelling.
impl Entry for LatinWordInfo {
    open spec fn key_of(entry: LatinWordInfoView) -> Seq<char> {
        entry.orth
    }

    fn key(&self) -> (r: &str) {
        self.orth.as_str()
    }
}

/// An inflection is found by its ending.
impl Entry for Inflection {
    open spec fn key_of(entry: InflectionView) -> Seq<char> {
        entry.ending
    }

    fn key(&self) -> (r: &str) {
        self.ending.as_str()
    }
}

/// A prefix, suffix or enclitic is found by its spelling.
impl Entry for Modifier {
    open spec fn key_of(entry: ModifierView) -> Seq<char> {
        entry.orth
    }

    fn key(&self) -> (r: &str) {
        self.orth.as_str()
    }
}

/// A stem is found by its spelling.
impl Entry for Stem {
    open spec fn key_of(entry: StemView) -> Seq<char> {
        entry.orth
    }

    fn key(&self) -> (r: &str) {
        self.orth.as_str()
    }
}

/// An irregular word is found by its spelling.
impl Entry for UniqueLatinWordInfo {
    open spec fn key_of(entry: UniqueLatinWordInfoView) -> Seq<char> {
        entry.orth
    }

    fn key(&self) -> (r: &str) {
        self.orth.as_str()
    }
}

/// Whether an entry has the given key.
pub open spec fn keyed<T: Entry>(key: Seq<char>) -> spec_fn(T::V) -> bool {
    |entry: T::V| T::key_of(entry) == key
}

/// Whether the key of an entry begins with the given text.
pub open spec fn keyed_from<T: Entry>(start: Seq<char>) -> spec_fn(T::V) -> bool {
    |entry: T::V| is_prefix(start, T::key_of(entry))
}

/// The entries of a table that have the given key, in the order of the
/// table.
pub fn lookup<T: Entry>(table: &Vec<T>, key: &str) -> (r: Vec<T>)
    ensures
        views(r@) == views(table@).filter(keyed::<T>(key@)),
{
    let mut out: Vec<T> = Vec::new();
    let ghost all = views(table@);
    let ghost keep = keyed::<T>(key@);
    let mut i: usize = 0;
    proof {
        lemma_filter_none(all, keep);
        assert(views(out@) =~= Seq::<T::V>::empty());
    }
    while i < table.len()
        invariant
            i <= table.len(),
            all == views(table@),
            keep == keyed::<T>(key@),
            views(out@) == all.take(i as int).filter(keep),
        decreases table.len() - i,
    {
        let entry = &table[i];
        proof {
            lemma_filter_next(all, keep, i as int);
            assert(all[i as int] == entry@);
        }
        if same_text(entry.key(), key) {
            let ghost before = views(out@);
            out.push(entry.duplicate());
            assert(views(out@) =~= before.push(entry@));
        }
        i += 1;
    }
    assert(all.take(table@.len() as int) =~= all);
    out
}

/// The entries of a table whose key begins with the given text, in the
/// order of the table.
pub fn lookup_from<T: Entry>(table: &Vec<T>, start: &str) -> (r: Vec<T>)
    ensures
        views(r@) == views(table@).filter(keyed_from::<T>(start@)),
{
    let mut out: Vec<T> = Vec::new();
    let ghost all = views(table@);
    let ghost keep = keyed_from::<T>(start@);
    let mut i: usize = 0;
    proof {
        lemma_filter_none(all, keep);
        assert(views(out@) =~= Seq::<T::V>::empty());
    }
    while i < table.len()
        invariant
            i <= table.len(),
            all == views(table@),
            keep == keyed_from::<T>(start@),
            views(out@) == all.take(i as int).filter(keep),
        decreases table.len() - i,
    {
        let entry = &table[i];
        proof {
            lemma_filter_next(all, keep, i as int);
            assert(all[i as int] == entry@);
        }
        if starts_with(entry.key(), start) {
            let ghost before = views(out@);
            out.push(entry.duplicate());
            assert(views(out@) =~= before.push(entry@));
        }
        i += 1;
    }
    assert(all.take(table@.len() as int) =~= all);
    out
}

} // verus!
