use crate::text::texts;
use vstd::prelude::*;

verus! {

/// The views of the items of a list.
pub open spec fn views<T: View>(v: Seq<T>) -> Seq<T::V> {
    Seq::new(v.len(), |i: int| v[i]@)
}

/// The view of an optional value.
pub open spec fn opt_view<T: View>(v: Option<T>) -> Option<T::V> {
    match v {
        Some(t) => Some(t@),
        None => None,
    }
}

/// The characters of an optional string.
pub open spec fn opt_text(s: Option<String>) -> Option<Seq<char>> {
    match s {
        Some(t) => Some(t@),
        None => None,
    }
}

/// A value that can be copied with its view kept.
pub trait Duplicate: View + Sized {
    /// A copy that has the same view.
    fn duplicate(&self) -> (r: Self)
        ensures
            r@ == self@,
    ;
}

/// Copies a list item by item.
pub fn clone_items<T: Duplicate>(v: &Vec<T>) -> (r: Vec<T>)
    ensures
        views(r@) == views(v@),
{
    let mut out: Vec<T> = Vec::new();
    let mut i: usize = 0;
    while i < v.len()
        invariant
            i <= v.len(),
            out@.len() == i,
            forall|j: int| 0 <= j < i ==> (#[trigger] out@[j])@ == v@[j]@,
        decreases v.len() - i,
    {
        out.push(v[i].duplicate());
        i += 1;
    }
    assert(views(out@) =~= views(v@));
    out
}

/// Copies a list of strings.
pub fn clone_strings(v: &Vec<String>) -> (r: Vec<String>)
    ensures
        texts(r@) == texts(v@),
{
    let mut out: Vec<String> = Vec::new();
    let mut i: usize = 0;
    while i < v.len()
        invariant
            i <= v.len(),
            out@.len() == i,
            forall|j: int| 0 <= j < i ==> (#[trigger] out@[j])@ == v@[j]@,
        decreases v.len() - i,
    {
        out.push(v[i].clone());
        i += 1;
    }
    assert(texts(out@) =~= texts(v@));
    out
}

/// Copies an optional string.
pub fn clone_opt_string(s: &Option<String>) -> (r: Option<String>)
    ensures
        opt_text(r) == opt_text(*s),
{
    match s {
        Some(t) => Some(t.clone()),
        None => None,
    }
}

/// One component of a classification code as the dictionary records it:
/// a small integer, or free text where the dictionary gives no number.
#[derive(Debug, PartialEq, Eq)]
pub enum NValue {
    Integer(i8),
    Text(String),
}

/// The view of `NValue`.
pub ghost enum NValueView {
    Integer(i8),
    Text(Seq<char>),
}

impl View for NValue {
    type V = NValueView;

    open spec fn view(&self) -> NValueView {
        match self {
            NValue::Integer(n) => NValueView::Integer(*n),
            NValue::Text(t) => NValueView::Text(t@),
        }
    }
}

impl Clone for NValue {
    /// A copy that has the same view.
    fn clone(&self) -> (r: Self)
        ensures
            r@ == self@,
    {
        match self {
            NValue::Integer(n) => NValue::Integer(*n),
            NValue::Text(t) => NValue::Text(t.clone()),
        }
    }
}

impl Duplicate for NValue {
    fn duplicate(&self) -> (r: Self) {
        self.clone()
    }
}

/// Copies a classification code.
pub fn clone_code(v: &Vec<NValue>) -> (r: Vec<NValue>)
    ensures
        views(r@) == views(v@),
{
    clone_items(v)
}

/// One more item of a list is kept by a filter if the predicate holds of
/// it, and left out if not.
pub proof fn lemma_filter_next<T>(s: Seq<T>, pred: spec_fn(T) -> bool, i: int)
    requires
        0 <= i < s.len(),
    ensures
        s.take(i + 1).filter(pred) == if pred(s[i]) {
            s.take(i).filter(pred).push(s[i])
        } else {
            s.take(i).filter(pred)
        },
{
    reveal(Seq::filter);
    assert(s.take(i + 1).drop_last() =~= s.take(i));
    assert(s.take(i + 1).last() == s[i]);
}

/// Nothing is kept of the empty list.
pub proof fn lemma_filter_none<T>(s: Seq<T>, pred: spec_fn(T) -> bool)
    ensures
        s.take(0).filter(pred) == Seq::<T>::empty(),
{
    reveal(Seq::filter);
    assert(s.take(0) =~= Seq::<T>::empty());
}

/// The expanded form of a coded grammar string: one optional label per
/// grammatical category.
#[derive(Debug, PartialEq, Eq)]
pub struct LongForm {
    pub declension: Option<String>,
    pub number: Option<String>,
    pub gender: Option<String>,
    pub tense: Option<String>,
    pub voice: Option<String>,
    pub mood: Option<String>,
    pub verb: Option<String>,
    pub kind: Option<String>,
    pub person: Option<i8>,
}

/// The view of `LongForm`: its strings and lists as sequences.
pub ghost struct LongFormView {
    pub declension: Option<Seq<char>>,
    pub number: Option<Seq<char>>,
    pub gender: Option<Seq<char>>,
    pub tense: Option<Seq<char>>,
    pub voice: Option<Seq<char>>,
    pub mood: Option<Seq<char>>,
    pub verb: Option<Seq<char>>,
    pub kind: Option<Seq<char>>,
    pub person: Option<i8>,
}

impl View for LongForm {
    type V = LongFormView;

    open spec fn view(&self) -> LongFormView {
        LongFormView {
            declension: opt_text(self.declension),
            number: opt_text(self.number),
            gender: opt_text(self.gender),
            tense: opt_text(self.tense),
            voice: opt_text(self.voice),
            mood: opt_text(self.mood),
            verb: opt_text(self.verb),
            kind: opt_text(self.kind),
            person: self.person,
        }
    }
}

impl Clone for LongForm {
    /// A copy that has the same view.
    fn clone(&self) -> (r: Self)
        ensures
            r@ == self@,
    {
        LongForm {
            declension: clone_opt_string(&self.declension),
            number: clone_opt_string(&self.number),
            gender: clone_opt_string(&self.gender),
            tense: clone_opt_string(&self.tense),
            voice: clone_opt_string(&self.voice),
            mood: clone_opt_string(&self.mood),
            verb: clone_opt_string(&self.verb),
            kind: clone_opt_string(&self.kind),
            person: self.person,
        }
    }
}

/// The grammatical form of an entry: the coded string of the dictionary, or
/// its expansion.
#[derive(Debug, PartialEq, Eq)]
pub enum Form {
    StrForm(String),
    LongForm(LongForm),
}

/// The view of `Form`.
pub ghost enum FormView {
    StrForm(Seq<char>),
    LongForm(LongFormView),
}

impl View for Form {
    type V = FormView;

    open spec fn view(&self) -> FormView {
        match self {
            Form::StrForm(s) => FormView::StrForm(s@),
            Form::LongForm(l) => FormView::LongForm(l@),
        }
    }
}

impl Clone for Form {
    /// A copy that has the same view.
    fn clone(&self) -> (r: Self)
        ensures
            r@ == self@,
    {
        match self {
            Form::StrForm(s) => Form::StrForm(s.clone()),
            Form::LongForm(l) => Form::LongForm(l.clone()),
        }
    }
}


/// What the dictionary records about a lemma beside its grammar: age, subject
/// area, region, frequency and source, as codes or as labels.
#[derive(Debug, PartialEq, Eq)]
pub struct WordInfo {
    pub age: String,
    pub area: String,
    pub geo: String,
    pub freq: String,
    pub source: String,
}

/// The view of `WordInfo`: its strings and lists as sequences.
pub ghost struct WordInfoView {
    pub age: Seq<char>,
    pub area: Seq<char>,
    pub geo: Seq<char>,
    pub freq: Seq<char>,
    pub source: Seq<char>,
}

impl View for WordInfo {
    type V = WordInfoView;

    open spec fn view(&self) -> WordInfoView {
        WordInfoView {
            age: self.age@,
            area: self.area@,
            geo: self.geo@,
            freq: self.freq@,
            source: self.source@,
        }
    }
}

impl Clone for WordInfo {
    /// A copy that has the same view.
    fn clone(&self) -> (r: Self)
        ensures
            r@ == self@,
    {
        WordInfo {
            age: self.age.clone(),
            area: self.area.clone(),
            geo: self.geo.clone(),
            freq: self.freq.clone(),
            source: self.source.clone(),
        }
    }
}

/// A stem of the dictionary: a truncated root with its part of speech and
/// classification code, and the number of the lemma that it belongs to.
#[derive(Debug, PartialEq, Eq)]
pub struct Stem {
    pub pos: String,
    pub form: Form,
    pub orth: String,
    pub n: Vec<NValue>,
    pub wid: i32,
}

/// The view of `Stem`: its strings and lists as sequences.
pub ghost struct StemView {
    pub pos: Seq<char>,
    pub form: FormView,
    pub orth: Seq<char>,
    pub n: Seq<NValueView>,
    pub wid: i32,
}

impl View for Stem {
    type V = StemView;

    open spec fn view(&self) -> StemView {
        StemView {
            pos: self.pos@,
            form: self.form@,
            orth: self.orth@,
            n: views(self.n@),
            wid: self.wid,
        }
    }
}

impl Clone for Stem {
    /// A copy that has the same view.
    fn clone(&self) -> (r: Self)
        ensures
            r@ == self@,
    {
        Stem {
            pos: self.pos.clone(),
            form: self.form.clone(),
            orth: self.orth.clone(),
            n: clone_code(&self.n),
            wid: self.wid,
        }
    }
}

impl Duplicate for Stem {
    fn duplicate(&self) -> (r: Self) {
        self.clone()
    }
}

impl Stem {
    /// Copies a list.
    pub fn clone_list(v: &Vec<Stem>) -> (r: Vec<Stem>)
        ensures
            views(r@) == views(v@),
    {
        clone_items(v)
    }
}

/// An ending with the part of speech that it applies to, the classification
/// that it belongs to and its coded form.
#[derive(Debug, PartialEq, Eq)]
pub struct Inflection {
    pub ending: String,
    pub pos: String,
    pub note: Option<String>,
    pub n: Vec<NValue>,
    pub form: Form,
}

/// The view of `Inflection`: its strings and lists as sequences.
pub ghost struct InflectionView {
    pub ending: Seq<char>,
    pub pos: Seq<char>,
    pub note: Option<Seq<char>>,
    pub n: Seq<NValueView>,
    pub form: FormView,
}

impl View for Inflection {
    type V = InflectionView;

    open spec fn view(&self) -> InflectionView {
        InflectionView {
            ending: self.ending@,
            pos: self.pos@,
            note: opt_text(self.note),
            n: views(self.n@),
            form: self.form@,
        }
    }
}

impl Clone for Inflection {
    /// A copy that has the same view.
    fn clone(&self) -> (r: Self)
        ensures
            r@ == self@,
    {
        Inflection {
            ending: self.ending.clone(),
            pos: self.pos.clone(),
            note: clone_opt_string(&self.note),
            n: clone_code(&self.n),
            form: self.form.clone(),
        }
    }
}

impl Duplicate for Inflection {
    fn duplicate(&self) -> (r: Self) {
        self.clone()
    }
}

impl Inflection {
    /// Copies a list.
    pub fn clone_list(v: &Vec<Inflection>) -> (r: Vec<Inflection>)
        ensures
            views(r@) == views(v@),
    {
        clone_items(v)
    }
}

/// A lemma of the Latin dictionary.
#[derive(Debug, PartialEq, Eq)]
pub struct LatinWordInfo {
    pub pos: String,
    pub n: Vec<NValue>,
    pub parts: Vec<String>,
    pub senses: Vec<String>,
    pub form: Form,
    pub orth: String,
    pub info: WordInfo,
    pub id: i32,
}

/// The view of `LatinWordInfo`: its strings and lists as sequences.
pub ghost struct LatinWordInfoView {
    pub pos: Seq<char>,
    pub n: Seq<NValueView>,
    pub parts: Seq<Seq<char>>,
    pub senses: Seq<Seq<char>>,
    pub form: FormView,
    pub orth: Seq<char>,
    pub info: WordInfoView,
    pub id: i32,
}

impl View for LatinWordInfo {
    type V = LatinWordInfoView;

    open spec fn view(&self) -> LatinWordInfoView {
        LatinWordInfoView {
            pos: self.pos@,
            n: views(self.n@),
            parts: texts(self.parts@),
            senses: texts(self.senses@),
            form: self.form@,
            orth: self.orth@,
            info: self.info@,
            id: self.id,
        }
    }
}

impl Clone for LatinWordInfo {
    /// A copy that has the same view.
    fn clone(&self) -> (r: Self)
        ensures
            r@ == self@,
    {
        LatinWordInfo {
            pos: self.pos.clone(),
            n: clone_code(&self.n),
            parts: clone_strings(&self.parts),
            senses: clone_strings(&self.senses),
            form: self.form.clone(),
            orth: self.orth.clone(),
            info: self.info.clone(),
            id: self.id,
        }
    }
}

impl Duplicate for LatinWordInfo {
    fn duplicate(&self) -> (r: Self) {
        self.clone()
    }
}

impl LatinWordInfo {
    /// Copies a list.
    pub fn clone_list(v: &Vec<LatinWordInfo>) -> (r: Vec<LatinWordInfo>)
        ensures
            views(r@) == views(v@),
    {
        clone_items(v)
    }
}

impl LatinWordInfo {
    /// Copies an optional value.
    pub fn clone_opt(v: &Option<LatinWordInfo>) -> (r: Option<LatinWordInfo>)
        ensures
            opt_view(r) == opt_view(*v),
    {
        match v {
            Some(t) => Some(t.clone()),
            None => None,
        }
    }
}

/// An irregular word, listed in the dictionary in its surface form.
#[derive(Debug, PartialEq, Eq)]
pub struct UniqueLatinWordInfo {
    pub orth: String,
    pub senses: Vec<String>,
    pub pos: String,
    pub form: Form,
    pub n: Vec<NValue>,
    pub info: WordInfo,
}

/// The view of `UniqueLatinWordInfo`: its strings and lists as sequences.
pub ghost struct UniqueLatinWordInfoView {
    pub orth: Seq<char>,
    pub senses: Seq<Seq<char>>,
    pub pos: Seq<char>,
    pub form: FormView,
    pub n: Seq<NValueView>,
    pub info: WordInfoView,
}

impl View for UniqueLatinWordInfo {
    type V = UniqueLatinWordInfoView;

    open spec fn view(&self) -> UniqueLatinWordInfoView {
        UniqueLatinWordInfoView {
            orth: self.orth@,
            senses: texts(self.senses@),
            pos: self.pos@,
            form: self.form@,
            n: views(self.n@),
            info: self.info@,
        }
    }
}

impl Clone for UniqueLatinWordInfo {
    /// A copy that has the same view.
    fn clone(&self) -> (r: Self)
        ensures
            r@ == self@,
    {
        UniqueLatinWordInfo {
            orth: self.orth.clone(),
            senses: clone_strings(&self.senses),
            pos: self.pos.clone(),
            form: self.form.clone(),
            n: clone_code(&self.n),
            info: self.info.clone(),
        }
    }
}

impl Duplicate for UniqueLatinWordInfo {
    fn duplicate(&self) -> (r: Self) {
        self.clone()
    }
}

impl UniqueLatinWordInfo {
    /// Copies a list.
    pub fn clone_list(v: &Vec<UniqueLatinWordInfo>) -> (r: Vec<UniqueLatinWordInfo>)
        ensures
            views(r@) == views(v@),
    {
        clone_items(v)
    }
}

/// A prefix, a suffix or an enclitic particle of the dictionary.
#[derive(Debug, PartialEq, Eq)]
pub struct Modifier {
    pub pos: String,
    pub form: String,
    pub senses: Vec<String>,
    pub orth: String,
    pub modifier: String,
}

/// The view of `Modifier`: its strings and lists as sequences.
pub ghost struct ModifierView {
    pub pos: Seq<char>,
    pub form: Seq<char>,
    pub senses: Seq<Seq<char>>,
    pub orth: Seq<char>,
    pub modifier: Seq<char>,
}

impl View for Modifier {
    type V = ModifierView;

    open spec fn view(&self) -> ModifierView {
        ModifierView {
            pos: self.pos@,
            form: self.form@,
            senses: texts(self.senses@),
            orth: self.orth@,
            modifier: self.modifier@,
        }
    }
}

impl Clone for Modifier {
    /// A copy that has the same view.
    fn clone(&self) -> (r: Self)
        ensures
            r@ == self@,
    {
        Modifier {
            pos: self.pos.clone(),
            form: self.form.clone(),
            senses: clone_strings(&self.senses),
            orth: self.orth.clone(),
            modifier: self.modifier.clone(),
        }
    }
}

impl Duplicate for Modifier {
    fn duplicate(&self) -> (r: Self) {
        self.clone()
    }
}

impl Modifier {
    /// Copies a list.
    pub fn clone_list(v: &Vec<Modifier>) -> (r: Vec<Modifier>)
        ensures
            views(r@) == views(v@),
    {
        clone_items(v)
    }
}

/// An English headword with the Latin lemma that it leads to.
#[derive(Debug, PartialEq, Eq)]
pub struct EnglishWordInfo {
    pub orth: String,
    pub wid: i32,
    pub pos: String,
    pub frequency_type: String,
    pub true_frequency: i16,
    pub frequency: i16,
    pub compound: i16,
    pub semi: i16,
    pub latin_entry: Option<LatinWordInfo>,
}

/// The view of `EnglishWordInfo`: its strings and lists as sequences.
pub ghost struct EnglishWordInfoView {
    pub orth: Seq<char>,
    pub wid: i32,
    pub pos: Seq<char>,
    pub frequency_type: Seq<char>,
    pub true_frequency: i16,
    pub frequency: i16,
    pub compound: i16,
    pub semi: i16,
    pub latin_entry: Option<LatinWordInfoView>,
}

impl View for EnglishWordInfo {
    type V = EnglishWordInfoView;

    open spec fn view(&self) -> EnglishWordInfoView {
        EnglishWordInfoView {
            orth: self.orth@,
            wid: self.wid,
            pos: self.pos@,
            frequency_type: self.frequency_type@,
            true_frequency: self.true_frequency,
            frequency: self.frequency,
            compound: self.compound,
            semi: self.semi,
            latin_entry: opt_view(self.latin_entry),
        }
    }
}

impl Clone for EnglishWordInfo {
    /// A copy that has the same view.
    fn clone(&self) -> (r: Self)
        ensures
            r@ == self@,
    {
        EnglishWordInfo {
            orth: self.orth.clone(),
            wid: self.wid,
            pos: self.pos.clone(),
            frequency_type: self.frequency_type.clone(),
            true_frequency: self.true_frequency,
            frequency: self.frequency,
            compound: self.compound,
            semi: self.semi,
            latin_entry: LatinWordInfo::clone_opt(&self.latin_entry),
        }
    }
}

impl Duplicate for EnglishWordInfo {
    fn duplicate(&self) -> (r: Self) {
        self.clone()
    }
}

impl EnglishWordInfo {
    /// Copies a list.
    pub fn clone_list(v: &Vec<EnglishWordInfo>) -> (r: Vec<EnglishWordInfo>)
        ensures
            views(r@) == views(v@),
    {
        clone_items(v)
    }
}

/// What an analysis found: a lemma of the dictionary or an irregular word.
#[derive(Debug, PartialEq, Eq)]
pub enum Word {
    LatinWordInfo(LatinWordInfo),
    UniqueLatinWordInfo(UniqueLatinWordInfo),
}

/// The view of `Word`.
pub ghost enum WordView {
    LatinWordInfo(LatinWordInfoView),
    UniqueLatinWordInfo(UniqueLatinWordInfoView),
}

impl View for Word {
    type V = WordView;

    open spec fn view(&self) -> WordView {
        match self {
            Word::LatinWordInfo(w) => WordView::LatinWordInfo(w@),
            Word::UniqueLatinWordInfo(w) => WordView::UniqueLatinWordInfo(w@),
        }
    }
}

impl Clone for Word {
    /// A copy that has the same view.
    fn clone(&self) -> (r: Self)
        ensures
            r@ == self@,
    {
        match self {
            Word::LatinWordInfo(w) => Word::LatinWordInfo(w.clone()),
            Word::UniqueLatinWordInfo(w) => Word::UniqueLatinWordInfo(w.clone()),
        }
    }
}


/// One analysis of a Latin word: the lemma or irregular word, the stem that
/// matched, the inflections that complete it, and the prefix and enclitic that
/// were taken off the word to find it.
#[derive(Debug, PartialEq, Eq)]
pub struct LatinTranslationInfo {
    pub word: Word,
    pub stem: Stem,
    pub inflections: Vec<Inflection>,
    pub addons: Vec<Modifier>,
}

/// The view of `LatinTranslationInfo`: its strings and lists as sequences.
pub ghost struct LatinTranslationInfoView {
    pub word: WordView,
    pub stem: StemView,
    pub inflections: Seq<InflectionView>,
    pub addons: Seq<ModifierView>,
}

impl View for LatinTranslationInfo {
    type V = LatinTranslationInfoView;

    open spec fn view(&self) -> LatinTranslationInfoView {
        LatinTranslationInfoView {
            word: self.word@,
            stem: self.stem@,
            inflections: views(self.inflections@),
            addons: views(self.addons@),
        }
    }
}

impl Clone for LatinTranslationInfo {
    /// A copy that has the same view.
    fn clone(&self) -> (r: Self)
        ensures
            r@ == self@,
    {
        LatinTranslationInfo {
            word: self.word.clone(),
            stem: self.stem.clone(),
            inflections: Inflection::clone_list(&self.inflections),
            addons: Modifier::clone_list(&self.addons),
        }
    }
}

impl Duplicate for LatinTranslationInfo {
    fn duplicate(&self) -> (r: Self) {
        self.clone()
    }
}

impl LatinTranslationInfo {
    /// Copies a list.
    pub fn clone_list(v: &Vec<LatinTranslationInfo>) -> (r: Vec<LatinTranslationInfo>)
        ensures
            views(r@) == views(v@),
    {
        clone_items(v)
    }
}

/// The analyses of one word: of a Latin word, or of an English one.
#[derive(Debug, PartialEq, Eq)]
pub enum TranslationType {
    Latin(Vec<LatinTranslationInfo>),
    English(Vec<EnglishWordInfo>),
}

/// The view of `TranslationType`.
pub ghost enum TranslationTypeView {
    Latin(Seq<LatinTranslationInfoView>),
    English(Seq<EnglishWordInfoView>),
}

impl View for TranslationType {
    type V = TranslationTypeView;

    open spec fn view(&self) -> TranslationTypeView {
        match self {
            TranslationType::Latin(info) => TranslationTypeView::Latin(views(info@)),
            TranslationType::English(info) => TranslationTypeView::English(views(info@)),
        }
    }
}

impl Clone for TranslationType {
    /// A copy that has the same view.
    fn clone(&self) -> (r: Self)
        ensures
            r@ == self@,
    {
        match self {
            TranslationType::Latin(info) => TranslationType::Latin(
                LatinTranslationInfo::clone_list(info),
            ),
            TranslationType::English(info) => TranslationType::English(
                EnglishWordInfo::clone_list(info),
            ),
        }
    }
}

/// The language of the words to translate.
#[derive(Debug, Clone, Copy, PartialEq, Eq, Structural)]
pub enum Language {
    Latin,
    English,
}


/// A word of the input with its analyses.
#[derive(Debug, PartialEq, Eq)]
pub struct Translation {
    pub word: String,
    pub definitions: TranslationType,
}

/// The view of `Translation`: its strings and lists as sequences.
pub ghost struct TranslationView {
    pub word: Seq<char>,
    pub definitions: TranslationTypeView,
}

impl View for Translation {
    type V = TranslationView;

    open spec fn view(&self) -> TranslationView {
        TranslationView {
            word: self.word@,
            definitions: self.definitions@,
        }
    }
}

impl Clone for Translation {
    /// A copy that has the same view.
    fn clone(&self) -> (r: Self)
        ensures
            r@ == self@,
    {
        Translation {
            word: self.word.clone(),
            definitions: self.definitions.clone(),
        }
    }
}

impl Duplicate for Translation {
    fn duplicate(&self) -> (r: Self) {
        self.clone()
    }
}

impl Translation {
    /// Copies a list.
    pub fn clone_list(v: &Vec<Translation>) -> (r: Vec<Translation>)
        ensures
            views(r@) == views(v@),
    {
        clone_items(v)
    }
}

} // verus!
