use crate::data::{
    clone_code, lemma_filter_next, lemma_filter_none, opt_text, views, EnglishWordInfo,
    EnglishWordInfoView, Form, FormView, Inflection, InflectionView, Language,
    LatinTranslationInfo, LatinTranslationInfoView, LatinWordInfo, LatinWordInfoView, LongForm,
    LongFormView, NValueView, Stem, StemView, Translation, TranslationType, TranslationTypeView,
    TranslationView, UniqueLatinWordInfo, UniqueLatinWordInfoView, Word, WordInfo, WordInfoView,
    WordView,
};
use crate::key_translator::{
    lemma_declension_label_nonempty, lemma_mood_label_nonempty, lemma_tense_label_nonempty,
    age_label, area_label, declension_label, frequency_label, gender_label, mood_label,
    noun_label, number_label, part_of_speech_label, pronoun_label, source_label, tense_label,
    translate_age, translate_area, translate_declension, translate_frequency, translate_gender,
    translate_mood, translate_noun, translate_number, translate_part_of_speech,
    translate_pronoun, translate_source, translate_tense, translate_verb, translate_voice,
    verb_label, voice_label,
};
use crate::numbers::{parse_small_number, small_number};
use crate::principle_part_generator::{
    can_generate_for_nouns, can_generate_for_verbs, generable, generate_for_nouns,
    generate_for_verbs, generated, noun_template, number_at, verb_template,
};
use crate::text::{same_text, split_words, texts, trim_text, trimmed, words};
use vstd::prelude::*;
use vstd::string::*;

verus! {

/// The expanded form in which no category has a label.
pub open spec fn blank_form() -> LongFormView {
    LongFormView {
        declension: None,
        number: None,
        gender: None,
        tense: None,
        voice: None,
        mood: None,
        verb: None,
        kind: None,
        person: None,
    }
}

/// A label, or the empty label where there is none.
pub open spec fn or_blank(label: Option<Seq<char>>) -> Option<Seq<char>> {
    match label {
        Some(l) => Some(l),
        None => Some(Seq::empty()),
    }
}

/// An expanded form with every category present: the empty label, and
/// person 0, stand where the form had nothing.
pub open spec fn filled_form(f: LongFormView) -> LongFormView {
    LongFormView {
        declension: or_blank(f.declension),
        number: or_blank(f.number),
        gender: or_blank(f.gender),
        tense: or_blank(f.tense),
        voice: or_blank(f.voice),
        mood: or_blank(f.mood),
        verb: or_blank(f.verb),
        kind: or_blank(f.kind),
        person: match f.person {
            Some(p) => Some(p),
            None => Some(0i8),
        },
    }
}

/// An expanded form as it is returned: as it stands in clean mode, filled
/// otherwise.
pub open spec fn finished_form(f: LongFormView, clean: bool) -> LongFormView {
    if clean {
        f
    } else {
        filled_form(f)
    }
}

/// What the coded form of a lemma or a stem says, for the part of speech
/// with the label `pos`. Nothing is read of an unknown part of speech; a
/// numeral is of the kind "numeral"; a code of fewer than three slots only
/// names a part of speech. Otherwise the third slot is the gender of a noun,
/// the kind of a verb or participle, or the kind of a pronoun, and the
/// fourth slot of a noun's code is the kind of noun.
pub open spec fn decoded_lemma_form(slots: Seq<Seq<char>>, pos: Seq<char>) -> LongFormView {
    if pos == "unknown"@ {
        blank_form()
    } else if pos == "numeral"@ {
        LongFormView { kind: Some("numeral"@), ..blank_form() }
    } else if slots.len() < 3 {
        LongFormView { kind: Some("part of speech"@), ..blank_form() }
    } else if pos == "noun"@ {
        LongFormView {
            gender: Some(gender_label(slots[2])),
            kind: if slots.len() > 3 {
                Some(noun_label(slots[3]))
            } else {
                None
            },
            ..blank_form()
        }
    } else if pos == "verb"@ || pos == "participle"@ {
        LongFormView { verb: Some(verb_label(slots[2])), ..blank_form() }
    } else if pos == "pronoun"@ || pos == "packon"@ {
        LongFormView { voice: Some(pronoun_label(slots[2])), ..blank_form() }
    } else {
        blank_form()
    }
}

/// The expansion of the coded form of a lemma or a stem whose part of speech
/// has the label `pos`. In verbose mode every category is present, whatever
/// the part of speech and the code.
pub open spec fn lemma_form(form: Seq<char>, pos: Seq<char>, clean: bool) -> LongFormView {
    finished_form(decoded_lemma_form(words(form), pos), clean)
}

/// The person that a slot of a verb's code names; 0 where the slot holds no
/// small number.
pub open spec fn person_of(slot: Seq<char>) -> i8 {
    match small_number(slot) {
        Some(v) => v as i8,
        None => 0i8,
    }
}

/// The three-slot layout of nouns, pronouns, adjectives and numerals: case,
/// number and gender.
pub open spec fn nominal_form(slots: Seq<Seq<char>>) -> LongFormView {
    LongFormView {
        declension: Some(declension_label(slots[0])),
        number: Some(number_label(slots[1])),
        gender: Some(gender_label(slots[2])),
        ..blank_form()
    }
}

/// The five-slot layout of verbs: tense, voice, mood, person and number.
pub open spec fn verbal_form(slots: Seq<Seq<char>>) -> LongFormView {
    LongFormView {
        tense: Some(tense_label(slots[0])),
        voice: Some(voice_label(slots[1])),
        mood: Some(mood_label(slots[2])),
        person: Some(person_of(slots[3])),
        number: Some(number_label(slots[4])),
        ..blank_form()
    }
}

/// The five-slot layout of participles: case, number, gender, tense and
/// voice.
pub open spec fn participial_form(slots: Seq<Seq<char>>) -> LongFormView {
    LongFormView {
        declension: Some(declension_label(slots[0])),
        number: Some(number_label(slots[1])),
        gender: Some(gender_label(slots[2])),
        tense: Some(tense_label(slots[3])),
        voice: Some(voice_label(slots[4])),
        ..blank_form()
    }
}

/// Whether a part of speech, by its label, takes the three-slot layout.
pub open spec fn is_nominal(pos: Seq<char>) -> bool {
    pos == "noun"@ || pos == "pronoun"@ || pos == "adjective"@ || pos == "numeral"@
}

/// The slots of the coded form of an inflection, decoded by the layout of
/// its part of speech. A code with another number of slots than its layout
/// has decodes to the blank form.
pub open spec fn decoded_form(slots: Seq<Seq<char>>, pos: Seq<char>) -> LongFormView {
    if is_nominal(pos) {
        if slots.len() == 3 {
            nominal_form(slots)
        } else {
            blank_form()
        }
    } else if pos == "verb"@ {
        if slots.len() == 5 {
            verbal_form(slots)
        } else {
            blank_form()
        }
    } else if pos == "participle"@ {
        if slots.len() == 5 {
            participial_form(slots)
        } else {
            blank_form()
        }
    } else {
        blank_form()
    }
}

/// The expansion of the coded form of an inflection whose part of speech has
/// the label `pos`.
pub open spec fn inflection_form(form: Seq<char>, pos: Seq<char>, clean: bool) -> LongFormView {
    finished_form(decoded_form(words(form), pos), clean)
}

impl LongForm {
    /// The expanded form in which no category has a label.
    pub fn new() -> (r: LongForm)
        ensures
            r@ == blank_form(),
    {
        LongForm {
            declension: None,
            number: None,
            gender: None,
            tense: None,
            voice: None,
            mood: None,
            verb: None,
            kind: None,
            person: None,
        }
    }
}

/// A label as an owned string.
fn label(text: &str) -> (r: Option<String>)
    ensures
        opt_text(r) == Some(text@),
{
    Some(String::from_str(text))
}

/// Puts the empty label where there is none.
fn fill_label(label: Option<String>) -> (r: Option<String>)
    ensures
        opt_text(r) == or_blank(opt_text(label)),
{
    match label {
        Some(l) => Some(l),
        None => Some(String::new()),
    }
}

/// Gives every category of an expanded form a value.
pub fn fill_in_form_blank(clean_form: LongForm) -> (r: LongForm)
    ensures
        r@ == filled_form(clean_form@),
{
    LongForm {
        declension: fill_label(clean_form.declension),
        number: fill_label(clean_form.number),
        gender: fill_label(clean_form.gender),
        tense: fill_label(clean_form.tense),
        voice: fill_label(clean_form.voice),
        mood: fill_label(clean_form.mood),
        verb: fill_label(clean_form.verb),
        kind: fill_label(clean_form.kind),
        person: match clean_form.person {
            Some(p) => Some(p),
            None => Some(0),
        },
    }
}

/// Expands the coded form of a lemma or a stem.
pub fn translate_latin_word_info_form(form: String, pos: String, clean: bool) -> (r: LongForm)
    ensures
        r@ == lemma_form(form@, pos@, clean),
{
    let form_array = split_words(form.as_str());
    let mut clean_form: LongForm = LongForm::new();
    if same_text(pos.as_str(), "unknown") {
        // nothing is read of an unknown part of speech
    } else if same_text(pos.as_str(), "numeral") {
        clean_form.kind = label("numeral");
    } else if form_array.len() < 3 {
        clean_form.kind = label("part of speech");
    } else {
        let word_type: &String = &form_array[2];
        assert(texts(form_array@)[2] == word_type@);
        if same_text(pos.as_str(), "noun") {
            clean_form.gender = label(translate_gender(word_type.as_str()));
            if form_array.len() > 3 {
                assert(texts(form_array@)[3] == form_array@[3]@);
                clean_form.kind = label(translate_noun(form_array[3].as_str()));
            }
        } else if same_text(pos.as_str(), "verb") || same_text(pos.as_str(), "participle") {
            clean_form.verb = label(translate_verb(word_type.as_str()));
        } else if same_text(pos.as_str(), "pronoun") || same_text(pos.as_str(), "packon") {
            clean_form.voice = label(translate_pronoun(word_type.as_str()));
        }
    }
    if !clean {
        clean_form = fill_in_form_blank(clean_form);
    }
    clean_form
}

/// Expands the coded form of an inflection.
pub fn format_form(form: String, pos: String, clean: bool) -> (r: LongForm)
    ensures
        r@ == inflection_form(form@, pos@, clean),
{
    let mut clean_form = LongForm::new();
    let form_array = split_words(form.as_str());
    proof {
        assert forall|i: int| 0 <= i < form_array@.len() implies texts(form_array@)[i]
            == form_array@[i]@ by {}
    }
    if same_text(pos.as_str(), "noun") || same_text(pos.as_str(), "pronoun") || same_text(
        pos.as_str(),
        "adjective",
    ) || same_text(pos.as_str(), "numeral") {
        if form_array.len() == 3 {
            clean_form.declension = label(translate_declension(form_array[0].as_str()));
            clean_form.number = label(translate_number(form_array[1].as_str()));
            clean_form.gender = label(translate_gender(form_array[2].as_str()));
        }
    } else if same_text(pos.as_str(), "verb") {
        if form_array.len() == 5 {
            clean_form.tense = label(translate_tense(form_array[0].as_str()));
            clean_form.voice = label(translate_voice(form_array[1].as_str()));
            clean_form.mood = label(translate_mood(form_array[2].as_str()));
            clean_form.person =
            match parse_small_number(form_array[3].as_str()) {
                Some(p) => Some(p),
                None => Some(0),
            };
            clean_form.number = label(translate_number(form_array[4].as_str()));
        }
    } else if same_text(pos.as_str(), "participle") {
        if form_array.len() == 5 {
            clean_form.declension = label(translate_declension(form_array[0].as_str()));
            clean_form.number = label(translate_number(form_array[1].as_str()));
            clean_form.gender = label(translate_gender(form_array[2].as_str()));
            clean_form.tense = label(translate_tense(form_array[3].as_str()));
            clean_form.voice = label(translate_voice(form_array[4].as_str()));
        }
    }
    if !clean {
        clean_form = fill_in_form_blank(clean_form);
    }
    clean_form
}

/// The metadata of a lemma with each code replaced by its label. The region
/// is read from the table of subject areas.
pub open spec fn formatted_info(info: WordInfoView) -> WordInfoView {
    WordInfoView {
        age: age_label(info.age),
        area: area_label(info.area),
        geo: area_label(info.geo),
        freq: frequency_label(info.freq),
        source: source_label(info.source),
    }
}

/// The expansion of a lemma's or stem's form. A form that is expanded
/// already stays as it is.
pub open spec fn expanded_lemma_form(form: FormView, pos: Seq<char>, clean: bool) -> FormView {
    match form {
        FormView::StrForm(code) => FormView::LongForm(lemma_form(code, pos, clean)),
        FormView::LongForm(long) => FormView::LongForm(long),
    }
}

/// The expansion of an inflection's form. A form that is expanded already
/// stays as it is.
pub open spec fn expanded_inflection_form(form: FormView, pos: Seq<char>, clean: bool) -> FormView {
    match form {
        FormView::StrForm(code) => FormView::LongForm(inflection_form(code, pos, clean)),
        FormView::LongForm(long) => FormView::LongForm(long),
    }
}

/// A stem with its part of speech labelled and its form expanded.
pub open spec fn formatted_stem(stem: StemView, clean: bool) -> StemView {
    StemView {
        pos: part_of_speech_label(stem.pos),
        form: expanded_lemma_form(stem.form, part_of_speech_label(stem.pos), clean),
        ..stem
    }
}

/// The citation forms of a lemma whose part of speech has the label `pos`.
/// A noun is rendered without regard to gender, a verb or participle by the
/// verb tables; any other part of speech keeps its roots, and so does a
/// lemma whose roots its template cannot render.
pub open spec fn citation_parts(
    pos: Seq<char>,
    n: Seq<NValueView>,
    parts: Seq<Seq<char>>,
) -> Seq<Seq<char>> {
    if pos == "noun"@ {
        let template = noun_template(number_at(n, 0), number_at(n, 1), Seq::empty());
        if generable(parts, template) {
            generated(parts, template)
        } else {
            parts
        }
    } else if pos == "verb"@ || pos == "participle"@ {
        let template = verb_template(number_at(n, 0), number_at(n, 1));
        if generable(parts, template) {
            generated(parts, template)
        } else {
            parts
        }
    } else {
        parts
    }
}

/// A lemma made ready for display: codes labelled, form expanded, roots
/// replaced by citation forms, and the first of these as its spelling.
pub open spec fn formatted_lemma(word: LatinWordInfoView, clean: bool) -> LatinWordInfoView {
    let pos = part_of_speech_label(word.pos);
    let parts = citation_parts(pos, word.n, word.parts);
    LatinWordInfoView {
        pos: pos,
        info: formatted_info(word.info),
        form: expanded_lemma_form(word.form, pos, clean),
        parts: parts,
        orth: if parts.len() > 0 {
            parts[0]
        } else {
            word.orth
        },
        ..word
    }
}

/// An irregular word made ready for display.
pub open spec fn formatted_unique(
    word: UniqueLatinWordInfoView,
    clean: bool,
) -> UniqueLatinWordInfoView {
    let pos = part_of_speech_label(word.pos);
    UniqueLatinWordInfoView {
        pos: pos,
        info: formatted_info(word.info),
        form: expanded_lemma_form(word.form, pos, clean),
        ..word
    }
}

/// An English headword made ready for display.
pub open spec fn formatted_english(word: EnglishWordInfoView, clean: bool) -> EnglishWordInfoView {
    EnglishWordInfoView {
        pos: part_of_speech_label(word.pos),
        frequency_type: frequency_label(word.frequency_type),
        latin_entry: match word.latin_entry {
            Some(entry) => Some(formatted_lemma(entry, clean)),
            None => None,
        },
        ..word
    }
}

/// Expands a form of a lemma or stem.
fn expand_lemma_form(form: Form, pos: &String, clean: bool) -> (r: Form)
    ensures
        r@ == expanded_lemma_form(form@, pos@, clean),
{
    match form {
        Form::StrForm(code) => Form::LongForm(
            translate_latin_word_info_form(code, pos.clone(), clean),
        ),
        Form::LongForm(long) => Form::LongForm(long),
    }
}

/// Replaces the codes of a lemma's metadata by their labels.
pub fn format_word_info(word_info: WordInfo) -> (r: WordInfo)
    ensures
        r@ == formatted_info(word_info@),
{
    WordInfo {
        age: String::from_str(translate_age(word_info.age.as_str())),
        area: String::from_str(translate_area(word_info.area.as_str())),
        geo: String::from_str(translate_area(word_info.geo.as_str())),
        freq: String::from_str(translate_frequency(word_info.freq.as_str())),
        source: String::from_str(translate_source(word_info.source.as_str())),
    }
}

/// Makes a stem ready for display.
pub fn format_latin_stem(latin_stem: Stem, clean: bool) -> (r: Stem)
    ensures
        r@ == formatted_stem(latin_stem@, clean),
{
    let pos = String::from_str(translate_part_of_speech(latin_stem.pos.as_str()));
    let form = expand_lemma_form(latin_stem.form, &pos, clean);
    Stem { pos: pos, form: form, orth: latin_stem.orth, n: latin_stem.n, wid: latin_stem.wid }
}

/// Makes a lemma ready for display.
pub fn format_latin_word_info(latin_word_info: LatinWordInfo, clean: bool) -> (r: LatinWordInfo)
    ensures
        r@ == formatted_lemma(latin_word_info@, clean),
{
    let pos = String::from_str(translate_part_of_speech(latin_word_info.pos.as_str()));
    let info = format_word_info(latin_word_info.info);
    let form = expand_lemma_form(latin_word_info.form, &pos, clean);
    let n = latin_word_info.n;
    let mut parts = latin_word_info.parts;
    if same_text(pos.as_str(), "noun") {
        proof {
            reveal_strlit("");
            assert(""@ =~= Seq::<char>::empty());
        }
        if can_generate_for_nouns(&n, "", &parts) {
            parts = generate_for_nouns(clone_code(&n), String::new(), parts);
        }
    } else if same_text(pos.as_str(), "verb") || same_text(pos.as_str(), "participle") {
        if can_generate_for_verbs(&n, &parts) {
            parts = generate_for_verbs(clone_code(&n), parts);
        }
    }
    let orth = if parts.len() > 0 {
        assert(texts(parts@)[0] == parts@[0]@);
        parts[0].clone()
    } else {
        latin_word_info.orth
    };
    LatinWordInfo {
        pos: pos,
        n: n,
        parts: parts,
        senses: latin_word_info.senses,
        form: form,
        orth: orth,
        info: info,
        id: latin_word_info.id,
    }
}

/// Makes an irregular word ready for display.
pub fn format_unique_latin_word_info(
    unique_latin_word_info: UniqueLatinWordInfo,
    clean: bool,
) -> (r: UniqueLatinWordInfo)
    ensures
        r@ == formatted_unique(unique_latin_word_info@, clean),
{
    let pos = String::from_str(translate_part_of_speech(unique_latin_word_info.pos.as_str()));
    let info = format_word_info(unique_latin_word_info.info);
    let form = expand_lemma_form(unique_latin_word_info.form, &pos, clean);
    UniqueLatinWordInfo {
        orth: unique_latin_word_info.orth,
        senses: unique_latin_word_info.senses,
        pos: pos,
        form: form,
        n: unique_latin_word_info.n,
        info: info,
    }
}

/// Makes an English headword ready for display.
pub fn format_english_word(english_word: EnglishWordInfo, clean: bool) -> (r: EnglishWordInfo)
    ensures
        r@ == formatted_english(english_word@, clean),
{
    let pos = String::from_str(translate_part_of_speech(english_word.pos.as_str()));
    let frequency_type = String::from_str(
        translate_frequency(english_word.frequency_type.as_str()),
    );
    let latin_entry = match english_word.latin_entry {
        Some(latin_word_info) => Some(format_latin_word_info(latin_word_info, clean)),
        None => None,
    };
    EnglishWordInfo {
        orth: english_word.orth,
        wid: english_word.wid,
        pos: pos,
        frequency_type: frequency_type,
        true_frequency: english_word.true_frequency,
        frequency: english_word.frequency,
        compound: english_word.compound,
        semi: english_word.semi,
        latin_entry: latin_entry,
    }
}

/// Whether an inflection has an ending of at least one character.
pub open spec fn has_ending() -> spec_fn(InflectionView) -> bool {
    |inflection: InflectionView| inflection.ending.len() != 0
}

/// Whether an inflection belongs to the part of speech `pos`.
pub open spec fn has_pos(pos: Seq<char>) -> spec_fn(InflectionView) -> bool {
    |inflection: InflectionView| inflection.pos == pos
}

/// Whether the expanded form of an inflection says something of its gender
/// other than that it is unknown.
pub open spec fn is_definite() -> spec_fn(InflectionView) -> bool {
    |inflection: InflectionView|
        match inflection.form {
            FormView::LongForm(long) => long.gender != Some("unknown"@),
            FormView::StrForm(_) => true,
        }
}

/// A note as it is shown in clean mode: an empty note is dropped.
pub open spec fn clean_note(note: Option<Seq<char>>) -> Option<Seq<char>> {
    match note {
        Some(text) => if text.len() == 0 {
            None
        } else {
            Some(text)
        },
        None => None,
    }
}

/// An inflection made ready for display: part of speech labelled, ending
/// trimmed, form expanded and, in clean mode, an empty note dropped.
pub open spec fn formatted_inflection(inflection: InflectionView, clean: bool) -> InflectionView {
    let pos = part_of_speech_label(inflection.pos);
    InflectionView {
        pos: pos,
        ending: trimmed(inflection.ending),
        form: expanded_inflection_form(inflection.form, pos, clean),
        note: if clean {
            clean_note(inflection.note)
        } else {
            inflection.note
        },
        ..inflection
    }
}

/// Each inflection of a list made ready for display.
pub open spec fn each_formatted(inflections: Seq<InflectionView>, clean: bool) -> Seq<
    InflectionView,
> {
    Seq::new(inflections.len(), |i: int| formatted_inflection(inflections[i], clean))
}

/// The inflections of an analysis made ready for display, in their order:
/// those without an ending are left out first; of the formatted ones, those
/// whose part of speech is not `pos`; and in clean mode those of unknown
/// gender.
pub open spec fn formatted_inflections(
    inflections: Seq<InflectionView>,
    pos: Seq<char>,
    clean: bool,
) -> Seq<InflectionView> {
    let matching = each_formatted(inflections.filter(has_ending()), clean).filter(has_pos(pos));
    if clean {
        matching.filter(is_definite())
    } else {
        matching
    }
}

/// Leaves out the inflections that have no ending.
pub fn remove_inflections_without_endings(inflections: Vec<Inflection>) -> (r: Vec<Inflection>)
    ensures
        views(r@) == views(inflections@).filter(has_ending()),
{
    let mut clean_inflections: Vec<Inflection> = Vec::new();
    let mut i: usize = 0;
    proof {
        lemma_filter_none(views(inflections@), has_ending());
        assert(views(clean_inflections@) =~= Seq::<InflectionView>::empty());
    }
    while i < inflections.len()
        invariant
            i <= inflections.len(),
            views(clean_inflections@) == views(inflections@).take(i as int).filter(has_ending()),
        decreases inflections.len() - i,
    {
        let inflection = &inflections[i];
        proof {
            lemma_filter_next(views(inflections@), has_ending(), i as int);
            assert(views(inflections@)[i as int] == inflection@);
        }
        if !inflection.ending.as_str().is_empty() {
            let ghost before = views(clean_inflections@);
            clean_inflections.push(inflection.clone());
            assert(views(clean_inflections@) =~= before.push(inflection@));
        }
        i += 1;
    }
    assert(views(inflections@).take(inflections@.len() as int) =~= views(inflections@));
    clean_inflections
}

/// Leaves out the inflections whose part of speech is not `pos`. The
/// dictionary lists some endings under a part of speech that the stem they
/// were found with does not have.
pub fn remove_inflections_with_wrong_pos(inflections: Vec<Inflection>, pos: String) -> (r: Vec<
    Inflection,
>)
    ensures
        views(r@) == views(inflections@).filter(has_pos(pos@)),
{
    let mut clean_inflections: Vec<Inflection> = Vec::new();
    let mut i: usize = 0;
    proof {
        lemma_filter_none(views(inflections@), has_pos(pos@));
        assert(views(clean_inflections@) =~= Seq::<InflectionView>::empty());
    }
    while i < inflections.len()
        invariant
            i <= inflections.len(),
            views(clean_inflections@) == views(inflections@).take(i as int).filter(
                has_pos(pos@),
            ),
        decreases inflections.len() - i,
    {
        let inflection = &inflections[i];
        proof {
            lemma_filter_next(views(inflections@), has_pos(pos@), i as int);
            assert(views(inflections@)[i as int] == inflection@);
        }
        if same_text(inflection.pos.as_str(), pos.as_str()) {
            let ghost before = views(clean_inflections@);
            clean_inflections.push(inflection.clone());
            assert(views(clean_inflections@) =~= before.push(inflection@));
        }
        i += 1;
    }
    assert(views(inflections@).take(inflections@.len() as int) =~= views(inflections@));
    clean_inflections
}

/// Tests whether an inflection's form leaves its gender unknown.
fn is_vague(inflection: &Inflection) -> (r: bool)
    ensures
        r == !is_definite()(inflection@),
{
    match &inflection.form {
        Form::LongForm(long) => match &long.gender {
            Some(gender) => same_text(gender.as_str(), "unknown"),
            None => false,
        },
        Form::StrForm(_) => false,
    }
}

/// Leaves out the inflections whose gender is unknown.
pub fn remove_vague_inflections(inflections: Vec<Inflection>) -> (r: Vec<Inflection>)
    ensures
        views(r@) == views(inflections@).filter(is_definite()),
{
    let mut clean_inflections: Vec<Inflection> = Vec::new();
    let mut i: usize = 0;
    proof {
        lemma_filter_none(views(inflections@), is_definite());
        assert(views(clean_inflections@) =~= Seq::<InflectionView>::empty());
    }
    while i < inflections.len()
        invariant
            i <= inflections.len(),
            views(clean_inflections@) == views(inflections@).take(i as int).filter(
                is_definite(),
            ),
        decreases inflections.len() - i,
    {
        let inflection = &inflections[i];
        proof {
            lemma_filter_next(views(inflections@), is_definite(), i as int);
            assert(views(inflections@)[i as int] == inflection@);
        }
        if !is_vague(inflection) {
            let ghost before = views(clean_inflections@);
            clean_inflections.push(inflection.clone());
            assert(views(clean_inflections@) =~= before.push(inflection@));
        }
        i += 1;
    }
    assert(views(inflections@).take(inflections@.len() as int) =~= views(inflections@));
    clean_inflections
}

/// Expands a form of an inflection.
fn expand_inflection_form(form: Form, pos: &String, clean: bool) -> (r: Form)
    ensures
        r@ == expanded_inflection_form(form@, pos@, clean),
{
    match form {
        Form::StrForm(code) => Form::LongForm(format_form(code, pos.clone(), clean)),
        Form::LongForm(long) => Form::LongForm(long),
    }
}

/// Drops an empty note.
fn drop_empty_note(note: Option<String>) -> (r: Option<String>)
    ensures
        opt_text(r) == clean_note(opt_text(note)),
{
    match note {
        Some(text) => if text.as_str().is_empty() {
            None
        } else {
            Some(text)
        },
        None => None,
    }
}

/// Makes one inflection ready for display.
fn format_inflection(inflection: Inflection, clean: bool) -> (r: Inflection)
    ensures
        r@ == formatted_inflection(inflection@, clean),
{
    let pos = String::from_str(translate_part_of_speech(inflection.pos.as_str()));
    let ending = trim_text(inflection.ending.as_str());
    let form = expand_inflection_form(inflection.form, &pos, clean);
    let note = if clean {
        drop_empty_note(inflection.note)
    } else {
        inflection.note
    };
    Inflection { ending: ending, pos: pos, note: note, n: inflection.n, form: form }
}

/// Makes the inflections of an analysis ready for display.
pub fn format_latin_inflections(inflections: Vec<Inflection>, pos: String, clean: bool) -> (r: Vec<
    Inflection,
>)
    ensures
        views(r@) == formatted_inflections(views(inflections@), pos@, clean),
{
    let mut clean_inflections: Vec<Inflection> = Vec::new();
    let cleaned_inflections = remove_inflections_without_endings(inflections);
    let mut i: usize = 0;
    while i < cleaned_inflections.len()
        invariant
            i <= cleaned_inflections.len(),
            clean_inflections@.len() == i,
            forall|j: int|
                0 <= j < i ==> (#[trigger] clean_inflections@[j])@ == formatted_inflection(
                    cleaned_inflections@[j]@,
                    clean,
                ),
        decreases cleaned_inflections.len() - i,
    {
        clean_inflections.push(format_inflection(cleaned_inflections[i].clone(), clean));
        i += 1;
    }
    assert(views(clean_inflections@) =~= each_formatted(views(cleaned_inflections@), clean));
    clean_inflections = remove_inflections_with_wrong_pos(clean_inflections, pos);
    if clean {
        clean_inflections = remove_vague_inflections(clean_inflections);
    }
    clean_inflections
}

/// What an analysis found, made ready for display.
pub open spec fn formatted_word(word: WordView, clean: bool) -> WordView {
    match word {
        WordView::LatinWordInfo(lemma) => WordView::LatinWordInfo(formatted_lemma(lemma, clean)),
        WordView::UniqueLatinWordInfo(unique) => WordView::UniqueLatinWordInfo(
            formatted_unique(unique, clean),
        ),
    }
}

/// An analysis made ready for display. Its inflections are held to the part
/// of speech of its stem.
pub open spec fn formatted_analysis(
    analysis: LatinTranslationInfoView,
    clean: bool,
) -> LatinTranslationInfoView {
    let stem = formatted_stem(analysis.stem, clean);
    LatinTranslationInfoView {
        word: formatted_word(analysis.word, clean),
        stem: stem,
        inflections: formatted_inflections(analysis.inflections, stem.pos, clean),
        addons: analysis.addons,
    }
}

/// The analyses of one word made ready for display.
pub open spec fn formatted_definitions(
    definitions: TranslationTypeView,
    clean: bool,
) -> TranslationTypeView {
    match definitions {
        TranslationTypeView::Latin(info) => TranslationTypeView::Latin(
            Seq::new(info.len(), |i: int| formatted_analysis(info[i], clean)),
        ),
        TranslationTypeView::English(info) => TranslationTypeView::English(
            Seq::new(info.len(), |i: int| formatted_english(info[i], clean)),
        ),
    }
}

/// The translations of a text made ready for display, word by word.
pub open spec fn formatted_output(translations: Seq<TranslationView>, clean: bool) -> Seq<
    TranslationView,
> {
    Seq::new(
        translations.len(),
        |i: int|
            TranslationView {
                word: translations[i].word,
                definitions: formatted_definitions(translations[i].definitions, clean),
            },
    )
}

/// Whether analyses are those of a word of the given language.
pub open spec fn in_language(definitions: TranslationTypeView, language: Language) -> bool {
    match definitions {
        TranslationTypeView::Latin(_) => language == Language::Latin,
        TranslationTypeView::English(_) => language == Language::English,
    }
}

/// Whether every translation of a list is of a word of the given language.
pub open spec fn all_in_language(translations: Seq<TranslationView>, language: Language) -> bool {
    forall|i: int|
        0 <= i < translations.len() ==> in_language(
            (#[trigger] translations[i]).definitions,
            language,
        )
}

/// Tests whether every translation of a list is of a word of the given
/// language.
pub fn is_in_language(translation_output: &Vec<Translation>, language: Language) -> (r: bool)
    ensures
        r == all_in_language(views(translation_output@), language),
{
    let mut i: usize = 0;
    while i < translation_output.len()
        invariant
            i <= translation_output.len(),
            forall|j: int|
                0 <= j < i ==> in_language(
                    (#[trigger] views(translation_output@)[j]).definitions,
                    language,
                ),
        decreases translation_output.len() - i,
    {
        let fits = match &translation_output[i].definitions {
            TranslationType::Latin(_) => language == Language::Latin,
            TranslationType::English(_) => language == Language::English,
        };
        if !fits {
            assert(!in_language(views(translation_output@)[i as int].definitions, language));
            return false;
        }
        i += 1;
    }
    true
}

/// Makes one analysis of a Latin word ready for display.
fn format_analysis(analysis: LatinTranslationInfo, clean: bool) -> (r: LatinTranslationInfo)
    ensures
        r@ == formatted_analysis(analysis@, clean),
{
    let word = match analysis.word {
        Word::LatinWordInfo(latin_word_info) => Word::LatinWordInfo(
            format_latin_word_info(latin_word_info, clean),
        ),
        Word::UniqueLatinWordInfo(unique_latin_word_info) => Word::UniqueLatinWordInfo(
            format_unique_latin_word_info(unique_latin_word_info, clean),
        ),
    };
    let stem = format_latin_stem(analysis.stem, clean);
    let pos = stem.pos.clone();
    let inflections = format_latin_inflections(analysis.inflections, pos, clean);
    LatinTranslationInfo {
        word: word,
        stem: stem,
        inflections: inflections,
        addons: analysis.addons,
    }
}

/// Makes the analyses of one word ready for display.
fn format_definitions(definitions: &TranslationType, clean: bool) -> (r: TranslationType)
    ensures
        r@ == formatted_definitions(definitions@, clean),
{
    match definitions {
        TranslationType::English(info) => {
            let mut out: Vec<EnglishWordInfo> = Vec::new();
            let mut i: usize = 0;
            while i < info.len()
                invariant
                    i <= info.len(),
                    out@.len() == i,
                    forall|j: int|
                        0 <= j < i ==> (#[trigger] out@[j])@ == formatted_english(
                            info@[j]@,
                            clean,
                        ),
                decreases info.len() - i,
            {
                out.push(format_english_word(info[i].clone(), clean));
                i += 1;
            }
            assert(views(out@) =~= Seq::new(
                views(info@).len(),
                |i: int| formatted_english(views(info@)[i], clean),
            ));
            TranslationType::English(out)
        },
        TranslationType::Latin(info) => {
            let mut out: Vec<LatinTranslationInfo> = Vec::new();
            let mut i: usize = 0;
            while i < info.len()
                invariant
                    i <= info.len(),
                    out@.len() == i,
                    forall|j: int|
                        0 <= j < i ==> (#[trigger] out@[j])@ == formatted_analysis(
                            info@[j]@,
                            clean,
                        ),
                decreases info.len() - i,
            {
                out.push(format_analysis(info[i].clone(), clean));
                i += 1;
            }
            assert(views(out@) =~= Seq::new(
                views(info@).len(),
                |i: int| formatted_analysis(views(info@)[i], clean),
            ));
            TranslationType::Latin(out)
        },
    }
}

/// Makes the translations of a text ready for display. Each translation
/// must hold analyses of a word of the language named.
pub fn format_output(translation_output: Vec<Translation>, language: Language, clean: bool) -> (r:
    Vec<Translation>)
    requires
        all_in_language(views(translation_output@), language),
    ensures
        views(r@) == formatted_output(views(translation_output@), clean),
{
    let mut out: Vec<Translation> = Vec::new();
    let mut i: usize = 0;
    while i < translation_output.len()
        invariant
            i <= translation_output.len(),
            out@.len() == i,
            forall|j: int|
                0 <= j < i ==> (#[trigger] out@[j])@ == (TranslationView {
                    word: translation_output@[j]@.word,
                    definitions: formatted_definitions(translation_output@[j]@.definitions, clean),
                }),
        decreases translation_output.len() - i,
    {
        let translation = &translation_output[i];
        out.push(
            Translation {
                word: translation.word.clone(),
                definitions: format_definitions(&translation.definitions, clean),
            },
        );
        i += 1;
    }
    assert(views(out@) =~= formatted_output(views(translation_output@), clean));
    out
}

/// The layouts of the coded form of an inflection.
pub ghost enum Layout {
    /// Case, number and gender.
    Nominal,
    /// Tense, voice, mood, person and number.
    Verbal,
    /// Case, number, gender, tense and voice.
    Participial,
    /// No slot is read.
    Blank,
}

/// The layout by which a code of `slots` slots is decoded for the part of
/// speech with the label `pos`.
pub open spec fn layout_of(pos: Seq<char>, slots: nat) -> Layout {
    if is_nominal(pos) {
        if slots == 3 {
            Layout::Nominal
        } else {
            Layout::Blank
        }
    } else if pos == "verb"@ {
        if slots == 5 {
            Layout::Verbal
        } else {
            Layout::Blank
        }
    } else if pos == "participle"@ {
        if slots == 5 {
            Layout::Participial
        } else {
            Layout::Blank
        }
    } else {
        Layout::Blank
    }
}

/// Whether a category of an expanded form holds a label of at least one
/// character.
pub open spec fn is_set(label: Option<Seq<char>>) -> bool {
    match label {
        Some(l) => l.len() > 0,
        None => false,
    }
}

/// The layout that an expanded form shows by the categories that are set in
/// it: a mood belongs to verbs alone, a case with a tense to participles, a
/// case without one to the nominal layout.
pub open spec fn layout_shown(form: LongFormView) -> Layout {
    if is_set(form.mood) {
        Layout::Verbal
    } else if is_set(form.declension) && is_set(form.tense) {
        Layout::Participial
    } else if is_set(form.declension) {
        Layout::Nominal
    } else {
        Layout::Blank
    }
}

/// The verbose expansion of a coded form shows the layout by which the code
/// was decoded: the categories that are set in it are those of the layout of
/// its part of speech and slot count.
pub proof fn lemma_expansion_shows_layout(form: Seq<char>, pos: Seq<char>)
    ensures
        layout_shown(inflection_form(form, pos, false)) == layout_of(pos, words(form).len()),
{
    let slots = words(form);
    if slots.len() >= 3 {
        lemma_declension_label_nonempty(slots[0]);
        lemma_mood_label_nonempty(slots[2]);
    }
    if slots.len() >= 4 {
        lemma_tense_label_nonempty(slots[3]);
    }
}

/// Whether every category of an expanded form is present.
pub open spec fn is_complete(form: LongFormView) -> bool {
    &&& form.declension.is_some()
    &&& form.number.is_some()
    &&& form.gender.is_some()
    &&& form.tense.is_some()
    &&& form.voice.is_some()
    &&& form.mood.is_some()
    &&& form.verb.is_some()
    &&& form.kind.is_some()
    &&& form.person.is_some()
}

/// In verbose mode an expansion leaves no category absent, whatever the
/// code and the part of speech; and it differs from the clean expansion
/// only where that has nothing.
pub proof fn lemma_verbose_form_is_complete(form: Seq<char>, pos: Seq<char>)
    ensures
        is_complete(lemma_form(form, pos, false)),
        is_complete(inflection_form(form, pos, false)),
        lemma_form(form, pos, false) == filled_form(lemma_form(form, pos, true)),
        inflection_form(form, pos, false) == filled_form(inflection_form(form, pos, true)),
{
}

/// Expansion is idempotent: a form that was expanded is left as it is by
/// another expansion, whatever the part of speech and the mode.
pub proof fn lemma_expansion_is_idempotent(
    form: FormView,
    pos: Seq<char>,
    clean: bool,
    other_pos: Seq<char>,
    other_clean: bool,
)
    ensures
        expanded_inflection_form(
            expanded_inflection_form(form, pos, clean),
            other_pos,
            other_clean,
        ) == expanded_inflection_form(form, pos, clean),
        expanded_lemma_form(expanded_lemma_form(form, pos, clean), other_pos, other_clean)
            == expanded_lemma_form(form, pos, clean),
{
}

/// The lower-case form that `str::to_lowercase` gives to a text.
pub uninterp spec fn lowercased(text: Seq<char>) -> Seq<char>;

/// What `Regex::replace_all` makes of a text under a pattern and a
/// replacement: the text with every match of the pattern replaced, or
/// nothing where `Regex::new` does not accept the pattern.
pub uninterp spec fn regex_replace_all(
    pattern: Seq<char>,
    text: Seq<char>,
    replacement: Seq<char>,
) -> Option<Seq<char>>;

/// Calls `str::to_lowercase`, which maps each character to its lower-case
/// form as Unicode defines it. The contract only names the result.
#[verifier::external_body]
fn to_lowercase(text: &str) -> (r: String)
    ensures
        r@ == lowercased(text@),
{
    text.to_lowercase()
}

/// Compiles `pattern` with `regex::Regex::new` and, where that succeeds,
/// calls `Regex::replace_all` on `text`. The contract only names the result:
/// it depends on the three arguments alone, and there is none where the
/// pattern is not accepted.
#[verifier::external_body]
fn replace_all_matches(pattern: &str, text: &str, replacement: &str) -> (r: Option<String>)
    ensures
        opt_text(r) == regex_replace_all(pattern@, text@, replacement@),
{
    match regex::Regex::new(pattern) {
        Ok(compiled) => Some(compiled.replace_all(text, replacement).into_owned()),
        Err(_) => None,
    }
}

/// The pattern of what a word may not hold: a character other than a small
/// letter or a space, a digit, or a run of white space.
pub open spec fn unwanted() -> Seq<char> {
    "[^a-z ]|\\d|\\s+"@
}

/// A word as it is looked up: trimmed, in lower case, and with a space in
/// place of each match of the pattern of what a word may not hold.
pub open spec fn sanitized(word: Seq<char>) -> Option<Seq<char>> {
    regex_replace_all(unwanted(), lowercased(trimmed(word)), " "@)
}

/// Makes a word of the input ready to be looked up. There is no result
/// where the pattern is not accepted.
pub fn sanitize_word(word: &str) -> (r: Option<String>)
    ensures
        opt_text(r) == sanitized(word@),
{
    let trimmed_word = trim_text(word);
    let lower = to_lowercase(trimmed_word.as_str());
    replace_all_matches("[^a-z ]|\\d|\\s+", lower.as_str(), " ")
}

} // verus!
