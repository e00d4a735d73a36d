use whitakers_words::data::{
    EnglishWordInfo, Form, Inflection, Language, LatinTranslationInfo, LatinWordInfo, LongForm,
    NValue, Stem, Translation, TranslationType, UniqueLatinWordInfo, Word, WordInfo,
};
use whitakers_words::formatter::{
    fill_in_form_blank, format_english_word, format_form, format_latin_inflections,
    format_latin_stem, format_latin_word_info, format_output, format_unique_latin_word_info,
    format_word_info, is_in_language, remove_inflections_with_wrong_pos,
    remove_inflections_without_endings, remove_vague_inflections, sanitize_word,
    translate_latin_word_info_form,
};

fn some(s: &str) -> Option<String> {
    Some(s.to_string())
}

fn code(major: i8, minor: i8) -> Vec<NValue> {
    vec![NValue::Integer(major), NValue::Integer(minor)]
}

fn strings(parts: &[&str]) -> Vec<String> {
    parts.iter().map(|p| p.to_string()).collect()
}

fn info() -> WordInfo {
    WordInfo {
        age: "C".to_string(),
        area: "L".to_string(),
        geo: "X".to_string(),
        freq: "A".to_string(),
        source: "O".to_string(),
    }
}

fn labelled_info() -> WordInfo {
    WordInfo {
        age: "classical".to_string(),
        area: "legal".to_string(),
        geo: "all or none".to_string(),
        freq: "very frequent".to_string(),
        source: "Oxford Latin Dictionary, 1982 (OLD)".to_string(),
    }
}

fn puella() -> LatinWordInfo {
    LatinWordInfo {
        pos: "N".to_string(),
        n: code(1, 1),
        parts: strings(&["puell", "puell"]),
        senses: strings(&["girl"]),
        form: Form::StrForm("1 1 F P".to_string()),
        orth: "puella".to_string(),
        info: info(),
        id: 7,
    }
}

fn inflection(ending: &str, pos: &str, form: &str) -> Inflection {
    Inflection {
        ending: ending.to_string(),
        pos: pos.to_string(),
        note: None,
        n: code(1, 1),
        form: Form::StrForm(form.to_string()),
    }
}

fn blank() -> LongForm {
    LongForm::new()
}

fn verbose_blank() -> LongForm {
    LongForm {
        declension: some(""),
        number: some(""),
        gender: some(""),
        tense: some(""),
        voice: some(""),
        mood: some(""),
        verb: some(""),
        kind: some(""),
        person: Some(0),
    }
}

#[test]
fn a_new_form_has_no_labels() {
    let form = LongForm::new();
    assert_eq!(form.declension, None);
    assert_eq!(form.number, None);
    assert_eq!(form.gender, None);
    assert_eq!(form.tense, None);
    assert_eq!(form.voice, None);
    assert_eq!(form.mood, None);
    assert_eq!(form.verb, None);
    assert_eq!(form.kind, None);
    assert_eq!(form.person, None);
}

#[test]
fn filling_puts_empty_labels_where_there_are_none() {
    assert_eq!(fill_in_form_blank(LongForm::new()), verbose_blank());
    let form = LongForm { gender: some("feminine"), person: Some(3), ..LongForm::new() };
    let filled = fill_in_form_blank(form);
    assert_eq!(filled, LongForm { gender: some("feminine"), person: Some(3), ..verbose_blank() });
    assert_eq!(fill_in_form_blank(verbose_blank()), verbose_blank());
}

#[test]
fn a_noun_ending_has_case_number_and_gender() {
    let clean = format_form("NOM S F".to_string(), "noun".to_string(), true);
    assert_eq!(
        clean,
        LongForm {
            declension: some("nominative"),
            number: some("singular"),
            gender: some("feminine"),
            ..blank()
        }
    );
    let verbose = format_form("NOM S F".to_string(), "noun".to_string(), false);
    assert_eq!(
        verbose,
        LongForm {
            declension: some("nominative"),
            number: some("singular"),
            gender: some("feminine"),
            ..verbose_blank()
        }
    );
}

#[test]
fn the_three_slot_layout_serves_four_parts_of_speech() {
    for pos in ["noun", "pronoun", "adjective", "numeral"] {
        let form = format_form("GEN P X".to_string(), pos.to_string(), true);
        assert_eq!(
            form,
            LongForm {
                declension: some("genitive"),
                number: some("plural"),
                gender: some("unknown"),
                ..blank()
            }
        );
    }
}

#[test]
fn a_verb_ending_has_tense_voice_mood_person_and_number() {
    let form = format_form("FUT   ACTIVE  IND  3 S".to_string(), "verb".to_string(), true);
    assert_eq!(
        form,
        LongForm {
            tense: some("future"),
            voice: some("active"),
            mood: some("indicative"),
            person: Some(3),
            number: some("singular"),
            ..blank()
        }
    );
    let no_person = format_form("PRES PASSIVE SUB X P".to_string(), "verb".to_string(), false);
    assert_eq!(
        no_person,
        LongForm {
            tense: some("present"),
            voice: some("passive"),
            mood: some("subjunctive"),
            person: Some(0),
            number: some("plural"),
            ..verbose_blank()
        }
    );
}

#[test]
fn a_participle_ending_has_case_number_gender_tense_and_voice() {
    let form = format_form("VOC P N PRES ACTIVE".to_string(), "participle".to_string(), true);
    assert_eq!(
        form,
        LongForm {
            declension: some("vocative"),
            number: some("plural"),
            gender: some("neuter"),
            tense: some("present"),
            voice: some("active"),
            ..blank()
        }
    );
}

#[test]
fn a_code_with_another_slot_count_decodes_to_nothing() {
    assert_eq!(format_form("NOM S".to_string(), "noun".to_string(), true), blank());
    assert_eq!(format_form("NOM S F POS".to_string(), "adjective".to_string(), true), blank());
    assert_eq!(format_form("NOM S F".to_string(), "verb".to_string(), true), blank());
    assert_eq!(format_form("NOM S F".to_string(), "participle".to_string(), false), verbose_blank());
    assert_eq!(format_form("".to_string(), "noun".to_string(), false), verbose_blank());
    assert_eq!(format_form("NOM S F".to_string(), "adverb".to_string(), true), blank());
    assert_eq!(format_form("NOM S F".to_string(), "N".to_string(), true), blank());
}

#[test]
fn a_lemma_form_reads_its_third_and_fourth_slot() {
    let noun = translate_latin_word_info_form("1 1 F T".to_string(), "noun".to_string(), true);
    assert_eq!(noun, LongForm { gender: some("feminine"), kind: some("thing"), ..blank() });
    let verb = translate_latin_word_info_form("1 1 TRANS".to_string(), "verb".to_string(), true);
    assert_eq!(verb, LongForm { verb: some("transitive"), ..blank() });
    let participle =
        translate_latin_word_info_form("3 1 DEP".to_string(), "participle".to_string(), false);
    assert_eq!(participle, LongForm { verb: some("deponent"), ..verbose_blank() });
    let pronoun = translate_latin_word_info_form("4 1 DEMONS".to_string(), "pronoun".to_string(), true);
    assert_eq!(pronoun, LongForm { voice: some("demonstrative"), ..blank() });
    let packon = translate_latin_word_info_form("1 0 REL".to_string(), "packon".to_string(), true);
    assert_eq!(packon, LongForm { voice: some("relative"), ..blank() });
    let adjective = translate_latin_word_info_form("1 1 POS".to_string(), "adjective".to_string(), true);
    assert_eq!(adjective, blank());
    let verbose = translate_latin_word_info_form("1 1 POS".to_string(), "adjective".to_string(), false);
    assert_eq!(verbose, verbose_blank());
}

#[test]
fn a_lemma_form_of_special_parts_of_speech() {
    let unknown = translate_latin_word_info_form("1 1 F T".to_string(), "unknown".to_string(), true);
    assert_eq!(unknown, blank());
    let numeral = translate_latin_word_info_form("1 1 CARD".to_string(), "numeral".to_string(), true);
    assert_eq!(numeral, LongForm { kind: some("numeral"), ..blank() });
    let short = translate_latin_word_info_form("POS".to_string(), "adverb".to_string(), true);
    assert_eq!(short, LongForm { kind: some("part of speech"), ..blank() });
    let two = translate_latin_word_info_form("1 1".to_string(), "noun".to_string(), true);
    assert_eq!(two, LongForm { kind: some("part of speech"), ..blank() });
    let none = translate_latin_word_info_form("".to_string(), "verb".to_string(), true);
    assert_eq!(none, LongForm { kind: some("part of speech"), ..blank() });
    let three = translate_latin_word_info_form("1 1 M".to_string(), "noun".to_string(), true);
    assert_eq!(three, LongForm { gender: some("masculine"), ..blank() });
}

#[test]
fn a_verbose_lemma_form_has_every_field() {
    let unknown = translate_latin_word_info_form("1 1 F T".to_string(), "unknown".to_string(), false);
    assert_eq!(unknown, verbose_blank());
    let numeral = translate_latin_word_info_form("1 1 CARD".to_string(), "numeral".to_string(), false);
    assert_eq!(numeral, LongForm { kind: some("numeral"), ..verbose_blank() });
    assert_eq!(numeral.declension, some(""));
    assert_eq!(numeral.person, Some(0));
    let any = translate_latin_word_info_form("".to_string(), "numeral".to_string(), false);
    assert_eq!(any, LongForm { kind: some("numeral"), ..verbose_blank() });
    let short = translate_latin_word_info_form("POS".to_string(), "adverb".to_string(), false);
    assert_eq!(short, LongForm { kind: some("part of speech"), ..verbose_blank() });
    let two = translate_latin_word_info_form("1 1".to_string(), "noun".to_string(), false);
    assert_eq!(two, LongForm { kind: some("part of speech"), ..verbose_blank() });
    let noun = translate_latin_word_info_form("1 1 F T".to_string(), "noun".to_string(), false);
    assert_eq!(
        noun,
        LongForm { gender: some("feminine"), kind: some("thing"), ..verbose_blank() }
    );
}

#[test]
fn metadata_codes_become_labels() {
    assert_eq!(format_word_info(info()), labelled_info());
    let unknown = format_word_info(WordInfo {
        age: "".to_string(),
        area: "?".to_string(),
        geo: "L".to_string(),
        freq: "zz".to_string(),
        source: "1".to_string(),
    });
    assert_eq!(
        unknown,
        WordInfo {
            age: "unknown".to_string(),
            area: "unknown".to_string(),
            geo: "legal".to_string(),
            freq: "unknown".to_string(),
            source: "unknown".to_string(),
        }
    );
}

#[test]
fn a_stem_is_labelled_and_its_form_expanded() {
    let stem = Stem {
        pos: "N".to_string(),
        form: Form::StrForm("1 1 F P".to_string()),
        orth: "puell".to_string(),
        n: code(1, 1),
        wid: 7,
    };
    let out = format_latin_stem(stem, true);
    assert_eq!(
        out,
        Stem {
            pos: "noun".to_string(),
            form: Form::LongForm(LongForm {
                gender: some("feminine"),
                kind: some("person"),
                ..blank()
            }),
            orth: "puell".to_string(),
            n: code(1, 1),
            wid: 7,
        }
    );
}

#[test]
fn an_expanded_form_is_left_as_it_is() {
    let long = LongForm { mood: some("kept"), ..blank() };
    let stem = Stem {
        pos: "N".to_string(),
        form: Form::LongForm(long.clone()),
        orth: "puell".to_string(),
        n: code(1, 1),
        wid: 7,
    };
    let out = format_latin_stem(stem, false);
    assert_eq!(out.form, Form::LongForm(long.clone()));
    let mut inflection = inflection("a", "N", "");
    inflection.form = Form::LongForm(long.clone());
    let out = format_latin_inflections(vec![inflection], "noun".to_string(), false);
    assert_eq!(out.len(), 1);
    assert_eq!(out[0].form, Form::LongForm(long));
}

#[test]
fn a_noun_lemma_gets_its_citation_forms() {
    let out = format_latin_word_info(puella(), true);
    assert_eq!(
        out,
        LatinWordInfo {
            pos: "noun".to_string(),
            n: code(1, 1),
            parts: strings(&["puella", "puellae"]),
            senses: strings(&["girl"]),
            form: Form::LongForm(LongForm {
                gender: some("feminine"),
                kind: some("person"),
                ..blank()
            }),
            orth: "puella".to_string(),
            info: labelled_info(),
            id: 7,
        }
    );
}

#[test]
fn a_verb_lemma_gets_its_principal_parts() {
    let amo = LatinWordInfo {
        pos: "V".to_string(),
        n: code(1, 1),
        parts: strings(&["am", "am", "amav", "amat"]),
        senses: strings(&["love"]),
        form: Form::StrForm("1 1 TRANS".to_string()),
        orth: "".to_string(),
        info: info(),
        id: 1,
    };
    let out = format_latin_word_info(amo, false);
    assert_eq!(out.pos, "verb");
    assert_eq!(out.parts, strings(&["amo", "amare", "amavi", "amatus"]));
    assert_eq!(out.orth, "amo");
    assert_eq!(out.form, Form::LongForm(LongForm { verb: some("transitive"), ..verbose_blank() }));
}

#[test]
fn a_noun_of_gendered_subtype_keeps_its_roots() {
    let filius = LatinWordInfo {
        pos: "N".to_string(),
        n: code(2, 4),
        parts: strings(&["fili", "fili"]),
        senses: strings(&["son"]),
        form: Form::StrForm("2 4 M P".to_string()),
        orth: "x".to_string(),
        info: info(),
        id: 2,
    };
    let out = format_latin_word_info(filius, true);
    assert_eq!(out.parts, strings(&["fili", "fili"]));
    assert_eq!(out.orth, "fili");
}

#[test]
fn other_lemmas_keep_their_roots() {
    let bonus = LatinWordInfo {
        pos: "ADJ".to_string(),
        n: code(1, 1),
        parts: strings(&["bon", "bon", "meli", "opti"]),
        senses: strings(&["good"]),
        form: Form::StrForm("1 1 X".to_string()),
        orth: "x".to_string(),
        info: info(),
        id: 3,
    };
    let out = format_latin_word_info(bonus, true);
    assert_eq!(out.pos, "adjective");
    assert_eq!(out.parts, strings(&["bon", "bon", "meli", "opti"]));
    assert_eq!(out.orth, "bon");
}

#[test]
fn roots_that_their_template_cannot_render_are_kept() {
    let long = LatinWordInfo {
        pos: "N".to_string(),
        n: code(1, 1),
        parts: strings(&["a", "b", "c"]),
        senses: Vec::new(),
        form: Form::StrForm("1 1 F T".to_string()),
        orth: "x".to_string(),
        info: info(),
        id: 4,
    };
    let out = format_latin_word_info(long, true);
    assert_eq!(out.parts, strings(&["a", "b", "c"]));
    assert_eq!(out.orth, "a");
    let none = LatinWordInfo {
        pos: "V".to_string(),
        n: code(9, 9),
        parts: Vec::new(),
        senses: Vec::new(),
        form: Form::StrForm("9 9 X".to_string()),
        orth: "kept".to_string(),
        info: info(),
        id: 5,
    };
    let out = format_latin_word_info(none, true);
    assert_eq!(out.parts, Vec::<String>::new());
    assert_eq!(out.orth, "kept");
}

#[test]
fn an_irregular_word_is_labelled() {
    let est = UniqueLatinWordInfo {
        orth: "est".to_string(),
        senses: strings(&["is"]),
        pos: "V".to_string(),
        form: Form::StrForm("5 1 TO_BE".to_string()),
        n: code(5, 1),
        info: info(),
    };
    let out = format_unique_latin_word_info(est, true);
    assert_eq!(
        out,
        UniqueLatinWordInfo {
            orth: "est".to_string(),
            senses: strings(&["is"]),
            pos: "verb".to_string(),
            form: Form::LongForm(LongForm { verb: some("to be"), ..blank() }),
            n: code(5, 1),
            info: labelled_info(),
        }
    );
}

#[test]
fn an_english_headword_is_labelled_with_its_lemma() {
    let girl = EnglishWordInfo {
        orth: "girl".to_string(),
        wid: 7,
        pos: "N".to_string(),
        frequency_type: "A".to_string(),
        true_frequency: 100,
        frequency: 90,
        compound: 0,
        semi: 1,
        latin_entry: Some(puella()),
    };
    let out = format_english_word(girl, true);
    assert_eq!(out.pos, "noun");
    assert_eq!(out.frequency_type, "very frequent");
    assert_eq!(out.orth, "girl");
    assert_eq!(out.wid, 7);
    assert_eq!((out.true_frequency, out.frequency, out.compound, out.semi), (100, 90, 0, 1));
    assert_eq!(out.latin_entry, Some(format_latin_word_info(puella(), true)));
    let bare = EnglishWordInfo {
        orth: "x".to_string(),
        wid: 0,
        pos: "?".to_string(),
        frequency_type: "?".to_string(),
        true_frequency: 0,
        frequency: 0,
        compound: 0,
        semi: 0,
        latin_entry: None,
    };
    let out = format_english_word(bare, false);
    assert_eq!(out.pos, "unknown");
    assert_eq!(out.frequency_type, "unknown");
    assert_eq!(out.latin_entry, None);
}

#[test]
fn inflections_without_ending_are_removed() {
    let list = vec![
        inflection("a", "N", "NOM S F"),
        inflection("", "N", "NOM S F"),
        inflection("ae", "N", "GEN S F"),
        inflection(" ", "N", "X X X"),
    ];
    let out = remove_inflections_without_endings(list);
    assert_eq!(
        out,
        vec![
            inflection("a", "N", "NOM S F"),
            inflection("ae", "N", "GEN S F"),
            inflection(" ", "N", "X X X"),
        ]
    );
    assert_eq!(remove_inflections_without_endings(Vec::new()), Vec::new());
}

#[test]
fn inflections_of_another_part_of_speech_are_removed() {
    let list = vec![
        inflection("is", "N", "GEN S C"),
        inflection("is", "V", "PRES ACTIVE IND 2 S"),
        inflection("i", "N", "DAT S C"),
    ];
    let out = remove_inflections_with_wrong_pos(list, "N".to_string());
    assert_eq!(out, vec![inflection("is", "N", "GEN S C"), inflection("i", "N", "DAT S C")]);
    let none = remove_inflections_with_wrong_pos(vec![inflection("a", "N", "")], "noun".to_string());
    assert_eq!(none, Vec::new());
}

#[test]
fn inflections_of_unknown_gender_are_removed() {
    let mut vague = inflection("a", "noun", "");
    vague.form = Form::LongForm(LongForm { gender: some("unknown"), ..blank() });
    let mut definite = inflection("ae", "noun", "");
    definite.form = Form::LongForm(LongForm { gender: some("feminine"), ..blank() });
    let mut silent = inflection("am", "noun", "");
    silent.form = Form::LongForm(blank());
    let coded = inflection("as", "noun", "ACC P X");
    let out = remove_vague_inflections(vec![
        vague.clone(),
        definite.clone(),
        silent.clone(),
        coded.clone(),
    ]);
    assert_eq!(out, vec![definite, silent, coded]);
}

#[test]
fn inflections_are_made_ready_for_display() {
    let mut noted = inflection(" ae ", "N", "GEN S F");
    noted.note = some("");
    let list = vec![
        inflection("a", "N", "NOM S F"),
        inflection("", "N", "NOM S F"),
        inflection("a", "V", "PRES ACTIVE IMP 2 S"),
        inflection("a", "N", "ABL S X"),
        noted,
    ];
    let clean = format_latin_inflections(list.clone(), "noun".to_string(), true);
    assert_eq!(
        clean,
        vec![
            Inflection {
                ending: "a".to_string(),
                pos: "noun".to_string(),
                note: None,
                n: code(1, 1),
                form: Form::LongForm(LongForm {
                    declension: some("nominative"),
                    number: some("singular"),
                    gender: some("feminine"),
                    ..blank()
                }),
            },
            Inflection {
                ending: "ae".to_string(),
                pos: "noun".to_string(),
                note: None,
                n: code(1, 1),
                form: Form::LongForm(LongForm {
                    declension: some("genitive"),
                    number: some("singular"),
                    gender: some("feminine"),
                    ..blank()
                }),
            },
        ]
    );
    let verbose = format_latin_inflections(list, "noun".to_string(), false);
    assert_eq!(verbose.len(), 3);
    assert_eq!(verbose[1].ending, "a");
    assert_eq!(
        verbose[1].form,
        Form::LongForm(LongForm {
            declension: some("ablative"),
            number: some("singular"),
            gender: some("unknown"),
            ..verbose_blank()
        })
    );
    assert_eq!(verbose[2].ending, "ae");
    assert_eq!(verbose[2].note, some(""));
}

#[test]
fn the_output_is_formatted_word_by_word() {
    let analysis = LatinTranslationInfo {
        word: Word::LatinWordInfo(puella()),
        stem: Stem {
            pos: "N".to_string(),
            form: Form::StrForm("1 1 F P".to_string()),
            orth: "puell".to_string(),
            n: code(1, 1),
            wid: 7,
        },
        inflections: vec![inflection("a", "N", "NOM S F"), inflection("a", "V", "X")],
        addons: Vec::new(),
    };
    let input = vec![Translation {
        word: "Puella".to_string(),
        definitions: TranslationType::Latin(vec![analysis]),
    }];
    assert!(is_in_language(&input, Language::Latin));
    assert!(!is_in_language(&input, Language::English));
    let out = format_output(input, Language::Latin, true);
    assert_eq!(out.len(), 1);
    assert_eq!(out[0].word, "Puella");
    match &out[0].definitions {
        TranslationType::Latin(info) => {
            assert_eq!(info.len(), 1);
            assert_eq!(info[0].word, Word::LatinWordInfo(format_latin_word_info(puella(), true)));
            assert_eq!(info[0].stem.pos, "noun");
            assert_eq!(info[0].inflections.len(), 1);
            assert_eq!(info[0].inflections[0].pos, "noun");
            assert_eq!(info[0].inflections[0].ending, "a");
        }
        TranslationType::English(_) => panic!("a Latin word has Latin analyses"),
    }
}

#[test]
fn english_output_is_formatted() {
    let girl = EnglishWordInfo {
        orth: "girl".to_string(),
        wid: 7,
        pos: "N".to_string(),
        frequency_type: "A".to_string(),
        true_frequency: 100,
        frequency: 90,
        compound: 0,
        semi: 1,
        latin_entry: Some(puella()),
    };
    let input = vec![Translation {
        word: "girl".to_string(),
        definitions: TranslationType::English(vec![girl.clone()]),
    }];
    assert!(is_in_language(&input, Language::English));
    let out = format_output(input, Language::English, false);
    assert_eq!(
        out,
        vec![Translation {
            word: "girl".to_string(),
            definitions: TranslationType::English(vec![format_english_word(girl, false)]),
        }]
    );
    assert!(is_in_language(&Vec::new(), Language::Latin));
    assert_eq!(format_output(Vec::new(), Language::Latin, true), Vec::new());
}

#[test]
fn a_word_is_made_ready_to_be_looked_up() {
    assert_eq!(sanitize_word("Puella"), some("puella"));
    assert_eq!(sanitize_word("  AMO \n"), some("amo"));
    assert_eq!(sanitize_word("Puella!"), some("puella "));
    assert_eq!(sanitize_word("a1b"), some("a b"));
    assert_eq!(sanitize_word("a  \t b"), some("a b"));
    assert_eq!(sanitize_word("a\t b"), some("a  b"));
    assert_eq!(sanitize_word("don't"), some("don t"));
    assert_eq!(sanitize_word(""), some(""));
    assert_eq!(sanitize_word("ÆDES"), some(" des"));
    assert_eq!(sanitize_word("123"), some("   "));
}
