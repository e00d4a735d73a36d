use whitakers_words::data::{
    EnglishWordInfo, Form, Inflection, Language, LatinWordInfo, NValue, Stem, TranslationType, WordInfo,
};
use whitakers_words::formatter::{format_output, is_in_language};
use whitakers_words::translate::{translate_to_english, translate_to_latin};
use whitakers_words::use_data::Lexicon;

fn code(major: i8, minor: i8) -> Vec<NValue> {
    vec![NValue::Integer(major), NValue::Integer(minor)]
}

fn lexicon() -> Lexicon {
    let mut lexicon = Lexicon::new();
    let info = WordInfo {
        age: "X".to_string(),
        area: "X".to_string(),
        geo: "X".to_string(),
        freq: "A".to_string(),
        source: "O".to_string(),
    };
    lexicon.latin.push(LatinWordInfo {
        pos: "N".to_string(),
        n: code(1, 1),
        parts: vec!["puell".to_string(), "puell".to_string()],
        senses: vec!["girl".to_string()],
        form: Form::StrForm("1 1 F P".to_string()),
        orth: "puell".to_string(),
        info,
        id: 7,
    });
    lexicon.stems.push(Stem {
        pos: "N".to_string(),
        form: Form::StrForm("1 1 F P".to_string()),
        orth: "puell".to_string(),
        n: code(1, 1),
        wid: 7,
    });
    lexicon.stems.push(Stem {
        pos: "N".to_string(),
        form: Form::StrForm("1 1 F P".to_string()),
        orth: "hal".to_string(),
        n: code(1, 1),
        wid: 7,
    });
    lexicon.inflections.push(Inflection {
        ending: "a".to_string(),
        pos: "N".to_string(),
        note: None,
        n: code(1, 1),
        form: Form::StrForm("NOM S F".to_string()),
    });
    lexicon.english.push(EnglishWordInfo {
        orth: "girl".to_string(),
        wid: 7,
        pos: "N".to_string(),
        frequency_type: "A".to_string(),
        true_frequency: 100,
        frequency: 90,
        compound: 0,
        semi: 1,
        latin_entry: None,
    });
    lexicon
}

#[test]
fn a_latin_text_is_translated_word_by_word() {
    let lexicon = lexicon();
    let out = translate_to_english(&lexicon, "Puella amat PUELLA", false, false, false).unwrap();
    assert_eq!(out.len(), 2);
    assert_eq!(out[0].word, "Puella");
    assert_eq!(out[1].word, "PUELLA");
    assert!(is_in_language(&out, Language::Latin));
    match &out[0].definitions {
        TranslationType::Latin(info) => {
            assert_eq!(
                info,
                &whitakers_words::latin_to_english::translate_to_english(
                    &lexicon,
                    "puella".to_string(),
                    false
                )
            );
            assert_eq!(info.len(), 1);
        }
        TranslationType::English(_) => panic!("a Latin text has Latin analyses"),
    }
    assert_eq!(out[0].definitions, out[1].definitions);
}

#[test]
fn a_text_without_known_words_has_no_translation() {
    let lexicon = lexicon();
    assert_eq!(translate_to_english(&lexicon, "", true, true, true), Some(Vec::new()));
    assert_eq!(translate_to_english(&lexicon, "   ", true, false, true), Some(Vec::new()));
    assert_eq!(translate_to_english(&lexicon, "amo amas amat", true, true, false), Some(Vec::new()));
    assert_eq!(translate_to_latin(&lexicon, "boy dog", true, false), Some(Vec::new()));
    assert_eq!(translate_to_latin(&lexicon, "", false, false), Some(Vec::new()));
}

#[test]
fn a_word_with_a_sign_in_it_is_looked_up_with_a_space_in_its_place() {
    let lexicon = lexicon();
    let out = translate_to_english(&lexicon, "puella! puella", false, false, false).unwrap();
    assert_eq!(out.len(), 1);
    assert_eq!(out[0].word, "puella");
}

#[test]
fn tricks_are_used_where_they_are_asked_for() {
    let lexicon = lexicon();
    let without = translate_to_english(&lexicon, "ala", false, false, false).unwrap();
    assert_eq!(without, Vec::new());
    let with = translate_to_english(&lexicon, "ala", true, false, false).unwrap();
    assert_eq!(with.len(), 1);
    assert_eq!(with[0].word, "ala");
}

#[test]
fn the_translation_is_formatted_where_that_is_asked_for() {
    let lexicon = lexicon();
    let raw = translate_to_english(&lexicon, "puella", false, false, true).unwrap();
    let shown = translate_to_english(&lexicon, "puella", false, true, true).unwrap();
    assert_eq!(shown, format_output(raw, Language::Latin, true));
    match &shown[0].definitions {
        TranslationType::Latin(info) => {
            assert_eq!(info[0].stem.pos, "noun");
            assert_eq!(info[0].inflections[0].pos, "noun");
        }
        TranslationType::English(_) => panic!("a Latin text has Latin analyses"),
    }
}

#[test]
fn an_english_text_is_translated_word_by_word() {
    let lexicon = lexicon();
    let out = translate_to_latin(&lexicon, "The Girl", false, false).unwrap();
    assert_eq!(out.len(), 1);
    assert_eq!(out[0].word, "Girl");
    assert!(is_in_language(&out, Language::English));
    match &out[0].definitions {
        TranslationType::English(info) => {
            assert_eq!(info.len(), 1);
            assert_eq!(info[0].latin_entry, Some(lexicon.latin[0].clone()));
        }
        TranslationType::Latin(_) => panic!("an English text has English entries"),
    }
    let shown = translate_to_latin(&lexicon, "girl", true, true).unwrap();
    match &shown[0].definitions {
        TranslationType::English(info) => {
            assert_eq!(info[0].pos, "noun");
            let entry = info[0].latin_entry.as_ref().unwrap();
            assert_eq!(entry.parts, vec!["puella".to_string(), "puellae".to_string()]);
        }
        TranslationType::Latin(_) => panic!("an English text has English entries"),
    }
}

#[test]
fn puella_alone_has_one_translation_with_one_analysis() {
    let mut lexicon = lexicon();
    lexicon.stems.truncate(1);
    lexicon.english.clear();
    let out = translate_to_english(&lexicon, "puella", false, false, false).unwrap();
    assert_eq!(out.len(), 1);
    assert_eq!(out[0].word, "puella");
    match &out[0].definitions {
        TranslationType::Latin(info) => {
            assert_eq!(info.len(), 1);
            assert_eq!(info[0].stem, lexicon.stems[0]);
            assert_eq!(info[0].stem.orth, "puell");
            assert_eq!(info[0].inflections, vec![lexicon.inflections[0].clone()]);
            assert_eq!(info[0].inflections[0].ending, "a");
        }
        TranslationType::English(_) => panic!("a Latin text has Latin analyses"),
    }
}
