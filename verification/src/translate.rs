use crate::data::{
    views, Language, Translation, TranslationType, TranslationTypeView, TranslationView,
};
use crate::english_to_latin::english_entries;
use crate::formatter::{
    all_in_language, format_output, formatted_output, sanitize_word, sanitized,
};
use crate::latin_to_english::translated;
use crate::text::{pieces, split_on, texts};
use crate::use_data::{Lexicon, LexiconView};
use vstd::prelude::*;
use vstd::string::*;

verus! {

/// Whether every word of a list can be made ready to be looked up.
pub open spec fn all_sanitized(words: Seq<Seq<char>>) -> bool {
    forall|i: int| 0 <= i < words.len() ==> sanitized(#[trigger] words[i]).is_some()
}

/// The analyses of one word of a text in the given language. The word is
/// looked up as it is once made ready; a word that cannot be made ready has
/// none.
pub open spec fn definitions_of(
    lexicon: LexiconView,
    word: Seq<char>,
    language: Language,
    tricks: bool,
) -> TranslationTypeView {
    match sanitized(word) {
        Some(clean_word) => match language {
            Language::Latin => TranslationTypeView::Latin(translated(lexicon, clean_word, tricks)),
            Language::English => TranslationTypeView::English(
                english_entries(lexicon, clean_word),
            ),
        },
        None => match language {
            Language::Latin => TranslationTypeView::Latin(Seq::empty()),
            Language::English => TranslationTypeView::English(Seq::empty()),
        },
    }
}

/// Whether a word has no analysis.
pub open spec fn is_unknown(definitions: TranslationTypeView) -> bool {
    match definitions {
        TranslationTypeView::Latin(info) => info.len() == 0,
        TranslationTypeView::English(info) => info.len() == 0,
    }
}

/// The translations of the first `k` words of a list: each word that has an
/// analysis, as it was written, with its analyses.
pub open spec fn translations_among(
    lexicon: LexiconView,
    words: Seq<Seq<char>>,
    language: Language,
    tricks: bool,
    k: int,
) -> Seq<TranslationView>
    decreases k,
{
    if k <= 0 || k > words.len() {
        Seq::empty()
    } else {
        let before = translations_among(lexicon, words, language, tricks, k - 1);
        let definitions = definitions_of(lexicon, words[k - 1], language, tricks);
        if is_unknown(definitions) {
            before
        } else {
            before.push(TranslationView { word: words[k - 1], definitions: definitions })
        }
    }
}

/// The translations of a text as they are returned: made ready for display
/// where that is asked for.
pub open spec fn finished(translations: Seq<TranslationView>, formatted: bool, clean: bool) -> Seq<
    TranslationView,
> {
    if formatted {
        formatted_output(translations, clean)
    } else {
        translations
    }
}

/// The translation of a text, word by word. The words are what single
/// spaces separate. There is none where a word cannot be made ready to be
/// looked up.
pub open spec fn text_translation(
    lexicon: LexiconView,
    text: Seq<char>,
    language: Language,
    tricks: bool,
    formatted: bool,
    clean: bool,
) -> Option<Seq<TranslationView>> {
    let words = pieces(text, ' ');
    if all_sanitized(words) {
        Some(
            finished(
                translations_among(lexicon, words, language, tricks, words.len() as int),
                formatted,
                clean,
            ),
        )
    } else {
        None
    }
}

/// Every translation of a list is of a word of the language asked for.
proof fn lemma_translations_in_language(
    lexicon: LexiconView,
    words: Seq<Seq<char>>,
    language: Language,
    tricks: bool,
    k: int,
)
    ensures
        all_in_language(translations_among(lexicon, words, language, tricks, k), language),
    decreases k,
{
    if !(k <= 0 || k > words.len()) {
        lemma_translations_in_language(lexicon, words, language, tricks, k - 1);
    }
}

/// Makes the translations of a text ready for display if that is asked for.
fn finish(translations: Vec<Translation>, language: Language, formatted: bool, clean: bool) -> (r:
    Vec<Translation>)
    requires
        all_in_language(views(translations@), language),
    ensures
        views(r@) == finished(views(translations@), formatted, clean),
{
    if formatted {
        format_output(translations, language, clean)
    } else {
        translations
    }
}

/// Translates a Latin text word by word. A word without analysis is left
/// out of the result.
pub fn translate_to_english(
    lexicon: &Lexicon,
    latin_text: &str,
    tricks: bool,
    formatted_output: bool,
    clean: bool,
) -> (r: Option<Vec<Translation>>)
    ensures
        match r {
            Some(translations) => text_translation(
                lexicon@,
                latin_text@,
                Language::Latin,
                tricks,
                formatted_output,
                clean,
            ) == Some(views(translations@)),
            None => text_translation(
                lexicon@,
                latin_text@,
                Language::Latin,
                tricks,
                formatted_output,
                clean,
            ).is_none(),
        },
{
    let latin_words = split_on(latin_text, ' ');
    let ghost words = texts(latin_words@);
    let mut translations: Vec<Translation> = Vec::new();
    let mut i: usize = 0;
    assert(views(translations@) =~= translations_among(
        lexicon@,
        words,
        Language::Latin,
        tricks,
        0,
    ));
    while i < latin_words.len()
        invariant
            i <= latin_words.len(),
            words == texts(latin_words@),
            words == pieces(latin_text@, ' '),
            forall|j: int| 0 <= j < i ==> sanitized(#[trigger] words[j]).is_some(),
            views(translations@) == translations_among(
                lexicon@,
                words,
                Language::Latin,
                tricks,
                i as int,
            ),
        decreases latin_words.len() - i,
    {
        let latin_word = &latin_words[i];
        assert(words[i as int] == latin_word@);
        match sanitize_word(latin_word.as_str()) {
            Some(clean_word) => {
                let output = crate::latin_to_english::translate_to_english(
                    lexicon,
                    clean_word,
                    tricks,
                );
                if output.len() > 0 {
                    let ghost before = views(translations@);
                    let translation = Translation {
                        word: latin_word.clone(),
                        definitions: TranslationType::Latin(output),
                    };
                    translations.push(translation);
                    assert(views(translations@) =~= before.push(translation@));
                }
            },
            None => {
                assert(!all_sanitized(words));
                return None;
            },
        }
        i += 1;
    }
    proof {
        lemma_translations_in_language(
            lexicon@,
            words,
            Language::Latin,
            tricks,
            words.len() as int,
        );
    }
    Some(finish(translations, Language::Latin, formatted_output, clean))
}

/// Translates an English text word by word. A word that is no headword is
/// left out of the result.
pub fn translate_to_latin(
    lexicon: &Lexicon,
    english_text: &str,
    formatted_output: bool,
    clean: bool,
) -> (r: Option<Vec<Translation>>)
    ensures
        match r {
            Some(translations) => text_translation(
                lexicon@,
                english_text@,
                Language::English,
                false,
                formatted_output,
                clean,
            ) == Some(views(translations@)),
            None => text_translation(
                lexicon@,
                english_text@,
                Language::English,
                false,
                formatted_output,
                clean,
            ).is_none(),
        },
{
    let english_words = split_on(english_text, ' ');
    let ghost words = texts(english_words@);
    let mut translations: Vec<Translation> = Vec::new();
    let mut i: usize = 0;
    assert(views(translations@) =~= translations_among(
        lexicon@,
        words,
        Language::English,
        false,
        0,
    ));
    while i < english_words.len()
        invariant
            i <= english_words.len(),
            words == texts(english_words@),
            words == pieces(english_text@, ' '),
            forall|j: int| 0 <= j < i ==> sanitized(#[trigger] words[j]).is_some(),
            views(translations@) == translations_among(
                lexicon@,
                words,
                Language::English,
                false,
                i as int,
            ),
        decreases english_words.len() - i,
    {
        let word = &english_words[i];
        assert(words[i as int] == word@);
        match sanitize_word(word.as_str()) {
            Some(clean_word) => {
                let output = crate::english_to_latin::translate_to_latin(
                    lexicon,
                    clean_word.as_str(),
                );
                if output.len() > 0 {
                    let ghost before = views(translations@);
                    let translation = Translation {
                        word: word.clone(),
                        definitions: TranslationType::English(output),
                    };
                    translations.push(translation);
                    assert(views(translations@) =~= before.push(translation@));
                }
            },
            None => {
                assert(!all_sanitized(words));
                return None;
            },
        }
        i += 1;
    }
    proof {
        lemma_translations_in_language(
            lexicon@,
            words,
            Language::English,
            false,
            words.len() as int,
        );
    }
    Some(finish(translations, Language::English, formatted_output, clean))
}

} // verus!
