use crate::text::same_text;
use vstd::prelude::*;
use vstd::string::*;

verus! {

/// The label that a table gives to a code: the label of the first row whose
/// code it is, or the fallback where no row has it.
pub open spec fn label_in(
    table: Seq<(&'static str, &'static str)>,
    fallback: &'static str,
    code: Seq<char>,
) -> Seq<char>
    decreases table.len(),
{
    if table.len() == 0 {
        fallback@
    } else if table[0].0@ == code {
        table[0].1@
    } else {
        label_in(table.skip(1), fallback, code)
    }
}

/// Looks a code up in a table of codes and labels.
pub fn find_label(
    table: &Vec<(&'static str, &'static str)>,
    fallback: &'static str,
    code: &str,
) -> (r: &'static str)
    ensures
        r@ == label_in(table@, fallback, code@),
{
    let mut i: usize = 0;
    assert(table@.skip(0) =~= table@);
    while i < table.len()
        invariant
            i <= table.len(),
            label_in(table@, fallback, code@) == label_in(table@.skip(i as int), fallback, code@),
        decreases table.len() - i,
    {
        assert(table@.skip(i as int).skip(1) =~= table@.skip(i + 1));
        if same_text(table[i].0, code) {
            return table[i].1;
        }
        i += 1;
    }
    fallback
}

/// Whether every label of a table has at least one character.
pub open spec fn labels_nonempty(table: Seq<(&'static str, &'static str)>) -> bool {
    forall|i: int| 0 <= i < table.len() ==> (#[trigger] table[i]).1@.len() > 0
}

/// A table whose labels and fallback are not empty gives no empty label.
pub proof fn lemma_label_nonempty(
    table: Seq<(&'static str, &'static str)>,
    fallback: &'static str,
    code: Seq<char>,
)
    requires
        labels_nonempty(table),
        fallback@.len() > 0,
    ensures
        label_in(table, fallback, code).len() > 0,
    decreases table.len(),
{
    if table.len() > 0 && table[0].0@ != code {
        assert forall|i: int| 0 <= i < table.skip(1).len() implies (#[trigger] table.skip(
            1,
        )[i]).1@.len() > 0 by {
            assert(table.skip(1)[i] == table[i + 1]);
        }
        lemma_label_nonempty(table.skip(1), fallback, code);
    }
}

/// The codes of the dictionary for the part of speech, each with its label.
pub open spec fn part_of_speech_table() -> Seq<(&'static str, &'static str)> {
    seq![
        ("N", "noun"),
        ("V", "verb"),
        ("VPAR", "participle"),
        ("ADJ", "adjective"),
        ("PREP", "preposition"),
        ("PRON", "pronoun"),
        ("INTERJ", "interjection"),
        ("NUM", "numeral"),
        ("CONJ", "conjunction"),
        ("ADV", "adverb"),
        ("SUPINE", "supine"),
        ("PACK", "packon"),
        ("TACKON", "tackon"),
        ("PREFIX", "prefix"),
        ("SUFFIX", "suffix"),
        ("X", "unknown"),
    ]
}

/// The label of a code for the part of speech; "unknown" for a code that the table lacks.
pub open spec fn part_of_speech_label(code: Seq<char>) -> Seq<char> {
    label_in(part_of_speech_table(), "unknown", code)
}

/// Translates a code for the part of speech into its label.
pub fn translate_part_of_speech(code: &str) -> (r: &'static str)
    ensures
        r@ == part_of_speech_label(code@),
{
    let table = vec![
        ("N", "noun"),
        ("V", "verb"),
        ("VPAR", "participle"),
        ("ADJ", "adjective"),
        ("PREP", "preposition"),
        ("PRON", "pronoun"),
        ("INTERJ", "interjection"),
        ("NUM", "numeral"),
        ("CONJ", "conjunction"),
        ("ADV", "adverb"),
        ("SUPINE", "supine"),
        ("PACK", "packon"),
        ("TACKON", "tackon"),
        ("PREFIX", "prefix"),
        ("SUFFIX", "suffix"),
        ("X", "unknown"),
    ];
    find_label(&table, "unknown", code)
}

/// The codes of the dictionary for the age, each with its label.
pub open spec fn age_table() -> Seq<(&'static str, &'static str)> {
    seq![
        ("A", "archaic"),
        ("B", "early"),
        ("C", "classical"),
        ("D", "late"),
        ("E", "later"),
        ("F", "medieval"),
        ("G", "scholar"),
        ("H", "modern"),
        ("X", "used throughout ages"),
    ]
}

/// The label of a code for the age; "unknown" for a code that the table lacks.
pub open spec fn age_label(code: Seq<char>) -> Seq<char> {
    label_in(age_table(), "unknown", code)
}

/// Translates a code for the age into its label.
pub fn translate_age(code: &str) -> (r: &'static str)
    ensures
        r@ == age_label(code@),
{
    let table = vec![
        ("A", "archaic"),
        ("B", "early"),
        ("C", "classical"),
        ("D", "late"),
        ("E", "later"),
        ("F", "medieval"),
        ("G", "scholar"),
        ("H", "modern"),
        ("X", "used throughout ages"),
    ];
    find_label(&table, "unknown", code)
}

/// The codes of the dictionary for the subject area, each with its label.
pub open spec fn area_table() -> Seq<(&'static str, &'static str)> {
    seq![
        ("A", "agriculture"),
        ("B", "biological"),
        ("D", "drama"),
        ("E", "ecclesiastic"),
        ("G", "grammar"),
        ("L", "legal"),
        ("P", "poetic"),
        ("S", "science"),
        ("T", "technical"),
        ("W", "war"),
        ("Y", "mythology"),
        ("X", "all or none"),
    ]
}

/// The label of a code for the subject area; "unknown" for a code that the table lacks.
pub open spec fn area_label(code: Seq<char>) -> Seq<char> {
    label_in(area_table(), "unknown", code)
}

/// Translates a code for the subject area into its label.
pub fn translate_area(code: &str) -> (r: &'static str)
    ensures
        r@ == area_label(code@),
{
    let table = vec![
        ("A", "agriculture"),
        ("B", "biological"),
        ("D", "drama"),
        ("E", "ecclesiastic"),
        ("G", "grammar"),
        ("L", "legal"),
        ("P", "poetic"),
        ("S", "science"),
        ("T", "technical"),
        ("W", "war"),
        ("Y", "mythology"),
        ("X", "all or none"),
    ];
    find_label(&table, "unknown", code)
}

/// The codes of the dictionary for the frequency class, each with its label.
pub open spec fn frequency_table() -> Seq<(&'static str, &'static str)> {
    seq![
        ("A", "very frequent"),
        ("B", "frequent"),
        ("C", "common"),
        ("D", "lesser"),
        ("E", "uncommon"),
        ("F", "very rare"),
        ("I", "inscription"),
        ("M", "graffiti"),
        ("N", "pliny"),
        ("X", "unknown"),
    ]
}

/// The label of a code for the frequency class; "unknown" for a code that the table lacks.
pub open spec fn frequency_label(code: Seq<char>) -> Seq<char> {
    label_in(frequency_table(), "unknown", code)
}

/// Translates a code for the frequency class into its label.
pub fn translate_frequency(code: &str) -> (r: &'static str)
    ensures
        r@ == frequency_label(code@),
{
    let table = vec![
        ("A", "very frequent"),
        ("B", "frequent"),
        ("C", "common"),
        ("D", "lesser"),
        ("E", "uncommon"),
        ("F", "very rare"),
        ("I", "inscription"),
        ("M", "graffiti"),
        ("N", "pliny"),
        ("X", "unknown"),
    ];
    find_label(&table, "unknown", code)
}

/// The codes of the dictionary for the citation source, each with its label.
pub open spec fn source_table() -> Seq<(&'static str, &'static str)> {
    seq![
        ("A", "unused"),
        ("B", "C.H.Beeson, A Primer of Medieval Latin, 1925 (Bee)"),
        ("C", "Charles Beard, Cassell's Latin Dictionary 1892 (CAS)"),
        ("D", "J.N.Adams, Latin Sexual Vocabulary, 1982 (Sex)"),
        ("E", "L.F.Stelten, Dictionary of Eccles. Latin, 1995 (Ecc)"),
        ("F", "Roy J. Deferrari, Dictionary of St. Thomas Aquinas, 1960 (DeF)"),
        ("G", "Gildersleeve + Lodge, Latin Grammar 1895 (G+L)"),
        ("H", "Collatinus Dictionary by Yves Ouvrard"),
        ("I", "Leverett, F.P., Lexicon of the Latin Language, Boston 1845"),
        ("K", "Calepinus Novus, modern Latin, by Guy Licoppe (Cal)"),
        ("L", "Lewis, C.S., Elementary Latin Dictionary 1891"),
        ("M", "Latham, Revised Medieval Word List, 1980"),
        ("N", "Lynn Nelson, Wordlist"),
        ("O", "Oxford Latin Dictionary, 1982 (OLD)"),
        ("P", "Souter, A Glossary of Later Latin to 600 A.D., Oxford 1949"),
        ("Q", "other, cited or unspecified dictionaries"),
        ("R", "Plater & White, A Grammar of the Vulgate, Oxford 1926"),
        ("S", "Lewis and Short, A Latin Dictionary, 1879 (L+S)"),
        ("T", "found in a translation"),
        ("U", "Du Cange"),
        ("V", "Vademecum in opus Saxonis - Franz Blatt (Saxo)"),
        ("W", "William Whitaker's personal guess"),
        ("X", "general or unknown or too common to say"),
        ("Y", "temporary special code"),
        ("Z", "sent by a user"),
    ]
}

/// The label of a code for the citation source; "unknown" for a code that the table lacks.
pub open spec fn source_label(code: Seq<char>) -> Seq<char> {
    label_in(source_table(), "unknown", code)
}

/// Translates a code for the citation source into its label.
pub fn translate_source(code: &str) -> (r: &'static str)
    ensures
        r@ == source_label(code@),
{
    let table = vec![
        ("A", "unused"),
        ("B", "C.H.Beeson, A Primer of Medieval Latin, 1925 (Bee)"),
        ("C", "Charles Beard, Cassell's Latin Dictionary 1892 (CAS)"),
        ("D", "J.N.Adams, Latin Sexual Vocabulary, 1982 (Sex)"),
        ("E", "L.F.Stelten, Dictionary of Eccles. Latin, 1995 (Ecc)"),
        ("F", "Roy J. Deferrari, Dictionary of St. Thomas Aquinas, 1960 (DeF)"),
        ("G", "Gildersleeve + Lodge, Latin Grammar 1895 (G+L)"),
        ("H", "Collatinus Dictionary by Yves Ouvrard"),
        ("I", "Leverett, F.P., Lexicon of the Latin Language, Boston 1845"),
        ("K", "Calepinus Novus, modern Latin, by Guy Licoppe (Cal)"),
        ("L", "Lewis, C.S., Elementary Latin Dictionary 1891"),
        ("M", "Latham, Revised Medieval Word List, 1980"),
        ("N", "Lynn Nelson, Wordlist"),
        ("O", "Oxford Latin Dictionary, 1982 (OLD)"),
        ("P", "Souter, A Glossary of Later Latin to 600 A.D., Oxford 1949"),
        ("Q", "other, cited or unspecified dictionaries"),
        ("R", "Plater & White, A Grammar of the Vulgate, Oxford 1926"),
        ("S", "Lewis and Short, A Latin Dictionary, 1879 (L+S)"),
        ("T", "found in a translation"),
        ("U", "Du Cange"),
        ("V", "Vademecum in opus Saxonis - Franz Blatt (Saxo)"),
        ("W", "William Whitaker's personal guess"),
        ("X", "general or unknown or too common to say"),
        ("Y", "temporary special code"),
        ("Z", "sent by a user"),
    ];
    find_label(&table, "unknown", code)
}

/// The codes of the dictionary for the case, each with its label.
pub open spec fn declension_table() -> Seq<(&'static str, &'static str)> {
    seq![
        ("NOM", "nominative"),
        ("VOC", "vocative"),
        ("GEN", "genitive"),
        ("DAT", "dative"),
        ("ACC", "accusative"),
        ("LOC", "locative"),
        ("ABL", "ablative"),
        ("X", "unknown"),
    ]
}

/// The label of a code for the case; "unknown" for a code that the table lacks.
pub open spec fn declension_label(code: Seq<char>) -> Seq<char> {
    label_in(declension_table(), "unknown", code)
}

/// Translates a code for the case into its label.
pub fn translate_declension(code: &str) -> (r: &'static str)
    ensures
        r@ == declension_label(code@),
{
    let table = vec![
        ("NOM", "nominative"),
        ("VOC", "vocative"),
        ("GEN", "genitive"),
        ("DAT", "dative"),
        ("ACC", "accusative"),
        ("LOC", "locative"),
        ("ABL", "ablative"),
        ("X", "unknown"),
    ];
    find_label(&table, "unknown", code)
}

/// The codes of the dictionary for the number, each with its label.
pub open spec fn number_table() -> Seq<(&'static str, &'static str)> {
    seq![
        ("S", "singular"),
        ("P", "plural"),
        ("X", "unknown"),
    ]
}

/// The label of a code for the number; "unknown" for a code that the table lacks.
pub open spec fn number_label(code: Seq<char>) -> Seq<char> {
    label_in(number_table(), "unknown", code)
}

/// Translates a code for the number into its label.
pub fn translate_number(code: &str) -> (r: &'static str)
    ensures
        r@ == number_label(code@),
{
    let table = vec![
        ("S", "singular"),
        ("P", "plural"),
        ("X", "unknown"),
    ];
    find_label(&table, "unknown", code)
}

/// The codes of the dictionary for the gender, each with its label.
pub open spec fn gender_table() -> Seq<(&'static str, &'static str)> {
    seq![
        ("M", "masculine"),
        ("F", "feminine"),
        ("N", "neuter"),
        ("C", "common"),
        ("X", "unknown"),
    ]
}

/// The label of a code for the gender; "unknown" for a code that the table lacks.
pub open spec fn gender_label(code: Seq<char>) -> Seq<char> {
    label_in(gender_table(), "unknown", code)
}

/// Translates a code for the gender into its label.
pub fn translate_gender(code: &str) -> (r: &'static str)
    ensures
        r@ == gender_label(code@),
{
    let table = vec![
        ("M", "masculine"),
        ("F", "feminine"),
        ("N", "neuter"),
        ("C", "common"),
        ("X", "unknown"),
    ];
    find_label(&table, "unknown", code)
}

/// The codes of the dictionary for the tense, each with its label.
pub open spec fn tense_table() -> Seq<(&'static str, &'static str)> {
    seq![
        ("PRES", "present"),
        ("IMPF", "imperfect"),
        ("PERF", "perfect"),
        ("FUT", "future"),
        ("FUTP", "future perfect"),
        ("PLUP", "pluperfect"),
        ("INF", "infinitive"),
        ("X", "unknown"),
    ]
}

/// The label of a code for the tense; "unknown" for a code that the table lacks.
pub open spec fn tense_label(code: Seq<char>) -> Seq<char> {
    label_in(tense_table(), "unknown", code)
}

/// Translates a code for the tense into its label.
pub fn translate_tense(code: &str) -> (r: &'static str)
    ensures
        r@ == tense_label(code@),
{
    let table = vec![
        ("PRES", "present"),
        ("IMPF", "imperfect"),
        ("PERF", "perfect"),
        ("FUT", "future"),
        ("FUTP", "future perfect"),
        ("PLUP", "pluperfect"),
        ("INF", "infinitive"),
        ("X", "unknown"),
    ];
    find_label(&table, "unknown", code)
}

/// The codes of the dictionary for the voice, each with its label.
pub open spec fn voice_table() -> Seq<(&'static str, &'static str)> {
    seq![
        ("ACTIVE", "active"),
        ("PASSIVE", "passive"),
        ("X", "unknown"),
    ]
}

/// The label of a code for the voice; "unknown" for a code that the table lacks.
pub open spec fn voice_label(code: Seq<char>) -> Seq<char> {
    label_in(voice_table(), "unknown", code)
}

/// Translates a code for the voice into its label.
pub fn translate_voice(code: &str) -> (r: &'static str)
    ensures
        r@ == voice_label(code@),
{
    let table = vec![
        ("ACTIVE", "active"),
        ("PASSIVE", "passive"),
        ("X", "unknown"),
    ];
    find_label(&table, "unknown", code)
}

/// The codes of the dictionary for the mood, each with its label.
pub open spec fn mood_table() -> Seq<(&'static str, &'static str)> {
    seq![
        ("IND", "indicative"),
        ("SUB", "subjunctive"),
        ("IMP", "imperative"),
        ("INF", "infinitive"),
        ("PPL", "participle"),
        ("X", "unknown"),
    ]
}

/// The label of a code for the mood; "unknown" for a code that the table lacks.
pub open spec fn mood_label(code: Seq<char>) -> Seq<char> {
    label_in(mood_table(), "unknown", code)
}

/// Translates a code for the mood into its label.
pub fn translate_mood(code: &str) -> (r: &'static str)
    ensures
        r@ == mood_label(code@),
{
    let table = vec![
        ("IND", "indicative"),
        ("SUB", "subjunctive"),
        ("IMP", "imperative"),
        ("INF", "infinitive"),
        ("PPL", "participle"),
        ("X", "unknown"),
    ];
    find_label(&table, "unknown", code)
}

/// The codes of the dictionary for the kind of verb, each with its label.
pub open spec fn verb_table() -> Seq<(&'static str, &'static str)> {
    seq![
        ("TO_BE", "to be"),
        ("TO_BEING", "to being"),
        ("GEN", "takes genitive"),
        ("DAT", "takes dative"),
        ("ABL", "takes ablative"),
        ("TRANS", "transitive"),
        ("INTRANS", "intransitive"),
        ("IMPERS", "impersonal"),
        ("DEP", "deponent"),
        ("SEMIDEP", "semideponent"),
        ("PERFDEF", "perfect definite"),
        ("X", "unknown"),
    ]
}

/// The label of a code for the kind of verb; "unknown" for a code that the table lacks.
pub open spec fn verb_label(code: Seq<char>) -> Seq<char> {
    label_in(verb_table(), "unknown", code)
}

/// Translates a code for the kind of verb into its label.
pub fn translate_verb(code: &str) -> (r: &'static str)
    ensures
        r@ == verb_label(code@),
{
    let table = vec![
        ("TO_BE", "to be"),
        ("TO_BEING", "to being"),
        ("GEN", "takes genitive"),
        ("DAT", "takes dative"),
        ("ABL", "takes ablative"),
        ("TRANS", "transitive"),
        ("INTRANS", "intransitive"),
        ("IMPERS", "impersonal"),
        ("DEP", "deponent"),
        ("SEMIDEP", "semideponent"),
        ("PERFDEF", "perfect definite"),
        ("X", "unknown"),
    ];
    find_label(&table, "unknown", code)
}

/// The codes of the dictionary for the kind of noun, each with its label.
pub open spec fn noun_table() -> Seq<(&'static str, &'static str)> {
    seq![
        ("S", "singular only"),
        ("M", "plural only"),
        ("A", "abstract idea"),
        ("G", "group name"),
        ("N", "proper name"),
        ("P", "person"),
        ("T", "thing"),
        ("L", "locale"),
        ("W", "place where"),
        ("X", "unknown"),
    ]
}

/// The label of a code for the kind of noun; "unknown" for a code that the table lacks.
pub open spec fn noun_label(code: Seq<char>) -> Seq<char> {
    label_in(noun_table(), "unknown", code)
}

/// Translates a code for the kind of noun into its label.
pub fn translate_noun(code: &str) -> (r: &'static str)
    ensures
        r@ == noun_label(code@),
{
    let table = vec![
        ("S", "singular only"),
        ("M", "plural only"),
        ("A", "abstract idea"),
        ("G", "group name"),
        ("N", "proper name"),
        ("P", "person"),
        ("T", "thing"),
        ("L", "locale"),
        ("W", "place where"),
        ("X", "unknown"),
    ];
    find_label(&table, "unknown", code)
}

/// The codes of the dictionary for the kind of pronoun, each with its label.
pub open spec fn pronoun_table() -> Seq<(&'static str, &'static str)> {
    seq![
        ("PERS", "personal"),
        ("REL", "relative"),
        ("REFLEX", "reflexive"),
        ("DEMONS", "demonstrative"),
        ("INTERR", "interrogative"),
        ("INDEF", "indefinite"),
        ("ADJECT", "adjectival"),
        ("X", "unknown"),
    ]
}

/// The label of a code for the kind of pronoun; "unknown" for a code that the table lacks.
pub open spec fn pronoun_label(code: Seq<char>) -> Seq<char> {
    label_in(pronoun_table(), "unknown", code)
}

/// Translates a code for the kind of pronoun into its label.
pub fn translate_pronoun(code: &str) -> (r: &'static str)
    ensures
        r@ == pronoun_label(code@),
{
    let table = vec![
        ("PERS", "personal"),
        ("REL", "relative"),
        ("REFLEX", "reflexive"),
        ("DEMONS", "demonstrative"),
        ("INTERR", "interrogative"),
        ("INDEF", "indefinite"),
        ("ADJECT", "adjectival"),
        ("X", "unknown"),
    ];
    find_label(&table, "unknown", code)
}

/// Every code for the case has a label of at least one character.
pub proof fn lemma_declension_label_nonempty(code: Seq<char>)
    ensures
        declension_label(code).len() > 0,
{
    reveal_strlit("ablative");
    reveal_strlit("accusative");
    reveal_strlit("dative");
    reveal_strlit("genitive");
    reveal_strlit("locative");
    reveal_strlit("nominative");
    reveal_strlit("unknown");
    reveal_strlit("vocative");
    assert(declension_table()[0].1@.len() > 0);
    assert(declension_table()[1].1@.len() > 0);
    assert(declension_table()[2].1@.len() > 0);
    assert(declension_table()[3].1@.len() > 0);
    assert(declension_table()[4].1@.len() > 0);
    assert(declension_table()[5].1@.len() > 0);
    assert(declension_table()[6].1@.len() > 0);
    assert(declension_table()[7].1@.len() > 0);
    lemma_label_nonempty(declension_table(), "unknown", code);
}

/// Every code for the tense has a label of at least one character.
pub proof fn lemma_tense_label_nonempty(code: Seq<char>)
    ensures
        tense_label(code).len() > 0,
{
    reveal_strlit("future");
    reveal_strlit("future perfect");
    reveal_strlit("imperfect");
    reveal_strlit("infinitive");
    reveal_strlit("perfect");
    reveal_strlit("pluperfect");
    reveal_strlit("present");
    reveal_strlit("unknown");
    assert(tense_table()[0].1@.len() > 0);
    assert(tense_table()[1].1@.len() > 0);
    assert(tense_table()[2].1@.len() > 0);
    assert(tense_table()[3].1@.len() > 0);
    assert(tense_table()[4].1@.len() > 0);
    assert(tense_table()[5].1@.len() > 0);
    assert(tense_table()[6].1@.len() > 0);
    assert(tense_table()[7].1@.len() > 0);
    lemma_label_nonempty(tense_table(), "unknown", code);
}

/// Every code for the mood has a label of at least one character.
pub proof fn lemma_mood_label_nonempty(code: Seq<char>)
    ensures
        mood_label(code).len() > 0,
{
    reveal_strlit("imperative");
    reveal_strlit("indicative");
    reveal_strlit("infinitive");
    reveal_strlit("participle");
    reveal_strlit("subjunctive");
    reveal_strlit("unknown");
    assert(mood_table()[0].1@.len() > 0);
    assert(mood_table()[1].1@.len() > 0);
    assert(mood_table()[2].1@.len() > 0);
    assert(mood_table()[3].1@.len() > 0);
    assert(mood_table()[4].1@.len() > 0);
    assert(mood_table()[5].1@.len() > 0);
    lemma_label_nonempty(mood_table(), "unknown", code);
}

} // verus!
