use crate::data::{views, NValue, NValueView};
use crate::text::{is_suffix, same_text, slice_texts, texts};
use vstd::prelude::*;
use vstd::string::*;

verus! {

/// Degree of comparison of an adjective.
#[derive(Debug, Clone, Copy, PartialEq, Eq)]
pub enum Comparison {
    POS,
    COMP,
    SUPER,
    X,
}

/// The integer at position `i` of a classification code, 0 where the
/// position is absent or holds text.
pub open spec fn number_at(number_types: Seq<NValueView>, i: int) -> int {
    if 0 <= i < number_types.len() {
        match number_types[i] {
            NValueView::Integer(n) => n as int,
            NValueView::Text(_) => 0,
        }
    } else {
        0
    }
}

/// Whether every ending of a template is the empty string.
pub open spec fn all_empty(endings: Seq<Seq<char>>) -> bool {
    forall|i: int| 0 <= i < endings.len() ==> (#[trigger] endings[i]).len() == 0
}

/// Whether a root fragment stands for a part that the lemma lacks: the
/// empty string or the placeholder root.
pub open spec fn is_missing(part: Seq<char>) -> bool {
    part.len() == 0 || part == "zzz"@
}

/// Whether `parts` can be rendered with `endings`: an indeclinable template
/// needs a first root, any other an ending for each part that is present.
pub open spec fn parts_fit(parts: Seq<Seq<char>>, endings: Seq<Seq<char>>) -> bool {
    if all_empty(endings) {
        parts.len() >= 1
    } else {
        forall|i: int| 0 <= i < parts.len() ==> is_missing(#[trigger] parts[i]) || i < endings.len()
    }
}

/// The principal parts that `endings` give to `parts`. An all-empty template
/// collapses to the first root, a separator and the label; otherwise each
/// part that is present takes its ending and each missing part is marked.
pub open spec fn rendered_parts(
    parts: Seq<Seq<char>>,
    endings: Seq<Seq<char>>,
    special_case: Option<Seq<char>>,
) -> Seq<Seq<char>> {
    if all_empty(endings) {
        seq![
            parts[0] + " | "@ + match special_case {
                Some(label) => label,
                None => Seq::<char>::empty(),
            },
        ]
    } else {
        Seq::new(
            parts.len(),
            |i: int|
                if is_missing(parts[i]) {
                    "---"@
                } else {
                    parts[i] + endings[i]
                },
        )
    }
}

/// Reads the (major, minor) pair of a classification code.
pub fn code_pair(number_types: &Vec<NValue>) -> (r: (i8, i8))
    ensures
        r.0 as int == number_at(views(number_types@), 0),
        r.1 as int == number_at(views(number_types@), 1),
{
    let num_type_1: i8 = if number_types.len() > 0 {
        match &number_types[0] {
            NValue::Integer(num) => *num,
            NValue::Text(_) => 0,
        }
    } else {
        0
    };
    let num_type_2: i8 = if number_types.len() > 1 {
        match &number_types[1] {
            NValue::Integer(num) => *num,
            NValue::Text(_) => 0,
        }
    } else {
        0
    };
    (num_type_1, num_type_2)
}

/// Reads the (major, minor) pair of a classification code, taking the code.
pub fn translate_number_types(number_types: Vec<NValue>) -> (r: (i8, i8))
    ensures
        r.0 as int == number_at(views(number_types@), 0),
        r.1 as int == number_at(views(number_types@), 1),
{
    code_pair(&number_types)
}

/// Whether every ending in the list is empty.
fn endings_all_empty(endings: &Vec<&str>) -> (r: bool)
    ensures
        r == all_empty(slice_texts(endings@)),
{
    let mut i: usize = 0;
    while i < endings.len()
        invariant
            i <= endings.len(),
            forall|j: int| 0 <= j < i ==> (#[trigger] slice_texts(endings@)[j]).len() == 0,
        decreases endings.len() - i,
    {
        if !endings[i].is_empty() {
            assert(slice_texts(endings@)[i as int].len() != 0);
            return false;
        }
        i += 1;
    }
    true
}

/// Appends the endings of one template to the root parts.
pub fn set_principle_parts(
    parts: Vec<String>,
    endings: Vec<&str>,
    special_case: Option<&str>,
) -> (r: Vec<String>)
    requires
        parts_fit(texts(parts@), slice_texts(endings@)),
    ensures
        texts(r@) == rendered_parts(
            texts(parts@),
            slice_texts(endings@),
            match special_case {
                Some(label) => Some(label@),
                None => None,
            },
        ),
{
    let mut principle_parts: Vec<String> = Vec::new();
    if endings_all_empty(&endings) {
        let label: &str = match special_case {
            Some(label) => label,
            None => "",
        };
        proof {
            reveal_strlit("");
        }
        let joined = parts[0].clone().concat(" | ").concat(label);
        principle_parts.push(joined);
        assert(texts(principle_parts@) =~= rendered_parts(
            texts(parts@),
            slice_texts(endings@),
            match special_case {
                Some(label) => Some(label@),
                None => None,
            },
        ));
        return principle_parts;
    }
    let ghost spec_special = match special_case {
        Some(label) => Some(label@),
        None => None,
    };
    let mut i: usize = 0;
    while i < parts.len()
        invariant
            i <= parts.len(),
            !all_empty(slice_texts(endings@)),
            parts_fit(texts(parts@), slice_texts(endings@)),
            principle_parts@.len() == i,
            forall|j: int|
                0 <= j < i ==> (#[trigger] principle_parts@[j])@ == rendered_parts(
                    texts(parts@),
                    slice_texts(endings@),
                    spec_special,
                )[j],
        decreases parts.len() - i,
    {
        let part = &parts[i];
        assert(texts(parts@)[i as int] == part@);
        if part.as_str().is_empty() || same_text(part.as_str(), "zzz") {
            principle_parts.push(String::from_str("---"));
        } else {
            assert(!is_missing(texts(parts@)[i as int]));
            principle_parts.push(part.clone().concat(endings[i]));
        }
        i += 1;
    }
    assert(texts(principle_parts@) =~= rendered_parts(
        texts(parts@),
        slice_texts(endings@),
        spec_special,
    ));
    principle_parts
}

/// An endings template: one ending per principal part and, for a lemma that
/// does not inflect, the label that stands in place of the endings.
pub ghost struct Template {
    pub endings: Seq<Seq<char>>,
    pub special_case: Option<Seq<char>>,
}

/// An endings template as the tables hold it.
pub struct Endings {
    pub endings: Vec<&'static str>,
    pub special_case: Option<&'static str>,
}

impl View for Endings {
    type V = Template;

    open spec fn view(&self) -> Template {
        Template {
            endings: slice_texts(self.endings@),
            special_case: match self.special_case {
                Some(label) => Some(label@),
                None => None,
            },
        }
    }
}

/// The template that a table lookup found, if any.
pub open spec fn found(endings: Option<Endings>) -> Option<Template> {
    match endings {
        Some(e) => Some(e@),
        None => None,
    }
}

/// What a table lookup makes of the root parts: their rendering under the
/// template found, or the parts as they came where the table has none.
pub open spec fn generated(parts: Seq<Seq<char>>, template: Option<Template>) -> Seq<Seq<char>> {
    match template {
        Some(t) => rendered_parts(parts, t.endings, t.special_case),
        None => parts,
    }
}

/// Whether the root parts can be rendered under the template found.
pub open spec fn generable(parts: Seq<Seq<char>>, template: Option<Template>) -> bool {
    match template {
        Some(t) => parts_fit(parts, t.endings),
        None => true,
    }
}

/// The template of a noun's declension and subtype. Subtype 4 of the second
/// declension depends on gender and has a template for masculine and neuter
/// only.
pub open spec fn noun_template(major: int, minor: int, gender: Seq<char>) -> Option<Template> {
    if major == 1 && minor == 1 {
        // first declension
        Some(Template { endings: slice_texts(seq!["a", "ae"]), special_case: None })
    } else if major == 1 && minor == 6 {
        // Greek nouns
        Some(Template { endings: slice_texts(seq!["e", "es"]), special_case: None })
    } else if major == 1 && minor == 7 {
        Some(Template { endings: slice_texts(seq!["es", "ae"]), special_case: None })
    } else if major == 1 && minor == 8 {
        Some(Template { endings: slice_texts(seq!["as", "ae"]), special_case: None })
    } else if major == 2 && minor == 1 {
        // second declension
        Some(Template { endings: slice_texts(seq!["us", "i"]), special_case: None })
    } else if major == 2 && minor == 2 {
        Some(Template { endings: slice_texts(seq!["um", "i"]), special_case: None })
    } else if major == 2 && minor == 3 {
        Some(Template { endings: slice_texts(seq!["", "i"]), special_case: None })
    } else if major == 2 && minor == 4 {
        if gender == "M"@ {
            Some(Template { endings: slice_texts(seq!["us", "(i)"]), special_case: None })
        } else if gender == "N"@ {
            Some(Template { endings: slice_texts(seq!["um", "(i)"]), special_case: None })
        } else {
            None
        }
    } else if major == 2 && minor == 5 {
        Some(Template { endings: slice_texts(seq!["us", ""]), special_case: None })
    } else if major == 2 && (minor == 6 || minor == 7) {
        Some(Template { endings: slice_texts(seq!["os", "i"]), special_case: None })
    } else if major == 2 && minor == 8 {
        Some(Template { endings: slice_texts(seq!["on", "i"]), special_case: None })
    } else if major == 2 && minor == 9 {
        Some(Template { endings: slice_texts(seq!["us", "i"]), special_case: None })
    } else if major == 3 && (minor == 1 || minor == 2 || minor == 3 || minor == 4) {
        // third declension
        Some(Template { endings: slice_texts(seq!["", "is"]), special_case: None })
    } else if major == 3 && (minor == 7 || minor == 9) {
        Some(Template { endings: slice_texts(seq!["", "os/is"]), special_case: None })
    } else if major == 4 && minor == 1 {
        // fourth declension
        Some(Template { endings: slice_texts(seq!["us", "us"]), special_case: None })
    } else if major == 4 && minor == 2 {
        Some(Template { endings: slice_texts(seq!["u", "us"]), special_case: None })
    } else if major == 4 && minor == 3 {
        Some(Template { endings: slice_texts(seq!["us", "u"]), special_case: None })
    } else if major == 5 && minor == 1 {
        // fifth declension
        Some(Template { endings: slice_texts(seq!["es", "ei"]), special_case: None })
    } else if major == 9 && minor == 8 {
        // abbreviations and indeclinables
        Some(Template { endings: slice_texts(seq!["", ""]), special_case: Some("abbreviation"@) })
    } else if major == 9 && minor == 9 {
        Some(Template { endings: slice_texts(seq!["", ""]), special_case: Some("undeclined"@) })
    } else {
        None
    }
}

/// The template of a pronoun's class and subtype.
pub open spec fn pronoun_template(major: int, minor: int) -> Option<Template> {
    if major == 3 && minor == 1 {
        // proximal demonstratives (hic, haec, hoc)
        Some(Template { endings: slice_texts(seq!["ic", "aec", "oc"]), special_case: None })
    } else if major == 3 && minor == 2 {
        Some(Template { endings: slice_texts(seq!["ic", "aec", "uc"]), special_case: None })
    } else if major == 4 && minor == 1 {
        Some(Template { endings: slice_texts(seq!["s", "a", "d"]), special_case: None })
    } else if major == 4 && minor == 2 {
        Some(Template { endings: slice_texts(seq!["dem", "adem", "dem"]), special_case: None })
    } else if major == 6 && minor == 1 {
        // distal (ille, illa, illud) and medial (iste, ista, istud) demonstratives
        Some(Template { endings: slice_texts(seq!["e", "a", "ud"]), special_case: None })
    } else if major == 6 && minor == 2 {
        Some(Template { endings: slice_texts(seq!["e", "a", "um"]), special_case: None })
    } else if major == 9 && minor == 8 {
        // abbreviations and indeclinables
        Some(
            Template {
                endings: slice_texts(seq!["", "", ""]),
                special_case: Some("abbreviation"@),
            },
        )
    } else if major == 9 && minor == 9 {
        Some(Template { endings: slice_texts(seq!["", "", ""]), special_case: Some("undeclined"@) })
    } else {
        None
    }
}

/// The template of a declinable adjective in the positive degree.
pub open spec fn positive_adjective_template(major: int, minor: int) -> Option<Template> {
    if major == 1 && minor == 1 {
        // first declension
        Some(Template { endings: slice_texts(seq!["us", "a", "um"]), special_case: None })
    } else if major == 1 && (minor == 2 || minor == 4) {
        Some(Template { endings: slice_texts(seq!["", "a", "um"]), special_case: None })
    } else if major == 1 && minor == 3 {
        Some(
            Template {
                endings: slice_texts(seq!["us", "a", "um (gen -ius)"]),
                special_case: None,
            },
        )
    } else if major == 1 && minor == 5 {
        Some(Template { endings: slice_texts(seq!["us", "a", "ud"]), special_case: None })
    } else if major == 2 && minor == 1 {
        // second declension
        Some(Template { endings: slice_texts(seq!["", "e", ""]), special_case: None })
    } else if major == 2 && minor == 2 {
        Some(Template { endings: slice_texts(seq!["", "a", ""]), special_case: None })
    } else if major == 2 && minor == 3 {
        Some(Template { endings: slice_texts(seq!["es", "es", "es"]), special_case: None })
    } else if major == 2 && minor == 6 {
        Some(Template { endings: slice_texts(seq!["os", "os", ""]), special_case: None })
    } else if major == 2 && minor == 7 {
        Some(Template { endings: slice_texts(seq!["os", "", ""]), special_case: None })
    } else if major == 2 && minor == 8 {
        Some(Template { endings: slice_texts(seq!["", "", "on"]), special_case: None })
    } else if major == 3 && minor == 1 {
        // third declension
        Some(Template { endings: slice_texts(seq!["", "", "is"]), special_case: None })
    } else if major == 3 && minor == 2 {
        Some(Template { endings: slice_texts(seq!["is", "is", "e"]), special_case: None })
    } else if major == 3 && minor == 3 {
        Some(Template { endings: slice_texts(seq!["", "is", "e"]), special_case: None })
    } else if major == 3 && minor == 6 {
        Some(Template { endings: slice_texts(seq!["", "", "os"]), special_case: None })
    } else {
        None
    }
}

/// The template of a declinable adjective whose degree is not known: the
/// positive forms followed by the comparative and superlative endings.
pub open spec fn unknown_degree_adjective_template(major: int, minor: int) -> Option<Template> {
    if major == 1 && minor == 1 {
        // first declension
        Some(
            Template {
                endings: slice_texts(seq!["us", "a -um", "or -or -us", "mus -a -um"]),
                special_case: None,
            },
        )
    } else if major == 1 && minor == 2 {
        Some(
            Template {
                endings: slice_texts(seq!["", "a -um", "or -or -us", "mus -a -um"]),
                special_case: None,
            },
        )
    } else if major == 3 && minor == 1 {
        // third declension
        Some(
            Template {
                endings: slice_texts(seq!["", "is (gen .)", "or -or -us", "mus -a -um"]),
                special_case: None,
            },
        )
    } else if major == 3 && minor == 2 {
        Some(
            Template {
                endings: slice_texts(seq!["is", "e", "or -or -us", "mus -a -um"]),
                special_case: None,
            },
        )
    } else if major == 3 && minor == 3 {
        Some(
            Template {
                endings: slice_texts(seq!["", "is -e", "or -or -us", "mus -a -um"]),
                special_case: None,
            },
        )
    } else {
        None
    }
}

/// The template of an adjective. An abbreviation and an adjective that does
/// not decline have the template of their kind in every degree. Of the
/// others, the comparative and the superlative have one template each,
/// whatever the declension.
pub open spec fn adjective_template(major: int, minor: int, comparison: Comparison) -> Option<
    Template,
> {
    if major == 9 && minor == 8 {
        Some(
            Template {
                endings: slice_texts(seq!["", "", ""]),
                special_case: Some("abbreviation"@),
            },
        )
    } else if major == 9 && minor == 9 {
        Some(
            Template {
                endings: slice_texts(seq!["", "", ""]),
                special_case: Some("undeclined"@),
            },
        )
    } else {
        match comparison {
            Comparison::COMP => Some(
                Template { endings: slice_texts(seq!["or", "or", "us"]), special_case: None },
            ),
            Comparison::SUPER => Some(
                Template { endings: slice_texts(seq!["mus", "ma", "mum"]), special_case: None },
            ),
            Comparison::POS => positive_adjective_template(major, minor),
            Comparison::X => unknown_degree_adjective_template(major, minor),
        }
    }
}

/// The template of a verb's conjugation and subtype.
pub open spec fn verb_template(major: int, minor: int) -> Option<Template> {
    if major == 1 && minor == 1 {
        Some(Template { endings: slice_texts(seq!["o", "are", "i", "us"]), special_case: None })
    } else if major == 2 && minor == 1 {
        Some(Template { endings: slice_texts(seq!["eo", "ere", "i", "us"]), special_case: None })
    } else if major == 3 && minor == 1 {
        Some(Template { endings: slice_texts(seq!["o", "ere", "i", "us"]), special_case: None })
    } else if major == 3 && minor == 2 {
        Some(Template { endings: slice_texts(seq!["o", "re", "i", "us"]), special_case: None })
    } else if major == 3 && minor == 3 {
        Some(Template { endings: slice_texts(seq!["o", "eri", "i", "us"]), special_case: None })
    } else if major == 3 && minor == 4 {
        Some(Template { endings: slice_texts(seq!["o", "ire", "i", "us"]), special_case: None })
    } else if major == 5 && minor == 2 {
        Some(Template { endings: slice_texts(seq!["um", "esse", "i", ""]), special_case: None })
    } else if major == 6 && minor == 1 {
        Some(Template { endings: slice_texts(seq!["o", "re", "i", "us"]), special_case: None })
    } else if major == 6 && minor == 2 {
        Some(Template { endings: slice_texts(seq!["o", "le", "i", ""]), special_case: None })
    } else if major == 7 && minor == 1 {
        Some(Template { endings: slice_texts(seq!["o", "", "", ""]), special_case: None })
    } else if major == 7 && minor == 2 {
        Some(Template { endings: slice_texts(seq!["am", "iam", "", ""]), special_case: None })
    } else if major == 7 && minor == 3 {
        Some(Template { endings: slice_texts(seq!["o", "se", "", ""]), special_case: None })
    } else if major == 8 && minor == 1 {
        Some(Template { endings: slice_texts(seq!["o", "are", "i", ""]), special_case: None })
    } else if major == 8 && minor == 2 {
        Some(Template { endings: slice_texts(seq!["o", "ere", "", ""]), special_case: None })
    } else if major == 8 && minor == 3 {
        Some(Template { endings: slice_texts(seq!["o", "ere", "i", ""]), special_case: None })
    } else if major == 9 && minor == 9 {
        Some(
            Template {
                endings: slice_texts(seq!["", "", "", ""]),
                special_case: Some("undeclined"@),
            },
        )
    } else {
        None
    }
}

/// Looks up the endings of a noun.
pub fn noun_endings(major: i8, minor: i8, gender: &str) -> (r: Option<Endings>)
    ensures
        found(r) == noun_template(major as int, minor as int, gender@),
{
    match (major, minor) {
        // first declension
        (1, 1) => Some(Endings { endings: vec!["a", "ae"], special_case: None }),
        // Greek nouns
        (1, 6) => Some(Endings { endings: vec!["e", "es"], special_case: None }),
        (1, 7) => Some(Endings { endings: vec!["es", "ae"], special_case: None }),
        (1, 8) => Some(Endings { endings: vec!["as", "ae"], special_case: None }),
        // second declension
        (2, 1) => Some(Endings { endings: vec!["us", "i"], special_case: None }),
        (2, 2) => Some(Endings { endings: vec!["um", "i"], special_case: None }),
        (2, 3) => Some(Endings { endings: vec!["", "i"], special_case: None }),
        (2, 4) => {
            if same_text(gender, "M") {
                Some(Endings { endings: vec!["us", "(i)"], special_case: None })
            } else if same_text(gender, "N") {
                Some(Endings { endings: vec!["um", "(i)"], special_case: None })
            } else {
                None
            }
        },
        (2, 5) => Some(Endings { endings: vec!["us", ""], special_case: None }),
        (2, 6) | (2, 7) => Some(Endings { endings: vec!["os", "i"], special_case: None }),
        (2, 8) => Some(Endings { endings: vec!["on", "i"], special_case: None }),
        (2, 9) => Some(Endings { endings: vec!["us", "i"], special_case: None }),
        // third declension
        (3, 1) | (3, 2) | (3, 3) | (3, 4) => Some(
            Endings {
                endings: vec!["", "is"],
                special_case: None,
            },
        ),
        (3, 7) | (3, 9) => Some(Endings { endings: vec!["", "os/is"], special_case: None }),
        // fourth declension
        (4, 1) => Some(Endings { endings: vec!["us", "us"], special_case: None }),
        (4, 2) => Some(Endings { endings: vec!["u", "us"], special_case: None }),
        (4, 3) => Some(Endings { endings: vec!["us", "u"], special_case: None }),
        // fifth declension
        (5, 1) => Some(Endings { endings: vec!["es", "ei"], special_case: None }),
        // abbreviations and indeclinables
        (9, 8) => Some(Endings { endings: vec!["", ""], special_case: Some("abbreviation") }),
        (9, 9) => Some(Endings { endings: vec!["", ""], special_case: Some("undeclined") }),
        _ => None,
    }
}

/// Looks up the endings of a pronoun.
pub fn pronoun_endings(major: i8, minor: i8) -> (r: Option<Endings>)
    ensures
        found(r) == pronoun_template(major as int, minor as int),
{
    match (major, minor) {
        // proximal demonstratives (hic, haec, hoc)
        (3, 1) => Some(Endings { endings: vec!["ic", "aec", "oc"], special_case: None }),
        (3, 2) => Some(Endings { endings: vec!["ic", "aec", "uc"], special_case: None }),
        (4, 1) => Some(Endings { endings: vec!["s", "a", "d"], special_case: None }),
        (4, 2) => Some(Endings { endings: vec!["dem", "adem", "dem"], special_case: None }),
        // distal (ille, illa, illud) and medial (iste, ista, istud) demonstratives
        (6, 1) => Some(Endings { endings: vec!["e", "a", "ud"], special_case: None }),
        (6, 2) => Some(Endings { endings: vec!["e", "a", "um"], special_case: None }),
        // abbreviations and indeclinables
        (9, 8) => Some(Endings { endings: vec!["", "", ""], special_case: Some("abbreviation") }),
        (9, 9) => Some(Endings { endings: vec!["", "", ""], special_case: Some("undeclined") }),
        _ => None,
    }
}

/// Looks up the endings of an adjective in the given degree of comparison.
pub fn adjective_endings(major: i8, minor: i8, comparison: &Comparison) -> (r: Option<Endings>)
    ensures
        found(r) == adjective_template(major as int, minor as int, *comparison),
{
    match (major, minor) {
        // abbreviations and indeclinables, in every degree
        (9, 8) => Some(Endings { endings: vec!["", "", ""], special_case: Some("abbreviation") }),
        (9, 9) => Some(Endings { endings: vec!["", "", ""], special_case: Some("undeclined") }),
        _ => match comparison {
            Comparison::COMP => Some(
                Endings { endings: vec!["or", "or", "us"], special_case: None },
            ),
            Comparison::SUPER => Some(
                Endings { endings: vec!["mus", "ma", "mum"], special_case: None },
            ),
            Comparison::POS => {
                match (major, minor) {
                    // first declension
                    (1, 1) => Some(Endings { endings: vec!["us", "a", "um"], special_case: None }),
                    (1, 2) | (1, 4) => Some(
                        Endings {
                            endings: vec!["", "a", "um"],
                            special_case: None,
                        },
                    ),
                    (1, 3) => Some(
                        Endings {
                            endings: vec!["us", "a", "um (gen -ius)"],
                            special_case: None,
                        },
                    ),
                    (1, 5) => Some(Endings { endings: vec!["us", "a", "ud"], special_case: None }),
                    // second declension
                    (2, 1) => Some(Endings { endings: vec!["", "e", ""], special_case: None }),
                    (2, 2) => Some(Endings { endings: vec!["", "a", ""], special_case: None }),
                    (2, 3) => Some(Endings { endings: vec!["es", "es", "es"], special_case: None }),
                    (2, 6) => Some(Endings { endings: vec!["os", "os", ""], special_case: None }),
                    (2, 7) => Some(Endings { endings: vec!["os", "", ""], special_case: None }),
                    (2, 8) => Some(Endings { endings: vec!["", "", "on"], special_case: None }),
                    // third declension
                    (3, 1) => Some(Endings { endings: vec!["", "", "is"], special_case: None }),
                    (3, 2) => Some(Endings { endings: vec!["is", "is", "e"], special_case: None }),
                    (3, 3) => Some(Endings { endings: vec!["", "is", "e"], special_case: None }),
                    (3, 6) => Some(Endings { endings: vec!["", "", "os"], special_case: None }),
                    _ => None,
                }
            },
            Comparison::X => {
                match (major, minor) {
                    // first declension
                    (1, 1) => Some(
                        Endings {
                            endings: vec!["us", "a -um", "or -or -us", "mus -a -um"],
                            special_case: None,
                        },
                    ),
                    (1, 2) => Some(
                        Endings {
                            endings: vec!["", "a -um", "or -or -us", "mus -a -um"],
                            special_case: None,
                        },
                    ),
                    // third declension
                    (3, 1) => Some(
                        Endings {
                            endings: vec!["", "is (gen .)", "or -or -us", "mus -a -um"],
                            special_case: None,
                        },
                    ),
                    (3, 2) => Some(
                        Endings {
                            endings: vec!["is", "e", "or -or -us", "mus -a -um"],
                            special_case: None,
                        },
                    ),
                    (3, 3) => Some(
                        Endings {
                            endings: vec!["", "is -e", "or -or -us", "mus -a -um"],
                            special_case: None,
                        },
                    ),
                    _ => None,
                }
            },
        },
    }
}

/// Looks up the endings of a verb.
pub fn verb_endings(major: i8, minor: i8) -> (r: Option<Endings>)
    ensures
        found(r) == verb_template(major as int, minor as int),
{
    match (major, minor) {
        (1, 1) => Some(Endings { endings: vec!["o", "are", "i", "us"], special_case: None }),
        (2, 1) => Some(Endings { endings: vec!["eo", "ere", "i", "us"], special_case: None }),
        (3, 1) => Some(Endings { endings: vec!["o", "ere", "i", "us"], special_case: None }),
        (3, 2) => Some(Endings { endings: vec!["o", "re", "i", "us"], special_case: None }),
        (3, 3) => Some(Endings { endings: vec!["o", "eri", "i", "us"], special_case: None }),
        (3, 4) => Some(Endings { endings: vec!["o", "ire", "i", "us"], special_case: None }),
        (5, 2) => Some(Endings { endings: vec!["um", "esse", "i", ""], special_case: None }),
        (6, 1) => Some(Endings { endings: vec!["o", "re", "i", "us"], special_case: None }),
        (6, 2) => Some(Endings { endings: vec!["o", "le", "i", ""], special_case: None }),
        (7, 1) => Some(Endings { endings: vec!["o", "", "", ""], special_case: None }),
        (7, 2) => Some(Endings { endings: vec!["am", "iam", "", ""], special_case: None }),
        (7, 3) => Some(Endings { endings: vec!["o", "se", "", ""], special_case: None }),
        (8, 1) => Some(Endings { endings: vec!["o", "are", "i", ""], special_case: None }),
        (8, 2) => Some(Endings { endings: vec!["o", "ere", "", ""], special_case: None }),
        (8, 3) => Some(Endings { endings: vec!["o", "ere", "i", ""], special_case: None }),
        (9, 9) => Some(Endings { endings: vec!["", "", "", ""], special_case: Some("undeclined") }),
        _ => None,
    }
}

/// Whether the root parts can be rendered with the endings of one template.
pub fn fits_endings(parts: &Vec<String>, endings: &Vec<&str>) -> (r: bool)
    ensures
        r == parts_fit(texts(parts@), slice_texts(endings@)),
{
    if endings_all_empty(endings) {
        return parts.len() >= 1;
    }
    let mut i: usize = 0;
    while i < parts.len()
        invariant
            i <= parts.len(),
            forall|j: int|
                0 <= j < i ==> is_missing(#[trigger] texts(parts@)[j]) || j < endings@.len(),
            !all_empty(slice_texts(endings@)),
        decreases parts.len() - i,
    {
        let part = &parts[i];
        assert(texts(parts@)[i as int] == part@);
        if i >= endings.len() && !(part.as_str().is_empty() || same_text(part.as_str(), "zzz")) {
            assert(!is_missing(texts(parts@)[i as int]) && i >= slice_texts(endings@).len());
            return false;
        }
        i += 1;
    }
    true
}

/// Whether the root parts can be rendered under the result of a lookup.
pub fn fits_lookup(parts: &Vec<String>, lookup: &Option<Endings>) -> (r: bool)
    ensures
        r == generable(texts(parts@), found(*lookup)),
{
    match lookup {
        Some(e) => fits_endings(parts, &e.endings),
        None => true,
    }
}

/// Renders the root parts under the result of a lookup.
fn apply_lookup(parts: Vec<String>, lookup: Option<Endings>) -> (r: Vec<String>)
    requires
        generable(texts(parts@), found(lookup)),
    ensures
        texts(r@) == generated(texts(parts@), found(lookup)),
{
    match lookup {
        Some(e) => set_principle_parts(parts, e.endings, e.special_case),
        None => parts,
    }
}

/// The citation forms of a noun: nominative and genitive singular.
pub fn generate_for_nouns(number_types: Vec<NValue>, gender: String, parts: Vec<String>) -> (r:
    Vec<String>)
    requires
        generable(
            texts(parts@),
            noun_template(
                number_at(views(number_types@), 0),
                number_at(views(number_types@), 1),
                gender@,
            ),
        ),
    ensures
        texts(r@) == generated(
            texts(parts@),
            noun_template(
                number_at(views(number_types@), 0),
                number_at(views(number_types@), 1),
                gender@,
            ),
        ),
{
    let (num_type_1, num_type_2) = translate_number_types(number_types);
    apply_lookup(parts, noun_endings(num_type_1, num_type_2, gender.as_str()))
}

/// The citation forms of a pronoun: masculine, feminine and neuter.
pub fn generate_for_pronouns(number_types: Vec<NValue>, parts: Vec<String>) -> (r: Vec<String>)
    requires
        generable(
            texts(parts@),
            pronoun_template(
                number_at(views(number_types@), 0),
                number_at(views(number_types@), 1),
            ),
        ),
    ensures
        texts(r@) == generated(
            texts(parts@),
            pronoun_template(
                number_at(views(number_types@), 0),
                number_at(views(number_types@), 1),
            ),
        ),
{
    let (num_type_1, num_type_2) = translate_number_types(number_types);
    apply_lookup(parts, pronoun_endings(num_type_1, num_type_2))
}

/// The citation forms of an adjective in the given degree of comparison.
pub fn generate_for_adjectives(
    number_types: Vec<NValue>,
    parts: Vec<String>,
    comparison: Comparison,
) -> (r: Vec<String>)
    requires
        generable(
            texts(parts@),
            adjective_template(
                number_at(views(number_types@), 0),
                number_at(views(number_types@), 1),
                comparison,
            ),
        ),
    ensures
        texts(r@) == generated(
            texts(parts@),
            adjective_template(
                number_at(views(number_types@), 0),
                number_at(views(number_types@), 1),
                comparison,
            ),
        ),
{
    let (num_type_1, num_type_2) = translate_number_types(number_types);
    apply_lookup(parts, adjective_endings(num_type_1, num_type_2, &comparison))
}

/// The four principal parts of a verb.
pub fn generate_for_verbs(number_types: Vec<NValue>, parts: Vec<String>) -> (r: Vec<String>)
    requires
        generable(
            texts(parts@),
            verb_template(
                number_at(views(number_types@), 0),
                number_at(views(number_types@), 1),
            ),
        ),
    ensures
        texts(r@) == generated(
            texts(parts@),
            verb_template(
                number_at(views(number_types@), 0),
                number_at(views(number_types@), 1),
            ),
        ),
{
    let (num_type_1, num_type_2) = translate_number_types(number_types);
    apply_lookup(parts, verb_endings(num_type_1, num_type_2))
}

/// Whether `generate_for_nouns` accepts these arguments.
pub fn can_generate_for_nouns(
    number_types: &Vec<NValue>,
    gender: &str,
    parts: &Vec<String>,
) -> (r: bool)
    ensures
        r == generable(
            texts(parts@),
            noun_template(
                number_at(views(number_types@), 0),
                number_at(views(number_types@), 1),
                gender@,
            ),
        ),
{
    let (num_type_1, num_type_2) = code_pair(number_types);
    fits_lookup(parts, &noun_endings(num_type_1, num_type_2, gender))
}

/// Whether `generate_for_pronouns` accepts these arguments.
pub fn can_generate_for_pronouns(number_types: &Vec<NValue>, parts: &Vec<String>) -> (r: bool)
    ensures
        r == generable(
            texts(parts@),
            pronoun_template(
                number_at(views(number_types@), 0),
                number_at(views(number_types@), 1),
            ),
        ),
{
    let (num_type_1, num_type_2) = code_pair(number_types);
    fits_lookup(parts, &pronoun_endings(num_type_1, num_type_2))
}

/// Whether `generate_for_adjectives` accepts these arguments.
pub fn can_generate_for_adjectives(
    number_types: &Vec<NValue>,
    parts: &Vec<String>,
    comparison: &Comparison,
) -> (r: bool)
    ensures
        r == generable(
            texts(parts@),
            adjective_template(
                number_at(views(number_types@), 0),
                number_at(views(number_types@), 1),
                *comparison,
            ),
        ),
{
    let (num_type_1, num_type_2) = code_pair(number_types);
    fits_lookup(parts, &adjective_endings(num_type_1, num_type_2, comparison))
}

/// Whether `generate_for_verbs` accepts these arguments.
pub fn can_generate_for_verbs(number_types: &Vec<NValue>, parts: &Vec<String>) -> (r: bool)
    ensures
        r == generable(
            texts(parts@),
            verb_template(
                number_at(views(number_types@), 0),
                number_at(views(number_types@), 1),
            ),
        ),
{
    let (num_type_1, num_type_2) = code_pair(number_types);
    fits_lookup(parts, &verb_endings(num_type_1, num_type_2))
}

/// The rendering of an indeclinable lemma: its first root, the separator
/// and the word "undeclined".
pub open spec fn undeclined(root: Seq<char>) -> Seq<char> {
    root + " | "@ + "undeclined"@
}

/// Under classification (9, 9) a noun, a pronoun, a verb and an adjective of
/// any degree are rendered as exactly one string, which ends in
/// "undeclined", whatever the roots hold.
pub proof fn lemma_undeclined_is_one_string(
    parts: Seq<Seq<char>>,
    gender: Seq<char>,
    comparison: Comparison,
)
    requires
        parts.len() >= 1,
    ensures
        generated(parts, noun_template(9, 9, gender)) == seq![undeclined(parts[0])],
        generated(parts, pronoun_template(9, 9)) == seq![undeclined(parts[0])],
        generated(parts, verb_template(9, 9)) == seq![undeclined(parts[0])],
        generated(parts, adjective_template(9, 9, comparison)) == seq![undeclined(parts[0])],
        is_suffix("undeclined"@, undeclined(parts[0])),
{
    reveal_strlit("");
    assert(all_empty(slice_texts(seq!["", ""])));
    assert(all_empty(slice_texts(seq!["", "", ""])));
    assert(all_empty(slice_texts(seq!["", "", "", ""])));
    let s = undeclined(parts[0]);
    let u = "undeclined"@;
    assert(s.subrange(s.len() - u.len(), s.len() as int) =~= u);
}

/// Under a template with at least one ending, a part that is the placeholder
/// root is rendered as the missing-part marker, and never with an ending.
pub proof fn lemma_placeholder_is_marked(parts: Seq<Seq<char>>, template: Template, i: int)
    requires
        !all_empty(template.endings),
        0 <= i < parts.len(),
        parts[i] == "zzz"@,
    ensures
        generated(parts, Some(template)).len() == parts.len(),
        generated(parts, Some(template))[i] == "---"@,
{
}

} // verus!
