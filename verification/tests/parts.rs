use whitakers_words::data::NValue;
use whitakers_words::principle_part_generator::{
    adjective_endings, can_generate_for_adjectives, can_generate_for_nouns,
    can_generate_for_pronouns, can_generate_for_verbs, code_pair, fits_endings,
    generate_for_adjectives, generate_for_nouns, generate_for_pronouns, generate_for_verbs,
    noun_endings, pronoun_endings, set_principle_parts, translate_number_types, verb_endings,
    Comparison,
};

fn code(major: i8, minor: i8) -> Vec<NValue> {
    vec![NValue::Integer(major), NValue::Integer(minor)]
}

fn strings(parts: &[&str]) -> Vec<String> {
    parts.iter().map(|p| p.to_string()).collect()
}

#[test]
fn first_declension_noun_gets_nominative_and_genitive() {
    let parts = strings(&["puell", "puell"]);
    assert!(can_generate_for_nouns(&code(1, 1), "F", &parts));
    let out = generate_for_nouns(code(1, 1), "F".to_string(), parts);
    assert_eq!(out, strings(&["puella", "puellae"]));
}

#[test]
fn first_conjugation_verb_with_missing_second_part() {
    let parts = strings(&["am", "zzz", "av", "at"]);
    assert!(can_generate_for_verbs(&code(1, 1), &parts));
    let out = generate_for_verbs(code(1, 1), parts);
    assert_eq!(out, strings(&["amo", "---", "avi", "atus"]));
}

#[test]
fn first_conjugation_verb_with_all_parts() {
    let out = generate_for_verbs(code(1, 1), strings(&["am", "am", "amav", "amat"]));
    assert_eq!(out, strings(&["amo", "amare", "amavi", "amatus"]));
}

#[test]
fn empty_part_is_marked_missing() {
    let out = generate_for_verbs(code(3, 1), strings(&["reg", "", "rex", "rect"]));
    assert_eq!(out, strings(&["rego", "---", "rexi", "rectus"]));
}

#[test]
fn undeclined_noun_is_one_string() {
    let out = generate_for_nouns(code(9, 9), "N".to_string(), strings(&["fas"]));
    assert_eq!(out, strings(&["fas | undeclined"]));
}

#[test]
fn undeclined_collapses_every_category() {
    let verbs = generate_for_verbs(code(9, 9), strings(&["inquam"]));
    assert_eq!(verbs, strings(&["inquam | undeclined"]));
    let pronouns = generate_for_pronouns(code(9, 9), strings(&["quid", "x"]));
    assert_eq!(pronouns, strings(&["quid | undeclined"]));
    let positive = generate_for_adjectives(code(9, 9), strings(&["nequam"]), Comparison::POS);
    assert_eq!(positive, strings(&["nequam | undeclined"]));
    let unknown = generate_for_adjectives(code(9, 9), strings(&["nequam"]), Comparison::X);
    assert_eq!(unknown, strings(&["nequam | undeclined"]));
}

#[test]
fn undeclined_keeps_a_placeholder_root_as_it_is() {
    let out = generate_for_nouns(code(9, 9), "".to_string(), strings(&["zzz"]));
    assert_eq!(out, strings(&["zzz | undeclined"]));
}

#[test]
fn abbreviation_is_one_string() {
    let nouns = generate_for_nouns(code(9, 8), "M".to_string(), strings(&["a", "b"]));
    assert_eq!(nouns, strings(&["a | abbreviation"]));
    let pronouns = generate_for_pronouns(code(9, 8), strings(&["q"]));
    assert_eq!(pronouns, strings(&["q | abbreviation"]));
    let verbs = generate_for_verbs(code(9, 8), strings(&["v"]));
    assert_eq!(verbs, strings(&["v"]));
}

#[test]
fn an_undeclined_adjective_is_one_string_in_every_degree() {
    for comparison in [Comparison::POS, Comparison::COMP, Comparison::SUPER, Comparison::X] {
        assert!(can_generate_for_adjectives(&code(9, 9), &strings(&["nequ"]), &comparison));
        let out = generate_for_adjectives(code(9, 9), strings(&["nequ"]), comparison);
        assert_eq!(out, strings(&["nequ | undeclined"]));
        let many = generate_for_adjectives(code(9, 9), strings(&["a", "b", "c", "d"]), comparison);
        assert_eq!(many, strings(&["a | undeclined"]));
        let template = adjective_endings(9, 9, &comparison).unwrap();
        assert_eq!(template.endings, vec!["", "", ""]);
        assert_eq!(template.special_case, Some("undeclined"));
    }
}

#[test]
fn an_abbreviated_adjective_is_one_string_in_every_degree() {
    for comparison in [Comparison::POS, Comparison::COMP, Comparison::SUPER, Comparison::X] {
        let out = generate_for_adjectives(code(9, 8), strings(&["q", "r"]), comparison);
        assert_eq!(out, strings(&["q | abbreviation"]));
        assert!(!can_generate_for_adjectives(&code(9, 8), &Vec::new(), &comparison));
    }
}

#[test]
fn a_declinable_adjective_takes_the_endings_of_its_degree() {
    let comparative = generate_for_adjectives(code(9, 7), strings(&["meli"]), Comparison::COMP);
    assert_eq!(comparative, strings(&["melior"]));
    let superlative = generate_for_adjectives(code(8, 9), strings(&["opti"]), Comparison::SUPER);
    assert_eq!(superlative, strings(&["optimus"]));
    let positive = generate_for_adjectives(code(9, 7), strings(&["bon"]), Comparison::POS);
    assert_eq!(positive, strings(&["bon"]));
}

#[test]
fn second_declension_subtype_four_depends_on_gender() {
    let masculine = generate_for_nouns(code(2, 4), "M".to_string(), strings(&["fili", "fili"]));
    assert_eq!(masculine, strings(&["filius", "fili(i)"]));
    let neuter = generate_for_nouns(code(2, 4), "N".to_string(), strings(&["negoti", "negoti"]));
    assert_eq!(neuter, strings(&["negotium", "negoti(i)"]));
    let other = generate_for_nouns(code(2, 4), "F".to_string(), strings(&["x", "y"]));
    assert_eq!(other, strings(&["x", "y"]));
    let lower = generate_for_nouns(code(2, 4), "m".to_string(), strings(&["x", "y"]));
    assert_eq!(lower, strings(&["x", "y"]));
}

#[test]
fn unrecognised_code_passes_the_roots_through() {
    let out = generate_for_nouns(code(7, 7), "M".to_string(), strings(&["abc", "zzz", ""]));
    assert_eq!(out, strings(&["abc", "zzz", ""]));
    let verbs = generate_for_verbs(code(4, 1), strings(&["aud"]));
    assert_eq!(verbs, strings(&["aud"]));
    let none = generate_for_pronouns(Vec::new(), Vec::new());
    assert_eq!(none, Vec::<String>::new());
}

#[test]
fn noun_table_rows() {
    let cases: Vec<((i8, i8), [&str; 2])> = vec![
        ((1, 6), ["xe", "xes"]),
        ((1, 7), ["xes", "xae"]),
        ((1, 8), ["xas", "xae"]),
        ((2, 1), ["xus", "xi"]),
        ((2, 2), ["xum", "xi"]),
        ((2, 3), ["x", "xi"]),
        ((2, 5), ["xus", "x"]),
        ((2, 6), ["xos", "xi"]),
        ((2, 7), ["xos", "xi"]),
        ((2, 8), ["xon", "xi"]),
        ((2, 9), ["xus", "xi"]),
        ((3, 1), ["x", "xis"]),
        ((3, 4), ["x", "xis"]),
        ((3, 7), ["x", "xos/is"]),
        ((3, 9), ["x", "xos/is"]),
        ((4, 1), ["xus", "xus"]),
        ((4, 2), ["xu", "xus"]),
        ((4, 3), ["xus", "xu"]),
        ((5, 1), ["xes", "xei"]),
    ];
    for ((major, minor), expected) in cases {
        let out = generate_for_nouns(code(major, minor), "".to_string(), strings(&["x", "x"]));
        assert_eq!(out, strings(&expected));
    }
}

#[test]
fn pronoun_table_rows() {
    let hic = generate_for_pronouns(code(3, 1), strings(&["h", "h", "h"]));
    assert_eq!(hic, strings(&["hic", "haec", "hoc"]));
    let is = generate_for_pronouns(code(4, 1), strings(&["i", "e", "i"]));
    assert_eq!(is, strings(&["is", "ea", "id"]));
    let idem = generate_for_pronouns(code(4, 2), strings(&["i", "e", "i"]));
    assert_eq!(idem, strings(&["idem", "eadem", "idem"]));
    let ille = generate_for_pronouns(code(6, 1), strings(&["ill", "ill", "ill"]));
    assert_eq!(ille, strings(&["ille", "illa", "illud"]));
    let ipse = generate_for_pronouns(code(6, 2), strings(&["ips", "ips", "ips"]));
    assert_eq!(ipse, strings(&["ipse", "ipsa", "ipsum"]));
}

#[test]
fn adjective_table_rows() {
    let bonus = generate_for_adjectives(code(1, 1), strings(&["bon", "bon", "bon"]), Comparison::POS);
    assert_eq!(bonus, strings(&["bonus", "bona", "bonum"]));
    let alius = generate_for_adjectives(code(1, 5), strings(&["ali", "ali", "ali"]), Comparison::POS);
    assert_eq!(alius, strings(&["alius", "alia", "aliud"]));
    let totus = generate_for_adjectives(code(1, 3), strings(&["tot", "tot", "tot"]), Comparison::POS);
    assert_eq!(totus, strings(&["totus", "tota", "totum (gen -ius)"]));
    let omnis = generate_for_adjectives(code(3, 2), strings(&["omn", "omn", "omn"]), Comparison::POS);
    assert_eq!(omnis, strings(&["omnis", "omnis", "omne"]));
    let comparative = generate_for_adjectives(code(1, 1), strings(&["alti", "alti", "alti"]), Comparison::COMP);
    assert_eq!(comparative, strings(&["altior", "altior", "altius"]));
    let superlative = generate_for_adjectives(code(3, 2), strings(&["altissi", "altissi", "altissi"]), Comparison::SUPER);
    assert_eq!(superlative, strings(&["altissimus", "altissima", "altissimum"]));
    let unknown = generate_for_adjectives(
        code(1, 1),
        strings(&["alt", "alt", "alti", "altissi"]),
        Comparison::X,
    );
    assert_eq!(unknown, strings(&["altus", "alta -um", "altior -or -us", "altissimus -a -um"]));
    let third = generate_for_adjectives(
        code(3, 2),
        strings(&["fort", "fort", "forti", "fortissi"]),
        Comparison::X,
    );
    assert_eq!(third, strings(&["fortis", "forte", "fortior -or -us", "fortissimus -a -um"]));
}

#[test]
fn verb_table_rows() {
    let second = generate_for_verbs(code(2, 1), strings(&["mon", "mon", "monu", "monit"]));
    assert_eq!(second, strings(&["moneo", "monere", "monui", "monitus"]));
    let esse = generate_for_verbs(code(5, 2), strings(&["s", "", "fu", "fut"]));
    assert_eq!(esse, strings(&["sum", "---", "fui", "fut"]));
    let defective = generate_for_verbs(code(7, 2), strings(&["inqu", "inqu", "", ""]));
    assert_eq!(defective, strings(&["inquam", "inquiam", "---", "---"]));
    let velle = generate_for_verbs(code(6, 2), strings(&["vol", "vel", "volu", "zzz"]));
    assert_eq!(velle, strings(&["volo", "velle", "volui", "---"]));
}

#[test]
fn set_principle_parts_appends_each_ending() {
    let out = set_principle_parts(strings(&["a", "b"]), vec!["x", "y", "z"], None);
    assert_eq!(out, strings(&["ax", "by"]));
    let special = set_principle_parts(strings(&["a", "b"]), vec!["", ""], Some("label"));
    assert_eq!(special, strings(&["a | label"]));
    let bare = set_principle_parts(strings(&["a"]), vec![""], None);
    assert_eq!(bare, strings(&["a | "]));
    let no_endings = set_principle_parts(strings(&["a"]), Vec::new(), None);
    assert_eq!(no_endings, strings(&["a | "]));
}

#[test]
fn a_missing_part_needs_no_ending() {
    assert!(fits_endings(&strings(&["a", "zzz", ""]), &vec!["x"]));
    let out = set_principle_parts(strings(&["a", "zzz", ""]), vec!["x"], None);
    assert_eq!(out, strings(&["ax", "---", "---"]));
}

#[test]
fn parts_that_do_not_fit_are_reported() {
    assert!(!fits_endings(&strings(&["a", "b"]), &vec!["x"]));
    assert!(!fits_endings(&Vec::new(), &vec!["", ""]));
    assert!(fits_endings(&Vec::new(), &vec!["x"]));
    assert!(!can_generate_for_nouns(&code(1, 1), "F", &strings(&["a", "b", "c"])));
    assert!(!can_generate_for_nouns(&code(9, 9), "F", &Vec::new()));
    assert!(can_generate_for_nouns(&code(7, 7), "F", &strings(&["a", "b", "c"])));
    assert!(!can_generate_for_pronouns(&code(3, 1), &strings(&["a", "b", "c", "d"])));
    assert!(!can_generate_for_verbs(&code(1, 1), &strings(&["a", "b", "c", "d", "e"])));
    assert!(can_generate_for_verbs(&code(1, 1), &strings(&["a", "b", "c", "d", "zzz"])));
    assert!(!can_generate_for_adjectives(
        &code(1, 1),
        &strings(&["a", "b", "c", "d"]),
        &Comparison::POS
    ));
    assert!(can_generate_for_adjectives(
        &code(1, 1),
        &strings(&["a", "b", "c", "d"]),
        &Comparison::X
    ));
}

#[test]
fn classification_code_reads_two_integers() {
    assert_eq!(translate_number_types(code(3, 2)), (3, 2));
    assert_eq!(translate_number_types(Vec::new()), (0, 0));
    assert_eq!(translate_number_types(vec![NValue::Integer(5)]), (5, 0));
    assert_eq!(
        translate_number_types(vec![NValue::Text("x".to_string()), NValue::Integer(4)]),
        (0, 4)
    );
    assert_eq!(code_pair(&vec![NValue::Integer(-1), NValue::Text("9".to_string())]), (-1, 0));
}

#[test]
fn lookups_return_the_template() {
    let noun = noun_endings(1, 1, "F").unwrap();
    assert_eq!(noun.endings, vec!["a", "ae"]);
    assert_eq!(noun.special_case, None);
    assert!(noun_endings(2, 4, "C").is_none());
    assert!(noun_endings(0, 0, "").is_none());
    let pronoun = pronoun_endings(9, 8).unwrap();
    assert_eq!(pronoun.endings, vec!["", "", ""]);
    assert_eq!(pronoun.special_case, Some("abbreviation"));
    let verb = verb_endings(8, 2).unwrap();
    assert_eq!(verb.endings, vec!["o", "ere", "", ""]);
    let adjective = adjective_endings(3, 3, &Comparison::X).unwrap();
    assert_eq!(adjective.endings, vec!["", "is -e", "or -or -us", "mus -a -um"]);
    assert!(adjective_endings(5, 5, &Comparison::POS).is_none());
    assert_eq!(adjective_endings(5, 5, &Comparison::SUPER).unwrap().endings, vec!["mus", "ma", "mum"]);
}
