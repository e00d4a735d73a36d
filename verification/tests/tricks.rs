use whitakers_words::trick_list::{match_tricks_list, Trick};
use whitakers_words::tricks::{
    evaluate_roman_numeral, get_trick_lists, has_tricks, is_common_prefix, is_roman_digit,
    is_roman_number, is_vowel, iterate_over_tricks, translate_roman_digit_to_number, try_tricks,
    Operation,
};
use whitakers_words::word_mods::{flip, flip_flop};

#[test]
fn vowels_are_the_five_small_letters() {
    for c in ['a', 'e', 'i', 'o', 'u'] {
        assert!(is_vowel(c));
    }
    for c in ['b', 'y', 'A', 'E', ' ', 'z'] {
        assert!(!is_vowel(c));
    }
}

#[test]
fn roman_digits_in_either_case() {
    for c in ['I', 'V', 'X', 'L', 'C', 'D', 'M', 'i', 'v', 'x', 'l', 'c', 'd', 'm'] {
        assert!(is_roman_digit(c));
    }
    for c in ['A', 'a', '1', ' ', 'Z', 'n'] {
        assert!(!is_roman_digit(c));
    }
}

#[test]
fn roman_digit_values() {
    assert_eq!(translate_roman_digit_to_number('I'), 1);
    assert_eq!(translate_roman_digit_to_number('V'), 5);
    assert_eq!(translate_roman_digit_to_number('X'), 10);
    assert_eq!(translate_roman_digit_to_number('L'), 50);
    assert_eq!(translate_roman_digit_to_number('C'), 100);
    assert_eq!(translate_roman_digit_to_number('D'), 500);
    assert_eq!(translate_roman_digit_to_number('M'), 1000);
    assert_eq!(translate_roman_digit_to_number('m'), 1000);
    assert_eq!(translate_roman_digit_to_number('x'), 10);
}

#[test]
fn roman_numbers_hold_digits_only() {
    assert!(is_roman_number("MCMXCIV"));
    assert!(is_roman_number("mcmxciv"));
    assert!(is_roman_number(""));
    assert!(!is_roman_number("MCMXCIVA"));
    assert!(!is_roman_number("12"));
}

#[test]
fn mcmxciv_is_1994() {
    assert!(is_roman_number("MCMXCIV"));
    assert_eq!(evaluate_roman_numeral("MCMXCIV"), 1994);
}

#[test]
fn roman_numerals_add_and_subtract() {
    assert_eq!(evaluate_roman_numeral(""), 0);
    assert_eq!(evaluate_roman_numeral("I"), 1);
    assert_eq!(evaluate_roman_numeral("III"), 3);
    assert_eq!(evaluate_roman_numeral("IV"), 4);
    assert_eq!(evaluate_roman_numeral("iv"), 4);
    assert_eq!(evaluate_roman_numeral("IX"), 9);
    assert_eq!(evaluate_roman_numeral("XLII"), 42);
    assert_eq!(evaluate_roman_numeral("MMXXIV"), 2024);
    assert_eq!(evaluate_roman_numeral("MDCLXVI"), 1666);
    assert_eq!(evaluate_roman_numeral("IIX"), 10);
    assert_eq!(evaluate_roman_numeral("IVX"), 4);
}

#[test]
fn common_prefixes() {
    for p in ["dis", "ex", "in", "per", "prae", "pro", "re", "si", "sub", "super", "trans"] {
        assert!(is_common_prefix(p.to_string()));
    }
    for p in ["", "a", "ab", "Re", "re ", "supe", "transs"] {
        assert!(!is_common_prefix(p.to_string()));
    }
}

#[test]
fn flip_rewrites_the_beginning() {
    assert_eq!(flip("ae", "e", "aedes"), "edes");
    assert_eq!(flip("ae", "e", "edes"), "edes");
    assert_eq!(flip("ae", "e", "a"), "a");
    assert_eq!(flip("ae", "e", ""), "");
    assert_eq!(flip("ae", "e", "ae"), "e");
    assert_eq!(flip("z", "di", "zabolus"), "diabolus");
    assert_eq!(flip("ae", "e", "caedes"), "caedes");
}

#[test]
fn flip_flop_tries_the_first_then_the_second() {
    assert_eq!(flip_flop("adgn", "agn", "adgnosco"), "agnosco");
    assert_eq!(flip_flop("adgn", "agn", "agnosco"), "adgnosco");
    assert_eq!(flip_flop("adgn", "agn", "amo"), "amo");
    assert_eq!(flip_flop("es", "ess", "esse"), "essse");
    assert_eq!(flip_flop("ess", "es", "esse"), "ese");
}

#[test]
fn the_table_has_rules_for_seventeen_letters() {
    let with_rules = "adefghklmnopstuyz";
    for c in "abcdefghijklmnopqrstuvwxyz".chars() {
        assert_eq!(has_tricks(c), with_rules.contains(c));
        assert_eq!(!match_tricks_list(c).is_empty(), with_rules.contains(c));
    }
    assert!(!has_tricks('A'));
    assert!(match_tricks_list('A').is_empty());
}

#[test]
fn the_rules_of_a_letter_come_in_order() {
    let a = match_tricks_list('a');
    assert_eq!(a.len(), 10);
    assert_eq!(a[0], Trick::flip_flop("adgn", "agn"));
    assert_eq!(a[5], Trick::flip("ae", "e"));
    assert_eq!(a[9], Trick::flip("aur", "or"));
    let k = get_trick_lists("kaput".to_string());
    assert_eq!(k, vec![Trick::flip("k", "c"), Trick::flip("c", "k")]);
    assert_eq!(k[0].operation, Operation::Flip);
    assert_eq!(k[0].flip_flip3, "k");
    assert_eq!(k[0].flip_flip4, "c");
    assert_eq!(k[0].flip_flop1, "");
    let l = match_tricks_list('l');
    assert_eq!(l[0].operation, Operation::FlipFlop);
    assert_eq!(l[0].flip_flop1, "lub");
    assert_eq!(l[0].flip_flop2, "lib");
}

#[test]
fn one_pass_applies_each_rule_to_the_result_of_the_one_before() {
    assert_eq!(iterate_over_tricks(&match_tricks_list('a'), "adgnosco".to_string()), "agnosco");
    assert_eq!(iterate_over_tricks(&match_tricks_list('k'), "kaput".to_string()), "kaput");
    assert_eq!(iterate_over_tricks(&match_tricks_list('s'), "sustuli".to_string()), "subtuli");
    assert_eq!(iterate_over_tricks(&Vec::new(), "amo".to_string()), "amo");
}

#[test]
fn a_pass_ends_at_an_internal_or_slur_rule() {
    let internal = Trick {
        operation: Operation::Internal,
        flip_flop1: "",
        flip_flop2: "",
        flip_flip3: "",
        flip_flip4: "",
    };
    let slur = Trick { operation: Operation::Slur, ..internal };
    let rules = vec![Trick::flip("a", "b"), internal, Trick::flip("b", "c")];
    assert_eq!(iterate_over_tricks(&rules, "ax".to_string()), "bx");
    let rules = vec![slur, Trick::flip("a", "b")];
    assert_eq!(iterate_over_tricks(&rules, "ax".to_string()), "ax");
}

#[test]
fn a_word_without_rules_for_its_first_letter_is_unchanged() {
    for w in ["bonus", "puella", "caesar", "iam", "quod", "rex", "vir", "xenium", "", "Aedes", "1a"] {
        assert_eq!(try_tricks(w.to_string()), w);
    }
}

#[test]
fn tricks_make_two_passes() {
    assert_eq!(try_tricks("alo".to_string()), "halo");
    assert_eq!(try_tricks("aedes".to_string()), "edes");
    assert_eq!(try_tricks("dampnum".to_string()), "damnum");
    assert_eq!(try_tricks("ydolum".to_string()), "idolum");
    assert_eq!(try_tricks("zabolus".to_string()), "diabolus");
    assert_eq!(try_tricks("fama".to_string()), "phama");
    assert_eq!(try_tricks("philosophia".to_string()), "filosophia");
    assert_eq!(try_tricks("sustuli".to_string()), "suptuli");
    assert_eq!(try_tricks("uolgus".to_string()), "vulgus");
    assert_eq!(try_tricks("e".to_string()), "ae");
    assert_eq!(try_tricks("gnatus".to_string()), "natus");
    assert_eq!(try_tricks("natus".to_string()), "gnatus");
}

#[test]
fn a_second_pass_undoes_a_flip_flop() {
    assert_eq!(try_tricks("adgnosco".to_string()), "adgnosco");
    assert_eq!(try_tricks("nihil".to_string()), "nihil");
    assert_eq!(try_tricks("transversus".to_string()), "transversus");
    assert_eq!(try_tricks("kaput".to_string()), "kaput");
}
