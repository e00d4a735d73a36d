use crate::tricks::Operation;
use vstd::prelude::*;

verus! {

/// One spelling rule: the operation and the two beginnings that it
/// exchanges. A flip-flop reads `flip_flop1` and `flip_flop2`, a flip reads
/// `flip_flip3` and `flip_flip4`; the pair that a rule does not read is empty.
#[derive(Debug, Clone, Copy, PartialEq, Eq)]
pub struct Trick {
    pub operation: Operation,
    pub flip_flop1: &'static str,
    pub flip_flop2: &'static str,
    pub flip_flip3: &'static str,
    pub flip_flip4: &'static str,
}

/// The rule that rewrites a leading `from` as `to`.
pub open spec fn flip_rule(from: &'static str, to: &'static str) -> Trick {
    Trick {
        operation: Operation::Flip,
        flip_flop1: "",
        flip_flop2: "",
        flip_flip3: from,
        flip_flip4: to,
    }
}

/// The rule that exchanges a leading `first` and a leading `second`.
pub open spec fn flip_flop_rule(first: &'static str, second: &'static str) -> Trick {
    Trick {
        operation: Operation::FlipFlop,
        flip_flop1: first,
        flip_flop2: second,
        flip_flip3: "",
        flip_flip4: "",
    }
}

impl Trick {
    /// Makes the rule that rewrites a leading `from` as `to`.
    pub fn flip(from: &'static str, to: &'static str) -> (r: Trick)
        ensures
            r == flip_rule(from, to),
    {
        Trick {
            operation: Operation::Flip,
            flip_flop1: "",
            flip_flop2: "",
            flip_flip3: from,
            flip_flip4: to,
        }
    }

    /// Makes the rule that exchanges a leading `first` and a leading `second`.
    pub fn flip_flop(first: &'static str, second: &'static str) -> (r: Trick)
        ensures
            r == flip_flop_rule(first, second),
    {
        Trick {
            operation: Operation::FlipFlop,
            flip_flop1: first,
            flip_flop2: second,
            flip_flip3: "",
            flip_flip4: "",
        }
    }
}

/// Whether the table has rules for words that begin with `c`.
pub open spec fn is_trick_letter(c: char) -> bool {
    c == 'a' || c == 'd' || c == 'e' || c == 'f' || c == 'g' || c == 'h' || c == 'k' || c == 'l'
        || c == 'm' || c == 'n' || c == 'o' || c == 'p' || c == 's' || c == 't' || c == 'u' || c
        == 'y' || c == 'z'
}

/// The rules for words that begin with `c`, in the order in which they are
/// applied; empty for a letter without rules.
pub open spec fn trick_table(c: char) -> Seq<Trick> {
    if c == 'a' {
        seq![
            flip_flop_rule("adgn", "agn"),
            flip_flop_rule("adsc", "asc"),
            flip_flop_rule("adsp", "asp"),
            flip_flop_rule("arqui", "arci"),
            flip_flop_rule("arqu", "arcu"),
            flip_rule("ae", "e"),
            flip_rule("al", "hal"),
            flip_rule("am", "ham"),
            flip_rule("ar", "har"),
            flip_rule("aur", "or"),
        ]
    } else if c == 'd' {
        seq![
            flip_rule("dampn", "damn"),
            flip_flop_rule("dij", "disj"),
            flip_flop_rule("dir", "disr"),
            flip_flop_rule("dir", "der"),
            flip_flop_rule("del", "dil"),
        ]
    } else if c == 'e' {
        seq![
            flip_flop_rule("ecf", "eff"),
            flip_flop_rule("ecs", "exs"),
            flip_flop_rule("es", "ess"),
            flip_flop_rule("ex", "exs"),
            flip_rule("eid", "id"),
            flip_rule("el", "hel"),
            flip_rule("e", "ae"),
        ]
    } else if c == 'f' {
        seq![
            flip_flop_rule("faen", "fen"),
            flip_flop_rule("faen", "foen"),
            flip_flop_rule("fed", "foed"),
            flip_flop_rule("fet", "foet"),
            flip_rule("f", "ph"),
        ]
    } else if c == 'g' {
        seq![
            flip_rule("gna", "na"),
        ]
    } else if c == 'h' {
        seq![
            flip_rule("har", "ar"),
            flip_rule("hal", "al"),
            flip_rule("ham", "am"),
            flip_rule("hel", "el"),
            flip_rule("hol", "ol"),
            flip_rule("hum", "um"),
        ]
    } else if c == 'k' {
        seq![
            flip_rule("k", "c"),
            flip_rule("c", "k"),
        ]
    } else if c == 'l' {
        seq![
            flip_flop_rule("lub", "lib"),
        ]
    } else if c == 'm' {
        seq![
            flip_flop_rule("mani", "manu"),
        ]
    } else if c == 'n' {
        seq![
            flip_rule("na", "gna"),
            flip_flop_rule("nihil", "nil"),
        ]
    } else if c == 'o' {
        seq![
            flip_flop_rule("obt", "opt"),
            flip_flop_rule("obs", "ops"),
            flip_rule("ol", "hol"),
            flip_rule("opp", "op"),
            flip_rule("or", "aur"),
        ]
    } else if c == 'p' {
        seq![
            flip_rule("ph", "f"),
            flip_flop_rule("pre", "prae"),
        ]
    } else if c == 's' {
        seq![
            flip_flop_rule("subsc", "susc"),
            flip_flop_rule("subsp", "susp"),
            flip_flop_rule("subc", "susc"),
            flip_flop_rule("succ", "susc"),
            flip_flop_rule("subt", "supt"),
            flip_flop_rule("subt", "sust"),
        ]
    } else if c == 't' {
        seq![
            flip_flop_rule("transv", "trav"),
        ]
    } else if c == 'u' {
        seq![
            flip_rule("ul", "hul"),
            flip_rule("uol", "vul"),
        ]
    } else if c == 'y' {
        seq![
            flip_rule("y", "i"),
        ]
    } else if c == 'z' {
        seq![
            flip_rule("z", "di"),
        ]
    } else {
        Seq::empty()
    }
}

/// Looks up the rules for a word's first letter.
pub fn match_tricks_list(first_char: char) -> (r: Vec<Trick>)
    ensures
        r@ == trick_table(first_char),
{
    match first_char {
        'a' => {
            vec![
                Trick::flip_flop("adgn", "agn"),
                Trick::flip_flop("adsc", "asc"),
                Trick::flip_flop("adsp", "asp"),
                Trick::flip_flop("arqui", "arci"),
                Trick::flip_flop("arqu", "arcu"),
                Trick::flip("ae", "e"),
                Trick::flip("al", "hal"),
                Trick::flip("am", "ham"),
                Trick::flip("ar", "har"),
                Trick::flip("aur", "or"),
            ]
        },
        'd' => {
            vec![
                Trick::flip("dampn", "damn"),
                Trick::flip_flop("dij", "disj"),
                Trick::flip_flop("dir", "disr"),
                Trick::flip_flop("dir", "der"),
                Trick::flip_flop("del", "dil"),
            ]
        },
        'e' => {
            vec![
                Trick::flip_flop("ecf", "eff"),
                Trick::flip_flop("ecs", "exs"),
                Trick::flip_flop("es", "ess"),
                Trick::flip_flop("ex", "exs"),
                Trick::flip("eid", "id"),
                Trick::flip("el", "hel"),
                Trick::flip("e", "ae"),
            ]
        },
        'f' => {
            vec![
                Trick::flip_flop("faen", "fen"),
                Trick::flip_flop("faen", "foen"),
                Trick::flip_flop("fed", "foed"),
                Trick::flip_flop("fet", "foet"),
                Trick::flip("f", "ph"),
            ]
        },
        'g' => {
            vec![
                Trick::flip("gna", "na"),
            ]
        },
        'h' => {
            vec![
                Trick::flip("har", "ar"),
                Trick::flip("hal", "al"),
                Trick::flip("ham", "am"),
                Trick::flip("hel", "el"),
                Trick::flip("hol", "ol"),
                Trick::flip("hum", "um"),
            ]
        },
        'k' => {
            vec![
                Trick::flip("k", "c"),
                Trick::flip("c", "k"),
            ]
        },
        'l' => {
            vec![
                Trick::flip_flop("lub", "lib"),
            ]
        },
        'm' => {
            vec![
                Trick::flip_flop("mani", "manu"),
            ]
        },
        'n' => {
            vec![
                Trick::flip("na", "gna"),
                Trick::flip_flop("nihil", "nil"),
            ]
        },
        'o' => {
            vec![
                Trick::flip_flop("obt", "opt"),
                Trick::flip_flop("obs", "ops"),
                Trick::flip("ol", "hol"),
                Trick::flip("opp", "op"),
                Trick::flip("or", "aur"),
            ]
        },
        'p' => {
            vec![
                Trick::flip("ph", "f"),
                Trick::flip_flop("pre", "prae"),
            ]
        },
        's' => {
            vec![
                Trick::flip_flop("subsc", "susc"),
                Trick::flip_flop("subsp", "susp"),
                Trick::flip_flop("subc", "susc"),
                Trick::flip_flop("succ", "susc"),
                Trick::flip_flop("subt", "supt"),
                Trick::flip_flop("subt", "sust"),
            ]
        },
        't' => {
            vec![
                Trick::flip_flop("transv", "trav"),
            ]
        },
        'u' => {
            vec![
                Trick::flip("ul", "hul"),
                Trick::flip("uol", "vul"),
            ]
        },
        'y' => {
            vec![
                Trick::flip("y", "i"),
            ]
        },
        'z' => {
            vec![
                Trick::flip("z", "di"),
            ]
        },
        _ => Vec::new(),
    }
}

} // verus!
