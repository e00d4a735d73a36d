use crate::data::{
    clone_code, views, Inflection, InflectionView, LatinTranslationInfo,
    LatinTranslationInfoView, LatinWordInfo, LatinWordInfoView, Modifier, ModifierView,
    NValueView, Stem, StemView, UniqueLatinWordInfo, UniqueLatinWordInfoView, Word, WordView,
};
use crate::principle_part_generator::{code_pair, number_at};
use crate::text::{ends_with, is_prefix, is_suffix, same_text, starts_with};
use crate::tricks::{common_prefix, is_common_prefix, tricked, try_tricks};
use crate::use_data::{Lexicon, LexiconView};
use vstd::prelude::*;
use vstd::string::*;

verus! {

/// The first lemma of the dictionary with the given number.
pub open spec fn lemma_with_id(latin: Seq<LatinWordInfoView>, id: i32) -> Option<
    LatinWordInfoView,
>
    decreases latin.len(),
{
    if latin.len() == 0 {
        None
    } else if latin[0].id == id {
        Some(latin[0])
    } else {
        lemma_with_id(latin.skip(1), id)
    }
}

/// Whether an inflection's classification admits a stem's: each of its two
/// numbers is that of the stem, or 0, which admits every stem.
pub open spec fn code_fits(inflection: Seq<NValueView>, stem: Seq<NValueView>) -> bool {
    &&& number_at(inflection, 0) == 0 || number_at(inflection, 0) == number_at(stem, 0)
    &&& number_at(inflection, 1) == 0 || number_at(inflection, 1) == number_at(stem, 1)
}

/// Whether an inflection may follow a stem: both have the same part of
/// speech, and the inflection's classification admits the stem's. An ending
/// that the dictionary lists under another part of speech is never paired
/// with the stem.
pub open spec fn combines(stem: StemView, inflection: InflectionView) -> bool {
    stem.pos == inflection.pos && code_fits(inflection.n, stem.n)
}

/// Whether an inflection has the given ending and may follow the stem.
pub open spec fn completes(stem: StemView, ending: Seq<char>) -> spec_fn(InflectionView) -> bool {
    |inflection: InflectionView| inflection.ending == ending && combines(stem, inflection)
}

/// The analysis that pairs a stem of a lemma with an inflection.
pub open spec fn analysis_of(
    lemma: LatinWordInfoView,
    stem: StemView,
    addons: Seq<ModifierView>,
) -> spec_fn(InflectionView) -> LatinTranslationInfoView {
    |inflection: InflectionView|
        LatinTranslationInfoView {
            word: WordView::LatinWordInfo(lemma),
            stem: stem,
            inflections: seq![inflection],
            addons: addons,
        }
}

/// The analyses of a stem before an ending: one for each inflection with
/// that ending which may follow the stem, in the order of the dictionary.
pub open spec fn pairings(
    inflections: Seq<InflectionView>,
    lemma: LatinWordInfoView,
    stem: StemView,
    ending: Seq<char>,
    addons: Seq<ModifierView>,
) -> Seq<LatinTranslationInfoView> {
    inflections.filter(completes(stem, ending)).map_values(analysis_of(lemma, stem, addons))
}

/// The analyses that one stem gives before an ending: its pairings, if the
/// dictionary has its lemma. An analysis names the lemma that it stands
/// for, so a stem whose number is that of no lemma gives none; a dictionary
/// in which `stems_have_lemmas` holds has no such stem.
pub open spec fn stem_analyses(
    lexicon: LexiconView,
    stem: StemView,
    ending: Seq<char>,
    addons: Seq<ModifierView>,
) -> Seq<LatinTranslationInfoView> {
    match lemma_with_id(lexicon.latin, stem.wid) {
        Some(lemma) => pairings(lexicon.inflections, lemma, stem, ending, addons),
        None => Seq::empty(),
    }
}

/// Whether a piece of a word can be looked up as a root: it is not empty,
/// and it is not the placeholder that the dictionary uses for a root that a
/// lemma lacks.
pub open spec fn is_root(root: Seq<char>) -> bool {
    root.len() > 0 && root != "zzz"@
}

/// The analyses that the first `k` stems of the dictionary give to a root
/// before an ending.
pub open spec fn root_analyses_among(
    lexicon: LexiconView,
    root: Seq<char>,
    ending: Seq<char>,
    addons: Seq<ModifierView>,
    k: int,
) -> Seq<LatinTranslationInfoView>
    decreases k,
{
    if k <= 0 || k > lexicon.stems.len() {
        Seq::empty()
    } else {
        let before = root_analyses_among(lexicon, root, ending, addons, k - 1);
        if lexicon.stems[k - 1].orth == root {
            before + stem_analyses(lexicon, lexicon.stems[k - 1], ending, addons)
        } else {
            before
        }
    }
}

/// The analyses of a root before an ending: those of every stem that is
/// spelled as the root, in the order of the dictionary.
pub open spec fn root_analyses(
    lexicon: LexiconView,
    root: Seq<char>,
    ending: Seq<char>,
    addons: Seq<ModifierView>,
) -> Seq<LatinTranslationInfoView> {
    if is_root(root) {
        root_analyses_among(lexicon, root, ending, addons, lexicon.stems.len() as int)
    } else {
        Seq::empty()
    }
}

/// Finds the lemma with the given number.
pub fn find_lemma(lexicon: &Lexicon, id: i32) -> (r: Option<LatinWordInfo>)
    ensures
        crate::data::opt_view(r) == lemma_with_id(lexicon@.latin, id),
{
    let mut i: usize = 0;
    assert(lexicon@.latin.skip(0) =~= lexicon@.latin);
    while i < lexicon.latin.len()
        invariant
            i <= lexicon.latin.len(),
            lemma_with_id(lexicon@.latin, id) == lemma_with_id(lexicon@.latin.skip(i as int), id),
        decreases lexicon.latin.len() - i,
    {
        assert(lexicon@.latin.skip(i as int).skip(1) =~= lexicon@.latin.skip(i + 1));
        assert(lexicon@.latin.skip(i as int)[0] == lexicon.latin@[i as int]@);
        if lexicon.latin[i].id == id {
            return Some(lexicon.latin[i].clone());
        }
        i += 1;
    }
    None
}

/// Tests whether an inflection may follow a stem.
pub fn can_combine(stem: &Stem, inflection: &Inflection) -> (r: bool)
    ensures
        r == combines(stem@, inflection@),
{
    if !same_text(stem.pos.as_str(), inflection.pos.as_str()) {
        return false;
    }
    let (stem_major, stem_minor) = code_pair(&stem.n);
    let (major, minor) = code_pair(&inflection.n);
    (major == 0 || major == stem_major) && (minor == 0 || minor == stem_minor)
}

/// Appends the pairings of a stem before an ending.
fn pair_inflections(
    lexicon: &Lexicon,
    lemma: &LatinWordInfo,
    stem: &Stem,
    ending: &str,
    addons: &Vec<Modifier>,
    out: &mut Vec<LatinTranslationInfo>,
)
    ensures
        views(final(out)@) == views(old(out)@) + pairings(
            lexicon@.inflections,
            lemma@,
            stem@,
            ending@,
            views(addons@),
        ),
{
    let ghost start = views(out@);
    let ghost all = lexicon@.inflections;
    let ghost keep = completes(stem@, ending@);
    let ghost make = analysis_of(lemma@, stem@, views(addons@));
    let mut i: usize = 0;
    proof {
        crate::data::lemma_filter_none(all, keep);
        assert(views(out@) =~= start + all.take(0).filter(keep).map_values(make));
    }
    while i < lexicon.inflections.len()
        invariant
            i <= lexicon.inflections.len(),
            all == lexicon@.inflections,
            keep == completes(stem@, ending@),
            make == analysis_of(lemma@, stem@, views(addons@)),
            views(out@) == start + all.take(i as int).filter(keep).map_values(make),
        decreases lexicon.inflections.len() - i,
    {
        let inflection = &lexicon.inflections[i];
        proof {
            crate::data::lemma_filter_next(all, keep, i as int);
            assert(all[i as int] == inflection@);
        }
        if same_text(inflection.ending.as_str(), ending) && can_combine(stem, inflection) {
            let ghost before = views(out@);
            let mut inflections: Vec<Inflection> = Vec::new();
            inflections.push(inflection.clone());
            assert(views(inflections@) =~= seq![inflection@]);
            out.push(
                LatinTranslationInfo {
                    word: Word::LatinWordInfo(lemma.clone()),
                    stem: stem.clone(),
                    inflections: inflections,
                    addons: Modifier::clone_list(addons),
                },
            );
            proof {
                let kept = all.take(i as int).filter(keep);
                assert(views(out@) =~= before.push(make(inflection@)));
                assert(kept.push(inflection@).map_values(make) =~= kept.map_values(make).push(
                    make(inflection@),
                ));
                assert(start + kept.map_values(make).push(make(inflection@)) =~= (start
                    + kept.map_values(make)).push(make(inflection@)));
            }
        }
        i += 1;
    }
    assert(all.take(lexicon.inflections@.len() as int) =~= all);
}

/// Appends the analyses of a root before an ending.
fn analyse_root(
    lexicon: &Lexicon,
    root: &str,
    ending: &str,
    addons: &Vec<Modifier>,
    out: &mut Vec<LatinTranslationInfo>,
)
    ensures
        views(final(out)@) == views(old(out)@) + root_analyses(
            lexicon@,
            root@,
            ending@,
            views(addons@),
        ),
{
    let ghost start = views(out@);
    if root.unicode_len() == 0 || same_text(root, "zzz") {
        assert(views(out@) =~= start + Seq::<LatinTranslationInfoView>::empty());
        return ;
    }
    let mut i: usize = 0;
    assert(views(out@) =~= start + root_analyses_among(
        lexicon@,
        root@,
        ending@,
        views(addons@),
        0,
    ));
    while i < lexicon.stems.len()
        invariant
            i <= lexicon.stems.len(),
            views(out@) == start + root_analyses_among(
                lexicon@,
                root@,
                ending@,
                views(addons@),
                i as int,
            ),
        decreases lexicon.stems.len() - i,
    {
        let stem = &lexicon.stems[i];
        assert(lexicon@.stems[i as int] == stem@);
        let ghost before = root_analyses_among(lexicon@, root@, ending@, views(addons@), i as int);
        if same_text(stem.orth.as_str(), root) {
            match find_lemma(lexicon, stem.wid) {
                Some(lemma) => {
                    pair_inflections(lexicon, &lemma, stem, ending, addons, out);
                    assert(views(out@) =~= start + (before + stem_analyses(
                        lexicon@,
                        stem@,
                        ending@,
                        views(addons@),
                    )));
                },
                None => {
                    assert(before + stem_analyses(lexicon@, stem@, ending@, views(addons@))
                        =~= before);
                },
            }
        }
        i += 1;
    }
}

/// Whether a prefix of the dictionary can be taken off a candidate stem: it
/// is one of the common prefixes, the candidate begins with it, and
/// something is left.
pub open spec fn strips(prefix: ModifierView, candidate: Seq<char>) -> bool {
    common_prefix(prefix.orth) && is_prefix(prefix.orth, candidate) && prefix.orth.len()
        < candidate.len()
}

/// The analyses that the first `k` prefixes of the dictionary give to a
/// candidate stem once they are taken off it.
pub open spec fn prefixed_analyses_among(
    lexicon: LexiconView,
    candidate: Seq<char>,
    ending: Seq<char>,
    addons: Seq<ModifierView>,
    k: int,
) -> Seq<LatinTranslationInfoView>
    decreases k,
{
    if k <= 0 || k > lexicon.prefixes.len() {
        Seq::empty()
    } else {
        let before = prefixed_analyses_among(lexicon, candidate, ending, addons, k - 1);
        let prefix = lexicon.prefixes[k - 1];
        if strips(prefix, candidate) {
            before + root_analyses(
                lexicon,
                candidate.skip(prefix.orth.len() as int),
                ending,
                addons.push(prefix),
            )
        } else {
            before
        }
    }
}

/// The analyses of a candidate stem before an ending: those of the candidate
/// as a root, then those of what each prefix leaves of it.
pub open spec fn candidate_analyses(
    lexicon: LexiconView,
    candidate: Seq<char>,
    ending: Seq<char>,
    addons: Seq<ModifierView>,
) -> Seq<LatinTranslationInfoView> {
    root_analyses(lexicon, candidate, ending, addons) + prefixed_analyses_among(
        lexicon,
        candidate,
        ending,
        addons,
        lexicon.prefixes.len() as int,
    )
}

/// The analyses that the first `k` split points give to a word. The split
/// points are taken from the end of the word: the first leaves the whole
/// word as stem, the last its first character.
pub open spec fn split_analyses_among(
    lexicon: LexiconView,
    word: Seq<char>,
    addons: Seq<ModifierView>,
    k: int,
) -> Seq<LatinTranslationInfoView>
    decreases k,
{
    if k <= 0 || k > word.len() {
        Seq::empty()
    } else {
        let at = word.len() - (k - 1);
        split_analyses_among(lexicon, word, addons, k - 1) + candidate_analyses(
            lexicon,
            word.take(at),
            word.skip(at),
            addons,
        )
    }
}

/// The analyses of a word as stem and ending, over all its split points.
pub open spec fn word_analyses(
    lexicon: LexiconView,
    word: Seq<char>,
    addons: Seq<ModifierView>,
) -> Seq<LatinTranslationInfoView> {
    split_analyses_among(lexicon, word, addons, word.len() as int)
}

/// Whether an enclitic of the dictionary can be taken off a word: it is not
/// empty, the word ends with it, and something is left.
pub open spec fn drops(enclitic: ModifierView, word: Seq<char>) -> bool {
    0 < enclitic.orth.len() < word.len() && is_suffix(enclitic.orth, word)
}

/// The analyses that the first `k` enclitics of the dictionary give to a
/// word once they are taken off it.
pub open spec fn enclitic_analyses_among(lexicon: LexiconView, word: Seq<char>, k: int) -> Seq<
    LatinTranslationInfoView,
>
    decreases k,
{
    if k <= 0 || k > lexicon.tackons.len() {
        Seq::empty()
    } else {
        let before = enclitic_analyses_among(lexicon, word, k - 1);
        let enclitic = lexicon.tackons[k - 1];
        if drops(enclitic, word) {
            before + word_analyses(
                lexicon,
                word.take(word.len() - enclitic.orth.len()),
                seq![enclitic],
            )
        } else {
            before
        }
    }
}

/// The analyses of a word by stem and ending: those of the word as it
/// stands, then those of what each enclitic leaves of it.
pub open spec fn regular_analyses(lexicon: LexiconView, word: Seq<char>) -> Seq<
    LatinTranslationInfoView,
> {
    word_analyses(lexicon, word, Seq::empty()) + enclitic_analyses_among(
        lexicon,
        word,
        lexicon.tackons.len() as int,
    )
}

/// Whether an irregular word is spelled as the given word.
pub open spec fn spelled(word: Seq<char>) -> spec_fn(UniqueLatinWordInfoView) -> bool {
    |unique: UniqueLatinWordInfoView| unique.orth == word
}

/// The analysis of a word as an irregular word: the word stands for its own
/// stem and has no inflection.
pub open spec fn unique_analysis() -> spec_fn(UniqueLatinWordInfoView) -> LatinTranslationInfoView {
    |unique: UniqueLatinWordInfoView|
        LatinTranslationInfoView {
            word: WordView::UniqueLatinWordInfo(unique),
            stem: StemView {
                pos: unique.pos,
                form: unique.form,
                orth: unique.orth,
                n: unique.n,
                wid: 0,
            },
            inflections: Seq::empty(),
            addons: Seq::empty(),
        }
}

/// The analyses of a word as an irregular word, in the order of the
/// dictionary.
pub open spec fn unique_analyses(lexicon: LexiconView, word: Seq<char>) -> Seq<
    LatinTranslationInfoView,
> {
    lexicon.unique_latin.filter(spelled(word)).map_values(unique_analysis())
}

/// Every analysis of a word: as an irregular word, then by stem and ending.
pub open spec fn decomposed(lexicon: LexiconView, word: Seq<char>) -> Seq<
    LatinTranslationInfoView,
> {
    unique_analyses(lexicon, word) + regular_analyses(lexicon, word)
}

/// The analyses of a word as they are returned: those of the word, or,
/// where it has none and spelling variants are asked for, those of its
/// variant.
pub open spec fn translated(lexicon: LexiconView, word: Seq<char>, tricks: bool) -> Seq<
    LatinTranslationInfoView,
> {
    if decomposed(lexicon, word).len() == 0 && tricks {
        decomposed(lexicon, tricked(word))
    } else {
        decomposed(lexicon, word)
    }
}

/// Appends the analyses of a candidate stem before an ending.
fn analyse_candidate(
    lexicon: &Lexicon,
    candidate: &str,
    ending: &str,
    addons: &Vec<Modifier>,
    out: &mut Vec<LatinTranslationInfo>,
)
    ensures
        views(final(out)@) == views(old(out)@) + candidate_analyses(
            lexicon@,
            candidate@,
            ending@,
            views(addons@),
        ),
{
    let ghost start = views(out@);
    let ghost plain = root_analyses(lexicon@, candidate@, ending@, views(addons@));
    analyse_root(lexicon, candidate, ending, addons, out);
    let length = candidate.unicode_len();
    let mut i: usize = 0;
    assert(views(out@) =~= start + (plain + prefixed_analyses_among(
        lexicon@,
        candidate@,
        ending@,
        views(addons@),
        0,
    )));
    while i < lexicon.prefixes.len()
        invariant
            i <= lexicon.prefixes.len(),
            length == candidate@.len(),
            views(out@) == start + (plain + prefixed_analyses_among(
                lexicon@,
                candidate@,
                ending@,
                views(addons@),
                i as int,
            )),
        decreases lexicon.prefixes.len() - i,
    {
        let prefix = &lexicon.prefixes[i];
        assert(lexicon@.prefixes[i as int] == prefix@);
        let ghost before = prefixed_analyses_among(
            lexicon@,
            candidate@,
            ending@,
            views(addons@),
            i as int,
        );
        let taken = prefix.orth.as_str().unicode_len();
        if is_common_prefix(prefix.orth.clone()) && taken < length && starts_with(
            candidate,
            prefix.orth.as_str(),
        ) {
            let mut with_prefix = Modifier::clone_list(addons);
            with_prefix.push(prefix.clone());
            assert(views(with_prefix@) =~= views(addons@).push(prefix@));
            let rest = candidate.substring_char(taken, length);
            assert(rest@ =~= candidate@.skip(taken as int));
            let ghost found = root_analyses(lexicon@, rest@, ending@, views(with_prefix@));
            analyse_root(lexicon, rest, ending, &with_prefix, out);
            assert(views(out@) =~= start + (plain + (before + found)));
        }
        i += 1;
    }
}

/// Appends the analyses of a word over all its split points.
fn analyse_word(
    lexicon: &Lexicon,
    word: &str,
    addons: &Vec<Modifier>,
    out: &mut Vec<LatinTranslationInfo>,
)
    ensures
        views(final(out)@) == views(old(out)@) + word_analyses(lexicon@, word@, views(addons@)),
{
    let ghost start = views(out@);
    let length = word.unicode_len();
    let mut k: usize = 0;
    assert(views(out@) =~= start + split_analyses_among(lexicon@, word@, views(addons@), 0));
    while k < length
        invariant
            k <= length,
            length == word@.len(),
            views(out@) == start + split_analyses_among(
                lexicon@,
                word@,
                views(addons@),
                k as int,
            ),
        decreases length - k,
    {
        let at = length - k;
        let candidate = word.substring_char(0, at);
        let ending = word.substring_char(at, length);
        assert(candidate@ =~= word@.take(at as int));
        assert(ending@ =~= word@.skip(at as int));
        let ghost before = split_analyses_among(lexicon@, word@, views(addons@), k as int);
        let ghost found = candidate_analyses(lexicon@, candidate@, ending@, views(addons@));
        analyse_candidate(lexicon, candidate, ending, addons, out);
        assert(views(out@) =~= start + (before + found));
        k += 1;
    }
}

/// Appends the analyses of a word by stem and ending.
fn analyse_regular(lexicon: &Lexicon, word: &str, out: &mut Vec<LatinTranslationInfo>)
    ensures
        views(final(out)@) == views(old(out)@) + regular_analyses(lexicon@, word@),
{
    let ghost start = views(out@);
    let ghost plain = word_analyses(lexicon@, word@, Seq::empty());
    let none: Vec<Modifier> = Vec::new();
    assert(views(none@) =~= Seq::<ModifierView>::empty());
    analyse_word(lexicon, word, &none, out);
    let length = word.unicode_len();
    let mut i: usize = 0;
    assert(views(out@) =~= start + (plain + enclitic_analyses_among(lexicon@, word@, 0)));
    while i < lexicon.tackons.len()
        invariant
            i <= lexicon.tackons.len(),
            length == word@.len(),
            views(out@) == start + (plain + enclitic_analyses_among(lexicon@, word@, i as int)),
        decreases lexicon.tackons.len() - i,
    {
        let enclitic = &lexicon.tackons[i];
        assert(lexicon@.tackons[i as int] == enclitic@);
        let ghost before = enclitic_analyses_among(lexicon@, word@, i as int);
        let taken = enclitic.orth.as_str().unicode_len();
        if 0 < taken && taken < length && ends_with(word, enclitic.orth.as_str()) {
            let mut with_enclitic: Vec<Modifier> = Vec::new();
            with_enclitic.push(enclitic.clone());
            assert(views(with_enclitic@) =~= seq![enclitic@]);
            let rest = word.substring_char(0, length - taken);
            assert(rest@ =~= word@.take(length - taken));
            let ghost found = word_analyses(lexicon@, rest@, views(with_enclitic@));
            analyse_word(lexicon, rest, &with_enclitic, out);
            assert(views(out@) =~= start + (plain + (before + found)));
        }
        i += 1;
    }
}

/// The analysis of a word as the given irregular word.
fn analyse_unique(unique: &UniqueLatinWordInfo) -> (r: LatinTranslationInfo)
    ensures
        r@ == unique_analysis()(unique@),
{
    let inflections: Vec<Inflection> = Vec::new();
    let addons: Vec<Modifier> = Vec::new();
    assert(views(inflections@) =~= Seq::<InflectionView>::empty());
    assert(views(addons@) =~= Seq::<ModifierView>::empty());
    LatinTranslationInfo {
        word: Word::UniqueLatinWordInfo(unique.clone()),
        stem: Stem {
            pos: unique.pos.clone(),
            form: unique.form.clone(),
            orth: unique.orth.clone(),
            n: clone_code(&unique.n),
            wid: 0,
        },
        inflections: inflections,
        addons: addons,
    }
}

/// The analyses of a word as an irregular word.
pub fn parse_unique_latin_words(lexicon: &Lexicon, word: &str) -> (r: Vec<LatinTranslationInfo>)
    ensures
        views(r@) == unique_analyses(lexicon@, word@),
{
    let mut out: Vec<LatinTranslationInfo> = Vec::new();
    let ghost all = lexicon@.unique_latin;
    let ghost keep = spelled(word@);
    let ghost make = unique_analysis();
    let mut i: usize = 0;
    proof {
        crate::data::lemma_filter_none(all, keep);
        assert(views(out@) =~= all.take(0).filter(keep).map_values(make));
    }
    while i < lexicon.unique_latin.len()
        invariant
            i <= lexicon.unique_latin.len(),
            all == lexicon@.unique_latin,
            keep == spelled(word@),
            make == unique_analysis(),
            views(out@) == all.take(i as int).filter(keep).map_values(make),
        decreases lexicon.unique_latin.len() - i,
    {
        let unique = &lexicon.unique_latin[i];
        proof {
            crate::data::lemma_filter_next(all, keep, i as int);
            assert(all[i as int] == unique@);
        }
        if same_text(unique.orth.as_str(), word) {
            let ghost before = views(out@);
            out.push(analyse_unique(unique));
            proof {
                let kept = all.take(i as int).filter(keep);
                assert(views(out@) =~= before.push(make(unique@)));
                assert(kept.push(unique@).map_values(make) =~= kept.map_values(make).push(
                    make(unique@),
                ));
            }
        }
        i += 1;
    }
    assert(all.take(lexicon.unique_latin@.len() as int) =~= all);
    out
}

/// Every analysis of a word: as an irregular word, then by stem and ending.
/// A word without analysis gives the empty list.
pub fn parse(lexicon: &Lexicon, word: &str) -> (r: Vec<LatinTranslationInfo>)
    ensures
        views(r@) == decomposed(lexicon@, word@),
{
    let mut out = parse_unique_latin_words(lexicon, word);
    analyse_regular(lexicon, word, &mut out);
    out
}

/// Analyses a Latin word. Where the word has no analysis and `tricks` is
/// set, its spelling variant is analysed in its place.
pub fn translate_to_english(lexicon: &Lexicon, latin_word: String, tricks: bool) -> (r: Vec<
    LatinTranslationInfo,
>)
    ensures
        views(r@) == translated(lexicon@, latin_word@, tricks),
{
    let output = parse(lexicon, latin_word.as_str());
    if output.len() == 0 && tricks {
        let variant = try_tricks(latin_word);
        parse(lexicon, variant.as_str())
    } else {
        output
    }
}

/// Whether an analysis pairs a stem that can be looked up with exactly one
/// inflection that may follow it.
pub open spec fn well_paired(analysis: LatinTranslationInfoView) -> bool {
    &&& is_root(analysis.stem.orth)
    &&& analysis.inflections.len() == 1
    &&& combines(analysis.stem, analysis.inflections[0])
}

/// Whether every analysis of a list is well paired.
pub open spec fn all_well_paired(analyses: Seq<LatinTranslationInfoView>) -> bool {
    forall|i: int| 0 <= i < analyses.len() ==> well_paired(#[trigger] analyses[i])
}

/// The pairings of a stem that can be looked up are well paired.
proof fn lemma_pairings_well_paired(
    inflections: Seq<InflectionView>,
    lemma: LatinWordInfoView,
    stem: StemView,
    ending: Seq<char>,
    addons: Seq<ModifierView>,
)
    requires
        is_root(stem.orth),
    ensures
        all_well_paired(pairings(inflections, lemma, stem, ending, addons)),
{
    let kept = inflections.filter(completes(stem, ending));
    let paired = pairings(inflections, lemma, stem, ending, addons);
    assert forall|i: int| 0 <= i < paired.len() implies well_paired(#[trigger] paired[i]) by {
        inflections.lemma_filter_pred(completes(stem, ending), i);
        assert(completes(stem, ending)(kept[i]));
        assert(paired[i] == analysis_of(lemma, stem, addons)(kept[i]));
    }
}

/// The analyses of a root are well paired.
proof fn lemma_all_root_analyses_well_paired(
    lexicon: LexiconView,
    root: Seq<char>,
    ending: Seq<char>,
    addons: Seq<ModifierView>,
)
    ensures
        all_well_paired(root_analyses(lexicon, root, ending, addons)),
{
    if is_root(root) {
        lemma_root_analyses_among_well_paired(
            lexicon,
            root,
            ending,
            addons,
            lexicon.stems.len() as int,
        );
    }
}

/// The analyses that the first `k` stems give to a root are well paired.
proof fn lemma_root_analyses_among_well_paired(
    lexicon: LexiconView,
    root: Seq<char>,
    ending: Seq<char>,
    addons: Seq<ModifierView>,
    k: int,
)
    requires
        is_root(root),
    ensures
        all_well_paired(root_analyses_among(lexicon, root, ending, addons, k)),
    decreases k,
{
    if !(k <= 0 || k > lexicon.stems.len()) {
        lemma_root_analyses_among_well_paired(lexicon, root, ending, addons, k - 1);
        let stem = lexicon.stems[k - 1];
        if stem.orth == root {
            match lemma_with_id(lexicon.latin, stem.wid) {
                Some(lemma) => {
                    lemma_pairings_well_paired(lexicon.inflections, lemma, stem, ending, addons);
                },
                None => {},
            }
        }
    }
}

/// The analyses found once a prefix is taken off are well paired.
proof fn lemma_prefixed_analyses_well_paired(
    lexicon: LexiconView,
    candidate: Seq<char>,
    ending: Seq<char>,
    addons: Seq<ModifierView>,
    k: int,
)
    ensures
        all_well_paired(prefixed_analyses_among(lexicon, candidate, ending, addons, k)),
    decreases k,
{
    if !(k <= 0 || k > lexicon.prefixes.len()) {
        lemma_prefixed_analyses_well_paired(lexicon, candidate, ending, addons, k - 1);
        let prefix = lexicon.prefixes[k - 1];
        lemma_all_root_analyses_well_paired(
            lexicon,
            candidate.skip(prefix.orth.len() as int),
            ending,
            addons.push(prefix),
        );
    }
}

/// The analyses of the first `k` split points are well paired.
proof fn lemma_split_analyses_well_paired(
    lexicon: LexiconView,
    word: Seq<char>,
    addons: Seq<ModifierView>,
    k: int,
)
    ensures
        all_well_paired(split_analyses_among(lexicon, word, addons, k)),
    decreases k,
{
    if !(k <= 0 || k > word.len()) {
        lemma_split_analyses_well_paired(lexicon, word, addons, k - 1);
        let at = word.len() - (k - 1);
        lemma_all_root_analyses_well_paired(lexicon, word.take(at), word.skip(at), addons);
        lemma_prefixed_analyses_well_paired(
            lexicon,
            word.take(at),
            word.skip(at),
            addons,
            lexicon.prefixes.len() as int,
        );
    }
}

/// The analyses found once an enclitic is taken off are well paired.
proof fn lemma_enclitic_analyses_well_paired(lexicon: LexiconView, word: Seq<char>, k: int)
    ensures
        all_well_paired(enclitic_analyses_among(lexicon, word, k)),
    decreases k,
{
    if !(k <= 0 || k > lexicon.tackons.len()) {
        lemma_enclitic_analyses_well_paired(lexicon, word, k - 1);
        let enclitic = lexicon.tackons[k - 1];
        let rest = word.take(word.len() - enclitic.orth.len());
        lemma_split_analyses_well_paired(lexicon, rest, seq![enclitic], rest.len() as int);
    }
}

/// Every analysis of a word by stem and ending pairs a stem with exactly
/// one inflection of the same part of speech whose classification admits
/// the stem's, whatever the dictionary lists; and its stem is neither empty
/// nor the placeholder root.
pub proof fn lemma_regular_analyses_are_well_paired(lexicon: LexiconView, word: Seq<char>)
    ensures
        all_well_paired(regular_analyses(lexicon, word)),
{
    lemma_split_analyses_well_paired(lexicon, word, Seq::empty(), word.len() as int);
    lemma_enclitic_analyses_well_paired(lexicon, word, lexicon.tackons.len() as int);
}

/// Whether the dictionary holds the lemma of every stem: the number of each
/// stem is the number of a lemma. A stem without lemma gives no analysis,
/// whatever endings may follow it.
pub open spec fn stems_have_lemmas(lexicon: LexiconView) -> bool {
    forall|i: int|
        0 <= i < lexicon.stems.len() ==> lemma_with_id(
            lexicon.latin,
            (#[trigger] lexicon.stems[i]).wid,
        ).is_some()
}

/// Tests whether the dictionary holds the lemma of every stem.
pub fn has_lemma_of_every_stem(lexicon: &Lexicon) -> (r: bool)
    ensures
        r == stems_have_lemmas(lexicon@),
{
    let mut i: usize = 0;
    while i < lexicon.stems.len()
        invariant
            i <= lexicon.stems.len(),
            forall|j: int|
                0 <= j < i ==> lemma_with_id(
                    lexicon@.latin,
                    (#[trigger] lexicon@.stems[j]).wid,
                ).is_some(),
        decreases lexicon.stems.len() - i,
    {
        assert(lexicon@.stems[i as int] == lexicon.stems@[i as int]@);
        if find_lemma(lexicon, lexicon.stems[i].wid).is_none() {
            return false;
        }
        i += 1;
    }
    true
}

/// The analysis that pairs the stem at `i` with the inflection at `j`, in a
/// dictionary that holds the stem's lemma.
pub open spec fn pair_analysis(
    lexicon: LexiconView,
    i: int,
    j: int,
    addons: Seq<ModifierView>,
) -> LatinTranslationInfoView {
    LatinTranslationInfoView {
        word: WordView::LatinWordInfo(lemma_with_id(lexicon.latin, lexicon.stems[i].wid).unwrap()),
        stem: lexicon.stems[i],
        inflections: seq![lexicon.inflections[j]],
        addons: addons,
    }
}

/// In a dictionary that holds the lemma of every stem, a stem gives one
/// analysis for each inflection that has the ending and may follow it, in
/// the order of the inflections, and no other.
pub proof fn lemma_every_accepted_pair_is_an_analysis(
    lexicon: LexiconView,
    i: int,
    ending: Seq<char>,
    addons: Seq<ModifierView>,
)
    requires
        stems_have_lemmas(lexicon),
        0 <= i < lexicon.stems.len(),
    ensures
        stem_analyses(lexicon, lexicon.stems[i], ending, addons).len()
            == lexicon.inflections.filter(completes(lexicon.stems[i], ending)).len(),
        forall|k: int|
            #![trigger stem_analyses(lexicon, lexicon.stems[i], ending, addons)[k]]
            0 <= k < lexicon.inflections.filter(completes(lexicon.stems[i], ending)).len()
                ==> stem_analyses(lexicon, lexicon.stems[i], ending, addons)[k]
                == (LatinTranslationInfoView {
                word: WordView::LatinWordInfo(
                    lemma_with_id(lexicon.latin, lexicon.stems[i].wid).unwrap(),
                ),
                stem: lexicon.stems[i],
                inflections: seq![
                    lexicon.inflections.filter(completes(lexicon.stems[i], ending))[k],
                ],
                addons: addons,
            }),
{
}

/// An item of either of two lists is an item of the two joined.
proof fn lemma_joined_contains<A>(first: Seq<A>, second: Seq<A>, item: A)
    requires
        first.contains(item) || second.contains(item),
    ensures
        (first + second).contains(item),
{
    if first.contains(item) {
        let k = choose|k: int| 0 <= k < first.len() && first[k] == item;
        assert((first + second)[k] == item);
    } else {
        let k = choose|k: int| 0 <= k < second.len() && second[k] == item;
        assert((first + second)[first.len() + k] == item);
    }
}

/// The analyses of a root hold the pairing of each stem spelled as the root
/// with each inflection that has the ending and may follow it.
proof fn lemma_root_analyses_hold_pair(
    lexicon: LexiconView,
    i: int,
    j: int,
    addons: Seq<ModifierView>,
    k: int,
)
    requires
        stems_have_lemmas(lexicon),
        0 <= i < k <= lexicon.stems.len(),
        0 <= j < lexicon.inflections.len(),
        combines(lexicon.stems[i], lexicon.inflections[j]),
    ensures
        root_analyses_among(
            lexicon,
            lexicon.stems[i].orth,
            lexicon.inflections[j].ending,
            addons,
            k,
        ).contains(pair_analysis(lexicon, i, j, addons)),
    decreases k,
{
    let stem = lexicon.stems[i];
    let inflection = lexicon.inflections[j];
    let root = stem.orth;
    let ending = inflection.ending;
    let before = root_analyses_among(lexicon, root, ending, addons, k - 1);
    if k == i + 1 {
        let keep = completes(stem, ending);
        let kept = lexicon.inflections.filter(keep);
        let lemma = lemma_with_id(lexicon.latin, stem.wid).unwrap();
        let make = analysis_of(lemma, stem, addons);
        lexicon.inflections.lemma_filter_contains(keep, j);
        let at = choose|at: int| 0 <= at < kept.len() && kept[at] == inflection;
        assert(kept.map_values(make)[at] == pair_analysis(lexicon, i, j, addons));
        assert(stem_analyses(lexicon, stem, ending, addons).contains(
            pair_analysis(lexicon, i, j, addons),
        ));
        lemma_joined_contains(
            before,
            stem_analyses(lexicon, stem, ending, addons),
            pair_analysis(lexicon, i, j, addons),
        );
    } else {
        lemma_root_analyses_hold_pair(lexicon, i, j, addons, k - 1);
        if lexicon.stems[k - 1].orth == root {
            lemma_joined_contains(
                before,
                stem_analyses(lexicon, lexicon.stems[k - 1], ending, addons),
                pair_analysis(lexicon, i, j, addons),
            );
        }
    }
}

/// Once a split point gave an analysis, the split points after it keep it.
proof fn lemma_split_analyses_keep(
    lexicon: LexiconView,
    word: Seq<char>,
    addons: Seq<ModifierView>,
    from: int,
    k: int,
    item: LatinTranslationInfoView,
)
    requires
        0 <= from <= k <= word.len(),
        split_analyses_among(lexicon, word, addons, from).contains(item),
    ensures
        split_analyses_among(lexicon, word, addons, k).contains(item),
    decreases k,
{
    if k > from {
        lemma_split_analyses_keep(lexicon, word, addons, from, k - 1, item);
        let at = word.len() - (k - 1);
        lemma_joined_contains(
            split_analyses_among(lexicon, word, addons, k - 1),
            candidate_analyses(lexicon, word.take(at), word.skip(at), addons),
            item,
        );
    }
}

/// In a dictionary that holds the lemma of every stem, every accepted pair
/// is found: where a stem that can be looked up and an inflection that may
/// follow it are joined to a word, the analyses of that word hold their
/// pairing.
pub proof fn lemma_accepted_pair_is_found(lexicon: LexiconView, i: int, j: int)
    requires
        stems_have_lemmas(lexicon),
        0 <= i < lexicon.stems.len(),
        0 <= j < lexicon.inflections.len(),
        is_root(lexicon.stems[i].orth),
        combines(lexicon.stems[i], lexicon.inflections[j]),
    ensures
        decomposed(lexicon, lexicon.stems[i].orth + lexicon.inflections[j].ending).contains(
            pair_analysis(lexicon, i, j, Seq::empty()),
        ),
        forall|tricks: bool|
            (#[trigger] translated(
                lexicon,
                lexicon.stems[i].orth + lexicon.inflections[j].ending,
                tricks,
            )).contains(pair_analysis(lexicon, i, j, Seq::empty())),
{
    let root = lexicon.stems[i].orth;
    let ending = lexicon.inflections[j].ending;
    let word = root + ending;
    let none = Seq::<ModifierView>::empty();
    let item = pair_analysis(lexicon, i, j, none);
    lemma_root_analyses_hold_pair(lexicon, i, j, none, lexicon.stems.len() as int);
    lemma_joined_contains(
        root_analyses(lexicon, root, ending, none),
        prefixed_analyses_among(lexicon, root, ending, none, lexicon.prefixes.len() as int),
        item,
    );
    let k = ending.len() + 1;
    let at = word.len() - (k - 1);
    assert(word.take(at) =~= root);
    assert(word.skip(at) =~= ending);
    lemma_joined_contains(
        split_analyses_among(lexicon, word, none, k - 1),
        candidate_analyses(lexicon, root, ending, none),
        item,
    );
    lemma_split_analyses_keep(lexicon, word, none, k as int, word.len() as int, item);
    lemma_joined_contains(
        word_analyses(lexicon, word, none),
        enclitic_analyses_among(lexicon, word, lexicon.tackons.len() as int),
        item,
    );
    lemma_joined_contains(unique_analyses(lexicon, word), regular_analyses(lexicon, word), item);
}

/// Whether the dictionary holds one stem and one inflection, and no
/// irregular word, prefix or enclitic.
pub open spec fn is_single_pair(lexicon: LexiconView) -> bool {
    &&& lexicon.stems.len() == 1
    &&& lexicon.inflections.len() == 1
    &&& lexicon.unique_latin.len() == 0
    &&& lexicon.prefixes.len() == 0
    &&& lexicon.tackons.len() == 0
}

/// The analyses that a dictionary of one stem and one inflection gives to a
/// candidate stem before an ending: their pairing where the candidate is the
/// stem and the ending that of the inflection, and nothing otherwise.
proof fn lemma_single_pair_candidate(lexicon: LexiconView, candidate: Seq<char>, ending: Seq<char>)
    requires
        is_single_pair(lexicon),
        stems_have_lemmas(lexicon),
        is_root(lexicon.stems[0].orth),
        combines(lexicon.stems[0], lexicon.inflections[0]),
    ensures
        candidate_analyses(lexicon, candidate, ending, Seq::empty()) == if candidate
            == lexicon.stems[0].orth && ending == lexicon.inflections[0].ending {
            seq![pair_analysis(lexicon, 0, 0, Seq::empty())]
        } else {
            Seq::empty()
        },
{
    let none = Seq::<ModifierView>::empty();
    let stem = lexicon.stems[0];
    let inflection = lexicon.inflections[0];
    let keep = completes(stem, ending);
    let kept = lexicon.inflections.filter(keep);
    let lemma = lemma_with_id(lexicon.latin, stem.wid).unwrap();
    let found = root_analyses(lexicon, candidate, ending, none);
    assert(kept =~= if ending == inflection.ending {
        seq![inflection]
    } else {
        Seq::empty()
    }) by {
        reveal(Seq::filter);
        assert(lexicon.inflections.drop_last().len() == 0);
        assert(lexicon.inflections.drop_last().filter(keep) =~= Seq::empty());
        assert(lexicon.inflections.last() == inflection);
    }
    assert(root_analyses_among(lexicon, candidate, ending, none, 0) =~= Seq::empty());
    if candidate == stem.orth && ending == inflection.ending {
        assert(kept.map_values(analysis_of(lemma, stem, none)) =~= seq![
            pair_analysis(lexicon, 0, 0, none),
        ]);
        assert(found =~= seq![pair_analysis(lexicon, 0, 0, none)]);
    } else {
        assert(kept.map_values(analysis_of(lemma, stem, none)).len() == kept.len());
        assert(found =~= Seq::empty());
    }
    assert(candidate_analyses(lexicon, candidate, ending, none) =~= found);
}

/// The analyses that a dictionary of one stem and one inflection gives to
/// the word made of the two over its first `k` split points: nothing before
/// the split point between stem and ending, their pairing from there on.
proof fn lemma_single_pair_splits(lexicon: LexiconView, k: int)
    requires
        is_single_pair(lexicon),
        stems_have_lemmas(lexicon),
        is_root(lexicon.stems[0].orth),
        combines(lexicon.stems[0], lexicon.inflections[0]),
        0 <= k <= lexicon.stems[0].orth.len() + lexicon.inflections[0].ending.len(),
    ensures
        split_analyses_among(
            lexicon,
            lexicon.stems[0].orth + lexicon.inflections[0].ending,
            Seq::empty(),
            k,
        ) == if k > lexicon.inflections[0].ending.len() {
            seq![pair_analysis(lexicon, 0, 0, Seq::empty())]
        } else {
            Seq::empty()
        },
    decreases k,
{
    let none = Seq::<ModifierView>::empty();
    let root = lexicon.stems[0].orth;
    let ending = lexicon.inflections[0].ending;
    let word = root + ending;
    if k > 0 {
        lemma_single_pair_splits(lexicon, k - 1);
        let at = word.len() - (k - 1);
        lemma_single_pair_candidate(lexicon, word.take(at), word.skip(at));
        if at == root.len() {
            assert(word.take(at) =~= root);
            assert(word.skip(at) =~= ending);
        } else {
            assert(word.take(at).len() != root.len());
        }
        let before = split_analyses_among(lexicon, word, none, k - 1);
        let here = candidate_analyses(lexicon, word.take(at), word.skip(at), none);
        assert(before + here =~= if k > ending.len() {
            seq![pair_analysis(lexicon, 0, 0, none)]
        } else {
            Seq::empty()
        });
    }
}

/// A dictionary that holds nothing but a stem that can be looked up, its
/// lemma and an inflection that may follow the stem gives the word made of
/// stem and ending exactly one analysis: the pairing of the two.
pub proof fn lemma_single_pair_has_one_analysis(lexicon: LexiconView, tricks: bool)
    requires
        is_single_pair(lexicon),
        stems_have_lemmas(lexicon),
        is_root(lexicon.stems[0].orth),
        combines(lexicon.stems[0], lexicon.inflections[0]),
    ensures
        translated(lexicon, lexicon.stems[0].orth + lexicon.inflections[0].ending, tricks)
            == seq![pair_analysis(lexicon, 0, 0, Seq::empty())],
{
    let word = lexicon.stems[0].orth + lexicon.inflections[0].ending;
    lemma_single_pair_splits(lexicon, word.len() as int);
    assert(unique_analyses(lexicon, word) =~= Seq::empty()) by {
        lexicon.unique_latin.lemma_filter_len(spelled(word));
    }
    assert(enclitic_analyses_among(lexicon, word, 0) =~= Seq::empty());
    assert(decomposed(lexicon, word) =~= seq![pair_analysis(lexicon, 0, 0, Seq::empty())]);
}

/// A piece that is empty or the placeholder root has no analysis, whatever
/// the dictionary lists under it.
pub proof fn lemma_placeholder_is_no_root(
    lexicon: LexiconView,
    ending: Seq<char>,
    addons: Seq<ModifierView>,
)
    ensures
        root_analyses(lexicon, "zzz"@, ending, addons).len() == 0,
        root_analyses(lexicon, Seq::empty(), ending, addons).len() == 0,
{
}

/// Analysis is deterministic: two results for the same dictionary, word and
/// setting hold the same analyses in the same order.
pub proof fn lemma_analysis_is_deterministic(
    lexicon: LexiconView,
    word: Seq<char>,
    tricks: bool,
    first: Seq<LatinTranslationInfoView>,
    second: Seq<LatinTranslationInfoView>,
)
    requires
        first == translated(lexicon, word, tricks),
        second == translated(lexicon, word, tricks),
    ensures
        first == second,
{
}

/// A word whose first letter has no spelling rules is analysed as it
/// stands, whether or not spelling variants are asked for.
pub proof fn lemma_no_tricks_for_other_letters(lexicon: LexiconView, word: Seq<char>, tricks: bool)
    requires
        word.len() == 0 || !crate::trick_list::is_trick_letter(word[0]),
    ensures
        translated(lexicon, word, tricks) == decomposed(lexicon, word),
{
}

} // verus!
