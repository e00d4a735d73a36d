use crate::data::{
    lemma_filter_next, views, EnglishWordInfo, EnglishWordInfoView, LatinWordInfoView,
};
use crate::latin_to_english::{find_lemma, lemma_with_id};
use crate::text::same_text;
use crate::use_data::{Lexicon, LexiconView};
use vstd::prelude::*;
use vstd::string::*;

verus! {

/// Whether a headword is spelled as the given word.
pub open spec fn headed(word: Seq<char>) -> spec_fn(EnglishWordInfoView) -> bool {
    |entry: EnglishWordInfoView| entry.orth == word
}

/// A headword with the Latin lemma that its number names, where the
/// dictionary has it.
pub open spec fn linked(latin: Seq<LatinWordInfoView>) -> spec_fn(
    EnglishWordInfoView,
) -> EnglishWordInfoView {
    |entry: EnglishWordInfoView|
        EnglishWordInfoView { latin_entry: lemma_with_id(latin, entry.wid), ..entry }
}

/// The entries of an English word: each headword spelled as the word, in
/// the order of the dictionary, with its Latin lemma.
pub open spec fn english_entries(lexicon: LexiconView, word: Seq<char>) -> Seq<
    EnglishWordInfoView,
> {
    lexicon.english.filter(headed(word)).map_values(linked(lexicon.latin))
}

/// Looks an English word up among the headwords.
pub fn translate_to_latin(lexicon: &Lexicon, english_word: &str) -> (r: Vec<EnglishWordInfo>)
    ensures
        views(r@) == english_entries(lexicon@, english_word@),
{
    let mut out: Vec<EnglishWordInfo> = Vec::new();
    let ghost all = lexicon@.english;
    let ghost keep = headed(english_word@);
    let ghost make = linked(lexicon@.latin);
    let mut i: usize = 0;
    proof {
        crate::data::lemma_filter_none(all, keep);
        assert(views(out@) =~= all.take(0).filter(keep).map_values(make));
    }
    while i < lexicon.english.len()
        invariant
            i <= lexicon.english.len(),
            all == lexicon@.english,
            keep == headed(english_word@),
            make == linked(lexicon@.latin),
            views(out@) == all.take(i as int).filter(keep).map_values(make),
        decreases lexicon.english.len() - i,
    {
        let entry = &lexicon.english[i];
        proof {
            lemma_filter_next(all, keep, i as int);
            assert(all[i as int] == entry@);
        }
        if same_text(entry.orth.as_str(), english_word) {
            let ghost before = views(out@);
            let found = EnglishWordInfo {
                orth: entry.orth.clone(),
                wid: entry.wid,
                pos: entry.pos.clone(),
                frequency_type: entry.frequency_type.clone(),
                true_frequency: entry.true_frequency,
                frequency: entry.frequency,
                compound: entry.compound,
                semi: entry.semi,
                latin_entry: find_lemma(lexicon, entry.wid),
            };
            assert(found@ == make(entry@));
            out.push(found);
            proof {
                let kept = all.take(i as int).filter(keep);
                assert(views(out@) =~= before.push(make(entry@)));
                assert(kept.push(entry@).map_values(make) =~= kept.map_values(make).push(
                    make(entry@),
                ));
            }
        }
        i += 1;
    }
    assert(all.take(lexicon.english@.len() as int) =~= all);
    out
}

} // verus!
