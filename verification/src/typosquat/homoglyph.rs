//! Lookalike-character (homoglyph) checks for typosquat detection.
//!
//! Edit distance catches names that are a keystroke or two away from a
//! popular one. It does not catch a name that is visually identical but built
//! from different code points: `react` spelled with a Cyrillic `а` (U+0430),
//! or `express` typed in full-width Latin. This module maps known lookalike
//! characters back to their Latin equivalents (`normalize_homoglyphs`) and
//! asks whether that normalised form is the name of a popular package
//! (`homoglyph_impersonation`).
//!
//! The table is a hand-picked subset of the Unicode confusables list:
//! Cyrillic, Greek and Armenian letters, a few IPA/Latin-extended forms, and
//! the full-width ASCII block handled as one contiguous range.

use vstd::prelude::*;

use super::distance::names_of;
use super::text::{chars_equal, chars_of, string_from_chars};

verus! {

/// Whether `c` lies in the full-width ASCII block (U+FF01..=U+FF5E), a 1:1
/// shift of printable ASCII (U+0021..=U+007E).
pub open spec fn is_fullwidth_ascii(c: char) -> bool {
    0xFF01 <= (c as u32) && (c as u32) <= 0xFF5E
}

/// The lowercase Latin letter that the lookalike `c` stands for, if `c` is in
/// the table of confusable letters.
pub open spec fn confusable_latin(c: char) -> Option<char> {
    match c {
        // Cyrillic
        '\u{0430}' => Some('a'),
        '\u{0435}' => Some('e'),
        '\u{043E}' => Some('o'),
        '\u{0440}' => Some('p'),
        '\u{0441}' => Some('c'),
        '\u{0443}' => Some('y'),
        '\u{0445}' => Some('x'),
        '\u{0455}' => Some('s'),
        '\u{0456}' => Some('i'),
        '\u{0458}' => Some('j'),
        '\u{04BB}' => Some('h'),
        '\u{04CF}' => Some('l'),
        '\u{0501}' => Some('d'),
        '\u{051B}' => Some('q'),
        // Greek
        '\u{03BF}' => Some('o'),
        '\u{03B1}' => Some('a'),
        '\u{03B9}' => Some('i'),
        '\u{03BD}' => Some('v'),
        '\u{03C1}' => Some('p'),
        '\u{03C5}' => Some('u'),
        '\u{03BA}' => Some('k'),
        '\u{03C7}' => Some('x'),
        // Armenian
        '\u{0585}' => Some('o'),
        '\u{0570}' => Some('h'),
        '\u{057D}' => Some('s'),
        // Latin-extended / IPA
        '\u{0261}' => Some('g'),
        '\u{0131}' => Some('i'),
        _ => None,
    }
}

/// The Latin character `c` folds to: the shifted ASCII character for a
/// full-width form, the table entry for a confusable letter, else `c`.
pub open spec fn fold_spec(c: char) -> char {
    if is_fullwidth_ascii(c) {
        ((c as u32) - 0xFF01 + 0x21) as char
    } else {
        match confusable_latin(c) {
            Some(latin) => latin,
            None => c,
        }
    }
}

/// `s` with every known homoglyph replaced by its Latin equivalent.
pub open spec fn normalize_spec(s: Seq<char>) -> Seq<char> {
    s.map_values(|c: char| fold_spec(c))
}

/// What `homoglyph_impersonation` answers: the normalised form when folding
/// changed something and that form is one of `names`, else nothing.
pub open spec fn impersonation_spec(candidate: Seq<char>, names: Seq<Seq<char>>) -> Option<Seq<char>> {
    let normalized = normalize_spec(candidate);
    if normalized != candidate && names.contains(normalized) {
        Some(normalized)
    } else {
        None
    }
}

/// Every character of `s` is ASCII.
pub open spec fn all_ascii(s: Seq<char>) -> bool {
    forall|i: int| 0 <= i < s.len() ==> (#[trigger] s[i] as u32) < 128
}

/// ASCII characters are never folded.
pub proof fn lemma_fold_keeps_ascii(c: char)
    requires
        (c as u32) < 128,
    ensures
        fold_spec(c) == c,
{
}

/// Folding only ever produces ASCII: a character that changes lands in ASCII.
pub proof fn lemma_fold_lands_in_ascii(c: char)
    ensures
        fold_spec(c) != c ==> (fold_spec(c) as u32) < 128,
{
}

/// Folding a character twice is the same as folding it once.
pub proof fn lemma_fold_idempotent(c: char)
    ensures
        fold_spec(fold_spec(c)) == fold_spec(c),
{
    lemma_fold_lands_in_ascii(c);
    if fold_spec(c) != c {
        lemma_fold_keeps_ascii(fold_spec(c));
    }
}

/// Normalising keeps the length and an ASCII name comes back unchanged.
pub proof fn lemma_normalize_keeps_ascii(s: Seq<char>)
    ensures
        normalize_spec(s).len() == s.len(),
        all_ascii(s) ==> normalize_spec(s) == s,
{
    if all_ascii(s) {
        assert forall|i: int| 0 <= i < s.len() implies normalize_spec(s)[i] == s[i] by {
            lemma_fold_keeps_ascii(s[i]);
        }
        assert(normalize_spec(s) =~= s);
    }
}

/// A name in which no character is a known lookalike comes back unchanged.
pub proof fn lemma_normalize_keeps_unfolded(s: Seq<char>)
    requires
        forall|i: int| 0 <= i < s.len() ==> fold_spec(#[trigger] s[i]) == s[i],
    ensures
        normalize_spec(s) == s,
{
    assert(normalize_spec(s) =~= s);
}

/// Normalising an already normalised name changes nothing.
pub proof fn lemma_normalize_idempotent(s: Seq<char>)
    ensures
        normalize_spec(normalize_spec(s)) == normalize_spec(s),
{
    assert forall|i: int| 0 <= i < s.len() implies normalize_spec(normalize_spec(s))[i]
        == normalize_spec(s)[i] by {
        lemma_fold_idempotent(s[i]);
    }
    assert(normalize_spec(normalize_spec(s)) =~= normalize_spec(s));
}

/// A name written in plain ASCII is never reported as an impersonation,
/// whatever the dataset holds.
pub proof fn lemma_ascii_never_impersonates(candidate: Seq<char>, names: Seq<Seq<char>>)
    requires
        all_ascii(candidate),
    ensures
        impersonation_spec(candidate, names) is None,
{
    lemma_normalize_keeps_ascii(candidate);
}

/// The lookalike letters, each with the Latin letter whose glyph it shares.
pub open spec fn lookalike_pairs() -> Seq<(char, char)> {
    seq![
        ('\u{0430}', 'a'), // CYRILLIC SMALL LETTER A
        ('\u{0435}', 'e'), // CYRILLIC SMALL LETTER IE
        ('\u{043E}', 'o'), // CYRILLIC SMALL LETTER O
        ('\u{0440}', 'p'), // CYRILLIC SMALL LETTER ER
        ('\u{0441}', 'c'), // CYRILLIC SMALL LETTER ES
        ('\u{0443}', 'y'), // CYRILLIC SMALL LETTER U
        ('\u{0445}', 'x'), // CYRILLIC SMALL LETTER HA
        ('\u{0455}', 's'), // CYRILLIC SMALL LETTER DZE
        ('\u{0456}', 'i'), // CYRILLIC SMALL LETTER BYELORUSSIAN-UKRAINIAN I
        ('\u{0458}', 'j'), // CYRILLIC SMALL LETTER JE
        ('\u{04BB}', 'h'), // CYRILLIC SMALL LETTER SHHA
        ('\u{04CF}', 'l'), // CYRILLIC SMALL LETTER PALOCHKA
        ('\u{0501}', 'd'), // CYRILLIC SMALL LETTER KOMI DE
        ('\u{051B}', 'q'), // CYRILLIC SMALL LETTER QA
        ('\u{03BF}', 'o'), // GREEK SMALL LETTER OMICRON
        ('\u{03B1}', 'a'), // GREEK SMALL LETTER ALPHA
        ('\u{03B9}', 'i'), // GREEK SMALL LETTER IOTA
        ('\u{03BD}', 'v'), // GREEK SMALL LETTER NU
        ('\u{03C1}', 'p'), // GREEK SMALL LETTER RHO
        ('\u{03C5}', 'u'), // GREEK SMALL LETTER UPSILON
        ('\u{03BA}', 'k'), // GREEK SMALL LETTER KAPPA
        ('\u{03C7}', 'x'), // GREEK SMALL LETTER CHI
        ('\u{0585}', 'o'), // ARMENIAN SMALL LETTER OH
        ('\u{0570}', 'h'), // ARMENIAN SMALL LETTER HO
        ('\u{057D}', 's'), // ARMENIAN SMALL LETTER SEH
        ('\u{0261}', 'g'), // LATIN SMALL LETTER SCRIPT G
        ('\u{0131}', 'i'), // LATIN SMALL LETTER DOTLESS I
    ]
}

/// Folding follows the lookalike list: every listed letter folds to its
/// Latin twin, a full-width form folds to the ASCII character 0xFEE0 below
/// it, and no other character is changed.
pub proof fn lemma_fold_follows_lookalike_pairs()
    ensures
        forall|k: int|
            0 <= k < lookalike_pairs().len() ==> fold_spec(#[trigger] lookalike_pairs()[k].0)
                == lookalike_pairs()[k].1,
        forall|c: char| is_fullwidth_ascii(c) ==> (fold_spec(c) as u32) + 0xFEE0 == c as u32,
        forall|c: char|
            #[trigger] fold_spec(c) != c ==> is_fullwidth_ascii(c) || exists|k: int|
                0 <= k < lookalike_pairs().len() && lookalike_pairs()[k].0 == c,
{
    let pairs = lookalike_pairs();
    assert(pairs.len() == 27);
    assert(pairs[0] == ('\u{0430}', 'a'));
    assert(pairs[1] == ('\u{0435}', 'e'));
    assert(pairs[2] == ('\u{043E}', 'o'));
    assert(pairs[3] == ('\u{0440}', 'p'));
    assert(pairs[4] == ('\u{0441}', 'c'));
    assert(pairs[5] == ('\u{0443}', 'y'));
    assert(pairs[6] == ('\u{0445}', 'x'));
    assert(pairs[7] == ('\u{0455}', 's'));
    assert(pairs[8] == ('\u{0456}', 'i'));
    assert(pairs[9] == ('\u{0458}', 'j'));
    assert(pairs[10] == ('\u{04BB}', 'h'));
    assert(pairs[11] == ('\u{04CF}', 'l'));
    assert(pairs[12] == ('\u{0501}', 'd'));
    assert(pairs[13] == ('\u{051B}', 'q'));
    assert(pairs[14] == ('\u{03BF}', 'o'));
    assert(pairs[15] == ('\u{03B1}', 'a'));
    assert(pairs[16] == ('\u{03B9}', 'i'));
    assert(pairs[17] == ('\u{03BD}', 'v'));
    assert(pairs[18] == ('\u{03C1}', 'p'));
    assert(pairs[19] == ('\u{03C5}', 'u'));
    assert(pairs[20] == ('\u{03BA}', 'k'));
    assert(pairs[21] == ('\u{03C7}', 'x'));
    assert(pairs[22] == ('\u{0585}', 'o'));
    assert(pairs[23] == ('\u{0570}', 'h'));
    assert(pairs[24] == ('\u{057D}', 's'));
    assert(pairs[25] == ('\u{0261}', 'g'));
    assert(pairs[26] == ('\u{0131}', 'i'));
    assert forall|c: char| #[trigger] fold_spec(c) != c implies is_fullwidth_ascii(c) || exists|k: int|
        0 <= k < pairs.len() && pairs[k].0 == c by {
        if !is_fullwidth_ascii(c) {
            if c == '\u{0430}' {
                assert(pairs[0].0 == c);
            }
            if c == '\u{0435}' {
                assert(pairs[1].0 == c);
            }
            if c == '\u{043E}' {
                assert(pairs[2].0 == c);
            }
            if c == '\u{0440}' {
                assert(pairs[3].0 == c);
            }
            if c == '\u{0441}' {
                assert(pairs[4].0 == c);
            }
            if c == '\u{0443}' {
                assert(pairs[5].0 == c);
            }
            if c == '\u{0445}' {
                assert(pairs[6].0 == c);
            }
            if c == '\u{0455}' {
                assert(pairs[7].0 == c);
            }
            if c == '\u{0456}' {
                assert(pairs[8].0 == c);
            }
            if c == '\u{0458}' {
                assert(pairs[9].0 == c);
            }
            if c == '\u{04BB}' {
                assert(pairs[10].0 == c);
            }
            if c == '\u{04CF}' {
                assert(pairs[11].0 == c);
            }
            if c == '\u{0501}' {
                assert(pairs[12].0 == c);
            }
            if c == '\u{051B}' {
                assert(pairs[13].0 == c);
            }
            if c == '\u{03BF}' {
                assert(pairs[14].0 == c);
            }
            if c == '\u{03B1}' {
                assert(pairs[15].0 == c);
            }
            if c == '\u{03B9}' {
                assert(pairs[16].0 == c);
            }
            if c == '\u{03BD}' {
                assert(pairs[17].0 == c);
            }
            if c == '\u{03C1}' {
                assert(pairs[18].0 == c);
            }
            if c == '\u{03C5}' {
                assert(pairs[19].0 == c);
            }
            if c == '\u{03BA}' {
                assert(pairs[20].0 == c);
            }
            if c == '\u{03C7}' {
                assert(pairs[21].0 == c);
            }
            if c == '\u{0585}' {
                assert(pairs[22].0 == c);
            }
            if c == '\u{0570}' {
                assert(pairs[23].0 == c);
            }
            if c == '\u{057D}' {
                assert(pairs[24].0 == c);
            }
            if c == '\u{0261}' {
                assert(pairs[25].0 == c);
            }
            if c == '\u{0131}' {
                assert(pairs[26].0 == c);
            }
        }
    }
}

/// Normalising puts the Latin twin in place of every listed lookalike, at
/// the same position, and keeps the length.
pub proof fn lemma_normalize_folds_lookalikes(s: Seq<char>)
    ensures
        normalize_spec(s).len() == s.len(),
        forall|i: int, k: int|
            0 <= i < s.len() && 0 <= k < lookalike_pairs().len() && #[trigger] s[i]
                == #[trigger] lookalike_pairs()[k].0 ==> normalize_spec(s)[i] == lookalike_pairs()[k].1,
{
    lemma_fold_follows_lookalike_pairs();
    assert forall|i: int, k: int|
        0 <= i < s.len() && 0 <= k < lookalike_pairs().len() && #[trigger] s[i]
            == #[trigger] lookalike_pairs()[k].0 implies normalize_spec(s)[i]
        == lookalike_pairs()[k].1 by {
        assert(fold_spec(lookalike_pairs()[k].0) == lookalike_pairs()[k].1);
    }
}

/// Maps a single character to its Latin equivalent if it is a known
/// homoglyph, otherwise returns it unchanged.
pub fn fold_homoglyph(c: char) -> (folded: char)
    ensures
        folded == fold_spec(c),
{
    let code = c as u32;
    if 0xFF01 <= code && code <= 0xFF5E {
        let ascii = (code - 0xFF01 + 0x21) as u8;
        return ascii as char;
    }
    match c {
        '\u{0430}' => 'a',
        '\u{0435}' => 'e',
        '\u{043E}' => 'o',
        '\u{0440}' => 'p',
        '\u{0441}' => 'c',
        '\u{0443}' => 'y',
        '\u{0445}' => 'x',
        '\u{0455}' => 's',
        '\u{0456}' => 'i',
        '\u{0458}' => 'j',
        '\u{04BB}' => 'h',
        '\u{04CF}' => 'l',
        '\u{0501}' => 'd',
        '\u{051B}' => 'q',
        '\u{03BF}' => 'o',
        '\u{03B1}' => 'a',
        '\u{03B9}' => 'i',
        '\u{03BD}' => 'v',
        '\u{03C1}' => 'p',
        '\u{03C5}' => 'u',
        '\u{03BA}' => 'k',
        '\u{03C7}' => 'x',
        '\u{0585}' => 'o',
        '\u{0570}' => 'h',
        '\u{057D}' => 's',
        '\u{0261}' => 'g',
        '\u{0131}' => 'i',
        other => other,
    }
}

/// The characters of `candidate`, each folded.
fn fold_chars(candidate: &Vec<char>) -> (folded: Vec<char>)
    ensures
        folded@ == normalize_spec(candidate@),
{
    let mut folded: Vec<char> = Vec::new();
    let mut i: usize = 0;
    while i < candidate.len()
        invariant
            i <= candidate@.len(),
            folded@ == normalize_spec(candidate@.take(i as int)),
        decreases candidate@.len() - i,
    {
        folded.push(fold_homoglyph(candidate[i]));
        assert(normalize_spec(candidate@.take(i + 1)) =~= normalize_spec(candidate@.take(i as int)).push(
            fold_spec(candidate@[i as int]),
        ));
        i = i + 1;
    }
    assert(candidate@.take(candidate@.len() as int) =~= candidate@);
    folded
}

/// Rewrites `candidate` with every known homoglyph replaced by its Latin
/// equivalent. Other characters, ordinary ASCII included, pass through
/// untouched; nothing is lower-cased or stripped.
pub fn normalize_homoglyphs(candidate: &str) -> (normalized: String)
    ensures
        normalized@ == normalize_spec(candidate@),
{
    let chars = chars_of(candidate);
    let folded = fold_chars(&chars);
    string_from_chars(&folded)
}

/// Reports whether `candidate` looks like a homoglyph impersonation of a
/// popular package: `Some(name)` when folding lookalikes changed `candidate`
/// and the folded form is an entry of `dataset` (the earliest such entry is
/// returned), `None` otherwise. A name with no lookalike character is never
/// flagged, even when it is itself a popular package.
pub fn homoglyph_impersonation(candidate: &str, dataset: &[String]) -> (found: Option<String>)
    ensures
        match found {
            Some(name) => impersonation_spec(candidate@, names_of(dataset@)) == Some(name@),
            None => impersonation_spec(candidate@, names_of(dataset@)) is None,
        },
{
    let ghost names = names_of(dataset@);
    let chars = chars_of(candidate);
    let folded = fold_chars(&chars);
    if chars_equal(&folded, &chars) {
        return None;
    }
    let normalized = string_from_chars(&folded);
    let mut i: usize = 0;
    while i < dataset.len()
        invariant
            i <= dataset@.len(),
            names == names_of(dataset@),
            normalized@ == normalize_spec(candidate@),
            normalized@ != candidate@,
            forall|k: int| 0 <= k < i ==> names[k] != normalized@,
        decreases dataset@.len() - i,
    {
        if dataset[i] == normalized {
            assert(names[i as int] == normalized@);
            assert(names.contains(normalized@));
            assert(normalized@ != candidate@);
            return Some(dataset[i].clone());
        }
        i = i + 1;
    }
    assert(!names.contains(normalized@));
    None
}

} // verus!
