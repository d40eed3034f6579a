//! Combined typosquat scoring: the single entry point that ties the
//! edit-distance signal and the homoglyph signal together into one answer.
//! `score_package` runs a candidate against both signals and `ScanResult`
//! reports which (if either, or both) fired.

use vstd::prelude::*;

use super::dataset::{load_popular_packages, popular_packages_spec};
use super::distance::{
    edit_distance, lemma_edit_distance_zero_iff_equal, lemma_nearest_exact_hit,
    lemma_nearest_index_exists, nearest_index, nearest_match, nearest_match_spec,
};
use super::homoglyph::{
    all_ascii, homoglyph_impersonation, impersonation_spec, lemma_ascii_never_impersonates,
};
use super::text::{decimal, push_decimal};

verus! {

/// Maximum edit distance from a popular package name that counts as
/// "suspiciously close" rather than coincidental. A distance of 0 is the
/// real package and is never flagged.
pub const DISTANCE_THRESHOLD: usize = 2;

/// Result of scoring a candidate package name against both typosquat
/// signals.
#[derive(Debug, Clone, PartialEq, Eq)]
pub struct ScanResult {
    /// The name that was scored, as given by the caller.
    pub candidate: String,
    /// The popular package found within `DISTANCE_THRESHOLD` edits (and not
    /// an exact match), with the edit distance to it.
    pub distance_match: Option<(String, usize)>,
    /// The popular package the candidate impersonates once lookalike
    /// characters are folded back to Latin.
    pub homoglyph_match: Option<String>,
}

/// The character view of an optional (name, distance) pair.
pub open spec fn distance_match_view(m: Option<(String, usize)>) -> Option<(Seq<char>, nat)> {
    match m {
        Some((name, distance)) => Some((name@, distance as nat)),
        None => None,
    }
}

/// The character view of an optional name.
pub open spec fn name_view(m: Option<String>) -> Option<Seq<char>> {
    match m {
        Some(name) => Some(name@),
        None => None,
    }
}

/// The edit-distance signal: the nearest name and its distance, when that
/// distance is within the threshold and not zero.
pub open spec fn distance_signal(candidate: Seq<char>, names: Seq<Seq<char>>) -> Option<(Seq<char>, nat)> {
    let (name, distance) = nearest_match_spec(candidate, names);
    if 0 < distance && distance <= DISTANCE_THRESHOLD {
        Some((name, distance))
    } else {
        None
    }
}

/// True if either signal fired.
pub open spec fn flagged(distance_match: Option<(Seq<char>, nat)>, homoglyph_match: Option<Seq<char>>) -> bool {
    distance_match is Some || homoglyph_match is Some
}

/// The human-readable report for a result with these parts.
pub open spec fn report(
    candidate: Seq<char>,
    distance_match: Option<(Seq<char>, nat)>,
    homoglyph_match: Option<Seq<char>>,
) -> Seq<char> {
    if !flagged(distance_match, homoglyph_match) {
        candidate + ": no typosquat signal detected"@
    } else {
        let distance_line = match distance_match {
            Some((name, distance)) => "\n  - edit distance "@ + decimal(distance)
                + " from popular package \""@ + name + "\""@,
            None => Seq::empty(),
        };
        let homoglyph_line = match homoglyph_match {
            Some(name) => "\n  - homoglyph impersonation of popular package \""@ + name + "\""@,
            None => Seq::empty(),
        };
        candidate + ": likely typosquat"@ + distance_line + homoglyph_line
    }
}

/// The real package is never reported by the edit-distance signal: a
/// candidate that is itself one of the names is at distance zero from it.
pub proof fn lemma_exact_name_not_distance_flagged(candidate: Seq<char>, names: Seq<Seq<char>>)
    requires
        names.contains(candidate),
    ensures
        distance_signal(candidate, names) is None,
{
    lemma_nearest_exact_hit(candidate, names);
}

/// The edit-distance signal names a listed package at the smallest distance,
/// one or two edits away; and a candidate that is not listed itself but lies
/// within two edits of some listed name is always flagged by it.
pub proof fn lemma_distance_signal_within_two_edits(candidate: Seq<char>, names: Seq<Seq<char>>)
    ensures
        distance_signal(candidate, names) matches Some((name, distance)) ==> {
            &&& names.contains(name)
            &&& distance == edit_distance(candidate, name)
            &&& 1 <= distance <= 2
            &&& forall|k: int|
                0 <= k < names.len() ==> distance <= #[trigger] edit_distance(candidate, names[k])
        },
        (!names.contains(candidate) && exists|k: int|
            0 <= k < names.len() && #[trigger] edit_distance(candidate, names[k]) <= 2)
            ==> distance_signal(candidate, names) is Some,
{
    if names.len() > 0 {
        lemma_nearest_index_exists(candidate, names);
        let i = nearest_index(candidate, names);
        assert(names.contains(names[i]));
        if !names.contains(candidate) {
            lemma_edit_distance_zero_iff_equal(candidate, names[i]);
            if exists|k: int| 0 <= k < names.len() && #[trigger] edit_distance(candidate, names[k]) <= 2 {
                let k = choose|k: int| 0 <= k < names.len() && #[trigger] edit_distance(candidate, names[k]) <= 2;
                assert(edit_distance(candidate, names[i]) <= edit_distance(candidate, names[k]));
            }
        }
    }
}

/// A correctly spelled popular package in plain ASCII raises neither signal.
pub proof fn lemma_exact_ascii_name_not_flagged(candidate: Seq<char>, names: Seq<Seq<char>>)
    requires
        names.contains(candidate),
        all_ascii(candidate),
    ensures
        !flagged(distance_signal(candidate, names), impersonation_spec(candidate, names)),
{
    lemma_exact_name_not_distance_flagged(candidate, names);
    lemma_ascii_never_impersonates(candidate, names);
}

/// What the report says: it reads "no typosquat signal detected" after the
/// candidate exactly when neither signal fired, and "likely typosquat"
/// otherwise. When the edit-distance signal fired, the next line names the
/// distance and the popular package; when the homoglyph signal fired, the
/// last line names the impersonated package.
pub proof fn lemma_report_states_the_signals(
    candidate: Seq<char>,
    distance_match: Option<(Seq<char>, nat)>,
    homoglyph_match: Option<Seq<char>>,
)
    ensures
        (distance_match is None && homoglyph_match is None) ==> report(
            candidate,
            distance_match,
            homoglyph_match,
        ) == candidate + ": no typosquat signal detected"@,
        (distance_match is Some || homoglyph_match is Some) ==> report(
            candidate,
            distance_match,
            homoglyph_match,
        ).take((candidate + ": likely typosquat"@).len() as int) == candidate
            + ": likely typosquat"@,
        distance_match matches Some((name, distance)) ==> {
            let head = (candidate + ": likely typosquat"@).len() as int;
            let line = "\n  - edit distance "@ + decimal(distance) + " from popular package \""@
                + name + "\""@;
            report(candidate, distance_match, homoglyph_match).subrange(head, head + line.len())
                == line
        },
        homoglyph_match matches Some(name) ==> {
            let line = "\n  - homoglyph impersonation of popular package \""@ + name + "\""@;
            let text = report(candidate, distance_match, homoglyph_match);
            text.skip(text.len() - line.len()) == line
        },
{
    let text = report(candidate, distance_match, homoglyph_match);
    if distance_match is Some || homoglyph_match is Some {
        let head = candidate + ": likely typosquat"@;
        let distance_line = match distance_match {
            Some((name, distance)) => "\n  - edit distance "@ + decimal(distance)
                + " from popular package \""@ + name + "\""@,
            None => Seq::empty(),
        };
        let homoglyph_line = match homoglyph_match {
            Some(name) => "\n  - homoglyph impersonation of popular package \""@ + name + "\""@,
            None => Seq::empty(),
        };
        assert(text =~= head + distance_line + homoglyph_line);
        assert(text.take(head.len() as int) =~= head);
        assert(text.subrange(head.len() as int, (head.len() + distance_line.len()) as int) =~= distance_line);
        assert(text.skip(text.len() - homoglyph_line.len()) =~= homoglyph_line);
    }
}

impl ScanResult {
    /// True if either signal fired.
    pub fn is_likely_typosquat(&self) -> (likely: bool)
        ensures
            likely == (self.distance_match is Some || self.homoglyph_match is Some),
    {
        self.distance_match.is_some() || self.homoglyph_match.is_some()
    }

    /// Human-readable report: the candidate, whether it looks like a
    /// typosquat, and one line per signal that fired.
    pub fn to_string(&self) -> (text: String)
        ensures
            text@ == report(
                self.candidate@,
                distance_match_view(self.distance_match),
                name_view(self.homoglyph_match),
            ),
    {
        let mut out = self.candidate.clone();
        if !self.is_likely_typosquat() {
            out.append(": no typosquat signal detected");
            return out;
        }
        out.append(": likely typosquat");
        let ghost headed = out@;
        match &self.distance_match {
            Some((name, distance)) => {
                out.append("\n  - edit distance ");
                push_decimal(&mut out, *distance);
                out.append(" from popular package \"");
                out.append(name.as_str());
                out.append("\"");
            },
            None => {},
        }
        let ghost with_distance = out@;
        match &self.homoglyph_match {
            Some(name) => {
                out.append("\n  - homoglyph impersonation of popular package \"");
                out.append(name.as_str());
                out.append("\"");
            },
            None => {},
        }
        proof {
            let dm = distance_match_view(self.distance_match);
            let hm = name_view(self.homoglyph_match);
            let distance_line = match dm {
                Some((name, distance)) => "\n  - edit distance "@ + decimal(distance)
                    + " from popular package \""@ + name + "\""@,
                None => Seq::empty(),
            };
            let homoglyph_line = match hm {
                Some(name) => "\n  - homoglyph impersonation of popular package \""@ + name
                    + "\""@,
                None => Seq::empty(),
            };
            assert(with_distance =~= headed + distance_line);
            assert(out@ =~= headed + distance_line + homoglyph_line);
        }
        out
    }
}

/// Scores `name` against the bundled popular-package dataset using both
/// typosquat signals and reports why (if at all) it looks suspicious.
pub fn score_package(name: &str) -> (result: ScanResult)
    ensures
        result.candidate@ == name@,
        distance_match_view(result.distance_match) == distance_signal(name@, popular_packages_spec()),
        name_view(result.homoglyph_match) == impersonation_spec(name@, popular_packages_spec()),
{
    let dataset = load_popular_packages();

    let (nearest_name, distance) = nearest_match(name, dataset.as_slice());
    let distance_match = if distance > 0 && distance <= DISTANCE_THRESHOLD {
        Some((nearest_name, distance))
    } else {
        None
    };

    let homoglyph_match = homoglyph_impersonation(name, dataset.as_slice());

    ScanResult { candidate: name.to_owned(), distance_match, homoglyph_match }
}

} // verus!
