//! Bundled lists of popular npm and PyPI package names.
//!
//! Typosquatting attacks publish a package whose name is one edit away from
//! something popular (`reqeusts`, `expresss`). Detecting that needs a
//! reference set of names worth imitating. This module ships that set as two
//! JSON arrays of strings (see `popular`) and exposes a loader that returns
//! them as one combined list.

use vstd::prelude::*;

use super::distance::names_of;
use super::popular::{NPM_TOP_PACKAGES_JSON, PYPI_TOP_PACKAGES_JSON};
use super::text::{chars_of, string_from_chars};

verus! {

/// The character an escape `\c` inside a string literal stands for.
pub open spec fn unescape(c: char) -> char {
    if c == 'n' {
        '\n'
    } else if c == 't' {
        '\t'
    } else if c == 'r' {
        '\r'
    } else {
        c
    }
}

/// Reads the body of a string literal whose opening quote has already been
/// consumed: the decoded text, and how many characters were consumed up to
/// and including the closing quote; `None` when the input ends first.
pub open spec fn read_string_body(t: Seq<char>) -> Option<(Seq<char>, nat)>
    decreases t.len(),
{
    if t.len() == 0 {
        None
    } else if t[0] == '"' {
        Some((Seq::empty(), 1))
    } else if t[0] == '\\' {
        if t.len() < 2 {
            None
        } else {
            match read_string_body(t.skip(2)) {
                Some((body, used)) => Some((seq![unescape(t[1])] + body, used + 2)),
                None => None,
            }
        }
    } else {
        match read_string_body(t.skip(1)) {
            Some((body, used)) => Some((seq![t[0]] + body, used + 1)),
            None => None,
        }
    }
}

/// A string literal never consumes more than the input it is read from.
pub proof fn lemma_read_string_body_within(t: Seq<char>)
    ensures
        read_string_body(t) matches Some((_, used)) ==> 1 <= used <= t.len(),
    decreases t.len(),
{
    if t.len() >= 2 && t[0] != '"' {
        if t[0] == '\\' {
            lemma_read_string_body_within(t.skip(2));
        } else {
            lemma_read_string_body_within(t.skip(1));
        }
    } else if t.len() == 1 && t[0] != '"' && t[0] != '\\' {
        lemma_read_string_body_within(t.skip(1));
    }
}

#[via_fn]
proof fn string_literals_decreases(s: Seq<char>) {
    if s.len() > 0 {
        lemma_read_string_body_within(s.skip(1));
    }
}

/// The strings of a JSON array of strings: every double-quoted span of `s`,
/// decoded, in order. Characters outside quotes are skipped and a final
/// string without its closing quote is dropped.
pub open spec fn string_literals(s: Seq<char>) -> Seq<Seq<char>>
    decreases s.len() via string_literals_decreases
{
    if s.len() == 0 {
        Seq::empty()
    } else if s[0] != '"' {
        string_literals(s.skip(1))
    } else {
        match read_string_body(s.skip(1)) {
            Some((body, used)) => seq![body] + string_literals(s.skip(1 + used as int)),
            None => Seq::empty(),
        }
    }
}

/// `name` between double quotes.
pub open spec fn quoted(name: Seq<char>) -> Seq<char> {
    seq!['"'] + name + seq!['"']
}

/// The quoted `names`, separated by commas.
pub open spec fn joined_items(names: Seq<Seq<char>>) -> Seq<char>
    decreases names.len(),
{
    if names.len() == 0 {
        Seq::empty()
    } else if names.len() == 1 {
        quoted(names[0])
    } else {
        quoted(names[0]) + seq![','] + joined_items(names.drop_first())
    }
}

/// The JSON array of strings listing `names`, written without escapes.
pub open spec fn json_string_array(names: Seq<Seq<char>>) -> Seq<char> {
    seq!['['] + joined_items(names) + seq![']']
}

/// A name that needs no escaping inside a string literal.
pub open spec fn is_plain_name(name: Seq<char>) -> bool {
    forall|i: int| 0 <= i < name.len() ==> #[trigger] name[i] != '"' && name[i] != '\\'
}

/// Characters outside any string literal are skipped.
proof fn lemma_string_literals_skip_unquoted(p: Seq<char>, r: Seq<char>)
    requires
        forall|i: int| 0 <= i < p.len() ==> #[trigger] p[i] != '"',
    ensures
        string_literals(p + r) == string_literals(r),
    decreases p.len(),
{
    if p.len() > 0 {
        assert((p + r).skip(1) =~= p.skip(1) + r);
        lemma_string_literals_skip_unquoted(p.skip(1), r);
    } else {
        assert(p + r =~= r);
    }
}

/// The character a JSON string escape `\x` stands for, for the escapes JSON
/// defines other than `\b`, `\f` and `\uXXXX`.
pub open spec fn json_escape(x: char) -> Option<char> {
    if x == '"' {
        Some('"')
    } else if x == '\\' {
        Some('\\')
    } else if x == '/' {
        Some('/')
    } else if x == 'n' {
        Some('\n')
    } else if x == 't' {
        Some('\t')
    } else if x == 'r' {
        Some('\r')
    } else {
        None
    }
}

/// `body`, the text between the quotes of a JSON string literal, stands for
/// `name`: each character is either written as itself (never a quote or a
/// backslash) or as one of the escapes of `json_escape`.
pub open spec fn decodes_to(body: Seq<char>, name: Seq<char>) -> bool
    decreases body.len(),
{
    if body.len() == 0 {
        name.len() == 0
    } else if body[0] == '\\' {
        &&& body.len() >= 2
        &&& json_escape(body[1]) is Some
        &&& name.len() > 0
        &&& name[0] == json_escape(body[1])->0
        &&& decodes_to(body.skip(2), name.drop_first())
    } else {
        &&& body[0] != '"'
        &&& name.len() > 0
        &&& name[0] == body[0]
        &&& decodes_to(body.skip(1), name.drop_first())
    }
}

/// A plain name is written as itself.
proof fn lemma_plain_name_decodes_to_itself(name: Seq<char>)
    requires
        is_plain_name(name),
    ensures
        decodes_to(name, name),
    decreases name.len(),
{
    if name.len() > 0 {
        assert(name.skip(1) =~= name.drop_first());
        assert(is_plain_name(name.skip(1))) by {
            assert forall|i: int| 0 <= i < name.skip(1).len() implies #[trigger] name.skip(1)[i]
                != '"' && name.skip(1)[i] != '\\' by {
                assert(name.skip(1)[i] == name[i + 1]);
            }
        }
        lemma_plain_name_decodes_to_itself(name.skip(1));
    }
}

/// The body of a string literal followed by its closing quote reads back as
/// the name it stands for.
proof fn lemma_read_encoded_body(body: Seq<char>, name: Seq<char>, r: Seq<char>)
    requires
        decodes_to(body, name),
    ensures
        read_string_body(body + seq!['"'] + r) == Some((name, body.len() + 1)),
    decreases body.len(),
{
    let t = body + seq!['"'] + r;
    if body.len() == 0 {
        assert(t =~= seq!['"'] + r);
        assert(name =~= Seq::<char>::empty());
    } else if body[0] == '\\' {
        assert(t.skip(2) =~= body.skip(2) + seq!['"'] + r);
        lemma_read_encoded_body(body.skip(2), name.drop_first(), r);
        assert(seq![name[0]] + name.drop_first() =~= name);
    } else {
        assert(t.skip(1) =~= body.skip(1) + seq!['"'] + r);
        lemma_read_encoded_body(body.skip(1), name.drop_first(), r);
        assert(seq![name[0]] + name.drop_first() =~= name);
    }
}

/// A quoted string literal is collected as the one string it stands for.
proof fn lemma_string_literals_quoted(body: Seq<char>, name: Seq<char>, r: Seq<char>)
    requires
        decodes_to(body, name),
    ensures
        string_literals(quoted(body) + r) == seq![name] + string_literals(r),
{
    let s = quoted(body) + r;
    assert(s.skip(1) =~= body + seq!['"'] + r);
    lemma_read_encoded_body(body, name, r);
    assert(s.skip(1 + (body.len() + 1) as int) =~= r);
}

/// Text made of the string literals with `bodies`, with `gaps[0]` before the
/// first, `gaps[k]` between the `k - 1`-th and the `k`-th, and the last gap
/// after the last (one more gap than literal).
pub open spec fn interleave(gaps: Seq<Seq<char>>, bodies: Seq<Seq<char>>) -> Seq<char>
    decreases bodies.len(),
{
    if bodies.len() == 0 || gaps.len() == 0 {
        if gaps.len() == 0 { Seq::empty() } else { gaps[0] }
    } else {
        gaps[0] + quoted(bodies[0]) + interleave(gaps.drop_first(), bodies.drop_first())
    }
}

/// No double quote occurs in `gap`.
pub open spec fn quote_free(gap: Seq<char>) -> bool {
    forall|i: int| 0 <= i < gap.len() ==> #[trigger] gap[i] != '"'
}

/// Whatever stands between string literals, as long as it holds no double
/// quote, the literals are read back as the strings they stand for, in order.
pub proof fn lemma_string_literals_of_interleaving(
    gaps: Seq<Seq<char>>,
    bodies: Seq<Seq<char>>,
    names: Seq<Seq<char>>,
)
    requires
        gaps.len() == bodies.len() + 1,
        bodies.len() == names.len(),
        forall|k: int| 0 <= k < gaps.len() ==> quote_free(#[trigger] gaps[k]),
        forall|k: int| 0 <= k < bodies.len() ==> decodes_to(#[trigger] bodies[k], names[k]),
    ensures
        string_literals(interleave(gaps, bodies)) == names,
    decreases bodies.len(),
{
    assert(quote_free(gaps[0]));
    if bodies.len() == 0 {
        lemma_string_literals_skip_unquoted(gaps[0], Seq::empty());
        assert(gaps[0] + Seq::<char>::empty() =~= gaps[0]);
        assert(names =~= Seq::<Seq<char>>::empty());
    } else {
        let rest = interleave(gaps.drop_first(), bodies.drop_first());
        assert(interleave(gaps, bodies) =~= gaps[0] + (quoted(bodies[0]) + rest));
        lemma_string_literals_skip_unquoted(gaps[0], quoted(bodies[0]) + rest);
        assert(decodes_to(bodies[0], names[0]));
        lemma_string_literals_quoted(bodies[0], names[0], rest);
        assert forall|k: int| 0 <= k < gaps.drop_first().len() implies quote_free(
            #[trigger] gaps.drop_first()[k],
        ) by {
            assert(quote_free(gaps[k + 1]));
        }
        assert forall|k: int| 0 <= k < bodies.drop_first().len() implies decodes_to(
            #[trigger] bodies.drop_first()[k],
            names.drop_first()[k],
        ) by {
            assert(decodes_to(bodies[k + 1], names[k + 1]));
        }
        lemma_string_literals_of_interleaving(
            gaps.drop_first(),
            bodies.drop_first(),
            names.drop_first(),
        );
        assert(names =~= seq![names[0]] + names.drop_first());
    }
}

/// `gap` is made only of JSON whitespace (space, newline, tab, carriage
/// return) and the punctuation of an array (`[`, `]`, `,`). Every JSON array
/// of string literals is the `interleave` of its literals with such gaps.
pub open spec fn is_json_array_gap(gap: Seq<char>) -> bool {
    forall|i: int|
        0 <= i < gap.len() ==> {
            let c = #[trigger] gap[i];
            c == ' ' || c == '\n' || c == '\t' || c == '\r' || c == '[' || c == ']' || c == ','
        }
}

/// Reading back a JSON array of string literals, laid out with any whitespace
/// and written with the escapes `\"`, `\\`, `\/`, `\n`, `\t`, `\r`, gives
/// exactly the strings it lists, in order, duplicates and empty strings
/// included.
pub proof fn lemma_string_literals_of_spaced_json_array(
    gaps: Seq<Seq<char>>,
    bodies: Seq<Seq<char>>,
    names: Seq<Seq<char>>,
)
    requires
        gaps.len() == bodies.len() + 1,
        bodies.len() == names.len(),
        forall|k: int| 0 <= k < gaps.len() ==> is_json_array_gap(#[trigger] gaps[k]),
        forall|k: int| 0 <= k < bodies.len() ==> decodes_to(#[trigger] bodies[k], names[k]),
    ensures
        string_literals(interleave(gaps, bodies)) == names,
{
    assert forall|k: int| 0 <= k < gaps.len() implies quote_free(#[trigger] gaps[k]) by {
        assert(is_json_array_gap(gaps[k]));
        assert forall|i: int| 0 <= i < gaps[k].len() implies #[trigger] gaps[k][i] != '"' by {
            let c = gaps[k][i];
            assert(c == ' ' || c == '\n' || c == '\t' || c == '\r' || c == '[' || c == ']' || c
                == ',');
        }
    }
    lemma_string_literals_of_interleaving(gaps, bodies, names);
}

proof fn lemma_string_literals_joined(names: Seq<Seq<char>>, tail: Seq<char>)
    requires
        forall|k: int| 0 <= k < names.len() ==> is_plain_name(#[trigger] names[k]),
    ensures
        string_literals(joined_items(names) + tail) == names + string_literals(tail),
    decreases names.len(),
{
    if names.len() == 0 {
        assert(joined_items(names) + tail =~= tail);
        assert(names + string_literals(tail) =~= string_literals(tail));
    } else if names.len() == 1 {
        lemma_plain_name_decodes_to_itself(names[0]);
        lemma_string_literals_quoted(names[0], names[0], tail);
        assert(names =~= seq![names[0]]);
    } else {
        let rest = names.drop_first();
        let after = seq![','] + joined_items(rest) + tail;
        assert(joined_items(names) + tail =~= quoted(names[0]) + after);
        lemma_plain_name_decodes_to_itself(names[0]);
        lemma_string_literals_quoted(names[0], names[0], after);
        assert(after =~= seq![','] + (joined_items(rest) + tail));
        lemma_string_literals_skip_unquoted(seq![','], joined_items(rest) + tail);
        lemma_string_literals_joined(rest, tail);
        assert(names =~= seq![names[0]] + rest);
    }
}

/// Reading back a JSON array written from plain names gives those names, in
/// order.
pub proof fn lemma_string_literals_of_json_array(names: Seq<Seq<char>>)
    requires
        forall|k: int| 0 <= k < names.len() ==> is_plain_name(#[trigger] names[k]),
    ensures
        string_literals(json_string_array(names)) == names,
{
    let body = joined_items(names) + seq![']'];
    assert(json_string_array(names) =~= seq!['['] + body);
    lemma_string_literals_skip_unquoted(seq!['['], body);
    lemma_string_literals_joined(names, seq![']']);
    lemma_string_literals_skip_unquoted(seq![']'], Seq::empty());
    assert(seq![']'] + Seq::<char>::empty() =~= seq![']']);
    assert(names + Seq::<Seq<char>>::empty() =~= names);
}

/// What is left to collect from `t` when a string literal is open and
/// `current` holds its text so far.
pub open spec fn rest_in_string(current: Seq<char>, t: Seq<char>) -> Seq<Seq<char>> {
    match read_string_body(t) {
        Some((body, used)) => seq![current + body] + string_literals(t.skip(used as int)),
        None => Seq::empty(),
    }
}

/// As `rest_in_string`, right after a backslash.
pub open spec fn rest_after_escape(current: Seq<char>, t: Seq<char>) -> Seq<Seq<char>> {
    if t.len() == 0 {
        Seq::empty()
    } else {
        rest_in_string(current.push(unescape(t[0])), t.skip(1))
    }
}

/// Minimal parser for a JSON document that is an array of strings: collects
/// the decoded contents of each double-quoted span. The escapes `\n`, `\t`
/// and `\r` are decoded; any other escaped character stands for itself
/// (which covers `\"`, `\\` and `\/`).
pub fn parse_string_array(raw: &str) -> (strings: Vec<String>)
    ensures
        names_of(strings@) == string_literals(raw@),
{
    let chars = chars_of(raw);
    let ghost s = raw@;
    let mut out: Vec<String> = Vec::new();
    let mut current: Vec<char> = Vec::new();
    let mut in_string = false;
    let mut escaped = false;
    let mut i: usize = 0;
    assert(s.skip(0) =~= s);
    assert(names_of(out@) + string_literals(s) =~= string_literals(s));
    while i < chars.len()
        invariant
            chars@ == s,
            i <= s.len(),
            !in_string ==> !escaped,
            !in_string ==> string_literals(s) == names_of(out@) + string_literals(s.skip(i as int)),
            in_string && !escaped ==> string_literals(s) == names_of(out@) + rest_in_string(
                current@,
                s.skip(i as int),
            ),
            in_string && escaped ==> string_literals(s) == names_of(out@) + rest_after_escape(
                current@,
                s.skip(i as int),
            ),
        decreases s.len() - i,
    {
        let c = chars[i];
        let ghost t = s.skip(i as int);
        let ghost next = s.skip(i + 1);
        assert(t.skip(1) =~= next);
        assert(t[0] == c);
        if !in_string {
            if c == '"' {
                in_string = true;
                current = Vec::new();
                assert(rest_in_string(Seq::empty(), next) =~= string_literals(t)) by {
                    lemma_read_string_body_within(next);
                    match read_string_body(next) {
                        Some((body, used)) => {
                            assert(Seq::<char>::empty() + body =~= body);
                            assert(next.skip(used as int) =~= t.skip(1 + used as int));
                        },
                        None => {},
                    }
                }
            }
        } else if escaped {
            let decoded = if c == 'n' {
                '\n'
            } else if c == 't' {
                '\t'
            } else if c == 'r' {
                '\r'
            } else {
                c
            };
            current.push(decoded);
            escaped = false;
        } else if c == '\\' {
            escaped = true;
            assert(rest_after_escape(current@, next) =~= rest_in_string(current@, t)) by {
                if next.len() > 0 {
                    assert(next.skip(1) =~= t.skip(2));
                    lemma_read_string_body_within(t.skip(2));
                    match read_string_body(t.skip(2)) {
                        Some((body, used)) => {
                            assert(current@.push(unescape(t[1])) + body =~= current@ + (seq![
                                unescape(t[1]),
                            ] + body));
                            assert(t.skip(2).skip(used as int) =~= t.skip(used as int + 2));
                        },
                        None => {},
                    }
                }
            }
        } else if c == '"' {
            let name = string_from_chars(&current);
            proof {
                assert(current@ + Seq::<char>::empty() =~= current@);
                assert(names_of(out@.push(name)) =~= names_of(out@).push(name@));
            }
            out.push(name);
            in_string = false;
        } else {
            let ghost before = current@;
            current.push(c);
            assert(rest_in_string(current@, next) =~= rest_in_string(before, t)) by {
                lemma_read_string_body_within(next);
                match read_string_body(next) {
                    Some((body, used)) => {
                        assert(before.push(c) + body =~= before + (seq![c] + body));
                        assert(next.skip(used as int) =~= t.skip(used as int + 1));
                    },
                    None => {},
                }
            }
        }
        i = i + 1;
    }
    proof {
        assert(s.skip(s.len() as int) =~= Seq::<char>::empty());
        assert(names_of(out@) + Seq::<Seq<char>>::empty() =~= names_of(out@));
    }
    out
}

/// The combined reference list: the npm names in file order, then the PyPI
/// names in file order.
pub open spec fn popular_packages_spec() -> Seq<Seq<char>> {
    string_literals(NPM_TOP_PACKAGES_JSON@) + string_literals(PYPI_TOP_PACKAGES_JSON@)
}

/// The combined list keeps every name of both bundled arrays: its length is
/// the sum of theirs, it starts with the npm names in order, continues with
/// the PyPI names in order, and every name of either array is in it.
pub proof fn lemma_popular_packages_keep_both_lists()
    ensures
        popular_packages_spec().len() == string_literals(NPM_TOP_PACKAGES_JSON@).len()
            + string_literals(PYPI_TOP_PACKAGES_JSON@).len(),
        forall|i: int|
            0 <= i < string_literals(NPM_TOP_PACKAGES_JSON@).len() ==> popular_packages_spec()[i]
                == #[trigger] string_literals(NPM_TOP_PACKAGES_JSON@)[i],
        forall|i: int|
            0 <= i < string_literals(PYPI_TOP_PACKAGES_JSON@).len() ==> popular_packages_spec()[
            string_literals(NPM_TOP_PACKAGES_JSON@).len() + i]
                == #[trigger] string_literals(PYPI_TOP_PACKAGES_JSON@)[i],
        forall|name: Seq<char>|
            string_literals(NPM_TOP_PACKAGES_JSON@).contains(name) || string_literals(
                PYPI_TOP_PACKAGES_JSON@,
            ).contains(name) ==> #[trigger] popular_packages_spec().contains(name),
{
    let npm = string_literals(NPM_TOP_PACKAGES_JSON@);
    let pypi = string_literals(PYPI_TOP_PACKAGES_JSON@);
    let all = popular_packages_spec();
    assert forall|name: Seq<char>| npm.contains(name) || pypi.contains(name) implies #[trigger] all.contains(
        name,
    ) by {
        if npm.contains(name) {
            let i = choose|i: int| 0 <= i < npm.len() && npm[i] == name;
            assert(all[i] == name);
        } else {
            let i = choose|i: int| 0 <= i < pypi.len() && pypi[i] == name;
            assert(all[npm.len() + i] == name);
        }
    }
}

/// Loads the bundled npm and PyPI popular-package lists and returns them as a
/// single combined list: npm entries first, then PyPI entries, each in file
/// order. Names are returned as-is, without normalisation or de-duplication.
pub fn load_popular_packages() -> (packages: Vec<String>)
    ensures
        names_of(packages@) == popular_packages_spec(),
        packages@.len() == string_literals(NPM_TOP_PACKAGES_JSON@).len() + string_literals(
            PYPI_TOP_PACKAGES_JSON@,
        ).len(),
        forall|i: int|
            0 <= i < string_literals(NPM_TOP_PACKAGES_JSON@).len() ==> (#[trigger] packages@[i])@
                == string_literals(NPM_TOP_PACKAGES_JSON@)[i],
        forall|i: int|
            0 <= i < string_literals(PYPI_TOP_PACKAGES_JSON@).len() ==> packages@[string_literals(
                NPM_TOP_PACKAGES_JSON@,
            ).len() + i]@ == #[trigger] string_literals(PYPI_TOP_PACKAGES_JSON@)[i],
{
    let mut combined = parse_string_array(NPM_TOP_PACKAGES_JSON);
    let mut pypi = parse_string_array(PYPI_TOP_PACKAGES_JSON);
    let ghost first = combined@;
    let ghost second = pypi@;
    combined.append(&mut pypi);
    assert(names_of(combined@) =~= names_of(first) + names_of(second));
    proof {
        lemma_popular_packages_keep_both_lists();
        let npm = string_literals(NPM_TOP_PACKAGES_JSON@);
        let pypi = string_literals(PYPI_TOP_PACKAGES_JSON@);
        assert forall|i: int| 0 <= i < npm.len() implies (#[trigger] combined@[i])@ == npm[i] by {
            assert(names_of(combined@)[i] == combined@[i]@);
        }
        assert forall|i: int| 0 <= i < pypi.len() implies combined@[npm.len() + i]@
            == #[trigger] pypi[i] by {
            assert(names_of(combined@)[npm.len() + i] == combined@[npm.len() + i]@);
        }
    }
    combined
}

} // verus!
