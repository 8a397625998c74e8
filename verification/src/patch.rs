//! Anchor-based text patching.
//!
//! Generated completion scripts have a fixed skeleton, so the augmenters do
//! not parse shell syntax: they locate a literal anchor pattern, then either
//! replace a whole block (from the anchor through a terminator line) or
//! rewrite the first occurrence of a marker string. The search and the
//! splicing are specified over the scripts' character sequences.

use vstd::prelude::*;

verus! {

broadcast use vstd::string::group_string_axioms;

use vstd::std_specs::iter::IteratorSpec;

/// The pattern `p` occurs in `s` starting at position `i`.
pub open spec fn match_at(s: Seq<char>, p: Seq<char>, i: int) -> bool {
    &&& 0 <= i
    &&& i + p.len() <= s.len()
    &&& s.subrange(i, i + p.len()) == p
}

/// Position of the first occurrence of `p` in `s` at or after `from`,
/// or `None` when there is none.
pub open spec fn find_at(s: Seq<char>, p: Seq<char>, from: int) -> Option<int>
    decreases s.len() + 1 - from,
{
    if from < 0 || from + p.len() > s.len() {
        None
    } else if match_at(s, p, from) {
        Some(from)
    } else {
        find_at(s, p, from + 1)
    }
}

/// A found position is a match, lies at or after `from`, and is the first
/// such position.
pub proof fn lemma_find_at_found(s: Seq<char>, p: Seq<char>, from: int, i: int)
    requires
        find_at(s, p, from) == Some(i),
    ensures
        from <= i,
        match_at(s, p, i),
        forall|j: int| from <= j < i ==> !match_at(s, p, j),
    decreases s.len() + 1 - from,
{
    if from < 0 || from + p.len() > s.len() {
    } else if match_at(s, p, from) {
    } else {
        lemma_find_at_found(s, p, from + 1, i);
    }
}

/// Collect the characters of a string slice into a vector.
fn to_chars(s: &str) -> (v: Vec<char>)
    ensures
        v@ == s@,
{
    let mut it = s.chars();
    let mut v: Vec<char> = Vec::new();
    proof {
        assert(v@ + it.remaining() =~= s@);
    }
    loop
        invariant
            v@ + it.remaining() == s@,
            it.decrease() is Some,
        ensures
            v@ + it.remaining() == s@,
            it.remaining().len() == 0,
        decreases it.decrease()->0,
    {
        let ghost prev_v = v@;
        let ghost prev_rem = it.remaining();
        match it.next() {
            Some(c) => {
                v.push(c);
                proof {
                    assert(v@ + it.remaining() =~= prev_v + prev_rem);
                }
            },
            None => {
                break;
            },
        }
    }
    proof {
        assert(v@ =~= s@);
    }
    v
}

/// Whether `pat` occurs in `hay` at position `i`.
fn is_match_at(hay: &Vec<char>, pat: &Vec<char>, i: usize) -> (b: bool)
    requires
        i + pat@.len() <= hay@.len(),
    ensures
        b == match_at(hay@, pat@, i as int),
{
    let mut j: usize = 0;
    while j < pat.len()
        invariant
            i + pat@.len() <= hay@.len(),
            j <= pat@.len(),
            forall|k: int| 0 <= k < j ==> hay@[i + k] == pat@[k],
        decreases pat@.len() - j,
    {
        proof {
            assert(hay.len() == hay@.len());
        }
        if hay[i + j] != pat[j] {
            proof {
                if match_at(hay@, pat@, i as int) {
                    assert(hay@.subrange(i as int, i + pat@.len())[j as int] == hay@[i + j]);
                }
            }
            return false;
        }
        j += 1;
    }
    proof {
        assert(hay@.subrange(i as int, i + pat@.len()) =~= pat@);
    }
    true
}

/// Position of the first occurrence of `pat` in `hay` at or after `from`.
fn find_from(hay: &Vec<char>, pat: &Vec<char>, from: usize) -> (r: Option<usize>)
    ensures
        match r {
            Some(i) => find_at(hay@, pat@, from as int) == Some(i as int),
            None => find_at(hay@, pat@, from as int) is None,
        },
{
    if pat.len() > hay.len() {
        return None;
    }
    let bound: usize = hay.len() - pat.len();
    if from > bound {
        return None;
    }
    let mut i: usize = from;
    loop
        invariant
            from <= i <= bound,
            bound == hay@.len() - pat@.len(),
            find_at(hay@, pat@, from as int) == find_at(hay@, pat@, i as int),
        ensures
            find_at(hay@, pat@, from as int) == find_at(hay@, pat@, i as int),
            match_at(hay@, pat@, i as int) || i == bound,
        decreases bound - i,
    {
        if is_match_at(hay, pat, i) {
            break;
        }
        if i == bound {
            break;
        }
        i += 1;
    }
    if is_match_at(hay, pat, i) {
        Some(i)
    } else {
        proof {
            let ghost next = i as int + 1;
            assert(find_at(hay@, pat@, next) is None);
        }
        None
    }
}

/// Replace the characters of `script` from `start` (inclusive) to `end`
/// (exclusive) with `replacement`.
fn spliced(script: &str, char_len: usize, start: usize, end: usize, replacement: &str) -> (r:
    String)
    requires
        char_len == script@.len(),
        start <= end,
        end <= char_len,
    ensures
        r@ == script@.subrange(0, start as int) + replacement@ + script@.subrange(
            end as int,
            script@.len() as int,
        ),
{
    let head = script.substring_char(0, start);
    let tail = script.substring_char(end, char_len);
    let mut r: String = head.to_owned();
    r.append(replacement);
    r.append(tail);
    proof {
        assert(r@ =~= script@.subrange(0, start as int) + replacement@ + script@.subrange(
            end as int,
            script@.len() as int,
        ));
    }
    r
}

/// Why a block replacement could not be carried out: the named anchor line,
/// or the terminator after it, was not in the script.
#[derive(Debug)]
pub enum PatchError {
    MissingAnchor(String),
    MissingTerminator(String),
}

/// The case-block anchor line for `label`: eight spaces of indentation, the
/// label, and the closing parenthesis.
pub open spec fn case_anchor(label: Seq<char>) -> Seq<char> {
    "        "@ + label + ")"@
}

/// The line that closes one case block in a generated script.
pub open spec fn block_terminator() -> Seq<char> {
    "\n            ;;\n"@
}

/// The script with the whole case block for `label` — from its anchor line
/// through the first terminator after it — replaced by `repl`; `None` when
/// the anchor, or a terminator after it, is absent.
pub open spec fn replace_block_spec(s: Seq<char>, label: Seq<char>, repl: Seq<char>) -> Option<
    Seq<char>,
> {
    match find_at(s, case_anchor(label), 0) {
        None => None,
        Some(i) => match find_at(s, block_terminator(), i) {
            None => None,
            Some(j) => Some(
                s.subrange(0, i) + repl + s.subrange(j + block_terminator().len(), s.len() as int),
            ),
        },
    }
}

/// `e` names exactly the pattern that is absent from `s` for `label`.
pub open spec fn block_error_matches(s: Seq<char>, label: Seq<char>, e: PatchError) -> bool {
    match e {
        PatchError::MissingAnchor(l) => l@ == label && find_at(s, case_anchor(label), 0) is None,
        PatchError::MissingTerminator(l) => l@ == label && (find_at(s, case_anchor(label), 0)
            matches Some(i) && find_at(s, block_terminator(), i) is None),
    }
}

/// Replace the case block labelled `label` with `replacement`, in place.
/// Fails, leaving the script untouched, when the block's anchor line or its
/// terminator cannot be found; the error names the label.
pub fn replace_case_block(script: &mut String, label: &str, replacement: &str) -> (r: Result<
    (),
    PatchError,
>)
    ensures
        match r {
            Ok(_) => replace_block_spec(old(script)@, label@, replacement@) matches Some(t)
                && final(script)@ == t,
            Err(e) => {
                &&& replace_block_spec(old(script)@, label@, replacement@) is None
                &&& final(script)@ == old(script)@
                &&& block_error_matches(old(script)@, label@, e)
            },
        },
{
    let mut anchor: String = ("        ").to_owned();
    anchor.append(label);
    anchor.append(")");
    proof {
        assert(anchor@ =~= case_anchor(label@));
    }
    let hay = to_chars(script.as_str());
    let pat = to_chars(anchor.as_str());
    let term = to_chars("\n            ;;\n");
    let start = match find_from(&hay, &pat, 0) {
        Some(i) => i,
        None => {
            return Err(PatchError::MissingAnchor(label.to_owned()));
        },
    };
    let stop = match find_from(&hay, &term, start) {
        Some(j) => j,
        None => {
            return Err(PatchError::MissingTerminator(label.to_owned()));
        },
    };
    proof {
        lemma_find_at_found(hay@, term@, start as int, stop as int);
        lemma_find_at_found(hay@, pat@, 0, start as int);
        assert(hay.len() == hay@.len());
    }
    let end = stop + term.len();
    let out = spliced(script.as_str(), hay.len(), start, end, replacement);
    *script = out;
    Ok(())
}

/// The script with the first occurrence of `marker` replaced by `repl`;
/// the script itself when the marker is absent.
pub open spec fn replace_first_spec(s: Seq<char>, marker: Seq<char>, repl: Seq<char>) -> Seq<
    char,
> {
    match find_at(s, marker, 0) {
        None => s,
        Some(i) => s.subrange(0, i) + repl + s.subrange(i + marker.len(), s.len() as int),
    }
}

/// Replace the first occurrence of `marker` with `replacement`, in place.
/// A missing marker is not an error: the script stays as it was and `false`
/// comes back.
pub fn replace_first(script: &mut String, marker: &str, replacement: &str) -> (found: bool)
    ensures
        final(script)@ == replace_first_spec(old(script)@, marker@, replacement@),
        found == (find_at(old(script)@, marker@, 0) is Some),
{
    let hay = to_chars(script.as_str());
    let pat = to_chars(marker);
    match find_from(&hay, &pat, 0) {
        Some(i) => {
            proof {
                lemma_find_at_found(hay@, pat@, 0, i as int);
                assert(hay.len() == hay@.len());
            }
            let end = i + pat.len();
            let out = spliced(script.as_str(), hay.len(), i, end, replacement);
            *script = out;
            true
        },
        None => false,
    }
}

/// After a first-occurrence replacement, the region at the found position
/// holds the replacement text, and the text on both sides of the marker is
/// kept unchanged.
pub proof fn lemma_replace_first_regions(s: Seq<char>, marker: Seq<char>, repl: Seq<char>, i: int)
    requires
        find_at(s, marker, 0) == Some(i),
    ensures
        replace_first_spec(s, marker, repl).len() == s.len() - marker.len() + repl.len(),
        replace_first_spec(s, marker, repl).subrange(0, i) == s.subrange(0, i),
        replace_first_spec(s, marker, repl).subrange(i, i + repl.len()) == repl,
        replace_first_spec(s, marker, repl).subrange(
            i + repl.len(),
            s.len() - marker.len() + repl.len(),
        ) == s.subrange(i + marker.len(), s.len() as int),
{
    lemma_find_at_found(s, marker, 0, i);
    let t = replace_first_spec(s, marker, repl);
    assert(t.subrange(0, i) =~= s.subrange(0, i));
    assert(t.subrange(i, i + repl.len()) =~= repl);
    assert(t.subrange(i + repl.len(), s.len() - marker.len() + repl.len()) =~= s.subrange(
        i + marker.len(),
        s.len() as int,
    ));
}

} // verus!
