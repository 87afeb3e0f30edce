//! Harness sources: the text that is written for one target, made from an
//! engine's template by replacing two placeholder tokens.

use crate::text::{ascii_bytes, join_path, literal_bytes, spec_join};
use vstd::prelude::*;
use vstd::string::*;

verus! {

/// Whether `pat` stands in `s` at offset `at`.
pub open spec fn occurs_at(s: Seq<u8>, pat: Seq<u8>, at: int) -> bool {
    0 <= at && at + pat.len() <= s.len() && s.subrange(at, at + pat.len()) == pat
}

/// Whether `pat` stands somewhere in `s`.
pub open spec fn occurs(s: Seq<u8>, pat: Seq<u8>) -> bool {
    exists|at: int| occurs_at(s, pat, at)
}

/// `s` with the occurrences of `pat` replaced by `to`. The text is read from
/// the left; where `pat` stands it is replaced and reading goes on behind it,
/// so the occurrences that are replaced never overlap. An empty `pat`
/// replaces nothing.
pub open spec fn replace_all(s: Seq<u8>, pat: Seq<u8>, to: Seq<u8>) -> Seq<u8>
    decreases s.len(),
{
    if pat.len() == 0 || s.len() < pat.len() {
        s
    } else if occurs_at(s, pat, 0) {
        to + replace_all(s.subrange(pat.len() as int, s.len() as int), pat, to)
    } else {
        seq![s[0]] + replace_all(s.subrange(1, s.len() as int), pat, to)
    }
}

/// The token that stands for the name of the target function.
pub open spec fn target_token() -> Seq<u8> {
    ascii_bytes("__FUZZ_CLI_TARGET__"@)
}

/// The token that stands for the notice at the head of the file.
pub open spec fn comment_token() -> Seq<u8> {
    ascii_bytes("__FUZZ_GENERATE_COMMENT__"@)
}

/// The notice that says the file was generated.
pub open spec fn notice() -> Seq<u8> {
    ascii_bytes("NOTE: AUTO GENERATED FROM `template.rs`"@)
}

/// The harness source made from `template` for `target`: first the target
/// token is replaced by the target's name, then the comment token by the
/// notice.
pub open spec fn spec_harness_source(template: Seq<u8>, target: Seq<u8>) -> Seq<u8> {
    replace_all(replace_all(template, target_token(), target), comment_token(), notice())
}

/// Whether `pat` stands in `s` at offset `at`.
pub fn matches_at(s: &[u8], pat: &[u8], at: usize) -> (found: bool)
    ensures
        found == occurs_at(s@, pat@, at as int),
{
    if at > s.len() || pat.len() > s.len() - at {
        return false;
    }
    let mut k: usize = 0;
    while k < pat.len()
        invariant
            at + pat.len() <= s.len(),
            k <= pat.len(),
            forall|j: int| 0 <= j < k ==> s@[at + j] == pat@[j],
        decreases pat.len() - k,
    {
        if s[at + k] != pat[k] {
            assert(s@.subrange(at as int, at + pat.len())[k as int] != pat@[k as int]);
            return false;
        }
        k += 1;
    }
    assert(s@.subrange(at as int, at + pat.len()) =~= pat@);
    true
}

/// Replaces the occurrences of `pat` in `s` by `to`.
pub fn replace(s: &[u8], pat: &[u8], to: &[u8]) -> (out: Vec<u8>)
    ensures
        out@ == replace_all(s@, pat@, to@),
{
    let mut out: Vec<u8> = Vec::new();
    let mut i: usize = 0;
    assert(s@.subrange(0, s.len() as int) =~= s@);
    while i < s.len()
        invariant
            i <= s.len(),
            out@ + replace_all(s@.subrange(i as int, s.len() as int), pat@, to@) == replace_all(
                s@,
                pat@,
                to@,
            ),
        decreases s.len() - i,
    {
        let ghost rest = s@.subrange(i as int, s.len() as int);
        let ghost before = out@;
        if pat.len() > 0 && matches_at(s, pat, i) {
            assert(rest.subrange(0, pat.len() as int) =~= s@.subrange(i as int, i + pat.len()));
            assert(rest.subrange(pat.len() as int, rest.len() as int) =~= s@.subrange(
                i + pat.len(),
                s.len() as int,
            ));
            let mut k: usize = 0;
            while k < to.len()
                invariant
                    k <= to.len(),
                    out@ == before + to@.subrange(0, k as int),
                decreases to.len() - k,
            {
                out.push(to[k]);
                assert(to@.subrange(0, k + 1) =~= to@.subrange(0, k as int).push(to@[k as int]));
                k += 1;
            }
            assert(to@.subrange(0, to.len() as int) =~= to@);
            assert(out@ + replace_all(s@.subrange(i + pat.len(), s.len() as int), pat@, to@)
                =~= before + (to@ + replace_all(
                s@.subrange(i + pat.len(), s.len() as int),
                pat@,
                to@,
            )));
            i += pat.len();
        } else {
            assert(pat.len() > 0 ==> !occurs_at(rest, pat@, 0)) by {
                if pat.len() > 0 && pat.len() <= rest.len() {
                    assert(rest.subrange(0, pat.len() as int) =~= s@.subrange(
                        i as int,
                        i + pat.len(),
                    ));
                }
            }
            assert(rest.subrange(1, rest.len() as int) =~= s@.subrange(i + 1, s.len() as int));
            assert(rest[0] == s@[i as int]);
            out.push(s[i]);
            proof {
                if pat.len() == 0 || rest.len() < pat.len() {
                    lemma_short_text_is_kept(rest.subrange(1, rest.len() as int), pat@, to@);
                    assert(seq![rest[0]] + rest.subrange(1, rest.len() as int) =~= rest);
                }
            }
            assert(out@ + replace_all(s@.subrange(i + 1, s.len() as int), pat@, to@) =~= before
                + (seq![rest[0]] + replace_all(rest.subrange(1, rest.len() as int), pat@, to@)));
            i += 1;
        }
    }
    assert(s@.subrange(s.len() as int, s.len() as int) =~= Seq::<u8>::empty());
    assert(out@ + Seq::<u8>::empty() =~= out@);
    out
}

/// A text shorter than the pattern, or any text under the empty pattern,
/// comes out as it went in.
pub proof fn lemma_short_text_is_kept(s: Seq<u8>, pat: Seq<u8>, to: Seq<u8>)
    requires
        pat.len() == 0 || s.len() < pat.len(),
    ensures
        replace_all(s, pat, to) == s,
{
}

/// Renders the harness source for `target` from an engine's template.
pub fn harness_source(template: &[u8], target: &str) -> (source: Vec<u8>)
    ensures
        source@ == spec_harness_source(template@, target.spec_bytes()),
{
    proof {
        reveal_strlit("__FUZZ_CLI_TARGET__");
        reveal_strlit("__FUZZ_GENERATE_COMMENT__");
        reveal_strlit("NOTE: AUTO GENERATED FROM `template.rs`");
    }
    let named = replace(template, literal_bytes("__FUZZ_CLI_TARGET__"), target.as_bytes());
    replace(
        named.as_slice(),
        literal_bytes("__FUZZ_GENERATE_COMMENT__"),
        literal_bytes("NOTE: AUTO GENERATED FROM `template.rs`"),
    )
}

/// Path of the template of the engine whose directory is `dir`.
pub open spec fn spec_template_path(dir: Seq<char>) -> Seq<char> {
    spec_join(dir, "template.rs"@)
}

/// Path of the harness source of `target` under the engine directory `dir`.
pub open spec fn spec_harness_path(dir: Seq<char>, target: Seq<char>) -> Seq<char> {
    spec_join(dir, "src/bin/"@ + target + ".rs"@)
}

/// Path of the template of the engine whose directory is `dir`.
pub fn template_path(dir: &str) -> (path: String)
    ensures
        path@ == spec_template_path(dir@),
{
    join_path(dir, "template.rs")
}

/// Path of the harness source of `target` under the engine directory `dir`.
pub fn harness_path(dir: &str, target: &str) -> (path: String)
    ensures
        path@ == spec_harness_path(dir@, target@),
{
    let mut leaf = String::from_str("src/bin/");
    leaf.append(target);
    leaf.append(".rs");
    join_path(dir, leaf.as_str())
}

} // verus!
