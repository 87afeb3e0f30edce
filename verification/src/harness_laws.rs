//! What holds of every harness source: the tokens are gone from it, and a
//! template that holds each token once has both filled in.

use crate::harness::{
    comment_token, notice, occurs, occurs_at, replace_all, spec_harness_source, target_token,
};
use crate::fuzz_targets::{is_target, target_names};
use vstd::prelude::*;
use vstd::utf8::{encode_utf8, is_ascii_chars_encode_utf8};

verus! {

/// An occurrence that lies in the head of a text is there whatever follows
/// the head.
pub proof fn lemma_occurrence_in_head(
    head: Seq<u8>,
    tail: Seq<u8>,
    other: Seq<u8>,
    pat: Seq<u8>,
    at: int,
)
    requires
        at + pat.len() <= head.len(),
        occurs_at(head + tail, pat, at),
    ensures
        occurs_at(head + other, pat, at),
{
    assert((head + other).subrange(at, at + pat.len()) =~= (head + tail).subrange(
        at,
        at + pat.len(),
    ));
}

/// An occurrence that lies in the tail of a text is there whatever comes
/// before the tail, moved by the difference in length.
pub proof fn lemma_occurrence_in_tail(
    head: Seq<u8>,
    other: Seq<u8>,
    tail: Seq<u8>,
    pat: Seq<u8>,
    at: int,
)
    requires
        head.len() <= at,
        occurs_at(head + tail, pat, at),
    ensures
        occurs_at(other + tail, pat, at - head.len() + other.len()),
{
    let to = at - head.len() + other.len();
    assert((other + tail).subrange(to, to + pat.len()) =~= (head + tail).subrange(
        at,
        at + pat.len(),
    ));
}

/// A text in which the pattern does not occur comes out as it went in.
pub proof fn lemma_absent_pattern_is_kept(s: Seq<u8>, pat: Seq<u8>, to: Seq<u8>)
    requires
        !occurs(s, pat),
    ensures
        replace_all(s, pat, to) == s,
    decreases s.len(),
{
    if pat.len() == 0 || s.len() < pat.len() {
    } else {
        assert(!occurs_at(s, pat, 0));
        let rest = s.subrange(1, s.len() as int);
        assert forall|at: int| !occurs_at(rest, pat, at) by {
            if occurs_at(rest, pat, at) {
                assert(s.subrange(at + 1, at + 1 + pat.len()) =~= rest.subrange(
                    at,
                    at + pat.len(),
                ));
                assert(occurs_at(s, pat, at + 1));
            }
        }
        lemma_absent_pattern_is_kept(rest, pat, to);
        assert(seq![s[0]] + rest =~= s);
    }
}

/// Where a pattern occurs there is a first place at which it does.
pub proof fn lemma_first_occurrence(s: Seq<u8>, pat: Seq<u8>, at: int) -> (first: int)
    requires
        occurs_at(s, pat, at),
    ensures
        0 <= first <= at,
        occurs_at(s, pat, first),
        forall|i: int| 0 <= i < first ==> !occurs_at(s, pat, i),
    decreases at,
{
    if exists|i: int| 0 <= i < at && occurs_at(s, pat, i) {
        let i = choose|i: int| 0 <= i < at && occurs_at(s, pat, i);
        lemma_first_occurrence(s, pat, i)
    } else {
        at
    }
}

/// Up to and with the first occurrence of the pattern, replacing keeps the
/// text before the occurrence and puts the replacement in its place.
pub proof fn lemma_replace_at_first_occurrence(s: Seq<u8>, pat: Seq<u8>, to: Seq<u8>, first: int)
    requires
        pat.len() > 0,
        occurs_at(s, pat, first),
        forall|i: int| 0 <= i < first ==> !occurs_at(s, pat, i),
    ensures
        replace_all(s, pat, to) == s.subrange(0, first) + to + replace_all(
            s.subrange(first + pat.len(), s.len() as int),
            pat,
            to,
        ),
    decreases first,
{
    if first == 0 {
        assert(s.subrange(0, 0) + to =~= to);
    } else {
        assert(!occurs_at(s, pat, 0));
        let rest = s.subrange(1, s.len() as int);
        assert(rest.subrange(first - 1, first - 1 + pat.len()) =~= s.subrange(
            first,
            first + pat.len(),
        ));
        assert forall|i: int| 0 <= i < first - 1 implies !occurs_at(rest, pat, i) by {
            if occurs_at(rest, pat, i) {
                assert(s.subrange(i + 1, i + 1 + pat.len()) =~= rest.subrange(i, i + pat.len()));
                assert(occurs_at(s, pat, i + 1));
            }
        }
        lemma_replace_at_first_occurrence(rest, pat, to, first - 1);
        assert(rest.subrange(first - 1 + pat.len(), rest.len() as int) =~= s.subrange(
            first + pat.len(),
            s.len() as int,
        ));
        assert(seq![s[0]] + rest.subrange(0, first - 1) =~= s.subrange(0, first));
        let after = replace_all(s.subrange(first + pat.len(), s.len() as int), pat, to);
        assert(seq![s[0]] + (rest.subrange(0, first - 1) + to + after) =~= s.subrange(0, first)
            + to + after);
    }
}

/// A text that holds the pattern at one place only has it replaced there
/// and is otherwise kept.
pub proof fn lemma_single_occurrence(head: Seq<u8>, pat: Seq<u8>, tail: Seq<u8>, to: Seq<u8>)
    requires
        pat.len() > 0,
        forall|at: int| occurs_at(head + pat + tail, pat, at) ==> at == head.len(),
    ensures
        replace_all(head + pat + tail, pat, to) == head + to + tail,
{
    let s = head + pat + tail;
    let first = head.len() as int;
    assert(s.subrange(first, first + pat.len()) =~= pat);
    assert(occurs_at(s, pat, first));
    lemma_replace_at_first_occurrence(s, pat, to, first);
    assert(s.subrange(0, first) =~= head);
    assert(s.subrange(first + pat.len(), s.len() as int) =~= tail);
    assert(!occurs(tail, pat)) by {
        if occurs(tail, pat) {
            let at = choose|at: int| occurs_at(tail, pat, at);
            assert(Seq::<u8>::empty() + tail =~= tail);
            lemma_occurrence_in_tail(Seq::empty(), head + pat, tail, pat, at);
            assert(occurs_at(s, pat, at + head.len() + pat.len()));
        }
    }
    lemma_absent_pattern_is_kept(tail, pat, to);
}

/// Whether the pattern `pat` can never reach into a copy of `to`: wherever
/// `to` stands in a text, every occurrence of `pat` in that text lies
/// before it or behind it.
pub open spec fn keeps_clear(to: Seq<u8>, pat: Seq<u8>) -> bool {
    forall|head: Seq<u8>, tail: Seq<u8>, at: int| #[trigger]
        occurs_at(head + to + tail, pat, at) ==> at + pat.len() <= head.len() || head.len()
            + to.len() <= at
}

/// Where a pattern that keeps clear of the replacement occurs in the
/// result of replacing, it lies in the text before the first replacement or
/// in what was made of the text behind it.
proof fn lemma_occurrence_in_result(
    s: Seq<u8>,
    pat: Seq<u8>,
    to: Seq<u8>,
    other: Seq<u8>,
    first: int,
    at: int,
)
    requires
        pat.len() > 0,
        keeps_clear(to, other),
        occurs_at(s, pat, first),
        forall|i: int| 0 <= i < first ==> !occurs_at(s, pat, i),
        occurs_at(replace_all(s, pat, to), other, at),
    ensures
        ({
            let rest = s.subrange(first + pat.len(), s.len() as int);
            ||| at + other.len() <= first && occurs_at(s, other, at)
            ||| first + to.len() <= at && occurs_at(
                replace_all(rest, pat, to),
                other,
                at - first - to.len(),
            )
        }),
{
    let head = s.subrange(0, first);
    let rest = s.subrange(first + pat.len(), s.len() as int);
    let tail = replace_all(rest, pat, to);
    lemma_replace_at_first_occurrence(s, pat, to, first);
    assert(occurs_at(head + to + tail, other, at));
    if at + other.len() <= first {
        assert(head + to + tail =~= head + (to + tail));
        assert(head + s.subrange(first, s.len() as int) =~= s);
        lemma_occurrence_in_head(head, to + tail, s.subrange(first, s.len() as int), other, at);
    } else {
        assert(first + to.len() <= at);
        assert(Seq::<u8>::empty() + tail =~= tail);
        lemma_occurrence_in_tail(head + to, Seq::empty(), tail, other, at);
    }
}

/// A pattern that keeps clear of its replacement is gone once it is
/// replaced: it does not occur in the result.
pub proof fn lemma_replaced_pattern_is_gone(s: Seq<u8>, pat: Seq<u8>, to: Seq<u8>)
    requires
        pat.len() > 0,
        keeps_clear(to, pat),
    ensures
        !occurs(replace_all(s, pat, to), pat),
    decreases s.len(),
{
    if occurs(replace_all(s, pat, to), pat) {
        let at = choose|at: int| occurs_at(replace_all(s, pat, to), pat, at);
        if occurs(s, pat) {
            let some = choose|i: int| occurs_at(s, pat, i);
            let first = lemma_first_occurrence(s, pat, some);
            lemma_occurrence_in_result(s, pat, to, pat, first, at);
            let rest = s.subrange(first + pat.len(), s.len() as int);
            lemma_replaced_pattern_is_gone(rest, pat, to);
            assert(occurs_at(replace_all(rest, pat, to), pat, at - first - to.len()));
        } else {
            lemma_absent_pattern_is_kept(s, pat, to);
        }
    }
}

/// Replacing brings nothing in: a pattern that keeps clear of the
/// replacement and does not occur in the text does not occur in the result
/// either.
pub proof fn lemma_replacing_brings_nothing_in(
    s: Seq<u8>,
    pat: Seq<u8>,
    to: Seq<u8>,
    other: Seq<u8>,
)
    requires
        pat.len() > 0,
        keeps_clear(to, other),
        !occurs(s, other),
    ensures
        !occurs(replace_all(s, pat, to), other),
    decreases s.len(),
{
    if occurs(replace_all(s, pat, to), other) {
        let at = choose|at: int| occurs_at(replace_all(s, pat, to), other, at);
        if occurs(s, pat) {
            let some = choose|i: int| occurs_at(s, pat, i);
            let first = lemma_first_occurrence(s, pat, some);
            lemma_occurrence_in_result(s, pat, to, other, first, at);
            let rest = s.subrange(first + pat.len(), s.len() as int);
            assert(!occurs(rest, other)) by {
                if occurs(rest, other) {
                    let j = choose|j: int| occurs_at(rest, other, j);
                    assert(Seq::<u8>::empty() + rest =~= rest);
                    assert(s.subrange(0, first + pat.len()) + rest =~= s);
                    lemma_occurrence_in_tail(
                        Seq::empty(),
                        s.subrange(0, first + pat.len()),
                        rest,
                        other,
                        j,
                    );
                }
            }
            lemma_replacing_brings_nothing_in(rest, pat, to, other);
            assert(occurs_at(replace_all(rest, pat, to), other, at - first - to.len()));
        } else {
            lemma_absent_pattern_is_kept(s, pat, to);
        }
    }
}

/// Whether `b` is a lower-case letter or a digit.
pub open spec fn is_lower_or_digit(b: u8) -> bool {
    97 <= b <= 122 || 48 <= b <= 57
}

/// Whether `name` is a plain name: lower-case letters, digits and
/// underscores, with a letter or digit at either end.
pub open spec fn is_plain_name(name: Seq<u8>) -> bool {
    &&& name.len() > 0
    &&& is_lower_or_digit(name[0])
    &&& is_lower_or_digit(name.last())
    &&& forall|i: int| 0 <= i < name.len() ==> is_lower_or_digit(#[trigger] name[i]) || name[i] == 95
}

/// Whether `pat` has the shape of a token: upper-case letters and
/// underscores, with an underscore at either end and a letter at the third
/// place.
pub open spec fn is_token_shaped(pat: Seq<u8>) -> bool {
    &&& pat.len() >= 3
    &&& pat[0] == 95
    &&& pat.last() == 95
    &&& 65 <= pat[2] <= 90
    &&& forall|i: int| 0 <= i < pat.len() ==> 65 <= #[trigger] pat[i] <= 90 || pat[i] == 95
}

/// The two tokens have the shape of a token, and the notice is longer than
/// either and holds no underscore.
pub proof fn lemma_tokens_and_notice()
    ensures
        is_token_shaped(target_token()),
        is_token_shaped(comment_token()),
        target_token().len() == 19,
        comment_token().len() == 25,
        notice().len() == 39,
        forall|i: int| 0 <= i < notice().len() ==> #[trigger] notice()[i] != 95,
{
    reveal_strlit("__FUZZ_CLI_TARGET__");
    reveal_strlit("__FUZZ_GENERATE_COMMENT__");
    reveal_strlit("NOTE: AUTO GENERATED FROM `template.rs`");
}

/// Where `pat` occurs in a text, the text holds the bytes of `pat` there.
proof fn lemma_occurrence_bytes(s: Seq<u8>, pat: Seq<u8>, at: int, k: int)
    requires
        occurs_at(s, pat, at),
        0 <= k < pat.len(),
    ensures
        s[at + k] == pat[k],
{
    assert(s.subrange(at, at + pat.len())[k] == s[at + k]);
}

/// A token never reaches into a plain name: the name's ends are no bytes
/// of a token, and a token does not fit inside a name.
pub proof fn lemma_name_keeps_clear(name: Seq<u8>, pat: Seq<u8>)
    requires
        is_plain_name(name),
        is_token_shaped(pat),
    ensures
        keeps_clear(name, pat),
{
    assert forall|head: Seq<u8>, tail: Seq<u8>, at: int| #[trigger]
        occurs_at(head + name + tail, pat, at) implies at + pat.len() <= head.len() || head.len()
        + name.len() <= at by {
        let s = head + name + tail;
        let h = head.len() as int;
        let n = name.len() as int;
        if at + pat.len() > h && h + n > at {
            if at <= h {
                // The occurrence covers the first byte of the name.
                lemma_occurrence_bytes(s, pat, at, h - at);
                assert(s[h] == name[0]);
                assert(pat[h - at] == name[0]);
            } else if at + pat.len() >= h + n {
                // It covers the last byte of the name.
                lemma_occurrence_bytes(s, pat, at, h + n - 1 - at);
                assert(s[h + n - 1] == name[n - 1]);
                assert(pat[h + n - 1 - at] == name.last());
            } else {
                // It lies inside the name, letter and all.
                lemma_occurrence_bytes(s, pat, at, 2);
                assert(s[at + 2] == name[at + 2 - h]);
                assert(pat[2] == name[at + 2 - h]);
            }
        }
    }
}

/// A token never reaches into the notice: the notice is longer than a
/// token, so one of the token's ends would lie in it, and it holds no
/// underscore.
pub proof fn lemma_notice_keeps_clear(pat: Seq<u8>)
    requires
        is_token_shaped(pat),
        pat.len() < notice().len(),
    ensures
        keeps_clear(notice(), pat),
{
    lemma_tokens_and_notice();
    let note = notice();
    assert forall|head: Seq<u8>, tail: Seq<u8>, at: int| #[trigger]
        occurs_at(head + note + tail, pat, at) implies at + pat.len() <= head.len() || head.len()
        + note.len() <= at by {
        let s = head + note + tail;
        let h = head.len() as int;
        let n = note.len() as int;
        if at + pat.len() > h && h + n > at {
            if at <= h {
                // The last byte of the occurrence lies in the notice.
                let k = pat.len() - 1;
                lemma_occurrence_bytes(s, pat, at, k);
                assert(s[at + k] == note[at + k - h]);
                assert(note[at + k - h] == 95);
            } else {
                // The first byte of the occurrence lies in the notice.
                lemma_occurrence_bytes(s, pat, at, 0);
                assert(s[at] == note[at - h]);
                assert(note[at - h] == 95);
            }
        }
    }
}

/// The harness source of a plain name holds neither token, whatever the
/// template is.
pub proof fn lemma_harness_holds_no_token(template: Seq<u8>, target: Seq<u8>)
    requires
        is_plain_name(target),
    ensures
        !occurs(spec_harness_source(template, target), target_token()),
        !occurs(spec_harness_source(template, target), comment_token()),
{
    lemma_tokens_and_notice();
    lemma_name_keeps_clear(target, target_token());
    lemma_notice_keeps_clear(target_token());
    lemma_notice_keeps_clear(comment_token());
    let named = replace_all(template, target_token(), target);
    lemma_replaced_pattern_is_gone(template, target_token(), target);
    lemma_replacing_brings_nothing_in(named, comment_token(), notice(), target_token());
    lemma_replaced_pattern_is_gone(named, comment_token(), notice());
}

/// Whether `pat` occurs in `s` at `place` and nowhere else.
pub open spec fn occurs_only_at(s: Seq<u8>, pat: Seq<u8>, place: int) -> bool {
    &&& occurs_at(s, pat, place)
    &&& forall|at: int| occurs_at(s, pat, at) ==> at == place
}

/// A template that holds each token once: the parts `a`, `b` and `c` with
/// the two tokens between them, the comment token first or second.
pub open spec fn template_of(a: Seq<u8>, b: Seq<u8>, c: Seq<u8>, comment_first: bool) -> Seq<u8> {
    if comment_first {
        a + comment_token() + b + target_token() + c
    } else {
        a + target_token() + b + comment_token() + c
    }
}

/// The same parts with the notice and the name of the target in place of
/// the tokens.
pub open spec fn filled_in(
    a: Seq<u8>,
    b: Seq<u8>,
    c: Seq<u8>,
    comment_first: bool,
    target: Seq<u8>,
) -> Seq<u8> {
    if comment_first {
        a + notice() + b + target + c
    } else {
        a + target + b + notice() + c
    }
}

/// Whether the template made of the parts holds each token at its own
/// place only.
pub open spec fn holds_each_token_once(
    a: Seq<u8>,
    b: Seq<u8>,
    c: Seq<u8>,
    comment_first: bool,
) -> bool {
    let template = template_of(a, b, c, comment_first);
    if comment_first {
        &&& occurs_only_at(template, comment_token(), a.len() as int)
        &&& occurs_only_at(
            template,
            target_token(),
            (a.len() + comment_token().len() + b.len()) as int,
        )
    } else {
        &&& occurs_only_at(template, target_token(), a.len() as int)
        &&& occurs_only_at(
            template,
            comment_token(),
            (a.len() + target_token().len() + b.len()) as int,
        )
    }
}

/// Rendering is plain substitution: from a template that holds each token
/// once, the harness source of a plain name is the template with the name in
/// place of the target token and the notice in place of the comment token,
/// and nothing else changed.
pub proof fn lemma_harness_fills_both_in(
    a: Seq<u8>,
    b: Seq<u8>,
    c: Seq<u8>,
    comment_first: bool,
    target: Seq<u8>,
)
    requires
        is_plain_name(target),
        holds_each_token_once(a, b, c, comment_first),
    ensures
        spec_harness_source(template_of(a, b, c, comment_first), target) == filled_in(
            a,
            b,
            c,
            comment_first,
            target,
        ),
{
    lemma_tokens_and_notice();
    let t = target_token();
    let k = comment_token();
    let template = template_of(a, b, c, comment_first);
    lemma_name_keeps_clear(target, k);
    if comment_first {
        let head = a + k + b;
        assert(template =~= head + t + c);
        lemma_single_occurrence(head, t, c, target);
        let named = head + target + c;
        assert(named =~= a + k + (b + target + c));
        assert forall|at: int| occurs_at(a + k + (b + target + c), k, at) implies at
            == a.len() by {
            assert(occurs_at(head + target + c, k, at));
            if at + k.len() <= head.len() {
                assert(head + target + c =~= head + (target + c));
                assert(template =~= head + (t + c));
                lemma_occurrence_in_head(head, target + c, t + c, k, at);
            } else {
                lemma_occurrence_in_tail(head + target, head + t, c, k, at);
                assert(occurs_at(template, k, at - target.len() + t.len()));
            }
        }
        lemma_single_occurrence(a, k, b + target + c, notice());
        assert(a + notice() + (b + target + c) =~= a + notice() + b + target + c);
    } else {
        assert(template =~= a + t + (b + k + c));
        lemma_single_occurrence(a, t, b + k + c, target);
        let head = a + target + b;
        let named = a + target + (b + k + c);
        assert(named =~= head + k + c);
        assert forall|at: int| occurs_at(head + k + c, k, at) implies at == head.len() by {
            assert(occurs_at(a + target + (b + k + c), k, at));
            if at + k.len() <= a.len() {
                assert(a + target + (b + k + c) =~= a + (target + (b + k + c)));
                assert(template =~= a + (t + (b + k + c)));
                lemma_occurrence_in_head(a, target + (b + k + c), t + (b + k + c), k, at);
            } else {
                lemma_occurrence_in_tail(a + target, a + t, b + k + c, k, at);
                assert(template =~= a + t + (b + k + c));
                assert(occurs_at(template, k, at - target.len() + t.len()));
            }
        }
        lemma_single_occurrence(head, k, c, notice());
    }
}

/// Two plain names give two harness sources: from a template that holds
/// each token once, renderings for different targets differ.
pub proof fn lemma_other_target_other_harness(
    a: Seq<u8>,
    b: Seq<u8>,
    c: Seq<u8>,
    comment_first: bool,
    one: Seq<u8>,
    other: Seq<u8>,
)
    requires
        is_plain_name(one),
        is_plain_name(other),
        holds_each_token_once(a, b, c, comment_first),
        one != other,
    ensures
        spec_harness_source(template_of(a, b, c, comment_first), one) != spec_harness_source(
            template_of(a, b, c, comment_first),
            other,
        ),
{
    lemma_harness_fills_both_in(a, b, c, comment_first, one);
    lemma_harness_fills_both_in(a, b, c, comment_first, other);
    let x = filled_in(a, b, c, comment_first, one);
    let y = filled_in(a, b, c, comment_first, other);
    if x == y {
        assert(one.len() == other.len()) by {
            assert(x.len() == y.len());
        }
        let start: int = if comment_first {
            (a.len() + notice().len() + b.len()) as int
        } else {
            a.len() as int
        };
        assert(x.subrange(start, start + one.len()) =~= one);
        assert(y.subrange(start, start + other.len()) =~= other);
    }
}

/// The name of every registered target is a plain name, so what holds of
/// the harness source of a plain name holds for every registered target.
pub proof fn lemma_targets_are_plain_names(name: Seq<char>)
    requires
        is_target(name),
    ensures
        is_plain_name(encode_utf8(name)),
{
    reveal_strlit("util_to_hex");
    reveal_strlit("util_bytes_to_bits");
    reveal_strlit("util_from_hex");
    reveal_strlit("util_to_hex_multiple");
    reveal_strlit("core_trx_create_coinbase");
    reveal_strlit("core_trx_with_maturity");
    reveal_strlit("mmr_push_bytes");
    is_ascii_chars_encode_utf8(name);
    let i = choose|i: int| 0 <= i < target_names().len() && #[trigger] target_names()[i] == name;
    if i == 0 {
        assert(name == "util_to_hex"@);
    } else if i == 1 {
        assert(name == "util_bytes_to_bits"@);
    } else if i == 2 {
        assert(name == "util_from_hex"@);
    } else if i == 3 {
        assert(name == "util_to_hex_multiple"@);
    } else if i == 4 {
        assert(name == "core_trx_create_coinbase"@);
    } else if i == 5 {
        assert(name == "core_trx_with_maturity"@);
    } else {
        assert(name == "mmr_push_bytes"@);
    }
}

} // verus!
