//! Laws of the grammar: properties that hold of every input, stated over the
//! spec functions the parser contracts use, and proved here once and for all.

use vstd::prelude::*;

use crate::grammar::{spec_amount, spec_amount_simple, spec_bonus_term, spec_bonus_terms,
    spec_join_vehicles, spec_report, spec_result_line, spec_reward, spec_rows, spec_table,
    spec_table_header, spec_timestamp};
use crate::report::{Reward, RowV, VehicleV};
use crate::scan::{alpha_end, digits_end, digits_value, find_lit, is_alpha, is_digit,
    is_space_char, spaces_end, spec_match_lit, spec_parse_u32};

verus! {

// ---------------------------------------------------------------------------
// Digit and space runs
// ---------------------------------------------------------------------------

/// A non-empty run of decimal digits.
pub open spec fn is_digit_seq(d: Seq<char>) -> bool {
    d.len() > 0 && forall|k: int| 0 <= k < d.len() ==> is_digit(#[trigger] d[k])
}

/// The number a digit run denotes.
pub open spec fn digit_seq_value(d: Seq<char>) -> int {
    digits_value(d, 0, d.len() as int)
}

/// A digit run bounded on the right by a non-digit (or the end of input)
/// ends exactly there.
pub proof fn lemma_digits_end_of_run(s: Seq<char>, i: int, j: int)
    requires
        0 <= i <= j <= s.len(),
        forall|k: int| i <= k < j ==> is_digit(#[trigger] s[k]),
        j == s.len() || !is_digit(s[j]),
    ensures
        digits_end(s, i) == j,
    decreases j - i,
{
    if i < j {
        lemma_digits_end_of_run(s, i + 1, j);
    }
}

/// A space run bounded on the right by a non-space ends exactly there.
pub proof fn lemma_spaces_end_of_run(s: Seq<char>, i: int, j: int)
    requires
        0 <= i <= j <= s.len(),
        forall|k: int| i <= k < j ==> is_space_char(#[trigger] s[k]),
        j == s.len() || !is_space_char(s[j]),
    ensures
        spaces_end(s, i) == j,
    decreases j - i,
{
    if i < j {
        lemma_spaces_end_of_run(s, i + 1, j);
    }
}

/// The value of a digit window depends only on its characters.
pub proof fn lemma_digits_value_depends(s1: Seq<char>, s2: Seq<char>, i1: int, i2: int, m: int)
    requires
        m >= 0,
        forall|k: int| 0 <= k < m ==> s1[i1 + k] == #[trigger] s2[i2 + k],
    ensures
        digits_value(s1, i1, i1 + m) == digits_value(s2, i2, i2 + m),
    decreases m,
{
    if m > 0 {
        lemma_digits_value_depends(s1, s2, i1, i2, m - 1);
        assert(s1[i1 + (m - 1)] == s2[i2 + (m - 1)]);
    }
}

/// A number at the head of `d + rest`, where `rest` opens with a non-digit,
/// parses to exactly the run's value.
pub proof fn lemma_number_at(s: Seq<char>, i: int, d: Seq<char>, n: u32)
    requires
        0 <= i,
        i + d.len() <= s.len(),
        is_digit_seq(d),
        digit_seq_value(d) == n,
        forall|k: int| 0 <= k < d.len() ==> s[i + k] == d[k],
        i + d.len() == s.len() || !is_digit(s[i + d.len()]),
    ensures
        spec_parse_u32(s, i) == Some((n, i + d.len())),
{
    assert forall|k: int| i <= k < i + d.len() implies is_digit(#[trigger] s[k]) && s[k] == d[k
        - i] by {
        assert(s[i + (k - i)] == d[k - i]);
    }
    lemma_digits_end_of_run(s, i, i + d.len());
    lemma_digits_value_depends(s, d, i, 0, d.len() as int);
}

// ---------------------------------------------------------------------------
// Simple rewards
// ---------------------------------------------------------------------------

/// For every simple reward text `"<n> SL" + <spaces> + "<m> RP"` with at
/// least four separating spaces, the reward grammar yields currency `n` and
/// research `m` and consumes the whole text.
pub proof fn lemma_simple_reward(d1: Seq<char>, sep: Seq<char>, d2: Seq<char>, n: u32, m: u32)
    requires
        is_digit_seq(d1),
        digit_seq_value(d1) == n,
        is_digit_seq(d2),
        digit_seq_value(d2) == m,
        sep.len() >= 4,
        forall|k: int| 0 <= k < sep.len() ==> sep[k] == ' ',
    ensures
        spec_reward(d1 + " SL"@ + sep + d2 + " RP"@, 0) == Some((Reward {
            silverlions: n,
            research: m,
        }, (d1 + " SL"@ + sep + d2 + " RP"@).len() as int)),
{
    reveal(crate::grammar::spec_reward);
    reveal_strlit(" SL");
    reveal_strlit(" RP");
    reveal_strlit("    ");
    let s = d1 + " SL"@ + sep + d2 + " RP"@;
    let l1 = d1.len() as int;
    let a = l1 + 3;
    let b = a + sep.len() as int;
    let l2 = d2.len() as int;
    // the leading number
    assert(s[l1] == ' ');
    lemma_number_at(s, 0, d1, n);
    // the " SL" suffix
    assert(s.subrange(l1, a) =~= " SL"@);
    assert(spec_amount_simple(s, 0, " SL"@) == Some((n, a)));
    assert(spec_amount(s, 0, " SL"@) == Some((n, a)));
    // the separator: four spaces then the rest of the run
    assert(s.subrange(a, a + 4) =~= "    "@);
    assert(forall|k: int| a + 4 <= k < b ==> is_space_char(#[trigger] s[k]));
    assert(!is_space_char(s[b]));
    lemma_spaces_end_of_run(s, a + 4, b);
    // the research number and its " RP" suffix
    assert(s[b + l2] == ' ');
    lemma_number_at(s, b, d2, m);
    assert(s.subrange(b + l2, s.len() as int) =~= " RP"@);
    assert(spec_amount_simple(s, b, " RP"@) == Some((m, s.len() as int)));
    assert(spec_amount(s, b, " RP"@) == Some((m, s.len() as int)));
}

/// A simple currency text `"<n> SL"` alone yields currency `n`, research 0.
pub proof fn lemma_simple_reward_currency_only(d1: Seq<char>, n: u32)
    requires
        is_digit_seq(d1),
        digit_seq_value(d1) == n,
    ensures
        spec_reward(d1 + " SL"@, 0) == Some((Reward { silverlions: n, research: 0 }, (d1
            + " SL"@).len() as int)),
{
    reveal(crate::grammar::spec_reward);
    reveal_strlit(" SL");
    let s = d1 + " SL"@;
    let l1 = d1.len() as int;
    assert(s[l1] == ' ');
    lemma_number_at(s, 0, d1, n);
    assert(s.subrange(l1, s.len() as int) =~= " SL"@);
    assert(spec_amount_simple(s, 0, " SL"@) == Some((n, s.len() as int)));
    assert(spec_amount(s, 0, " SL"@) == Some((n, s.len() as int)));
}

// ---------------------------------------------------------------------------
// Itemized rewards
// ---------------------------------------------------------------------------

/// A non-empty run of ASCII letters.
pub open spec fn is_alpha_seq(a: Seq<char>) -> bool {
    a.len() > 0 && forall|k: int| 0 <= k < a.len() ==> is_alpha(#[trigger] a[k])
}

/// The text of one bonus contribution with label `t.0` and digits `t.1`.
pub open spec fn bonus_term_text(t: (Seq<char>, Seq<char>)) -> Seq<char> {
    " + ("@ + t.0 + ")"@ + t.1
}

/// The text of a run of bonus contributions, in order.
pub open spec fn bonus_terms_text(ts: Seq<(Seq<char>, Seq<char>)>) -> Seq<char>
    decreases ts.len(),
{
    if ts.len() == 0 {
        Seq::empty()
    } else {
        bonus_term_text(ts[0]) + bonus_terms_text(ts.drop_first())
    }
}

/// Every contribution has a letter label and a digit figure.
pub open spec fn is_bonus_terms(ts: Seq<(Seq<char>, Seq<char>)>) -> bool {
    forall|k: int| 0 <= k < ts.len() ==> is_alpha_seq((#[trigger] ts[k]).0)
        && is_digit_seq(ts[k].1)
}

/// A letter run bounded on the right by a non-letter ends exactly there.
pub proof fn lemma_alpha_end_of_run(s: Seq<char>, i: int, j: int)
    requires
        0 <= i <= j <= s.len(),
        forall|k: int| i <= k < j ==> is_alpha(#[trigger] s[k]),
        j == s.len() || !is_alpha(s[j]),
    ensures
        alpha_end(s, i) == j,
    decreases j - i,
{
    if i < j {
        lemma_alpha_end_of_run(s, i + 1, j);
    }
}

/// One bonus contribution, written at `i` and bounded on the right by a
/// non-digit, parses to exactly its own length.
proof fn lemma_bonus_term_at(s: Seq<char>, i: int, lbl: Seq<char>, dig: Seq<char>)
    requires
        0 <= i,
        is_alpha_seq(lbl),
        is_digit_seq(dig),
        i + 5 + lbl.len() + dig.len() <= s.len(),
        s.subrange(i, i + 4) == " + ("@,
        s.subrange(i + 4, i + 4 + lbl.len()) == lbl,
        s[i + 4 + lbl.len()] == ')',
        s.subrange(i + 5 + lbl.len(), i + 5 + lbl.len() + dig.len()) == dig,
        i + 5 + lbl.len() + dig.len() == s.len() || !is_digit(s[i + 5 + lbl.len() + dig.len()]),
    ensures
        spec_bonus_term(s, i) == Some(i + 5 + lbl.len() + dig.len()),
{
    reveal_strlit(" + (");
    reveal_strlit(")");
    let a0 = i + 4;
    let a1 = a0 + lbl.len() as int;
    let b0 = a1 + 1;
    let b1 = b0 + dig.len() as int;
    assert(spec_match_lit(s, i, " + ("@) == Some(a0));
    assert forall|k: int| a0 <= k < a1 implies is_alpha(#[trigger] s[k]) by {
        assert(s.subrange(a0, a1)[k - a0] == s[k]);
    }
    assert(!is_alpha(s[a1]));
    lemma_alpha_end_of_run(s, a0, a1);
    assert(s.subrange(a1, a1 + 1) =~= ")"@);
    assert(spec_match_lit(s, a1, ")"@) == Some(b0));
    assert forall|k: int| b0 <= k < b1 implies is_digit(#[trigger] s[k]) by {
        assert(s.subrange(b0, b1)[k - b0] == s[k]);
    }
    lemma_digits_end_of_run(s, b0, b1);
}

/// A run of bonus contributions written at `i` and followed by `" = "` is
/// consumed greedily to exactly its own length: the `" = "` stops the run.
proof fn lemma_terms_then_eq(s: Seq<char>, i: int, ts: Seq<(Seq<char>, Seq<char>)>,
    rest: Seq<char>)
    requires
        0 <= i <= s.len(),
        is_bonus_terms(ts),
        s.subrange(i, s.len() as int) == bonus_terms_text(ts) + " = "@ + rest,
    ensures
        spec_bonus_terms(s, i) == i + bonus_terms_text(ts).len(),
        s.subrange(i + bonus_terms_text(ts).len(), s.len() as int) == " = "@ + rest,
    decreases ts.len(),
{
    reveal_strlit(" + (");
    reveal_strlit(")");
    reveal_strlit(" = ");
    assert(" + ("@.len() == 4);
    assert(")"@.len() == 1);
    let tail = s.subrange(i, s.len() as int);
    if ts.len() == 0 {
        assert(tail =~= " = "@ + rest);
        assert(s[i + 1] == tail[1]);
        assert(s[i + 1] == '=');
        if spec_match_lit(s, i, " + ("@) is Some {
            assert(s.subrange(i, i + 4)[1] == s[i + 1]);
            assert(false);
        }
        assert(spec_bonus_term(s, i) is None);
    } else {
        let t0 = ts[0];
        let l0 = 5 + t0.0.len() + t0.1.len();
        let j = i + l0;
        assert(bonus_terms_text(ts) == bonus_term_text(t0) + bonus_terms_text(ts.drop_first()));
        assert(bonus_term_text(t0).len() == l0);
        assert(tail.len() == bonus_terms_text(ts).len() + 3 + rest.len());
        assert(bonus_terms_text(ts).len() == l0 + bonus_terms_text(ts.drop_first()).len());
        // the first contribution's pieces, read off the window equality
        assert forall|k: int| 0 <= k < l0 implies s[i + k] == #[trigger] bonus_term_text(t0)[k]
            by {
            assert(0 <= k < tail.len());
            assert(tail[k] == s[i + k]);
            assert(tail[k] == (bonus_terms_text(ts) + " = "@ + rest)[k]);
            assert((bonus_terms_text(ts) + " = "@ + rest)[k] == bonus_terms_text(ts)[k]);
            assert(bonus_terms_text(ts)[k] == bonus_term_text(t0)[k]);
        }
        assert(s.subrange(i, i + 4) =~= " + ("@);
        assert forall|q: int| 0 <= q < t0.0.len() implies s.subrange(i + 4, i + 4
            + t0.0.len() as int)[q] == t0.0[q] by {
            assert(s[i + (4 + q)] == bonus_term_text(t0)[4 + q]);
            assert(bonus_term_text(t0)[4 + q] == t0.0[q]);
        }
        assert(s.subrange(i + 4, i + 4 + t0.0.len()) =~= t0.0);
        assert(bonus_term_text(t0)[4 + t0.0.len() as int] == ')');
        assert(s[i + 4 + t0.0.len() as int] == ')');
        assert forall|q: int| 0 <= q < t0.1.len() implies s.subrange(i + 5 + t0.0.len() as int,
            i + 5 + t0.0.len() + t0.1.len())[q] == t0.1[q] by {
            assert(s[i + (5 + t0.0.len() + q)] == bonus_term_text(t0)[5 + t0.0.len() + q]);
            assert(bonus_term_text(t0)[5 + t0.0.len() + q] == t0.1[q]);
        }
        assert(s.subrange(i + 5 + t0.0.len(), i + 5 + t0.0.len() + t0.1.len()) =~= t0.1);
        // the character after the contribution is a blank, never a digit
        let after = bonus_terms_text(ts.drop_first()) + " = "@ + rest;
        assert(tail =~= bonus_term_text(t0) + after);
        assert forall|q: int| 0 <= q < after.len() implies s.subrange(j,
            s.len() as int)[q] == after[q] by {
            assert(s.subrange(j, s.len() as int)[q] == s[j + q]);
            assert(tail[l0 + q] == s[i + (l0 + q)]);
            assert((bonus_term_text(t0) + after)[l0 + q] == after[q]);
        }
        assert(s.subrange(j, s.len() as int) =~= after);
        if ts.len() == 1 {
            assert(after[0] == ' ');
        } else {
            assert(bonus_terms_text(ts.drop_first()) == bonus_term_text(ts.drop_first()[0])
                + bonus_terms_text(ts.drop_first().drop_first()));
            assert(after[0] == ' ');
        }
        assert(s[j] == ' ');
        assert(!is_digit(s[j]));
        lemma_bonus_term_at(s, i, t0.0, t0.1);
        lemma_terms_then_eq(s, j, ts.drop_first(), rest);
    }
}

/// For every itemized amount text `"<b> + (<l1>)<k1> + ... = <n> SL"`, the
/// grammar takes `n`, the figure after the equals sign, as the amount —
/// whatever the base and the bonus figures are, and whether or not they sum
/// to `n`. No re-summation is performed.
#[verifier::rlimit(100)]
pub proof fn lemma_itemized_total(d0: Seq<char>, ts: Seq<(Seq<char>, Seq<char>)>, d: Seq<char>,
    n: u32)
    requires
        is_digit_seq(d0),
        ts.len() > 0,
        is_bonus_terms(ts),
        is_digit_seq(d),
        digit_seq_value(d) == n,
    ensures
        spec_amount(d0 + bonus_terms_text(ts) + " = "@ + d + " SL"@, 0, " SL"@) == Some((n, (d0
            + bonus_terms_text(ts) + " = "@ + d + " SL"@).len() as int)),
{
    reveal_strlit(" + (");
    reveal_strlit(")");
    reveal_strlit(" = ");
    reveal_strlit(" SL");
    assert(" + ("@.len() == 4);
    assert(")"@.len() == 1);
    let s = d0 + bonus_terms_text(ts) + " = "@ + d + " SL"@;
    let e0 = d0.len() as int;
    let tl = bonus_terms_text(ts).len() as int;
    let e1 = e0 + tl;
    let e2 = e1 + 3;
    let e3 = e2 + d.len() as int;
    assert(bonus_terms_text(ts) == bonus_term_text(ts[0]) + bonus_terms_text(ts.drop_first()));
    assert(bonus_term_text(ts[0]).len() == 5 + ts[0].0.len() + ts[0].1.len());
    assert(bonus_terms_text(ts).len() >= 5);
    assert(bonus_term_text(ts[0])[0] == ' ');
    assert(s[e0] == bonus_terms_text(ts)[0]);
    assert(s[e0] == ' ');
    assert(!is_digit(s[e0]));
    assert forall|k: int| 0 <= k < e0 implies is_digit(#[trigger] s[k]) && s[k] == d0[k] by {}
    lemma_digits_end_of_run(s, 0, e0);
    // the simple shape fails: after the leading number comes a plus, not the
    // unit suffix
    assert(s[e0 + 1] == bonus_term_text(ts[0])[1]);
    assert(s[e0 + 1] == '+');
    match spec_parse_u32(s, 0) {
        Some((v0, j0)) => {
            assert(j0 == e0);
            if spec_match_lit(s, e0, " SL"@) is Some {
                assert(s.subrange(e0, e0 + 3)[1] == s[e0 + 1]);
                assert(false);
            }
        },
        None => {},
    }
    assert(spec_amount_simple(s, 0, " SL"@) is None);
    // the itemized shape: the contributions, then the authoritative total
    assert(s.subrange(e0, s.len() as int) =~= bonus_terms_text(ts) + " = "@ + (d + " SL"@));
    lemma_terms_then_eq(s, e0, ts, d + " SL"@);
    let t0 = ts[0];
    let l0 = 5 + t0.0.len() + t0.1.len();
    assert forall|k: int| 0 <= k < l0 implies s[e0 + k] == #[trigger] bonus_term_text(t0)[k] by {
        assert(0 <= k < s.len() - e0);
        assert(s.subrange(e0, s.len() as int)[k] == s[e0 + k]);
        assert(s.subrange(e0, s.len() as int)[k] == (bonus_terms_text(ts) + " = "@ + (d
            + " SL"@))[k]);
        assert((bonus_terms_text(ts) + " = "@ + (d + " SL"@))[k] == bonus_terms_text(ts)[k]);
        assert(bonus_terms_text(ts)[k] == bonus_term_text(t0)[k]);
    }
    assert(s.subrange(e0, e0 + 4) =~= " + ("@);
    assert forall|q: int| 0 <= q < t0.0.len() implies s.subrange(e0 + 4, e0 + 4
        + t0.0.len() as int)[q] == t0.0[q] by {
        assert(s[e0 + (4 + q)] == bonus_term_text(t0)[4 + q]);
        assert(bonus_term_text(t0)[4 + q] == t0.0[q]);
    }
    assert(s.subrange(e0 + 4, e0 + 4 + t0.0.len()) =~= t0.0);
    assert(bonus_term_text(t0)[4 + t0.0.len() as int] == ')');
    assert(s[e0 + 4 + t0.0.len() as int] == ')');
    assert forall|q: int| 0 <= q < t0.1.len() implies s.subrange(e0 + 5 + t0.0.len() as int,
        e0 + 5 + t0.0.len() + t0.1.len())[q] == t0.1[q] by {
        assert(s[e0 + (5 + t0.0.len() + q)] == bonus_term_text(t0)[5 + t0.0.len() + q]);
        assert(bonus_term_text(t0)[5 + t0.0.len() + q] == t0.1[q]);
    }
    assert(s.subrange(e0 + 5 + t0.0.len(), e0 + 5 + t0.0.len() + t0.1.len()) =~= t0.1);
    let j = e0 + l0;
    let after = bonus_terms_text(ts.drop_first()) + " = "@ + (d + " SL"@);
    let tail = s.subrange(e0, s.len() as int);
    assert(tail =~= bonus_term_text(t0) + after);
    assert forall|q: int| 0 <= q < after.len() implies s.subrange(j,
        s.len() as int)[q] == after[q] by {
        assert(s.subrange(j, s.len() as int)[q] == s[j + q]);
        assert(tail[l0 + q] == s[e0 + (l0 + q)]);
        assert((bonus_term_text(t0) + after)[l0 + q] == after[q]);
    }
    assert(s.subrange(j, s.len() as int) =~= after);
    if ts.len() == 1 {
        assert(after[0] == ' ');
    } else {
        assert(bonus_terms_text(ts.drop_first()) == bonus_term_text(ts.drop_first()[0])
            + bonus_terms_text(ts.drop_first().drop_first()));
        assert(after[0] == ' ');
    }
    assert(!is_digit(s[j]));
    lemma_bonus_term_at(s, e0, t0.0, t0.1);
    // the closing " = " and the total
    assert(s.subrange(e1, e2) =~= " = "@);
    assert(s[e3] == ' ');
    assert forall|k: int| 0 <= k < d.len() implies s[e2 + k] == d[k] by {
        assert(s.subrange(e1, s.len() as int)[3 + k] == s[e1 + 3 + k]);
    }
    lemma_number_at(s, e2, d, n);
    assert(s.subrange(e3, s.len() as int) =~= " SL"@);
    assert(spec_amount_simple(s, e2, " SL"@) == Some((n, s.len() as int)));
}

/// An itemized currency text standing alone parses as a reward with the
/// authoritative currency total and research 0.
pub proof fn lemma_itemized_reward(d0: Seq<char>, ts: Seq<(Seq<char>, Seq<char>)>, d: Seq<char>,
    n: u32)
    requires
        is_digit_seq(d0),
        ts.len() > 0,
        is_bonus_terms(ts),
        is_digit_seq(d),
        digit_seq_value(d) == n,
    ensures
        spec_reward(d0 + bonus_terms_text(ts) + " = "@ + d + " SL"@, 0) == Some((Reward {
            silverlions: n,
            research: 0,
        }, (d0 + bonus_terms_text(ts) + " = "@ + d + " SL"@).len() as int)),
{
    reveal(crate::grammar::spec_reward);
    lemma_itemized_total(d0, ts, d, n);
}

// ---------------------------------------------------------------------------
// Timestamps
// ---------------------------------------------------------------------------

/// `"H:MM"` parses to `H * 60 + MM` total minutes.
pub proof fn lemma_timestamp_value(dh: Seq<char>, dm: Seq<char>, rest: Seq<char>, h: u32, m: u32)
    requires
        is_digit_seq(dh),
        digit_seq_value(dh) == h,
        is_digit_seq(dm),
        digit_seq_value(dm) == m,
        h * 60 + m <= u32::MAX,
        rest.len() == 0 || !is_digit(rest[0]),
    ensures
        spec_timestamp(dh + seq![':'] + dm + rest, 0) == Some(((h * 60 + m) as u32, (dh.len()
            + 1 + dm.len()) as int)),
{
    let s = dh + seq![':'] + dm + rest;
    let l1 = dh.len() as int;
    let c = l1 + 1;
    let e = c + dm.len() as int;
    assert(s[l1] == ':');
    lemma_number_at(s, 0, dh, h);
    assert(forall|k: int| 0 <= k < dm.len() ==> s[c + k] == dm[k]);
    assert(e == s.len() || s[e] == rest[0]);
    lemma_number_at(s, c, dm, m);
}

// ---------------------------------------------------------------------------
// Table row counts
// ---------------------------------------------------------------------------

/// A successful fixed-count row parse yields exactly that many rows.
pub proof fn lemma_rows_len(s: Seq<char>, i: int, n: nat)
    requires
        spec_rows(s, i, n) is Some,
    ensures
        spec_rows(s, i, n)->Some_0.0.len() == n,
    decreases n,
{
    if n > 0 {
        let (row, j) = spec_rows(s, i, n)->Some_0;
        match crate::grammar::spec_table_row(s, i) {
            Some((r0, j0)) => {
                lemma_rows_len(s, j0, (n - 1) as nat);
            },
            None => {},
        }
    }
}

/// A successful table parse consumes exactly the row count its header
/// declared: the table holds that many rows, no fewer and no more.
pub proof fn lemma_table_row_count(s: Seq<char>, i: int)
    requires
        spec_table(s, i) is Some,
    ensures
        spec_table_header(s, i) is Some,
        spec_table(s, i)->Some_0.0.rows.len() == spec_table_header(s, i)->Some_0.0.1,
{
    reveal(crate::grammar::spec_table);
    let ((name, count, agg), j) = spec_table_header(s, i)->Some_0;
    lemma_rows_len(s, j, count as nat);
}

/// If the rows run out one short of `n + 1`, the longer demand fails.
proof fn lemma_rows_one_more(s: Seq<char>, j: int, n: nat)
    requires
        spec_rows(s, j, n) is Some,
        crate::grammar::spec_table_row(s, spec_rows(s, j, n)->Some_0.1) is None,
    ensures
        spec_rows(s, j, (n + 1) as nat) is None,
    decreases n,
{
    if n > 0 {
        match crate::grammar::spec_table_row(s, j) {
            Some((row, j1)) => {
                lemma_rows_one_more(s, j1, (n - 1) as nat);
            },
            None => {},
        }
    }
}

/// A table declaring one row more than the well-formed rows that follow
/// fails: after the last well-formed row no further row can be read, and the
/// declared count is an exact demand.
pub proof fn lemma_table_missing_row_fails(s: Seq<char>, i: int, rows: Seq<RowV>, k: int)
    requires
        spec_table_header(s, i) is Some,
        spec_rows(s, spec_table_header(s, i)->Some_0.1, (spec_table_header(s,
            i)->Some_0.0.1 - 1) as nat) == Some((rows, k)),
        spec_table_header(s, i)->Some_0.0.1 >= 1,
        crate::grammar::spec_table_row(s, k) is None,
    ensures
        spec_table(s, i) is None,
{
    reveal(crate::grammar::spec_table);
    let count = spec_table_header(s, i)->Some_0.0.1;
    let j = spec_table_header(s, i)->Some_0.1;
    lemma_rows_one_more(s, j, (count - 1) as nat);
}

/// A table followed by one well-formed row too many fails: the extra row
/// begins with the indent, so the closing blank line cannot be read.
pub proof fn lemma_table_extra_row_fails(s: Seq<char>, i: int, rows: Seq<RowV>, k: int)
    requires
        spec_table_header(s, i) is Some,
        spec_rows(s, spec_table_header(s, i)->Some_0.1, spec_table_header(s,
            i)->Some_0.0.1 as nat) == Some((rows, k)),
        crate::grammar::spec_table_row(s, k) is Some,
    ensures
        spec_table(s, i) is None,
{
    reveal(crate::grammar::spec_table);
    reveal(crate::grammar::spec_table_row);
    reveal_strlit("    ");
    match spec_match_lit(s, k, "    "@) {
        Some(_j) => {
            assert(s.subrange(k, k + 4)[0] == s[k]);
            assert(s[k] == ' ');
        },
        None => {
            assert(false);
        },
    }
}

// ---------------------------------------------------------------------------
// The positional vehicle join
// ---------------------------------------------------------------------------

/// Row `k` of a successful activity/time-played join takes its name,
/// activity and minutes from time-played row `k`, its currency from activity
/// row `k`, and its research as the sum of both research figures.
pub proof fn lemma_join_research(
    a: Seq<(u32, Seq<char>, Reward)>,
    b: Seq<(Seq<char>, u8, u32, u32)>,
    vs: Seq<VehicleV>,
    k: int,
)
    requires
        spec_join_vehicles(a, b) == Some(vs),
        0 <= k < vs.len(),
    ensures
        vs.len() == a.len() && vs.len() == b.len(),
        vs[k].name == b[k].0,
        vs[k].activity == b[k].1,
        vs[k].time_played == b[k].2,
        vs[k].reward.silverlions == a[k].2.silverlions,
        vs[k].reward.research == a[k].2.research + b[k].3,
{
    assert(!(a[k].2.research + b[k].3 > u32::MAX));
}

// ---------------------------------------------------------------------------
// The result line
// ---------------------------------------------------------------------------

/// No occurrence at or after `i` means none at or after any later `j`.
proof fn lemma_find_lit_none_later(s: Seq<char>, i: int, j: int, lit: Seq<char>)
    requires
        0 <= i <= j,
        find_lit(s, i, lit) is None,
    ensures
        find_lit(s, j, lit) is None,
    decreases j - i,
{
    if i < j {
        lemma_find_lit_none_later(s, i + 1, j, lit);
    }
}

/// An input in which the `" mission!"` literal never occurs fails at the
/// result-line rule, and the whole report parse fails with it.
pub proof fn lemma_missing_mission_literal(s: Seq<char>)
    requires
        find_lit(s, 0, " mission!"@) is None,
    ensures
        spec_result_line(s, 0) is None,
        spec_report(s) is None,
{
    match crate::grammar::spec_battle_result(s, 0) {
        Some((res, j0)) => {
            match crate::scan::spec_match_lit(s, j0, " in the "@) {
                Some(j1) => {
                    lemma_find_lit_none_later(s, 0, j1, " mission!"@);
                },
                None => {},
            }
        },
        None => {},
    }
}

} // verus!
