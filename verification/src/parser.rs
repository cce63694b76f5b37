//! The executable parser.
//!
//! Every function here consumes characters from position `i` of `s` and is
//! proved to return exactly what the corresponding grammar spec function
//! says: the same value, the same next position, and failure on exactly the
//! same inputs.

use vstd::prelude::*;
use vstd::string::StringExecFns;

use crate::grammar::{award_of, awards_of_rows, dmg_end, events_of_tables, joined_vehicle,
    spec_activity, spec_amount, spec_amount_complex, spec_amount_simple, spec_award_table,
    spec_battle_result, spec_bonus_term, spec_bonus_terms, spec_damaged, spec_dmg_list,
    spec_earned, spec_events, spec_join_vehicles, spec_labeled_reward,
    spec_modification_research, spec_mr_lines, spec_opt_marker, spec_purchase, spec_repair,
    spec_report, spec_researched_mods, spec_researched_units, spec_result_line, spec_reward,
    spec_row_ending, spec_row_sep, spec_rows, spec_session, spec_short_row, spec_short_rows,
    spec_table, spec_table_header, spec_table_row, spec_tables, spec_timestamp, spec_total,
    spec_tp_header, spec_tp_row, spec_tp_rows, spec_used_items, spec_vehicle_research,
    spec_vehicle_tables, spec_vr_lines, table_events};
use crate::report::{Award, BattleReport, BattleResult, Error, Event, ModificationResearch,
    Reward, Row, Table, Vehicle, VehicleResearch};
use crate::scan::{alpha_end_at, digits_end_at, find_lit_at, hex_end_at, line_ending_at,
    match_lit, mod_name_end_at, name_end_at, parse_u32_at, parse_u8_at, spaces_end_at,
    string_of_range};

verus! {

/// A column separator: the four-space indent, then any further blanks.
pub fn row_separator(s: &[char], i: usize) -> (r: Option<usize>)
    requires
        i <= s@.len(),
    ensures
        match r {
            Some(j) => spec_row_sep(s@, i as int) == Some(j as int) && i < j <= s@.len(),
            None => spec_row_sep(s@, i as int) is None,
        },
{
    match match_lit(s, i, "    ") {
        Some(j) => {
            proof {
                reveal_strlit("    ");
            }
            Some(spaces_end_at(s, j))
        },
        None => None,
    }
}

/// End of a row: optional trailing blanks, then a line terminator.
pub fn row_ending(s: &[char], i: usize) -> (r: Option<usize>)
    requires
        i <= s@.len(),
    ensures
        match r {
            Some(j) => spec_row_ending(s@, i as int) == Some(j as int) && i < j <= s@.len(),
            None => spec_row_ending(s@, i as int) is None,
        },
{
    let j = spaces_end_at(s, i);
    line_ending_at(s, j)
}

/// An amount in the simple shape: a number followed by `unit`.
pub fn parse_amount_simple(s: &[char], i: usize, unit: &str) -> (r: Option<(u32, usize)>)
    requires
        i <= s@.len(),
    ensures
        match r {
            Some((v, j)) => spec_amount_simple(s@, i as int, unit@) == Some((v, j as int))
                && i < j <= s@.len(),
            None => spec_amount_simple(s@, i as int, unit@) is None,
        },
{
    match parse_u32_at(s, i) {
        Some((v, j)) => match match_lit(s, j, unit) {
            Some(k) => Some((v, k)),
            None => None,
        },
        None => None,
    }
}

/// One bonus contribution: `" + (<label>)<digits>"`.
fn bonus_term(s: &[char], i: usize) -> (r: Option<usize>)
    requires
        i <= s@.len(),
    ensures
        match r {
            Some(j) => spec_bonus_term(s@, i as int) == Some(j as int) && i < j <= s@.len(),
            None => spec_bonus_term(s@, i as int) is None,
        },
{
    match match_lit(s, i, " + (") {
        Some(j) => {
            let a = alpha_end_at(s, j);
            if a > j {
                match match_lit(s, a, ")") {
                    Some(b) => {
                        let d = digits_end_at(s, b);
                        if d > b {
                            Some(d)
                        } else {
                            None
                        }
                    },
                    None => None,
                }
            } else {
                None
            }
        },
        None => None,
    }
}

/// Greedily consume bonus contributions.
fn bonus_terms(s: &[char], i: usize) -> (r: usize)
    requires
        i <= s@.len(),
    ensures
        r as int == spec_bonus_terms(s@, i as int),
        i <= r <= s@.len(),
{
    let mut cur = i;
    loop
        invariant
            i <= cur <= s@.len(),
            spec_bonus_terms(s@, i as int) == spec_bonus_terms(s@, cur as int),
        decreases s@.len() - cur,
    {
        match bonus_term(s, cur) {
            Some(j) => {
                cur = j;
            },
            None => {
                return cur;
            },
        }
    }
}

/// An amount in the itemized shape: base, bonus contributions, `" = "`, and
/// the authoritative total in the simple shape.
pub fn parse_amount_complex(s: &[char], i: usize, unit: &str) -> (r: Option<(u32, usize)>)
    requires
        i <= s@.len(),
    ensures
        match r {
            Some((v, j)) => spec_amount_complex(s@, i as int, unit@) == Some((v, j as int))
                && i < j <= s@.len(),
            None => spec_amount_complex(s@, i as int, unit@) is None,
        },
{
    let d = digits_end_at(s, i);
    if d == i {
        return None;
    }
    match bonus_term(s, d) {
        Some(t) => {
            let e = bonus_terms(s, t);
            match match_lit(s, e, " = ") {
                Some(k) => parse_amount_simple(s, k, unit),
                None => None,
            }
        },
        None => None,
    }
}

/// An amount in either shape, the simple one tried first.
pub fn parse_amount(s: &[char], i: usize, unit: &str) -> (r: Option<(u32, usize)>)
    requires
        i <= s@.len(),
    ensures
        match r {
            Some((v, j)) => spec_amount(s@, i as int, unit@) == Some((v, j as int))
                && i < j <= s@.len(),
            None => spec_amount(s@, i as int, unit@) is None,
        },
{
    match parse_amount_simple(s, i, unit) {
        Some(r) => Some(r),
        None => parse_amount_complex(s, i, unit),
    }
}

/// A reward: currency then optional research, or research alone.
pub fn parse_reward(s: &[char], i: usize) -> (r: Option<(Reward, usize)>)
    requires
        i <= s@.len(),
    ensures
        match r {
            Some((v, j)) => spec_reward(s@, i as int) == Some((v, j as int)) && i < j <= s@.len(),
            None => spec_reward(s@, i as int) is None,
        },
{
    proof {
        reveal(crate::grammar::spec_reward);
    }
    match parse_amount(s, i, " SL") {
        Some((sl, j)) => {
            let opt_rp = match row_separator(s, j) {
                Some(k) => parse_amount(s, k, " RP"),
                None => None,
            };
            match opt_rp {
                Some((rp, m)) => Some((Reward { silverlions: sl, research: rp }, m)),
                None => Some((Reward { silverlions: sl, research: 0 }, j)),
            }
        },
        None => match parse_amount(s, i, " RP") {
            Some((rp, j)) => Some((Reward { silverlions: 0, research: rp }, j)),
            None => None,
        },
    }
}

/// `"H:MM"`, as total minutes.
pub fn timestamp(s: &[char], i: usize) -> (r: Option<(u32, usize)>)
    requires
        i <= s@.len(),
    ensures
        match r {
            Some((v, j)) => spec_timestamp(s@, i as int) == Some((v, j as int))
                && i < j <= s@.len(),
            None => spec_timestamp(s@, i as int) is None,
        },
{
    match parse_u32_at(s, i) {
        Some((h, j)) => {
            if j < s.len() && s[j] == ':' {
                match parse_u32_at(s, j + 1) {
                    Some((m, k)) => {
                        let total = h as u64 * 60 + m as u64;
                        if total <= u32::MAX as u64 {
                            Some((total as u32, k))
                        } else {
                            None
                        }
                    },
                    None => None,
                }
            } else {
                None
            }
        },
        None => None,
    }
}

/// The optional destruction marker before the reward column.
fn opt_marker(s: &[char], i: usize) -> (r: usize)
    requires
        i <= s@.len(),
    ensures
        r as int == spec_opt_marker(s@, i as int),
        i <= r <= s@.len(),
{
    if i < s.len() && s[i] == '\u{d7}' {
        match row_separator(s, i + 1) {
            Some(j) => j,
            None => i,
        }
    } else {
        i
    }
}

/// A table header: name, declared row count, aggregate reward.
pub fn table_header(s: &[char], i: usize) -> (r: Option<((String, u32, Reward), usize)>)
    requires
        i <= s@.len(),
    ensures
        match r {
            Some((h, j)) => spec_table_header(s@, i as int) == Some(((h.0@, h.1, h.2), j as int))
                && i < j <= s@.len(),
            None => spec_table_header(s@, i as int) is None,
        },
{
    proof {
        reveal(crate::grammar::spec_table_header);
    }
    let p = match find_lit_at(s, i, "    ") {
        Some(x) => x,
        None => {
            return None;
        },
    };
    let name = string_of_range(s, i, p);
    let q = match row_separator(s, p) {
        Some(x) => x,
        None => {
            return None;
        },
    };
    let (count, r0) = match parse_u32_at(s, q) {
        Some(x) => x,
        None => {
            return None;
        },
    };
    let r1 = match row_separator(s, r0) {
        Some(x) => x,
        None => {
            return None;
        },
    };
    let (agg, r2) = match parse_reward(s, r1) {
        Some(x) => x,
        None => {
            return None;
        },
    };
    let r3 = match row_ending(s, r2) {
        Some(x) => x,
        None => {
            return None;
        },
    };
    Some(((name, count, agg), r3))
}

/// One detail row of a reward-category table.
pub fn table_row(s: &[char], i: usize) -> (r: Option<(Row, usize)>)
    requires
        i <= s@.len(),
    ensures
        match r {
            Some((row, j)) => spec_table_row(s@, i as int) == Some((row@, j as int))
                && i < j <= s@.len(),
            None => spec_table_row(s@, i as int) is None,
        },
{
    proof {
        reveal(crate::grammar::spec_table_row);
    }
    let j0 = match match_lit(s, i, "    ") {
        Some(x) => x,
        None => {
            return None;
        },
    };
    let (t, j1) = match timestamp(s, j0) {
        Some(x) => x,
        None => {
            return None;
        },
    };
    let j2 = match row_separator(s, j1) {
        Some(x) => x,
        None => {
            return None;
        },
    };
    let p1 = match find_lit_at(s, j2, "    ") {
        Some(x) => x,
        None => {
            return None;
        },
    };
    let vehicle = string_of_range(s, j2, p1);
    let j3 = match row_separator(s, p1) {
        Some(x) => x,
        None => {
            return None;
        },
    };
    let p2 = match find_lit_at(s, j3, "    ") {
        Some(x) => x,
        None => {
            return None;
        },
    };
    let enemy = string_of_range(s, j3, p2);
    let j4 = match row_separator(s, p2) {
        Some(x) => x,
        None => {
            return None;
        },
    };
    let j5 = opt_marker(s, j4);
    let (rw, j6) = match parse_reward(s, j5) {
        Some(x) => x,
        None => {
            return None;
        },
    };
    let j7 = match row_ending(s, j6) {
        Some(x) => x,
        None => {
            return None;
        },
    };
    Some((Row { time: t, vehicle, enemy_vehicle: enemy, reward: rw }, j7))
}

/// Exactly `n` detail rows.
pub fn table_rows(s: &[char], i: usize, n: u32) -> (r: Option<(Vec<Row>, usize)>)
    requires
        i <= s@.len(),
    ensures
        match r {
            Some((rows, j)) => spec_rows(s@, i as int, n as nat) == Some((rows.deep_view(),
                j as int)) && i <= j <= s@.len(),
            None => spec_rows(s@, i as int, n as nat) is None,
        },
{
    let mut acc: Vec<Row> = Vec::new();
    let mut cur = i;
    let mut k: u32 = 0;
    while k < n
        invariant
            i <= cur <= s@.len(),
            k <= n,
            ({
                let tail = spec_rows(s@, cur as int, (n - k) as nat);
                let full = spec_rows(s@, i as int, n as nat);
                match tail {
                    Some((rest, end)) => full == Some::<(Seq<crate::report::RowV>, int)>((
                        acc.deep_view() + rest, end)),
                    None => full is None,
                }
            }),
        decreases n - k,
    {
        match table_row(s, cur) {
            Some((row, j)) => {
                let ghost pre = acc.deep_view();
                acc.push(row);
                proof {
                    assert(acc.deep_view() =~= pre + seq![row@]);
                    let tail2 = spec_rows(s@, j as int, (n - k - 1) as nat);
                    match tail2 {
                        Some((rest2, end2)) => {
                            assert((pre + (seq![row@] + rest2)) =~= (pre + seq![row@]) + rest2);
                        },
                        None => {},
                    }
                }
                cur = j;
                k = k + 1;
            },
            None => {
                return None;
            },
        }
    }
    proof {
        assert(acc.deep_view() + Seq::<crate::report::RowV>::empty() =~= acc.deep_view());
    }
    Some((acc, cur))
}

/// A reward-category table: header, its declared number of rows, blank line.
pub fn table(s: &[char], i: usize) -> (r: Option<(Table, usize)>)
    requires
        i <= s@.len(),
    ensures
        match r {
            Some((t, j)) => spec_table(s@, i as int) == Some((t@, j as int)) && i < j <= s@.len(),
            None => spec_table(s@, i as int) is None,
        },
{
    proof {
        reveal(crate::grammar::spec_table);
    }
    let (h, j) = match table_header(s, i) {
        Some(x) => x,
        None => {
            return None;
        },
    };
    let (name, count, _agg) = h;
    let (rows, k) = match table_rows(s, j, count) {
        Some(x) => x,
        None => {
            return None;
        },
    };
    let m = match line_ending_at(s, k) {
        Some(x) => x,
        None => {
            return None;
        },
    };
    Some((Table { name, rows }, m))
}

/// Zero or more reward-category tables, consumed greedily.
#[verifier::rlimit(100)]
pub fn parse_tables(s: &[char], i: usize) -> (r: (Vec<Table>, usize))
    requires
        i <= s@.len(),
    ensures
        r.0.deep_view() =~= spec_tables(s@, i as int).0,
        r.1 as int == spec_tables(s@, i as int).1,
        i <= r.1 <= s@.len(),
{
    let mut acc: Vec<Table> = Vec::new();
    let mut cur = i;
    loop
        invariant
            i <= cur <= s@.len(),
            spec_tables(s@, i as int).0 =~= acc.deep_view() + spec_tables(s@, cur as int).0,
            spec_tables(s@, i as int).1 == spec_tables(s@, cur as int).1,
        decreases s@.len() - cur,
    {
        match table(s, cur) {
            Some((t, j)) => {
                let ghost pre = acc.deep_view();
                acc.push(t);
                proof {
                    assert(acc.deep_view() =~= pre + seq![t@]);
                    assert((pre + (seq![t@] + spec_tables(s@, j as int).0)) =~= (pre + seq![t@])
                        + spec_tables(s@, j as int).0);
                }
                cur = j;
            },
            None => {
                proof {
                    assert(acc.deep_view() + Seq::<crate::report::TableV>::empty()
                        =~= acc.deep_view());
                }
                return (acc, cur);
            },
        }
    }
}

proof fn lemma_events_of_tables_push(ts: Seq<crate::report::TableV>, t: crate::report::TableV)
    ensures
        events_of_tables(ts.push(t)) == events_of_tables(ts) + table_events(t),
    decreases ts.len(),
{
    let p = ts.push(t);
    if ts.len() == 0 {
        assert(p[0] == t);
        assert(p.drop_first() =~= Seq::<crate::report::TableV>::empty());
        assert(events_of_tables(p.drop_first()) == Seq::<crate::report::EventV>::empty());
        assert(events_of_tables(p) == table_events(t) + events_of_tables(p.drop_first()));
        assert(events_of_tables(ts) == Seq::<crate::report::EventV>::empty());
        assert(events_of_tables(p) =~= events_of_tables(ts) + table_events(t));
    } else {
        assert(p[0] == ts[0]);
        assert(p.drop_first() =~= ts.drop_first().push(t));
        lemma_events_of_tables_push(ts.drop_first(), t);
        assert(events_of_tables(p) == table_events(ts[0]) + events_of_tables(
            ts.drop_first().push(t)));
        assert(events_of_tables(ts) == table_events(ts[0]) + events_of_tables(ts.drop_first()));
        assert((table_events(ts[0]) + (events_of_tables(ts.drop_first()) + table_events(t)))
            =~= (table_events(ts[0]) + events_of_tables(ts.drop_first())) + table_events(t));
        assert(events_of_tables(p) =~= events_of_tables(ts) + table_events(t));
    }
}

/// All reward-category tables, flattened into one event list, each event
/// tagged with its table's header name.
pub fn parse_events(s: &[char], i: usize) -> (r: (Vec<Event>, usize))
    requires
        i <= s@.len(),
    ensures
        r.0.deep_view() =~= spec_events(s@, i as int).0,
        r.1 as int == spec_events(s@, i as int).1,
        i <= r.1 <= s@.len(),
{
    let (tables, j) = parse_tables(s, i);
    let ghost tv = tables.deep_view();
    let mut events: Vec<Event> = Vec::new();
    let mut oi: usize = 0;
    while oi < tables.len()
        invariant
            oi <= tables@.len(),
            tv == tables.deep_view(),
            events.deep_view() =~= events_of_tables(tv.subrange(0, oi as int)),
        decreases tables@.len() - oi,
    {
        let t = &tables[oi];
        let mut ri: usize = 0;
        while ri < t.rows.len()
            invariant
                oi < tables@.len(),
                ri <= t.rows@.len(),
                tv == tables.deep_view(),
                t@ == tv[oi as int],
                events.deep_view() =~= events_of_tables(tv.subrange(0, oi as int))
                    + table_events(t@).subrange(0, ri as int),
            decreases t.rows@.len() - ri,
        {
            let ghost pre = events.deep_view();
            let row = &t.rows[ri];
            events.push(Event {
                time: row.time,
                kind: t.name.clone(),
                vehicle: row.vehicle.clone(),
                enemy: Some(row.enemy_vehicle.clone()),
                reward: row.reward,
            });
            proof {
                assert(table_events(t@).subrange(0, ri + 1) =~= table_events(t@).subrange(0,
                    ri as int).push(table_events(t@)[ri as int]));
                assert(events.deep_view() =~= pre + seq![table_events(t@)[ri as int]]);
                assert(events.deep_view() =~= events_of_tables(tv.subrange(0, oi as int))
                    + table_events(t@).subrange(0, ri + 1));
            }
            ri += 1;
        }
        proof {
            assert(table_events(t@).subrange(0, t.rows@.len() as int) =~= table_events(t@));
            assert(tv.subrange(0, oi + 1) =~= tv.subrange(0, oi as int).push(tv[oi as int]));
            lemma_events_of_tables_push(tv.subrange(0, oi as int), tv[oi as int]);
            assert(events.deep_view() =~= events_of_tables(tv.subrange(0, oi + 1)));
        }
        oi += 1;
    }
    proof {
        assert(tv.subrange(0, tables@.len() as int) =~= tv);
    }
    (events, j)
}

/// One short row: timestamp, a single name column, reward.
pub fn short_row(s: &[char], i: usize) -> (r: Option<((u32, String, Reward), usize)>)
    requires
        i <= s@.len(),
    ensures
        match r {
            Some((row, j)) => spec_short_row(s@, i as int) == Some(((row.0, row.1@, row.2),
                j as int)) && i < j <= s@.len(),
            None => spec_short_row(s@, i as int) is None,
        },
{
    proof {
        reveal(crate::grammar::spec_short_row);
    }
    let j0 = match match_lit(s, i, "    ") {
        Some(x) => x,
        None => {
            return None;
        },
    };
    let (t, j1) = match timestamp(s, j0) {
        Some(x) => x,
        None => {
            return None;
        },
    };
    let j2 = match row_separator(s, j1) {
        Some(x) => x,
        None => {
            return None;
        },
    };
    let p = match find_lit_at(s, j2, "    ") {
        Some(x) => x,
        None => {
            return None;
        },
    };
    let name = string_of_range(s, j2, p);
    let j3 = match row_separator(s, p) {
        Some(x) => x,
        None => {
            return None;
        },
    };
    let (rw, j4) = match parse_reward(s, j3) {
        Some(x) => x,
        None => {
            return None;
        },
    };
    let j5 = match row_ending(s, j4) {
        Some(x) => x,
        None => {
            return None;
        },
    };
    Some(((t, name, rw), j5))
}

/// One or more short rows, consumed greedily.
pub fn short_rows(s: &[char], i: usize) -> (r: (Vec<(u32, String, Reward)>, usize))
    requires
        i <= s@.len(),
    ensures
        r.0.deep_view() =~= spec_short_rows(s@, i as int).0,
        r.1 as int == spec_short_rows(s@, i as int).1,
        i <= r.1 <= s@.len(),
{
    let mut acc: Vec<(u32, String, Reward)> = Vec::new();
    let mut cur = i;
    loop
        invariant
            i <= cur <= s@.len(),
            spec_short_rows(s@, i as int).0 =~= acc.deep_view() + spec_short_rows(s@,
                cur as int).0,
            spec_short_rows(s@, i as int).1 == spec_short_rows(s@, cur as int).1,
        decreases s@.len() - cur,
    {
        match short_row(s, cur) {
            Some((row, j)) => {
                let ghost pre = acc.deep_view();
                let ghost rv = (row.0, row.1@, row.2);
                acc.push(row);
                proof {
                    assert(acc.deep_view() =~= pre + seq![rv]);
                    assert((pre + (seq![rv] + spec_short_rows(s@, j as int).0)) =~= (pre
                        + seq![rv]) + spec_short_rows(s@, j as int).0);
                }
                cur = j;
            },
            None => {
                proof {
                    assert(acc.deep_view() + Seq::<(u32, Seq<char>, Reward)>::empty()
                        =~= acc.deep_view());
                }
                return (acc, cur);
            },
        }
    }
}

/// The awards table: a header, one or more short rows, a blank line. A
/// report with no award rows at all does not parse.
pub fn award_table(s: &[char], i: usize) -> (r: Option<(Vec<Award>, usize)>)
    requires
        i <= s@.len(),
    ensures
        match r {
            Some((aw, j)) => spec_award_table(s@, i as int) == Some((aw.deep_view(), j as int))
                && i < j <= s@.len(),
            None => spec_award_table(s@, i as int) is None,
        },
{
    let (_h, j) = match table_header(s, i) {
        Some(x) => x,
        None => {
            return None;
        },
    };
    let (rows, k) = short_rows(s, j);
    if rows.len() == 0 {
        return None;
    }
    let m = match line_ending_at(s, k) {
        Some(x) => x,
        None => {
            return None;
        },
    };
    let ghost srows = spec_short_rows(s@, j as int).0;
    let mut awards: Vec<Award> = Vec::new();
    let mut q: usize = 0;
    while q < rows.len()
        invariant
            q <= rows@.len(),
            rows.deep_view() =~= srows,
            awards.deep_view() =~= awards_of_rows(srows).subrange(0, q as int),
        decreases rows@.len() - q,
    {
        let ghost pre = awards.deep_view();
        let ghost av = award_of(srows[q as int]);
        awards.push(Award {
            time: rows[q].0,
            name: rows[q].1.clone(),
            reward: rows[q].2,
        });
        proof {
            assert(srows[q as int] == rows.deep_view()[q as int]);
            assert(awards_of_rows(srows)[q as int] == av);
            assert(awards.deep_view() =~= pre + seq![av]);
            assert(awards_of_rows(srows).subrange(0, q + 1) =~= awards_of_rows(srows).subrange(0,
                q as int).push(av));
            assert(awards.deep_view() =~= awards_of_rows(srows).subrange(0, q + 1));
        }
        q += 1;
    }
    proof {
        assert(awards_of_rows(srows).subrange(0, rows@.len() as int) =~= awards_of_rows(srows));
        assert(spec_award_table(s@, i as int) == Some::<(Seq<crate::report::AwardV>, int)>((
            awards.deep_view(), m as int)));
    }
    Some((awards, m))
}

/// The "Time Played" header line.
fn tp_header(s: &[char], i: usize) -> (r: Option<usize>)
    requires
        i <= s@.len(),
    ensures
        match r {
            Some(j) => spec_tp_header(s@, i as int) == Some(j as int) && i < j <= s@.len(),
            None => spec_tp_header(s@, i as int) is None,
        },
{
    proof {
        reveal(crate::grammar::spec_tp_header);
    }
    let j0 = match match_lit(s, i, "Time Played") {
        Some(x) => x,
        None => {
            return None;
        },
    };
    let j1 = spaces_end_at(s, j0);
    if j1 <= j0 {
        return None;
    }
    let j2 = digits_end_at(s, j1);
    if j2 <= j1 {
        return None;
    }
    let j3 = match row_separator(s, j2) {
        Some(x) => x,
        None => {
            return None;
        },
    };
    let (_rp, j4) = match parse_amount(s, j3, " RP") {
        Some(x) => x,
        None => {
            return None;
        },
    };
    row_ending(s, j4)
}

/// One time-played row: vehicle name, activity percentage, time played, and
/// a research amount.
fn tp_row(s: &[char], i: usize) -> (r: Option<((String, u8, u32, u32), usize)>)
    requires
        i <= s@.len(),
    ensures
        match r {
            Some((row, j)) => spec_tp_row(s@, i as int) == Some(((row.0@, row.1, row.2, row.3),
                j as int)) && i < j <= s@.len(),
            None => spec_tp_row(s@, i as int) is None,
        },
{
    proof {
        reveal(crate::grammar::spec_tp_row);
    }
    let j0 = match match_lit(s, i, "    ") {
        Some(x) => x,
        None => {
            return None;
        },
    };
    let p = match find_lit_at(s, j0, "    ") {
        Some(x) => x,
        None => {
            return None;
        },
    };
    let name = string_of_range(s, j0, p);
    let j1 = match row_separator(s, p) {
        Some(x) => x,
        None => {
            return None;
        },
    };
    let (act, j2) = match parse_u8_at(s, j1) {
        Some(x) => x,
        None => {
            return None;
        },
    };
    let j3 = match match_lit(s, j2, "%") {
        Some(x) => x,
        None => {
            return None;
        },
    };
    let j4 = match row_separator(s, j3) {
        Some(x) => x,
        None => {
            return None;
        },
    };
    let (tp, j5) = match timestamp(s, j4) {
        Some(x) => x,
        None => {
            return None;
        },
    };
    let j6 = match row_separator(s, j5) {
        Some(x) => x,
        None => {
            return None;
        },
    };
    let (rp, j7) = match parse_amount(s, j6, " RP") {
        Some(x) => x,
        None => {
            return None;
        },
    };
    let j8 = match row_ending(s, j7) {
        Some(x) => x,
        None => {
            return None;
        },
    };
    Some(((name, act, tp, rp), j8))
}

/// One or more time-played rows, consumed greedily.
fn tp_rows(s: &[char], i: usize) -> (r: (Vec<(String, u8, u32, u32)>, usize))
    requires
        i <= s@.len(),
    ensures
        r.0.deep_view() =~= spec_tp_rows(s@, i as int).0,
        r.1 as int == spec_tp_rows(s@, i as int).1,
        i <= r.1 <= s@.len(),
{
    let mut acc: Vec<(String, u8, u32, u32)> = Vec::new();
    let mut cur = i;
    loop
        invariant
            i <= cur <= s@.len(),
            spec_tp_rows(s@, i as int).0 =~= acc.deep_view() + spec_tp_rows(s@, cur as int).0,
            spec_tp_rows(s@, i as int).1 == spec_tp_rows(s@, cur as int).1,
        decreases s@.len() - cur,
    {
        match tp_row(s, cur) {
            Some((row, j)) => {
                let ghost pre = acc.deep_view();
                let ghost rv = (row.0@, row.1, row.2, row.3);
                acc.push(row);
                proof {
                    assert(acc.deep_view() =~= pre + seq![rv]);
                    assert((pre + (seq![rv] + spec_tp_rows(s@, j as int).0)) =~= (pre
                        + seq![rv]) + spec_tp_rows(s@, j as int).0);
                }
                cur = j;
            },
            None => {
                proof {
                    assert(acc.deep_view() + Seq::<(Seq<char>, u8, u32, u32)>::empty()
                        =~= acc.deep_view());
                }
                return (acc, cur);
            },
        }
    }
}

/// The activity-time and time-played tables, joined positionally: row `k` of
/// the result takes its name, activity and time from time-played row `k`,
/// its currency from activity row `k`, and the sum of both research figures.
#[verifier::loop_isolation(false)]
pub fn vehicle_tables(s: &[char], i: usize) -> (r: Option<(Vec<Vehicle>, usize)>)
    requires
        i <= s@.len(),
    ensures
        match r {
            Some((vs, j)) => spec_vehicle_tables(s@, i as int) == Some((vs.deep_view(), j as int))
                && i < j <= s@.len(),
            None => spec_vehicle_tables(s@, i as int) is None,
        },
{
    let (_h, j0) = match table_header(s, i) {
        Some(x) => x,
        None => {
            return None;
        },
    };
    let (arows, j1) = short_rows(s, j0);
    if arows.len() == 0 {
        return None;
    }
    let j2 = match line_ending_at(s, j1) {
        Some(x) => x,
        None => {
            return None;
        },
    };
    let j3 = match tp_header(s, j2) {
        Some(x) => x,
        None => {
            return None;
        },
    };
    let (brows, j4) = tp_rows(s, j3);
    if brows.len() == 0 {
        return None;
    }
    let j5 = match line_ending_at(s, j4) {
        Some(x) => x,
        None => {
            return None;
        },
    };
    let ghost av = spec_short_rows(s@, j0 as int).0;
    let ghost bv = spec_tp_rows(s@, j3 as int).0;
    if arows.len() != brows.len() {
        return None;
    }
    let n = arows.len();
    let mut vehicles: Vec<Vehicle> = Vec::new();
    let mut k: usize = 0;
    while k < n
        invariant
            k <= n,
            n == arows@.len(),
            n == brows@.len(),
            arows.deep_view() =~= av,
            brows.deep_view() =~= bv,
            av.len() == n,
            bv.len() == n,
            s@.len() >= j5,
            forall|q: int| 0 <= q < k ==> (#[trigger] av[q]).2.research + bv[q].3 <= u32::MAX,
            vehicles.deep_view() =~= Seq::new(k as nat, |q: int| joined_vehicle(av[q], bv[q])),
        decreases n - k,
    {
        let a = &arows[k];
        let b = &brows[k];
        let sum = a.2.research as u64 + b.3 as u64;
        if sum > u32::MAX as u64 {
            proof {
                assert(av[k as int].2.research + bv[k as int].3 > u32::MAX);
                assert(spec_join_vehicles(av, bv) is None);
            }
            return None;
        }
        let ghost pre = vehicles.deep_view();
        vehicles.push(Vehicle {
            name: b.0.clone(),
            activity: b.1,
            time_played: b.2,
            reward: Reward { silverlions: a.2.silverlions, research: sum as u32 },
        });
        proof {
            assert(vehicles.deep_view() =~= pre + seq![joined_vehicle(av[k as int],
                bv[k as int])]);
            assert(vehicles.deep_view() =~= Seq::new((k + 1) as nat, |q: int| joined_vehicle(
                av[q], bv[q])));
        }
        k += 1;
    }
    proof {
        assert(forall|q: int| 0 <= q < n ==> (#[trigger] av[q]).2.research + bv[q].3
            <= u32::MAX);
        assert(spec_join_vehicles(av, bv) == Some(Seq::new(av.len(), |q: int| joined_vehicle(
            av[q], bv[q]))));
        assert(vehicles.deep_view() =~= Seq::new(av.len(), |q: int| joined_vehicle(av[q],
            bv[q])));
    }
    Some((vehicles, j5))
}

/// A labeled reward line followed by a blank line.
pub fn parse_labeled_reward(s: &[char], i: usize, label: &str) -> (r: Option<(Reward, usize)>)
    requires
        i <= s@.len(),
    ensures
        match r {
            Some((rw, j)) => spec_labeled_reward(s@, i as int, label@) == Some((rw, j as int))
                && i < j <= s@.len(),
            None => spec_labeled_reward(s@, i as int, label@) is None,
        },
{
    let j0 = match match_lit(s, i, label) {
        Some(x) => x,
        None => {
            return None;
        },
    };
    let j1 = match row_separator(s, j0) {
        Some(x) => x,
        None => {
            return None;
        },
    };
    let (rw, j2) = match parse_reward(s, j1) {
        Some(x) => x,
        None => {
            return None;
        },
    };
    let j3 = match row_ending(s, j2) {
        Some(x) => x,
        None => {
            return None;
        },
    };
    let j4 = match line_ending_at(s, j3) {
        Some(x) => x,
        None => {
            return None;
        },
    };
    Some((rw, j4))
}

/// The required `"Other awards"` line.
pub fn parse_other_awards(s: &[char], i: usize) -> (r: Option<(Reward, usize)>)
    requires
        i <= s@.len(),
    ensures
        match r {
            Some((rw, j)) => spec_labeled_reward(s@, i as int, "Other awards"@) == Some((rw,
                j as int)) && i < j <= s@.len(),
            None => spec_labeled_reward(s@, i as int, "Other awards"@) is None,
        },
{
    parse_labeled_reward(s, i, "Other awards")
}

/// The optional `"Reward for winning"` line.
pub fn parse_reward_for_winning(s: &[char], i: usize) -> (r: Option<(Reward, usize)>)
    requires
        i <= s@.len(),
    ensures
        match r {
            Some((rw, j)) => spec_labeled_reward(s@, i as int, "Reward for winning"@)
                == Some((rw, j as int)) && i < j <= s@.len(),
            None => spec_labeled_reward(s@, i as int, "Reward for winning"@) is None,
        },
{
    parse_labeled_reward(s, i, "Reward for winning")
}

/// `"Earned: <n> SL, <m> CRP"`.
pub fn parse_earned(s: &[char], i: usize) -> (r: Option<(Reward, usize)>)
    requires
        i <= s@.len(),
    ensures
        match r {
            Some((rw, j)) => spec_earned(s@, i as int) == Some((rw, j as int))
                && i < j <= s@.len(),
            None => spec_earned(s@, i as int) is None,
        },
{
    let j0 = match match_lit(s, i, "Earned: ") {
        Some(x) => x,
        None => {
            return None;
        },
    };
    let (sl, j1) = match parse_amount_simple(s, j0, " SL") {
        Some(x) => x,
        None => {
            return None;
        },
    };
    let j2 = match match_lit(s, j1, ", ") {
        Some(x) => x,
        None => {
            return None;
        },
    };
    let (crp, j3) = match parse_amount_simple(s, j2, " CRP") {
        Some(x) => x,
        None => {
            return None;
        },
    };
    let j4 = match line_ending_at(s, j3) {
        Some(x) => x,
        None => {
            return None;
        },
    };
    Some((Reward { silverlions: sl, research: crp }, j4))
}

/// `"Activity: <n>%"`.
pub fn parse_activity(s: &[char], i: usize) -> (r: Option<(u8, usize)>)
    requires
        i <= s@.len(),
    ensures
        match r {
            Some((v, j)) => spec_activity(s@, i as int) == Some((v, j as int))
                && i < j <= s@.len(),
            None => spec_activity(s@, i as int) is None,
        },
{
    let j0 = match match_lit(s, i, "Activity: ") {
        Some(x) => x,
        None => {
            return None;
        },
    };
    let (v, j1) = match parse_u8_at(s, j0) {
        Some(x) => x,
        None => {
            return None;
        },
    };
    let j2 = match match_lit(s, j1, "%") {
        Some(x) => x,
        None => {
            return None;
        },
    };
    let j3 = match line_ending_at(s, j2) {
        Some(x) => x,
        None => {
            return None;
        },
    };
    Some((v, j3))
}

/// End of the damaged-vehicle name starting at `i`.
fn dmg_end_at(s: &[char], i: usize) -> (r: usize)
    requires
        i <= s@.len(),
    ensures
        r as int == dmg_end(s@, i as int),
        i <= r <= s@.len(),
{
    let n = s.len();
    let mut j = i;
    while j < n && s[j] != ',' && crate::scan::is_name_char_exec(s[j])
        invariant
            i <= j <= n,
            n == s@.len(),
            dmg_end(s@, i as int) == dmg_end(s@, j as int),
        decreases n - j,
    {
        j += 1;
    }
    j
}

/// One or more damaged-vehicle names separated by `", "`.
fn dmg_list(s: &[char], i: usize) -> (r: Option<(Vec<String>, usize)>)
    requires
        i <= s@.len(),
    ensures
        match r {
            Some((names, j)) => spec_dmg_list(s@, i as int) == Some((names.deep_view(),
                j as int)) && i <= j <= s@.len(),
            None => spec_dmg_list(s@, i as int) is None,
        },
{
    let mut acc: Vec<String> = Vec::new();
    let mut cur = i;
    loop
        invariant
            i <= cur <= s@.len(),
            ({
                let tail = spec_dmg_list(s@, cur as int);
                let full = spec_dmg_list(s@, i as int);
                match tail {
                    Some((rest, end)) => full == Some::<(Seq<Seq<char>>, int)>((acc.deep_view()
                        + rest, end)),
                    None => full is None,
                }
            }),
        decreases s@.len() - cur,
    {
        let j = dmg_end_at(s, cur);
        if j == cur {
            return None;
        }
        let name = string_of_range(s, cur, j);
        let ghost pre = acc.deep_view();
        let ghost nv = s@.subrange(cur as int, j as int);
        match match_lit(s, j, ", ") {
            Some(k) => {
                acc.push(name);
                proof {
                    assert(acc.deep_view() =~= pre + seq![nv]);
                    let tail2 = spec_dmg_list(s@, k as int);
                    match tail2 {
                        Some((rest2, end2)) => {
                            assert((pre + (seq![nv] + rest2)) =~= (pre + seq![nv]) + rest2);
                        },
                        None => {},
                    }
                }
                cur = k;
            },
            None => {
                acc.push(name);
                proof {
                    assert(acc.deep_view() =~= pre + seq![nv]);
                }
                return Some((acc, j));
            },
        }
    }
}

/// `"Damaged Vehicles: <name>, <name>, ..."`.
pub fn parse_damaged_vehicles(s: &[char], i: usize) -> (r: Option<(Vec<String>, usize)>)
    requires
        i <= s@.len(),
    ensures
        match r {
            Some((names, j)) => spec_damaged(s@, i as int) == Some((names.deep_view(), j as int))
                && i < j <= s@.len(),
            None => spec_damaged(s@, i as int) is None,
        },
{
    let j0 = match match_lit(s, i, "Damaged Vehicles: ") {
        Some(x) => x,
        None => {
            return None;
        },
    };
    let (names, j1) = match dmg_list(s, j0) {
        Some(x) => x,
        None => {
            return None;
        },
    };
    let j2 = match line_ending_at(s, j1) {
        Some(x) => x,
        None => {
            return None;
        },
    };
    Some((names, j2))
}

/// `"Automatic repair of all vehicles: -<n> SL"`.
pub fn parse_automatic_repair(s: &[char], i: usize) -> (r: Option<(u32, usize)>)
    requires
        i <= s@.len(),
    ensures
        match r {
            Some((v, j)) => spec_repair(s@, i as int) == Some((v, j as int)) && i < j <= s@.len(),
            None => spec_repair(s@, i as int) is None,
        },
{
    let j0 = match match_lit(s, i, "Automatic repair of all vehicles: -") {
        Some(x) => x,
        None => {
            return None;
        },
    };
    let (v, j1) = match parse_amount_simple(s, j0, " SL") {
        Some(x) => x,
        None => {
            return None;
        },
    };
    let j2 = match line_ending_at(s, j1) {
        Some(x) => x,
        None => {
            return None;
        },
    };
    Some((v, j2))
}

/// The automatic ammo and crew resupply line.
pub fn parse_automatic_purchase(s: &[char], i: usize) -> (r: Option<(u32, usize)>)
    requires
        i <= s@.len(),
    ensures
        match r {
            Some((v, j)) => spec_purchase(s@, i as int) == Some((v, j as int))
                && i < j <= s@.len(),
            None => spec_purchase(s@, i as int) is None,
        },
{
    let j0 = match match_lit(s, i, "Automatic purchasing of ammo and \"Crew Replenishment\": -") {
        Some(x) => x,
        None => {
            return None;
        },
    };
    let (v, j1) = match parse_amount_simple(s, j0, " SL") {
        Some(x) => x,
        None => {
            return None;
        },
    };
    let j2 = match line_ending_at(s, j1) {
        Some(x) => x,
        None => {
            return None;
        },
    };
    Some((v, j2))
}

/// One researched-vehicle line: `"<vehicle>: <n> RP"`.
pub fn parse_vehicle_research(s: &[char], i: usize) -> (r: Option<(VehicleResearch, usize)>)
    requires
        i <= s@.len(),
    ensures
        match r {
            Some((v, j)) => spec_vehicle_research(s@, i as int) == Some((v@, j as int))
                && i < j <= s@.len(),
            None => spec_vehicle_research(s@, i as int) is None,
        },
{
    let j = name_end_at(s, i);
    let j1 = match match_lit(s, j, ": ") {
        Some(x) => x,
        None => {
            return None;
        },
    };
    let (rp, j2) = match parse_amount_simple(s, j1, " RP") {
        Some(x) => x,
        None => {
            return None;
        },
    };
    let j3 = match line_ending_at(s, j2) {
        Some(x) => x,
        None => {
            return None;
        },
    };
    Some((VehicleResearch { name: string_of_range(s, i, j), research: rp }, j3))
}

/// Greedily consume researched-vehicle lines.
fn vr_lines(s: &[char], i: usize) -> (r: (Vec<VehicleResearch>, usize))
    requires
        i <= s@.len(),
    ensures
        r.0.deep_view() =~= spec_vr_lines(s@, i as int).0,
        r.1 as int == spec_vr_lines(s@, i as int).1,
        i <= r.1 <= s@.len(),
{
    let mut acc: Vec<VehicleResearch> = Vec::new();
    let mut cur = i;
    loop
        invariant
            i <= cur <= s@.len(),
            spec_vr_lines(s@, i as int).0 =~= acc.deep_view() + spec_vr_lines(s@, cur as int).0,
            spec_vr_lines(s@, i as int).1 == spec_vr_lines(s@, cur as int).1,
        decreases s@.len() - cur,
    {
        match parse_vehicle_research(s, cur) {
            Some((row, j)) => {
                let ghost pre = acc.deep_view();
                let ghost rv = row@;
                acc.push(row);
                proof {
                    assert(acc.deep_view() =~= pre + seq![rv]);
                    assert((pre + (seq![rv] + spec_vr_lines(s@, j as int).0)) =~= (pre
                        + seq![rv]) + spec_vr_lines(s@, j as int).0);
                }
                cur = j;
            },
            None => {
                proof {
                    assert(acc.deep_view() + Seq::<crate::report::VehicleResearchV>::empty()
                        =~= acc.deep_view());
                }
                return (acc, cur);
            },
        }
    }
}

/// The optional `"Researched unit: "` block.
pub fn parse_researched_units(s: &[char], i: usize) -> (r: Option<(Vec<VehicleResearch>, usize)>)
    requires
        i <= s@.len(),
    ensures
        match r {
            Some((list, j)) => spec_researched_units(s@, i as int) == Some((list.deep_view(),
                j as int)) && i < j <= s@.len(),
            None => spec_researched_units(s@, i as int) is None,
        },
{
    let j0 = match match_lit(s, i, "Researched unit: ") {
        Some(x) => x,
        None => {
            return None;
        },
    };
    let j1 = match line_ending_at(s, j0) {
        Some(x) => x,
        None => {
            return None;
        },
    };
    let (list, j2) = vr_lines(s, j1);
    if list.len() == 0 {
        return None;
    }
    let j3 = match line_ending_at(s, j2) {
        Some(x) => x,
        None => {
            return None;
        },
    };
    Some((list, j3))
}

/// One modification-research line: `"<vehicle> - <modification>: <n> RP"`.
pub fn parse_modification_research(s: &[char], i: usize)
    -> (r: Option<(ModificationResearch, usize)>)
    requires
        i <= s@.len(),
    ensures
        match r {
            Some((v, j)) => spec_modification_research(s@, i as int) == Some((v@, j as int))
                && i < j <= s@.len(),
            None => spec_modification_research(s@, i as int) is None,
        },
{
    let p = match find_lit_at(s, i, " - ") {
        Some(x) => x,
        None => {
            return None;
        },
    };
    proof {
        reveal_strlit(" - ");
    }
    let n = s.len();
    proof {
        assert(p + 3 <= n);
    }
    let ne = name_end_at(s, i);
    let q = if ne < p {
        ne
    } else {
        p
    };
    let vehicle = string_of_range(s, i, q);
    let j0 = p + 3;
    let j1 = mod_name_end_at(s, j0);
    let modname = string_of_range(s, j0, j1);
    let j2 = match match_lit(s, j1, ": ") {
        Some(x) => x,
        None => {
            return None;
        },
    };
    let (rp, j3) = match parse_amount_simple(s, j2, " RP") {
        Some(x) => x,
        None => {
            return None;
        },
    };
    let j4 = match line_ending_at(s, j3) {
        Some(x) => x,
        None => {
            return None;
        },
    };
    Some((ModificationResearch { vehicle, name: modname, research: rp }, j4))
}

/// Greedily consume modification-research lines.
fn mr_lines(s: &[char], i: usize) -> (r: (Vec<ModificationResearch>, usize))
    requires
        i <= s@.len(),
    ensures
        r.0.deep_view() =~= spec_mr_lines(s@, i as int).0,
        r.1 as int == spec_mr_lines(s@, i as int).1,
        i <= r.1 <= s@.len(),
{
    let mut acc: Vec<ModificationResearch> = Vec::new();
    let mut cur = i;
    loop
        invariant
            i <= cur <= s@.len(),
            spec_mr_lines(s@, i as int).0 =~= acc.deep_view() + spec_mr_lines(s@, cur as int).0,
            spec_mr_lines(s@, i as int).1 == spec_mr_lines(s@, cur as int).1,
        decreases s@.len() - cur,
    {
        match parse_modification_research(s, cur) {
            Some((row, j)) => {
                let ghost pre = acc.deep_view();
                let ghost rv = row@;
                acc.push(row);
                proof {
                    assert(acc.deep_view() =~= pre + seq![rv]);
                    assert((pre + (seq![rv] + spec_mr_lines(s@, j as int).0)) =~= (pre
                        + seq![rv]) + spec_mr_lines(s@, j as int).0);
                }
                cur = j;
            },
            None => {
                proof {
                    assert(acc.deep_view()
                        + Seq::<crate::report::ModificationResearchV>::empty()
                        =~= acc.deep_view());
                }
                return (acc, cur);
            },
        }
    }
}

/// The optional `"Researching progress: "` block.
pub fn parse_researched_modifications(s: &[char], i: usize)
    -> (r: Option<(Vec<ModificationResearch>, usize)>)
    requires
        i <= s@.len(),
    ensures
        match r {
            Some((list, j)) => spec_researched_mods(s@, i as int) == Some((list.deep_view(),
                j as int)) && i < j <= s@.len(),
            None => spec_researched_mods(s@, i as int) is None,
        },
{
    let j0 = match match_lit(s, i, "Researching progress: ") {
        Some(x) => x,
        None => {
            return None;
        },
    };
    let j1 = match line_ending_at(s, j0) {
        Some(x) => x,
        None => {
            return None;
        },
    };
    let (list, j2) = mr_lines(s, j1);
    if list.len() == 0 {
        return None;
    }
    let j3 = match line_ending_at(s, j2) {
        Some(x) => x,
        None => {
            return None;
        },
    };
    Some((list, j3))
}

/// The optional `"Used items: "` block; its text is consumed and discarded.
pub fn parse_used_items(s: &[char], i: usize) -> (r: Option<usize>)
    requires
        i <= s@.len(),
    ensures
        match r {
            Some(j) => spec_used_items(s@, i as int) == Some(j as int) && i <= j <= s@.len(),
            None => spec_used_items(s@, i as int) is None,
        },
{
    let j0 = match match_lit(s, i, "Used items: ") {
        Some(x) => x,
        None => {
            return None;
        },
    };
    let j1 = match line_ending_at(s, j0) {
        Some(x) => x,
        None => {
            return None;
        },
    };
    find_lit_at(s, j1, "Session: ")
}

/// `"Session: <hex id>"`.
pub fn parse_session_id(s: &[char], i: usize) -> (r: Option<(String, usize)>)
    requires
        i <= s@.len(),
    ensures
        match r {
            Some((sid, j)) => spec_session(s@, i as int) == Some((sid@, j as int))
                && i < j <= s@.len(),
            None => spec_session(s@, i as int) is None,
        },
{
    let j0 = match match_lit(s, i, "Session: ") {
        Some(x) => x,
        None => {
            return None;
        },
    };
    let j1 = hex_end_at(s, j0);
    if j1 == j0 {
        return None;
    }
    let j2 = match line_ending_at(s, j1) {
        Some(x) => x,
        None => {
            return None;
        },
    };
    Some((string_of_range(s, j0, j1), j2))
}

/// `"Total: <n> SL, <c> CRP, <m> RP"`.
pub fn parse_total(s: &[char], i: usize) -> (r: Option<((Reward, u32), usize)>)
    requires
        i <= s@.len(),
    ensures
        match r {
            Some((t, j)) => spec_total(s@, i as int) == Some((t, j as int)) && i < j <= s@.len(),
            None => spec_total(s@, i as int) is None,
        },
{
    let j0 = match match_lit(s, i, "Total: ") {
        Some(x) => x,
        None => {
            return None;
        },
    };
    let (sl, j1) = match parse_amount_simple(s, j0, " SL") {
        Some(x) => x,
        None => {
            return None;
        },
    };
    let j2 = match match_lit(s, j1, ", ") {
        Some(x) => x,
        None => {
            return None;
        },
    };
    let (crp, j3) = match parse_amount_simple(s, j2, " CRP") {
        Some(x) => x,
        None => {
            return None;
        },
    };
    let j4 = match match_lit(s, j3, ", ") {
        Some(x) => x,
        None => {
            return None;
        },
    };
    let (rp, j5) = match parse_amount_simple(s, j4, " RP") {
        Some(x) => x,
        None => {
            return None;
        },
    };
    Some(((Reward { silverlions: sl, research: rp }, crp), j5))
}

/// `"Victory"` or `"Defeat"`.
pub fn battle_result(s: &[char], i: usize) -> (r: Option<(BattleResult, usize)>)
    requires
        i <= s@.len(),
    ensures
        match r {
            Some((v, j)) => spec_battle_result(s@, i as int) == Some((v, j as int))
                && i <= j <= s@.len(),
            None => spec_battle_result(s@, i as int) is None,
        },
{
    match match_lit(s, i, "Victory") {
        Some(j) => Some((BattleResult::Win, j)),
        None => match match_lit(s, i, "Defeat") {
            Some(j) => Some((BattleResult::Loss, j)),
            None => None,
        },
    }
}

/// The first line of a report: outcome and mission name.
pub fn result_line(s: &[char], i: usize) -> (r: Option<((BattleResult, String), usize)>)
    requires
        i <= s@.len(),
    ensures
        match r {
            Some((rm, j)) => spec_result_line(s@, i as int) == Some(((rm.0, rm.1@), j as int))
                && i < j <= s@.len(),
            None => spec_result_line(s@, i as int) is None,
        },
{
    let (res, j0) = match battle_result(s, i) {
        Some(x) => x,
        None => {
            return None;
        },
    };
    let j1 = match match_lit(s, j0, " in the ") {
        Some(x) => x,
        None => {
            return None;
        },
    };
    let p = match find_lit_at(s, j1, " mission!") {
        Some(x) => x,
        None => {
            return None;
        },
    };
    let mission = string_of_range(s, j1, p);
    let n = s.len();
    proof {
        reveal_strlit(" mission!");
        assert(p + 9 <= n);
    }
    let j2 = match line_ending_at(s, p + 9) {
        Some(x) => x,
        None => {
            return None;
        },
    };
    let j3 = match line_ending_at(s, j2) {
        Some(x) => x,
        None => {
            return None;
        },
    };
    Some(((res, mission), j3))
}

/// A positioned error naming the grammar rule that failed.
pub(crate) fn mk_err(pos: usize, rule: &str) -> (e: Error)
    ensures
        e.pos == pos,
        e.rule@ == rule@,
{
    Error { pos, rule: String::from_str(rule) }
}

/// Parse a whole report from its characters. Sections follow in fixed order;
/// the first failing stage aborts the parse with its rule name and start
/// position, and no partial report is returned.
#[verifier::rlimit(100)]
pub fn parse_chars(s: &[char]) -> (r: Result<BattleReport, Error>)
    ensures
        match r {
            Ok(rep) => spec_report(s@) == Some(rep@),
            Err(e) => spec_report(s@) is None && (spec_result_line(s@, 0) is None ==> e.rule@
                == "result line"@),
        },
{
    let ((result, mission), i1) = match result_line(s, 0) {
        Some(x) => x,
        None => {
            return Err(mk_err(0, "result line"));
        },
    };
    let (events, i2) = parse_events(s, i1);
    let (awards, i3) = match award_table(s, i2) {
        Some(x) => x,
        None => {
            return Err(mk_err(i2, "awards"));
        },
    };
    let (vehicles, i4) = match vehicle_tables(s, i3) {
        Some(x) => x,
        None => {
            return Err(mk_err(i3, "activity and time played"));
        },
    };
    let (rfw, i5) = match parse_reward_for_winning(s, i4) {
        Some((rw, j)) => (Some(rw), j),
        None => (None, i4),
    };
    let (other, i6) = match parse_other_awards(s, i5) {
        Some(x) => x,
        None => {
            return Err(mk_err(i5, "other awards"));
        },
    };
    let (earned, i7) = match parse_earned(s, i6) {
        Some(x) => x,
        None => {
            return Err(mk_err(i6, "earned"));
        },
    };
    let (act, i8) = match parse_activity(s, i7) {
        Some(x) => x,
        None => {
            return Err(mk_err(i7, "activity"));
        },
    };
    let (dmg, i9) = match parse_damaged_vehicles(s, i8) {
        Some(x) => x,
        None => {
            return Err(mk_err(i8, "damaged vehicles"));
        },
    };
    let (rep_cost, i10) = match parse_automatic_repair(s, i9) {
        Some(x) => x,
        None => {
            return Err(mk_err(i9, "automatic repair"));
        },
    };
    let (pur, i11) = match parse_automatic_purchase(s, i10) {
        Some(x) => x,
        None => {
            return Err(mk_err(i10, "automatic purchase"));
        },
    };
    let i12 = match line_ending_at(s, i11) {
        Some(x) => x,
        None => {
            return Err(mk_err(i11, "separator line"));
        },
    };
    let (vr, i13) = match parse_researched_units(s, i12) {
        Some(x) => x,
        None => (Vec::new(), i12),
    };
    let (mr, i14) = match parse_researched_modifications(s, i13) {
        Some(x) => x,
        None => (Vec::new(), i13),
    };
    let i15 = match parse_used_items(s, i14) {
        Some(j) => j,
        None => i14,
    };
    let (sid, i16) = match parse_session_id(s, i15) {
        Some(x) => x,
        None => {
            return Err(mk_err(i15, "session id"));
        },
    };
    let ((balance, _crp), _i17) = match parse_total(s, i16) {
        Some(x) => x,
        None => {
            return Err(mk_err(i16, "total"));
        },
    };
    proof {
        if vr@.len() == 0 {
            assert(vr.deep_view() =~= Seq::<crate::report::VehicleResearchV>::empty());
        }
        if mr@.len() == 0 {
            assert(mr.deep_view() =~= Seq::<crate::report::ModificationResearchV>::empty());
        }
    }
    Ok(BattleReport {
        session_id: sid,
        result,
        mission_name: mission,
        events,
        awards,
        reward_for_winning: rfw,
        other_awards: other,
        vehicles,
        activity: act,
        damaged_vehicles: dmg,
        repair_cost: rep_cost,
        ammo_and_crew_cost: pur,
        vehicle_research: vr,
        modification_research: mr,
        earned_rewards: earned,
        balance,
    })
}

/// Parse a whole report. On success the report is exactly what the grammar
/// assigns to the input; on failure the error names the stage that failed
/// and the position at which it started.
pub fn parse(input: &str) -> (r: Result<BattleReport, Error>)
    ensures
        match r {
            Ok(rep) => spec_report(input@) == Some(rep@),
            Err(e) => spec_report(input@) is None && (spec_result_line(input@, 0) is None
                ==> e.rule@ == "result line"@),
        },
{
    let v = crate::scan::chars_of(input);
    parse_chars(v.as_slice())
}

impl std::str::FromStr for BattleReport {
    type Err = Error;

    fn from_str(s: &str) -> Result<BattleReport, Error> {
        parse(s)
    }
}

} // verus!
