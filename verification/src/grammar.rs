//! The report grammar, stated as spec functions.
//!
//! Every production maps the input characters and a start position to the
//! parsed value and the position after it, or to `None` on failure. The
//! executable parsers are proved to return exactly these values. Consumption
//! is strictly left to right; alternatives exist only inside a production
//! (the two reward shapes, the two line terminators).

use vstd::prelude::*;

use crate::report::{AwardV, BattleResult, EventV, ModificationResearchV, Reward, ReportV, RowV,
    TableV, VehicleResearchV, VehicleV};
use crate::scan::{alpha_end, digits_end, find_lit, hex_end, is_name_char, mod_name_end,
    name_end, spaces_end, spec_line_ending, spec_match_lit, spec_parse_u32, spec_parse_u8};

verus! {

// ---------------------------------------------------------------------------
// Separators
// ---------------------------------------------------------------------------

/// A column separator: the four-space indent, then any further blanks.
pub open spec fn spec_row_sep(s: Seq<char>, i: int) -> Option<int> {
    match spec_match_lit(s, i, "    "@) {
        Some(j) => Some(spaces_end(s, j)),
        None => None,
    }
}

/// End of a row: optional trailing blanks, then a line terminator.
pub open spec fn spec_row_ending(s: Seq<char>, i: int) -> Option<int> {
    spec_line_ending(s, spaces_end(s, i))
}

// ---------------------------------------------------------------------------
// Rewards
// ---------------------------------------------------------------------------

/// The simple shape of an amount: a number followed by its unit suffix.
pub open spec fn spec_amount_simple(s: Seq<char>, i: int, unit: Seq<char>) -> Option<(u32, int)> {
    match spec_parse_u32(s, i) {
        Some((v, j)) => match spec_match_lit(s, j, unit) {
            Some(k) => Some((v, k)),
            None => None,
        },
        None => None,
    }
}

/// One bonus contribution inside an itemized amount: `" + (<label>)<digits>"`.
pub open spec fn spec_bonus_term(s: Seq<char>, i: int) -> Option<int> {
    match spec_match_lit(s, i, " + ("@) {
        Some(j) => {
            let a = alpha_end(s, j);
            if a > j {
                match spec_match_lit(s, a, ")"@) {
                    Some(b) => {
                        let d = digits_end(s, b);
                        if d > b {
                            Some(d)
                        } else {
                            None
                        }
                    },
                    None => None,
                }
            } else {
                None
            }
        },
        None => None,
    }
}

/// Greedily consume bonus contributions; the position after the last one.
pub open spec fn spec_bonus_terms(s: Seq<char>, i: int) -> int
    decreases s.len() - i when 0 <= i <= s.len()
{
    match spec_bonus_term(s, i) {
        Some(j) => if i < j <= s.len() {
            spec_bonus_terms(s, j)
        } else {
            i
        },
        None => i,
    }
}

/// The itemized shape: a base number, one or more bonus contributions, and a
/// closing `" = "` before the authoritative total. The itemized terms are
/// consumed but discarded; only the total after `=` is kept, whether or not
/// the terms sum to it.
pub open spec fn spec_amount_complex(s: Seq<char>, i: int, unit: Seq<char>) -> Option<(u32, int)> {
    let d = digits_end(s, i);
    if d == i {
        None
    } else {
        match spec_bonus_term(s, d) {
            Some(t) => {
                let e = spec_bonus_terms(s, t);
                match spec_match_lit(s, e, " = "@) {
                    Some(k) => spec_amount_simple(s, k, unit),
                    None => None,
                }
            },
            None => None,
        }
    }
}

/// An amount in either shape, the simple one tried first.
pub open spec fn spec_amount(s: Seq<char>, i: int, unit: Seq<char>) -> Option<(u32, int)> {
    match spec_amount_simple(s, i, unit) {
        Some(r) => Some(r),
        None => spec_amount_complex(s, i, unit),
    }
}

/// A reward: a currency amount optionally followed by a separated research
/// amount (absent research reads as 0), or a research amount alone (currency
/// reads as 0).
#[verifier::opaque]
pub open spec fn spec_reward(s: Seq<char>, i: int) -> Option<(Reward, int)> {
    match spec_amount(s, i, " SL"@) {
        Some((sl, j)) => {
            let opt_rp = match spec_row_sep(s, j) {
                Some(k) => spec_amount(s, k, " RP"@),
                None => None,
            };
            match opt_rp {
                Some((rp, m)) => Some((Reward { silverlions: sl, research: rp }, m)),
                None => Some((Reward { silverlions: sl, research: 0 }, j)),
            }
        },
        None => match spec_amount(s, i, " RP"@) {
            Some((rp, j)) => Some((Reward { silverlions: 0, research: rp }, j)),
            None => None,
        },
    }
}

// ---------------------------------------------------------------------------
// Timestamps
// ---------------------------------------------------------------------------

/// `"H:MM"`, read as total minutes `H * 60 + MM`. A value that does not fit
/// in `u32` is a parse failure.
pub open spec fn spec_timestamp(s: Seq<char>, i: int) -> Option<(u32, int)> {
    match spec_parse_u32(s, i) {
        Some((h, j)) => if j < s.len() && s[j] == ':' {
            match spec_parse_u32(s, j + 1) {
                Some((m, k)) => if h * 60 + m <= u32::MAX {
                    Some(((h * 60 + m) as u32, k))
                } else {
                    None
                },
                None => None,
            }
        } else {
            None
        },
        None => None,
    }
}

// ---------------------------------------------------------------------------
// Tables
// ---------------------------------------------------------------------------

/// A table header: name up to the indent, declared row count, aggregate
/// reward, end of line.
#[verifier::opaque]
pub open spec fn spec_table_header(s: Seq<char>, i: int) -> Option<((Seq<char>, u32, Reward), int)> {
    match find_lit(s, i, "    "@) {
        Some(p) => {
            let name = s.subrange(i, p);
            match spec_row_sep(s, p) {
                Some(q) => match spec_parse_u32(s, q) {
                    Some((count, r0)) => match spec_row_sep(s, r0) {
                        Some(r1) => match spec_reward(s, r1) {
                            Some((agg, r2)) => match spec_row_ending(s, r2) {
                                Some(r3) => Some(((name, count, agg), r3)),
                                None => None,
                            },
                            None => None,
                        },
                        None => None,
                    },
                    None => None,
                },
                None => None,
            }
        },
        None => None,
    }
}

/// The optional destruction marker between the enemy column and the reward.
pub open spec fn spec_opt_marker(s: Seq<char>, i: int) -> int {
    if 0 <= i && i < s.len() && s[i] == '\u{d7}' {
        match spec_row_sep(s, i + 1) {
            Some(j) => j,
            None => i,
        }
    } else {
        i
    }
}

/// A detail row: indent, timestamp, vehicle, enemy vehicle, optional marker,
/// reward, end of line. Both name columns run up to the next indent.
#[verifier::opaque]
pub open spec fn spec_table_row(s: Seq<char>, i: int) -> Option<(RowV, int)> {
    match spec_match_lit(s, i, "    "@) {
        Some(j0) => match spec_timestamp(s, j0) {
            Some((t, j1)) => match spec_row_sep(s, j1) {
                Some(j2) => match find_lit(s, j2, "    "@) {
                    Some(p1) => {
                        let vehicle = s.subrange(j2, p1);
                        match spec_row_sep(s, p1) {
                            Some(j3) => match find_lit(s, j3, "    "@) {
                                Some(p2) => {
                                    let enemy = s.subrange(j3, p2);
                                    match spec_row_sep(s, p2) {
                                        Some(j4) => {
                                            let j5 = spec_opt_marker(s, j4);
                                            match spec_reward(s, j5) {
                                                Some((rw, j6)) => match spec_row_ending(s, j6) {
                                                    Some(j7) => Some((RowV {
                                                        time: t,
                                                        vehicle,
                                                        enemy_vehicle: enemy,
                                                        reward: rw,
                                                    }, j7)),
                                                    None => None,
                                                },
                                                None => None,
                                            }
                                        },
                                        None => None,
                                    }
                                },
                                None => None,
                            },
                            None => None,
                        }
                    },
                    None => None,
                },
                None => None,
            },
            None => None,
        },
        None => None,
    }
}

/// Exactly `n` detail rows, one after the other.
pub open spec fn spec_rows(s: Seq<char>, i: int, n: nat) -> Option<(Seq<RowV>, int)>
    decreases n,
{
    if n == 0 {
        Some((Seq::empty(), i))
    } else {
        match spec_table_row(s, i) {
            Some((row, j)) => match spec_rows(s, j, (n - 1) as nat) {
                Some((rest, k)) => Some((seq![row] + rest, k)),
                None => None,
            },
            None => None,
        }
    }
}

/// A reward-category table: header, exactly the declared number of rows, and
/// a trailing blank line. The declared count is an exact bound, not a hint.
#[verifier::opaque]
pub open spec fn spec_table(s: Seq<char>, i: int) -> Option<(TableV, int)> {
    match spec_table_header(s, i) {
        Some(((name, count, _agg), j)) => match spec_rows(s, j, count as nat) {
            Some((rows, k)) => match spec_line_ending(s, k) {
                Some(m) => Some((TableV { name, rows }, m)),
                None => None,
            },
            None => None,
        },
        None => None,
    }
}

/// Zero or more tables, consumed greedily.
pub open spec fn spec_tables(s: Seq<char>, i: int) -> (Seq<TableV>, int)
    decreases s.len() - i when 0 <= i <= s.len()
{
    match spec_table(s, i) {
        Some((t, j)) => if i < j <= s.len() {
            let (rest, k) = spec_tables(s, j);
            (seq![t] + rest, k)
        } else {
            (Seq::empty(), i)
        },
        None => (Seq::empty(), i),
    }
}

/// The events of one table: its rows, each tagged with the table's name.
pub open spec fn table_events(t: TableV) -> Seq<EventV> {
    t.rows.map(|k: int, r: RowV| EventV {
        time: r.time,
        kind: t.name,
        vehicle: r.vehicle,
        enemy: Some(r.enemy_vehicle),
        reward: r.reward,
    })
}

/// The events of a run of tables, in source order.
pub open spec fn events_of_tables(ts: Seq<TableV>) -> Seq<EventV>
    decreases ts.len(),
{
    if ts.len() == 0 {
        Seq::empty()
    } else {
        table_events(ts[0]) + events_of_tables(ts.drop_first())
    }
}

/// All reward-category tables, flattened into one event list in source order.
pub open spec fn spec_events(s: Seq<char>, i: int) -> (Seq<EventV>, int) {
    let (ts, j) = spec_tables(s, i);
    (events_of_tables(ts), j)
}

// ---------------------------------------------------------------------------
// Short rows: awards and the activity table
// ---------------------------------------------------------------------------

/// A short row: indent, timestamp, a single name column, reward, end of line.
#[verifier::opaque]
pub open spec fn spec_short_row(s: Seq<char>, i: int) -> Option<((u32, Seq<char>, Reward), int)> {
    match spec_match_lit(s, i, "    "@) {
        Some(j0) => match spec_timestamp(s, j0) {
            Some((t, j1)) => match spec_row_sep(s, j1) {
                Some(j2) => match find_lit(s, j2, "    "@) {
                    Some(p) => {
                        let name = s.subrange(j2, p);
                        match spec_row_sep(s, p) {
                            Some(j3) => match spec_reward(s, j3) {
                                Some((rw, j4)) => match spec_row_ending(s, j4) {
                                    Some(j5) => Some(((t, name, rw), j5)),
                                    None => None,
                                },
                                None => None,
                            },
                            None => None,
                        }
                    },
                    None => None,
                },
                None => None,
            },
            None => None,
        },
        None => None,
    }
}

/// Greedily consume short rows.
pub open spec fn spec_short_rows(s: Seq<char>, i: int) -> (Seq<(u32, Seq<char>, Reward)>, int)
    decreases s.len() - i when 0 <= i <= s.len()
{
    match spec_short_row(s, i) {
        Some((row, j)) => if i < j <= s.len() {
            let (rest, k) = spec_short_rows(s, j);
            (seq![row] + rest, k)
        } else {
            (Seq::empty(), i)
        },
        None => (Seq::empty(), i),
    }
}

/// The award a short row denotes.
pub open spec fn award_of(r: (u32, Seq<char>, Reward)) -> AwardV {
    AwardV { time: r.0, name: r.1, reward: r.2 }
}

/// The awards a run of short rows denotes, in order.
pub open spec fn awards_of_rows(rows: Seq<(u32, Seq<char>, Reward)>) -> Seq<AwardV> {
    rows.map_values(|r: (u32, Seq<char>, Reward)| award_of(r))
}

/// The awards table: a header (whose declared count and aggregate are not
/// used), then one or more short rows, then a blank line. A table with no
/// rows is a parse failure: this grammar requires at least one award row.
pub open spec fn spec_award_table(s: Seq<char>, i: int) -> Option<(Seq<AwardV>, int)> {
    match spec_table_header(s, i) {
        Some((_h, j)) => {
            let (rows, k) = spec_short_rows(s, j);
            if rows.len() == 0 {
                None
            } else {
                match spec_line_ending(s, k) {
                    Some(m) => Some((awards_of_rows(rows), m)),
                    None => None,
                }
            }
        },
        None => None,
    }
}

// ---------------------------------------------------------------------------
// The vehicle table pair
// ---------------------------------------------------------------------------

/// The "Time Played" header line: the literal, blanks, a digit run (the
/// declared count, not used), a separator, an aggregate research amount, and
/// the end of the line.
#[verifier::opaque]
pub open spec fn spec_tp_header(s: Seq<char>, i: int) -> Option<int> {
    match spec_match_lit(s, i, "Time Played"@) {
        Some(j0) => {
            let j1 = spaces_end(s, j0);
            if j1 > j0 {
                let j2 = digits_end(s, j1);
                if j2 > j1 {
                    match spec_row_sep(s, j2) {
                        Some(j3) => match spec_amount(s, j3, " RP"@) {
                            Some((_rp, j4)) => spec_row_ending(s, j4),
                            None => None,
                        },
                        None => None,
                    }
                } else {
                    None
                }
            } else {
                None
            }
        },
        None => None,
    }
}

/// One time-played row: indent, vehicle name, activity percentage, time
/// played, research amount. Yields (name, activity, minutes, research).
#[verifier::opaque]
pub open spec fn spec_tp_row(s: Seq<char>, i: int) -> Option<((Seq<char>, u8, u32, u32), int)> {
    match spec_match_lit(s, i, "    "@) {
        Some(j0) => match find_lit(s, j0, "    "@) {
            Some(p) => {
                let name = s.subrange(j0, p);
                match spec_row_sep(s, p) {
                    Some(j1) => match spec_parse_u8(s, j1) {
                        Some((act, j2)) => match spec_match_lit(s, j2, "%"@) {
                            Some(j3) => match spec_row_sep(s, j3) {
                                Some(j4) => match spec_timestamp(s, j4) {
                                    Some((tp, j5)) => match spec_row_sep(s, j5) {
                                        Some(j6) => match spec_amount(s, j6, " RP"@) {
                                            Some((rp, j7)) => match spec_row_ending(s, j7) {
                                                Some(j8) => Some(((name, act, tp, rp), j8)),
                                                None => None,
                                            },
                                            None => None,
                                        },
                                        None => None,
                                    },
                                    None => None,
                                },
                                None => None,
                            },
                            None => None,
                        },
                        None => None,
                    },
                    None => None,
                }
            },
            None => None,
        },
        None => None,
    }
}

/// Greedily consume time-played rows.
pub open spec fn spec_tp_rows(s: Seq<char>, i: int) -> (Seq<(Seq<char>, u8, u32, u32)>, int)
    decreases s.len() - i when 0 <= i <= s.len()
{
    match spec_tp_row(s, i) {
        Some((row, j)) => if i < j <= s.len() {
            let (rest, k) = spec_tp_rows(s, j);
            (seq![row] + rest, k)
        } else {
            (Seq::empty(), i)
        },
        None => (Seq::empty(), i),
    }
}

/// The positional join of the two vehicle tables. Row `k` of the result takes
/// its name, activity and time played from time-played row `k`, its currency
/// from activity row `k`, and its research as the sum of both research
/// figures. Differing row counts, or a research sum that does not fit in
/// `u32`, are failures.
pub open spec fn joined_vehicle(a: (u32, Seq<char>, Reward), b: (Seq<char>, u8, u32, u32))
    -> VehicleV {
    VehicleV {
        name: b.0,
        activity: b.1,
        time_played: b.2,
        reward: Reward {
            silverlions: a.2.silverlions,
            research: (a.2.research + b.3) as u32,
        },
    }
}

pub open spec fn spec_join_vehicles(
    a: Seq<(u32, Seq<char>, Reward)>,
    b: Seq<(Seq<char>, u8, u32, u32)>,
) -> Option<Seq<VehicleV>> {
    if a.len() != b.len() {
        None
    } else if exists|k: int| 0 <= k < a.len() && (#[trigger] a[k]).2.research + b[k].3 > u32::MAX {
        None
    } else {
        Some(Seq::new(a.len(), |k: int| joined_vehicle(a[k], b[k])))
    }
}

/// The activity-time table, the time-played table, and their positional join.
/// Each table must have at least one row.
pub open spec fn spec_vehicle_tables(s: Seq<char>, i: int) -> Option<(Seq<VehicleV>, int)> {
    match spec_table_header(s, i) {
        Some((_h, j0)) => {
            let (arows, j1) = spec_short_rows(s, j0);
            if arows.len() == 0 {
                None
            } else {
                match spec_line_ending(s, j1) {
                    Some(j2) => match spec_tp_header(s, j2) {
                        Some(j3) => {
                            let (brows, j4) = spec_tp_rows(s, j3);
                            if brows.len() == 0 {
                                None
                            } else {
                                match spec_line_ending(s, j4) {
                                    Some(j5) => match spec_join_vehicles(arows, brows) {
                                        Some(vs) => Some((vs, j5)),
                                        None => None,
                                    },
                                    None => None,
                                }
                            }
                        },
                        None => None,
                    },
                    None => None,
                }
            }
        },
        None => None,
    }
}

// ---------------------------------------------------------------------------
// Single-line fields
// ---------------------------------------------------------------------------

/// A labeled reward line followed by a blank line: used for
/// `"Reward for winning"` and `"Other awards"`.
pub open spec fn spec_labeled_reward(s: Seq<char>, i: int, label: Seq<char>) -> Option<(Reward, int)> {
    match spec_match_lit(s, i, label) {
        Some(j0) => match spec_row_sep(s, j0) {
            Some(j1) => match spec_reward(s, j1) {
                Some((rw, j2)) => match spec_row_ending(s, j2) {
                    Some(j3) => match spec_line_ending(s, j3) {
                        Some(j4) => Some((rw, j4)),
                        None => None,
                    },
                    None => None,
                },
                None => None,
            },
            None => None,
        },
        None => None,
    }
}

/// `"Earned: <n> SL, <m> CRP"`: the conversion figure lands in the research
/// field of the earned total.
pub open spec fn spec_earned(s: Seq<char>, i: int) -> Option<(Reward, int)> {
    match spec_match_lit(s, i, "Earned: "@) {
        Some(j0) => match spec_amount_simple(s, j0, " SL"@) {
            Some((sl, j1)) => match spec_match_lit(s, j1, ", "@) {
                Some(j2) => match spec_amount_simple(s, j2, " CRP"@) {
                    Some((crp, j3)) => match spec_line_ending(s, j3) {
                        Some(j4) => Some((Reward { silverlions: sl, research: crp }, j4)),
                        None => None,
                    },
                    None => None,
                },
                None => None,
            },
            None => None,
        },
        None => None,
    }
}

/// `"Activity: <n>%"`.
pub open spec fn spec_activity(s: Seq<char>, i: int) -> Option<(u8, int)> {
    match spec_match_lit(s, i, "Activity: "@) {
        Some(j0) => match spec_parse_u8(s, j0) {
            Some((v, j1)) => match spec_match_lit(s, j1, "%"@) {
                Some(j2) => match spec_line_ending(s, j2) {
                    Some(j3) => Some((v, j3)),
                    None => None,
                },
                None => None,
            },
            None => None,
        },
        None => None,
    }
}

/// A character accepted inside one damaged-vehicle name: a name character
/// other than the list's comma separator.
pub open spec fn is_dmg_char(c: char) -> bool {
    is_name_char(c) && c != ','
}

/// First position at or after `i` that cannot extend a damaged-vehicle name.
pub open spec fn dmg_end(s: Seq<char>, i: int) -> int
    decreases s.len() - i when 0 <= i <= s.len()
{
    if i < s.len() && is_dmg_char(s[i]) {
        dmg_end(s, i + 1)
    } else {
        i
    }
}

/// One or more damaged-vehicle names separated by `", "`. Every name is
/// non-empty; an empty name, first or after a separator, is a failure.
pub open spec fn spec_dmg_list(s: Seq<char>, i: int) -> Option<(Seq<Seq<char>>, int)>
    decreases s.len() - i when 0 <= i <= s.len()
{
    let j = dmg_end(s, i);
    if j == i {
        None
    } else {
        match spec_match_lit(s, j, ", "@) {
            Some(k) => if i < k <= s.len() {
                match spec_dmg_list(s, k) {
                    Some((rest, m)) => Some((seq![s.subrange(i, j)] + rest, m)),
                    None => None,
                }
            } else {
                None
            },
            None => Some((seq![s.subrange(i, j)], j)),
        }
    }
}

/// `"Damaged Vehicles: <name>, <name>, ..."`.
pub open spec fn spec_damaged(s: Seq<char>, i: int) -> Option<(Seq<Seq<char>>, int)> {
    match spec_match_lit(s, i, "Damaged Vehicles: "@) {
        Some(j0) => match spec_dmg_list(s, j0) {
            Some((names, j1)) => match spec_line_ending(s, j1) {
                Some(j2) => Some((names, j2)),
                None => None,
            },
            None => None,
        },
        None => None,
    }
}

/// `"Automatic repair of all vehicles: -<n> SL"`.
pub open spec fn spec_repair(s: Seq<char>, i: int) -> Option<(u32, int)> {
    match spec_match_lit(s, i, "Automatic repair of all vehicles: -"@) {
        Some(j0) => match spec_amount_simple(s, j0, " SL"@) {
            Some((v, j1)) => match spec_line_ending(s, j1) {
                Some(j2) => Some((v, j2)),
                None => None,
            },
            None => None,
        },
        None => None,
    }
}

/// `"Automatic purchasing of ammo and "Crew Replenishment": -<n> SL"`.
pub open spec fn spec_purchase(s: Seq<char>, i: int) -> Option<(u32, int)> {
    match spec_match_lit(s, i, "Automatic purchasing of ammo and \"Crew Replenishment\": -"@) {
        Some(j0) => match spec_amount_simple(s, j0, " SL"@) {
            Some((v, j1)) => match spec_line_ending(s, j1) {
                Some(j2) => Some((v, j2)),
                None => None,
            },
            None => None,
        },
        None => None,
    }
}

// ---------------------------------------------------------------------------
// Research sections
// ---------------------------------------------------------------------------

/// One researched-vehicle line: `"<vehicle>: <n> RP"`. The name is the
/// longest run of name characters, possibly empty.
pub open spec fn spec_vehicle_research(s: Seq<char>, i: int) -> Option<(VehicleResearchV, int)> {
    let j = name_end(s, i);
    match spec_match_lit(s, j, ": "@) {
        Some(j1) => match spec_amount_simple(s, j1, " RP"@) {
            Some((rp, j2)) => match spec_line_ending(s, j2) {
                Some(j3) => Some((VehicleResearchV { name: s.subrange(i, j), research: rp }, j3)),
                None => None,
            },
            None => None,
        },
        None => None,
    }
}

/// Greedily consume researched-vehicle lines.
pub open spec fn spec_vr_lines(s: Seq<char>, i: int) -> (Seq<VehicleResearchV>, int)
    decreases s.len() - i when 0 <= i <= s.len()
{
    match spec_vehicle_research(s, i) {
        Some((row, j)) => if i < j <= s.len() {
            let (rest, k) = spec_vr_lines(s, j);
            (seq![row] + rest, k)
        } else {
            (Seq::empty(), i)
        },
        None => (Seq::empty(), i),
    }
}

/// The optional `"Researched unit: "` block: its header line, one or more
/// research lines, and a blank line.
pub open spec fn spec_researched_units(s: Seq<char>, i: int) -> Option<(Seq<VehicleResearchV>, int)> {
    match spec_match_lit(s, i, "Researched unit: "@) {
        Some(j0) => match spec_line_ending(s, j0) {
            Some(j1) => {
                let (list, j2) = spec_vr_lines(s, j1);
                if list.len() == 0 {
                    None
                } else {
                    match spec_line_ending(s, j2) {
                        Some(j3) => Some((list, j3)),
                        None => None,
                    }
                }
            },
            None => None,
        },
        None => None,
    }
}

/// One modification-research line: `"<vehicle> - <modification>: <n> RP"`.
/// The vehicle is the run of name characters within the text before the
/// first `" - "`; the modification name may be empty.
pub open spec fn spec_modification_research(s: Seq<char>, i: int)
    -> Option<(ModificationResearchV, int)> {
    match find_lit(s, i, " - "@) {
        Some(p) => {
            let q = if name_end(s, i) < p { name_end(s, i) } else { p };
            let vehicle = s.subrange(i, q);
            let j0 = p + 3;
            let j1 = mod_name_end(s, j0);
            let modname = s.subrange(j0, j1);
            match spec_match_lit(s, j1, ": "@) {
                Some(j2) => match spec_amount_simple(s, j2, " RP"@) {
                    Some((rp, j3)) => match spec_line_ending(s, j3) {
                        Some(j4) => Some((ModificationResearchV {
                            vehicle,
                            name: modname,
                            research: rp,
                        }, j4)),
                        None => None,
                    },
                    None => None,
                },
                None => None,
            }
        },
        None => None,
    }
}

/// Greedily consume modification-research lines.
pub open spec fn spec_mr_lines(s: Seq<char>, i: int) -> (Seq<ModificationResearchV>, int)
    decreases s.len() - i when 0 <= i <= s.len()
{
    match spec_modification_research(s, i) {
        Some((row, j)) => if i < j <= s.len() {
            let (rest, k) = spec_mr_lines(s, j);
            (seq![row] + rest, k)
        } else {
            (Seq::empty(), i)
        },
        None => (Seq::empty(), i),
    }
}

/// The optional `"Researching progress: "` block.
pub open spec fn spec_researched_mods(s: Seq<char>, i: int)
    -> Option<(Seq<ModificationResearchV>, int)> {
    match spec_match_lit(s, i, "Researching progress: "@) {
        Some(j0) => match spec_line_ending(s, j0) {
            Some(j1) => {
                let (list, j2) = spec_mr_lines(s, j1);
                if list.len() == 0 {
                    None
                } else {
                    match spec_line_ending(s, j2) {
                        Some(j3) => Some((list, j3)),
                        None => None,
                    }
                }
            },
            None => None,
        },
        None => None,
    }
}

/// The optional `"Used items: "` block: its header line, then opaque text up
/// to (not including) the `"Session: "` literal. The text is discarded.
pub open spec fn spec_used_items(s: Seq<char>, i: int) -> Option<int> {
    match spec_match_lit(s, i, "Used items: "@) {
        Some(j0) => match spec_line_ending(s, j0) {
            Some(j1) => find_lit(s, j1, "Session: "@),
            None => None,
        },
        None => None,
    }
}

/// `"Session: <hex id>"`.
pub open spec fn spec_session(s: Seq<char>, i: int) -> Option<(Seq<char>, int)> {
    match spec_match_lit(s, i, "Session: "@) {
        Some(j0) => {
            let j1 = hex_end(s, j0);
            if j1 == j0 {
                None
            } else {
                match spec_line_ending(s, j1) {
                    Some(j2) => Some((s.subrange(j0, j1), j2)),
                    None => None,
                }
            }
        },
        None => None,
    }
}

/// `"Total: <n> SL, <c> CRP, <m> RP"`: the final balance and the conversion
/// figure, which the aggregate does not retain.
pub open spec fn spec_total(s: Seq<char>, i: int) -> Option<((Reward, u32), int)> {
    match spec_match_lit(s, i, "Total: "@) {
        Some(j0) => match spec_amount_simple(s, j0, " SL"@) {
            Some((sl, j1)) => match spec_match_lit(s, j1, ", "@) {
                Some(j2) => match spec_amount_simple(s, j2, " CRP"@) {
                    Some((crp, j3)) => match spec_match_lit(s, j3, ", "@) {
                        Some(j4) => match spec_amount_simple(s, j4, " RP"@) {
                            Some((rp, j5)) => Some(((Reward { silverlions: sl, research: rp },
                                crp), j5)),
                            None => None,
                        },
                        None => None,
                    },
                    None => None,
                },
                None => None,
            },
            None => None,
        },
        None => None,
    }
}

// ---------------------------------------------------------------------------
// The result line and the whole report
// ---------------------------------------------------------------------------

/// `"Victory"` or `"Defeat"`.
pub open spec fn spec_battle_result(s: Seq<char>, i: int) -> Option<(BattleResult, int)> {
    match spec_match_lit(s, i, "Victory"@) {
        Some(j) => Some((BattleResult::Win, j)),
        None => match spec_match_lit(s, i, "Defeat"@) {
            Some(j) => Some((BattleResult::Loss, j)),
            None => None,
        },
    }
}

/// The first line: the outcome, `" in the "`, the mission name up to
/// `" mission!"`, and two line terminators.
pub open spec fn spec_result_line(s: Seq<char>, i: int)
    -> Option<((BattleResult, Seq<char>), int)> {
    match spec_battle_result(s, i) {
        Some((res, j0)) => match spec_match_lit(s, j0, " in the "@) {
            Some(j1) => match find_lit(s, j1, " mission!"@) {
                Some(p) => {
                    let mission = s.subrange(j1, p);
                    match spec_line_ending(s, p + " mission!"@.len()) {
                        Some(j2) => match spec_line_ending(s, j2) {
                            Some(j3) => Some(((res, mission), j3)),
                            None => None,
                        },
                        None => None,
                    }
                },
                None => None,
            },
            None => None,
        },
        None => None,
    }
}

/// A whole report. Sections follow in fixed order; the optional sections
/// default to absent. Text after the total line is ignored.
pub open spec fn spec_report(s: Seq<char>) -> Option<ReportV> {
    match spec_result_line(s, 0) {
        Some(((result, mission), i1)) => {
            let (events, i2) = spec_events(s, i1);
            match spec_award_table(s, i2) {
                Some((awards, i3)) => match spec_vehicle_tables(s, i3) {
                    Some((vehicles, i4)) => {
                        let (rfw, i5) = match spec_labeled_reward(s, i4, "Reward for winning"@) {
                            Some((rw, j)) => (Some(rw), j),
                            None => (None::<Reward>, i4),
                        };
                        match spec_labeled_reward(s, i5, "Other awards"@) {
                            Some((other, i6)) => match spec_earned(s, i6) {
                                Some((earned, i7)) => match spec_activity(s, i7) {
                                    Some((act, i8)) => match spec_damaged(s, i8) {
                                        Some((dmg, i9)) => match spec_repair(s, i9) {
                                            Some((rep, i10)) => match spec_purchase(s, i10) {
                                                Some((pur, i11)) => match spec_line_ending(s, i11) {
                                                    Some(i12) => spec_report_tail(s, i12, ReportParts {
                                                        result,
                                                        mission,
                                                        events,
                                                        awards,
                                                        vehicles,
                                                        rfw,
                                                        other,
                                                        earned,
                                                        act,
                                                        dmg,
                                                        rep,
                                                        pur,
                                                    }),
                                                    None => None,
                                                },
                                                None => None,
                                            },
                                            None => None,
                                        },
                                        None => None,
                                    },
                                    None => None,
                                },
                                None => None,
                            },
                            None => None,
                        }
                    },
                    None => None,
                },
                None => None,
            }
        },
        None => None,
    }
}

/// What the head of the report has produced by the time the optional research
/// sections begin.
pub struct ReportParts {
    pub result: BattleResult,
    pub mission: Seq<char>,
    pub events: Seq<EventV>,
    pub awards: Seq<AwardV>,
    pub vehicles: Seq<VehicleV>,
    pub rfw: Option<Reward>,
    pub other: Reward,
    pub earned: Reward,
    pub act: u8,
    pub dmg: Seq<Seq<char>>,
    pub rep: u32,
    pub pur: u32,
}

/// The tail of the report: the optional research and used-items sections,
/// the session id, and the total.
pub open spec fn spec_report_tail(s: Seq<char>, i: int, head: ReportParts) -> Option<ReportV> {
    let (vr, i13) = match spec_researched_units(s, i) {
        Some((v, j)) => (v, j),
        None => (Seq::<VehicleResearchV>::empty(), i),
    };
    let (mr, i14) = match spec_researched_mods(s, i13) {
        Some((v, j)) => (v, j),
        None => (Seq::<ModificationResearchV>::empty(), i13),
    };
    let i15 = match spec_used_items(s, i14) {
        Some(j) => j,
        None => i14,
    };
    match spec_session(s, i15) {
        Some((sid, i16)) => match spec_total(s, i16) {
            Some(((balance, _crp), _i17)) => Some(ReportV {
                session_id: sid,
                result: head.result,
                mission_name: head.mission,
                events: head.events,
                awards: head.awards,
                reward_for_winning: head.rfw,
                other_awards: head.other,
                vehicles: head.vehicles,
                activity: head.act,
                damaged_vehicles: head.dmg,
                repair_cost: head.rep,
                ammo_and_crew_cost: head.pur,
                vehicle_research: vr,
                modification_research: mr,
                earned_rewards: head.earned,
                balance,
            }),
            None => None,
        },
        None => None,
    }
}

} // verus!
