//! Scenario tests for the grammar's documented properties: reward shapes,
//! timestamps, exact row counts, the positional vehicle join, and whole
//! reports.

use wt_battle_report::parser;
use wt_battle_report::scan::chars_of;
use wt_battle_report::{from_reader, from_slice, from_str, BattleReport, BattleResult};

fn rest(v: &[char], pos: usize) -> String {
    v[pos..].iter().collect()
}

#[test]
fn simple_reward_both_amounts() {
    let v = chars_of("5820 SL     413 RP");
    let (reward, pos) = parser::parse_reward(&v, 0).unwrap();
    assert_eq!(rest(&v, pos), "");
    assert_eq!(reward.silverlions, 5820);
    assert_eq!(reward.research, 413);
}

#[test]
fn simple_reward_currency_only() {
    let v = chars_of("1000 SL");
    let (reward, pos) = parser::parse_reward(&v, 0).unwrap();
    assert_eq!(rest(&v, pos), "");
    assert_eq!(reward.silverlions, 1000);
    assert_eq!(reward.research, 0);
}

#[test]
fn itemized_research_takes_stated_total() {
    let v = chars_of("505 SL    10 + (PA)10 + (Booster)10 + (Talismans)10 = 40 RP");
    let (reward, pos) = parser::parse_reward(&v, 0).unwrap();
    assert_eq!(rest(&v, pos), "");
    assert_eq!(reward.silverlions, 505);
    assert_eq!(reward.research, 40);
}

#[test]
fn itemized_both_amounts() {
    let v = chars_of("53 + (Booster)8 = 61 SL    3 + (Booster)2 = 5 RP");
    let (reward, pos) = parser::parse_reward(&v, 0).unwrap();
    assert_eq!(rest(&v, pos), "");
    assert_eq!(reward.silverlions, 61);
    assert_eq!(reward.research, 5);
}

#[test]
fn itemized_total_not_resummed() {
    // the terms sum to 2, but the stated total 999 is authoritative
    let v = chars_of("1 + (Booster)1 = 999 SL");
    let (reward, pos) = parser::parse_reward(&v, 0).unwrap();
    assert_eq!(rest(&v, pos), "");
    assert_eq!(reward.silverlions, 999);
    assert_eq!(reward.research, 0);
}

#[test]
fn research_points_simple_values() {
    for (input, expected) in [("100 RP", 100u32), ("3242 RP", 3242)] {
        let v = chars_of(input);
        let (value, pos) = parser::parse_amount_simple(&v, 0, " RP").unwrap();
        assert_eq!(rest(&v, pos), "");
        assert_eq!(value, expected);
    }
}

#[test]
fn research_points_complex_values() {
    for (input, expected) in [
        ("10 + (PA)10 + (Booster)10 + (Talismans)10 = 40 RP", 40u32),
        ("96 + (Talismans)96 = 192 RP", 192),
        ("113 + (Talismans)113 = 226 RP", 226),
    ] {
        let v = chars_of(input);
        let (value, pos) = parser::parse_amount_complex(&v, 0, " RP").unwrap();
        assert_eq!(rest(&v, pos), "");
        assert_eq!(value, expected);
    }
}

#[test]
fn timestamp_is_minutes() {
    let v = chars_of("10:07");
    let (minutes, pos) = parser::timestamp(&v, 0).unwrap();
    assert_eq!(pos, 5);
    assert_eq!(minutes, 607);
}

#[test]
fn malformed_reward_fails() {
    // no unit suffix
    assert!(parser::parse_reward(&chars_of("123"), 0).is_none());
    // itemized form missing the closing total
    assert!(parser::parse_reward(&chars_of("10 + (PA)10 SL"), 0).is_none());
    // no digits at all
    assert!(parser::parse_reward(&chars_of("SL"), 0).is_none());
}

#[test]
fn malformed_timestamp_fails() {
    assert!(parser::timestamp(&chars_of("10:"), 0).is_none());
    assert!(parser::timestamp(&chars_of(":07"), 0).is_none());
    assert!(parser::timestamp(&chars_of("ten:07"), 0).is_none());
}

const TABLE_TWO_ROWS: &str = "Kills                                         2     100 SL    \n    1:00    Alpha    Bravo     10 SL\n    2:00    Alpha    Delta     10 SL\n\n";
const TABLE_ONE_ROW: &str = "Kills                                         2     100 SL    \n    1:00    Alpha    Bravo     10 SL\n\n";
const TABLE_THREE_ROWS: &str = "Kills                                         2     100 SL    \n    1:00    Alpha    Bravo     10 SL\n    2:00    Alpha    Delta     10 SL\n    3:00    Alpha    Echo     10 SL\n\n";

#[test]
fn table_consumes_declared_row_count() {
    let v = chars_of(TABLE_TWO_ROWS);
    let (table, pos) = parser::table(&v, 0).unwrap();
    assert_eq!(rest(&v, pos), "");
    assert_eq!(table.rows.len(), 2);
}

#[test]
fn table_with_one_row_fewer_fails() {
    let v = chars_of(TABLE_ONE_ROW);
    assert!(parser::table(&v, 0).is_none());
}

#[test]
fn table_with_one_row_more_fails() {
    let v = chars_of(TABLE_THREE_ROWS);
    assert!(parser::table(&v, 0).is_none());
}

#[test]
fn vehicle_join_adds_research_rowwise() {
    let input = "Activity Time                                 3    3152 SL     160 RP    \n    13:54    Concept 3          730 SL     68 RP                     \n    13:54    Sherman Firefly    522 SL     56 RP                     \n    13:54    Wyvern S4          1900 SL    18 + (Talismans)18 = 36 RP\n\nTime Played                                   3               1057 RP    \n    Concept 3          97%    8:21    680 RP                     \n    Sherman Firefly    84%    2:51    185 RP                     \n    Wyvern S4          67%    1:33    96 + (Talismans)96 = 192 RP\n\n";
    let v = chars_of(input);
    let (vehicles, pos) = parser::vehicle_tables(&v, 0).unwrap();
    assert_eq!(rest(&v, pos), "");
    assert_eq!(vehicles.len(), 3);
    assert_eq!(vehicles[0].reward.research, 68 + 680);
    assert_eq!(vehicles[1].reward.research, 56 + 185);
    assert_eq!(vehicles[1].reward.silverlions, 522);
    assert_eq!(vehicles[2].reward.research, 36 + 192);
    assert_eq!(vehicles[2].name, "Wyvern S4");
}

const FULL_REPORT: &str = "Victory in the [Domination] Poland (winter) mission!\n\nScouting of the enemy                         1     255 SL               \n    2:05    Concept 3    M36 GMC()       51 SL\n\nAwards                                       1    3450 SL     100 RP    \n    3:46     Intelligence             100 SL           \n\nActivity Time                                 1    3152 SL     160 RP    \n    13:54    Concept 3          730 SL     68 RP                     \n\nTime Played                                   1               1057 RP    \n    Concept 3          97%    8:21    680 RP                     \n\nOther awards                                       5295 SL     115 RP    \n\nEarned: 20000 SL, 1100 CRP\nActivity: 97%\nDamaged Vehicles: Concept 3\nAutomatic repair of all vehicles: -1000 SL\nAutomatic purchasing of ammo and \"Crew Replenishment\": -2000 SL\n\nSession: 1a2b3c4d\nTotal: 17295 SL, 1100 CRP, 1057 RP\n";

#[test]
fn full_report_parses() {
    let report = from_str(FULL_REPORT).unwrap();
    assert_eq!(report.result, BattleResult::Win);
    assert_eq!(report.mission_name, "[Domination] Poland (winter)");
    assert_eq!(report.events.len(), 1);
    assert_eq!(report.events[0].kind, "Scouting of the enemy");
    assert_eq!(report.events[0].vehicle, "Concept 3");
    assert_eq!(report.events[0].enemy.as_deref(), Some("M36 GMC()"));
    assert_eq!(report.awards.len(), 1);
    assert_eq!(report.awards[0].name, "Intelligence");
    assert!(report.reward_for_winning.is_none());
    assert_eq!(report.other_awards.silverlions, 5295);
    assert_eq!(report.vehicles.len(), 1);
    assert_eq!(report.vehicles[0].reward.research, 68 + 680);
    assert_eq!(report.activity, 97);
    assert_eq!(report.damaged_vehicles, vec!["Concept 3".to_string()]);
    assert_eq!(report.repair_cost, 1000);
    assert_eq!(report.ammo_and_crew_cost, 2000);
    assert!(report.vehicle_research.is_empty());
    assert!(report.modification_research.is_empty());
    assert_eq!(report.earned_rewards.silverlions, 20000);
    assert_eq!(report.earned_rewards.research, 1100);
    assert_eq!(report.session_id, "1a2b3c4d");
    assert_eq!(report.balance.silverlions, 17295);
    assert_eq!(report.balance.research, 1057);
}

#[test]
fn zero_row_awards_table_is_rejected() {
    // an awards table declaring zero rows, with none following, cannot
    // satisfy the at-least-one-row awards grammar: the whole parse fails
    let input = "Victory in the [Domination] Poland (winter) mission!\r\n\nAwards                                       0    0 SL    \n\n";
    let err = from_str(input).unwrap_err();
    assert_eq!(err.rule, "awards");
}

#[test]
fn missing_mission_literal_fails_result_line() {
    let input = "Victory in the [Domination] Poland (winter)\r\n\n";
    let err = from_str(input).unwrap_err();
    assert_eq!(err.rule, "result line");
    assert_eq!(err.pos, 0);
    assert!(err.message().ends_with("result line"));
}

#[test]
fn missing_session_line_fails() {
    // the full report with its session line cut off mid-way
    let cut = FULL_REPORT.find("Session: ").unwrap();
    let input = &FULL_REPORT[..cut];
    let err = from_str(input).unwrap_err();
    assert_eq!(err.rule, "session id");
}

#[test]
fn from_slice_matches_from_str() {
    let by_str = from_str(FULL_REPORT).unwrap();
    let by_slice = from_slice(FULL_REPORT.as_bytes()).unwrap();
    assert_eq!(by_slice.session_id, by_str.session_id);
    assert_eq!(by_slice.events.len(), by_str.events.len());
    assert_eq!(by_slice.balance.silverlions, by_str.balance.silverlions);
    assert_eq!(by_slice.balance.research, by_str.balance.research);
}

#[test]
fn from_reader_reads_to_end() {
    let report = from_reader(FULL_REPORT.as_bytes()).unwrap();
    assert_eq!(report.session_id, "1a2b3c4d");
    assert_eq!(report.vehicles.len(), 1);
}

#[test]
fn optional_research_sections_parse() {
    let head_len = FULL_REPORT.find("Session: ").unwrap();
    let input = format!(
        "{}{}{}",
        &FULL_REPORT[..head_len],
        "Researched unit: \nT-34 (1941): 1191 RP\n\nResearching progress: \nYaG-10 (29-K) - Improved Parts: 220 RP\n\n",
        &FULL_REPORT[head_len..],
    );
    let report = from_str(&input).unwrap();
    assert_eq!(report.vehicle_research.len(), 1);
    assert_eq!(report.vehicle_research[0].name, "T-34 (1941)");
    assert_eq!(report.vehicle_research[0].research, 1191);
    assert_eq!(report.modification_research.len(), 1);
    assert_eq!(report.modification_research[0].vehicle, "YaG-10 (29-K)");
    assert_eq!(report.modification_research[0].name, "Improved Parts");
    assert_eq!(report.modification_research[0].research, 220);
}

#[test]
fn detail_row_with_marker() {
    let input = "    3:45    Concept 3    M36 GMC()     \u{d7}    505 SL    10 + (PA)10 + (Booster)10 + (Talismans)10 = 40 RP\n";
    let v = chars_of(input);
    let (row, pos) = parser::table_row(&v, 0).unwrap();
    assert_eq!(rest(&v, pos), "");
    assert_eq!(row.time, 3 * 60 + 45);
    assert_eq!(row.vehicle, "Concept 3");
    assert_eq!(row.enemy_vehicle, "M36 GMC()");
    assert_eq!(row.reward.silverlions, 505);
    assert_eq!(row.reward.research, 40);
}

#[test]
fn damaged_vehicle_list_splits_on_comma() {
    let v = chars_of("Damaged Vehicles: Concept 3, Wyvern S4\n");
    let (names, pos) = parser::parse_damaged_vehicles(&v, 0).unwrap();
    assert_eq!(rest(&v, pos), "");
    assert_eq!(names, vec!["Concept 3".to_string(), "Wyvern S4".to_string()]);
}

#[test]
fn reward_for_winning_is_kept() {
    let cut = FULL_REPORT.find("Other awards").unwrap();
    let input = format!(
        "{}Reward for winning                                 1000 SL    \n\n{}",
        &FULL_REPORT[..cut],
        &FULL_REPORT[cut..],
    );
    let report = from_str(&input).unwrap();
    let rfw = report.reward_for_winning.unwrap();
    assert_eq!(rfw.silverlions, 1000);
    assert_eq!(rfw.research, 0);
}

#[test]
fn report_parses_through_from_str_trait() {
    let report: BattleReport = FULL_REPORT.parse().unwrap();
    assert_eq!(report.session_id, "1a2b3c4d");
    assert!("no report here".parse::<BattleReport>().is_err());
}
