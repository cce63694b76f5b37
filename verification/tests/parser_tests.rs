//! The original parser tests, carried over against the verified parser.

use wt_battle_report::parser;
use wt_battle_report::scan::chars_of;
use wt_battle_report::{BattleResult, Reward};

fn rest(v: &[char], pos: usize) -> String {
    v[pos..].iter().collect()
}

#[test]
fn parse_victory_as_result_name() {
    let input = "Victory";
    let v = chars_of(input);
    let (result, pos) = parser::battle_result(&v, 0).unwrap();
    assert_eq!((rest(&v, pos).as_str(), result), ("", BattleResult::Win));
}

#[test]
fn parse_defeat_as_result_name() {
    let input = "Defeat";
    let v = chars_of(input);
    let (result, pos) = parser::battle_result(&v, 0).unwrap();
    assert_eq!((rest(&v, pos).as_str(), result), ("", BattleResult::Loss));
}

#[test]
fn test_parse_result_line() {
    let input = "Victory in the [Domination] Poland (winter) mission!\r\n\n";
    let v = chars_of(input);
    match parser::result_line(&v, 0) {
        Some(((result, map), _pos)) => {
            assert_eq!(result, BattleResult::Win);
            assert_eq!(map, "[Domination] Poland (winter)")
        }
        None => {
            panic!("Error parsing result line:\n{}", input)
        }
    }
}

#[test]
fn parse_reward_in_table_header() {
    let input = "255 SL               \n    2:05    Concept 3    M36 GMC()       51 SL\n    3:04    Concept 3    M36 GMC()       51 SL\n    5:56    Concept 3    Chi-To Late     51 SL\n 
   6:25    Concept 3    M6A1            51 SL\n    6:51    Concept 3    ISU-122()       51 SL\n\nDamage taken by scouted enemies               1     101 SL               \n    3:45    Concept 3    M
36 GMC()     101 SL\n\nDestruction by allies of scouted enemies      1     505 SL      40 RP    \n    3:45    Concept 3    M36 GMC()     ×    505 SL    10 + (PA)10 + (Booster)10 + (Talismans)10 = 40
 RP\n";
    let v = chars_of(input);
    let (reward, pos) = parser::parse_reward(&v, 0).unwrap();
    assert!(matches!(
        reward,
        Reward {
            silverlions: 255,
            research: 0
        }
    ));

    let leftover = "               \n    2:05    Concept 3    M36 GMC()       51 SL\n    3:04    Concept 3    M36 GMC()       51 SL\n    5:56    Concept 3    Chi-To Late     51 SL\n 
   6:25    Concept 3    M6A1            51 SL\n    6:51    Concept 3    ISU-122()       51 SL\n\nDamage taken by scouted enemies               1     101 SL               \n    3:45    Concept 3    M
36 GMC()     101 SL\n\nDestruction by allies of scouted enemies      1     505 SL      40 RP    \n    3:45    Concept 3    M36 GMC()     ×    505 SL    10 + (PA)10 + (Booster)10 + (Talismans)10 = 40
 RP\n";

    assert_eq!(rest(&v, pos), leftover);
}

#[test]
fn parse_scouting_of_the_enemy_table() {
    let input = r#"Scouting of the enemy                         5     255 SL               
    2:05    Concept 3    M36 GMC()       51 SL
    3:04    Concept 3    M36 GMC()       51 SL
    5:56    Concept 3    Chi-To Late     51 SL
    6:25    Concept 3    M6A1            51 SL
    6:51    Concept 3    ISU-122()       51 SL

Damage taken by scouted enemies               1     101 SL               
    3:45    Concept 3    M36 GMC()     101 SL

Destruction by allies of scouted enemies      1     505 SL      40 RP    
    3:45    Concept 3    M36 GMC()     ×    505 SL    10 + (PA)10 + (Booster)10 + (Talismans)10 = 40 RP
"#;
    let v = chars_of(input);
    let (table, pos) = parser::table(&v, 0).unwrap();
    assert!(!rest(&v, pos).is_empty());
    assert_eq!(table.name, "Scouting of the enemy");
    assert_eq!(table.rows.len(), 5);
}

#[test]
fn parse_scouting_table_header_with_leftovers() {
    let input = r#"Scouting of the enemy                         5     255 SL               
    2:05    Concept 3    M36 GMC()       51 SL
    3:04    Concept 3    M36 GMC()       51 SL
    5:56    Concept 3    Chi-To Late     51 SL
    6:25    Concept 3    M6A1            51 SL
    6:51    Concept 3    ISU-122()       51 SL

Damage taken by scouted enemies               1     101 SL               
    3:45    Concept 3    M36 GMC()     101 SL

Destruction by allies of scouted enemies      1     505 SL      40 RP    
    3:45    Concept 3    M36 GMC()     ×    505 SL    10 + (PA)10 + (Booster)10 + (Talismans)10 = 40 RP
"#;
    let leftover = r#"    2:05    Concept 3    M36 GMC()       51 SL
    3:04    Concept 3    M36 GMC()       51 SL
    5:56    Concept 3    Chi-To Late     51 SL
    6:25    Concept 3    M6A1            51 SL
    6:51    Concept 3    ISU-122()       51 SL

Damage taken by scouted enemies               1     101 SL               
    3:45    Concept 3    M36 GMC()     101 SL

Destruction by allies of scouted enemies      1     505 SL      40 RP    
    3:45    Concept 3    M36 GMC()     ×    505 SL    10 + (PA)10 + (Booster)10 + (Talismans)10 = 40 RP
"#;

    let v = chars_of(input);
    let ((name, count, reward), pos) = parser::table_header(&v, 0).unwrap();
    assert_eq!(rest(&v, pos), leftover);
    assert_eq!(name, "Scouting of the enemy");
    assert_eq!(count, 5);
    assert_eq!(reward.silverlions, 255);
    assert_eq!(reward.research, 0);
}

#[test]
fn parse_awards_table() {
    let input = r#"Awards                                       14    3450 SL     100 RP    
    3:46     Intelligence             100 SL           
    7:14     Tank Rescuer             50 SL            
    8:18     Rank does not matter     500 SL           
    8:32     Multi strike!            100 SL           
    8:32     Without a miss           200 SL           
    10:35    Ground Force Rescuer     150 SL           
    11:47    Without a miss           200 SL           
    13:14    Without a miss           200 SL           
    13:43    Eye for Eye              300 SL           
    13:43    Shadow strike streak!    100 SL           
    13:43    Multi strike!            100 SL           
    13:43    Without a miss           200 SL           
    13:55    Final blow!              250 SL           
    13:55    The Best Squad           1000 SL    100 RP

"#;
    let v = chars_of(input);
    let (awards, pos) = parser::award_table(&v, 0).unwrap();
    assert_eq!(rest(&v, pos), "");
    assert_eq!(awards.len(), 14);
}

#[test]
fn parse_other_awards() {
    let input = "Other awards                                       5295 SL     115 RP    \n\n";
    let v = chars_of(input);
    let (reward, pos) = parser::parse_other_awards(&v, 0).unwrap();
    assert_eq!(rest(&v, pos), "");
    assert_eq!(reward.silverlions, 5295);
    assert_eq!(reward.research, 115);
}

#[test]
fn parse_vehicle_tables() {
    let input = r#"Activity Time                                 3    3152 SL     160 RP    
    13:54    Concept 3          730 SL     68 RP                     
    13:54    Sherman Firefly    522 SL     56 RP                     
    13:54    Wyvern S4          1900 SL    18 + (Talismans)18 = 36 RP

Time Played                                   3               1057 RP    
    Concept 3          97%    8:21    680 RP                     
    Sherman Firefly    84%    2:51    185 RP                     
    Wyvern S4          67%    1:33    96 + (Talismans)96 = 192 RP

"#;
    let v = chars_of(input);
    let (vehicles, pos) = parser::vehicle_tables(&v, 0).unwrap();
    assert_eq!(rest(&v, pos), "");
    assert_eq!(vehicles.len(), 3);
    assert_eq!(vehicles[0].name, "Concept 3");
    assert_eq!(vehicles[0].activity, 97);
    assert_eq!(vehicles[0].time_played, 8 * 60 + 21);
    assert_eq!(vehicles[0].reward.silverlions, 730);
    assert_eq!(vehicles[0].reward.research, 68 + 680);
}

#[test]
fn test_parse_vehicle_research() {
    let input = "T-34 (1941): 1191 RP\n";
    let v = chars_of(input);
    let (research, pos) = parser::parse_vehicle_research(&v, 0).unwrap();
    assert_eq!(rest(&v, pos), "");
    assert_eq!(research.name, "T-34 (1941)");
    assert_eq!(research.research, 1191);
}

#[test]
fn test_parse_researched_units() {
    let input = r#"Researched unit: 
T-34 (1941): 1191 RP

"#;
    let v = chars_of(input);
    let (research, pos) = parser::parse_researched_units(&v, 0).unwrap();
    assert_eq!(rest(&v, pos), "");
    assert_eq!(research.len(), 1);
    assert_eq!(research[0].name, "T-34 (1941)");
    assert_eq!(research[0].research, 1191);
}

#[test]
fn test_parse_modification_research() {
    let input = "YaG-10 (29-K) - Improved Parts: 220 RP\n";
    let v = chars_of(input);
    let (research, pos) = parser::parse_modification_research(&v, 0).unwrap();
    assert_eq!(rest(&v, pos), "");
    assert_eq!(research.vehicle, "YaG-10 (29-K)");
    assert_eq!(research.name, "Improved Parts");
    assert_eq!(research.research, 220);
}
