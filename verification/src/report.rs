//! The battle report data model.
//!
//! A successful parse builds one [`BattleReport`] atomically; a failed parse
//! yields only an [`Error`]. Each type with text or collections has a spec
//! view over `Seq<char>`, used by the parser contracts.

use vstd::prelude::*;
use vstd::string::StringExecFns;

verus! {

/// A pair of non-negative amounts: in-game currency and research points.
#[derive(Debug, Clone, Copy, PartialEq, Eq, Structural)]
pub struct Reward {
    pub silverlions: u32,
    pub research: u32,
}

impl DeepView for Reward {
    type V = Reward;

    open spec fn deep_view(&self) -> Reward {
        *self
    }
}

impl Default for Reward {
    fn default() -> (r: Self)
        ensures
            r == (Reward { silverlions: 0, research: 0 }),
    {
        Reward { silverlions: 0, research: 0 }
    }
}

/// Outcome of the battle, read from the report's first line.
#[derive(Debug, Clone, Copy, PartialEq, Eq, Structural)]
pub enum BattleResult {
    Win,
    Loss,
}

/// One row of a reward-category table, tagged with its table's header text.
#[derive(Debug, Clone)]
pub struct Event {
    pub time: u32,
    pub kind: String,
    pub vehicle: String,
    pub enemy: Option<String>,
    pub reward: Reward,
}

pub struct EventV {
    pub time: u32,
    pub kind: Seq<char>,
    pub vehicle: Seq<char>,
    pub enemy: Option<Seq<char>>,
    pub reward: Reward,
}

impl View for Event {
    type V = EventV;

    open spec fn view(&self) -> EventV {
        EventV {
            time: self.time,
            kind: self.kind@,
            vehicle: self.vehicle@,
            enemy: self.enemy.deep_view(),
            reward: self.reward,
        }
    }
}

impl DeepView for Event {
    type V = EventV;

    open spec fn deep_view(&self) -> EventV {
        self.view()
    }
}

/// One row of the awards table.
#[derive(Debug, Clone)]
pub struct Award {
    pub time: u32,
    pub name: String,
    pub reward: Reward,
}

pub struct AwardV {
    pub time: u32,
    pub name: Seq<char>,
    pub reward: Reward,
}

impl View for Award {
    type V = AwardV;

    open spec fn view(&self) -> AwardV {
        AwardV { time: self.time, name: self.name@, reward: self.reward }
    }
}

impl DeepView for Award {
    type V = AwardV;

    open spec fn deep_view(&self) -> AwardV {
        self.view()
    }
}

/// Per-vehicle summary, joined positionally from the activity-time and
/// time-played tables.
#[derive(Debug, Clone)]
pub struct Vehicle {
    pub name: String,
    pub activity: u8,
    pub time_played: u32,
    pub reward: Reward,
}

pub struct VehicleV {
    pub name: Seq<char>,
    pub activity: u8,
    pub time_played: u32,
    pub reward: Reward,
}

impl View for Vehicle {
    type V = VehicleV;

    open spec fn view(&self) -> VehicleV {
        VehicleV {
            name: self.name@,
            activity: self.activity,
            time_played: self.time_played,
            reward: self.reward,
        }
    }
}

impl DeepView for Vehicle {
    type V = VehicleV;

    open spec fn deep_view(&self) -> VehicleV {
        self.view()
    }
}

/// Research points granted toward one vehicle.
#[derive(Debug, Clone)]
pub struct VehicleResearch {
    pub name: String,
    pub research: u32,
}

pub struct VehicleResearchV {
    pub name: Seq<char>,
    pub research: u32,
}

impl View for VehicleResearch {
    type V = VehicleResearchV;

    open spec fn view(&self) -> VehicleResearchV {
        VehicleResearchV { name: self.name@, research: self.research }
    }
}

impl DeepView for VehicleResearch {
    type V = VehicleResearchV;

    open spec fn deep_view(&self) -> VehicleResearchV {
        self.view()
    }
}

/// Research points granted toward one modification of one vehicle.
#[derive(Debug, Clone)]
pub struct ModificationResearch {
    pub vehicle: String,
    pub name: String,
    pub research: u32,
}

pub struct ModificationResearchV {
    pub vehicle: Seq<char>,
    pub name: Seq<char>,
    pub research: u32,
}

impl View for ModificationResearch {
    type V = ModificationResearchV;

    open spec fn view(&self) -> ModificationResearchV {
        ModificationResearchV {
            vehicle: self.vehicle@,
            name: self.name@,
            research: self.research,
        }
    }
}

impl DeepView for ModificationResearch {
    type V = ModificationResearchV;

    open spec fn deep_view(&self) -> ModificationResearchV {
        self.view()
    }
}

/// One detail row of a reward-category table.
#[derive(Debug, Clone)]
pub struct Row {
    pub time: u32,
    pub vehicle: String,
    pub enemy_vehicle: String,
    pub reward: Reward,
}

pub struct RowV {
    pub time: u32,
    pub vehicle: Seq<char>,
    pub enemy_vehicle: Seq<char>,
    pub reward: Reward,
}

impl View for Row {
    type V = RowV;

    open spec fn view(&self) -> RowV {
        RowV {
            time: self.time,
            vehicle: self.vehicle@,
            enemy_vehicle: self.enemy_vehicle@,
            reward: self.reward,
        }
    }
}

impl DeepView for Row {
    type V = RowV;

    open spec fn deep_view(&self) -> RowV {
        self.view()
    }
}

/// A parsed reward-category table: its header name and its detail rows.
#[derive(Debug, Clone)]
pub struct Table {
    pub name: String,
    pub rows: Vec<Row>,
}

pub struct TableV {
    pub name: Seq<char>,
    pub rows: Seq<RowV>,
}

impl View for Table {
    type V = TableV;

    open spec fn view(&self) -> TableV {
        TableV { name: self.name@, rows: self.rows.deep_view() }
    }
}

impl DeepView for Table {
    type V = TableV;

    open spec fn deep_view(&self) -> TableV {
        self.view()
    }
}

/// The root aggregate: everything one report declares, in source order.
#[derive(Debug, Clone)]
pub struct BattleReport {
    pub session_id: String,
    pub result: BattleResult,
    pub mission_name: String,
    pub events: Vec<Event>,
    pub awards: Vec<Award>,
    pub reward_for_winning: Option<Reward>,
    pub other_awards: Reward,
    pub vehicles: Vec<Vehicle>,
    pub activity: u8,
    pub damaged_vehicles: Vec<String>,
    pub repair_cost: u32,
    pub ammo_and_crew_cost: u32,
    pub vehicle_research: Vec<VehicleResearch>,
    pub modification_research: Vec<ModificationResearch>,
    pub earned_rewards: Reward,
    pub balance: Reward,
}

pub struct ReportV {
    pub session_id: Seq<char>,
    pub result: BattleResult,
    pub mission_name: Seq<char>,
    pub events: Seq<EventV>,
    pub awards: Seq<AwardV>,
    pub reward_for_winning: Option<Reward>,
    pub other_awards: Reward,
    pub vehicles: Seq<VehicleV>,
    pub activity: u8,
    pub damaged_vehicles: Seq<Seq<char>>,
    pub repair_cost: u32,
    pub ammo_and_crew_cost: u32,
    pub vehicle_research: Seq<VehicleResearchV>,
    pub modification_research: Seq<ModificationResearchV>,
    pub earned_rewards: Reward,
    pub balance: Reward,
}

impl View for BattleReport {
    type V = ReportV;

    open spec fn view(&self) -> ReportV {
        ReportV {
            session_id: self.session_id@,
            result: self.result,
            mission_name: self.mission_name@,
            events: self.events.deep_view(),
            awards: self.awards.deep_view(),
            reward_for_winning: self.reward_for_winning,
            other_awards: self.other_awards,
            vehicles: self.vehicles.deep_view(),
            activity: self.activity,
            damaged_vehicles: self.damaged_vehicles.deep_view(),
            repair_cost: self.repair_cost,
            ammo_and_crew_cost: self.ammo_and_crew_cost,
            vehicle_research: self.vehicle_research.deep_view(),
            modification_research: self.modification_research.deep_view(),
            earned_rewards: self.earned_rewards,
            balance: self.balance,
        }
    }
}

/// A positioned parse failure: the grammar rule that failed and the character
/// position at which that rule started.
#[derive(Debug, Clone)]
pub struct Error {
    pub pos: usize,
    pub rule: String,
}

impl Error {
    /// A human-readable description naming the failing rule.
    pub fn message(&self) -> (r: String)
        ensures
            r@ == "battle report parse error in rule: "@ + self.rule@,
    {
        let mut m = String::from_str("battle report parse error in rule: ");
        m.append(self.rule.as_str());
        m
    }
}

} // verus!
