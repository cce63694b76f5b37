//! Parser for plain-text battle report summaries.
//!
//! A report is a fixed-layout block of text: a result line, reward-category
//! tables, an awards table, a pair of per-vehicle tables that are joined
//! positionally, a run of single-line keyed fields, optional research
//! sections, and a trailing session id and total. The grammar is stated as
//! spec functions over the input's character sequence, and every executable
//! parser is proved to return exactly what the grammar says.

use vstd::prelude::*;

pub mod de;
pub mod grammar;
pub mod laws;
pub mod parser;
pub mod report;
pub mod scan;

pub use de::{from_reader, from_slice, from_str};
pub use parser::parse;
pub use report::{
    Award, BattleReport, BattleResult, Error, Event, ModificationResearch, Reward, Row, Table,
    Vehicle, VehicleResearch,
};

verus! {

} // verus!
