//! Report deserialization entry points: from a string, from bytes, and from
//! a reader.

use vstd::prelude::*;

use crate::grammar::{spec_report, spec_result_line};
use crate::parser::mk_err;
use crate::report::{BattleReport, Error};
use vstd::utf8::{decode_utf8, encode_utf8, encode_utf8_decode_utf8, valid_utf8};

verus! {

/// Parse a report from a string slice.
pub fn from_str(input: &str) -> (r: Result<BattleReport, Error>)
    ensures
        match r {
            Ok(rep) => spec_report(input@) == Some(rep@),
            Err(e) => spec_report(input@) is None && (spec_result_line(input@, 0) is None
                ==> e.rule@ == "result line"@),
        },
{
    crate::parser::parse(input)
}

/// Relies on `String::from_utf8_lossy`: valid UTF-8 bytes decode to exactly
/// the characters they encode; invalid sequences are replaced.
#[verifier::external_body]
fn decode_lossy(input: &[u8]) -> (r: String)
    ensures
        valid_utf8(input@) ==> encode_utf8(r@) == input@,
{
    String::from_utf8_lossy(input).into_owned()
}

/// Parse a report from bytes, decoded leniently as UTF-8. For valid UTF-8
/// input the result is exactly the parse of the decoded characters.
pub fn from_slice(input: &[u8]) -> (r: Result<BattleReport, Error>)
    ensures
        valid_utf8(input@) ==> match r {
            Ok(rep) => spec_report(decode_utf8(input@)) == Some(rep@),
            Err(e) => spec_report(decode_utf8(input@)) is None && (spec_result_line(
                decode_utf8(input@), 0) is None ==> e.rule@ == "result line"@),
        },
{
    let buffer = decode_lossy(input);
    proof {
        if valid_utf8(input@) {
            encode_utf8_decode_utf8(buffer@);
            assert(decode_utf8(input@) == buffer@);
        }
    }
    crate::parser::parse(buffer.as_str())
}

/// Relies on `std::io::Read::read_to_string`: on success the string holds
/// what the reader yielded. Nothing is promised of its contents.
#[verifier::external_body]
fn read_all<R: std::io::Read>(input: &mut R) -> Option<String> {
    let mut buffer = String::new();
    match input.read_to_string(&mut buffer) {
        Ok(_) => Some(buffer),
        Err(_) => None,
    }
}

/// Parse a report from a reader, consuming it to its end first. A successful
/// result is the exact parse of some input text; a failed read or a failed
/// parse yields an error.
pub fn from_reader<R: std::io::Read>(input: R) -> (r: Result<BattleReport, Error>)
    ensures
        match r {
            Ok(rep) => exists|t: Seq<char>| spec_report(t) == Some(rep@),
            Err(_e) => true,
        },
{
    let mut input = input;
    let buffer = match read_all(&mut input) {
        Some(b) => b,
        None => {
            return Err(mk_err(0, "input read"));
        },
    };
    match crate::parser::parse(buffer.as_str()) {
        Ok(rep) => {
            proof {
                assert(spec_report(buffer@) == Some(rep@));
            }
            Ok(rep)
        },
        Err(e) => Err(e),
    }
}

} // verus!
