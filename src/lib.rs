//! Parsers that turn the textual output of Lustre's administrative commands into typed
//! metric records.
use vstd::prelude::*;
use vstd::utf8::{decode_utf8, valid_utf8};

pub mod base_parsers;
pub mod brw_stats_parser;
pub mod error;
pub mod job_stats;
pub mod ldlm_parser;
pub mod lnet_exports;
pub mod lnetctl_parser;
pub mod mds_parser;
pub mod mgs_fs_parser;
pub mod mgs_parser;
pub mod obdfilter_parser;
pub mod oss_parser;
pub mod ost_parser;
pub mod parser;
pub mod recovery_status_parser;
pub mod stats_format;
pub mod stats_parser;
pub mod text;
pub mod top_level_parser;
pub mod types;
pub mod utils;
pub mod values;

pub use crate::error::LustreCollectorError;
pub use crate::types::{
    BrwStats, BrwStatsBucket, FsName, Host, HostStat, HostStats, LNetStat, LNetStats, NodeStat,
    NodeStats, Param, Record, RecoveryStatus, Stat, Target, TargetStat, TargetStats,
    TargetVariant,
};

verus! {

use crate::parser::{check_output, lctl_records, result_view, whole_input};
use crate::recovery_status_parser::recovery_output;
use crate::text::{chars_of, trim, trimmed, utf8_text};

/// The characters of the command output, or the error for output that is not UTF-8.
fn decode(bytes: &[u8]) -> (r: Result<Vec<char>, LustreCollectorError>)
    ensures
        valid_utf8(bytes@) ==> (r matches Ok(v) && v@ == decode_utf8(bytes@)),
        !valid_utf8(bytes@) ==> r == Err::<Vec<char>, LustreCollectorError>(
            LustreCollectorError::Utf8Error,
        ),
{
    match utf8_text(bytes) {
        Some(t) => Ok(chars_of(t)),
        None => Err(LustreCollectorError::Utf8Error),
    }
}

/// Parses the output of `lctl get_param` for the patterns of [`parser::params`].
pub fn parse_lctl_output(lctl_output: &[u8]) -> (r: Result<Vec<Record>, LustreCollectorError>)
    ensures
        !valid_utf8(lctl_output@) ==> result_view(r) == Err::<Seq<types::RecordView>, LustreCollectorError>(
            LustreCollectorError::Utf8Error,
        ),
        valid_utf8(lctl_output@) ==> result_view(r) == whole_input(
            lctl_records(decode_utf8(lctl_output@), 0),
            decode_utf8(lctl_output@).len() as int,
        ),
{
    let s = match decode(lctl_output) {
        Ok(s) => s,
        Err(e) => return Err(e),
    };
    let r = parser::parse(s.as_slice(), 0);
    check_output(r, s.len())
}

/// Parses the output of `lctl get_param -N` for the filesystem listing pattern.
pub fn parse_mgs_fs_output(mgs_fs_output: &[u8]) -> (r: Result<Vec<Record>, LustreCollectorError>)
    ensures
        !valid_utf8(mgs_fs_output@) ==> result_view(r) == Err::<Seq<types::RecordView>, LustreCollectorError>(
            LustreCollectorError::Utf8Error,
        ),
        valid_utf8(mgs_fs_output@) ==> result_view(r) == mgs_fs_parser::mgs_fs_output(decode_utf8(mgs_fs_output@)),
{
    let s = match decode(mgs_fs_output) {
        Ok(s) => s,
        Err(e) => return Err(e),
    };
    mgs_fs_parser::parse(s.as_slice())
}

/// Parses the output of `lctl get_param` for the recovery status patterns; whitespace around
/// the whole output is ignored.
pub fn parse_recovery_status_output(recovery_status_output: &[u8]) -> (r: Result<
    Vec<Record>,
    LustreCollectorError,
>)
    ensures
        !valid_utf8(recovery_status_output@) ==> result_view(r) == Err::<Seq<types::RecordView>, LustreCollectorError>(
            LustreCollectorError::Utf8Error,
        ),
        valid_utf8(recovery_status_output@) ==> result_view(r) == recovery_output(
            trimmed(decode_utf8(recovery_status_output@)),
        ),
{
    let s = match decode(recovery_status_output) {
        Ok(s) => s,
        Err(e) => return Err(e),
    };
    let t = trim(s.as_slice());
    let r = recovery_status_parser::parse(t.as_slice(), 0);
    check_output(r, t.len())
}

} // verus!
