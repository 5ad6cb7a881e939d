//! The text of audit records and the place where a thread keeps its trail.

use vstd::prelude::*;
use vstd::string::*;
use crate::decimal::{decimal, decimal_nat, zero_padded, push_decimal, push_decimal_nat, push_zero_padded};
use crate::scope::{audit_dir_spec, in_scope, in_scope_spec, lemma_audit_dir_out_of_scope, occurs_at};

verus! {

/// What a stat-family call left in the caller's buffer, whatever the width
/// of the structure it filled.
#[derive(Clone, Copy, Debug)]
pub struct StatInfo {
    pub mode: u32,
    pub uid: u32,
    pub gid: u32,
    pub size: i64,
}

/// The views of an optional text.
pub open spec fn text_of(record: Option<String>) -> Option<Seq<char>> {
    match record {
        Some(text) => Some(text@),
        None => None,
    }
}

/// A finished line of the trail: seconds in five digits, a dot, the
/// nanoseconds of the current second in eight, a space, the record, and a
/// line feed. Longer numbers are written in full.
pub open spec fn stamped_line(secs: nat, nanos: nat, info: Seq<char>) -> Seq<char> {
    zero_padded(secs, 5) + "."@ + zero_padded(nanos, 8) + " "@ + info + "\n"@
}

/// A record of a call on a path: operation, path, detail, and the error
/// code that the call left behind.
pub open spec fn op_record(op: Seq<char>, path: Seq<char>, info: Seq<char>, errno: int) -> Seq<
    char,
> {
    op + " "@ + path + " "@ + info + ", errno "@ + decimal(errno)
}

/// What `log_op` answers: the record if the path is in scope, else nothing.
pub open spec fn scoped_record(op: Seq<char>, path: Seq<char>, info: Seq<char>, errno: int)
    -> Option<Seq<char>> {
    if in_scope_spec(path) {
        Some(op_record(op, path, info, errno))
    } else {
        None
    }
}

/// The summary of a stat result: mode, owner, group and size, then the
/// call's return value.
pub open spec fn stat_detail(info: StatInfo, ret: int) -> Seq<char> {
    "-> mode "@ + decimal(info.mode as int) + " uid "@ + decimal(info.uid as int) + " gid "@
        + decimal(info.gid as int) + " size "@ + decimal(info.size as int) + " -> "@ + decimal(ret)
}

/// The file in which one thread of one process keeps its trail.
pub open spec fn log_file_name_spec(pid: int, tid: nat) -> Seq<char> {
    audit_dir_spec() + "/"@ + decimal(pid) + "."@ + decimal_nat(tid) + ".log"@
}

/// Puts the time stamp before a record and ends the line. `secs` and
/// `nanos` are the whole seconds and the nanoseconds of the current second
/// that have passed since the process's reference instant.
pub fn log(secs: u64, nanos: u32, info: &str) -> (line: String)
    ensures
        line@ == stamped_line(secs as nat, nanos as nat, info@),
{
    let mut line = String::new();
    push_zero_padded(&mut line, secs, 5);
    line.append(".");
    push_zero_padded(&mut line, nanos as u64, 8);
    line.append(" ");
    line.append(info);
    line.append("\n");
    assert(line@ =~= stamped_line(secs as nat, nanos as nat, info@));
    line
}

/// Builds the record of a call on `path`, if the path is in scope. `errno`
/// is the error code as it stood when the call returned.
pub fn log_op(op: &str, path: &str, info: &str, errno: i32) -> (record: Option<String>)
    ensures
        text_of(record) == scoped_record(op@, path@, info@, errno as int),
{
    if !in_scope(path) {
        return None;
    }
    let mut text = String::from_str(op);
    text.append(" ");
    text.append(path);
    text.append(" ");
    text.append(info);
    text.append(", errno ");
    push_decimal(&mut text, errno as i64);
    Some(text)
}

/// Summarises a stat result and the call's return value.
pub fn stat_info(info: &StatInfo, ret: i32) -> (text: String)
    ensures
        text@ == stat_detail(*info, ret as int),
{
    let mut text = String::from_str("-> mode ");
    push_decimal(&mut text, info.mode as i64);
    text.append(" uid ");
    push_decimal(&mut text, info.uid as i64);
    text.append(" gid ");
    push_decimal(&mut text, info.gid as i64);
    text.append(" size ");
    push_decimal(&mut text, info.size);
    text.append(" -> ");
    push_decimal(&mut text, ret as i64);
    text
}

/// Names the directory that holds the trail.
pub fn audit_dir() -> (dir: String)
    ensures
        dir@ == audit_dir_spec(),
{
    let mut dir = String::from_str("/tmp");
    dir.append("/intercepts");
    dir
}

/// Names the trail of thread `tid` of process `pid`.
pub fn log_file_name(pid: i32, tid: u64) -> (name: String)
    ensures
        name@ == log_file_name_spec(pid as int, tid as nat),
{
    let mut name = audit_dir();
    name.append("/");
    push_decimal(&mut name, pid as i64);
    name.append(".");
    push_decimal_nat(&mut name, tid);
    name.append(".log");
    name
}

/// A thread's trail lies below the trail's directory, and so out of scope.
pub proof fn lemma_log_file_out_of_scope(pid: int, tid: nat)
    ensures
        !in_scope_spec(log_file_name_spec(pid, tid)),
{
    reveal_strlit("/");
    let rest = "/"@ + decimal(pid) + "."@ + decimal_nat(tid) + ".log"@;
    lemma_audit_dir_out_of_scope(rest);
    assert(log_file_name_spec(pid, tid) =~= audit_dir_spec() + rest);
}

/// A record of a call on a path holds that path, right after the operation
/// name and a space, and ends with the error code.
pub proof fn lemma_record_names_path(op: Seq<char>, path: Seq<char>, info: Seq<char>, errno: int)
    ensures
        occurs_at(op_record(op, path, info, errno), op.len() as int + 1, path),
        decimal(errno).is_suffix_of(op_record(op, path, info, errno)),
{
    reveal_strlit(" ");
    let record = op_record(op, path, info, errno);
    let at = op.len() as int + 1;
    assert(record.subrange(at, at + path.len()) =~= path);
    let n = decimal(errno).len() as int;
    assert(record.subrange(record.len() - n, record.len() as int) =~= decimal(errno));
}

} // verus!
