//! What to record, and which descriptors to follow, after each kind of
//! forwarded call.
//!
//! Every function here is handed a call that has already returned: its
//! arguments as the caller gave them, its return value, and where it
//! matters the error code it left. It answers with the record to append,
//! if the call is one to record.

use vstd::prelude::*;
use vstd::string::*;
use crate::decimal::{decimal, push_decimal};
use crate::scope::{in_scope, in_scope_spec};
use crate::record::{log_op, scoped_record, stat_detail, stat_info, text_of, StatInfo};
use crate::registry::DescriptorRegistry;

verus! {

/// The stat-by-path calls that are told apart in the trail.
#[derive(Clone, Copy, Debug)]
pub enum StatKind {
    Stat,
    Lstat,
    Stat64,
    Lstat64,
}

impl StatKind {
    /// The operation name under which the call is recorded.
    pub open spec fn name_spec(self) -> Seq<char> {
        match self {
            StatKind::Stat => "stat"@,
            StatKind::Lstat => "lstat"@,
            StatKind::Stat64 => "stat64"@,
            StatKind::Lstat64 => "lstat64"@,
        }
    }

    /// The operation name under which the call is recorded.
    pub fn name(&self) -> (r: &'static str)
        ensures
            r@ == self.name_spec(),
    {
        match self {
            StatKind::Stat => "stat",
            StatKind::Lstat => "lstat",
            StatKind::Stat64 => "stat64",
            StatKind::Lstat64 => "lstat64",
        }
    }
}

/// The detail of an open record.
pub open spec fn open_detail(flags: int, mode: int, ret: int) -> Seq<char> {
    "(flags: "@ + decimal(flags) + ", mode: "@ + decimal(mode) + ") -> "@ + decimal(ret)
}

/// The detail of a mkdir record.
pub open spec fn mkdir_detail(mode: int, ret: int) -> Seq<char> {
    "(mode: "@ + decimal(mode) + ") -> "@ + decimal(ret)
}

/// The detail of a symlink record.
pub open spec fn symlink_detail(target: Seq<char>, ret: int) -> Seq<char> {
    "-> "@ + target + " -> "@ + decimal(ret)
}

/// The record of a close that succeeded.
pub open spec fn close_record(fd: int) -> Seq<char> {
    "close "@ + decimal(fd) + " -> 0"@
}

/// The record of a stat on a descriptor.
pub open spec fn fstat_record(fd: int, info: StatInfo, ret: int) -> Seq<char> {
    "fstat "@ + decimal(fd) + " "@ + stat_detail(info, ret)
}

/// An open marks a descriptor when its path is in scope and it succeeded.
pub open spec fn open_marks_spec(path: Seq<char>, ret: i32) -> bool {
    in_scope_spec(path) && ret >= 0
}

/// An open that marks, marks the descriptor it returned; any other changes
/// nothing.
pub open spec fn after_open(marked: Set<i32>, path: Seq<char>, ret: i32) -> Set<i32> {
    if open_marks_spec(path, ret) {
        marked.insert(ret)
    } else {
        marked
    }
}

/// A close unmarks a descriptor when it succeeded.
pub open spec fn close_unmarks_spec(ret: i32) -> bool {
    ret == 0
}

/// A close that succeeded unmarks the descriptor it was asked to close; one
/// that failed changes nothing.
pub open spec fn after_close(marked: Set<i32>, fd: i32, ret: i32) -> Set<i32> {
    if close_unmarks_spec(ret) {
        marked.remove(fd)
    } else {
        marked
    }
}

/// A close is recorded when it succeeded on a marked descriptor.
pub open spec fn close_recorded(marked: Set<i32>, fd: i32, ret: i32) -> bool {
    ret == 0 && marked.contains(fd)
}

/// Says whether an open on `path` that returned `ret` changes the marked
/// descriptors, so that a caller can leave the registry alone when not.
pub fn open_marks(path: &str, ret: i32) -> (r: bool)
    ensures
        r == open_marks_spec(path@, ret),
{
    ret >= 0 && in_scope(path)
}

/// Says whether a close that returned `ret` changes the marked descriptors
/// or is recorded, so that a caller can leave the registry alone when not.
pub fn close_unmarks(ret: i32) -> (r: bool)
    ensures
        r == close_unmarks_spec(ret),
{
    ret == 0
}

/// The record of `open(path, flags, mode)` that returned `ret`, if the path
/// is in scope.
pub fn open_record(path: &str, flags: i32, mode: i32, ret: i32, errno: i32) -> (record: Option<
    String,
>)
    ensures
        text_of(record) == scoped_record(
            "open"@,
            path@,
            open_detail(flags as int, mode as int, ret as int),
            errno as int,
        ),
{
    let mut detail = String::from_str("(flags: ");
    push_decimal(&mut detail, flags as i64);
    detail.append(", mode: ");
    push_decimal(&mut detail, mode as i64);
    detail.append(") -> ");
    push_decimal(&mut detail, ret as i64);
    log_op("open", path, detail.as_str(), errno)
}

/// After `open(path, flags, mode)` returned `ret`: the record, if the path
/// is in scope, and the descriptor marked if the call also succeeded.
pub fn on_open(
    registry: &mut DescriptorRegistry,
    path: &str,
    flags: i32,
    mode: i32,
    ret: i32,
    errno: i32,
) -> (record: Option<String>)
    ensures
        text_of(record) == scoped_record(
            "open"@,
            path@,
            open_detail(flags as int, mode as int, ret as int),
            errno as int,
        ),
        final(registry)@ == after_open(old(registry)@, path@, ret),
{
    let record = open_record(path, flags, mode, ret, errno);
    if record.is_some() && ret >= 0 {
        registry.mark(ret);
    }
    record
}

/// After `close(fd)` returned `ret`: if it succeeded, the descriptor is
/// unmarked, and recorded if it was marked.
pub fn on_close(registry: &mut DescriptorRegistry, fd: i32, ret: i32) -> (record: Option<String>)
    ensures
        text_of(record) == if close_recorded(old(registry)@, fd, ret) {
            Some(close_record(fd as int))
        } else {
            None
        },
        final(registry)@ == after_close(old(registry)@, fd, ret),
{
    if close_unmarks(ret) && registry.unmark(fd) {
        let mut text = String::from_str("close ");
        push_decimal(&mut text, fd as i64);
        text.append(" -> 0");
        Some(text)
    } else {
        assert(registry@ =~= after_close(old(registry)@, fd, ret));
        None
    }
}

/// After `mkdir(path, mode)` returned `ret`.
pub fn on_mkdir(path: &str, mode: i32, ret: i32, errno: i32) -> (record: Option<String>)
    ensures
        text_of(record) == scoped_record(
            "mkdir"@,
            path@,
            mkdir_detail(mode as int, ret as int),
            errno as int,
        ),
{
    let mut detail = String::from_str("(mode: ");
    push_decimal(&mut detail, mode as i64);
    detail.append(") -> ");
    push_decimal(&mut detail, ret as i64);
    log_op("mkdir", path, detail.as_str(), errno)
}

/// After `symlink(target, linkpath)` returned `ret`. The link decides the
/// scope, not what it points to.
pub fn on_symlink(target: &str, linkpath: &str, ret: i32, errno: i32) -> (record: Option<String>)
    ensures
        text_of(record) == scoped_record(
            "symlink"@,
            linkpath@,
            symlink_detail(target@, ret as int),
            errno as int,
        ),
{
    let mut detail = String::from_str("-> ");
    detail.append(target);
    detail.append(" -> ");
    push_decimal(&mut detail, ret as i64);
    log_op("symlink", linkpath, detail.as_str(), errno)
}

/// After a stat on a path returned `ret` and left `info` in the buffer.
pub fn on_stat(kind: StatKind, path: &str, info: &StatInfo, ret: i32, errno: i32) -> (record:
    Option<String>)
    ensures
        text_of(record) == scoped_record(
            kind.name_spec(),
            path@,
            stat_detail(*info, ret as int),
            errno as int,
        ),
{
    let detail = stat_info(info, ret);
    log_op(kind.name(), path, detail.as_str(), errno)
}

/// After a stat on a descriptor returned `ret` and left `info` in the
/// buffer: recorded if the descriptor is marked, without an error code.
pub fn on_fstat(registry: &DescriptorRegistry, fd: i32, info: &StatInfo, ret: i32) -> (record:
    Option<String>)
    ensures
        text_of(record) == if registry@.contains(fd) {
            Some(fstat_record(fd as int, *info, ret as int))
        } else {
            None
        },
{
    if registry.is_marked(fd) {
        let detail = stat_info(info, ret);
        let mut text = String::from_str("fstat ");
        push_decimal(&mut text, fd as i64);
        text.append(" ");
        text.append(detail.as_str());
        Some(text)
    } else {
        None
    }
}

} // verus!
