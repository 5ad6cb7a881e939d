use intercepts::record::{log, StatInfo};
use intercepts::registry::DescriptorRegistry;
use intercepts::shim::{
    close_unmarks, on_close, on_fstat, on_mkdir, on_open, on_stat, on_symlink, open_marks,
    open_record, StatKind,
};

fn text(s: &str) -> Option<String> {
    Some(String::from(s))
}

#[test]
fn open_in_scope_is_recorded_and_marked() {
    let mut registry = DescriptorRegistry::new();
    let fd = 7;
    let record = on_open(&mut registry, "/tmp/data/a.txt", 0, 0, fd, 0);
    assert_eq!(
        record,
        text("open /tmp/data/a.txt (flags: 0, mode: 0) -> 7, errno 0")
    );
    assert!(registry.is_marked(fd));
    let line = log(3, 1500, record.unwrap().as_str());
    assert_eq!(
        line,
        "00003.00001500 open /tmp/data/a.txt (flags: 0, mode: 0) -> 7, errno 0\n"
    );
}

#[test]
fn open_out_of_scope_is_neither_recorded_nor_marked() {
    let mut registry = DescriptorRegistry::new();
    assert_eq!(on_open(&mut registry, "/etc/passwd", 0, 0, 5, 0), None);
    assert!(!registry.is_marked(5));
    assert_eq!(
        on_open(&mut registry, "/tmp/intercepts/1.2.log", 577, 438, 6, 0),
        None
    );
    assert!(!registry.is_marked(6));
}

#[test]
fn failed_open_is_recorded_with_its_error_and_not_marked() {
    let mut registry = DescriptorRegistry::new();
    assert_eq!(
        on_open(&mut registry, "/tmp/missing", 2, 0, -1, 2),
        text("open /tmp/missing (flags: 2, mode: 0) -> -1, errno 2")
    );
    assert!(!registry.is_marked(-1));
}

#[test]
fn open_that_returns_descriptor_zero_is_marked() {
    let mut registry = DescriptorRegistry::new();
    assert_eq!(
        on_open(&mut registry, "/tmp/a", 64, 420, 0, 0),
        text("open /tmp/a (flags: 64, mode: 420) -> 0, errno 0")
    );
    assert!(registry.is_marked(0));
}

#[test]
fn close_of_a_marked_descriptor_is_recorded_once() {
    let mut registry = DescriptorRegistry::new();
    on_open(&mut registry, "/tmp/data/a.txt", 0, 0, 9, 0);
    assert_eq!(on_close(&mut registry, 9, 0), text("close 9 -> 0"));
    assert!(!registry.is_marked(9));
    assert_eq!(on_close(&mut registry, 9, 0), None);
    assert!(!registry.is_marked(9));
}

#[test]
fn close_of_an_unmarked_descriptor_is_not_recorded() {
    let mut registry = DescriptorRegistry::new();
    on_open(&mut registry, "/home/user/a.txt", 0, 0, 4, 0);
    assert_eq!(on_close(&mut registry, 4, 0), None);
    assert_eq!(on_close(&mut registry, 11, 0), None);
}

#[test]
fn failed_close_keeps_the_descriptor_marked() {
    let mut registry = DescriptorRegistry::new();
    on_open(&mut registry, "/tmp/a", 0, 0, 3, 0);
    assert_eq!(on_close(&mut registry, 3, -1), None);
    assert!(registry.is_marked(3));
    assert_eq!(on_close(&mut registry, 3, 0), text("close 3 -> 0"));
}

#[test]
fn close_unmarks_the_descriptor_asked_for() {
    let mut registry = DescriptorRegistry::new();
    on_open(&mut registry, "/tmp/a", 0, 0, 3, 0);
    on_open(&mut registry, "/tmp/b", 0, 0, 4, 0);
    assert_eq!(on_close(&mut registry, 4, 0), text("close 4 -> 0"));
    assert!(registry.is_marked(3));
    assert!(!registry.is_marked(4));
}

#[test]
fn reused_descriptor_does_not_stay_marked() {
    let mut registry = DescriptorRegistry::new();
    on_open(&mut registry, "/tmp/a", 0, 0, 3, 0);
    on_close(&mut registry, 3, 0);
    on_open(&mut registry, "/etc/hosts", 0, 0, 3, 0);
    assert!(!registry.is_marked(3));
    assert_eq!(on_close(&mut registry, 3, 0), None);
}

#[test]
fn marks_follow_the_history_of_opens_and_closes() {
    let mut registry = DescriptorRegistry::new();
    on_open(&mut registry, "/tmp/a", 0, 0, 3, 0);
    on_open(&mut registry, "/var/b", 0, 0, 4, 0);
    on_open(&mut registry, "/tmp/c", 0, 0, 5, 0);
    on_open(&mut registry, "/tmp/d", 0, 0, -1, 24);
    on_close(&mut registry, 3, 0);
    on_close(&mut registry, 5, -1);
    assert!(!registry.is_marked(3));
    assert!(!registry.is_marked(4));
    assert!(registry.is_marked(5));
    assert!(!registry.is_marked(-1));
}

#[test]
fn many_opens_mark_distinct_descriptors() {
    let mut registry = DescriptorRegistry::new();
    let mut records: Vec<String> = Vec::new();
    for fd in 10..18 {
        let path = format!("/tmp/data/{}.txt", fd);
        let record = on_open(&mut registry, path.as_str(), 0, 0, fd, 0);
        records.push(record.unwrap());
    }
    assert_eq!(records.len(), 8);
    for fd in 10..18 {
        assert!(registry.is_marked(fd));
        let expected = format!("open /tmp/data/{}.txt (flags: 0, mode: 0) -> {}, errno 0", fd, fd);
        assert_eq!(records.iter().filter(|r| **r == expected).count(), 1);
    }
}

#[test]
fn registry_mark_and_unmark() {
    let mut registry = DescriptorRegistry::new();
    assert!(!registry.is_marked(1));
    registry.mark(1);
    registry.mark(1);
    assert!(registry.is_marked(1));
    assert!(registry.unmark(1));
    assert!(!registry.unmark(1));
    assert!(!registry.is_marked(1));
}

#[test]
fn mkdir_record() {
    assert_eq!(
        on_mkdir("/tmp/newdir", 493, 0, 0),
        text("mkdir /tmp/newdir (mode: 493) -> 0, errno 0")
    );
    assert_eq!(
        on_mkdir("/tmp/newdir", 493, -1, 17),
        text("mkdir /tmp/newdir (mode: 493) -> -1, errno 17")
    );
    assert_eq!(on_mkdir("/tmp/intercepts", 511, 0, 0), None);
    assert_eq!(on_mkdir("/srv/newdir", 493, 0, 0), None);
}

#[test]
fn symlink_scope_goes_by_the_link() {
    assert_eq!(
        on_symlink("/etc/hosts", "/tmp/hosts", 0, 0),
        text("symlink /tmp/hosts -> /etc/hosts -> 0, errno 0")
    );
    assert_eq!(on_symlink("/tmp/a", "/home/user/a", 0, 0), None);
}

#[test]
fn stat_on_a_path_in_scope() {
    let info = StatInfo { mode: 33188, uid: 1000, gid: 1000, size: 42 };
    let record = on_stat(StatKind::Stat, "/tmp/data/a.txt", &info, 0, 0).unwrap();
    assert_eq!(
        record,
        "stat /tmp/data/a.txt -> mode 33188 uid 1000 gid 1000 size 42 -> 0, errno 0"
    );
    assert!(record.ends_with("-> mode 33188 uid 1000 gid 1000 size 42 -> 0, errno 0"));
    assert_eq!(on_stat(StatKind::Stat, "/usr/lib", &info, 0, 0), None);
}

#[test]
fn stat_kinds_are_told_apart_by_name() {
    let info = StatInfo { mode: 16877, uid: 0, gid: 0, size: 4096 };
    let tail = " /tmp/d -> mode 16877 uid 0 gid 0 size 4096 -> 0, errno 0";
    assert_eq!(StatKind::Stat.name(), "stat");
    assert_eq!(StatKind::Lstat.name(), "lstat");
    assert_eq!(StatKind::Stat64.name(), "stat64");
    assert_eq!(StatKind::Lstat64.name(), "lstat64");
    assert_eq!(
        on_stat(StatKind::Lstat, "/tmp/d", &info, 0, 0),
        Some(format!("lstat{}", tail))
    );
    assert_eq!(
        on_stat(StatKind::Stat64, "/tmp/d", &info, 0, 0),
        Some(format!("stat64{}", tail))
    );
    assert_eq!(
        on_stat(StatKind::Lstat64, "/tmp/d", &info, 0, 0),
        Some(format!("lstat64{}", tail))
    );
}

#[test]
fn fstat_is_recorded_for_marked_descriptors_only() {
    let mut registry = DescriptorRegistry::new();
    let info = StatInfo { mode: 33188, uid: 1000, gid: 1000, size: 42 };
    assert_eq!(on_fstat(&registry, 6, &info, 0), None);
    on_open(&mut registry, "/tmp/data/a.txt", 0, 0, 6, 0);
    assert_eq!(
        on_fstat(&registry, 6, &info, 0),
        text("fstat 6 -> mode 33188 uid 1000 gid 1000 size 42 -> 0")
    );
    assert_eq!(
        on_fstat(&registry, 6, &info, -1),
        text("fstat 6 -> mode 33188 uid 1000 gid 1000 size 42 -> -1")
    );
    on_close(&mut registry, 6, 0);
    assert_eq!(on_fstat(&registry, 6, &info, 0), None);
}

#[test]
fn open_beside_the_root_is_neither_recorded_nor_marked() {
    let mut registry = DescriptorRegistry::new();
    assert_eq!(on_open(&mut registry, "/tmpfoo/a.txt", 0, 0, 3, 0), None);
    assert!(!registry.is_marked(3));
}

#[test]
fn open_marks_only_on_success_in_scope() {
    assert!(open_marks("/tmp/a", 3));
    assert!(open_marks("/tmp/a", 0));
    assert!(!open_marks("/tmp/a", -1));
    assert!(!open_marks("/etc/a", 3));
    assert!(!open_marks("/tmp/intercepts/1.2.log", 3));
}

#[test]
fn open_record_alone() {
    assert_eq!(
        open_record("/tmp/a", 1, 2, -1, 13),
        text("open /tmp/a (flags: 1, mode: 2) -> -1, errno 13")
    );
    assert_eq!(open_record("/opt/a", 1, 2, 4, 0), None);
}

#[test]
fn close_unmarks_only_on_success() {
    assert!(close_unmarks(0));
    assert!(!close_unmarks(-1));
    assert!(!close_unmarks(1));
}
