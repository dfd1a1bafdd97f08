use cgroups_v2::cpuset::{CpuSet, CGROUP_CPUSET_CPUS, CGROUP_CPUSET_MEMS};
use cgroups_v2::resources::CpuSetSpec;
use cgroups_v2::write::Write;
use std::collections::BTreeMap;

/// A cgroup directory held in memory: the files that exist, with their
/// content. Writing to a file that is not there fails, as it does in the
/// kernel's file system.
struct Directory {
    files: BTreeMap<String, String>,
}

fn setup(cgroup_file: &str) -> Directory {
    let mut files = BTreeMap::new();
    files.insert(cgroup_file.to_owned(), String::new());
    Directory { files }
}

fn write_cgroup_file(dir: &mut Directory, file: &str, value: &str) -> Result<(), String> {
    match dir.files.get_mut(file) {
        Some(content) => {
            *content = value.to_owned();
            Ok(())
        }
        None => Err(format!("failed to open {}: no such file", file)),
    }
}

fn perform(dir: &mut Directory, writes: &[Write]) -> Result<(), String> {
    let mut first = Ok(());
    for write in writes {
        let outcome = write_cgroup_file(dir, &write.file, &write.value);
        if first.is_ok() {
            first = outcome;
        }
    }
    first
}

fn read_to_string(dir: &Directory, file: &str) -> Option<String> {
    dir.files.get(file).cloned()
}

#[test]
fn test_set_cpus() {
    // arrange
    let mut tmp = setup(CGROUP_CPUSET_CPUS);
    let cpuset = CpuSetSpec { cpus: Some("1-3".to_owned()), mems: None };

    // act
    perform(&mut tmp, &CpuSet::apply(&cpuset)).expect("apply cpuset");

    // assert
    let content = read_to_string(&tmp, CGROUP_CPUSET_CPUS)
        .expect(&format!("read {} file content", CGROUP_CPUSET_CPUS));
    assert_eq!(content, "1-3");
}

#[test]
fn test_set_mems() {
    // arrange
    let mut tmp = setup(CGROUP_CPUSET_MEMS);
    let cpuset = CpuSetSpec { cpus: None, mems: Some("1-3".to_owned()) };

    // act
    perform(&mut tmp, &CpuSet::apply(&cpuset)).expect("apply cpuset");

    // assert
    let content = read_to_string(&tmp, CGROUP_CPUSET_MEMS)
        .expect(&format!("read {} file content", CGROUP_CPUSET_MEMS));
    assert_eq!(content, "1-3");
}

#[test]
fn cpus_alone_leave_mems_untouched() {
    let cpuset = CpuSetSpec { cpus: Some("1-3".to_owned()), mems: None };
    let writes = CpuSet::apply(&cpuset);
    assert_eq!(writes, vec![Write { file: "cpuset.cpus".to_owned(), value: "1-3".to_owned() }]);

    let mut dir = setup(CGROUP_CPUSET_CPUS);
    dir.files.insert(CGROUP_CPUSET_MEMS.to_owned(), "0".to_owned());
    perform(&mut dir, &writes).expect("apply cpuset");
    assert_eq!(read_to_string(&dir, "cpuset.cpus").as_deref(), Some("1-3"));
    assert_eq!(read_to_string(&dir, "cpuset.mems").as_deref(), Some("0"));
}

#[test]
fn mems_alone_leave_cpus_untouched() {
    let cpuset = CpuSetSpec { cpus: None, mems: Some("1-3".to_owned()) };
    let writes = CpuSet::apply(&cpuset);
    assert_eq!(writes, vec![Write { file: "cpuset.mems".to_owned(), value: "1-3".to_owned() }]);

    let mut dir = setup(CGROUP_CPUSET_MEMS);
    dir.files.insert(CGROUP_CPUSET_CPUS.to_owned(), "0-7".to_owned());
    perform(&mut dir, &writes).expect("apply cpuset");
    assert_eq!(read_to_string(&dir, "cpuset.mems").as_deref(), Some("1-3"));
    assert_eq!(read_to_string(&dir, "cpuset.cpus").as_deref(), Some("0-7"));
}

#[test]
fn both_masks_are_written_verbatim_cpus_first() {
    let cpuset = CpuSetSpec { cpus: Some("0,2,4".to_owned()), mems: Some("0-1".to_owned()) };
    assert_eq!(
        CpuSet::apply(&cpuset),
        vec![
            Write { file: "cpuset.cpus".to_owned(), value: "0,2,4".to_owned() },
            Write { file: "cpuset.mems".to_owned(), value: "0-1".to_owned() },
        ]
    );
    assert!(CpuSet::is_requested(&cpuset));
}

#[test]
fn masks_are_not_validated() {
    let cpuset = CpuSetSpec { cpus: Some("not a range".to_owned()), mems: Some(String::new()) };
    assert_eq!(
        CpuSet::apply(&cpuset),
        vec![
            Write { file: "cpuset.cpus".to_owned(), value: "not a range".to_owned() },
            Write { file: "cpuset.mems".to_owned(), value: String::new() },
        ]
    );
}

#[test]
fn empty_cpuset_writes_nothing() {
    let cpuset = CpuSetSpec { cpus: None, mems: None };
    assert!(CpuSet::apply(&cpuset).is_empty());
    assert!(!CpuSet::is_requested(&cpuset));
}

#[test]
fn writing_to_a_missing_file_fails() {
    let mut dir = setup(CGROUP_CPUSET_MEMS);
    let cpuset = CpuSetSpec { cpus: Some("1-3".to_owned()), mems: Some("0".to_owned()) };
    let outcome = perform(&mut dir, &CpuSet::apply(&cpuset));
    assert!(outcome.unwrap_err().contains("cpuset.cpus"));
    // the other mask was still attempted
    assert_eq!(read_to_string(&dir, "cpuset.mems").as_deref(), Some("0"));
}
