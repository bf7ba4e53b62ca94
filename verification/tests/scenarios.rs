use atomicwriter::error::WriterError;
use atomicwriter::resolver::get_parent_directory;
use atomicwriter::writer::{Action, AtomicWriter, Event, Step};
use std::collections::{BTreeMap, BTreeSet};

/// A file system in memory, on which chosen operations can be made to fail.
struct Disk {
    dirs: BTreeSet<String>,
    files: BTreeMap<String, Vec<u8>>,
    persist: Result<(), String>,
    sync: Result<(), String>,
    removal: Result<(), String>,
    operations: usize,
}

impl Disk {
    fn new() -> Disk {
        Disk {
            dirs: BTreeSet::new(),
            files: BTreeMap::new(),
            persist: Ok(()),
            sync: Ok(()),
            removal: Ok(()),
            operations: 0,
        }
    }

    fn with(path: &str, content: &[u8]) -> Disk {
        let mut disk = Disk::new();
        disk.files.insert(String::from(path), content.to_vec());
        disk
    }

    fn read(&self, path: &str) -> Option<&[u8]> {
        self.files.get(path).map(|content| content.as_slice())
    }
}

/// A writer together with its temporary file.
struct Staged {
    core: AtomicWriter,
    temp: Option<Vec<u8>>,
}

impl Staged {
    fn new(disk: &mut Disk, dest: &str, overwrite: bool) -> Staged {
        disk.dirs.insert(get_parent_directory(dest));
        Staged { core: AtomicWriter::new(String::from(dest), overwrite), temp: Some(Vec::new()) }
    }

    fn write(&mut self, data: &[u8]) -> Result<(), WriterError> {
        let bytes = self.core.write_bytes(data)?;
        self.temp.as_mut().unwrap().extend_from_slice(bytes);
        Ok(())
    }

    fn perform(&mut self, disk: &mut Disk, action: Action) -> Event {
        let dest = String::from(self.core.dest());
        disk.operations += 1;
        match action {
            Action::CheckDestination => Event::DestinationChecked(disk.files.contains_key(&dest)),
            Action::Persist => {
                if disk.persist.is_ok() {
                    disk.files.insert(dest, self.temp.take().unwrap());
                }
                Event::Persisted(disk.persist.clone())
            }
            Action::Sync => Event::Synced(disk.sync.clone()),
            Action::RemoveDestination => {
                if disk.removal.is_ok() {
                    disk.files.remove(&dest);
                }
                Event::Removed(disk.removal.clone())
            }
        }
    }

    fn commit(&mut self, disk: &mut Disk) -> Result<String, WriterError> {
        let mut step = self.core.commit();
        loop {
            let event = match step {
                Step::Perform(action) => self.perform(disk, action),
                Step::Finish(result) => return result,
            };
            step = self.core.resume(event);
        }
    }
}

fn write_bytes(
    disk: &mut Disk,
    data: &[u8],
    dest: &str,
    overwrite: bool,
) -> Result<String, WriterError> {
    let mut staged = Staged::new(disk, dest, overwrite);
    staged.write(data)?;
    staged.commit(disk)
}

#[test]
fn write_to_fresh_destination_holds_the_payload() {
    let mut disk = Disk::new();
    assert_eq!(write_bytes(&mut disk, b"hello", "report.txt", false), Ok(String::from("report.txt")));
    assert_eq!(disk.read("report.txt"), Some(&b"hello"[..]));
    assert_eq!(disk.files.len(), 1);
}

#[test]
fn write_to_fresh_destination_with_overwrite_holds_the_payload() {
    let mut disk = Disk::new();
    assert_eq!(write_bytes(&mut disk, b"hello", "report.txt", true), Ok(String::from("report.txt")));
    assert_eq!(disk.read("report.txt"), Some(&b"hello"[..]));
}

#[test]
fn write_of_empty_payload_creates_an_empty_file() {
    let mut disk = Disk::new();
    write_bytes(&mut disk, b"", "empty.bin", false).unwrap();
    assert_eq!(disk.read("empty.bin"), Some(&b""[..]));
}

#[test]
fn write_without_overwrite_keeps_existing_destination() {
    let mut disk = Disk::with("report.txt", b"prior");
    assert_eq!(
        write_bytes(&mut disk, b"new", "report.txt", false),
        Err(WriterError::AlreadyExists(String::from("report.txt")))
    );
    assert_eq!(disk.read("report.txt"), Some(&b"prior"[..]));
    // Nothing but the question was put to the disk.
    assert_eq!(disk.operations, 1);
}

#[test]
fn write_with_overwrite_replaces_existing_destination() {
    let mut disk = Disk::with("report.txt", b"prior content, longer than the new one");
    assert_eq!(write_bytes(&mut disk, b"new", "report.txt", true), Ok(String::from("report.txt")));
    assert_eq!(disk.read("report.txt"), Some(&b"new"[..]));
    assert_eq!(disk.files.len(), 1);
}

#[test]
fn write_with_overwrite_does_not_ask_for_the_destination() {
    let mut disk = Disk::new();
    write_bytes(&mut disk, b"new", "report.txt", true).unwrap();
    // Rename and sync.
    assert_eq!(disk.operations, 2);
}

#[test]
fn write_leaves_other_files_alone() {
    let mut disk = Disk::with("other.txt", b"other");
    write_bytes(&mut disk, b"new", "report.txt", false).unwrap();
    assert_eq!(disk.read("other.txt"), Some(&b"other"[..]));
    assert_eq!(disk.read("report.txt"), Some(&b"new"[..]));
}

#[test]
fn write_names_the_parent_directory_to_create() {
    let mut disk = Disk::new();
    write_bytes(&mut disk, b"payload", "a/b/c/report.txt", false).unwrap();
    assert!(disk.dirs.contains("a/b/c"));
    assert_eq!(disk.read("a/b/c/report.txt"), Some(&b"payload"[..]));
}

#[test]
fn scenario_hello_then_world_without_overwrite() {
    let mut disk = Disk::new();
    assert_eq!(
        write_bytes(&mut disk, b"hello", "out/report.txt", false),
        Ok(String::from("out/report.txt"))
    );
    assert!(disk.dirs.contains("out"));
    assert_eq!(disk.read("out/report.txt"), Some(&b"hello"[..]));
    assert_eq!(
        write_bytes(&mut disk, b"world", "out/report.txt", false),
        Err(WriterError::AlreadyExists(String::from("out/report.txt")))
    );
    assert_eq!(disk.read("out/report.txt"), Some(&b"hello"[..]));
}

#[test]
fn scenario_staged_writes_are_joined() {
    let mut disk = Disk::new();
    let mut staged = Staged::new(&mut disk, "out/report.txt", false);
    staged.write(b"hel").unwrap();
    staged.write(b"lo").unwrap();
    assert_eq!(disk.read("out/report.txt"), None);
    assert_eq!(staged.commit(&mut disk), Ok(String::from("out/report.txt")));
    assert_eq!(disk.read("out/report.txt"), Some(&b"hello"[..]));
}

#[test]
fn second_commit_fails_and_keeps_the_first() {
    let mut disk = Disk::new();
    let mut staged = Staged::new(&mut disk, "report.txt", true);
    staged.write(b"once").unwrap();
    staged.commit(&mut disk).unwrap();
    let operations = disk.operations;
    assert_eq!(staged.commit(&mut disk), Err(WriterError::InvalidState));
    assert_eq!(disk.operations, operations);
    assert_eq!(disk.read("report.txt"), Some(&b"once"[..]));
}

#[test]
fn write_after_commit_fails_and_keeps_the_destination() {
    let mut disk = Disk::new();
    let mut staged = Staged::new(&mut disk, "report.txt", false);
    staged.write(b"once").unwrap();
    staged.commit(&mut disk).unwrap();
    assert_eq!(staged.write(b"late"), Err(WriterError::InvalidState));
    assert_eq!(disk.read("report.txt"), Some(&b"once"[..]));
}

#[test]
fn failed_rename_keeps_the_prior_content() {
    let mut disk = Disk::with("report.txt", b"prior");
    disk.persist = Err(String::from("cross-device link"));
    assert_eq!(
        write_bytes(&mut disk, b"new", "report.txt", true),
        Err(WriterError::Io(String::from("cross-device link")))
    );
    assert_eq!(disk.read("report.txt"), Some(&b"prior"[..]));
}

#[test]
fn failed_sync_removes_the_destination() {
    let mut disk = Disk::new();
    disk.sync = Err(String::from("disk full"));
    assert_eq!(
        write_bytes(&mut disk, b"new", "report.txt", false),
        Err(WriterError::Io(String::from("disk full")))
    );
    assert_eq!(disk.read("report.txt"), None);
    // Question, rename, sync, removal.
    assert_eq!(disk.operations, 4);
}

#[test]
fn failed_rollback_is_reported_apart() {
    let mut disk = Disk::new();
    disk.sync = Err(String::from("disk full"));
    disk.removal = Err(String::from("permission denied"));
    assert_eq!(
        write_bytes(&mut disk, b"new", "report.txt", false),
        Err(WriterError::RollbackFailed {
            sync: String::from("disk full"),
            removal: String::from("permission denied"),
        })
    );
    // Whatever is left there, it is never a part of the payload.
    assert_eq!(disk.read("report.txt"), Some(&b"new"[..]));
}

#[test]
fn retry_after_already_exists_succeeds_once_the_way_is_free() {
    let mut disk = Disk::with("report.txt", b"prior");
    let mut staged = Staged::new(&mut disk, "report.txt", false);
    staged.write(b"new").unwrap();
    assert_eq!(
        staged.commit(&mut disk),
        Err(WriterError::AlreadyExists(String::from("report.txt")))
    );
    disk.files.remove("report.txt");
    assert_eq!(staged.commit(&mut disk), Ok(String::from("report.txt")));
    assert_eq!(disk.read("report.txt"), Some(&b"new"[..]));
}
