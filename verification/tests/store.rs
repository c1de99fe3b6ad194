use std::collections::{BTreeMap, BTreeSet};
use std::path::{Path, PathBuf};
use token_store::error::{ErrorKind, StoreError};
use token_store::location::{token_file_in, TOKEN_FILE_NAME};
use token_store::record::TokenData;
use token_store::store::{clear_tokens, load_tokens, save_tokens, Command, Outcome, Report, Step};

const DATA_DIR: &str = "/home/user/.local/share/app";
const TOKEN_FILE: &str = "/home/user/.local/share/app/tokens.json";

/// A disk in memory, with switches that make single actions fail.
#[derive(Default)]
struct Disk {
    dirs: BTreeSet<PathBuf>,
    files: BTreeMap<PathBuf, String>,
    hidden: bool,
    read_only: bool,
    unreadable: bool,
    trace: Vec<&'static str>,
}

impl Disk {
    fn holding(text: &str) -> Disk {
        let mut disk = Disk::default();
        disk.create_dir_all(Path::new(DATA_DIR));
        disk.files.insert(PathBuf::from(TOKEN_FILE), text.to_string());
        disk
    }

    fn create_dir_all(&mut self, dir: &Path) {
        for ancestor in dir.ancestors() {
            self.dirs.insert(ancestor.to_path_buf());
        }
    }

    fn has_dir_of(&self, file: &Path) -> bool {
        file.parent().is_some_and(|dir| self.dirs.contains(dir))
    }

    fn token_file(&self) -> Option<&str> {
        self.files.get(Path::new(TOKEN_FILE)).map(String::as_str)
    }

    fn perform(&mut self, step: &Step) -> Report {
        match step {
            Step::LocateDataDir(_) => {
                self.trace.push("locate");
                if self.hidden {
                    Report::Failed("unknown path".to_string())
                } else {
                    Report::Located(PathBuf::from(DATA_DIR))
                }
            }
            Step::CreateDataDir { dir, .. } => {
                self.trace.push("create");
                if self.read_only && !self.dirs.contains(dir) {
                    Report::Failed("permission denied".to_string())
                } else {
                    self.create_dir_all(dir);
                    Report::Done
                }
            }
            Step::ProbeToLoad { file } | Step::ProbeToClear { file } => {
                self.trace.push("probe");
                Report::Present(self.files.contains_key(file))
            }
            Step::ReadTokenFile { file } => {
                self.trace.push("read");
                match self.files.get(file) {
                    Some(text) if !self.unreadable => Report::Text(text.clone()),
                    _ => Report::Failed("cannot read".to_string()),
                }
            }
            Step::WriteTokenFile { file, text } => {
                self.trace.push("write");
                if self.read_only || !self.has_dir_of(file) {
                    Report::Failed("cannot write".to_string())
                } else {
                    self.files.insert(file.clone(), text.clone());
                    Report::Done
                }
            }
            Step::RemoveTokenFile { file } => {
                self.trace.push("remove");
                if self.read_only || !self.files.contains_key(file) {
                    Report::Failed("cannot remove".to_string())
                } else {
                    self.files.remove(file);
                    Report::Done
                }
            }
            Step::Finished(_) => Report::Done,
        }
    }

    fn run(&mut self, first: Step) -> Outcome {
        self.trace.clear();
        let mut step = first;
        for _ in 0..8 {
            if let Step::Finished(outcome) = step {
                return outcome;
            }
            let report = self.perform(&step);
            step = step.advance(report);
        }
        panic!("the operation did not end");
    }

    fn load(&mut self) -> Outcome {
        self.run(load_tokens())
    }

    fn save(&mut self, access: &str, refresh: &str, expires: &str) -> Outcome {
        self.run(save_tokens(access.to_string(), refresh.to_string(), expires.to_string()))
    }

    fn clear(&mut self) -> Outcome {
        self.run(clear_tokens())
    }
}

fn data_dir() -> PathBuf {
    PathBuf::from(DATA_DIR)
}

fn file() -> PathBuf {
    PathBuf::from(TOKEN_FILE)
}

fn record(access: &str, refresh: &str, expires: &str) -> TokenData {
    TokenData::new(access.to_string(), refresh.to_string(), expires.to_string())
}

fn failed(kind: ErrorKind, message: &str) -> Outcome {
    Outcome::Failed(StoreError::new(kind, message.to_string()))
}

#[test]
fn token_file_is_named_tokens_json() {
    assert_eq!(TOKEN_FILE_NAME, "tokens.json");
    assert_eq!(token_file_in(&data_dir()), file());
    assert_eq!(token_file_in(&PathBuf::from("relative/dir")), Path::new("relative/dir/tokens.json"));
    assert_eq!(token_file_in(&PathBuf::new()), Path::new("tokens.json"));
    assert_eq!(token_file_in(&data_dir()), token_file_in(&data_dir()));
}

#[test]
fn every_file_step_names_the_token_file_of_the_data_dir() {
    let dir = PathBuf::from("/srv/data");
    let expected = PathBuf::from("/srv/data/tokens.json");
    let located = load_tokens().advance(Report::Located(dir.clone()));
    assert_eq!(located, Step::CreateDataDir { command: Command::Load, dir: dir.clone() });
    let probe = located.advance(Report::Done);
    assert_eq!(probe, Step::ProbeToLoad { file: expected.clone() });
    assert_eq!(probe.advance(Report::Present(true)), Step::ReadTokenFile { file: expected.clone() });

    let probe = clear_tokens().advance(Report::Located(dir.clone())).advance(Report::Done);
    assert_eq!(probe, Step::ProbeToClear { file: expected.clone() });
    assert_eq!(
        probe.advance(Report::Present(true)),
        Step::RemoveTokenFile { file: expected.clone() }
    );

    let write = save_tokens("A".into(), "R".into(), "E".into())
        .advance(Report::Located(dir))
        .advance(Report::Done);
    assert_eq!(
        write,
        Step::WriteTokenFile {
            file: expected,
            text: "{\n  \"accessToken\": \"A\",\n  \"refreshToken\": \"R\",\n  \"expiresAt\": \"E\"\n}"
                .to_string()
        }
    );
}

#[test]
fn operations_start_by_locating_the_data_dir() {
    assert_eq!(load_tokens(), Step::LocateDataDir(Command::Load));
    assert_eq!(clear_tokens(), Step::LocateDataDir(Command::Clear));
    assert_eq!(
        save_tokens("A".to_string(), "R".to_string(), "E".to_string()),
        Step::LocateDataDir(Command::Save(record("A", "R", "E")))
    );
}

#[test]
fn fresh_store_saves_loads_and_clears() {
    let mut disk = Disk::default();
    assert_eq!(disk.load(), Outcome::Loaded(None));
    assert_eq!(disk.save("AT1", "RT1", "2025-01-01T00:00:00Z"), Outcome::Saved);
    assert_eq!(
        disk.load(),
        Outcome::Loaded(Some(record("AT1", "RT1", "2025-01-01T00:00:00Z")))
    );
    assert_eq!(disk.clear(), Outcome::Cleared);
    assert_eq!(disk.load(), Outcome::Loaded(None));
}

#[test]
fn save_then_load_gives_the_saved_record() {
    let samples = vec![
        ("AT1", "RT1", "2025-01-01T00:00:00Z"),
        ("", "", ""),
        ("a\"b\\c", "line\nbreak", "\u{1}\u{e9}\u{1f600}"),
        ("{\"accessToken\":\"x\"}", "null", "1735689600"),
    ];
    for (access, refresh, expires) in samples {
        let mut disk = Disk::default();
        assert_eq!(disk.save(access, refresh, expires), Outcome::Saved);
        assert_eq!(disk.load(), Outcome::Loaded(Some(record(access, refresh, expires))));
    }
}

#[test]
fn save_writes_the_encoded_record() {
    let mut disk = Disk::default();
    assert_eq!(disk.save("AT1", "RT1", "E"), Outcome::Saved);
    assert_eq!(disk.trace, vec!["locate", "create", "write"]);
    assert_eq!(
        disk.token_file(),
        Some("{\n  \"accessToken\": \"AT1\",\n  \"refreshToken\": \"RT1\",\n  \"expiresAt\": \"E\"\n}")
    );
    assert_eq!(disk.files.len(), 1);
}

#[test]
fn clear_twice_succeeds_twice() {
    let mut disk = Disk::default();
    assert_eq!(disk.clear(), Outcome::Cleared);
    assert_eq!(disk.trace, vec!["locate", "create", "probe"]);
    assert_eq!(disk.token_file(), None);
    assert_eq!(disk.clear(), Outcome::Cleared);
    assert_eq!(disk.token_file(), None);

    let mut disk = Disk::holding("anything");
    assert_eq!(disk.clear(), Outcome::Cleared);
    assert_eq!(disk.trace, vec!["locate", "create", "probe", "remove"]);
    assert_eq!(disk.token_file(), None);
    assert_eq!(disk.clear(), Outcome::Cleared);
    assert_eq!(disk.trace, vec!["locate", "create", "probe"]);
}

#[test]
fn second_save_leaves_no_trace_of_the_first() {
    let mut disk = Disk::default();
    assert_eq!(disk.save("a-long-first-access-token", "first-refresh", "first"), Outcome::Saved);
    assert_eq!(disk.save("A2", "R2", "E2"), Outcome::Saved);
    assert_eq!(disk.load(), Outcome::Loaded(Some(record("A2", "R2", "E2"))));
    let mut other = Disk::default();
    assert_eq!(other.save("A2", "R2", "E2"), Outcome::Saved);
    assert_eq!(disk.files, other.files);
}

#[test]
fn missing_file_is_no_record_and_bad_file_is_an_error() {
    let mut disk = Disk::default();
    assert_eq!(disk.load(), Outcome::Loaded(None));
    assert_eq!(disk.trace, vec!["locate", "create", "probe"]);

    let mut disk = Disk::holding("not json");
    assert_eq!(disk.load(), failed(ErrorKind::Decode, "expected ident at line 1 column 2"));
    assert_eq!(disk.trace, vec!["locate", "create", "probe", "read"]);
    assert_eq!(disk.token_file(), Some("not json"));

    let mut disk = Disk::holding("");
    assert_eq!(
        disk.load(),
        failed(ErrorKind::Decode, "EOF while parsing a value at line 1 column 0")
    );

    let mut disk = Disk::holding("{\"accessToken\":\"A\"}");
    assert_eq!(disk.load(), failed(ErrorKind::Decode, "missing field `refreshToken`"));
}

#[test]
fn every_operation_creates_the_data_dir() {
    let mut disk = Disk::default();
    assert_eq!(disk.load(), Outcome::Loaded(None));
    assert!(disk.dirs.contains(&data_dir()));
    assert!(disk.dirs.contains(Path::new("/home/user")));
    assert_eq!(disk.trace[..2], ["locate", "create"]);

    let mut disk = Disk::default();
    assert_eq!(disk.save("A", "R", "E"), Outcome::Saved);
    assert!(disk.dirs.contains(&data_dir()));
    assert!(disk.dirs.contains(Path::new("/home/user")));
    assert_eq!(disk.trace[..2], ["locate", "create"]);

    let mut disk = Disk::default();
    assert_eq!(disk.clear(), Outcome::Cleared);
    assert!(disk.dirs.contains(&data_dir()));
    assert!(disk.dirs.contains(Path::new("/home/user")));
    assert_eq!(disk.trace[..2], ["locate", "create"]);
}

#[test]
fn unknown_data_dir_is_a_path_resolution_error() {
    for first in [load_tokens(), save_tokens("A".into(), "R".into(), "E".into()), clear_tokens()] {
        let mut disk = Disk { hidden: true, ..Disk::default() };
        assert_eq!(disk.run(first), failed(ErrorKind::PathResolution, "unknown path"));
        assert_eq!(disk.trace, vec!["locate"]);
        assert!(disk.dirs.is_empty());
    }
}

#[test]
fn data_dir_that_cannot_be_created_is_an_io_error() {
    for first in [load_tokens(), save_tokens("A".into(), "R".into(), "E".into()), clear_tokens()] {
        let mut disk = Disk { read_only: true, ..Disk::default() };
        assert_eq!(disk.run(first), failed(ErrorKind::Io, "permission denied"));
        assert_eq!(disk.trace, vec!["locate", "create"]);
    }
}

#[test]
fn file_that_cannot_be_read_is_an_io_error() {
    let mut disk = Disk { unreadable: true, ..Disk::holding("{}") };
    assert_eq!(disk.load(), failed(ErrorKind::Io, "cannot read"));
}

#[test]
fn file_that_cannot_be_written_is_an_io_error() {
    let mut disk = Disk { read_only: true, ..Disk::holding("old") };
    assert_eq!(disk.save("A", "R", "E"), failed(ErrorKind::Io, "cannot write"));
    assert_eq!(disk.token_file(), Some("old"));
}

#[test]
fn file_that_cannot_be_removed_is_an_io_error() {
    let mut disk = Disk { read_only: true, ..Disk::holding("old") };
    assert_eq!(disk.clear(), failed(ErrorKind::Io, "cannot remove"));
    assert_eq!(disk.token_file(), Some("old"));
}

#[test]
fn probe_that_fails_is_an_io_error() {
    let step = Step::ProbeToLoad { file: file() }.advance(Report::Failed("stat failed".to_string()));
    assert_eq!(step, Step::Finished(failed(ErrorKind::Io, "stat failed")));
    let step =
        Step::ProbeToClear { file: file() }.advance(Report::Failed("stat failed".to_string()));
    assert_eq!(step, Step::Finished(failed(ErrorKind::Io, "stat failed")));
}

#[test]
fn advance_follows_each_step() {
    let save = Command::Save(record("A", "R", "E"));
    assert_eq!(
        Step::LocateDataDir(save.clone()).advance(Report::Located(data_dir())),
        Step::CreateDataDir { command: save.clone(), dir: data_dir() }
    );
    assert_eq!(
        Step::CreateDataDir { command: save, dir: data_dir() }.advance(Report::Done),
        Step::WriteTokenFile {
            file: file(),
            text: "{\n  \"accessToken\": \"A\",\n  \"refreshToken\": \"R\",\n  \"expiresAt\": \"E\"\n}"
                .to_string()
        }
    );
    assert_eq!(
        Step::CreateDataDir { command: Command::Load, dir: data_dir() }.advance(Report::Done),
        Step::ProbeToLoad { file: file() }
    );
    assert_eq!(
        Step::CreateDataDir { command: Command::Clear, dir: data_dir() }.advance(Report::Done),
        Step::ProbeToClear { file: file() }
    );
    assert_eq!(
        Step::ProbeToLoad { file: file() }.advance(Report::Present(true)),
        Step::ReadTokenFile { file: file() }
    );
    assert_eq!(
        Step::ProbeToLoad { file: file() }.advance(Report::Present(false)),
        Step::Finished(Outcome::Loaded(None))
    );
    assert_eq!(
        Step::ProbeToClear { file: file() }.advance(Report::Present(true)),
        Step::RemoveTokenFile { file: file() }
    );
    assert_eq!(
        Step::ProbeToClear { file: file() }.advance(Report::Present(false)),
        Step::Finished(Outcome::Cleared)
    );
    assert_eq!(
        Step::ReadTokenFile { file: file() }.advance(Report::Text(
            "{\"accessToken\":\"A\",\"refreshToken\":\"R\",\"expiresAt\":\"E\"}".to_string()
        )),
        Step::Finished(Outcome::Loaded(Some(record("A", "R", "E"))))
    );
    assert_eq!(
        Step::WriteTokenFile { file: file(), text: "text".to_string() }.advance(Report::Done),
        Step::Finished(Outcome::Saved)
    );
    assert_eq!(
        Step::RemoveTokenFile { file: file() }.advance(Report::Done),
        Step::Finished(Outcome::Cleared)
    );
}

#[test]
fn report_that_answers_another_step_is_an_io_error() {
    let unexpected = || Step::Finished(failed(ErrorKind::Io, "unexpected report"));
    let text = || Report::Text("x".to_string());
    assert_eq!(load_tokens().advance(Report::Done), unexpected());
    assert_eq!(load_tokens().advance(Report::Present(true)), unexpected());
    assert_eq!(load_tokens().advance(text()), unexpected());
    let create = || Step::CreateDataDir { command: Command::Clear, dir: data_dir() };
    assert_eq!(create().advance(Report::Present(false)), unexpected());
    assert_eq!(create().advance(Report::Located(data_dir())), unexpected());
    assert_eq!(Step::ProbeToLoad { file: file() }.advance(Report::Done), unexpected());
    assert_eq!(Step::ProbeToClear { file: file() }.advance(text()), unexpected());
    assert_eq!(Step::ReadTokenFile { file: file() }.advance(Report::Done), unexpected());
    assert_eq!(Step::ReadTokenFile { file: file() }.advance(Report::Present(true)), unexpected());
    assert_eq!(
        Step::WriteTokenFile { file: file(), text: "t".to_string() }
            .advance(Report::Present(true)),
        unexpected()
    );
    assert_eq!(Step::RemoveTokenFile { file: file() }.advance(text()), unexpected());
    assert_eq!(
        Step::RemoveTokenFile { file: file() }.advance(Report::Located(data_dir())),
        unexpected()
    );
}

#[test]
fn finished_operation_stays_finished() {
    for outcome in [
        Outcome::Loaded(None),
        Outcome::Loaded(Some(record("A", "R", "E"))),
        Outcome::Saved,
        Outcome::Cleared,
        failed(ErrorKind::Encode, "the record does not survive decoding"),
    ] {
        for report in [
            Report::Located(data_dir()),
            Report::Done,
            Report::Present(true),
            Report::Text("x".to_string()),
            Report::Failed("late".to_string()),
        ] {
            assert_eq!(
                Step::Finished(outcome.clone()).advance(report),
                Step::Finished(outcome.clone())
            );
        }
    }
}
