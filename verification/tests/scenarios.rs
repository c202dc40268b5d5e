use portable_store::protocol::{Answer, Failure, Output, Request, Step, StoreError};
use portable_store::session::{
    export_user_json, get_data_dir, import_user_json, load_user_json, save_user_json,
};
use std::collections::{BTreeMap, BTreeSet};
use std::path::Path;

/// A machine in memory: it answers each call as a file system would.
struct Machine {
    exe: Option<String>,
    dirs: BTreeSet<String>,
    files: BTreeMap<String, Vec<u8>>,
    sync_fails: bool,
    calls: Vec<Request<String>>,
}

fn gone() -> Answer<String> {
    Answer::Failed(Failure {
        not_found: true,
        cause: "No such file or directory (os error 2)".to_string(),
    })
}

fn refused(cause: &str) -> Answer<String> {
    Answer::Failed(Failure { not_found: false, cause: cause.to_string() })
}

impl Machine {
    fn new(exe: &str) -> Machine {
        Machine {
            exe: Some(exe.to_string()),
            dirs: BTreeSet::new(),
            files: BTreeMap::new(),
            sync_fails: false,
            calls: Vec::new(),
        }
    }

    fn parent_exists(&self, path: &str) -> bool {
        match Path::new(path).parent() {
            Some(parent) => {
                let parent = parent.to_string_lossy().into_owned();
                parent.is_empty() || self.dirs.contains(&parent)
            }
            None => true,
        }
    }

    fn answer(&mut self, request: &Request<String>) -> Answer<String> {
        self.calls.push(request.clone());
        match request {
            Request::CurrentExe => match &self.exe {
                Some(exe) => Answer::Text(exe.clone()),
                None => refused("no executable"),
            },
            Request::CreateDirAll { path } => {
                let mut dir = Some(Path::new(path));
                while let Some(d) = dir {
                    self.dirs.insert(d.to_string_lossy().into_owned());
                    dir = d.parent();
                }
                Answer::Done
            }
            Request::CreateFile { path } => {
                if !self.parent_exists(path) {
                    return gone();
                }
                self.files.insert(path.clone(), Vec::new());
                Answer::Done
            }
            Request::WriteAll { path, contents } => match self.files.get_mut(path) {
                Some(bytes) => {
                    bytes.extend_from_slice(contents.as_bytes());
                    Answer::Done
                }
                None => refused("the file is not open"),
            },
            Request::SyncAll { .. } => {
                if self.sync_fails {
                    refused("sync is not supported")
                } else {
                    Answer::Done
                }
            }
            Request::Rename { from, to } => match self.files.remove(from) {
                Some(bytes) => {
                    self.files.insert(to.clone(), bytes);
                    Answer::Done
                }
                None => gone(),
            },
            Request::ReadToString { path } => match self.files.get(path) {
                Some(bytes) => match String::from_utf8(bytes.clone()) {
                    Ok(text) => Answer::Text(text),
                    Err(_) => refused("stream did not contain valid UTF-8"),
                },
                None => gone(),
            },
            Request::Copy { from, to } => match self.files.get(from) {
                Some(bytes) => {
                    if !self.parent_exists(to) {
                        return gone();
                    }
                    let bytes = bytes.clone();
                    self.files.insert(to.clone(), bytes);
                    Answer::Done
                }
                None => gone(),
            },
        }
    }

    /// Runs a command to its end.
    fn run(&mut self, mut step: Step<String>) -> Result<Output<String>, StoreError<String>> {
        loop {
            match step {
                Step::Ask { request, session } => {
                    let answer = self.answer(&request);
                    step = session.next(answer);
                }
                Step::Finish { result } => return result,
            }
        }
    }

    /// Runs a command for at most `calls` calls, as if the process stopped
    /// there.
    fn run_for(&mut self, mut step: Step<String>, calls: usize) {
        for _ in 0..calls {
            match step {
                Step::Ask { request, session } => {
                    let answer = self.answer(&request);
                    step = session.next(answer);
                }
                Step::Finish { .. } => return,
            }
        }
    }

    fn save(&mut self, name: &str, contents: &str) -> Result<Output<String>, StoreError<String>> {
        self.run(save_user_json(name.to_string(), contents.to_string()))
    }

    fn load(&mut self, name: &str) -> Result<Output<String>, StoreError<String>> {
        self.run(load_user_json(name.to_string()))
    }
}

const EXE: &str = "/media/stick/app/tool";

fn loaded(text: &str) -> Result<Output<String>, StoreError<String>> {
    Ok(Output::Text(text.to_string()))
}

#[test]
fn save_then_load_then_get_data_dir() {
    let mut machine = Machine::new(EXE);
    assert!(machine.files.is_empty());
    assert_eq!(machine.save("settings.json", "{\"a\":1}"), Ok(Output::Unit));
    assert_eq!(machine.load("settings.json"), loaded("{\"a\":1}"));
    match machine.run(get_data_dir()) {
        Ok(Output::Text(dir)) => {
            assert!(dir.ends_with("/data"));
            assert_eq!(dir, "/media/stick/app/data");
            assert!(machine.dirs.contains(&dir));
        }
        other => panic!("unexpected result {:?}", other),
    }
    assert_eq!(
        machine.files.keys().collect::<Vec<_>>(),
        vec!["/media/stick/app/data/settings.json"]
    );
}

#[test]
fn round_trip_of_any_text() {
    let large = "{\"k\":\"värde ✓\"}\n".repeat(200_000);
    assert!(large.len() > 3_000_000);
    let texts = ["", " ", "{\"a\":1}", "not json at all", "\u{0}\u{7f}\r\n\t", large.as_str()];
    for text in texts {
        let mut machine = Machine::new(EXE);
        assert_eq!(machine.save("doc.json", text), Ok(Output::Unit));
        assert_eq!(machine.load("doc.json"), loaded(text));
        assert_eq!(machine.files["/media/stick/app/data/doc.json"], text.as_bytes());
    }
}

#[test]
fn the_second_save_wins() {
    let mut machine = Machine::new(EXE);
    assert_eq!(machine.save("doc.json", "first, and longer"), Ok(Output::Unit));
    assert_eq!(machine.save("doc.json", "second"), Ok(Output::Unit));
    assert_eq!(machine.load("doc.json"), loaded("second"));
    assert_eq!(machine.files.len(), 1);
}

#[test]
fn load_of_a_missing_document_fails_with_not_found() {
    let mut machine = Machine::new(EXE);
    match machine.load("nonexistent.json") {
        Err(StoreError::NotFound { message }) => {
            assert_eq!(
                message,
                "read \"/media/stick/app/data/nonexistent.json\": No such file or directory (os error 2)"
            );
        }
        other => panic!("unexpected result {:?}", other),
    }
    assert!(machine.files.is_empty());
}

#[test]
fn export_then_import_then_load() {
    let mut machine = Machine::new(EXE);
    assert_eq!(machine.save("a.json", "{\"kept\":true}"), Ok(Output::Unit));
    let path = "/home/me/backup/a.json";
    assert_eq!(
        machine.run(export_user_json("a.json".to_string(), path.to_string())),
        Ok(Output::Unit)
    );
    assert_eq!(machine.files[path], b"{\"kept\":true}");
    assert_eq!(
        machine.run(import_user_json("b.json".to_string(), path.to_string())),
        Ok(Output::Unit)
    );
    assert_eq!(machine.load("b.json"), loaded("{\"kept\":true}"));
    assert_eq!(machine.load("a.json"), loaded("{\"kept\":true}"));
}

#[test]
fn export_of_a_missing_document_fails_with_not_found() {
    let mut machine = Machine::new(EXE);
    match machine.run(export_user_json("a.json".to_string(), "/home/me/a.json".to_string())) {
        Err(StoreError::NotFound { .. }) => {}
        other => panic!("unexpected result {:?}", other),
    }
    assert!(machine.files.is_empty());
}

#[test]
fn import_of_a_file_that_is_not_text_fails_and_keeps_the_document() {
    let mut machine = Machine::new(EXE);
    assert_eq!(machine.save("a.json", "old"), Ok(Output::Unit));
    machine.files.insert("/home/me/in.bin".to_string(), vec![0xff, 0xfe]);
    match machine.run(import_user_json("a.json".to_string(), "/home/me/in.bin".to_string())) {
        Err(StoreError::Io { message }) => {
            assert_eq!(message, "read \"/home/me/in.bin\": stream did not contain valid UTF-8")
        }
        other => panic!("unexpected result {:?}", other),
    }
    assert_eq!(machine.load("a.json"), loaded("old"));
}

#[test]
fn an_existing_data_directory_changes_nothing() {
    let mut machine = Machine::new(EXE);
    assert_eq!(machine.save("a.json", "a"), Ok(Output::Unit));
    assert_eq!(machine.save("b.json", "b"), Ok(Output::Unit));
    let files = machine.files.clone();
    assert_eq!(machine.run(get_data_dir()), loaded("/media/stick/app/data"));
    assert_eq!(machine.load("a.json"), loaded("a"));
    assert_eq!(
        machine.run(export_user_json("a.json".to_string(), "/media/stick/app/data/a.json".to_string())),
        Ok(Output::Unit)
    );
    assert_eq!(machine.files, files);
}

#[test]
fn a_deleted_data_directory_is_made_again() {
    let mut machine = Machine::new(EXE);
    assert_eq!(machine.save("a.json", "a"), Ok(Output::Unit));
    machine.dirs.clear();
    machine.files.clear();
    assert_eq!(machine.save("b.json", "b"), Ok(Output::Unit));
    assert!(machine.dirs.contains("/media/stick/app/data"));
    assert_eq!(machine.load("b.json"), loaded("b"));
    machine.dirs.clear();
    machine.files.clear();
    match machine.load("b.json") {
        Err(StoreError::NotFound { .. }) => {}
        other => panic!("unexpected result {:?}", other),
    }
    assert!(machine.dirs.contains("/media/stick/app/data"));
}

#[test]
fn every_command_finds_the_data_directory_anew() {
    let mut machine = Machine::new(EXE);
    assert_eq!(machine.run(get_data_dir()), loaded("/media/stick/app/data"));
    machine.exe = Some("/elsewhere/bin/tool".to_string());
    assert_eq!(machine.run(get_data_dir()), loaded("/elsewhere/bin/data"));
    machine.exe = None;
    assert_eq!(
        machine.run(get_data_dir()),
        Err(StoreError::PathResolution { message: "current_exe: no executable".to_string() })
    );
}

#[test]
fn an_interrupted_save_leaves_the_document_as_it_was() {
    // A save takes seven calls; stop it after each number of calls short of
    // that, on a machine with the document and on one without.
    for calls in 0..7 {
        let mut machine = Machine::new(EXE);
        assert_eq!(machine.save("doc.json", "the old text"), Ok(Output::Unit));
        machine.run_for(save_user_json("doc.json".to_string(), "new".to_string()), calls);
        assert_eq!(machine.load("doc.json"), loaded("the old text"));

        let mut fresh = Machine::new(EXE);
        fresh.run_for(save_user_json("doc.json".to_string(), "new".to_string()), calls);
        match fresh.load("doc.json") {
            Err(StoreError::NotFound { .. }) => {}
            other => panic!("unexpected result after {} calls: {:?}", calls, other),
        }
    }
    let mut machine = Machine::new(EXE);
    assert_eq!(machine.save("doc.json", "the old text"), Ok(Output::Unit));
    machine.run_for(save_user_json("doc.json".to_string(), "new".to_string()), 7);
    assert_eq!(machine.load("doc.json"), loaded("new"));
}

#[test]
fn an_interrupted_save_under_a_name_that_ends_in_tmp_leaves_the_document_as_it_was() {
    for calls in 0..7 {
        let mut machine = Machine::new(EXE);
        assert_eq!(machine.save("doc.tmp", "the old text"), Ok(Output::Unit));
        machine.run_for(save_user_json("doc.tmp".to_string(), "new".to_string()), calls);
        assert_eq!(machine.load("doc.tmp"), loaded("the old text"));
        assert_eq!(machine.files["/media/stick/app/data/doc.tmp"], b"the old text");
    }
    let mut machine = Machine::new(EXE);
    assert_eq!(machine.save("doc.tmp", "the old text"), Ok(Output::Unit));
    assert_eq!(machine.save("doc.tmp", "new"), Ok(Output::Unit));
    assert_eq!(machine.load("doc.tmp"), loaded("new"));
    assert_eq!(machine.files.len(), 1);
}

#[test]
fn a_failed_write_leaves_the_document_as_it_was() {
    for name in ["doc.json", "doc.tmp"] {
        let mut machine = Machine::new(EXE);
        assert_eq!(machine.save(name, "the old text"), Ok(Output::Unit));
        // Six calls bring a save to its rename; without the temporary file
        // the rename fails.
        let step = save_user_json(name.to_string(), "new".to_string());
        let mut step = step;
        for _ in 0..6 {
            step = match step {
                Step::Ask { request, session } => {
                    let answer = machine.answer(&request);
                    session.next(answer)
                }
                done => done,
            };
        }
        machine.files.retain(|path, _| !path.ends_with(".tmp.tmp") && path.ends_with(name));
        match machine.run(step) {
            Err(StoreError::Io { .. }) => {}
            other => panic!("unexpected result {:?}", other),
        }
        assert_eq!(machine.load(name), loaded("the old text"));
    }
}

#[test]
fn a_name_that_leaves_the_data_directory_changes_nothing() {
    let mut machine = Machine::new("/app/app");
    for dir in ["/", "/app", "/app/data"] {
        machine.dirs.insert(dir.to_string());
    }
    let dirs = machine.dirs.clone();
    let result = machine.save("../escape.json", "x");
    assert_eq!(
        result,
        Err(StoreError::InvalidName {
            message: "name \"../escape.json\": outside the data directory".to_string(),
        })
    );
    assert!(machine.files.is_empty());
    assert_eq!(machine.dirs, dirs);
    assert_eq!(
        machine.calls,
        vec![Request::CurrentExe, Request::CreateDirAll { path: "/app/data".to_string() }]
    );
    for name in ["../escape.json", "/etc/passwd", "a/../../b", "C:\\x"] {
        assert!(matches!(machine.load(name), Err(StoreError::InvalidName { .. })));
        assert!(matches!(
            machine.run(export_user_json(name.to_string(), "/tmp/o".to_string())),
            Err(StoreError::InvalidName { .. })
        ));
        assert!(matches!(
            machine.run(import_user_json(name.to_string(), "/tmp/i".to_string())),
            Err(StoreError::InvalidName { .. })
        ));
    }
    assert!(machine.files.is_empty());
}

#[test]
fn a_save_whose_sync_fails_still_succeeds() {
    let mut machine = Machine::new(EXE);
    machine.sync_fails = true;
    assert_eq!(machine.save("doc.json", "text"), Ok(Output::Unit));
    assert_eq!(machine.load("doc.json"), loaded("text"));
    assert!(machine.calls.contains(&Request::SyncAll {
        path: "/media/stick/app/data/doc.tmp".to_string()
    }));
}

#[test]
fn a_stale_temporary_file_is_overwritten() {
    let mut machine = Machine::new(EXE);
    machine.run_for(save_user_json("doc.json".to_string(), "half".to_string()), 5);
    assert_eq!(machine.files["/media/stick/app/data/doc.tmp"], b"half");
    assert_eq!(machine.save("doc.json", "whole"), Ok(Output::Unit));
    assert_eq!(machine.load("doc.json"), loaded("whole"));
    assert!(!machine.files.contains_key("/media/stick/app/data/doc.tmp"));
}

#[test]
fn a_save_makes_its_calls_in_order() {
    let mut machine = Machine::new(EXE);
    assert_eq!(machine.save("sub/doc.json", "x"), Ok(Output::Unit));
    let path = |s: &str| s.to_string();
    assert_eq!(
        machine.calls,
        vec![
            Request::CurrentExe,
            Request::CreateDirAll { path: path("/media/stick/app/data") },
            Request::CreateDirAll { path: path("/media/stick/app/data/sub") },
            Request::CreateFile { path: path("/media/stick/app/data/sub/doc.tmp") },
            Request::WriteAll {
                path: path("/media/stick/app/data/sub/doc.tmp"),
                contents: path("x"),
            },
            Request::SyncAll { path: path("/media/stick/app/data/sub/doc.tmp") },
            Request::Rename {
                from: path("/media/stick/app/data/sub/doc.tmp"),
                to: path("/media/stick/app/data/sub/doc.json"),
            },
        ]
    );
}
