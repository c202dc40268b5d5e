//! The state machine as mathematics: what each command asks for, in which
//! order, and how it ends. The executable machine in `session` is proved to
//! compute exactly these functions.

use crate::names::confined;
use crate::paths::{data_dir_of, debug_text, document_path, parent_of, temp_sibling};
use crate::protocol::{Answer, Command, Failure, Output, Request, Session, Step, StoreError};
use vstd::prelude::*;

verus! {

/// The message for a failed call that takes no path.
pub open spec fn message_plain(call: Seq<char>, cause: Seq<char>) -> Seq<char> {
    call + ": "@ + cause
}

/// The message for a failed call on `path`.
pub open spec fn message_on(call: Seq<char>, path: Seq<char>, cause: Seq<char>) -> Seq<char> {
    call + " "@ + debug_text(path) + ": "@ + cause
}

/// The message for a failed call that takes something from `from` to `to`.
pub open spec fn message_between(
    call: Seq<char>,
    from: Seq<char>,
    to: Seq<char>,
    cause: Seq<char>,
) -> Seq<char> {
    call + " "@ + debug_text(from) + " to "@ + debug_text(to) + ": "@ + cause
}

/// Whether `text` ends with `end`.
pub open spec fn ends_with(text: Seq<char>, end: Seq<char>) -> bool {
    &&& end.len() <= text.len()
    &&& text.subrange(text.len() - end.len(), text.len() as int) == end
}

/// Whether `part` stands somewhere in `text`.
pub open spec fn holds(text: Seq<char>, part: Seq<char>) -> bool {
    exists|at: int|
        0 <= at && at + part.len() <= text.len() && #[trigger] text.subrange(
            at,
            at + part.len(),
        ) == part
}

/// The paths that the call a session waits for is made on.
pub open spec fn awaited_paths(session: Session<Seq<char>>) -> Seq<Seq<char>> {
    match session {
        Session::ResolvingExe { command } => seq![],
        Session::CreatingDataDir { command, base } => seq![base],
        Session::Reading { path } => seq![path],
        Session::ReadingSource { source, path } => seq![source],
        Session::EnsuringParent { parent, path, tmp, contents } => seq![parent],
        Session::Creating { path, tmp, contents } => seq![tmp],
        Session::Writing { path, tmp } => seq![tmp],
        Session::Syncing { path, tmp } => seq![tmp],
        Session::Renaming { path, tmp } => seq![tmp, path],
        Session::EnsuringDestination { parent, source, dest } => seq![parent],
        Session::Copying { source, dest } => seq![source, dest],
    }
}

/// How a command ends when the driver's answer does not fit the request.
pub open spec fn misfit() -> Step<Seq<char>> {
    Step::Finish { result: Err(StoreError::Io { message: "unexpected answer"@ }) }
}

/// The error that a missing document, or another failure to reach it, ends
/// in.
pub open spec fn document_error(failure: Failure<Seq<char>>, message: Seq<char>) -> StoreError<
    Seq<char>,
> {
    if failure.not_found {
        StoreError::NotFound { message }
    } else {
        StoreError::Io { message }
    }
}

/// Every command begins by asking where the executable is.
pub open spec fn start(command: Command<Seq<char>>) -> Step<Seq<char>> {
    Step::Ask { request: Request::CurrentExe, session: Session::ResolvingExe { command } }
}

/// The directory that has to be there before `path` can be written: its
/// parent, where it has one.
pub open spec fn ensure_parent(path: Seq<char>) -> Option<Seq<char>> {
    parent_of(path)
}

/// The first step of an atomic write of `contents` to `path`: to create the
/// directory for it or, where it needs none, the temporary file.
pub open spec fn atomic_write(path: Seq<char>, contents: Seq<char>) -> Step<Seq<char>> {
    let tmp = temp_sibling(path);
    match ensure_parent(path) {
        Some(parent) => Step::Ask {
            request: Request::CreateDirAll { path: parent },
            session: Session::EnsuringParent { parent, path, tmp, contents },
        },
        None => Step::Ask {
            request: Request::CreateFile { path: tmp },
            session: Session::Creating { path, tmp, contents },
        },
    }
}

/// The first step of an export of `source` to `dest`: to create the
/// directory for `dest` or, where it needs none, to copy.
pub open spec fn export_to(source: Seq<char>, dest: Seq<char>) -> Step<Seq<char>> {
    match ensure_parent(dest) {
        Some(parent) => Step::Ask {
            request: Request::CreateDirAll { path: parent },
            session: Session::EnsuringDestination { parent, source, dest },
        },
        None => Step::Ask {
            request: Request::Copy { from: source, to: dest },
            session: Session::Copying { source, dest },
        },
    }
}

/// How a command ends whose document has a name that is not confined to the
/// data directory.
pub open spec fn rejected(name: Seq<char>) -> Step<Seq<char>> {
    Step::Finish {
        result: Err(
            StoreError::InvalidName {
                message: message_on("name"@, name, "outside the data directory"@),
            },
        ),
    }
}

/// The name of the document that `command` is about, where it is about one.
pub open spec fn name_of(command: Command<Seq<char>>) -> Option<Seq<char>> {
    match command {
        Command::Load { name } => Some(name),
        Command::Save { name, contents } => Some(name),
        Command::Export { name, dest_path } => Some(name),
        Command::Import { name, src_path } => Some(name),
        Command::GetDataDir => None,
    }
}

/// What `command` does once the data directory `base` is there. A name that
/// is not confined to the data directory ends the command here, before it is
/// joined to anything and before any file is asked for.
pub open spec fn resolved(command: Command<Seq<char>>, base: Seq<char>) -> Step<Seq<char>> {
    match command {
        Command::Load { name } => if confined(name) {
            Step::Ask {
                request: Request::ReadToString { path: document_path(base, name) },
                session: Session::Reading { path: document_path(base, name) },
            }
        } else {
            rejected(name)
        },
        Command::Save { name, contents } => if confined(name) {
            atomic_write(document_path(base, name), contents)
        } else {
            rejected(name)
        },
        Command::Export { name, dest_path } => if confined(name) {
            export_to(document_path(base, name), dest_path)
        } else {
            rejected(name)
        },
        Command::Import { name, src_path } => if confined(name) {
            Step::Ask {
                request: Request::ReadToString { path: src_path },
                session: Session::ReadingSource {
                    source: src_path,
                    path: document_path(base, name),
                },
            }
        } else {
            rejected(name)
        },
        Command::GetDataDir => Step::Finish { result: Ok(Output::Text(base)) },
    }
}

/// The step that `session` takes when the call it waits for is answered by
/// `answer`.
///
/// A failure ends the command with an error that names the call, its path and
/// the cause, with one exception: a sync that fails is passed over, and the
/// rename follows as if it had succeeded. An answer of the wrong kind ends the
/// command as well.
pub open spec fn next(session: Session<Seq<char>>, answer: Answer<Seq<char>>) -> Step<Seq<char>> {
    match session {
        Session::ResolvingExe { command } => match answer {
            Answer::Text(exe) => Step::Ask {
                request: Request::CreateDirAll { path: data_dir_of(exe) },
                session: Session::CreatingDataDir { command, base: data_dir_of(exe) },
            },
            Answer::Failed(failure) => Step::Finish {
                result: Err(
                    StoreError::PathResolution {
                        message: message_plain("current_exe"@, failure.cause),
                    },
                ),
            },
            Answer::Done => misfit(),
        },
        Session::CreatingDataDir { command, base } => match answer {
            Answer::Done => resolved(command, base),
            Answer::Failed(failure) => Step::Finish {
                result: Err(
                    StoreError::PathResolution {
                        message: message_on("create_dir_all"@, base, failure.cause),
                    },
                ),
            },
            Answer::Text(_) => misfit(),
        },
        Session::Reading { path } => match answer {
            Answer::Text(text) => Step::Finish { result: Ok(Output::Text(text)) },
            Answer::Failed(failure) => Step::Finish {
                result: Err(document_error(failure, message_on("read"@, path, failure.cause))),
            },
            Answer::Done => misfit(),
        },
        Session::ReadingSource { source, path } => match answer {
            Answer::Text(text) => atomic_write(path, text),
            Answer::Failed(failure) => Step::Finish {
                result: Err(
                    StoreError::Io { message: message_on("read"@, source, failure.cause) },
                ),
            },
            Answer::Done => misfit(),
        },
        Session::EnsuringParent { parent, path, tmp, contents } => match answer {
            Answer::Done => Step::Ask {
                request: Request::CreateFile { path: tmp },
                session: Session::Creating { path, tmp, contents },
            },
            Answer::Failed(failure) => Step::Finish {
                result: Err(
                    StoreError::Io {
                        message: message_on("create_dir_all"@, parent, failure.cause),
                    },
                ),
            },
            Answer::Text(_) => misfit(),
        },
        Session::Creating { path, tmp, contents } => match answer {
            Answer::Done => Step::Ask {
                request: Request::WriteAll { path: tmp, contents },
                session: Session::Writing { path, tmp },
            },
            Answer::Failed(failure) => Step::Finish {
                result: Err(StoreError::Io { message: message_on("create"@, tmp, failure.cause) }),
            },
            Answer::Text(_) => misfit(),
        },
        Session::Writing { path, tmp } => match answer {
            Answer::Done => Step::Ask {
                request: Request::SyncAll { path: tmp },
                session: Session::Syncing { path, tmp },
            },
            Answer::Failed(failure) => Step::Finish {
                result: Err(StoreError::Io { message: message_on("write"@, tmp, failure.cause) }),
            },
            Answer::Text(_) => misfit(),
        },
        Session::Syncing { path, tmp } => match answer {
            Answer::Done | Answer::Failed(_) => Step::Ask {
                request: Request::Rename { from: tmp, to: path },
                session: Session::Renaming { path, tmp },
            },
            Answer::Text(_) => misfit(),
        },
        Session::Renaming { path, tmp } => match answer {
            Answer::Done => Step::Finish { result: Ok(Output::Unit) },
            Answer::Failed(failure) => Step::Finish {
                result: Err(
                    StoreError::Io {
                        message: message_between("rename"@, tmp, path, failure.cause),
                    },
                ),
            },
            Answer::Text(_) => misfit(),
        },
        Session::EnsuringDestination { parent, source, dest } => match answer {
            Answer::Done => Step::Ask {
                request: Request::Copy { from: source, to: dest },
                session: Session::Copying { source, dest },
            },
            Answer::Failed(failure) => Step::Finish {
                result: Err(
                    StoreError::Io {
                        message: message_on("create_dir_all"@, parent, failure.cause),
                    },
                ),
            },
            Answer::Text(_) => misfit(),
        },
        Session::Copying { source, dest } => match answer {
            Answer::Done => Step::Finish { result: Ok(Output::Unit) },
            Answer::Failed(failure) => Step::Finish {
                result: Err(
                    document_error(
                        failure,
                        message_between("copy"@, source, dest, failure.cause),
                    ),
                ),
            },
            Answer::Text(_) => misfit(),
        },
    }
}

} // verus!
