//! The state machine in executable form. It makes no call to the system: it
//! names the call, and takes the answer.

use crate::model;
use crate::names::is_confined;
use crate::paths::{data_dir_beside, path_debug, path_join, path_parent, temp_beside};
use crate::protocol::{Answer, Command, Failure, Output, Request, Session, Step, StoreError};
use vstd::prelude::*;

verus! {

/// Builds the message for a failed call that takes no path.
pub fn message_plain(call: &str, cause: &str) -> (message: String)
    ensures
        message@ == model::message_plain(call@, cause@),
{
    let mut message = String::from_str(call);
    message.append(": ");
    message.append(cause);
    message
}

/// Builds the message for a failed call on `path`.
pub fn message_on(call: &str, path: &str, cause: &str) -> (message: String)
    ensures
        message@ == model::message_on(call@, path@, cause@),
{
    let quoted = path_debug(path);
    let mut message = String::from_str(call);
    message.append(" ");
    message.append(quoted.as_str());
    message.append(": ");
    message.append(cause);
    message
}

/// Builds the message for a failed call that takes something from `from` to
/// `to`.
pub fn message_between(call: &str, from: &str, to: &str, cause: &str) -> (message: String)
    ensures
        message@ == model::message_between(call@, from@, to@, cause@),
{
    let quoted_from = path_debug(from);
    let quoted_to = path_debug(to);
    let mut message = String::from_str(call);
    message.append(" ");
    message.append(quoted_from.as_str());
    message.append(" to ");
    message.append(quoted_to.as_str());
    message.append(": ");
    message.append(cause);
    message
}

/// Ends a command on an answer that does not fit the request.
pub fn misfit() -> (step: Step<String>)
    ensures
        step@ == model::misfit(),
{
    Step::Finish { result: Err(StoreError::Io { message: String::from_str("unexpected answer") }) }
}

/// Tells a missing document from any other failure to reach it.
pub fn document_error(failure: &Failure<String>, message: String) -> (error: StoreError<String>)
    ensures
        error@ == model::document_error(failure@, message@),
{
    if failure.not_found {
        StoreError::NotFound { message }
    } else {
        StoreError::Io { message }
    }
}

/// Begins `command`: whatever it is, it first asks where the executable is,
/// so that the data directory is found anew each time.
pub fn start(command: Command<String>) -> (step: Step<String>)
    ensures
        step@ == model::start(command@),
{
    Step::Ask { request: Request::CurrentExe, session: Session::ResolvingExe { command } }
}

/// Begins the command that reads the document `name`.
pub fn load_user_json(name: String) -> (step: Step<String>)
    ensures
        step@ == model::start(Command::Load { name: name@ }),
{
    start(Command::Load { name })
}

/// Begins the command that replaces the document `name` by `contents`.
pub fn save_user_json(name: String, contents: String) -> (step: Step<String>)
    ensures
        step@ == model::start(Command::Save { name: name@, contents: contents@ }),
{
    start(Command::Save { name, contents })
}

/// Begins the command that copies the document `name` to `dest_path`.
pub fn export_user_json(name: String, dest_path: String) -> (step: Step<String>)
    ensures
        step@ == model::start(Command::Export { name: name@, dest_path: dest_path@ }),
{
    start(Command::Export { name, dest_path })
}

/// Begins the command that replaces the document `name` by the text of the
/// file at `src_path`.
pub fn import_user_json(name: String, src_path: String) -> (step: Step<String>)
    ensures
        step@ == model::start(Command::Import { name: name@, src_path: src_path@ }),
{
    start(Command::Import { name, src_path })
}

/// Begins the command that tells where the documents are kept.
pub fn get_data_dir() -> (step: Step<String>)
    ensures
        step@ == model::start(Command::GetDataDir),
{
    start(Command::GetDataDir)
}

/// Goes on from the answer to `CurrentExe`: with the executable's path, asks
/// for the data directory beside it to be created.
pub fn user_data_dir(command: Command<String>, answer: Answer<String>) -> (step: Step<String>)
    ensures
        step@ == model::next(Session::ResolvingExe { command: command@ }, answer@),
{
    match answer {
        Answer::Text(exe) => {
            let base = data_dir_beside(exe.as_str());
            Step::Ask {
                request: Request::CreateDirAll { path: base.clone() },
                session: Session::CreatingDataDir { command, base },
            }
        },
        Answer::Failed(failure) => Step::Finish {
            result: Err(
                StoreError::PathResolution {
                    message: message_plain("current_exe", failure.cause.as_str()),
                },
            ),
        },
        Answer::Done => misfit(),
    }
}

/// Finds the directory that has to be there before `path` can be written.
pub fn ensure_parent(path: &str) -> (parent: Option<String>)
    ensures
        match parent {
            Some(dir) => model::ensure_parent(path@) == Some(dir@),
            None => model::ensure_parent(path@).is_none(),
        },
{
    path_parent(path)
}

/// Begins an atomic write of `contents` to `path`.
pub fn atomic_write(path: String, contents: String) -> (step: Step<String>)
    ensures
        step@ == model::atomic_write(path@, contents@),
{
    let tmp = temp_beside(&path);
    match ensure_parent(path.as_str()) {
        Some(parent) => Step::Ask {
            request: Request::CreateDirAll { path: parent.clone() },
            session: Session::EnsuringParent { parent, path, tmp, contents },
        },
        None => Step::Ask {
            request: Request::CreateFile { path: tmp.clone() },
            session: Session::Creating { path, tmp, contents },
        },
    }
}

/// Begins an export of `source` to `dest`.
pub fn export_to(source: String, dest: String) -> (step: Step<String>)
    ensures
        step@ == model::export_to(source@, dest@),
{
    match ensure_parent(dest.as_str()) {
        Some(parent) => Step::Ask {
            request: Request::CreateDirAll { path: parent.clone() },
            session: Session::EnsuringDestination { parent, source, dest },
        },
        None => Step::Ask {
            request: Request::Copy { from: source.clone(), to: dest.clone() },
            session: Session::Copying { source, dest },
        },
    }
}

/// Ends a command whose document has a name that is not confined to the data
/// directory.
pub fn rejected(name: &str) -> (step: Step<String>)
    ensures
        step@ == model::rejected(name@),
{
    Step::Finish {
        result: Err(
            StoreError::InvalidName {
                message: message_on("name", name, "outside the data directory"),
            },
        ),
    }
}

/// Goes on with `command` once the data directory `base` is there: with the
/// first call on its document, or to its end where the name is refused.
pub fn resolved(command: Command<String>, base: String) -> (step: Step<String>)
    ensures
        step@ == model::resolved(command@, base@),
{
    match command {
        Command::Load { name } => {
            if !is_confined(name.as_str()) {
                return rejected(name.as_str());
            }
            let path = path_join(base.as_str(), name.as_str());
            Step::Ask {
                request: Request::ReadToString { path: path.clone() },
                session: Session::Reading { path },
            }
        },
        Command::Save { name, contents } => {
            if !is_confined(name.as_str()) {
                return rejected(name.as_str());
            }
            atomic_write(path_join(base.as_str(), name.as_str()), contents)
        },
        Command::Export { name, dest_path } => {
            if !is_confined(name.as_str()) {
                return rejected(name.as_str());
            }
            export_to(path_join(base.as_str(), name.as_str()), dest_path)
        },
        Command::Import { name, src_path } => {
            if !is_confined(name.as_str()) {
                return rejected(name.as_str());
            }
            let path = path_join(base.as_str(), name.as_str());
            Step::Ask {
                request: Request::ReadToString { path: src_path.clone() },
                session: Session::ReadingSource { source: src_path, path },
            }
        },
        Command::GetDataDir => Step::Finish { result: Ok(Output::Text(base)) },
    }
}

impl Session<String> {
    /// Takes the answer to the call that the session waits for, and says what
    /// comes next.
    pub fn next(self, answer: Answer<String>) -> (step: Step<String>)
        ensures
            step@ == model::next(self@, answer@),
    {
        match self {
            Session::ResolvingExe { command } => user_data_dir(command, answer),
            Session::CreatingDataDir { command, base } => match answer {
                Answer::Done => resolved(command, base),
                Answer::Failed(failure) => Step::Finish {
                    result: Err(
                        StoreError::PathResolution {
                            message: message_on(
                                "create_dir_all",
                                base.as_str(),
                                failure.cause.as_str(),
                            ),
                        },
                    ),
                },
                Answer::Text(_) => misfit(),
            },
            Session::Reading { path } => match answer {
                Answer::Text(text) => Step::Finish { result: Ok(Output::Text(text)) },
                Answer::Failed(failure) => {
                    let message = message_on("read", path.as_str(), failure.cause.as_str());
                    Step::Finish { result: Err(document_error(&failure, message)) }
                },
                Answer::Done => misfit(),
            },
            Session::ReadingSource { source, path } => match answer {
                Answer::Text(text) => atomic_write(path, text),
                Answer::Failed(failure) => Step::Finish {
                    result: Err(
                        StoreError::Io {
                            message: message_on("read", source.as_str(), failure.cause.as_str()),
                        },
                    ),
                },
                Answer::Done => misfit(),
            },
            Session::EnsuringParent { parent, path, tmp, contents } => match answer {
                Answer::Done => Step::Ask {
                    request: Request::CreateFile { path: tmp.clone() },
                    session: Session::Creating { path, tmp, contents },
                },
                Answer::Failed(failure) => Step::Finish {
                    result: Err(
                        StoreError::Io {
                            message: message_on(
                                "create_dir_all",
                                parent.as_str(),
                                failure.cause.as_str(),
                            ),
                        },
                    ),
                },
                Answer::Text(_) => misfit(),
            },
            Session::Creating { path, tmp, contents } => match answer {
                Answer::Done => Step::Ask {
                    request: Request::WriteAll { path: tmp.clone(), contents },
                    session: Session::Writing { path, tmp },
                },
                Answer::Failed(failure) => Step::Finish {
                    result: Err(
                        StoreError::Io {
                            message: message_on("create", tmp.as_str(), failure.cause.as_str()),
                        },
                    ),
                },
                Answer::Text(_) => misfit(),
            },
            Session::Writing { path, tmp } => match answer {
                Answer::Done => Step::Ask {
                    request: Request::SyncAll { path: tmp.clone() },
                    session: Session::Syncing { path, tmp },
                },
                Answer::Failed(failure) => Step::Finish {
                    result: Err(
                        StoreError::Io {
                            message: message_on("write", tmp.as_str(), failure.cause.as_str()),
                        },
                    ),
                },
                Answer::Text(_) => misfit(),
            },
            Session::Syncing { path, tmp } => match answer {
                Answer::Done | Answer::Failed(_) => Step::Ask {
                    request: Request::Rename { from: tmp.clone(), to: path.clone() },
                    session: Session::Renaming { path, tmp },
                },
                Answer::Text(_) => misfit(),
            },
            Session::Renaming { path, tmp } => match answer {
                Answer::Done => Step::Finish { result: Ok(Output::Unit) },
                Answer::Failed(failure) => Step::Finish {
                    result: Err(
                        StoreError::Io {
                            message: message_between(
                                "rename",
                                tmp.as_str(),
                                path.as_str(),
                                failure.cause.as_str(),
                            ),
                        },
                    ),
                },
                Answer::Text(_) => misfit(),
            },
            Session::EnsuringDestination { parent, source, dest } => match answer {
                Answer::Done => Step::Ask {
                    request: Request::Copy { from: source.clone(), to: dest.clone() },
                    session: Session::Copying { source, dest },
                },
                Answer::Failed(failure) => Step::Finish {
                    result: Err(
                        StoreError::Io {
                            message: message_on(
                                "create_dir_all",
                                parent.as_str(),
                                failure.cause.as_str(),
                            ),
                        },
                    ),
                },
                Answer::Text(_) => misfit(),
            },
            Session::Copying { source, dest } => match answer {
                Answer::Done => Step::Finish { result: Ok(Output::Unit) },
                Answer::Failed(failure) => {
                    let message = message_between(
                        "copy",
                        source.as_str(),
                        dest.as_str(),
                        failure.cause.as_str(),
                    );
                    Step::Finish { result: Err(document_error(&failure, message)) }
                },
                Answer::Text(_) => misfit(),
            },
        }
    }
}

} // verus!
