//! The vocabulary shared by the state machine and its driver.
//!
//! Every type takes the type of its texts as a parameter. Executable code uses
//! them with `String`; contracts use them with `Seq<char>`, and `@` maps the
//! first to the second field by field.

use vstd::prelude::*;

verus! {

/// One of the five commands.
#[derive(Debug, Clone, PartialEq, Eq)]
pub enum Command<T> {
    /// Read the document `name`.
    Load { name: T },
    /// Replace the document `name` by `contents`.
    Save { name: T, contents: T },
    /// Copy the document `name` to `dest_path`, outside the data directory.
    Export { name: T, dest_path: T },
    /// Replace the document `name` by the text of the file at `src_path`.
    Import { name: T, src_path: T },
    /// Tell where the documents are kept.
    GetDataDir,
}

/// A call that the driver is asked to make.
#[derive(Debug, Clone, PartialEq, Eq)]
pub enum Request<T> {
    /// Find the path of the running executable.
    CurrentExe,
    /// Create the directory `path` and every missing ancestor.
    CreateDirAll { path: T },
    /// Create the file `path`, or empty it, and keep it open for writing.
    CreateFile { path: T },
    /// Write all of `contents` to the open file `path`.
    WriteAll { path: T, contents: T },
    /// Ask the system to put the contents of the open file `path` on
    /// storage.
    SyncAll { path: T },
    /// Close the open file and move `from` onto `to` in one step, replacing
    /// what is there.
    Rename { from: T, to: T },
    /// Read the file `path` as text.
    ReadToString { path: T },
    /// Copy the bytes of `from` to `to`.
    Copy { from: T, to: T },
}

/// Why a call failed.
#[derive(Debug, Clone, PartialEq, Eq)]
pub struct Failure<T> {
    /// The file that the call was to read does not exist.
    pub not_found: bool,
    /// The cause in words, as the system gives it.
    pub cause: T,
}

/// What the driver reports of the call it was asked to make.
#[derive(Debug, Clone, PartialEq, Eq)]
pub enum Answer<T> {
    /// The call succeeded and returned nothing.
    Done,
    /// The call succeeded and returned this text: the path of the
    /// executable, or what a file holds.
    Text(T),
    /// The call failed.
    Failed(Failure<T>),
}

/// What a command hands back when it succeeds.
#[derive(Debug, Clone, PartialEq, Eq)]
pub enum Output<T> {
    /// Nothing: the command was run for its effect.
    Unit,
    /// The text of a document, or the path of the data directory.
    Text(T),
}

/// Why a command failed. Each variant carries the message for the caller,
/// which names the call that failed, the path it was made on and the cause.
#[derive(Debug, Clone, PartialEq, Eq)]
pub enum StoreError<T> {
    /// The name of the document would take it out of the data directory.
    InvalidName { message: T },
    /// The data directory could not be found or created.
    PathResolution { message: T },
    /// The document to load or export does not exist.
    NotFound { message: T },
    /// Any other failure, among them an answer that does not fit the request.
    Io { message: T },
}

/// A command in progress: what it waits for, and what it needs to go on.
#[derive(Debug, Clone, PartialEq, Eq)]
pub enum Session<T> {
    /// Waits for the path of the executable.
    ResolvingExe { command: Command<T> },
    /// Waits for the data directory `base` to be created.
    CreatingDataDir { command: Command<T>, base: T },
    /// Load: waits for the text of the document at `path`.
    Reading { path: T },
    /// Import: waits for the text of `source`, to be written to `path`.
    ReadingSource { source: T, path: T },
    /// Atomic write: waits for the ancestors of `path` to be created.
    EnsuringParent { parent: T, path: T, tmp: T, contents: T },
    /// Atomic write: waits for the temporary file to be created.
    Creating { path: T, tmp: T, contents: T },
    /// Atomic write: waits for the contents to be written.
    Writing { path: T, tmp: T },
    /// Atomic write: waits for the sync, whose failure is tolerated.
    Syncing { path: T, tmp: T },
    /// Atomic write: waits for the temporary file to replace `path`.
    Renaming { path: T, tmp: T },
    /// Export: waits for the ancestors of `dest` to be created.
    EnsuringDestination { parent: T, source: T, dest: T },
    /// Export: waits for the copy.
    Copying { source: T, dest: T },
}

/// Where a command stands after a step.
#[derive(Debug, PartialEq, Eq)]
pub enum Step<T> {
    /// The driver is to make the call `request` and hand the answer to
    /// `session`.
    Ask { request: Request<T>, session: Session<T> },
    /// The command is over, with this result.
    Finish { result: Result<Output<T>, StoreError<T>> },
}

impl<T: Clone> Clone for Step<T> {
    fn clone(&self) -> (copy: Self) {
        match self {
            Step::Ask { request, session } => Step::Ask {
                request: request.clone(),
                session: session.clone(),
            },
            Step::Finish { result } => Step::Finish {
                result: match result {
                    Ok(output) => Ok(output.clone()),
                    Err(error) => Err(error.clone()),
                },
            },
        }
    }
}

impl View for Command<String> {
    type V = Command<Seq<char>>;

    open spec fn view(&self) -> Command<Seq<char>> {
        match self {
            Command::Load { name } => Command::Load { name: name@ },
            Command::Save { name, contents } => Command::Save { name: name@, contents: contents@ },
            Command::Export { name, dest_path } => Command::Export {
                name: name@,
                dest_path: dest_path@,
            },
            Command::Import { name, src_path } => Command::Import {
                name: name@,
                src_path: src_path@,
            },
            Command::GetDataDir => Command::GetDataDir,
        }
    }
}

impl View for Request<String> {
    type V = Request<Seq<char>>;

    open spec fn view(&self) -> Request<Seq<char>> {
        match self {
            Request::CurrentExe => Request::CurrentExe,
            Request::CreateDirAll { path } => Request::CreateDirAll { path: path@ },
            Request::CreateFile { path } => Request::CreateFile { path: path@ },
            Request::WriteAll { path, contents } => Request::WriteAll {
                path: path@,
                contents: contents@,
            },
            Request::SyncAll { path } => Request::SyncAll { path: path@ },
            Request::Rename { from, to } => Request::Rename { from: from@, to: to@ },
            Request::ReadToString { path } => Request::ReadToString { path: path@ },
            Request::Copy { from, to } => Request::Copy { from: from@, to: to@ },
        }
    }
}

impl View for Failure<String> {
    type V = Failure<Seq<char>>;

    open spec fn view(&self) -> Failure<Seq<char>> {
        Failure { not_found: self.not_found, cause: self.cause@ }
    }
}

impl View for Answer<String> {
    type V = Answer<Seq<char>>;

    open spec fn view(&self) -> Answer<Seq<char>> {
        match self {
            Answer::Done => Answer::Done,
            Answer::Text(text) => Answer::Text(text@),
            Answer::Failed(failure) => Answer::Failed(failure@),
        }
    }
}

impl View for Output<String> {
    type V = Output<Seq<char>>;

    open spec fn view(&self) -> Output<Seq<char>> {
        match self {
            Output::Unit => Output::Unit,
            Output::Text(text) => Output::Text(text@),
        }
    }
}

impl View for StoreError<String> {
    type V = StoreError<Seq<char>>;

    open spec fn view(&self) -> StoreError<Seq<char>> {
        match self {
            StoreError::InvalidName { message } => StoreError::InvalidName { message: message@ },
            StoreError::PathResolution { message } => StoreError::PathResolution {
                message: message@,
            },
            StoreError::NotFound { message } => StoreError::NotFound { message: message@ },
            StoreError::Io { message } => StoreError::Io { message: message@ },
        }
    }
}

impl View for Session<String> {
    type V = Session<Seq<char>>;

    open spec fn view(&self) -> Session<Seq<char>> {
        match self {
            Session::ResolvingExe { command } => Session::ResolvingExe { command: command@ },
            Session::CreatingDataDir { command, base } => Session::CreatingDataDir {
                command: command@,
                base: base@,
            },
            Session::Reading { path } => Session::Reading { path: path@ },
            Session::ReadingSource { source, path } => Session::ReadingSource {
                source: source@,
                path: path@,
            },
            Session::EnsuringParent { parent, path, tmp, contents } => Session::EnsuringParent {
                parent: parent@,
                path: path@,
                tmp: tmp@,
                contents: contents@,
            },
            Session::Creating { path, tmp, contents } => Session::Creating {
                path: path@,
                tmp: tmp@,
                contents: contents@,
            },
            Session::Writing { path, tmp } => Session::Writing { path: path@, tmp: tmp@ },
            Session::Syncing { path, tmp } => Session::Syncing { path: path@, tmp: tmp@ },
            Session::Renaming { path, tmp } => Session::Renaming { path: path@, tmp: tmp@ },
            Session::EnsuringDestination { parent, source, dest } => Session::EnsuringDestination {
                parent: parent@,
                source: source@,
                dest: dest@,
            },
            Session::Copying { source, dest } => Session::Copying { source: source@, dest: dest@ },
        }
    }
}

/// The view of a command's result.
pub open spec fn result_view(result: Result<Output<String>, StoreError<String>>) -> Result<
    Output<Seq<char>>,
    StoreError<Seq<char>>,
> {
    match result {
        Ok(output) => Ok(output@),
        Err(error) => Err(error@),
    }
}

impl View for Step<String> {
    type V = Step<Seq<char>>;

    open spec fn view(&self) -> Step<Seq<char>> {
        match self {
            Step::Ask { request, session } => Step::Ask { request: request@, session: session@ },
            Step::Finish { result } => Step::Finish { result: result_view(*result) },
        }
    }
}

impl StoreError<Seq<char>> {
    /// The message that the error carries.
    pub open spec fn message(self) -> Seq<char> {
        match self {
            StoreError::InvalidName { message } => message,
            StoreError::PathResolution { message } => message,
            StoreError::NotFound { message } => message,
            StoreError::Io { message } => message,
        }
    }
}

impl StoreError<String> {
    /// The message for the caller, who is told nothing else of a failure.
    pub fn into_message(self) -> (message: String)
        ensures
            message@ == self@.message(),
    {
        match self {
            StoreError::InvalidName { message } => message,
            StoreError::PathResolution { message } => message,
            StoreError::NotFound { message } => message,
            StoreError::Io { message } => message,
        }
    }
}

} // verus!
