//! What holds at every point of a run, command by command, with the
//! inductions that show it. The laws are read off these.

use crate::host::{answers, Host};
use crate::model::{ends_with, holds, message_between, message_on, name_of, next};
use crate::names::confined;
use crate::paths::{debug_text, lemma_temp_sibling_differs, temp_sibling};
use crate::protocol::{Answer, Command, Output, Request, Session, Step, StoreError};
use crate::run::{
    bytes_to_write, data_dir, document_of, feasible, host_after, lemma_holds_throughout,
    step_after, Exchange,
};
use vstd::prelude::*;
use vstd::utf8::encode_utf8;

verus! {

/// Whether the name of the document that `command` is about, if it is about
/// one, is confined to the data directory.
pub(crate) open spec fn well_named(command: Command<Seq<char>>) -> bool {
    match name_of(command) {
        Some(name) => confined(name),
        None => true,
    }
}

/// The data directory has been found and made, and the name of the document
/// has been accepted: every step past the first two of a command rests on
/// this.
pub(crate) open spec fn settled(command: Command<Seq<char>>, initial: Host, host: Host) -> bool {
    &&& initial.exe is Some
    &&& host.dirs.contains(data_dir(initial))
    &&& well_named(command)
}

/// The data directory has been found and made, and the name of the document
/// has been refused, with every file as it was.
pub(crate) open spec fn refused(command: Command<Seq<char>>, initial: Host, host: Host) -> bool {
    &&& initial.exe is Some
    &&& host.dirs.contains(data_dir(initial))
    &&& !well_named(command)
    &&& host.files == initial.files
}

/// What holds of a save or an import wherever its run stands.
pub(crate) open spec fn writing_inv(
    command: Command<Seq<char>>,
    initial: Host,
    step: Step<Seq<char>>,
    host: Host,
) -> bool {
    let path = document_of(command, initial);
    let tmp = temp_sibling(path);
    let bytes = bytes_to_write(command, initial);
    match step {
        Step::Ask { request, session } => match session {
            Session::ResolvingExe { command: c } => {
                &&& c == command
                &&& request == Request::<Seq<char>>::CurrentExe
                &&& initial.same_files(host)
            },
            Session::CreatingDataDir { command: c, base } => {
                &&& c == command
                &&& initial.exe is Some
                &&& base == data_dir(initial)
                &&& request == (Request::CreateDirAll { path: base })
                &&& initial.same_files(host)
            },
            Session::ReadingSource { source, path: p } => {
                &&& settled(command, initial, host)
                &&& command matches Command::Import { name, src_path }
                &&& source == src_path
                &&& p == path
                &&& request == (Request::ReadToString { path: source })
                &&& initial.same_files(host)
            },
            Session::EnsuringParent { parent, path: p, tmp: t, contents } => {
                &&& settled(command, initial, host)
                &&& p == path
                &&& t == tmp
                &&& encode_utf8(contents) == bytes
                &&& request == (Request::CreateDirAll { path: parent })
                &&& initial.same_files(host)
            },
            Session::Creating { path: p, tmp: t, contents } => {
                &&& settled(command, initial, host)
                &&& p == path
                &&& t == tmp
                &&& encode_utf8(contents) == bytes
                &&& request == (Request::CreateFile { path: tmp })
                &&& initial.same_files(host)
            },
            Session::Writing { path: p, tmp: t } => {
                &&& settled(command, initial, host)
                &&& p == path
                &&& t == tmp
                &&& request matches Request::WriteAll { path: target, contents }
                &&& target == tmp
                &&& encode_utf8(contents) == bytes
                &&& host.file_at(tmp) == Some(Seq::<u8>::empty())
                &&& initial.same_but(host, tmp)
            },
            Session::Syncing { path: p, tmp: t } => {
                &&& settled(command, initial, host)
                &&& p == path
                &&& t == tmp
                &&& request == (Request::SyncAll { path: tmp })
                &&& host.file_at(tmp) == Some(bytes)
                &&& initial.same_but(host, tmp)
            },
            Session::Renaming { path: p, tmp: t } => {
                &&& settled(command, initial, host)
                &&& p == path
                &&& t == tmp
                &&& request == (Request::Rename { from: tmp, to: path })
                &&& host.file_at(tmp) == Some(bytes)
                &&& initial.same_but(host, tmp)
            },
            _ => false,
        },
        Step::Finish { result } => match result {
            Ok(output) => {
                &&& output == Output::<Seq<char>>::Unit
                &&& settled(command, initial, host)
                &&& host.exe == initial.exe
                &&& initial.dirs.subset_of(host.dirs)
                &&& host.file_at(path) == Some(bytes)
                &&& host.file_at(tmp).is_none()
                &&& forall|other: Seq<char>|
                    other != path && other != tmp ==> host.file_at(other) == initial.file_at(other)
            },
            Err(error) => {
                &&& initial.same_but(host, tmp)
                &&& !(error is NotFound)
                &&& error is InvalidName ==> refused(command, initial, host)
            },
        },
    }
}

pub(crate) proof fn lemma_writing_inv(command: Command<Seq<char>>, initial: Host, exchanges: Seq<Exchange>)
    requires
        command is Save || command is Import,
        feasible(command, initial, exchanges),
    ensures
        writing_inv(command, initial, step_after(command, exchanges), host_after(initial, exchanges)),
{
    let inv = |step: Step<Seq<char>>, host: Host| writing_inv(command, initial, step, host);
    assert forall|
        request: Request<Seq<char>>,
        session: Session<Seq<char>>,
        before: Host,
        answer: Answer<Seq<char>>,
        after: Host,
    |
        #![trigger inv(Step::Ask { request, session }, before), answers(before, request, answer, after)]
        inv(Step::Ask { request, session }, before) && answers(
            before,
            request,
            answer,
            after,
        ) implies inv(next(session, answer), after) by {
        lemma_writing_step(command, initial, request, session, before, answer, after);
    }
    lemma_holds_throughout(command, initial, exchanges, inv);
}

pub(crate) proof fn lemma_writing_step(
    command: Command<Seq<char>>,
    initial: Host,
    request: Request<Seq<char>>,
    session: Session<Seq<char>>,
    before: Host,
    answer: Answer<Seq<char>>,
    after: Host,
)
    requires
        command is Save || command is Import,
        writing_inv(command, initial, Step::Ask { request, session }, before),
        answers(before, request, answer, after),
    ensures
        writing_inv(command, initial, next(session, answer), after),
{
    lemma_temp_sibling_differs(document_of(command, initial));
    if session is Writing && answer is Done {
        let bytes = bytes_to_write(command, initial);
        assert(Seq::<u8>::empty() + bytes =~= bytes);
    }
}

/// What holds of any command wherever its run stands: nothing is done to a
/// document before the data directory has been found and made.
pub(crate) open spec fn resolving_inv(
    command: Command<Seq<char>>,
    initial: Host,
    step: Step<Seq<char>>,
    host: Host,
) -> bool {
    &&& host.exe == initial.exe
    &&& initial.dirs.subset_of(host.dirs)
    &&& match step {
        Step::Ask { request, session } => match session {
            Session::ResolvingExe { command: c } => {
                &&& c == command
                &&& request == Request::<Seq<char>>::CurrentExe
                &&& host.files == initial.files
            },
            Session::CreatingDataDir { command: c, base } => {
                &&& c == command
                &&& initial.exe is Some
                &&& base == data_dir(initial)
                &&& request == (Request::CreateDirAll { path: base })
                &&& host.files == initial.files
            },
            _ => {
                &&& settled(command, initial, host)
                &&& !(command is GetDataDir)
            },
        },
        Step::Finish { result } => match result {
            Err(StoreError::PathResolution { message }) => {
                &&& initial.exe is None || !initial.dirs.contains(data_dir(initial))
                &&& host.files == initial.files
            },
            Err(StoreError::InvalidName { message }) => refused(command, initial, host),
            Ok(output) => {
                &&& settled(command, initial, host)
                &&& command is GetDataDir ==> output == Output::Text(data_dir(initial))
                    && host.files == initial.files
            },
            _ => {
                &&& settled(command, initial, host)
                &&& !(command is GetDataDir)
            },
        },
    }
}

pub(crate) proof fn lemma_resolving_inv(command: Command<Seq<char>>, initial: Host, exchanges: Seq<Exchange>)
    requires
        feasible(command, initial, exchanges),
    ensures
        resolving_inv(
            command,
            initial,
            step_after(command, exchanges),
            host_after(initial, exchanges),
        ),
{
    let inv = |step: Step<Seq<char>>, host: Host| resolving_inv(command, initial, step, host);
    assert forall|
        request: Request<Seq<char>>,
        session: Session<Seq<char>>,
        before: Host,
        answer: Answer<Seq<char>>,
        after: Host,
    |
        #![trigger inv(Step::Ask { request, session }, before), answers(before, request, answer, after)]
        inv(Step::Ask { request, session }, before) && answers(
            before,
            request,
            answer,
            after,
        ) implies inv(next(session, answer), after) by {
        assert(resolving_inv(command, initial, next(session, answer), after));
    }
    lemma_holds_throughout(command, initial, exchanges, inv);
}

/// What holds of a load wherever its run stands.
pub(crate) open spec fn loading_inv(name: Seq<char>, initial: Host, step: Step<Seq<char>>, host: Host) -> bool {
    let command = Command::Load { name };
    let path = document_of(command, initial);
    &&& initial.same_files(host)
    &&& match step {
        Step::Ask { request, session } => match session {
            Session::ResolvingExe { command: c } => {
                &&& c == command
                &&& request == Request::<Seq<char>>::CurrentExe
            },
            Session::CreatingDataDir { command: c, base } => {
                &&& c == command
                &&& initial.exe is Some
                &&& base == data_dir(initial)
                &&& request == (Request::CreateDirAll { path: base })
            },
            Session::Reading { path: p } => {
                &&& settled(command, initial, host)
                &&& p == path
                &&& request == (Request::ReadToString { path })
            },
            _ => false,
        },
        Step::Finish { result } => match result {
            Ok(output) => {
                &&& settled(command, initial, host)
                &&& output matches Output::Text(text)
                &&& initial.file_at(path) == Some(encode_utf8(text))
            },
            Err(error) => match error {
                StoreError::InvalidName { message } => refused(command, initial, host),
                StoreError::PathResolution { message } => {
                    initial.exe is None || !initial.dirs.contains(data_dir(initial))
                },
                StoreError::NotFound { message } => {
                    &&& settled(command, initial, host)
                    &&& initial.file_at(path) is None
                },
                StoreError::Io { message } => {
                    &&& settled(command, initial, host)
                    &&& initial.file_at(path) is Some
                },
            },
        },
    }
}

pub(crate) proof fn lemma_loading_inv(name: Seq<char>, initial: Host, exchanges: Seq<Exchange>)
    requires
        feasible(Command::Load { name }, initial, exchanges),
    ensures
        loading_inv(
            name,
            initial,
            step_after(Command::Load { name }, exchanges),
            host_after(initial, exchanges),
        ),
{
    let inv = |step: Step<Seq<char>>, host: Host| loading_inv(name, initial, step, host);
    assert forall|
        request: Request<Seq<char>>,
        session: Session<Seq<char>>,
        before: Host,
        answer: Answer<Seq<char>>,
        after: Host,
    |
        #![trigger inv(Step::Ask { request, session }, before), answers(before, request, answer, after)]
        inv(Step::Ask { request, session }, before) && answers(
            before,
            request,
            answer,
            after,
        ) implies inv(next(session, answer), after) by {
        assert(loading_inv(name, initial, next(session, answer), after));
    }
    lemma_holds_throughout(Command::Load { name }, initial, exchanges, inv);
}

/// What holds of an export wherever its run stands.
pub(crate) open spec fn exporting_inv(
    name: Seq<char>,
    dest: Seq<char>,
    initial: Host,
    step: Step<Seq<char>>,
    host: Host,
) -> bool {
    let command = Command::Export { name, dest_path: dest };
    let source = document_of(command, initial);
    match step {
        Step::Ask { request, session } => {
            &&& initial.same_files(host)
            &&& match session {
                Session::ResolvingExe { command: c } => {
                    &&& c == command
                    &&& request == Request::<Seq<char>>::CurrentExe
                },
                Session::CreatingDataDir { command: c, base } => {
                    &&& c == command
                    &&& initial.exe is Some
                    &&& base == data_dir(initial)
                    &&& request == (Request::CreateDirAll { path: base })
                },
                Session::EnsuringDestination { parent, source: s, dest: d } => {
                    &&& settled(command, initial, host)
                    &&& s == source
                    &&& d == dest
                    &&& request == (Request::CreateDirAll { path: parent })
                },
                Session::Copying { source: s, dest: d } => {
                    &&& settled(command, initial, host)
                    &&& s == source
                    &&& d == dest
                    &&& request == (Request::Copy { from: source, to: dest })
                },
                _ => false,
            }
        },
        Step::Finish { result } => {
            &&& initial.same_but(host, dest)
            &&& match result {
                Ok(output) => {
                    &&& output == Output::<Seq<char>>::Unit
                    &&& settled(command, initial, host)
                    &&& initial.file_at(source) is Some
                    &&& source != dest ==> host.file_at(dest) == initial.file_at(source)
                },
                Err(error) => match error {
                    StoreError::InvalidName { message } => refused(command, initial, host),
                    StoreError::PathResolution { message } => {
                        &&& initial.exe is None || !initial.dirs.contains(data_dir(initial))
                        &&& host.files == initial.files
                    },
                    StoreError::NotFound { message } => {
                        &&& settled(command, initial, host)
                        &&& initial.file_at(source) is None
                        &&& host.files == initial.files
                    },
                    StoreError::Io { message } => settled(command, initial, host),
                },
            }
        },
    }
}

pub(crate) proof fn lemma_exporting_inv(
    name: Seq<char>,
    dest: Seq<char>,
    initial: Host,
    exchanges: Seq<Exchange>,
)
    requires
        feasible(Command::Export { name, dest_path: dest }, initial, exchanges),
    ensures
        exporting_inv(
            name,
            dest,
            initial,
            step_after(Command::Export { name, dest_path: dest }, exchanges),
            host_after(initial, exchanges),
        ),
{
    let inv = |step: Step<Seq<char>>, host: Host| exporting_inv(name, dest, initial, step, host);
    assert forall|
        request: Request<Seq<char>>,
        session: Session<Seq<char>>,
        before: Host,
        answer: Answer<Seq<char>>,
        after: Host,
    |
        #![trigger inv(Step::Ask { request, session }, before), answers(before, request, answer, after)]
        inv(Step::Ask { request, session }, before) && answers(
            before,
            request,
            answer,
            after,
        ) implies inv(next(session, answer), after) by {
        assert(exporting_inv(name, dest, initial, next(session, answer), after));
    }
    lemma_holds_throughout(Command::Export { name, dest_path: dest }, initial, exchanges, inv);
}

/// A command waits for the executable's path before its first call is
/// answered, for the data directory before its second, and never again.
pub(crate) proof fn lemma_resolution_takes_two(
    command: Command<Seq<char>>,
    initial: Host,
    exchanges: Seq<Exchange>,
)
    requires
        feasible(command, initial, exchanges),
    ensures
        match step_after(command, exchanges) {
            Step::Ask { request, session } => {
                &&& session is ResolvingExe <==> exchanges.len() == 0
                &&& session is CreatingDataDir <==> exchanges.len() == 1
            },
            Step::Finish { result } => exchanges.len() >= 1,
        },
    decreases exchanges.len(),
{
    if exchanges.len() > 0 {
        lemma_resolution_takes_two(command, initial, exchanges.drop_last());
    }
}

pub(crate) proof fn lemma_message_on(call: Seq<char>, path: Seq<char>, cause: Seq<char>)
    ensures
        ends_with(message_on(call, path, cause), ": "@ + cause),
        holds(message_on(call, path, cause), debug_text(path)),
{
    let message = message_on(call, path, cause);
    let quoted = debug_text(path);
    let head = call + " "@;
    assert(message.subrange(message.len() - (": "@ + cause).len(), message.len() as int) =~= ": "@
        + cause);
    assert(message.subrange(head.len() as int, (head.len() + quoted.len()) as int) =~= quoted);
}

pub(crate) proof fn lemma_message_between(call: Seq<char>, from: Seq<char>, to: Seq<char>, cause: Seq<char>)
    ensures
        ends_with(message_between(call, from, to, cause), ": "@ + cause),
        holds(message_between(call, from, to, cause), debug_text(from)),
        holds(message_between(call, from, to, cause), debug_text(to)),
{
    let message = message_between(call, from, to, cause);
    let head = call + " "@;
    let middle = head + debug_text(from) + " to "@;
    assert(message.subrange(message.len() - (": "@ + cause).len(), message.len() as int) =~= ": "@
        + cause);
    assert(message.subrange(head.len() as int, (head.len() + debug_text(from).len()) as int)
        =~= debug_text(from));
    assert(message.subrange(middle.len() as int, (middle.len() + debug_text(to).len()) as int)
        =~= debug_text(to));
}

} // verus!
