//! What the commands guarantee, as theorems about every run that the machine
//! of `host` allows.

use crate::host::Host;
use crate::invariants::{
    lemma_exporting_inv, lemma_loading_inv, lemma_message_between, lemma_message_on,
    lemma_resolution_takes_two, lemma_resolving_inv, lemma_writing_inv,
};
use crate::model::{awaited_paths, ends_with, holds, message_plain, name_of, next};
use crate::names::confined;
use crate::paths::{debug_text, lemma_temp_sibling_differs, temp_sibling};
use crate::protocol::{Answer, Command, Failure, Output, Request, Session, Step, StoreError};
use crate::run::{
    bytes_to_write, data_dir, document_of, feasible, host_after, step_after, succeeded, Exchange,
};
use vstd::prelude::*;
use vstd::utf8::encode_utf8;

verus! {

/// An atomic write is all or nothing.
///
/// Take a save or an import at any point of any run. If the command has not
/// come to a successful end (it is under way, was interrupted or has failed),
/// the document holds what it held before the command, or is missing as it
/// was. If the command has succeeded, the document holds exactly the bytes
/// that were to be written and the temporary file is gone. Either way no
/// file has changed but the document and the temporary file, which is never
/// the document.
pub proof fn law_atomic_write(command: Command<Seq<char>>, initial: Host, exchanges: Seq<Exchange>)
    requires
        command is Save || command is Import,
        feasible(command, initial, exchanges),
    ensures
        ({
            let path = document_of(command, initial);
            let tmp = temp_sibling(path);
            let host = host_after(initial, exchanges);
            let step = step_after(command, exchanges);
            &&& tmp != path
            &&& !succeeded(step) ==> host.file_at(path) == initial.file_at(path)
            &&& succeeded(step) ==> host.file_at(path) == Some(bytes_to_write(command, initial))
            &&& succeeded(step) ==> host.file_at(tmp).is_none()
            &&& forall|other: Seq<char>|
                other != path && other != tmp ==> host.file_at(other) == initial.file_at(other)
        }),
{
    lemma_temp_sibling_differs(document_of(command, initial));
    lemma_writing_inv(command, initial, exchanges);
}

/// A name that would leave the data directory is refused before any file is
/// asked for.
///
/// Take any command on a document whose name is not confined: one that
/// begins at a root or with a prefix, or has the parent directory among its
/// segments. At every point of every run each file is as it was; the only
/// calls asked for are the two that find and make the data directory; and
/// the command ends in an `InvalidName` error, or in a `PathResolution` error
/// where the directory could not be found or made. A command whose name is
/// confined never ends in `InvalidName`.
pub proof fn law_names_are_confined(
    command: Command<Seq<char>>,
    initial: Host,
    exchanges: Seq<Exchange>,
)
    requires
        feasible(command, initial, exchanges),
    ensures
        match name_of(command) {
            Some(name) if !confined(name) => {
                &&& host_after(initial, exchanges).files == initial.files
                &&& match step_after(command, exchanges) {
                    Step::Ask { request, session } => {
                        ||| session is ResolvingExe && request == Request::<Seq<char>>::CurrentExe
                        ||| session is CreatingDataDir && request == (Request::CreateDirAll {
                            path: data_dir(initial),
                        })
                    },
                    Step::Finish { result } => {
                        ||| result matches Err(StoreError::InvalidName { .. })
                        ||| result matches Err(StoreError::PathResolution { .. })
                    },
                }
            },
            _ => !(step_after(command, exchanges) matches Step::Finish { result } && result matches Err(
                StoreError::InvalidName { .. },
            )),
        },
{
    lemma_resolving_inv(command, initial, exchanges);
}

/// The data directory is found and made anew by every command, before
/// anything else.
///
/// Whatever the command and whatever the machine holds, not least after the
/// data directory was deleted behind the library's back: the first call asked
/// for is `CurrentExe` and the second creates the data directory beside the
/// executable; until both are answered no file is touched; and at every later
/// point of the run, as at every end that is not a `PathResolution` error,
/// the data directory exists.
pub proof fn law_data_dir_is_made_first(
    command: Command<Seq<char>>,
    initial: Host,
    exchanges: Seq<Exchange>,
)
    requires
        feasible(command, initial, exchanges),
    ensures
        ({
            let host = host_after(initial, exchanges);
            let made = initial.exe is Some && host.dirs.contains(data_dir(initial));
            match step_after(command, exchanges) {
                Step::Ask { request, session } => {
                    if exchanges.len() == 0 {
                        request == Request::<Seq<char>>::CurrentExe && host == initial
                    } else if exchanges.len() == 1 {
                        initial.exe is Some && request == (Request::CreateDirAll {
                            path: data_dir(initial),
                        }) && host.files == initial.files
                    } else {
                        made
                    }
                },
                Step::Finish { result } => match result {
                    Err(StoreError::PathResolution { message }) => host.files == initial.files,
                    _ => made,
                },
            }
        }),
{
    lemma_resolving_inv(command, initial, exchanges);
    lemma_resolution_takes_two(command, initial, exchanges);
}

/// A data directory that exists is no obstacle and no danger.
///
/// On a machine where the executable can be found and its data directory
/// exists, no command ends in a `PathResolution` error, and finding and
/// creating the directory changes no file.
pub proof fn law_existing_data_dir(
    command: Command<Seq<char>>,
    initial: Host,
    exchanges: Seq<Exchange>,
)
    requires
        feasible(command, initial, exchanges),
        initial.exe is Some,
        initial.dirs.contains(data_dir(initial)),
    ensures
        match step_after(command, exchanges) {
            Step::Ask { request, session } => (session is ResolvingExe || session is CreatingDataDir)
                ==> host_after(initial, exchanges).files == initial.files,
            Step::Finish { result } => !(result matches Err(StoreError::PathResolution { .. })),
        },
{
    lemma_resolving_inv(command, initial, exchanges);
}

/// The command that tells where the documents are kept names the data
/// directory beside the executable, leaves it in existence and changes no
/// file; it fails only where the directory cannot be found or made.
pub proof fn law_get_data_dir(initial: Host, exchanges: Seq<Exchange>)
    requires
        feasible(Command::GetDataDir, initial, exchanges),
        step_after(Command::GetDataDir, exchanges) is Finish,
    ensures
        host_after(initial, exchanges).files == initial.files,
        match step_after(Command::GetDataDir, exchanges)->result {
            Ok(output) => {
                &&& output == Output::Text(data_dir(initial))
                &&& host_after(initial, exchanges).dirs.contains(data_dir(initial))
            },
            Err(error) => error is PathResolution,
        },
{
    lemma_resolving_inv(Command::GetDataDir, initial, exchanges);
}

/// A load hands back what the document holds, and changes nothing.
///
/// A load that succeeds returns the text whose encoding is, byte for byte,
/// what the document held when the command began. It reports `NotFound` only
/// where there is no such document, and where there is none it can end in no
/// other way, unless the name is refused or the data directory itself could
/// not be found or made.
/// Whatever the outcome, every file is as it was.
pub proof fn law_load(name: Seq<char>, initial: Host, exchanges: Seq<Exchange>)
    requires
        feasible(Command::Load { name }, initial, exchanges),
        step_after(Command::Load { name }, exchanges) is Finish,
    ensures
        host_after(initial, exchanges).files == initial.files,
        ({
            let document = initial.file_at(document_of(Command::Load { name }, initial));
            match step_after(Command::Load { name }, exchanges)->result {
                Ok(output) => output matches Output::Text(text) && document == Some(
                    encode_utf8(text),
                ),
                Err(error) => match error {
                    StoreError::InvalidName { message } => !confined(name),
                    StoreError::NotFound { message } => document is None,
                    StoreError::Io { message } => document is Some,
                    StoreError::PathResolution { message } => initial.exe is None
                        || !initial.dirs.contains(data_dir(initial)),
                },
            }
        }),
{
    lemma_loading_inv(name, initial, exchanges);
}

/// A load of a document that is not there fails with `NotFound`.
///
/// Where the name is accepted and no file stands at the document's path, a
/// load never succeeds and never ends in an `Io` error. On a machine whose executable can be found
/// and whose data directory exists, fresh or not, it ends in `NotFound`.
pub proof fn law_missing_document(name: Seq<char>, initial: Host, exchanges: Seq<Exchange>)
    requires
        feasible(Command::Load { name }, initial, exchanges),
        step_after(Command::Load { name }, exchanges) is Finish,
        confined(name),
        initial.exe is Some ==> initial.file_at(document_of(Command::Load { name }, initial))
            is None,
    ensures
        step_after(Command::Load { name }, exchanges)->result matches Err(error) && (error
            is NotFound || error is PathResolution),
        initial.exe is Some && initial.dirs.contains(data_dir(initial)) ==> step_after(
            Command::Load { name },
            exchanges,
        )->result matches Err(StoreError::NotFound { .. }),
{
    lemma_loading_inv(name, initial, exchanges);
}

/// A save followed by a load of the same name returns what was saved.
///
/// After a save that succeeded, a load of the same name returns exactly the
/// text that was saved, whatever it is; it can fail only with an `Io` error,
/// where the system refuses to read a file that is there.
pub proof fn law_round_trip(
    name: Seq<char>,
    contents: Seq<char>,
    initial: Host,
    saving: Seq<Exchange>,
    loading: Seq<Exchange>,
)
    requires
        feasible(Command::Save { name, contents }, initial, saving),
        succeeded(step_after(Command::Save { name, contents }, saving)),
        feasible(Command::Load { name }, host_after(initial, saving), loading),
        step_after(Command::Load { name }, loading) is Finish,
    ensures
        match step_after(Command::Load { name }, loading)->result {
            Ok(output) => output == Output::Text(contents),
            Err(error) => error is Io,
        },
{
    let saved = host_after(initial, saving);
    lemma_writing_inv(Command::Save { name, contents }, initial, saving);
    lemma_loading_inv(name, saved, loading);
    match step_after(Command::Load { name }, loading)->result {
        Ok(output) => {
            let text = output->Text_0;
            vstd::utf8::encode_utf8_decode_utf8(text);
            vstd::utf8::encode_utf8_decode_utf8(contents);
        },
        Err(error) => {},
    }
}

/// A save that did not complete is not seen by a load.
///
/// Take a save at any point short of its successful end (under way,
/// interrupted or failed) and let a load of the same name follow. The load
/// answers as it would have before the save: with the text that the document
/// held then, and with `NotFound` only if there was no document then.
pub proof fn law_interrupted_save(
    name: Seq<char>,
    contents: Seq<char>,
    initial: Host,
    saving: Seq<Exchange>,
    loading: Seq<Exchange>,
)
    requires
        feasible(Command::Save { name, contents }, initial, saving),
        !succeeded(step_after(Command::Save { name, contents }, saving)),
        feasible(Command::Load { name }, host_after(initial, saving), loading),
        step_after(Command::Load { name }, loading) is Finish,
    ensures
        ({
            let path = document_of(Command::Load { name }, initial);
            match step_after(Command::Load { name }, loading)->result {
                Ok(output) => output matches Output::Text(text) && initial.file_at(path) == Some(
                    encode_utf8(text),
                ),
                Err(error) => error is NotFound ==> initial.file_at(path) is None,
            }
        }),
{
    lemma_temp_sibling_differs(document_of(Command::Load { name }, initial));
    lemma_writing_inv(Command::Save { name, contents }, initial, saving);
    lemma_loading_inv(name, host_after(initial, saving), loading);
}

/// A save that did not complete leaves the last complete one in place.
///
/// After a successful save of `kept`, let a save of `lost` under the same
/// name stop at any point short of its successful end. A load of that name
/// returns `kept`, in full; it can fail only with an `Io` error.
pub proof fn law_interrupted_overwrite(
    name: Seq<char>,
    kept: Seq<char>,
    lost: Seq<char>,
    initial: Host,
    saving_kept: Seq<Exchange>,
    saving_lost: Seq<Exchange>,
    loading: Seq<Exchange>,
)
    requires
        feasible(Command::Save { name, contents: kept }, initial, saving_kept),
        succeeded(step_after(Command::Save { name, contents: kept }, saving_kept)),
        feasible(
            Command::Save { name, contents: lost },
            host_after(initial, saving_kept),
            saving_lost,
        ),
        !succeeded(step_after(Command::Save { name, contents: lost }, saving_lost)),
        feasible(
            Command::Load { name },
            host_after(host_after(initial, saving_kept), saving_lost),
            loading,
        ),
        step_after(Command::Load { name }, loading) is Finish,
    ensures
        match step_after(Command::Load { name }, loading)->result {
            Ok(output) => output == Output::Text(kept),
            Err(error) => error is Io,
        },
{
    let saved = host_after(initial, saving_kept);
    lemma_writing_inv(Command::Save { name, contents: kept }, initial, saving_kept);
    law_interrupted_save(name, lost, saved, saving_lost, loading);
    lemma_writing_inv(Command::Save { name, contents: lost }, saved, saving_lost);
    lemma_loading_inv(name, host_after(saved, saving_lost), loading);
    match step_after(Command::Load { name }, loading)->result {
        Ok(output) => {
            if output is Text {
                vstd::utf8::encode_utf8_decode_utf8(output->Text_0);
                vstd::utf8::encode_utf8_decode_utf8(kept);
            }
        },
        Err(error) => {},
    }
}

/// Of two saves under one name the second wins.
///
/// After a save of `first` and then a save of `second` under the same name,
/// both successful, a load of that name returns `second` and nothing of
/// `first`; it can fail only with an `Io` error.
pub proof fn law_overwrite(
    name: Seq<char>,
    first: Seq<char>,
    second: Seq<char>,
    initial: Host,
    saving_first: Seq<Exchange>,
    saving_second: Seq<Exchange>,
    loading: Seq<Exchange>,
)
    requires
        feasible(Command::Save { name, contents: first }, initial, saving_first),
        succeeded(step_after(Command::Save { name, contents: first }, saving_first)),
        feasible(
            Command::Save { name, contents: second },
            host_after(initial, saving_first),
            saving_second,
        ),
        succeeded(step_after(Command::Save { name, contents: second }, saving_second)),
        feasible(
            Command::Load { name },
            host_after(host_after(initial, saving_first), saving_second),
            loading,
        ),
        step_after(Command::Load { name }, loading) is Finish,
    ensures
        match step_after(Command::Load { name }, loading)->result {
            Ok(output) => output == Output::Text(second),
            Err(error) => error is Io,
        },
{
    law_round_trip(name, second, host_after(initial, saving_first), saving_second, loading);
}

/// An export copies the document and changes nothing else.
///
/// An export that succeeds found the document, and the destination then
/// holds the bytes of the document, provided the destination is not the
/// document itself. It reports `NotFound` only where there is no such
/// document, and then changes no file. Whatever the outcome, no file but the
/// destination has changed.
pub proof fn law_export(
    name: Seq<char>,
    dest_path: Seq<char>,
    initial: Host,
    exchanges: Seq<Exchange>,
)
    requires
        feasible(Command::Export { name, dest_path }, initial, exchanges),
        step_after(Command::Export { name, dest_path }, exchanges) is Finish,
    ensures
        ({
            let source = document_of(Command::Export { name, dest_path }, initial);
            let host = host_after(initial, exchanges);
            &&& forall|other: Seq<char>|
                other != dest_path ==> host.file_at(other) == initial.file_at(other)
            &&& match step_after(Command::Export { name, dest_path }, exchanges)->result {
                Ok(output) => {
                    &&& output == Output::<Seq<char>>::Unit
                    &&& initial.file_at(source) is Some
                    &&& source != dest_path ==> host.file_at(dest_path) == initial.file_at(source)
                },
                Err(error) => error is NotFound ==> initial.file_at(source) is None && host.files
                    == initial.files,
            }
        }),
{
    lemma_exporting_inv(name, dest_path, initial, exchanges);
}

/// What is exported and imported again is the same document.
///
/// Export the document `name` to a path that is not the document itself,
/// import that path under `other_name`, then load `other_name`, the first
/// two with success: the load returns the text whose encoding is, byte for
/// byte, what the document `name` held at the outset. It can fail only with
/// an `Io` error.
pub proof fn law_export_import_round_trip(
    name: Seq<char>,
    other_name: Seq<char>,
    path: Seq<char>,
    initial: Host,
    exporting: Seq<Exchange>,
    importing: Seq<Exchange>,
    loading: Seq<Exchange>,
)
    requires
        feasible(Command::Export { name, dest_path: path }, initial, exporting),
        succeeded(step_after(Command::Export { name, dest_path: path }, exporting)),
        feasible(
            Command::Import { name: other_name, src_path: path },
            host_after(initial, exporting),
            importing,
        ),
        succeeded(step_after(Command::Import { name: other_name, src_path: path }, importing)),
        feasible(
            Command::Load { name: other_name },
            host_after(host_after(initial, exporting), importing),
            loading,
        ),
        step_after(Command::Load { name: other_name }, loading) is Finish,
    ensures
        ({
            let source = document_of(Command::Export { name, dest_path: path }, initial);
            source != path ==> match step_after(Command::Load { name: other_name }, loading)->result {
                Ok(output) => output matches Output::Text(text) && initial.file_at(source) == Some(
                    encode_utf8(text),
                ),
                Err(error) => error is Io,
            }
        }),
{
    let exported = host_after(initial, exporting);
    let imported = host_after(exported, importing);
    lemma_exporting_inv(name, path, initial, exporting);
    lemma_writing_inv(Command::Import { name: other_name, src_path: path }, exported, importing);
    lemma_loading_inv(other_name, imported, loading);
}

/// A failure is told in full, and only a failed sync is not told at all.
///
/// When the call that a session waits for fails, the command ends with an
/// error whose message ends with the cause, after a colon, and holds every
/// path that the call was made on, quoted. The one exception is the sync of
/// the temporary file: its failure ends nothing, and the rename follows.
pub proof fn law_failure_is_told(session: Session<Seq<char>>, failure: Failure<Seq<char>>)
    ensures
        match next(session, Answer::Failed(failure)) {
            Step::Ask { request, session: later } => {
                &&& session matches Session::Syncing { path, tmp }
                &&& request == (Request::Rename { from: tmp, to: path })
                &&& later == (Session::Renaming { path, tmp })
            },
            Step::Finish { result } => {
                &&& !(session is Syncing)
                &&& result matches Err(error)
                &&& ends_with(error.message(), ": "@ + failure.cause)
                &&& forall|i: int|
                    0 <= i < awaited_paths(session).len() ==> holds(
                        error.message(),
                        debug_text(#[trigger] awaited_paths(session)[i]),
                    )
            },
        },
{
    let cause = failure.cause;
    match session {
        Session::ResolvingExe { command } => {
            let message = message_plain("current_exe"@, cause);
            assert(message.subrange(message.len() - (": "@ + cause).len(), message.len() as int)
                =~= ": "@ + cause);
        },
        Session::CreatingDataDir { command, base } => {
            lemma_message_on("create_dir_all"@, base, cause);
        },
        Session::Reading { path } => {
            lemma_message_on("read"@, path, cause);
        },
        Session::ReadingSource { source, path } => {
            lemma_message_on("read"@, source, cause);
        },
        Session::EnsuringParent { parent, path, tmp, contents } => {
            lemma_message_on("create_dir_all"@, parent, cause);
        },
        Session::Creating { path, tmp, contents } => {
            lemma_message_on("create"@, tmp, cause);
        },
        Session::Writing { path, tmp } => {
            lemma_message_on("write"@, tmp, cause);
        },
        Session::Syncing { path, tmp } => {},
        Session::Renaming { path, tmp } => {
            lemma_message_between("rename"@, tmp, path, cause);
        },
        Session::EnsuringDestination { parent, source, dest } => {
            lemma_message_on("create_dir_all"@, parent, cause);
        },
        Session::Copying { source, dest } => {
            lemma_message_between("copy"@, source, dest, cause);
        },
    }
}

} // verus!
