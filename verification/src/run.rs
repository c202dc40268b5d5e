//! Runs: a command started on a machine, and the calls answered so far.

use crate::host::{answers, Host};
use crate::model::{next, start};
use crate::paths::{data_dir_of, document_path};
use crate::protocol::{Answer, Command, Request, Session, Step};
use vstd::prelude::*;
use vstd::utf8::encode_utf8;

verus! {

/// One answered call: what the driver reported, and the state the machine
/// was in afterwards.
pub struct Exchange {
    pub answer: Answer<Seq<char>>,
    pub after: Host,
}

/// Where `command` stands once the calls it asked for have been answered as
/// `exchanges` tells, in that order.
pub open spec fn step_after(command: Command<Seq<char>>, exchanges: Seq<Exchange>) -> Step<
    Seq<char>,
>
    decreases exchanges.len(),
{
    if exchanges.len() == 0 {
        start(command)
    } else {
        match step_after(command, exchanges.drop_last()) {
            Step::Ask { request, session } => next(session, exchanges.last().answer),
            Step::Finish { result } => Step::Finish { result },
        }
    }
}

/// The state of the machine after `exchanges`, having started in `initial`.
pub open spec fn host_after(initial: Host, exchanges: Seq<Exchange>) -> Host {
    if exchanges.len() == 0 {
        initial
    } else {
        exchanges.last().after
    }
}

/// Whether `exchanges` can happen when `command` is run on a machine in
/// state `initial`: each answers the call that the command asked for at that
/// point, in a way the machine allows, and none follows the command's end.
pub open spec fn feasible(
    command: Command<Seq<char>>,
    initial: Host,
    exchanges: Seq<Exchange>,
) -> bool
    decreases exchanges.len(),
{
    exchanges.len() == 0 || {
        let earlier = exchanges.drop_last();
        &&& feasible(command, initial, earlier)
        &&& match step_after(command, earlier) {
            Step::Ask { request, session } => answers(
                host_after(initial, earlier),
                request,
                exchanges.last().answer,
                exchanges.last().after,
            ),
            Step::Finish { result } => false,
        }
    }
}

/// The data directory of the machine: the one beside its executable.
pub open spec fn data_dir(host: Host) -> Seq<char> {
    data_dir_of(host.exe.unwrap())
}

/// The path of the document that `command` is about, on `host`.
pub open spec fn document_of(command: Command<Seq<char>>, host: Host) -> Seq<char> {
    match command {
        Command::Load { name } => document_path(data_dir(host), name),
        Command::Save { name, contents } => document_path(data_dir(host), name),
        Command::Export { name, dest_path } => document_path(data_dir(host), name),
        Command::Import { name, src_path } => document_path(data_dir(host), name),
        Command::GetDataDir => data_dir(host),
    }
}

/// The bytes that `command` is to put in its document: the encoding of the
/// text to save, or what the file to import holds in `host`.
pub open spec fn bytes_to_write(command: Command<Seq<char>>, host: Host) -> Seq<u8> {
    match command {
        Command::Save { name, contents } => encode_utf8(contents),
        Command::Import { name, src_path } => host.files[src_path],
        _ => Seq::empty(),
    }
}

/// Whether a step is the successful end of a command.
pub open spec fn succeeded(step: Step<Seq<char>>) -> bool {
    step matches Step::Finish { result } && result is Ok
}

/// Induction over a run: what holds at the start, and is kept by every call
/// that the machine can answer, holds wherever the run stands.
pub proof fn lemma_holds_throughout(
    command: Command<Seq<char>>,
    initial: Host,
    exchanges: Seq<Exchange>,
    inv: spec_fn(Step<Seq<char>>, Host) -> bool,
)
    requires
        feasible(command, initial, exchanges),
        inv(start(command), initial),
        forall|
            request: Request<Seq<char>>,
            session: Session<Seq<char>>,
            before: Host,
            answer: Answer<Seq<char>>,
            after: Host,
        |
            #![trigger inv(Step::Ask { request, session }, before), answers(before, request, answer, after)]
            inv(Step::Ask { request, session }, before) && answers(before, request, answer, after)
                ==> inv(next(session, answer), after),
    ensures
        inv(step_after(command, exchanges), host_after(initial, exchanges)),
    decreases exchanges.len(),
{
    if exchanges.len() > 0 {
        let earlier = exchanges.drop_last();
        lemma_holds_throughout(command, initial, earlier, inv);
        match step_after(command, earlier) {
            Step::Ask { request, session } => {
                assert(answers(
                    host_after(initial, earlier),
                    request,
                    exchanges.last().answer,
                    exchanges.last().after,
                ));
            },
            Step::Finish { result } => {},
        }
    }
}

} // verus!
