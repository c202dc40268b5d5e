//! A model of the machine that the driver runs on: where the executable is,
//! which directories exist and what each file holds. Nothing here is
//! executed. The laws are theorems about the state machine on a machine that
//! behaves as `answers` says; they claim nothing of one that does not, such
//! as a file system on which two different paths name one file.

use crate::protocol::{Answer, Request};
use vstd::prelude::*;
use vstd::utf8::encode_utf8;

verus! {

/// The state of the machine between two calls.
pub struct Host {
    /// The path of the running executable, where it can be found.
    pub exe: Option<Seq<char>>,
    /// The directories that exist.
    pub dirs: Set<Seq<char>>,
    /// The files that exist, each with the bytes it holds.
    pub files: Map<Seq<char>, Seq<u8>>,
}

impl Host {
    /// What the file at `path` holds, or `None` where there is none.
    pub open spec fn file_at(self, path: Seq<char>) -> Option<Seq<u8>> {
        if self.files.contains_key(path) {
            Some(self.files[path])
        } else {
            None
        }
    }

    /// `self` with the file at `path` holding `bytes`.
    pub open spec fn with_file(self, path: Seq<char>, bytes: Seq<u8>) -> Host {
        Host { files: self.files.insert(path, bytes), ..self }
    }

    /// `self` without a file at `path`.
    pub open spec fn without_file(self, path: Seq<char>) -> Host {
        Host { files: self.files.remove(path), ..self }
    }

    /// `later` differs from `self` in no file but, at most, the one at
    /// `path`; the executable has not moved and no directory is gone.
    pub open spec fn same_but(self, later: Host, path: Seq<char>) -> bool {
        &&& later.exe == self.exe
        &&& self.dirs.subset_of(later.dirs)
        &&& forall|other: Seq<char>| other != path ==> later.file_at(other) == self.file_at(other)
    }

    /// `later` holds the files of `self`, unchanged; the executable has not
    /// moved and no directory is gone.
    pub open spec fn same_files(self, later: Host) -> bool {
        &&& later.exe == self.exe
        &&& self.dirs.subset_of(later.dirs)
        &&& later.files == self.files
    }
}

/// Whether the machine in state `before` can answer `request` by `answer`
/// and be in state `after`.
///
/// A call that succeeds does what its name says. A call on files may fail
/// for any reason, and then changes nothing but, at most, the file it was
/// writing. What is taken for granted beyond that: the executable is found
/// whenever it has a path; creating a directory that exists does not fail;
/// reading and copying fail with `not_found` exactly where the file to read
/// is not there, and a copy that fails so changes nothing; reading yields a
/// text only where the file holds the encoding of that text; no call moves
/// the executable or removes a directory.
pub open spec fn answers(
    before: Host,
    request: Request<Seq<char>>,
    answer: Answer<Seq<char>>,
    after: Host,
) -> bool {
    match request {
        Request::CurrentExe => {
            &&& after == before
            &&& match answer {
                Answer::Text(exe) => before.exe == Some(exe),
                Answer::Failed(_) => before.exe.is_none(),
                Answer::Done => false,
            }
        },
        Request::CreateDirAll { path } => {
            &&& before.same_files(after)
            &&& match answer {
                Answer::Done => after.dirs.contains(path),
                Answer::Failed(_) => !before.dirs.contains(path),
                Answer::Text(_) => false,
            }
        },
        Request::CreateFile { path } => match answer {
            Answer::Done => after == before.with_file(path, Seq::empty()),
            Answer::Failed(_) => after == before,
            Answer::Text(_) => false,
        },
        Request::WriteAll { path, contents } => match answer {
            Answer::Done => {
                &&& before.files.contains_key(path)
                &&& after == before.with_file(path, before.files[path] + encode_utf8(contents))
            },
            Answer::Failed(_) => before.same_but(after, path),
            Answer::Text(_) => false,
        },
        Request::SyncAll { path } => {
            &&& after == before
            &&& !(answer is Text)
        },
        Request::Rename { from, to } => match answer {
            Answer::Done => {
                &&& before.files.contains_key(from)
                &&& after == before.without_file(from).with_file(to, before.files[from])
            },
            Answer::Failed(_) => after == before,
            Answer::Text(_) => false,
        },
        Request::ReadToString { path } => {
            &&& after == before
            &&& match answer {
                Answer::Text(text) => before.file_at(path) == Some(encode_utf8(text)),
                Answer::Failed(failure) => failure.not_found <==> before.file_at(path).is_none(),
                Answer::Done => false,
            }
        },
        Request::Copy { from, to } => match answer {
            Answer::Done => {
                &&& before.files.contains_key(from)
                &&& before.same_but(after, to)
                &&& from != to ==> after.file_at(to) == before.file_at(from)
            },
            Answer::Failed(failure) => {
                &&& failure.not_found <==> before.file_at(from).is_none()
                &&& failure.not_found ==> after == before
                &&& before.same_but(after, to)
            },
            Answer::Text(_) => false,
        },
    }
}

} // verus!
