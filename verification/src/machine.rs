//! The download pipeline as a step-by-step state machine. The verified steps
//! make every decision; an unverified shell performs the filesystem and
//! network action each state asks for and reports its outcome back. A state
//! is abstracted by [`State`], its view over plain character sequences.

use vstd::prelude::*;
use crate::post::{DownloadError, Post};

verus! {

/// Outcome of the fetch-and-write action, as observed by the shell.
#[derive(Clone, Copy, Debug, PartialEq, Eq, Structural)]
pub enum TransferOutcome {
    /// The full response body was written to the destination.
    Completed,
    /// Request construction or the network transfer failed.
    RequestFailed,
    /// Creating or writing the destination file failed.
    WriteFailed,
}

/// Abstract pipeline state: what the machine has decided so far and which
/// action it asks for next.
pub enum State {
    /// The destination directory must be created (idempotently) next.
    CreatingDir { url: Seq<char>, dir: Seq<char>, path: Seq<char> },
    /// The destination path must be tested for existence next.
    CheckingFile { url: Seq<char>, path: Seq<char> },
    /// The URL must be fetched and its body streamed to the path next.
    Transferring { url: Seq<char>, path: Seq<char> },
    /// Terminal: the asset is on disk, freshly written or already present.
    Done,
    /// Terminal: the pipeline was abandoned with this error.
    Failed { error: DownloadError },
}

/// First step: select the URL variant and resolve the destination. A record
/// whose chosen variant is absent fails immediately with `MissingUrl`.
pub open spec fn spec_start(post: Post, base: Seq<char>) -> State {
    match post.spec_selected_url() {
        Some(url) => State::CreatingDir {
            url,
            dir: post.spec_dir(base),
            path: post.spec_path(base),
        },
        None => State::Failed { error: DownloadError::MissingUrl },
    }
}

/// Step taken once the shell has tried to create the destination directory.
/// Any state not waiting on that action is left unchanged.
pub open spec fn spec_on_dir_created(s: State, ok: bool) -> State {
    match s {
        State::CreatingDir { url, dir, path } => if ok {
            State::CheckingFile { url, path }
        } else {
            State::Failed { error: DownloadError::FilesystemError }
        },
        _ => s,
    }
}

/// Step taken once the shell has tested the destination for existence: a
/// pre-existing file completes the pipeline without any transfer. Any state
/// not waiting on that action is left unchanged.
pub open spec fn spec_on_existence(s: State, exists_already: bool) -> State {
    match s {
        State::CheckingFile { url, path } => if exists_already {
            State::Done
        } else {
            State::Transferring { url, path }
        },
        _ => s,
    }
}

/// Step taken once the shell has attempted the fetch-and-write. Any state
/// not waiting on that action is left unchanged.
pub open spec fn spec_on_transfer(s: State, outcome: TransferOutcome) -> State {
    match s {
        State::Transferring { url, path } => match outcome {
            TransferOutcome::Completed => State::Done,
            TransferOutcome::RequestFailed => State::Failed {
                error: DownloadError::TransferError,
            },
            TransferOutcome::WriteFailed => State::Failed {
                error: DownloadError::FilesystemError,
            },
        },
        _ => s,
    }
}

/// What a terminal state reports: success, or the error it failed with.
pub open spec fn spec_result(s: State) -> Option<Result<(), DownloadError>> {
    match s {
        State::Done => Some(Ok(())),
        State::Failed { error } => Some(Err(error)),
        _ => None,
    }
}

/// Executable pipeline state; its view is the [`State`] it stands for.
#[derive(Debug)]
pub enum Downloader {
    CreatingDir { url: String, dir: String, path: String },
    CheckingFile { url: String, path: String },
    Transferring { url: String, path: String },
    Done,
    Failed { error: DownloadError },
}

impl View for Downloader {
    type V = State;

    open spec fn view(&self) -> State {
        match self {
            Downloader::CreatingDir { url, dir, path } => State::CreatingDir {
                url: url@,
                dir: dir@,
                path: path@,
            },
            Downloader::CheckingFile { url, path } => State::CheckingFile {
                url: url@,
                path: path@,
            },
            Downloader::Transferring { url, path } => State::Transferring {
                url: url@,
                path: path@,
            },
            Downloader::Done => State::Done,
            Downloader::Failed { error } => State::Failed { error: *error },
        }
    }
}

impl Downloader {
    /// Begin the pipeline for one record: pick the URL variant, correct the
    /// extension, and resolve the destination under `base`.
    pub fn start(post: Post, base: &str) -> (d: Downloader)
        ensures
            d@ == spec_start(post, base@),
    {
        let dir = post.dir(base);
        let path = post.path(base);
        let alt = post.alt_selected();
        if alt {
            match post.large_file_url {
                Some(url) => Downloader::CreatingDir { url, dir, path },
                None => Downloader::Failed { error: DownloadError::MissingUrl },
            }
        } else {
            match post.file_url {
                Some(url) => Downloader::CreatingDir { url, dir, path },
                None => Downloader::Failed { error: DownloadError::MissingUrl },
            }
        }
    }

    /// Advance after the shell tried to create the destination directory.
    pub fn on_dir_created(self, ok: bool) -> (d: Downloader)
        ensures
            d@ == spec_on_dir_created(self@, ok),
    {
        match self {
            Downloader::CreatingDir { url, dir: _, path } => if ok {
                Downloader::CheckingFile { url, path }
            } else {
                Downloader::Failed { error: DownloadError::FilesystemError }
            },
            other => other,
        }
    }

    /// Advance after the shell tested the destination for existence.
    pub fn on_existence(self, exists_already: bool) -> (d: Downloader)
        ensures
            d@ == spec_on_existence(self@, exists_already),
    {
        match self {
            Downloader::CheckingFile { url, path } => if exists_already {
                Downloader::Done
            } else {
                Downloader::Transferring { url, path }
            },
            other => other,
        }
    }

    /// Advance after the shell attempted the fetch-and-write.
    pub fn on_transfer(self, outcome: TransferOutcome) -> (d: Downloader)
        ensures
            d@ == spec_on_transfer(self@, outcome),
    {
        match self {
            Downloader::Transferring { url: _, path: _ } => match outcome {
                TransferOutcome::Completed => Downloader::Done,
                TransferOutcome::RequestFailed => Downloader::Failed {
                    error: DownloadError::TransferError,
                },
                TransferOutcome::WriteFailed => Downloader::Failed {
                    error: DownloadError::FilesystemError,
                },
            },
            other => other,
        }
    }

    /// The pipeline's outcome, once a terminal state is reached.
    pub fn result(&self) -> (r: Option<Result<(), DownloadError>>)
        ensures
            r == spec_result(self@),
    {
        match self {
            Downloader::Done => Some(Ok(())),
            Downloader::Failed { error } => Some(Err(*error)),
            _ => None,
        }
    }
}

/// Law: when the destination file already exists, the pipeline completes
/// successfully without ever entering the transferring state — no network
/// request is issued for a record whose asset is already on disk.
pub proof fn lemma_preexisting_file_skips_transfer(post: Post, base: Seq<char>)
    requires
        post.spec_has_url(),
    ensures
        ({
            let started = spec_start(post, base);
            let dir_ready = spec_on_dir_created(started, true);
            let checked = spec_on_existence(dir_ready, true);
            &&& !(started is Transferring)
            &&& !(dir_ready is Transferring)
            &&& checked is Done
        }),
{
}

/// Law: a record with neither candidate URL present fails at the very first
/// step with `MissingUrl`, and that state is terminal — no later event moves
/// it, so the pipeline never asks for a directory, an existence check, or a
/// transfer, and no file is created for the record.
pub proof fn lemma_both_urls_absent_fail(post: Post, base: Seq<char>)
    requires
        post.file_url is None,
        post.large_file_url is None,
    ensures
        spec_start(post, base) == (State::Failed { error: DownloadError::MissingUrl }),
        forall|ok: bool|
            spec_on_dir_created(spec_start(post, base), ok) == spec_start(post, base),
        forall|exists_already: bool|
            spec_on_existence(spec_start(post, base), exists_already) == spec_start(post, base),
        forall|outcome: TransferOutcome|
            spec_on_transfer(spec_start(post, base), outcome) == spec_start(post, base),
{
}

} // verus!
