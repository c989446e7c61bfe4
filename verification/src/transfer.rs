//! Copying to a target: the steps of sending one file, and the steps of
//! sending a directory tree.
//!
//! The channel and the local disk belong to the caller. [`FileTransfer`]
//! says what to do next for one file; [`directory_copy_steps`] lays out the
//! work for a tree whose files the caller has listed.

use crate::error::{TransferError, TransferErrorView};
use crate::path::{parent_dir, parent_of};
use vstd::prelude::*;

verus! {

/// Permission bits of a file created on the target: readable by all,
/// writable by its owner, not executable.
pub const REMOTE_FILE_MODE: u32 = 0o644;

/// Where the transfer of one file stands.
#[derive(Clone, Copy, Debug, PartialEq, Eq, Structural)]
pub enum TransferState {
    /// The local file is being read into memory.
    AwaitLocalRead,
    /// The write stream to the remote path is being opened.
    AwaitRemoteOpen,
    /// The payload is being written.
    AwaitWrite,
    /// The end of the data is being signalled.
    AwaitSendEof,
    /// The peer's end-of-data signal is awaited.
    AwaitPeerEof,
    /// The stream is being closed.
    AwaitClose,
    /// The peer's close is awaited.
    AwaitClosed,
    /// The file has arrived and the stream is closed on both sides.
    Done,
    /// The local file does not exist.
    LocalMissing,
    /// The protocol failed.
    Failed,
}

/// What happened to the pending action of a transfer. A failure carries
/// what the system or the peer said of it.
#[derive(Debug, PartialEq, Eq)]
pub enum TransferEvent {
    /// The local file was read; it holds `size` bytes.
    LocalRead { size: u64 },
    /// The local file does not exist or cannot be read.
    LocalMissing(String),
    /// The pending action succeeded.
    Completed,
    /// The pending action failed on the channel.
    ProtocolError(String),
}

/// Mathematical model of a [`TransferEvent`].
pub enum TransferEventView {
    LocalRead { size: u64 },
    LocalMissing(Seq<char>),
    Completed,
    ProtocolError(Seq<char>),
}

impl View for TransferEvent {
    type V = TransferEventView;

    open spec fn view(&self) -> TransferEventView {
        match self {
            TransferEvent::LocalRead { size } => TransferEventView::LocalRead { size: *size },
            TransferEvent::LocalMissing(said) => TransferEventView::LocalMissing(said@),
            TransferEvent::Completed => TransferEventView::Completed,
            TransferEvent::ProtocolError(said) => TransferEventView::ProtocolError(said@),
        }
    }
}

/// What the caller is to do next for a transfer.
#[derive(Debug, PartialEq, Eq)]
pub enum TransferAction {
    /// Read the local file at `path` into memory.
    ReadLocal { path: String },
    /// Open a write stream to `path` for `size` bytes with the permission
    /// bits `mode`.
    OpenRemote { path: String, mode: u32, size: u64 },
    /// Write the whole payload.
    WritePayload,
    /// Signal the end of the data.
    SendEof,
    /// Wait for the peer's end-of-data signal.
    WaitEof,
    /// Close the stream.
    Close,
    /// Wait for the peer's close.
    WaitClose,
}

/// Mathematical model of a [`TransferAction`].
pub enum TransferActionView {
    ReadLocal { path: Seq<char> },
    OpenRemote { path: Seq<char>, mode: u32, size: u64 },
    WritePayload,
    SendEof,
    WaitEof,
    Close,
    WaitClose,
}

impl View for TransferAction {
    type V = TransferActionView;

    open spec fn view(&self) -> TransferActionView {
        match self {
            TransferAction::ReadLocal { path } => TransferActionView::ReadLocal { path: path@ },
            TransferAction::OpenRemote { path, mode, size } => TransferActionView::OpenRemote {
                path: path@,
                mode: *mode,
                size: *size,
            },
            TransferAction::WritePayload => TransferActionView::WritePayload,
            TransferAction::SendEof => TransferActionView::SendEof,
            TransferAction::WaitEof => TransferActionView::WaitEof,
            TransferAction::Close => TransferActionView::Close,
            TransferAction::WaitClose => TransferActionView::WaitClose,
        }
    }
}

/// Whether the state waits for an action on the channel.
pub open spec fn on_channel(state: TransferState) -> bool {
    state is AwaitRemoteOpen || state is AwaitWrite || state is AwaitSendEof || state
        is AwaitPeerEof || state is AwaitClose || state is AwaitClosed
}

/// The state after `event`.
///
/// The file is read, the stream opened, the payload written, and the
/// stream shut down in four steps: send the end of data, wait for the
/// peer's, close, wait for the peer's close. A missing local file and a
/// failure on the channel end the transfer. An event that does not answer
/// the pending action changes nothing.
pub open spec fn transfer_step(state: TransferState, event: TransferEventView) -> TransferState {
    match (state, event) {
        (TransferState::AwaitLocalRead, TransferEventView::LocalRead { size }) => {
            TransferState::AwaitRemoteOpen
        },
        (TransferState::AwaitLocalRead, TransferEventView::LocalMissing(_)) => {
            TransferState::LocalMissing
        },
        (TransferState::AwaitRemoteOpen, TransferEventView::Completed) => TransferState::AwaitWrite,
        (TransferState::AwaitWrite, TransferEventView::Completed) => TransferState::AwaitSendEof,
        (TransferState::AwaitSendEof, TransferEventView::Completed) => TransferState::AwaitPeerEof,
        (TransferState::AwaitPeerEof, TransferEventView::Completed) => TransferState::AwaitClose,
        (TransferState::AwaitClose, TransferEventView::Completed) => TransferState::AwaitClosed,
        (TransferState::AwaitClosed, TransferEventView::Completed) => TransferState::Done,
        (_, TransferEventView::ProtocolError(_)) => if on_channel(state) {
            TransferState::Failed
        } else {
            state
        },
        _ => state,
    }
}

/// The payload size known after `event`: the size of the local file once
/// it was read.
pub open spec fn transfer_size(state: TransferState, size: u64, event: TransferEventView) -> u64 {
    match (state, event) {
        (TransferState::AwaitLocalRead, TransferEventView::LocalRead { size: read }) => read,
        _ => size,
    }
}

/// What is known of the failure after `event`: the text of a failure that
/// answers the pending action, else what was known before.
pub open spec fn transfer_detail(state: TransferState, detail: Seq<char>, event: TransferEventView)
    -> Seq<char> {
    match (state, event) {
        (TransferState::AwaitLocalRead, TransferEventView::LocalMissing(said)) => said,
        (_, TransferEventView::ProtocolError(said)) => if on_channel(state) {
            said
        } else {
            detail
        },
        _ => detail,
    }
}

/// Whether the transfer has ended.
pub open spec fn transfer_ended(state: TransferState) -> bool {
    state is Done || state is LocalMissing || state is Failed
}

/// The action that a state asks for; none once the transfer has ended.
pub open spec fn transfer_action(
    local: Seq<char>,
    remote: Seq<char>,
    size: u64,
    state: TransferState,
) -> Option<TransferActionView> {
    match state {
        TransferState::AwaitLocalRead => Some(TransferActionView::ReadLocal { path: local }),
        TransferState::AwaitRemoteOpen => Some(
            TransferActionView::OpenRemote { path: remote, mode: REMOTE_FILE_MODE, size: size },
        ),
        TransferState::AwaitWrite => Some(TransferActionView::WritePayload),
        TransferState::AwaitSendEof => Some(TransferActionView::SendEof),
        TransferState::AwaitPeerEof => Some(TransferActionView::WaitEof),
        TransferState::AwaitClose => Some(TransferActionView::Close),
        TransferState::AwaitClosed => Some(TransferActionView::WaitClose),
        _ => None,
    }
}

/// How a transfer that has ended went. A failure carries what was said
/// of it.
pub open spec fn transfer_outcome(
    local: Seq<char>,
    remote: Seq<char>,
    state: TransferState,
    detail: Seq<char>,
) -> Option<Result<(), TransferErrorView>> {
    match state {
        TransferState::Done => Some(Ok(())),
        TransferState::LocalMissing => Some(
            Err(TransferErrorView::LocalFileNotFound { path: local, detail: detail }),
        ),
        TransferState::Failed => Some(
            Err(TransferErrorView::TransferFailed { path: remote, detail: detail }),
        ),
        _ => None,
    }
}

/// The state after a sequence of events.
pub open spec fn transfer_run(state: TransferState, events: Seq<TransferEventView>)
    -> TransferState
    decreases events.len(),
{
    if events.len() == 0 {
        state
    } else {
        transfer_run(transfer_step(state, events[0]), events.drop_first())
    }
}

/// The transfer of one file.
#[derive(Debug, PartialEq, Eq)]
pub struct FileTransfer {
    /// Path of the file on the local disk.
    pub local: String,
    /// Path of the file on the target.
    pub remote: String,
    /// Size of the payload in bytes, known once the local file was read.
    pub size: u64,
    pub state: TransferState,
    /// What was said of the step that failed; empty if none did.
    pub detail: String,
}

impl FileTransfer {
    /// A new transfer, which begins with reading the local file.
    pub fn start(local: String, remote: String) -> (r: FileTransfer)
        ensures
            r.local == local,
            r.remote == remote,
            r.size == 0,
            r.state == TransferState::AwaitLocalRead,
            r.detail@.len() == 0,
    {
        FileTransfer {
            local,
            remote,
            size: 0,
            state: TransferState::AwaitLocalRead,
            detail: String::new(),
        }
    }

    /// What the caller is to do next; nothing once the transfer has ended.
    pub fn pending(&self) -> (r: Option<TransferAction>)
        ensures
            match r {
                Some(action) => transfer_action(self.local@, self.remote@, self.size, self.state)
                    == Some(action@),
                None => transfer_action(self.local@, self.remote@, self.size, self.state) is None,
            },
            r is None <==> transfer_ended(self.state),
    {
        match self.state {
            TransferState::AwaitLocalRead => Some(
                TransferAction::ReadLocal { path: self.local.clone() },
            ),
            TransferState::AwaitRemoteOpen => Some(
                TransferAction::OpenRemote {
                    path: self.remote.clone(),
                    mode: REMOTE_FILE_MODE,
                    size: self.size,
                },
            ),
            TransferState::AwaitWrite => Some(TransferAction::WritePayload),
            TransferState::AwaitSendEof => Some(TransferAction::SendEof),
            TransferState::AwaitPeerEof => Some(TransferAction::WaitEof),
            TransferState::AwaitClose => Some(TransferAction::Close),
            TransferState::AwaitClosed => Some(TransferAction::WaitClose),
            _ => None,
        }
    }

    /// Takes what happened to the pending action.
    pub fn advance(&mut self, event: TransferEvent)
        ensures
            final(self).local == old(self).local,
            final(self).remote == old(self).remote,
            final(self).state == transfer_step(old(self).state, event@),
            final(self).size == transfer_size(old(self).state, old(self).size, event@),
            final(self).detail@ == transfer_detail(old(self).state, old(self).detail@, event@),
    {
        match (self.state, event) {
            (TransferState::AwaitLocalRead, TransferEvent::LocalRead { size }) => {
                self.size = size;
                self.state = TransferState::AwaitRemoteOpen;
            },
            (TransferState::AwaitLocalRead, TransferEvent::LocalMissing(said)) => {
                self.state = TransferState::LocalMissing;
                self.detail = said;
            },
            (TransferState::AwaitRemoteOpen, TransferEvent::Completed) => {
                self.state = TransferState::AwaitWrite;
            },
            (TransferState::AwaitWrite, TransferEvent::Completed) => {
                self.state = TransferState::AwaitSendEof;
            },
            (TransferState::AwaitSendEof, TransferEvent::Completed) => {
                self.state = TransferState::AwaitPeerEof;
            },
            (TransferState::AwaitPeerEof, TransferEvent::Completed) => {
                self.state = TransferState::AwaitClose;
            },
            (TransferState::AwaitClose, TransferEvent::Completed) => {
                self.state = TransferState::AwaitClosed;
            },
            (TransferState::AwaitClosed, TransferEvent::Completed) => {
                self.state = TransferState::Done;
            },
            (TransferState::AwaitRemoteOpen, TransferEvent::ProtocolError(said))
            | (TransferState::AwaitWrite, TransferEvent::ProtocolError(said))
            | (TransferState::AwaitSendEof, TransferEvent::ProtocolError(said))
            | (TransferState::AwaitPeerEof, TransferEvent::ProtocolError(said))
            | (TransferState::AwaitClose, TransferEvent::ProtocolError(said))
            | (TransferState::AwaitClosed, TransferEvent::ProtocolError(said)) => {
                self.state = TransferState::Failed;
                self.detail = said;
            },
            _ => {},
        }
    }

    /// How the transfer went, once it has ended.
    pub fn outcome(&self) -> (r: Option<Result<(), TransferError>>)
        ensures
            match r {
                Some(Ok(())) => transfer_outcome(
                    self.local@,
                    self.remote@,
                    self.state,
                    self.detail@,
                ) == Some(Ok::<(), TransferErrorView>(())),
                Some(Err(e)) => transfer_outcome(
                    self.local@,
                    self.remote@,
                    self.state,
                    self.detail@,
                ) == Some(Err::<(), TransferErrorView>(e@)),
                None => transfer_outcome(self.local@, self.remote@, self.state, self.detail@)
                    is None,
            },
            r is Some <==> transfer_ended(self.state),
    {
        match self.state {
            TransferState::Done => Some(Ok(())),
            TransferState::LocalMissing => Some(
                Err(
                    TransferError::LocalFileNotFound {
                        path: self.local.clone(),
                        detail: self.detail.clone(),
                    },
                ),
            ),
            TransferState::Failed => Some(
                Err(
                    TransferError::TransferFailed {
                        path: self.remote.clone(),
                        detail: self.detail.clone(),
                    },
                ),
            ),
            _ => None,
        }
    }
}

/// A transfer that has ended stays as it is.
pub proof fn lemma_transfer_ended_is_final(state: TransferState, events: Seq<TransferEventView>)
    requires
        transfer_ended(state),
    ensures
        transfer_run(state, events) == state,
    decreases events.len(),
{
    if events.len() > 0 {
        lemma_transfer_ended_is_final(state, events.drop_first());
    }
}

/// A transfer whose every step succeeds is done after the read, the open,
/// the write and the four steps of the shutdown.
pub proof fn lemma_transfer_completes(size: u64)
    ensures
        transfer_run(
            TransferState::AwaitLocalRead,
            seq![
                TransferEventView::LocalRead { size: size },
                TransferEventView::Completed,
                TransferEventView::Completed,
                TransferEventView::Completed,
                TransferEventView::Completed,
                TransferEventView::Completed,
                TransferEventView::Completed,
            ],
        ) == TransferState::Done,
{
    let e = seq![
        TransferEventView::LocalRead { size: size },
        TransferEventView::Completed,
        TransferEventView::Completed,
        TransferEventView::Completed,
        TransferEventView::Completed,
        TransferEventView::Completed,
        TransferEventView::Completed,
    ];
    let e1 = e.drop_first();
    let e2 = e1.drop_first();
    let e3 = e2.drop_first();
    let e4 = e3.drop_first();
    let e5 = e4.drop_first();
    let e6 = e5.drop_first();
    let e7 = e6.drop_first();
    assert(e7.len() == 0);
    assert(transfer_run(TransferState::Done, e7) == TransferState::Done);
    assert(transfer_run(TransferState::AwaitClosed, e6) == TransferState::Done);
    assert(transfer_run(TransferState::AwaitClose, e5) == TransferState::Done);
    assert(transfer_run(TransferState::AwaitPeerEof, e4) == TransferState::Done);
    assert(transfer_run(TransferState::AwaitSendEof, e3) == TransferState::Done);
    assert(transfer_run(TransferState::AwaitWrite, e2) == TransferState::Done);
    assert(transfer_run(TransferState::AwaitRemoteOpen, e1) == TransferState::Done);
}

/// A transfer is done only when the peer's close was awaited with success.
pub proof fn lemma_done_after_close(state: TransferState, event: TransferEventView)
    requires
        !(state is Done),
        transfer_step(state, event) is Done,
    ensures
        state is AwaitClosed,
        event is Completed,
{
}

/// One file found under a local directory.
#[derive(Debug, PartialEq, Eq)]
pub struct LocalFile {
    /// Path of the file on the local disk.
    pub path: String,
    /// Path of the file relative to the directory that is copied.
    pub relative: String,
}

/// One step of copying a directory tree.
#[derive(Debug, PartialEq, Eq)]
pub enum DirectoryStep {
    /// Create this remote directory with its parents.
    MakeDirectory(String),
    /// Send the local file to the remote path.
    CopyFile { local: String, remote: String },
}

/// Mathematical model of a [`DirectoryStep`].
pub enum DirectoryStepView {
    MakeDirectory(Seq<char>),
    CopyFile { local: Seq<char>, remote: Seq<char> },
}

impl View for DirectoryStep {
    type V = DirectoryStepView;

    open spec fn view(&self) -> DirectoryStepView {
        match self {
            DirectoryStep::MakeDirectory(path) => DirectoryStepView::MakeDirectory(path@),
            DirectoryStep::CopyFile { local, remote } => DirectoryStepView::CopyFile {
                local: local@,
                remote: remote@,
            },
        }
    }
}

/// The models of a list of steps.
pub open spec fn step_views(steps: Seq<DirectoryStep>) -> Seq<DirectoryStepView> {
    steps.map_values(|s: DirectoryStep| s@)
}

/// Where a file lands on the target: its relative path under the remote
/// directory.
pub open spec fn remote_file_path(remote_dir: Seq<char>, relative: Seq<char>) -> Seq<char> {
    remote_dir + "/"@ + relative
}

/// The steps for one file: its remote directory is created, then the file
/// is sent.
pub open spec fn file_steps(remote_dir: Seq<char>, path: Seq<char>, relative: Seq<char>) -> Seq<
    DirectoryStepView,
> {
    let remote = remote_file_path(remote_dir, relative);
    let copy = seq![DirectoryStepView::CopyFile { local: path, remote: remote }];
    match parent_dir(remote) {
        Some(parent) => seq![DirectoryStepView::MakeDirectory(parent)] + copy,
        None => copy,
    }
}

/// The steps for the first `count` files: the remote directory is created,
/// then each file is handled in turn.
pub open spec fn directory_steps(remote_dir: Seq<char>, files: Seq<LocalFile>, count: int) -> Seq<
    DirectoryStepView,
>
    decreases count,
{
    if count <= 0 {
        seq![DirectoryStepView::MakeDirectory(remote_dir)]
    } else {
        directory_steps(remote_dir, files, count - 1) + file_steps(
            remote_dir,
            files[count - 1].path@,
            files[count - 1].relative@,
        )
    }
}

/// Lays out the copy of a directory tree to `remote_dir`, given the files
/// found under the local directory.
///
/// The remote directory is created first. Each file keeps its relative
/// path under it; the directory that holds it is created right before it
/// is sent.
pub fn directory_copy_steps(remote_dir: &str, files: &Vec<LocalFile>) -> (steps: Vec<
    DirectoryStep,
>)
    ensures
        step_views(steps@) == directory_steps(remote_dir@, files@, files@.len() as int),
{
    let mut steps: Vec<DirectoryStep> = Vec::new();
    steps.push(DirectoryStep::MakeDirectory(String::from_str(remote_dir)));
    assert(step_views(steps@) =~= directory_steps(remote_dir@, files@, 0));
    let mut i: usize = 0;
    while i < files.len()
        invariant
            i <= files.len(),
            step_views(steps@) == directory_steps(remote_dir@, files@, i as int),
        decreases files.len() - i,
    {
        let ghost before = step_views(steps@);
        let mut remote = String::from_str(remote_dir);
        remote.append("/");
        remote.append(files[i].relative.as_str());
        match parent_of(remote.as_str()) {
            Some(parent) => {
                steps.push(DirectoryStep::MakeDirectory(parent));
            },
            None => {},
        }
        steps.push(DirectoryStep::CopyFile { local: files[i].path.clone(), remote });
        i += 1;
        assert(step_views(steps@) =~= before + file_steps(
            remote_dir@,
            files@[i - 1].path@,
            files@[i - 1].relative@,
        ));
    }
    steps
}

} // verus!
