//! The tailer: the offset into a followed file, kept across polls, rotations,
//! truncations and restarts.
//!
//! The tailer holds no file. Whoever owns the file reads its metadata before
//! each poll, and its bytes when the tailer asks for them; the tailer decides
//! where the read starts and what its outcome means.

use vstd::prelude::*;
use vstd::string::*;
use crate::forwarder::checkpoint::{decode, decode_spec, encode, encode_spec, lemma_decode_encode};
use crate::forwarder::error::TailError;
use crate::forwarder::file::{rotated_since, truncated_since, FileExtension, FileMeta};
use crate::owner::username;
use crate::path::{directory_prefix, directory_prefix_spec, join, join_spec};

verus! {

/// The most bytes that one poll asks for.
pub const BUFFER_SIZE: usize = 65536;

/// What came of opening the tailed file and asking for its metadata.
#[derive(Debug)]
pub enum OpenOutcome {
    /// The file could not be opened.
    Failed,
    /// The file is open, but its metadata could not be read.
    NoMetadata(std::io::Error),
    /// The file is open, with this metadata.
    Opened(FileMeta),
}

/// What came of reading the checkpoint file.
#[derive(Debug)]
pub enum CheckpointRead {
    /// No file could be opened at this location.
    Missing(String),
    /// The file is there, but reading it failed.
    Unreadable(std::io::Error),
    /// The bytes of the file.
    Content(Vec<u8>),
}

/// What came of one read of the tailed file at the tailer's offset.
#[derive(Debug)]
pub enum ReadOutcome {
    /// The reader could not be moved to the offset.
    SeekFailed(std::io::Error),
    /// The read itself failed.
    ReadFailed(std::io::Error),
    /// The bytes that were read: none at the end of the file.
    Data(Vec<u8>),
}

/// Where the next read starts and how many bytes it asks for at most.
#[derive(Clone, Copy, Debug, PartialEq, Eq, Structural)]
pub struct ReadRequest {
    pub offset: u64,
    pub length: usize,
}

/// A checkpoint to be written: the file and its new content.
#[derive(Debug)]
pub struct CheckpointWrite {
    pub location: String,
    pub content: Vec<u8>,
}

/// The tailer as contracts see it.
pub ghost struct TailState {
    /// Path of the tailed file.
    pub path: Seq<char>,
    /// Offset of the first byte that was not read yet.
    pub offset: u64,
    /// Inode of the tailed file as of the last check.
    pub inode: u64,
    /// The most bytes that one poll asks for.
    pub buffer_size: usize,
}

/// The state of one tailed file.
#[derive(Debug)]
pub struct Tail {
    path: String,
    checkpoint: u64,
    buffer_size: usize,
    inode: u64,
}

impl View for Tail {
    type V = TailState;

    closed spec fn view(&self) -> TailState {
        TailState {
            path: self.path@,
            offset: self.checkpoint,
            inode: self.inode,
            buffer_size: self.buffer_size,
        }
    }
}

/// The name of the checkpoint file.
pub open spec fn checkpoint_name() -> Seq<char> {
    ".checkpoint"@
}

/// The home directory that is assumed for `user` where none is known.
pub open spec fn users_home_spec(user: Seq<char>) -> Seq<char> {
    "/Users/"@ + user
}

/// The offset that a tailer starts from, given what came of reading the
/// checkpoint file: the offset it holds, or 0 where it holds none.
pub open spec fn restored_offset(read: CheckpointRead) -> u64 {
    match read {
        CheckpointRead::Content(content) => match decode_spec(content@) {
            Ok(offset) => offset,
            Err(_) => 0,
        },
        _ => 0,
    }
}

/// The offset after the check for truncation.
pub open spec fn offset_after_truncation(state: TailState, truncation: FileMeta) -> u64 {
    if truncated_since(truncation, state.inode, state.offset) {
        0
    } else {
        state.offset
    }
}

/// The error that the checks of a poll end in, if any: a check whose
/// metadata could not be read has failed, and so has the look for the new
/// inode of a rotated file.
pub open spec fn checks_failure(
    state: TailState,
    truncation: Result<FileMeta, std::io::Error>,
    rotation: Result<FileMeta, std::io::Error>,
    refreshed: Result<FileMeta, std::io::Error>,
) -> Option<TailError> {
    match truncation {
        Err(err) => Some(TailError::FileOperationError(err)),
        Ok(_) => match rotation {
            Err(err) => Some(TailError::FileOperationError(err)),
            Ok(moved) => match refreshed {
                Err(err) if rotated_since(moved, state.inode) => Some(
                    TailError::ReadMetadataError(err),
                ),
                _ => None,
            },
        },
    }
}

/// The state after the checks of a poll, failed or not: a truncated file is
/// read from its start again, and so is a rotated one, under its new inode.
/// The check for truncation goes by the inode from before the poll. A failed
/// check leaves the state as the checks before it made it.
pub open spec fn checked_state(
    state: TailState,
    truncation: Result<FileMeta, std::io::Error>,
    rotation: Result<FileMeta, std::io::Error>,
    refreshed: Result<FileMeta, std::io::Error>,
) -> TailState {
    match truncation {
        Err(_) => state,
        Ok(shrunk) => match (rotation, refreshed) {
            (Ok(moved), Ok(fresh)) if rotated_since(moved, state.inode) => TailState {
                offset: 0,
                inode: fresh.inode,
                ..state
            },
            _ => TailState { offset: offset_after_truncation(state, shrunk), ..state },
        },
    }
}

/// Where a tailer in `state` reads next.
pub open spec fn request_of(state: TailState) -> ReadRequest {
    ReadRequest { offset: state.offset, length: state.buffer_size }
}

/// The state after `count` more bytes were read.
pub open spec fn advanced(state: TailState, count: nat) -> TailState
    recommends
        state.offset + count <= u64::MAX,
{
    TailState { offset: (state.offset + count) as u64, ..state }
}

/// The state after a read came back with `outcome`: behind the bytes that
/// were read, or unchanged where the read failed.
pub open spec fn state_after_read(state: TailState, outcome: ReadOutcome) -> TailState {
    match outcome {
        ReadOutcome::Data(data) => advanced(state, data@.len()),
        _ => state,
    }
}

/// What a poll returns for a read that came back with `outcome`.
pub open spec fn read_result(outcome: ReadOutcome) -> Result<Vec<u8>, TailError> {
    match outcome {
        ReadOutcome::SeekFailed(err) => Err(TailError::StartSeekError(err)),
        ReadOutcome::ReadFailed(err) => Err(TailError::BufferReadError(err)),
        ReadOutcome::Data(data) => Ok(data),
    }
}

/// Whether the read of `outcome` leaves the offset within 64 bits.
pub open spec fn fits(state: TailState, outcome: ReadOutcome) -> bool {
    outcome matches ReadOutcome::Data(data) ==> state.offset + data@.len() <= u64::MAX
}

/// The chunks of a run of polls, one after the other.
pub open spec fn delivered(chunks: Seq<Seq<u8>>) -> Seq<u8>
    decreases chunks.len(),
{
    if chunks.len() == 0 {
        Seq::empty()
    } else {
        delivered(chunks.drop_last()) + chunks.last()
    }
}

/// Every chunk is what `content` holds at the offset that the chunks before
/// it led to, starting from `start`.
pub open spec fn read_in_order(content: Seq<u8>, start: nat, chunks: Seq<Seq<u8>>) -> bool {
    forall|i: int|
        0 <= i < chunks.len() ==> {
            let from = start + delivered(chunks.take(i)).len();
            &&& from + (#[trigger] chunks[i]).len() <= content.len()
            &&& chunks[i] == content.subrange(from as int, (from + chunks[i].len()) as int)
        }
}

/// No poll comes back empty while bytes of `content` are left to read.
pub open spec fn makes_progress(content: Seq<u8>, start: nat, chunks: Seq<Seq<u8>>) -> bool {
    forall|i: int|
        0 <= i < chunks.len() && start + delivered(chunks.take(i)).len() < content.len() ==> (
        #[trigger] chunks[i]).len() > 0
}

/// The state after a run of polls that returned `chunks`.
pub open spec fn after_polls(state: TailState, chunks: Seq<Seq<u8>>) -> TailState
    decreases chunks.len(),
{
    if chunks.len() == 0 {
        state
    } else {
        advanced(after_polls(state, chunks.drop_last()), chunks.last().len())
    }
}

/// Polls move the offset by the bytes they return, and nothing else.
pub proof fn lemma_polls_advance_offset(state: TailState, chunks: Seq<Seq<u8>>)
    requires
        state.offset + delivered(chunks).len() <= u64::MAX,
    ensures
        after_polls(state, chunks) == (TailState {
            offset: (state.offset + delivered(chunks).len()) as u64,
            ..state
        }),
    decreases chunks.len(),
{
    if chunks.len() > 0 {
        lemma_polls_advance_offset(state, chunks.drop_last());
    }
}

/// Polls of a file that is neither rotated nor truncated return its bytes
/// from the tailer's offset on, each once and in order, and leave the offset
/// behind the last byte returned.
pub proof fn lemma_polls_return_what_was_appended(
    content: Seq<u8>,
    state: TailState,
    chunks: Seq<Seq<u8>>,
)
    requires
        state.offset <= content.len() <= u64::MAX,
        read_in_order(content, state.offset as nat, chunks),
    ensures
        after_polls(state, chunks).offset == state.offset + delivered(chunks).len(),
        after_polls(state, chunks).offset <= content.len(),
        delivered(chunks) == content.subrange(
            state.offset as int,
            after_polls(state, chunks).offset as int,
        ),
{
    lemma_chunks_are_a_run(content, state.offset as nat, chunks);
    lemma_polls_advance_offset(state, chunks);
}

/// Chunks read in order are one run of the content.
proof fn lemma_chunks_are_a_run(content: Seq<u8>, start: nat, chunks: Seq<Seq<u8>>)
    requires
        start <= content.len(),
        read_in_order(content, start, chunks),
    ensures
        start + delivered(chunks).len() <= content.len(),
        delivered(chunks) == content.subrange(
            start as int,
            (start + delivered(chunks).len()) as int,
        ),
    decreases chunks.len(),
{
    if chunks.len() > 0 {
        let before = chunks.drop_last();
        assert forall|i: int| 0 <= i < before.len() implies {
            let from = start + delivered(before.take(i)).len();
            &&& from + (#[trigger] before[i]).len() <= content.len()
            &&& before[i] == content.subrange(from as int, (from + before[i].len()) as int)
        } by {
            assert(before.take(i) == chunks.take(i));
            assert(before[i] == chunks[i]);
        }
        lemma_chunks_are_a_run(content, start, before);
        let last = chunks.len() - 1;
        assert(chunks.take(last) == before);
        assert(chunks[last] == chunks.last());
        assert(delivered(chunks) =~= content.subrange(
            start as int,
            (start + delivered(chunks).len()) as int,
        ));
    }
}

/// Polls that make progress have returned every byte behind the tailer's
/// offset, and brought the offset to the end of the file, once there were as
/// many of them as bytes to read.
pub proof fn lemma_polls_catch_up(content: Seq<u8>, state: TailState, chunks: Seq<Seq<u8>>)
    requires
        state.offset <= content.len() <= u64::MAX,
        read_in_order(content, state.offset as nat, chunks),
        makes_progress(content, state.offset as nat, chunks),
        chunks.len() >= content.len() - state.offset,
    ensures
        after_polls(state, chunks).offset == content.len(),
        delivered(chunks) == content.subrange(state.offset as int, content.len() as int),
{
    lemma_progress_counts(content, state.offset as nat, chunks, chunks.len() as int);
    assert(chunks.take(chunks.len() as int) == chunks);
    lemma_polls_return_what_was_appended(content, state, chunks);
}

/// After `n` polls that make progress, `n` bytes were returned, or all.
proof fn lemma_progress_counts(content: Seq<u8>, start: nat, chunks: Seq<Seq<u8>>, n: int)
    requires
        start <= content.len(),
        read_in_order(content, start, chunks),
        makes_progress(content, start, chunks),
        0 <= n <= chunks.len(),
    ensures
        start + delivered(chunks.take(n)).len() <= content.len(),
        delivered(chunks.take(n)).len() >= n || start + delivered(chunks.take(n)).len()
            == content.len(),
    decreases n,
{
    if n == 0 {
        assert(chunks.take(0).len() == 0);
    } else {
        lemma_progress_counts(content, start, chunks, n - 1);
        let upto = chunks.take(n);
        assert(upto.drop_last() == chunks.take(n - 1));
        assert(upto.last() == chunks[n - 1]);
        assert(delivered(upto).len() == delivered(chunks.take(n - 1)).len() + chunks[n - 1].len());
    }
}

/// After a poll that found the file rotated, the tailer reads the new file
/// from its start: the offset is 0 and the inode is the new one.
pub proof fn lemma_rotation_resets_offset(
    state: TailState,
    truncation: Result<FileMeta, std::io::Error>,
    rotation: Result<FileMeta, std::io::Error>,
    refreshed: Result<FileMeta, std::io::Error>,
)
    requires
        truncation is Ok,
        rotation matches Ok(moved) && rotated_since(moved, state.inode),
        refreshed is Ok,
    ensures
        checks_failure(state, truncation, rotation, refreshed) is None,
        checked_state(state, truncation, rotation, refreshed).offset == 0,
        checked_state(state, truncation, rotation, refreshed).inode == refreshed.unwrap().inode,
        request_of(checked_state(state, truncation, rotation, refreshed)).offset == 0,
{
}

/// After a poll that found the file truncated, the tailer reads it from its
/// start: the offset is 0.
pub proof fn lemma_truncation_resets_offset(
    state: TailState,
    truncation: Result<FileMeta, std::io::Error>,
    rotation: Result<FileMeta, std::io::Error>,
    refreshed: Result<FileMeta, std::io::Error>,
)
    requires
        truncation matches Ok(shrunk) && truncated_since(shrunk, state.inode, state.offset),
    ensures
        checked_state(state, truncation, rotation, refreshed).offset == 0,
        request_of(checked_state(state, truncation, rotation, refreshed)).offset == 0,
{
}

/// After a poll of a file that was neither rotated nor truncated, the tailer
/// is where it was.
pub proof fn lemma_quiet_checks_change_nothing(
    state: TailState,
    truncation: Result<FileMeta, std::io::Error>,
    rotation: Result<FileMeta, std::io::Error>,
    refreshed: Result<FileMeta, std::io::Error>,
)
    requires
        truncation matches Ok(shrunk) && !truncated_since(shrunk, state.inode, state.offset),
        rotation matches Ok(moved) && !rotated_since(moved, state.inode),
    ensures
        checks_failure(state, truncation, rotation, refreshed) is None,
        checked_state(state, truncation, rotation, refreshed) == state,
{
}

/// Without a checkpoint file, or with one that holds no offset, a new tailer
/// starts at 0.
pub proof fn lemma_unusable_checkpoint_starts_at_zero(read: CheckpointRead)
    requires
        read matches CheckpointRead::Content(content) ==> decode_spec(content@) is Err,
    ensures
        restored_offset(read) == 0,
{
}

/// A checkpoint that was saved is the offset that a new tailer starts from.
pub proof fn lemma_saved_checkpoint_is_restored(offset: u64, read: CheckpointRead)
    requires
        read matches CheckpointRead::Content(content) && content@ == encode_spec(offset),
    ensures
        restored_offset(read) == offset,
{
    lemma_decode_encode(offset);
}

/// The home directory that is assumed for `user` where none is known.
pub fn users_home(user: &str) -> (home: String)
    ensures
        home@ == users_home_spec(user@),
{
    let mut home = "/Users/".to_owned();
    home.append(user);
    home
}

/// The file `file_name` in the home directory `home`; where no home
/// directory is known, in the one assumed for the process owner.
pub fn default_path(home: Option<String>, file_name: &str) -> (path: String)
    ensures
        match home {
            Some(dir) => path@ == join_spec(dir@, file_name@),
            None => exists|user: Seq<char>|
                path@ == join_spec(users_home_spec(user), file_name@),
        },
{
    match home {
        Some(dir) => join(dir.as_str(), file_name),
        None => {
            let user = username();
            let dir = users_home(user.as_str());
            join(dir.as_str(), file_name)
        },
    }
}

/// Where the checkpoint of the file at `path` is kept: beside the file, or,
/// for a path without a directory of its own, in the home directory.
pub fn checkpoint_location(path: &str, home: Option<String>) -> (location: String)
    ensures
        match directory_prefix_spec(path@) {
            Some(dir) => location@ == dir + checkpoint_name(),
            None => match home {
                Some(dir) => location@ == join_spec(dir@, checkpoint_name()),
                None => exists|user: Seq<char>|
                    location@ == join_spec(users_home_spec(user), checkpoint_name()),
            },
        },
{
    match directory_prefix(path) {
        Some(dir) => {
            let mut location = dir;
            location.append(".checkpoint");
            location
        },
        None => default_path(home, ".checkpoint"),
    }
}

impl Tail {
    /// A tailer for the file at `path`, given what came of opening it and of
    /// reading its checkpoint. It fails only where the file could not be
    /// opened or its metadata not be read; without a usable checkpoint it
    /// starts at offset 0.
    pub fn new(path: String, opened: OpenOutcome, checkpoint: CheckpointRead) -> (r: Result<
        Tail,
        TailError,
    >)
        ensures
            match opened {
                OpenOutcome::Failed => r == Err::<Tail, TailError>(TailError::FileOpenError(path)),
                OpenOutcome::NoMetadata(err) => r == Err::<Tail, TailError>(
                    TailError::ReadMetadataError(err),
                ),
                OpenOutcome::Opened(meta) => r.is_ok() && r.unwrap()@ == (TailState {
                    path: path@,
                    offset: restored_offset(checkpoint),
                    inode: meta.inode,
                    buffer_size: BUFFER_SIZE,
                }),
            },
    {
        match opened {
            OpenOutcome::Failed => Err(TailError::FileOpenError(path)),
            OpenOutcome::NoMetadata(err) => Err(TailError::ReadMetadataError(err)),
            OpenOutcome::Opened(meta) => {
                let mut tail = Tail {
                    path,
                    checkpoint: 0,
                    buffer_size: BUFFER_SIZE,
                    inode: meta.inode,
                };
                let _ = tail.load_checkpoint(checkpoint);
                Ok(tail)
            },
        }
    }

    /// Path of the tailed file.
    pub fn path(&self) -> (path: &str)
        ensures
            path@ == self@.path,
    {
        self.path.as_str()
    }

    /// Offset of the first byte that was not read yet.
    pub fn checkpoint(&self) -> (offset: u64)
        ensures
            offset == self@.offset,
    {
        self.checkpoint
    }

    /// Inode of the tailed file as of the last check.
    pub fn inode(&self) -> (inode: u64)
        ensures
            inode == self@.inode,
    {
        self.inode
    }

    /// The most bytes that one poll asks for.
    pub fn buffer_size(&self) -> (size: usize)
        ensures
            size == self@.buffer_size,
    {
        self.buffer_size
    }

    /// Takes the offset from what came of reading the checkpoint file. Where
    /// that holds no offset the tailer stays as it is.
    pub fn load_checkpoint(&mut self, read: CheckpointRead) -> (r: Result<(), TailError>)
        ensures
            match read {
                CheckpointRead::Missing(location) => r == Err::<(), TailError>(
                    TailError::FileOpenError(location),
                ) && final(self)@ == old(self)@,
                CheckpointRead::Unreadable(err) => r == Err::<(), TailError>(
                    TailError::ReadMetadataError(err),
                ) && final(self)@ == old(self)@,
                CheckpointRead::Content(content) => match decode_spec(content@) {
                    Ok(offset) => r.is_ok() && final(self)@ == (TailState {
                        offset,
                        ..old(self)@
                    }),
                    Err(failure) => r == Err::<(), TailError>(TailError::CastError(failure))
                        && final(self)@ == old(self)@,
                },
            },
    {
        match read {
            CheckpointRead::Missing(location) => Err(TailError::FileOpenError(location)),
            CheckpointRead::Unreadable(err) => Err(TailError::ReadMetadataError(err)),
            CheckpointRead::Content(content) => match decode(content.as_slice()) {
                Ok(offset) => {
                    self.checkpoint = offset;
                    Ok(())
                },
                Err(failure) => Err(TailError::CastError(failure)),
            },
        }
    }

    /// The checkpoint to be written for the current offset.
    pub fn save_checkpoint(&self, home: Option<String>) -> (write: CheckpointWrite)
        ensures
            write.content@ == encode_spec(self@.offset),
            match directory_prefix_spec(self@.path) {
                Some(dir) => write.location@ == dir + checkpoint_name(),
                None => match home {
                    Some(dir) => write.location@ == join_spec(dir@, checkpoint_name()),
                    None => exists|user: Seq<char>|
                        write.location@ == join_spec(users_home_spec(user), checkpoint_name()),
                },
            },
    {
        CheckpointWrite {
            location: checkpoint_location(self.path.as_str(), home),
            content: encode(self.checkpoint),
        }
    }

    /// The checks of a poll: looks for a truncation, then for a rotation,
    /// each in metadata read for that check, and takes the new inode from
    /// `refreshed` where the file was rotated.
    pub fn handle_file_operations(
        &mut self,
        truncation: Result<FileMeta, std::io::Error>,
        rotation: Result<FileMeta, std::io::Error>,
        refreshed: Result<FileMeta, std::io::Error>,
    ) -> (r: Result<(), TailError>)
        ensures
            final(self)@ == checked_state(old(self)@, truncation, rotation, refreshed),
            match checks_failure(old(self)@, truncation, rotation, refreshed) {
                Some(err) => r == Err::<(), TailError>(err),
                None => r.is_ok(),
            },
    {
        match truncation {
            Err(err) => {
                return Err(TailError::FileOperationError(err));
            },
            Ok(meta) => {
                if meta.was_truncated(self.inode, self.checkpoint) {
                    self.checkpoint = 0;
                }
            },
        }
        match rotation {
            Err(err) => {
                return Err(TailError::FileOperationError(err));
            },
            Ok(meta) => {
                if meta.was_rotated(self.inode) {
                    match refreshed {
                        Err(err) => {
                            return Err(TailError::ReadMetadataError(err));
                        },
                        Ok(fresh) => {
                            self.inode = fresh.inode;
                            self.checkpoint = 0;
                        },
                    }
                }
            },
        }
        Ok(())
    }

    /// Where the next read starts and how many bytes it asks for at most.
    pub fn read_request(&self) -> (request: ReadRequest)
        ensures
            request == request_of(self@),
    {
        ReadRequest { offset: self.checkpoint, length: self.buffer_size }
    }

    /// Takes what came of the read at `read_request`: moves the offset behind
    /// the bytes that were read and returns them. A failed seek or read
    /// leaves the offset where it was.
    pub fn advance(&mut self, outcome: ReadOutcome) -> (r: Result<Vec<u8>, TailError>)
        requires
            fits(old(self)@, outcome),
        ensures
            final(self)@ == state_after_read(old(self)@, outcome),
            r == read_result(outcome),
    {
        match outcome {
            ReadOutcome::SeekFailed(err) => Err(TailError::StartSeekError(err)),
            ReadOutcome::ReadFailed(err) => Err(TailError::BufferReadError(err)),
            ReadOutcome::Data(data) => {
                self.checkpoint = self.checkpoint + data.len() as u64;
                Ok(data)
            },
        }
    }

    /// One poll: the checks, then, where they passed, one call of `read`
    /// with the place to read at, and the step behind the bytes it returned.
    /// Where a check failed, `read` is not called.
    pub fn next<R: FnOnce(ReadRequest) -> ReadOutcome>(
        &mut self,
        truncation: Result<FileMeta, std::io::Error>,
        rotation: Result<FileMeta, std::io::Error>,
        refreshed: Result<FileMeta, std::io::Error>,
        read: R,
    ) -> (r: Result<Vec<u8>, TailError>)
        requires
            forall|request: ReadRequest| read.requires((request,)),
            forall|request: ReadRequest, outcome: ReadOutcome|
                read.ensures((request,), outcome) ==> fits(
                    checked_state(old(self)@, truncation, rotation, refreshed),
                    outcome,
                ),
        ensures
            match checks_failure(old(self)@, truncation, rotation, refreshed) {
                Some(err) => r == Err::<Vec<u8>, TailError>(err) && final(self)@ == checked_state(
                    old(self)@,
                    truncation,
                    rotation,
                    refreshed,
                ),
                None => exists|outcome: ReadOutcome|
                    {
                        &&& read.ensures(
                            (request_of(checked_state(old(self)@, truncation, rotation, refreshed)),),
                            outcome,
                        )
                        &&& final(self)@ == state_after_read(
                            checked_state(old(self)@, truncation, rotation, refreshed),
                            outcome,
                        )
                        &&& r == #[trigger] read_result(outcome)
                    },
            },
    {
        match self.handle_file_operations(truncation, rotation, refreshed) {
            Err(err) => Err(err),
            Ok(_) => {
                let outcome = read(self.read_request());
                self.advance(outcome)
            },
        }
    }

    /// As `next`, with the bytes that were read handed to `consumer` instead
    /// of returned. The consumer is called only where the read gave bytes,
    /// be it none.
    pub fn next_then<R: FnOnce(ReadRequest) -> ReadOutcome, F: Fn(&[u8])>(
        &mut self,
        truncation: Result<FileMeta, std::io::Error>,
        rotation: Result<FileMeta, std::io::Error>,
        refreshed: Result<FileMeta, std::io::Error>,
        read: R,
        consumer: F,
    ) -> (r: Result<(), TailError>)
        requires
            forall|request: ReadRequest| read.requires((request,)),
            forall|request: ReadRequest, outcome: ReadOutcome|
                read.ensures((request,), outcome) ==> fits(
                    checked_state(old(self)@, truncation, rotation, refreshed),
                    outcome,
                ),
            forall|bytes: &[u8]| consumer.requires((bytes,)),
        ensures
            match checks_failure(old(self)@, truncation, rotation, refreshed) {
                Some(err) => r == Err::<(), TailError>(err) && final(self)@ == checked_state(
                    old(self)@,
                    truncation,
                    rotation,
                    refreshed,
                ),
                None => exists|outcome: ReadOutcome|
                    {
                        &&& read.ensures(
                            (request_of(checked_state(old(self)@, truncation, rotation, refreshed)),),
                            outcome,
                        )
                        &&& final(self)@ == state_after_read(
                            checked_state(old(self)@, truncation, rotation, refreshed),
                            outcome,
                        )
                        &&& match #[trigger] read_result(outcome) {
                            Err(err) => r == Err::<(), TailError>(err),
                            Ok(data) => r.is_ok() && exists|bytes: &[u8]|
                                bytes@ == data@ && consumer.ensures((bytes,), ()),
                        }
                    },
            },
    {
        match self.next(truncation, rotation, refreshed, read) {
            Err(err) => Err(err),
            Ok(data) => {
                consumer(data.as_slice());
                Ok(())
            },
        }
    }
}

} // verus!
