//! The orchestrator of one fetch.
//!
//! A [`Fetch`] is a state machine. It never touches the network or the
//! filesystem: each call of [`Fetch::step`] takes the [`Event`] that reports
//! how the last [`Action`] went and gives the next action to perform. Each
//! stage is passed once, in order, and every failure ends the fetch with the
//! kind that names the stage at which it arose.

use crate::bridge::{BridgeView, Pull, StreamBridge};
use crate::codec::{lz4_frame_payload, FrameDecoder, BLOCK_SIZE};
use crate::error::{FetchError, FetchErrorView};
use crate::target::{
    destination_path, image_target, image_target_name, joined, target_refusal, validate_target,
};
use vstd::prelude::*;

verus! {

/// How far a fetch has come.
#[derive(Clone, Copy, Debug, PartialEq, Eq, Structural)]
pub enum Stage {
    /// Nothing is done yet: the repository is being loaded.
    Start,
    /// The repository is loaded and the target's name is accepted: the
    /// repository is being asked for the target.
    RepoLoaded,
    /// The target is resolved: the repository lists it, and its stream is
    /// being received.
    TargetResolved,
    /// The whole stream is received and opened as a frame: the destination
    /// file is being opened.
    StreamOpened,
    /// The frame is being decompressed: a block of the image is being written.
    Decompressing,
    /// The whole image is written. Nothing follows.
    Written,
    /// The fetch has failed. Nothing follows.
    Failed,
}

/// What happened to the action that was given last.
#[derive(Debug, PartialEq, Eq)]
pub enum Event {
    /// The repository was loaded and its metadata verified.
    RepositoryLoaded,
    /// The repository could not be loaded.
    RepositoryRefused(String),
    /// The repository lists the target and has opened its stream.
    TargetFound,
    /// The repository does not list the target.
    TargetAbsent,
    /// The repository could not be asked for the target.
    TargetUnreadable(String),
    /// The stream delivered its next chunk.
    Chunk(Vec<u8>),
    /// The stream failed.
    StreamFailed(String),
    /// The stream has delivered all of the target.
    StreamEnded,
    /// The destination file is open.
    FileOpened,
    /// The destination file could not be opened.
    FileRefused(String),
    /// The block was written.
    BlockWritten,
    /// The block could not be written.
    WriteFailed(String),
}

/// What the caller is to do next.
#[derive(Debug, PartialEq, Eq)]
pub enum Action {
    /// Read the root of trust and load the repository.
    LoadRepository { root_role_path: String, metadata_url: String, targets_url: String },
    /// Ask the repository for the target of this name.
    ReadTarget { name: String },
    /// Await the next chunk of the target's stream.
    NextChunk,
    /// Open the destination file for reading and writing: create it, or empty
    /// it if it exists.
    OpenFile { path: String },
    /// Append this block to the destination file.
    Write { block: Vec<u8> },
    /// The image is written: the fetch has succeeded.
    Done,
    /// The fetch has failed.
    Fail(FetchError),
    /// The event answers no action that is outstanding. The machine has not moved.
    Unexpected,
}

/// What one pull at the decoder gave.
#[derive(Debug, PartialEq, Eq)]
pub enum Decoded {
    /// The next block of the payload. It is not empty.
    Block(Vec<u8>),
    /// The payload is exhausted and the frame was complete.
    Finished,
    /// The frame is not sound, or stops before its end.
    Broken(String),
}

/// An [`Event`] as a mathematical value.
pub enum EventView {
    RepositoryLoaded,
    RepositoryRefused(Seq<char>),
    TargetFound,
    TargetAbsent,
    TargetUnreadable(Seq<char>),
    Chunk(Seq<u8>),
    StreamFailed(Seq<char>),
    StreamEnded,
    FileOpened,
    FileRefused(Seq<char>),
    BlockWritten,
    WriteFailed(Seq<char>),
}

/// An [`Action`] as a mathematical value.
pub enum ActionView {
    LoadRepository { root_role_path: Seq<char>, metadata_url: Seq<char>, targets_url: Seq<char> },
    ReadTarget { name: Seq<char> },
    NextChunk,
    OpenFile { path: Seq<char> },
    Write { block: Seq<u8> },
    Done,
    Fail(FetchErrorView),
    Unexpected,
}

/// A [`Decoded`] as a mathematical value.
pub enum DecodedView {
    Block(Seq<u8>),
    Finished,
    Broken(Seq<char>),
}

impl View for Event {
    type V = EventView;

    open spec fn view(&self) -> EventView {
        match self {
            Event::RepositoryLoaded => EventView::RepositoryLoaded,
            Event::RepositoryRefused(cause) => EventView::RepositoryRefused(cause@),
            Event::TargetFound => EventView::TargetFound,
            Event::TargetAbsent => EventView::TargetAbsent,
            Event::TargetUnreadable(cause) => EventView::TargetUnreadable(cause@),
            Event::Chunk(bytes) => EventView::Chunk(bytes@),
            Event::StreamFailed(cause) => EventView::StreamFailed(cause@),
            Event::StreamEnded => EventView::StreamEnded,
            Event::FileOpened => EventView::FileOpened,
            Event::FileRefused(cause) => EventView::FileRefused(cause@),
            Event::BlockWritten => EventView::BlockWritten,
            Event::WriteFailed(cause) => EventView::WriteFailed(cause@),
        }
    }
}

impl View for Action {
    type V = ActionView;

    open spec fn view(&self) -> ActionView {
        match self {
            Action::LoadRepository { root_role_path, metadata_url, targets_url } =>
                ActionView::LoadRepository {
                    root_role_path: root_role_path@,
                    metadata_url: metadata_url@,
                    targets_url: targets_url@,
                },
            Action::ReadTarget { name } => ActionView::ReadTarget { name: name@ },
            Action::NextChunk => ActionView::NextChunk,
            Action::OpenFile { path } => ActionView::OpenFile { path: path@ },
            Action::Write { block } => ActionView::Write { block: block@ },
            Action::Done => ActionView::Done,
            Action::Fail(error) => ActionView::Fail(error@),
            Action::Unexpected => ActionView::Unexpected,
        }
    }
}

impl View for Decoded {
    type V = DecodedView;

    open spec fn view(&self) -> DecodedView {
        match self {
            Decoded::Block(block) => DecodedView::Block(block@),
            Decoded::Finished => DecodedView::Finished,
            Decoded::Broken(cause) => DecodedView::Broken(cause@),
        }
    }
}

/// A [`Fetch`] as a mathematical value.
pub struct FetchView {
    pub stage: Stage,
    pub root_role_path: Seq<char>,
    pub metadata_url: Seq<char>,
    pub targets_url: Seq<char>,
    pub outdir: Seq<char>,
    /// The name of the target that is fetched.
    pub target: Seq<char>,
    /// The compressed bytes that the stream has delivered so far.
    pub streamed: Seq<u8>,
    /// The decompressed bytes that were handed out for writing so far.
    pub delivered: Seq<u8>,
    /// Whether the caller was asked to open the destination file.
    pub file_requested: bool,
    /// Why the fetch failed, once it has.
    pub failure: Option<FetchErrorView>,
}

impl FetchView {
    /// The fetch of the image named `name`, before anything is done.
    pub open spec fn initial(
        root_role_path: Seq<char>,
        metadata_url: Seq<char>,
        targets_url: Seq<char>,
        outdir: Seq<char>,
        name: Seq<char>,
    ) -> FetchView {
        FetchView {
            stage: Stage::Start,
            root_role_path,
            metadata_url,
            targets_url,
            outdir,
            target: image_target(name),
            streamed: Seq::empty(),
            delivered: Seq::empty(),
            file_requested: false,
            failure: None,
        }
    }

    /// The path of the destination file.
    pub open spec fn path(self) -> Seq<char> {
        joined(self.outdir, self.target)
    }

    /// This fetch at another stage.
    pub open spec fn at(self, stage: Stage) -> FetchView {
        FetchView { stage, ..self }
    }

    /// This fetch after it failed with `error`.
    pub open spec fn failed_with(self, error: FetchErrorView) -> FetchView {
        FetchView { stage: Stage::Failed, failure: Some(error), ..self }
    }

    /// This fetch after `block` was handed out for writing.
    pub open spec fn delivering(self, block: Seq<u8>) -> FetchView {
        FetchView { stage: Stage::Decompressing, delivered: self.delivered + block, ..self }
    }

    /// What of the payload is still to be handed out, or `None` where the
    /// stream is not a sound frame.
    pub open spec fn remaining(self) -> Option<Seq<u8>> {
        match lz4_frame_payload(self.streamed) {
            Some(payload) => Some(payload.skip(self.delivered.len() as int)),
            None => None,
        }
    }

    /// What holds of a fetch at every moment.
    ///
    /// A fetch has failed exactly when it holds a failure. Nothing is
    /// streamed before the target is resolved, and nothing is handed out for
    /// writing before the destination file was asked for. What was handed out
    /// begins the payload of the stream, and is all of it once the fetch
    /// reports the image written.
    pub open spec fn inv(self) -> bool {
        &&& self.stage == Stage::Failed <==> self.failure is Some
        &&& self.stage == Stage::Start || self.stage == Stage::RepoLoaded ==> self.streamed.len()
            == 0
        &&& self.stage == Stage::Start || self.stage == Stage::RepoLoaded || self.stage
            == Stage::TargetResolved ==> !self.file_requested
        &&& self.stage == Stage::StreamOpened || self.stage == Stage::Decompressing || self.stage
            == Stage::Written ==> self.file_requested
        &&& !self.file_requested || self.stage == Stage::StreamOpened ==> self.delivered.len() == 0
        &&& self.stage == Stage::Decompressing ==> self.delivered.len() > 0
        &&& lz4_frame_payload(self.streamed) matches Some(payload) ==> self.delivered.is_prefix_of(
            payload,
        )
        &&& self.stage == Stage::Written ==> lz4_frame_payload(self.streamed) == Some(
            self.delivered,
        )
    }
}

/// The fetch fails with `error`, and says so.
pub open spec fn fails(pre: FetchView, post: FetchView, action: ActionView, error: FetchErrorView) -> bool {
    post == pre.failed_with(error) && action == ActionView::Fail(error)
}

/// The fetch fails because the stream could not be decompressed.
pub open spec fn fails_decoding(pre: FetchView, post: FetchView, action: ActionView) -> bool {
    &&& action matches ActionView::Fail(error)
    &&& error matches FetchErrorView::DecompressionError { target, .. }
    &&& target == pre.target
    &&& post == pre.failed_with(error)
}

/// The action that answers one pull at the decoder, for the target `target`.
pub open spec fn action_of(target: Seq<char>, decoded: DecodedView) -> ActionView {
    match decoded {
        DecodedView::Block(block) => ActionView::Write { block },
        DecodedView::Finished => ActionView::Done,
        DecodedView::Broken(cause) => ActionView::Fail(
            FetchErrorView::DecompressionError { target, cause },
        ),
    }
}

/// One pull at the decoder, and what the fetch makes of it.
///
/// While the stream is a sound frame, the next block of its payload is
/// handed out, not empty and no longer than `BLOCK_SIZE`, until nothing is
/// left: then the image is written. Where the stream is not a sound frame,
/// blocks may be handed out before the fault shows, but the fetch can only
/// fail.
pub open spec fn pulled(pre: FetchView, post: FetchView, action: ActionView) -> bool {
    match pre.remaining() {
        Some(rest) => if rest.len() == 0 {
            post == pre.at(Stage::Written) && action == ActionView::Done
        } else {
            &&& action matches ActionView::Write { block }
            &&& 0 < block.len() <= BLOCK_SIZE
            &&& block.is_prefix_of(rest)
            &&& post == pre.delivering(block)
        },
        None => {
            ||| {
                &&& action matches ActionView::Write { block }
                &&& 0 < block.len() <= BLOCK_SIZE
                &&& post == pre.delivering(block)
            }
            ||| fails_decoding(pre, post, action)
        },
    }
}

/// The transitions of a fetch: from `pre`, on `event`, to `post`, giving `action`.
pub open spec fn stepped(pre: FetchView, event: EventView, post: FetchView, action: ActionView) -> bool {
    match (pre.stage, event) {
        (Stage::Start, EventView::RepositoryLoaded) => match target_refusal(pre.target) {
            Some(cause) => fails(
                pre,
                post,
                action,
                FetchErrorView::TargetName { target: pre.target, cause },
            ),
            None => post == pre.at(Stage::RepoLoaded) && action == (ActionView::ReadTarget {
                name: pre.target,
            }),
        },
        (Stage::Start, EventView::RepositoryRefused(cause)) => fails(
            pre,
            post,
            action,
            FetchErrorView::RepoLoad { metadata_base_url: pre.metadata_url, cause },
        ),
        (Stage::RepoLoaded, EventView::TargetFound) => post == pre.at(Stage::TargetResolved)
            && action == ActionView::NextChunk,
        (Stage::RepoLoaded, EventView::TargetAbsent) => fails(
            pre,
            post,
            action,
            FetchErrorView::TargetMissing { target: pre.target },
        ),
        (Stage::RepoLoaded, EventView::TargetUnreadable(cause)) => fails(
            pre,
            post,
            action,
            FetchErrorView::TargetRead { target: pre.target, cause },
        ),
        (Stage::TargetResolved, EventView::Chunk(bytes)) => post == (FetchView {
            streamed: pre.streamed + bytes,
            ..pre
        }) && action == ActionView::NextChunk,
        (Stage::TargetResolved, EventView::StreamFailed(cause)) => fails(
            pre,
            post,
            action,
            FetchErrorView::TargetRead { target: pre.target, cause },
        ),
        (Stage::TargetResolved, EventView::StreamEnded) => {
            ||| post == (FetchView { stage: Stage::StreamOpened, file_requested: true, ..pre })
                && action == (ActionView::OpenFile { path: pre.path() })
            ||| fails_decoding(pre, post, action)
        },
        (Stage::StreamOpened, EventView::FileOpened) => pulled(pre, post, action),
        (Stage::StreamOpened, EventView::FileRefused(cause)) => fails(
            pre,
            post,
            action,
            FetchErrorView::OpenImageFile { path: pre.path(), cause },
        ),
        (Stage::Decompressing, EventView::BlockWritten) => pulled(pre, post, action),
        (Stage::Decompressing, EventView::WriteFailed(cause)) => fails(
            pre,
            post,
            action,
            FetchErrorView::WriteUpdate { path: pre.path(), cause },
        ),
        _ => post == pre && action == ActionView::Unexpected,
    }
}

/// A block that begins the rest of the payload extends what was handed out.
pub proof fn lemma_prefix_grows(payload: Seq<u8>, delivered: Seq<u8>, block: Seq<u8>)
    requires
        delivered.is_prefix_of(payload),
        block.is_prefix_of(payload.skip(delivered.len() as int)),
    ensures
        (delivered + block).is_prefix_of(payload),
        payload.skip((delivered + block).len() as int) == payload.skip(
            delivered.len() as int,
        ).skip(block.len() as int),
{
    let rest = payload.skip(delivered.len() as int);
    assert(delivered =~= payload.subrange(0, delivered.len() as int));
    assert(block =~= rest.subrange(0, block.len() as int));
    assert(delivered + block =~= payload.subrange(0, (delivered + block).len() as int));
    assert(payload.skip((delivered + block).len() as int) =~= rest.skip(block.len() as int));
}

/// Once nothing of the payload is left, what was handed out is the payload.
pub proof fn lemma_prefix_whole(payload: Seq<u8>, delivered: Seq<u8>)
    requires
        delivered.is_prefix_of(payload),
        payload.skip(delivered.len() as int).len() == 0,
    ensures
        delivered == payload,
{
    assert(delivered =~= payload.subrange(0, delivered.len() as int));
    assert(delivered =~= payload);
}

/// The action that answers one pull at the decoder.
pub fn decoded_action(target: &str, decoded: Decoded) -> (action: Action)
    ensures
        action@ == action_of(target@, decoded@),
{
    match decoded {
        Decoded::Block(block) => Action::Write { block },
        Decoded::Finished => Action::Done,
        Decoded::Broken(cause) => Action::Fail(
            FetchError::DecompressionError { target: String::from_str(target), cause },
        ),
    }
}

/// Pulls once at the decoder in `slot`, and takes it out when it is done with.
fn decode_next(slot: &mut Option<FrameDecoder>) -> (decoded: Decoded)
    requires
        *old(slot) matches Some(decoder) && decoder.wf(),
    ensures
        match decoded {
            Decoded::Block(block) => {
                &&& 0 < block@.len() <= BLOCK_SIZE
                &&& *final(slot) matches Some(decoder)
                &&& decoder.wf()
                &&& match old(slot)->0.rest() {
                    Some(rest) => block@.is_prefix_of(rest) && decoder.rest() == Some(
                        rest.skip(block@.len() as int),
                    ),
                    None => decoder.rest() is None,
                }
            },
            Decoded::Finished => old(slot)->0.rest() matches Some(rest) && rest.len() == 0,
            Decoded::Broken(_) => old(slot)->0.rest() is None,
        },
        old(slot)->0.rest() matches Some(rest) ==> (rest.len() == 0 <==> decoded is Finished),
{
    let mut decoder = slot.take().unwrap();
    match decoder.next_block() {
        Ok(block) => {
            if block.len() > 0 {
                *slot = Some(decoder);
                Decoded::Block(block)
            } else {
                match decoder.finish() {
                    Ok(()) => Decoded::Finished,
                    Err(cause) => Decoded::Broken(cause),
                }
            }
        },
        Err(cause) => Decoded::Broken(cause),
    }
}

/// The fetch of one target.
pub struct Fetch {
    stage: Stage,
    root_role_path: String,
    metadata_url: String,
    targets_url: String,
    outdir: String,
    target: String,
    bridge: StreamBridge,
    scratch: Vec<u8>,
    compressed: Vec<u8>,
    decoder: Option<FrameDecoder>,
    file_requested: bool,
    failure: Option<FetchError>,
    streamed: Ghost<Seq<u8>>,
    delivered: Ghost<Seq<u8>>,
}

impl View for Fetch {
    type V = FetchView;

    closed spec fn view(&self) -> FetchView {
        FetchView {
            stage: self.stage,
            root_role_path: self.root_role_path@,
            metadata_url: self.metadata_url@,
            targets_url: self.targets_url@,
            outdir: self.outdir@,
            target: self.target@,
            streamed: self.streamed@,
            delivered: self.delivered@,
            file_requested: self.file_requested,
            failure: match self.failure {
                Some(error) => Some(error@),
                None => None,
            },
        }
    }
}

impl Fetch {
    /// The machine's parts fit its stage.
    pub closed spec fn wf(&self) -> bool {
        &&& self@.inv()
        &&& self.bridge.wf()
        &&& self.scratch@.len() == BLOCK_SIZE
        &&& self.stage == Stage::Start || self.stage == Stage::RepoLoaded || self.stage
            == Stage::TargetResolved ==> {
            &&& self.bridge@ == (BridgeView { chunks: Seq::empty(), failure: None, ended: false })
            &&& self.compressed@ == self.streamed@
        }
        &&& self.stage == Stage::StreamOpened || self.stage == Stage::Decompressing ==> {
            &&& self.decoder matches Some(decoder)
            &&& decoder.wf()
            &&& decoder.rest() == self@.remaining()
        }
    }

    /// Begins the fetch of the image named `name`: the first action is to
    /// load the repository.
    pub fn new(
        root_role_path: &str,
        metadata_url: &str,
        targets_url: &str,
        outdir: &str,
        name: &str,
    ) -> (begun: (Fetch, Action))
        ensures
            begun.0.wf(),
            begun.0@.inv(),
            begun.0@ == FetchView::initial(
                root_role_path@,
                metadata_url@,
                targets_url@,
                outdir@,
                name@,
            ),
            begun.1@ == (ActionView::LoadRepository {
                root_role_path: root_role_path@,
                metadata_url: metadata_url@,
                targets_url: targets_url@,
            }),
    {
        let fetch = Fetch {
            stage: Stage::Start,
            root_role_path: String::from_str(root_role_path),
            metadata_url: String::from_str(metadata_url),
            targets_url: String::from_str(targets_url),
            outdir: String::from_str(outdir),
            target: image_target_name(name),
            bridge: StreamBridge::new(),
            scratch: vec![0u8; BLOCK_SIZE],
            compressed: Vec::new(),
            decoder: None,
            file_requested: false,
            failure: None,
            streamed: Ghost(Seq::empty()),
            delivered: Ghost(Seq::empty()),
        };
        let action = Action::LoadRepository {
            root_role_path: String::from_str(root_role_path),
            metadata_url: String::from_str(metadata_url),
            targets_url: String::from_str(targets_url),
        };
        (fetch, action)
    }

    /// How far the fetch has come.
    pub fn stage(&self) -> (stage: Stage)
        ensures
            stage == self@.stage,
    {
        self.stage
    }

    /// The name of the target that is fetched.
    pub fn target(&self) -> (target: &str)
        ensures
            target@ == self@.target,
    {
        self.target.as_str()
    }

    /// The path of the destination file.
    pub fn path(&self) -> (path: String)
        ensures
            path@ == self@.path(),
    {
        destination_path(self.outdir.as_str(), self.target.as_str())
    }

    /// Whether the caller was asked to open the destination file: whether a
    /// file may stand at the destination that this fetch created or changed.
    pub fn file_requested(&self) -> (requested: bool)
        ensures
            requested == self@.file_requested,
    {
        self.file_requested
    }

    /// Why the fetch failed, once it has.
    pub fn failure(&self) -> (failure: Option<FetchError>)
        ensures
            match failure {
                Some(error) => self@.failure == Some(error@),
                None => self@.failure is None,
            },
    {
        match &self.failure {
            Some(error) => Some(error.clone()),
            None => None,
        }
    }

    /// Ends the fetch with `error`.
    fn fail(&mut self, error: FetchError) -> (action: Action)
        requires
            old(self)@.inv(),
            old(self).bridge.wf(),
            old(self).scratch@.len() == BLOCK_SIZE,
            old(self).stage != Stage::Failed,
        ensures
            final(self).wf(),
            fails(old(self)@, final(self)@, action@, error@),
    {
        self.stage = Stage::Failed;
        self.failure = Some(error.clone());
        Action::Fail(error)
    }

    /// Takes the next event and gives the next action.
    ///
    /// The fetch moves as `stepped` tells. An event that answers no
    /// outstanding action leaves it where it is.
    pub fn step(&mut self, event: Event) -> (action: Action)
        requires
            old(self).wf(),
        ensures
            final(self).wf(),
            final(self)@.inv(),
            stepped(old(self)@, event@, final(self)@, action@),
    {
        match self.stage {
            Stage::Start => self.on_start(event),
            Stage::RepoLoaded => self.on_repo_loaded(event),
            Stage::TargetResolved => self.on_target_resolved(event),
            Stage::StreamOpened => self.on_stream_opened(event),
            Stage::Decompressing => self.on_decompressing(event),
            Stage::Written => Action::Unexpected,
            Stage::Failed => Action::Unexpected,
        }
    }

    /// The repository was loaded, or was not.
    fn on_start(&mut self, event: Event) -> (action: Action)
        requires
            old(self).wf(),
            old(self).stage == Stage::Start,
        ensures
            final(self).wf(),
            stepped(old(self)@, event@, final(self)@, action@),
    {
        match event {
            Event::RepositoryLoaded => match validate_target(self.target.as_str()) {
                Ok(()) => {
                    self.stage = Stage::RepoLoaded;
                    Action::ReadTarget { name: self.target.clone() }
                },
                Err(error) => self.fail(error),
            },
            Event::RepositoryRefused(cause) => {
                let error = FetchError::RepoLoad {
                    metadata_base_url: self.metadata_url.clone(),
                    cause,
                };
                self.fail(error)
            },
            _ => Action::Unexpected,
        }
    }

    /// The repository answered for the target.
    fn on_repo_loaded(&mut self, event: Event) -> (action: Action)
        requires
            old(self).wf(),
            old(self).stage == Stage::RepoLoaded,
        ensures
            final(self).wf(),
            stepped(old(self)@, event@, final(self)@, action@),
    {
        match event {
            Event::TargetFound => {
                self.stage = Stage::TargetResolved;
                Action::NextChunk
            },
            Event::TargetAbsent => {
                let error = FetchError::TargetMissing { target: self.target.clone() };
                self.fail(error)
            },
            Event::TargetUnreadable(cause) => {
                let error = FetchError::TargetRead { target: self.target.clone(), cause };
                self.fail(error)
            },
            _ => Action::Unexpected,
        }
    }

    /// The stream delivered a chunk, failed or ended.
    fn on_target_resolved(&mut self, event: Event) -> (action: Action)
        requires
            old(self).wf(),
            old(self).stage == Stage::TargetResolved,
        ensures
            final(self).wf(),
            stepped(old(self)@, event@, final(self)@, action@),
    {
        match event {
            Event::Chunk(bytes) => {
                self.streamed = Ghost(self.streamed@ + bytes@);
                self.bridge.push_chunk(bytes);
            },
            Event::StreamFailed(cause) => {
                self.bridge.fail(cause);
            },
            Event::StreamEnded => {
                self.bridge.end();
            },
            _ => {
                return Action::Unexpected;
            },
        }
        assert(self.compressed@ + self.bridge@.pending() =~= self.streamed@) by {
            assert(old(self).bridge@.pending() =~= Seq::<u8>::empty());
        }
        match self.bridge.drain_into(&mut self.scratch, &mut self.compressed) {
            Pull::Failed(cause) => {
                let error = FetchError::TargetRead { target: self.target.clone(), cause };
                self.fail(error)
            },
            Pull::Ended => {
                let mut compressed: Vec<u8> = Vec::new();
                std::mem::swap(&mut compressed, &mut self.compressed);
                match FrameDecoder::open(compressed) {
                    Ok(decoder) => {
                        assert(decoder.rest() == self@.remaining()) by {
                            if let Some(payload) = lz4_frame_payload(self.streamed@) {
                                assert(payload.skip(0) =~= payload);
                            }
                        }
                        self.decoder = Some(decoder);
                        self.file_requested = true;
                        self.stage = Stage::StreamOpened;
                        Action::OpenFile { path: self.path() }
                    },
                    Err(cause) => {
                        let error = FetchError::DecompressionError {
                            target: self.target.clone(),
                            cause,
                        };
                        self.fail(error)
                    },
                }
            },
            _ => Action::NextChunk,
        }
    }

    /// The destination file was opened, or was not.
    fn on_stream_opened(&mut self, event: Event) -> (action: Action)
        requires
            old(self).wf(),
            old(self).stage == Stage::StreamOpened,
        ensures
            final(self).wf(),
            stepped(old(self)@, event@, final(self)@, action@),
    {
        match event {
            Event::FileOpened => self.pull(),
            Event::FileRefused(cause) => {
                let error = FetchError::OpenImageFile { path: self.path(), cause };
                self.fail(error)
            },
            _ => Action::Unexpected,
        }
    }

    /// The block was written, or was not.
    fn on_decompressing(&mut self, event: Event) -> (action: Action)
        requires
            old(self).wf(),
            old(self).stage == Stage::Decompressing,
        ensures
            final(self).wf(),
            stepped(old(self)@, event@, final(self)@, action@),
    {
        match event {
            Event::BlockWritten => self.pull(),
            Event::WriteFailed(cause) => {
                let error = FetchError::WriteUpdate { path: self.path(), cause };
                self.fail(error)
            },
            _ => Action::Unexpected,
        }
    }

    /// Pulls once at the decoder and moves as the answer tells.
    fn pull(&mut self) -> (action: Action)
        requires
            old(self).wf(),
            old(self).stage == Stage::StreamOpened || old(self).stage == Stage::Decompressing,
        ensures
            final(self).wf(),
            pulled(old(self)@, final(self)@, action@),
    {
        let decoded = decode_next(&mut self.decoder);
        match &decoded {
            Decoded::Block(block) => {
                proof {
                    if let Some(payload) = lz4_frame_payload(self.streamed@) {
                        lemma_prefix_grows(payload, self.delivered@, block@);
                    }
                }
                self.delivered = Ghost(self.delivered@ + block@);
                self.stage = Stage::Decompressing;
            },
            Decoded::Finished => {
                proof {
                    lemma_prefix_whole(lz4_frame_payload(self.streamed@)->0, self.delivered@);
                }
                self.stage = Stage::Written;
            },
            Decoded::Broken(_) => {},
        }
        let action = decoded_action(self.target.as_str(), decoded);
        if let Action::Fail(error) = &action {
            self.failure = Some(error.clone());
            self.stage = Stage::Failed;
        }
        action
    }
}

} // verus!
