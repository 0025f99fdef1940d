//! Producing a raw replay on disk, one decision at a time.
//!
//! The library reads and writes nothing. It decides: from the file name what
//! has to happen, from the bytes of a container what the raw replay is, and
//! from the outcome of each read or write what the result is. The caller
//! does the reading and writing in between and reports back with an `Event`.
//!
//! A raw replay is settled at once, as the file it already is. A legacy
//! container passes through `Decoding`, where its bytes are awaited, and
//! `Decoded`, where the raw replay awaits a temporary file to hold it.
//! Settled states are final: nothing is retried.

use vstd::prelude::*;
use crate::container::{container_extraction, extract_faf_legacy_replay};
use crate::error::{ErrorModel, ReplayError};
use crate::format::{
    get_replay_type, legacy_suffix, lemma_replay_type_by_suffix, raw_suffix, replay_type_of,
    ReplayType,
};

verus! {

/// Where the raw replay is to be found.
#[derive(Clone, Debug, PartialEq, Eq)]
pub enum ReplayLocation {
    /// The replay file itself: it is raw already and is used as it stands.
    AtPath(String),
    /// A temporary file that the caller created for the decoded replay. The
    /// caller owns that file and keeps it until the game has taken it.
    AtTempFile(String),
}

/// A `ReplayLocation` as a mathematical value.
pub enum LocationModel {
    AtPath(Seq<char>),
    AtTempFile(Seq<char>),
}

impl View for ReplayLocation {
    type V = LocationModel;

    open spec fn view(&self) -> LocationModel {
        match self {
            ReplayLocation::AtPath(path) => LocationModel::AtPath(path@),
            ReplayLocation::AtTempFile(path) => LocationModel::AtTempFile(path@),
        }
    }
}

/// The one path that a location stands for.
pub open spec fn location_path(location: LocationModel) -> Seq<char> {
    match location {
        LocationModel::AtPath(path) => path,
        LocationModel::AtTempFile(path) => path,
    }
}

impl ReplayLocation {
    /// The path to hand to the game.
    pub fn path(&self) -> (path: &str)
        ensures
            path@ == location_path(self@),
    {
        match self {
            ReplayLocation::AtPath(path) => path.as_str(),
            ReplayLocation::AtTempFile(path) => path.as_str(),
        }
    }
}

/// How far the preparation of a replay has come.
#[derive(Clone, Debug, PartialEq, Eq)]
pub enum Materialization {
    /// A legacy container at this path has to be read.
    Decoding(String),
    /// This raw replay has to be stored in a fresh temporary file.
    Decoded(Vec<u8>),
    /// Done: the raw replay is at this location.
    Resolved(ReplayLocation),
    /// Done: there will be no raw replay.
    Failed(ReplayError),
}

/// What the caller's last read or write came to.
#[derive(Clone, Debug, PartialEq, Eq)]
pub enum Event {
    /// The container was read; these are its bytes.
    ContainerRead(Vec<u8>),
    /// The raw replay was stored in a temporary file at this path.
    ReplayStored(String),
    /// The read or the write failed, for this reason.
    IoFailed(String),
}

/// A `Materialization` as a mathematical value.
pub enum MaterializationModel {
    Decoding(Seq<char>),
    Decoded(Seq<u8>),
    Resolved(LocationModel),
    Failed(ErrorModel),
}

/// An `Event` as a mathematical value.
pub enum EventModel {
    ContainerRead(Seq<u8>),
    ReplayStored(Seq<char>),
    IoFailed(Seq<char>),
}

impl View for Materialization {
    type V = MaterializationModel;

    open spec fn view(&self) -> MaterializationModel {
        match self {
            Materialization::Decoding(path) => MaterializationModel::Decoding(path@),
            Materialization::Decoded(raw) => MaterializationModel::Decoded(raw@),
            Materialization::Resolved(location) => MaterializationModel::Resolved(location@),
            Materialization::Failed(error) => MaterializationModel::Failed(error@),
        }
    }
}

impl View for Event {
    type V = EventModel;

    open spec fn view(&self) -> EventModel {
        match self {
            Event::ContainerRead(content) => EventModel::ContainerRead(content@),
            Event::ReplayStored(path) => EventModel::ReplayStored(path@),
            Event::IoFailed(cause) => EventModel::IoFailed(cause@),
        }
    }
}

/// Whether a state is final, so that nothing is left to read or write.
pub open spec fn settled(state: MaterializationModel) -> bool {
    state is Resolved || state is Failed
}

/// The state that the preparation of the replay at `path` starts in.
pub open spec fn prepared(path: Seq<char>) -> MaterializationModel {
    match replay_type_of(path) {
        ReplayType::Unknown => MaterializationModel::Failed(ErrorModel::UnsupportedFormat),
        ReplayType::ForgedAlliance => MaterializationModel::Resolved(LocationModel::AtPath(path)),
        ReplayType::FafLegacy => MaterializationModel::Decoding(path),
    }
}

/// The state after an event. An event that the state does not wait for
/// leaves the state as it is.
pub open spec fn advanced(state: MaterializationModel, event: EventModel) -> MaterializationModel {
    match (state, event) {
        (MaterializationModel::Decoding(_), EventModel::ContainerRead(content)) => {
            match container_extraction(content) {
                Ok(raw) => MaterializationModel::Decoded(raw),
                Err(error) => MaterializationModel::Failed(error),
            }
        },
        (MaterializationModel::Decoded(_), EventModel::ReplayStored(path)) => {
            MaterializationModel::Resolved(LocationModel::AtTempFile(path))
        },
        (MaterializationModel::Decoding(_), EventModel::IoFailed(cause)) => {
            MaterializationModel::Failed(ErrorModel::IoError(cause))
        },
        (MaterializationModel::Decoded(_), EventModel::IoFailed(cause)) => {
            MaterializationModel::Failed(ErrorModel::IoError(cause))
        },
        _ => state,
    }
}

/// The result that a state stands for, once it is settled.
pub open spec fn result_of(state: MaterializationModel) -> Option<
    Result<LocationModel, ErrorModel>,
> {
    match state {
        MaterializationModel::Resolved(location) => Some(Ok(location)),
        MaterializationModel::Failed(error) => Some(Err(error)),
        _ => None,
    }
}

/// The result of a preparation, as a mathematical value.
pub open spec fn result_model(result: Option<Result<ReplayLocation, ReplayError>>) -> Option<
    Result<LocationModel, ErrorModel>,
> {
    match result {
        Some(Ok(location)) => Some(Ok(location@)),
        Some(Err(error)) => Some(Err(error@)),
        None => None,
    }
}

/// Starts the preparation of the replay at `replay_path`, going by the name
/// alone: an unknown suffix fails, a raw replay is used where it lies, and a
/// legacy container is to be read.
pub fn prepare_replay_file(replay_path: &str) -> (state: Materialization)
    ensures
        state@ == prepared(replay_path@),
{
    match get_replay_type(replay_path) {
        ReplayType::Unknown => Materialization::Failed(ReplayError::UnsupportedFormat),
        ReplayType::ForgedAlliance => Materialization::Resolved(
            ReplayLocation::AtPath(replay_path.to_owned()),
        ),
        ReplayType::FafLegacy => Materialization::Decoding(replay_path.to_owned()),
    }
}

impl Materialization {
    /// Whether nothing is left to read or write.
    pub fn is_settled(&self) -> (done: bool)
        ensures
            done == settled(self@),
    {
        match self {
            Materialization::Resolved(_) => true,
            Materialization::Failed(_) => true,
            _ => false,
        }
    }

    /// Takes the outcome of the caller's read or write and moves on.
    pub fn advance(self, event: Event) -> (next: Materialization)
        ensures
            next@ == advanced(self@, event@),
    {
        match self {
            Materialization::Decoding(path) => match event {
                Event::ContainerRead(content) => {
                    match extract_faf_legacy_replay(content.as_slice()) {
                        Ok(raw) => Materialization::Decoded(raw),
                        Err(error) => Materialization::Failed(error),
                    }
                },
                Event::IoFailed(cause) => Materialization::Failed(ReplayError::IoError(cause)),
                Event::ReplayStored(_) => Materialization::Decoding(path),
            },
            Materialization::Decoded(raw) => match event {
                Event::ReplayStored(path) => Materialization::Resolved(
                    ReplayLocation::AtTempFile(path),
                ),
                Event::IoFailed(cause) => Materialization::Failed(ReplayError::IoError(cause)),
                Event::ContainerRead(_) => Materialization::Decoded(raw),
            },
            Materialization::Resolved(location) => Materialization::Resolved(location),
            Materialization::Failed(error) => Materialization::Failed(error),
        }
    }

    /// The result, once the state is settled; `None` while a read or a write
    /// is still awaited.
    pub fn result(self) -> (result: Option<Result<ReplayLocation, ReplayError>>)
        ensures
            result_model(result) == result_of(self@),
    {
        match self {
            Materialization::Resolved(location) => Some(Ok(location)),
            Materialization::Failed(error) => Some(Err(error)),
            _ => None,
        }
    }
}

/// A settled state is final: whatever is reported afterwards, it stays as it
/// is. Nothing is retried, and no failure turns into a success.
pub proof fn lemma_settled_is_final(state: MaterializationModel, event: EventModel)
    requires
        settled(state),
    ensures
        advanced(state, event) == state,
{
}

/// A raw replay is used where it lies: the preparation is settled by the
/// name alone, before anything is read or written, and the location it
/// resolves to is the very path that was given.
pub proof fn lemma_raw_replay_is_used_in_place(path: Seq<char>)
    requires
        raw_suffix().is_suffix_of(path),
    ensures
        prepared(path) == MaterializationModel::Resolved(LocationModel::AtPath(path)),
        settled(prepared(path)),
        result_of(prepared(path)) matches Some(Ok(location)) && location_path(location) == path,
{
}

/// A name with neither suffix fails by the name alone: the preparation is
/// settled as unsupported before anything is read or written.
pub proof fn lemma_unknown_format_fails_at_once(path: Seq<char>)
    requires
        !raw_suffix().is_suffix_of(path),
        !legacy_suffix().is_suffix_of(path),
    ensures
        prepared(path) == MaterializationModel::Failed(ErrorModel::UnsupportedFormat),
        settled(prepared(path)),
        result_of(prepared(path)) == Some(
            Err::<LocationModel, ErrorModel>(ErrorModel::UnsupportedFormat),
        ),
{
}

/// A legacy container is the only kind of replay that anything is read for,
/// and a temporary file is asked for only once its replay has been decoded.
pub proof fn lemma_work_is_asked_for_legacy_only(path: Seq<char>)
    ensures
        !settled(prepared(path)) <==> legacy_suffix().is_suffix_of(path),
        !settled(prepared(path)) ==> prepared(path) == MaterializationModel::Decoding(path),
        forall|content: Seq<u8>|
            advanced(prepared(path), EventModel::ContainerRead(content)) is Decoded
                ==> container_extraction(content) is Ok,
{
    lemma_replay_type_by_suffix(path);
}

} // verus!
