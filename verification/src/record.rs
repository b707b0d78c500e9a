//! The per-load records that the load manager keeps.

use vstd::prelude::*;

verus! {

/// An opaque, copyable identifier of a record in the load manager.
///
/// A handle pairs the slot a record lives in with the generation in which the
/// slot was filled, so that a later record in the same slot never answers to
/// an earlier handle.
#[derive(Clone, Copy, Debug, PartialEq, Eq, Structural)]
pub struct Handle {
    pub index: usize,
    pub generation: u64,
}

/// A script or display object owned by the host, known here by its number.
#[derive(Clone, Copy, Debug, PartialEq, Eq, Structural)]
pub struct ObjectRef {
    pub id: u64,
}

/// A parsed movie owned by the host, known here by its number.
#[derive(Clone, Copy, Debug, PartialEq, Eq, Structural)]
pub struct MovieRef {
    pub id: u64,
}

/// How the player should load movies.
#[derive(Clone, Copy, Debug, PartialEq, Eq, Structural)]
pub enum LoadBehavior {
    /// Allow movies to execute before they have finished loading.
    Streaming,
    /// Delay execution of loaded movies until they have finished loading.
    Delayed,
    /// Block the player until movies have finished loading.
    Blocking,
}

/// The shape in which a `URLLoader` wants its data.
#[derive(Clone, Copy, Debug, PartialEq, Eq, Structural)]
pub enum DataFormat {
    Binary,
    Text,
    Variables,
}

/// The completion status of a record that loads a movie.
#[derive(Clone, Copy, Debug, PartialEq, Eq, Structural)]
pub enum LoaderStatus {
    /// The movie hasn't been loaded yet.
    Pending,
    /// The movie is currently being parsed.
    Parsing,
    /// The movie loaded successfully.
    Succeeded,
    /// An error occurred while loading the movie.
    Failed,
}

/// The script object that hears about a movie load, and with it the dialect
/// in which it is told.
#[derive(Clone, Copy, Debug, PartialEq, Eq, Structural)]
pub enum MovieLoaderEventHandler {
    /// A legacy broadcaster, told through `broadcastMessage`.
    Avm1Broadcast(ObjectRef),
    /// An info object, told through dispatched events.
    Avm2LoaderInfo(ObjectRef),
}

/// Data that only loads started from the second script dialect carry.
#[derive(Clone, Copy, Debug, PartialEq, Eq, Structural)]
pub struct Avm2LoaderData {
    /// The context of the movie being loaded.
    pub context: Option<ObjectRef>,
    /// The default domain this movie will use.
    pub default_domain: ObjectRef,
}

/// One load in flight.
#[derive(Clone, Copy, Debug)]
pub enum Loader {
    /// Loading the root movie of a player.
    RootMovie { self_handle: Option<Handle> },
    /// Loading a new movie into a movie clip.
    Movie {
        self_handle: Option<Handle>,
        /// The target movie clip to load the movie into.
        target_clip: ObjectRef,
        /// Who is told about the load, if anyone.
        event_handler: Option<MovieLoaderEventHandler>,
        /// How far the load has come.
        loader_status: LoaderStatus,
        /// The movie being loaded, once it has been parsed.
        movie: Option<MovieRef>,
        /// Data of the second script dialect for this movie.
        avm2_data: Option<Avm2LoaderData>,
    },
    /// Loading form data into an object of the first script dialect.
    Form { self_handle: Option<Handle>, target_object: ObjectRef },
    /// Loading form data into a `LoadVars` object.
    LoadVars { self_handle: Option<Handle>, target_object: ObjectRef },
    /// Loading data into the `data` property of a `URLLoader`.
    LoadURLLoader {
        self_handle: Option<Handle>,
        target_object: ObjectRef,
        /// The shape in which the loader wants its data.
        data_format: DataFormat,
    },
    /// Loading an MP3 into a sound object of the first script dialect.
    SoundAvm1 { self_handle: Option<Handle>, target_object: ObjectRef },
    /// Loading an MP3 into a sound object of the second script dialect.
    SoundAvm2 { self_handle: Option<Handle>, target_object: ObjectRef },
    /// Buffering video or audio into a stream.
    NetStream { self_handle: Option<Handle>, target_stream: ObjectRef },
}

impl Loader {
    /// The handle that the record carries for itself, once it is registered.
    pub open spec fn handle(self) -> Option<Handle> {
        match self {
            Loader::RootMovie { self_handle } => self_handle,
            Loader::Movie { self_handle, .. } => self_handle,
            Loader::Form { self_handle, .. } => self_handle,
            Loader::LoadVars { self_handle, .. } => self_handle,
            Loader::LoadURLLoader { self_handle, .. } => self_handle,
            Loader::SoundAvm1 { self_handle, .. } => self_handle,
            Loader::SoundAvm2 { self_handle, .. } => self_handle,
            Loader::NetStream { self_handle, .. } => self_handle,
        }
    }

    /// The same record, carrying `handle` for itself.
    pub open spec fn stamped(self, handle: Handle) -> Loader {
        match self {
            Loader::RootMovie { .. } => Loader::RootMovie { self_handle: Some(handle) },
            Loader::Movie {
                target_clip,
                event_handler,
                loader_status,
                movie,
                avm2_data,
                ..
            } => Loader::Movie {
                self_handle: Some(handle),
                target_clip,
                event_handler,
                loader_status,
                movie,
                avm2_data,
            },
            Loader::Form { target_object, .. } => Loader::Form {
                self_handle: Some(handle),
                target_object,
            },
            Loader::LoadVars { target_object, .. } => Loader::LoadVars {
                self_handle: Some(handle),
                target_object,
            },
            Loader::LoadURLLoader { target_object, data_format, .. } => Loader::LoadURLLoader {
                self_handle: Some(handle),
                target_object,
                data_format,
            },
            Loader::SoundAvm1 { target_object, .. } => Loader::SoundAvm1 {
                self_handle: Some(handle),
                target_object,
            },
            Loader::SoundAvm2 { target_object, .. } => Loader::SoundAvm2 {
                self_handle: Some(handle),
                target_object,
            },
            Loader::NetStream { target_stream, .. } => Loader::NetStream {
                self_handle: Some(handle),
                target_stream,
            },
        }
    }

    /// Writes `handle` into the record's own handle field.
    pub fn stamp(&mut self, handle: Handle)
        ensures
            *final(self) == old(self).stamped(handle),
    {
        match self {
            Loader::RootMovie { self_handle } => *self_handle = Some(handle),
            Loader::Movie { self_handle, .. } => *self_handle = Some(handle),
            Loader::Form { self_handle, .. } => *self_handle = Some(handle),
            Loader::LoadVars { self_handle, .. } => *self_handle = Some(handle),
            Loader::LoadURLLoader { self_handle, .. } => *self_handle = Some(handle),
            Loader::SoundAvm1 { self_handle, .. } => *self_handle = Some(handle),
            Loader::SoundAvm2 { self_handle, .. } => *self_handle = Some(handle),
            Loader::NetStream { self_handle, .. } => *self_handle = Some(handle),
        }
    }
}

} // verus!
