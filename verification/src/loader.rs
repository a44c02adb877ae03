//! Pure selection rules of the audio asset loaders.
//!
//! The loaders themselves sit at an I/O edge: the host hands them a reader
//! and they produce an asset, either the file's bytes held in memory or a
//! path the engine streams from on demand. The byte reading belongs to the
//! host; what is verified here is the part the loaders decide — which of the
//! two load modes the settings select, and which file extensions the loaders
//! accept.

use vstd::prelude::*;

verus! {

/// How an audio file asset is to be held.
#[derive(Clone, Copy, Debug, PartialEq, Eq, Structural)]
pub enum LoadMode {
    /// The whole file is read into memory: fast seeking and looping, at the
    /// price of holding the full contents.
    Static,
    /// Only the path is kept; the engine reads chunks from disk on demand.
    /// Needs direct disk access, so it is unavailable on the web.
    Streaming,
}

/// Settings applied when loading an audio file.
#[derive(Clone, Copy, Debug, Default, PartialEq, Eq, Structural)]
pub struct AudioAssetSettings {
    /// Whether the loader should keep only the path and stream the file on
    /// demand during playback, instead of reading it into memory.
    pub should_stream: bool,
}

/// Loader for audio file assets.
#[derive(Clone, Copy, Debug, Default)]
pub struct AudioFileLoader;

/// Earlier loader for audio file assets, kept for hosts still on the older
/// asset type; it selects its mode from a bare streaming flag.
#[derive(Clone, Copy, Debug, Default)]
pub struct AudioLoader;

/// The load mode a streaming flag selects.
pub open spec fn spec_load_mode(streaming: bool) -> LoadMode {
    if streaming {
        LoadMode::Streaming
    } else {
        LoadMode::Static
    }
}

/// Pushes the file extensions both loaders accept.
fn accepted_extensions() -> (extensions: Vec<String>)
    ensures
        extensions@.len() == 6,
        extensions@[0]@ == "wav"@,
        extensions@[1]@ == "flac"@,
        extensions@[2]@ == "mp3"@,
        extensions@[3]@ == "ogg"@,
        extensions@[4]@ == "oga"@,
        extensions@[5]@ == "spx"@,
{
    let mut extensions: Vec<String> = Vec::new();
    extensions.push("wav".to_owned());
    extensions.push("flac".to_owned());
    extensions.push("mp3".to_owned());
    extensions.push("ogg".to_owned());
    extensions.push("oga".to_owned());
    extensions.push("spx".to_owned());
    extensions
}

impl AudioFileLoader {
    /// Which load mode the given settings select.
    pub fn load_mode(&self, settings: &AudioAssetSettings) -> (mode: LoadMode)
        ensures
            mode == spec_load_mode(settings.should_stream),
    {
        if settings.should_stream {
            LoadMode::Streaming
        } else {
            LoadMode::Static
        }
    }

    /// The file extensions this loader registers for.
    pub fn extensions(&self) -> (extensions: Vec<String>)
        ensures
            extensions@.len() == 6,
            extensions@[0]@ == "wav"@,
            extensions@[1]@ == "flac"@,
            extensions@[2]@ == "mp3"@,
            extensions@[3]@ == "ogg"@,
            extensions@[4]@ == "oga"@,
            extensions@[5]@ == "spx"@,
    {
        accepted_extensions()
    }
}

impl AudioLoader {
    /// Which load mode a streaming flag selects.
    pub fn load_mode(&self, streaming: bool) -> (mode: LoadMode)
        ensures
            mode == spec_load_mode(streaming),
    {
        if streaming {
            LoadMode::Streaming
        } else {
            LoadMode::Static
        }
    }

    /// The file extensions this loader registers for.
    pub fn extensions(&self) -> (extensions: Vec<String>)
        ensures
            extensions@.len() == 6,
            extensions@[0]@ == "wav"@,
            extensions@[1]@ == "flac"@,
            extensions@[2]@ == "mp3"@,
            extensions@[3]@ == "ogg"@,
            extensions@[4]@ == "oga"@,
            extensions@[5]@ == "spx"@,
    {
        accepted_extensions()
    }
}

} // verus!
