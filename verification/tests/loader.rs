//! Behaviour of the asset loaders' pure selection rules.

use audio_bridge::loader::{AudioAssetSettings, AudioFileLoader, AudioLoader, LoadMode};

#[test]
fn default_settings_load_into_memory() {
    let settings = AudioAssetSettings::default();
    assert!(!settings.should_stream);
    let loader = AudioFileLoader::default();
    assert_eq!(loader.load_mode(&settings), LoadMode::Static);
}

#[test]
fn streaming_flag_selects_streaming() {
    let loader = AudioFileLoader;
    assert_eq!(loader.load_mode(&AudioAssetSettings { should_stream: true }), LoadMode::Streaming);
    assert_eq!(loader.load_mode(&AudioAssetSettings { should_stream: false }), LoadMode::Static);
    let loader = AudioLoader;
    assert_eq!(loader.load_mode(true), LoadMode::Streaming);
    assert_eq!(loader.load_mode(false), LoadMode::Static);
}

#[test]
fn loaders_accept_the_same_extensions() {
    let expected = ["wav", "flac", "mp3", "ogg", "oga", "spx"];
    let file_loader = AudioFileLoader;
    assert_eq!(file_loader.extensions(), expected);
    let loader = AudioLoader;
    assert_eq!(loader.extensions(), expected);
}
