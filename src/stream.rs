//! The audio source node the daemon registers with the host audio graph.

use vstd::prelude::*;

verus! {

/// Name of the stream and of its node.
pub const STREAM_NAME: &'static str = "omic";

pub const MEDIA_CLASS_KEY: &'static str = "media.class";

pub const NODE_NAME_KEY: &'static str = "node.name";

pub const AUDIO_CHANNELS_KEY: &'static str = "audio.channels";

pub const CHANNEL_NAMES_KEY: &'static str = "node.channel-names";

/// Media class of a capture source.
pub const AUDIO_SOURCE: &'static str = "Audio/Source";

/// The one channel of the mono profile, as text.
pub const ONE_CHANNEL: &'static str = "1";

/// A stream's name and the properties its node is created with.
pub struct StreamConfig {
    pub name: String,
    pub properties: Vec<(String, String)>,
}

/// Whether property `i` of `props` is `key` = `value`.
pub open spec fn has_property(
    props: Seq<(String, String)>,
    i: int,
    key: &str,
    value: &str,
) -> bool {
    props[i].0@ == key@ && props[i].1@ == value@
}

/// The stream the daemon registers: a mono audio source named `omic`.
pub fn create_stream() -> (r: StreamConfig)
    ensures
        r.name@ == STREAM_NAME@,
        r.properties@.len() == 4,
        has_property(r.properties@, 0, MEDIA_CLASS_KEY, AUDIO_SOURCE),
        has_property(r.properties@, 1, NODE_NAME_KEY, STREAM_NAME),
        has_property(r.properties@, 2, AUDIO_CHANNELS_KEY, ONE_CHANNEL),
        has_property(r.properties@, 3, CHANNEL_NAMES_KEY, ONE_CHANNEL),
{
    let mut properties: Vec<(String, String)> = Vec::new();
    properties.push((MEDIA_CLASS_KEY.to_owned(), AUDIO_SOURCE.to_owned()));
    properties.push((NODE_NAME_KEY.to_owned(), STREAM_NAME.to_owned()));
    properties.push((AUDIO_CHANNELS_KEY.to_owned(), ONE_CHANNEL.to_owned()));
    properties.push((CHANNEL_NAMES_KEY.to_owned(), ONE_CHANNEL.to_owned()));
    StreamConfig { name: STREAM_NAME.to_owned(), properties }
}

} // verus!
