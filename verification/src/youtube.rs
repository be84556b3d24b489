//! Songs found on YouTube: how the details that yt-dlp reports become a song
//! of the music queue. Running yt-dlp happens in the application.

use vstd::prelude::*;

use crate::playback::Song;
use crate::text::{push_str, str_to_string};

verus! {

/// Why no song could be made of a lookup.
#[derive(Clone, Debug)]
pub enum VideoInfoError {
    NoVideo,
    NoTitle,
    NoChannel,
    NoDuration,
    InvalidDuration,
}

/// The text that describes the error.
pub open spec fn video_error_text(e: VideoInfoError) -> Seq<char> {
    match e {
        VideoInfoError::NoVideo => "No video found"@,
        VideoInfoError::NoTitle => "No title found in yt-dlp JSON!"@,
        VideoInfoError::NoChannel => "No channel found in yt-dlp JSON!"@,
        VideoInfoError::NoDuration => "No duration found in yt-dlp JSON!"@,
        VideoInfoError::InvalidDuration => "Invalid duration in yt-dlp JSON"@,
    }
}

impl VideoInfoError {
    /// The text that describes the error.
    pub fn message(&self) -> (s: String)
        ensures
            s@ == video_error_text(*self),
    {
        match self {
            VideoInfoError::NoVideo => str_to_string("No video found"),
            VideoInfoError::NoTitle => str_to_string("No title found in yt-dlp JSON!"),
            VideoInfoError::NoChannel => str_to_string("No channel found in yt-dlp JSON!"),
            VideoInfoError::NoDuration => str_to_string("No duration found in yt-dlp JSON!"),
            VideoInfoError::InvalidDuration => str_to_string("Invalid duration in yt-dlp JSON"),
        }
    }
}

/// The short link of a YouTube video.
pub open spec fn youtube_link(id: Seq<char>) -> Seq<char> {
    "https://youtu.be/"@ + id
}

/// The short link of a YouTube video.
pub fn youtube_url(id: &str) -> (s: String)
    ensures
        s@ == youtube_link(id@),
{
    let mut s = str_to_string("https://youtu.be/");
    push_str(&mut s, id);
    assert(s@ =~= youtube_link(id@));
    s
}

/// The song of a video that yt-dlp found: its id, title, channel and
/// duration (`Some(None)` when the reported duration is no whole number of
/// seconds), queued by `queued_by`. Missing details are reported in this
/// order: title, channel, duration.
pub fn song_from_video(
    id: String,
    title: Option<String>,
    channel: Option<String>,
    duration: Option<Option<u64>>,
    queued_by: String,
) -> (r: Result<Song, VideoInfoError>)
    ensures
        title is None ==> r matches Err(VideoInfoError::NoTitle),
        title is Some && channel is None ==> r matches Err(VideoInfoError::NoChannel),
        title is Some && channel is Some && duration is None ==> r matches Err(VideoInfoError::NoDuration),
        title is Some && channel is Some && duration == Some(None::<u64>) ==> r matches Err(VideoInfoError::InvalidDuration),
        (title is Some && channel is Some && (duration matches Some(Some(_)))) ==> (r matches Ok(song)
            && song.id@ == id@ && song.url@ == youtube_link(id@) && Some(song.title) == title
            && Some(song.channel) == channel && Some(Some(song.duration)) == duration && song.queued_by
            == queued_by),
{
    let title = match title {
        Some(t) => t,
        None => return Err(VideoInfoError::NoTitle),
    };
    let channel = match channel {
        Some(c) => c,
        None => return Err(VideoInfoError::NoChannel),
    };
    let duration = match duration {
        Some(Some(d)) => d,
        Some(None) => return Err(VideoInfoError::InvalidDuration),
        None => return Err(VideoInfoError::NoDuration),
    };
    let url = youtube_url(id.as_str());
    Ok(Song { id, url, title, channel, duration, queued_by })
}

} // verus!
