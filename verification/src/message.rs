//! Platform-agnostic chat messages that the bot sends and mirrors.

use vstd::prelude::*;

use crate::playback::Song;
use crate::songbook::SongbookSong;

verus! {

/// Platform from which a message originates or to which it is targeted.
#[derive(Clone, Debug, PartialEq, Eq, Structural)]
pub enum Platform {
    Irc,
    Discord,
    /// Bot-generated messages (go to all platforms).
    Bot,
}

/// Rich message content for platforms that support it (Discord embeds).
#[derive(Clone, Debug)]
pub enum RichContent {
    /// Queue status with optional progress information.
    QueueStatus {
        now_playing: Option<NowPlayingInfo>,
        next_up: Option<Song>,
        queue_length: usize,
        queue_duration_mins: u64,
        is_playing: bool,
    },
    /// Song added to queue confirmation.
    SongEnqueued { song: Song, time_until_playback_mins: u64 },
    /// Bingo mode announcement: everyone should find the song.
    BingoAnnouncement { song: SongbookSong },
    /// Song request list.
    SongRequestList { songs: Vec<SongbookSong> },
    /// Help text.
    Help { songbook_url: String },
    /// Error message.
    Error { message: String },
    /// Song countdown ("3... 2... 1... NOW!").
    Countdown { value: CountdownValue },
    /// A song has been removed.
    SongRemoved { title: String },
    /// A song request has been added.
    SongRequestAdded { song: SongbookSong },
}

#[derive(Clone, Debug)]
pub struct NowPlayingInfo {
    pub song: Song,
    pub progress_secs: u64,
}

#[derive(Clone, Debug, PartialEq, Eq, Structural)]
pub enum CountdownValue {
    Three,
    Two,
    One,
    Now,
}

/// Platform-agnostic message action.
#[derive(Clone, Debug)]
pub enum MessageAction {
    /// Send a message to all platforms.
    Send {
        /// Plain text fallback (used for IRC and speech).
        text: String,
        /// Optional rich content for platforms that support it.
        rich: Option<RichContent>,
        /// Source platform (messages are not echoed back to their source).
        source: Platform,
    },
    /// A user message to be mirrored to the other platforms.
    Mirror {
        /// Nickname of the sender.
        username: String,
        /// Message content.
        text: String,
        /// Source platform.
        source: Platform,
    },
    /// Remember the message whose reactions count as bingo (Discord).
    StoreBingoMessageId { message_id: u64 },
}

impl MessageAction {
    /// A plain text message from the bot.
    pub fn bot_say(text: String) -> (m: Self)
        ensures
            m == (MessageAction::Send { text, rich: None, source: Platform::Bot }),
    {
        MessageAction::Send { text, rich: None, source: Platform::Bot }
    }

    /// A message from the bot with rich content.
    pub fn rich(text: String, rich: RichContent) -> (m: Self)
        ensures
            m == (MessageAction::Send { text, rich: Some(rich), source: Platform::Bot }),
    {
        MessageAction::Send { text, rich: Some(rich), source: Platform::Bot }
    }

    /// An error message from the bot: the text is the message itself and the
    /// rich content an error carrying the same message.
    pub fn error(message: String) -> (m: Self)
        ensures
            m matches MessageAction::Send { text, rich, source } && text@ == message@ && rich
                == Some(RichContent::Error { message }) && source == Platform::Bot,
    {
        let msg = message;
        MessageAction::Send {
            text: msg.clone(),
            rich: Some(RichContent::Error { message: msg }),
            source: Platform::Bot,
        }
    }
}

} // verus!
