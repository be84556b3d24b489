//! The bot's configuration.

use vstd::prelude::*;

verus! {

/// How to reach the IRC server.
#[derive(Clone, Debug)]
pub struct IrcConfig {
    /// Nickname of the bot.
    pub irc_nickname: String,
    /// Server host name.
    pub irc_server: String,
    /// Server port (default: 6667 in plain text, 6697 with TLS).
    pub irc_port: Option<u16>,
    /// Channel to join.
    pub irc_channel: String,
    /// Whether to connect with TLS (default: no).
    pub irc_use_tls: Option<bool>,
}

/// Where songs to sing are found.
#[derive(Clone, Debug)]
pub struct SongbookConfig {
    /// Base URL of the songbook.
    pub songbook_url: String,
    /// Pattern of song URLs; its second capture group is the song id.
    pub songbook_re: String,
}

/// How to reach Discord.
#[derive(Clone, Debug)]
pub struct DiscordConfig {
    /// Bot token.
    pub discord_token: String,
    /// Channel in which the bot talks.
    pub discord_channel_id: u64,
    /// Guild (server) where its commands are registered.
    pub discord_guild_id: u64,
    /// Voice channel to stream audio to, joined on start when set.
    pub discord_voice_channel_id: Option<u64>,
}

/// The whole configuration.
#[derive(Clone, Debug)]
pub struct Config {
    pub irc: Option<IrcConfig>,
    pub songbook: SongbookConfig,
    pub discord: Option<DiscordConfig>,
}

} // verus!
