//! What the parts of the bot tell each other, and the effects that the
//! library hands back to the application to carry out.

use vstd::prelude::*;

use crate::irc::IrcAction;
use crate::message::{MessageAction, Platform};
use crate::playback::PlaybackAction;
use crate::songleader::SongleaderAction;
use crate::sources::espeak::TextToSpeechAction;
use crate::sources::symphonia::SymphoniaAction;

verus! {

/// An event on the bus that connects the parts of the bot.
#[derive(Clone, Debug)]
pub enum Event {
    TextToSpeech(TextToSpeechAction),
    Symphonia(SymphoniaAction),
    Playback(PlaybackAction),
    Irc(IrcAction),
    Songleader(SongleaderAction),
    Message(MessageAction),
}

/// An effect that a state machine of the library asks the application to
/// carry out, in order.
#[derive(Clone, Debug)]
pub enum Effect {
    /// Publish an event on the bus.
    Send(Event),
    /// Wait before carrying out the next effect.
    Sleep { millis: u64 },
    /// Write the state of the component to disk.
    Persist,
}

/// `e` is a plain message from the bot with the given text.
pub open spec fn is_bot_text(e: Effect, text: Seq<char>) -> bool {
    e matches Effect::Send(Event::Message(MessageAction::Send { text: t, rich, source }))
        && t@ == text && rich is None && source == Platform::Bot
}

/// `e` sends a control action to the player.
pub open spec fn is_player(e: Effect, a: SymphoniaAction) -> bool {
    e == Effect::Send(Event::Symphonia(a))
}

} // verus!
