//! Decisions and texts of the transport controls and of the bot's invite link.

use crate::track::{LoopMode, TrackMetadata};
use crate::view::{decimal, decimal_text, text_or};
use vstd::prelude::*;

verus! {

/// What a loop toggle asks of the audio engine.
#[derive(Clone, Copy, PartialEq, Eq, Structural, Debug)]
pub enum LoopCommand {
    /// Repeat the current track this many more times.
    LoopFor(usize),
    /// Repeat it without end.
    Enable,
    /// Stop repeating it.
    Disable,
}

/// The command for a toggle with an optional `count`, given the current loop setting.
pub open spec fn loop_command(count: Option<usize>, current: LoopMode) -> LoopCommand {
    match count {
        Some(n) => LoopCommand::LoopFor(n),
        None => if current == LoopMode::Finite(0) {
            LoopCommand::Enable
        } else {
            LoopCommand::Disable
        },
    }
}

/// With a count, repeat that often; without one, toggle between looping without end
/// (when the track does not loop) and not looping (when it does).
pub fn loop_toggle_command(count: Option<usize>, current: LoopMode) -> (r: LoopCommand)
    ensures
        r == loop_command(count, current),
{
    match count {
        Some(n) => LoopCommand::LoopFor(n),
        None => if current == LoopMode::Finite(0) {
            LoopCommand::Enable
        } else {
            LoopCommand::Disable
        },
    }
}

/// The confirmation shown for a loop command.
pub open spec fn loop_message(c: LoopCommand) -> Seq<char> {
    match c {
        LoopCommand::LoopFor(n) => "song looped for "@ + decimal(n as nat) + " times"@,
        LoopCommand::Enable => "song looped"@,
        LoopCommand::Disable => "song loop disabled"@,
    }
}

/// The confirmation shown for a loop command.
pub fn loop_command_message(c: LoopCommand) -> (r: String)
    ensures
        r@ == loop_message(c),
{
    match c {
        LoopCommand::LoopFor(n) => String::from_str("song looped for ").concat(
            decimal_text(n as u64).as_str(),
        ).concat(" times"),
        LoopCommand::Enable => String::from_str("song looped"),
        LoopCommand::Disable => String::from_str("song loop disabled"),
    }
}

/// The first text of a new status message.
pub open spec fn now_playing_line(m: TrackMetadata) -> Seq<char> {
    "Now playing: "@ + text_or(m.title, "Unknown Title"@) + " - "@ + text_or(m.artist, "Unknown Artist"@)
}

/// The first text of a new status message: the track's title and artist.
pub fn now_playing_text(m: &TrackMetadata) -> (r: String)
    ensures
        r@ == now_playing_line(*m),
{
    let title = match &m.title {
        Some(t) => t.as_str(),
        None => "Unknown Title",
    };
    let artist = match &m.artist {
        Some(a) => a.as_str(),
        None => "Unknown Artist",
    };
    String::from_str("Now playing: ").concat(title).concat(" - ").concat(artist)
}

/// The pairs `pairs` in `application/x-www-form-urlencoded` form, as url writes them.
pub uninterp spec fn form_encoded(pairs: Seq<(Seq<char>, Seq<char>)>) -> Seq<char>;

/// Relies on url's `form_urlencoded::Serializer` (`extend_pairs`, then `finish`): the
/// text depends on the pairs alone.
#[verifier::external_body]
fn form_encode(pairs: &Vec<(String, String)>) -> (r: String)
    ensures
        r@ == form_encoded(pairs@.map_values(|p: (String, String)| (p.0@, p.1@))),
{
    url::form_urlencoded::Serializer::new(String::new()).extend_pairs(pairs.iter()).finish()
}

/// The page where a bot is authorised.
pub const AUTHORIZE_URL: &'static str = "https://discord.com/oauth2/authorize";

/// The scopes that the bot asks for.
pub const BOT_SCOPE: &'static str = "bot applications.commands";

/// The link that invites the bot with id `client_id` and the permission bits
/// `permissions`.
pub fn create_invite_link(client_id: &str, permissions: u64) -> (r: String)
    ensures
        r@ == AUTHORIZE_URL@ + "?"@ + form_encoded(
            seq![
                ("client_id"@, client_id@),
                ("permissions"@, decimal(permissions as nat)),
                ("scope"@, BOT_SCOPE@),
            ],
        ),
{
    let mut pairs: Vec<(String, String)> = Vec::new();
    pairs.push((String::from_str("client_id"), String::from_str(client_id)));
    pairs.push((String::from_str("permissions"), decimal_text(permissions)));
    pairs.push((String::from_str("scope"), String::from_str(BOT_SCOPE)));
    assert(pairs@.map_values(|p: (String, String)| (p.0@, p.1@)) =~= seq![
        ("client_id"@, client_id@),
        ("permissions"@, decimal(permissions as nat)),
        ("scope"@, BOT_SCOPE@),
    ]);
    String::from_str(AUTHORIZE_URL).concat("?").concat(form_encode(&pairs).as_str())
}

} // verus!
