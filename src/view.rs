//! The text of the "now playing" status view: title, artist, a progress bar with the
//! elapsed and total time, the transport state, the volume and the loop setting.

use crate::track::{LoopMode, PlayStatus, TrackMetadata, TrackStatus};
use vstd::prelude::*;

verus! {

/// Number of cells in the progress bar.
pub const BAR_CELLS: u64 = 15;

/// The picture shown when a track has no thumbnail.
pub const DEFAULT_THUMBNAIL: &'static str =
    "https://images.unsplash.com/photo-1611162616475-46b635cb6868?ixlib=rb-4.0.3";

/// The decimal digit for `d < 10`.
pub open spec fn digit(d: nat) -> char {
    seq!['0', '1', '2', '3', '4', '5', '6', '7', '8', '9'][d as int]
}

/// `n` written in decimal, without leading zeros.
pub open spec fn decimal(n: nat) -> Seq<char>
    decreases n,
{
    if n < 10 {
        seq![digit(n)]
    } else {
        decimal(n / 10).push(digit(n % 10))
    }
}

/// `n` in decimal, padded with a zero to at least two digits.
pub open spec fn two_digits(n: nat) -> Seq<char> {
    if n < 10 {
        seq!['0'] + decimal(n)
    } else {
        decimal(n)
    }
}

/// A time of `secs` seconds as minutes and seconds, `MM:SS`.
pub open spec fn clock(secs: nat) -> Seq<char> {
    two_digits(secs / 60) + seq![':'] + two_digits(secs % 60)
}

/// `s` written `n` times.
pub open spec fn repeated(s: Seq<char>, n: nat) -> Seq<char>
    decreases n,
{
    if n == 0 {
        Seq::empty()
    } else {
        repeated(s, (n - 1) as nat) + s
    }
}

/// How many cells of the bar are filled: the share of the track played, rounded to
/// the nearest cell (halves up), none when the track is shorter than a second.
pub open spec fn filled_cells(position_ms: nat, total_ms: nat) -> nat {
    if total_ms / 1000 == 0 {
        0
    } else if position_ms >= total_ms {
        BAR_CELLS as nat
    } else {
        // round(BAR_CELLS * position / total), with BAR_CELLS == 15
        ((30 * position_ms + total_ms) / (2 * total_ms)) as nat
    }
}

/// The progress bar with `filled` cells filled and the position marker after them.
pub open spec fn bar(filled: nat) -> Seq<char> {
    if filled == 0 {
        "`\u{1F518}"@ + repeated("\u{2500}"@, BAR_CELLS as nat) + "   `"@
    } else if filled >= BAR_CELLS {
        "`"@ + repeated("\u{25AC}"@, filled) + "\u{1F518}`"@
    } else {
        "`"@ + repeated("\u{25AC}"@, filled) + "\u{1F518}"@ + repeated(
            "\u{2500}"@,
            (BAR_CELLS - filled) as nat,
        ) + "  `"@
    }
}

/// The icon of a transport state.
pub open spec fn status_icon(s: PlayStatus) -> Seq<char> {
    match s {
        PlayStatus::Play => "\u{25B6}\u{FE0F}"@,
        PlayStatus::Pause => "\u{23F8}\u{FE0F}"@,
        PlayStatus::Stop => "\u{23F9}\u{FE0F}"@,
        PlayStatus::End => "\u{1F3C1}"@,
        PlayStatus::Errored(why) => "\u{2753}"@ + why@,
        PlayStatus::Unknown => "\u{23F9} state unknown"@,
    }
}

/// The loop setting as shown.
pub open spec fn loop_text(l: LoopMode) -> Seq<char> {
    match l {
        LoopMode::Infinite => "Infinite"@,
        LoopMode::Finite(n) => "Finite("@ + decimal(n as nat) + ")"@,
    }
}

/// The text of an optional field, or `default` where it is missing.
pub open spec fn text_or(t: Option<String>, default: Seq<char>) -> Seq<char> {
    match t {
        Some(s) => s@,
        None => default,
    }
}

/// The status view, as plain texts.
pub struct NowPlayingView {
    pub title: String,
    pub description: String,
    pub thumbnail: String,
    /// The progress bar followed by `elapsed / total`.
    pub progress: String,
    pub volume: String,
    pub looping: String,
}

/// The view's title: the transport icon, then "Now Playing".
pub open spec fn view_title(st: TrackStatus) -> Seq<char> {
    status_icon(st.playing) + " Now Playing"@
}

/// The view's description: the title in bold, the artist on the next line.
pub open spec fn view_description(m: TrackMetadata) -> Seq<char> {
    "**"@ + text_or(m.title, "Unknown Title"@) + "**\n"@ + text_or(m.artist, "Unknown Artist"@)
}

/// The view's progress field: the bar, then elapsed and total time.
pub open spec fn view_progress(m: TrackMetadata, st: TrackStatus) -> Seq<char> {
    let total_ms: nat = match m.duration_ms {
        Some(d) => d as nat,
        None => 0,
    };
    bar(filled_cells(st.position_ms as nat, total_ms)) + " `"@ + clock(st.position_ms as nat / 1000)
        + " / "@ + clock(total_ms / 1000) + "`"@
}

fn digit_text(d: u64) -> (r: &'static str)
    requires
        d < 10,
    ensures
        r@ == seq![digit(d as nat)],
{
    proof {
        reveal_strlit("0");
        reveal_strlit("1");
        reveal_strlit("2");
        reveal_strlit("3");
        reveal_strlit("4");
        reveal_strlit("5");
        reveal_strlit("6");
        reveal_strlit("7");
        reveal_strlit("8");
        reveal_strlit("9");
    }
    match d {
        0 => "0",
        1 => "1",
        2 => "2",
        3 => "3",
        4 => "4",
        5 => "5",
        6 => "6",
        7 => "7",
        8 => "8",
        _ => "9",
    }
}

/// `n` in decimal.
pub fn decimal_text(n: u64) -> (r: String)
    ensures
        r@ == decimal(n as nat),
    decreases n,
{
    if n < 10 {
        String::from_str(digit_text(n))
    } else {
        let mut s = decimal_text(n / 10);
        s.append(digit_text(n % 10));
        s
    }
}

fn two_digit_text(n: u64) -> (r: String)
    ensures
        r@ == two_digits(n as nat),
{
    if n < 10 {
        proof {
            reveal_strlit("0");
        }
        let s = String::from_str("0");
        let d = decimal_text(n);
        s.concat(d.as_str())
    } else {
        decimal_text(n)
    }
}

/// A time of `secs` seconds as `MM:SS`.
pub fn clock_text(secs: u64) -> (r: String)
    ensures
        r@ == clock(secs as nat),
{
    proof {
        reveal_strlit(":");
    }
    let minutes = two_digit_text(secs / 60);
    let seconds = two_digit_text(secs % 60);
    minutes.concat(":").concat(seconds.as_str())
}

fn repeat_text(s: &str, n: u64) -> (r: String)
    ensures
        r@ == repeated(s@, n as nat),
{
    let mut out = String::new();
    let mut i: u64 = 0;
    while i < n
        invariant
            i <= n,
            out@ == repeated(s@, i as nat),
        decreases n - i,
    {
        out.append(s);
        i = i + 1;
    }
    out
}

/// How many of the bar's cells are filled at `position_ms` into a track of `total_ms`.
pub fn filled_cell_count(position_ms: u64, total_ms: u64) -> (r: u64)
    ensures
        r as nat == filled_cells(position_ms as nat, total_ms as nat),
        r <= BAR_CELLS,
{
    if total_ms / 1000 == 0 {
        0
    } else if position_ms >= total_ms {
        BAR_CELLS
    } else {
        let num: u128 = (position_ms as u128) * 30 + (total_ms as u128);
        let den: u128 = (total_ms as u128) * 2;
        proof {
            assert(num < den * 16);
            assert(num / den < 16) by (nonlinear_arith)
                requires
                    num < den * 16,
                    den > 0,
            ;
        }
        (num / den) as u64
    }
}

/// The progress bar for `filled` cells.
pub fn bar_text(filled: u64) -> (r: String)
    ensures
        r@ == bar(filled as nat),
{
    if filled == 0 {
        String::from_str("`\u{1F518}").concat(repeat_text("\u{2500}", BAR_CELLS).as_str()).concat(
            "   `",
        )
    } else if filled >= BAR_CELLS {
        String::from_str("`").concat(repeat_text("\u{25AC}", filled).as_str()).concat("\u{1F518}`")
    } else {
        String::from_str("`").concat(repeat_text("\u{25AC}", filled).as_str()).concat(
            "\u{1F518}",
        ).concat(repeat_text("\u{2500}", BAR_CELLS - filled).as_str()).concat("  `")
    }
}

/// The icon of a transport state.
pub fn status_icon_text(s: &PlayStatus) -> (r: String)
    ensures
        r@ == status_icon(*s),
{
    match s {
        PlayStatus::Play => String::from_str("\u{25B6}\u{FE0F}"),
        PlayStatus::Pause => String::from_str("\u{23F8}\u{FE0F}"),
        PlayStatus::Stop => String::from_str("\u{23F9}\u{FE0F}"),
        PlayStatus::End => String::from_str("\u{1F3C1}"),
        PlayStatus::Errored(why) => String::from_str("\u{2753}").concat(why.as_str()),
        PlayStatus::Unknown => String::from_str("\u{23F9} state unknown"),
    }
}

/// The loop setting as shown.
pub fn loop_setting_text(l: LoopMode) -> (r: String)
    ensures
        r@ == loop_text(l),
{
    match l {
        LoopMode::Infinite => String::from_str("Infinite"),
        LoopMode::Finite(n) => String::from_str("Finite(").concat(
            decimal_text(n as u64).as_str(),
        ).concat(")"),
    }
}

fn text_or_default(t: &Option<String>, default: &str) -> (r: String)
    ensures
        r@ == text_or(*t, default@),
{
    match t {
        Some(s) => String::from_str(s.as_str()),
        None => String::from_str(default),
    }
}

/// The status view of track `metadata` in state `status`.
pub fn create_now_playing_view(metadata: &TrackMetadata, status: &TrackStatus) -> (r:
    NowPlayingView)
    ensures
        r.title@ == view_title(*status),
        r.description@ == view_description(*metadata),
        r.thumbnail@ == text_or(metadata.thumbnail, DEFAULT_THUMBNAIL@),
        r.progress@ == view_progress(*metadata, *status),
        r.volume@ == decimal(status.volume_percent as nat) + "%"@,
        r.looping@ == loop_text(status.loops),
{
    let total_ms: u64 = match metadata.duration_ms {
        Some(d) => d,
        None => 0,
    };
    let filled = filled_cell_count(status.position_ms, total_ms);
    let progress = bar_text(filled).concat(" `").concat(
        clock_text(status.position_ms / 1000).as_str(),
    ).concat(" / ").concat(clock_text(total_ms / 1000).as_str()).concat("`");
    let title = status_icon_text(&status.playing).concat(" Now Playing");
    let description = String::from_str("**").concat(
        text_or_default(&metadata.title, "Unknown Title").as_str(),
    ).concat("**\n").concat(text_or_default(&metadata.artist, "Unknown Artist").as_str());
    NowPlayingView {
        title,
        description,
        thumbnail: text_or_default(&metadata.thumbnail, DEFAULT_THUMBNAIL),
        progress,
        volume: decimal_text(status.volume_percent as u64).concat("%"),
        looping: loop_setting_text(status.loops),
    }
}

} // verus!
