//! The plain download of a clip: one run of the transcoder on the clip's two
//! streams, with a progress bar that moves on each timestamp of the
//! transcoder's output.
//!
//! The downloader gives the command line, says how far each line of output
//! moves the bar, and keeps the bar's position. A clock reading on a line is
//! compared, as a time of day, with the time of day that lies the clip's end
//! after midnight of the first of January 1970; the bar moves by the
//! milliseconds between the two. The position counts modulo 2^64, as the
//! bar's own counter does.

use chrono::{NaiveDateTime, NaiveTime};
use numtoa::NumToA;
use vstd::prelude::*;
use vstd::string::*;
use crate::decimal::decimal_digits;
use crate::download::ffmpeg::{
    input_arguments,
    millis_text,
    push_text,
    FFmpegInput,
    FFmpegInputView,
};
use crate::extract::extractor::{Clip, ClipView, ClypperError};
use crate::pattern::{captures, group_text, regex_captures};

verus! {

/// Finds a clock reading; group 1 is the whole reading, hours to fraction.
pub const CLOCK_PATTERN: &'static str = "time=(\\d+:\\d+:\\d+\\.\\d+)";

/// The milliseconds from one time of day to another, as chrono counts
/// them. The first time of day is what `NaiveTime::parse_from_str` reads
/// from `clock` in the format `%H:%M:%S.%f`; the second is that of
/// `NaiveDateTime::from_timestamp_millis` at `end_ms`, taken as a signed
/// number. The result is `NaiveTime::signed_duration_since` of the two in
/// whole milliseconds, negative where the first is the earlier; `None` where
/// `clock` is no time of day in that format or `end_ms` lies outside the
/// dates that chrono holds.
pub uninterp spec fn chrono_clock_distance(clock: Seq<char>, end_ms: u64) -> Option<i64>;

/// Calls `NaiveTime::parse_from_str` on `clock`,
/// `NaiveDateTime::from_timestamp_millis` and `time` on `end_ms`, and
/// `NaiveTime::signed_duration_since` and `num_milliseconds` on the two
/// times. Trusted: the result is what `chrono_clock_distance` names.
#[allow(deprecated)]
#[verifier::external_body]
fn clock_distance(clock: &str, end_ms: u64) -> (distance: Option<i64>)
    ensures
        distance == chrono_clock_distance(clock@, end_ms),
{
    let end_time = NaiveDateTime::from_timestamp_millis(end_ms as i64)?.time();
    let time = NaiveTime::parse_from_str(clock, "%H:%M:%S.%f").ok()?;
    Some(NaiveTime::signed_duration_since(time, end_time).num_milliseconds())
}

/// Calls `numtoa_str` of the `numtoa` crate on `n`, in base 10 and with a
/// buffer of 20 bytes, which holds every `u64`. Trusted: the result is the
/// decimal numeral of `n`, without sign or leading zero.
#[verifier::external_body]
fn numeral(n: u64) -> (text: String)
    ensures
        text@ == decimal_digits(n as nat),
{
    let mut buffer = [0u8; 20];
    n.numtoa_str(10, &mut buffer).to_string()
}

/// The size of a signed number of milliseconds.
pub open spec fn magnitude(distance: i64) -> u64 {
    if distance < 0 {
        (-distance) as u64
    } else {
        distance as u64
    }
}

/// The size of a signed number of milliseconds.
pub fn magnitude_of(distance: i64) -> (size: u64)
    ensures
        size == magnitude(distance),
{
    if distance >= 0 {
        distance as u64
    } else if distance == i64::MIN {
        0x8000_0000_0000_0000
    } else {
        (-distance) as u64
    }
}

/// How far a line of output moves the bar of a clip that ends at `end_ms`:
/// the size of the distance between the line's clock reading and the end,
/// if the line holds a reading that is a time of day.
pub open spec fn line_advance(line: Seq<char>, end_ms: u64) -> Option<u64> {
    match regex_captures(CLOCK_PATTERN@, line) {
        Some(groups) => match group_text(groups, 1) {
            Some(clock) => match chrono_clock_distance(clock, end_ms) {
                Some(distance) => Some(magnitude(distance)),
                None => None,
            },
            None => None,
        },
        None => None,
    }
}

/// Where the bar stands after the lines of `output`, if it stood at
/// `position` before them: each line that moves the bar adds its advance.
pub open spec fn bar_after(position: u64, output: Seq<Seq<char>>, end_ms: u64) -> u64
    decreases output.len(),
{
    if output.len() == 0 {
        position
    } else {
        let before = bar_after(position, output.drop_last(), end_ms);
        match line_advance(output.last(), end_ms) {
            Some(delta) => before.wrapping_add(delta),
            None => before,
        }
    }
}

/// The arguments that are the same for every download, between the inputs
/// and the output path.
pub open spec fn download_options() -> Seq<Seq<char>> {
    seq![
        "-map"@,
        "0:v"@,
        "-map"@,
        "1:a"@,
        "-c:v"@,
        "libx264"@,
        "-c:a"@,
        "aac"@,
        "pipe:1"@,
        "-y"@,
    ]
}

/// The command line of a download, without the program's name: the video
/// stream and the sound stream, each trimmed to the clip's time range, the
/// options, and the output path last.
pub open spec fn download_command(clip: ClipView, out: Seq<char>) -> Seq<Seq<char>> {
    let start_ms = millis_text(clip.start_ms);
    let end_ms = millis_text(clip.end_ms);
    input_arguments(FFmpegInputView { url: clip.video, start_ms, end_ms }) + input_arguments(
        FFmpegInputView { url: clip.audio, start_ms, end_ms },
    ) + download_options() + seq![out]
}

/// A download of one clip to one file.
#[derive(Debug)]
pub struct Downloader<'dl> {
    clip: Clip<'dl>,
    out: String,
    position: u64,
}

/// A download as a mathematical value.
pub struct DownloaderView {
    pub clip: ClipView,
    pub out: Seq<char>,
    pub position: u64,
}

impl<'dl> View for Downloader<'dl> {
    type V = DownloaderView;

    closed spec fn view(&self) -> DownloaderView {
        DownloaderView { clip: self.clip@, out: self.out@, position: self.position }
    }
}

impl<'dl> Downloader<'dl> {
    /// A download of `clip` to the file at `out`, with the bar at 0.
    pub fn new(clip: Clip<'dl>, out: String) -> (downloader: Self)
        ensures
            downloader@ == (DownloaderView { clip: clip@, out: out@, position: 0 }),
    {
        Self { clip, out, position: 0 }
    }

    /// Where the progress bar stands.
    pub fn position(&self) -> (position: u64)
        ensures
            position == self@.position,
    {
        self.position
    }

    /// The length of the progress bar: the clip's end in milliseconds.
    pub fn length(&self) -> (length: u64)
        ensures
            length == self@.clip.end_ms,
    {
        self.clip.time.1
    }

    /// The arguments to start the transcoder with, in order.
    pub fn command_args(&self) -> (arguments: Vec<String>)
        ensures
            arguments.deep_view() == download_command(self@.clip, self@.out),
    {
        let mut start = numeral(self.clip.time.0);
        start.append("ms");
        let mut end = numeral(self.clip.time.1);
        end.append("ms");
        let mut arguments: Vec<String> = Vec::new();
        let video = FFmpegInput::new(self.clip.resource.0.as_str(), start.as_str(), end.as_str());
        video.append_to(&mut arguments);
        let audio = FFmpegInput::new(self.clip.resource.1.as_str(), start.as_str(), end.as_str());
        audio.append_to(&mut arguments);
        push_text(&mut arguments, "-map");
        push_text(&mut arguments, "0:v");
        push_text(&mut arguments, "-map");
        push_text(&mut arguments, "1:a");
        push_text(&mut arguments, "-c:v");
        push_text(&mut arguments, "libx264");
        push_text(&mut arguments, "-c:a");
        push_text(&mut arguments, "aac");
        push_text(&mut arguments, "pipe:1");
        push_text(&mut arguments, "-y");
        push_text(&mut arguments, self.out.as_str());
        arguments
    }

    /// Takes the transcoder's whole output, line by line, and moves the bar
    /// for each line that holds a clock reading. Never fails.
    pub fn download(&mut self, output: &Vec<String>) -> (result: Result<(), ClypperError>)
        ensures
            result is Ok,
            final(self)@ == (DownloaderView {
                position: bar_after(
                    old(self)@.position,
                    output.deep_view(),
                    old(self)@.clip.end_ms,
                ),
                ..old(self)@
            }),
    {
        let mut i: usize = 0;
        while i < output.len()
            invariant
                i <= output.len(),
                self@ == (DownloaderView {
                    position: bar_after(
                        old(self)@.position,
                        output.deep_view().take(i as int),
                        old(self)@.clip.end_ms,
                    ),
                    ..old(self)@
                }),
            decreases output.len() - i,
        {
            proof {
                let all = output.deep_view();
                assert(all.take(i + 1).drop_last() =~= all.take(i as int));
            }
            match self.advance(output[i].as_str()) {
                Some(delta) => {
                    self.position = self.position.wrapping_add(delta);
                },
                None => {},
            }
            i += 1;
        }
        assert(output.deep_view().take(i as int) =~= output.deep_view());
        Ok(())
    }

    /// How far `line` moves the progress bar, if it moves it.
    pub fn advance(&self, line: &str) -> (delta: Option<u64>)
        ensures
            delta == line_advance(line@, self@.clip.end_ms),
    {
        let groups = match captures(CLOCK_PATTERN, line) {
            Some(groups) => groups,
            None => {
                return None;
            },
        };
        if groups.len() < 2 {
            return None;
        }
        match &groups[1] {
            Some(clock) => match clock_distance(clock.as_str(), self.clip.time.1) {
                Some(distance) => Some(magnitude_of(distance)),
                None => None,
            },
            None => None,
        }
    }
}

} // verus!
