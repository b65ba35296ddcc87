//! The clip descriptor and its extraction from the text of a clip's page.
//!
//! The page is searched with three expressions: one for the video streams
//! with their widths, one for the sound stream, one for the clip's time
//! range. The page itself is fetched elsewhere and handed in as text.

use vstd::prelude::*;
use vstd::string::*;
use crate::pattern::{
    captures,
    captures_all,
    group_number,
    group_text,
    number_of_group,
    pattern_error,
    regex_captures,
    regex_captures_all,
    regex_error,
    regex_replace_all,
    replace_all,
};

verus! {

/// Finds a video stream: group 1 is its address, group 2 its width.
pub const VIDEO_PATTERN: &'static str =
    "\\\"itag\\\":\\d+,\\\"url\\\":\\\"(.+?)\\\".+?\\\"width\\\":(\\d+)";

/// Finds the sound stream: group 1 is its address.
pub const AUDIO_PATTERN: &'static str =
    "itag\\\":\\d+,\\\"url\\\":\\\"([^\\\"\\s]*)\\\",\\\"mimeType\\\":\\\"audio/mp4;";

/// Finds the clip's time range: group 1 is its start, group 2 its end, both
/// in milliseconds.
pub const TIMESTAMP_PATTERN: &'static str =
    "\\\"clipConfig\\\":\\{\\\"postId\\\":\\\".+\\\",\\\"startTimeMs\\\":\\\"(\\d+?)\\\",\\\"endTimeMs\\\":\\\"(\\d+?)\\\"";

/// Finds an ampersand as the page writes it inside an address.
pub const ESCAPE_PATTERN: &'static str = "\\\\u0026";

/// What each escaped ampersand is replaced with.
pub const AMPERSAND: &'static str = "&";

/// The width, in pixels, of the video stream that is taken.
pub const TARGET_WIDTH: &'static str = "1920";

/// The message of the error for a page without a sound stream.
pub const NO_AUDIO: &'static str = "No audio stream was found in the page";

/// The message of the error for a page without a time range that can be
/// read.
pub const NO_TIME_RANGE: &'static str = "No clip time range was found in the page";

/// The start and the end of a clip, in milliseconds from the start of its
/// source.
#[derive(Clone, Copy, Debug, Default)]
pub struct ClipTime(pub u64, pub u64);

impl ClipTime {
    /// A time range is well formed if it does not end before it starts.
    pub open spec fn wf(self) -> bool {
        self.0 <= self.1
    }

    /// Whether the range does not end before it starts.
    pub fn is_valid(&self) -> (valid: bool)
        ensures
            valid == self.wf(),
    {
        self.0 <= self.1
    }

    /// The length of the clip in milliseconds; `None` for a range that ends
    /// before it starts.
    pub fn length_ms(&self) -> (length: Option<u64>)
        ensures
            length == if self.wf() {
                Some((self.1 - self.0) as u64)
            } else {
                None
            },
    {
        if self.0 <= self.1 {
            Some(self.1 - self.0)
        } else {
            None
        }
    }
}

/// The addresses of a clip's video stream and sound stream.
#[derive(Debug, Default)]
pub struct ClipResource(pub String, pub String);

impl Clone for ClipResource {
    fn clone(&self) -> (copy: Self)
        ensures
            copy == *self,
    {
        ClipResource(self.0.clone(), self.1.clone())
    }
}

/// A clip: the address of its page, its streams and its time range.
#[derive(Debug, Default)]
pub struct Clip<'url> {
    pub url: &'url str,
    pub resource: ClipResource,
    pub time: ClipTime,
}

impl<'url> Clone for Clip<'url> {
    fn clone(&self) -> (copy: Self)
        ensures
            copy == *self,
    {
        Clip { url: self.url, resource: self.resource.clone(), time: self.time }
    }
}

/// A clip as a mathematical value.
pub struct ClipView {
    pub url: Seq<char>,
    pub video: Seq<char>,
    pub audio: Seq<char>,
    pub start_ms: u64,
    pub end_ms: u64,
}

impl<'url> View for Clip<'url> {
    type V = ClipView;

    open spec fn view(&self) -> ClipView {
        ClipView {
            url: self.url@,
            video: self.resource.0@,
            audio: self.resource.1@,
            start_ms: self.time.0,
            end_ms: self.time.1,
        }
    }
}

/// What can go wrong before a job exists.
#[derive(Debug)]
pub enum ClypperError {
    /// The page could not be fetched: the message and the code of the
    /// transfer.
    CurlError(String, usize),
    /// An expression did not compile or found nothing: the message and the
    /// expression.
    RegexError(String, String),
    /// The transcoder could not be run.
    FFmpegError,
}

impl Clone for ClypperError {
    fn clone(&self) -> (copy: Self)
        ensures
            copy == *self,
    {
        match self {
            ClypperError::CurlError(message, code) => ClypperError::CurlError(
                message.clone(),
                *code,
            ),
            ClypperError::RegexError(message, pattern) => ClypperError::RegexError(
                message.clone(),
                pattern.clone(),
            ),
            ClypperError::FFmpegError => ClypperError::FFmpegError,
        }
    }
}

/// An error as a mathematical value.
pub enum ClypperErrorView {
    CurlError(Seq<char>, usize),
    RegexError(Seq<char>, Seq<char>),
    FFmpegError,
}

impl View for ClypperError {
    type V = ClypperErrorView;

    open spec fn view(&self) -> ClypperErrorView {
        match self {
            ClypperError::CurlError(message, code) => ClypperErrorView::CurlError(message@, *code),
            ClypperError::RegexError(message, pattern) => ClypperErrorView::RegexError(
                message@,
                pattern@,
            ),
            ClypperError::FFmpegError => ClypperErrorView::FFmpegError,
        }
    }
}

/// The address of a video stream, if the match is one of the wanted width.
pub open spec fn video_of(groups: Seq<Option<Seq<char>>>) -> Option<Seq<char>> {
    if group_text(groups, 2) == Some(TARGET_WIDTH@) {
        group_text(groups, 1)
    } else {
        None
    }
}

/// The address of the video stream that is taken: that of the last match of
/// the wanted width, or the empty text if there is none.
pub open spec fn chosen_video(matches: Seq<Seq<Option<Seq<char>>>>) -> Seq<char>
    decreases matches.len(),
{
    if matches.len() == 0 {
        Seq::empty()
    } else {
        match video_of(matches.last()) {
            Some(address) => address,
            None => chosen_video(matches.drop_last()),
        }
    }
}

/// The address of the sound stream: group 1 of the match, if there is one.
pub open spec fn chosen_audio(found: Option<Seq<Option<Seq<char>>>>) -> Option<Seq<char>> {
    match found {
        Some(groups) => group_text(groups, 1),
        None => None,
    }
}

/// The time range: groups 1 and 2 of the match read as decimal numbers, if
/// there is a match and both are numbers that fit in 64 bits.
pub open spec fn chosen_time(found: Option<Seq<Option<Seq<char>>>>) -> Option<ClipTime> {
    match found {
        Some(groups) => match (group_number(groups, 1), group_number(groups, 2)) {
            (Some(start_ms), Some(end_ms)) => Some(ClipTime(start_ms, end_ms)),
            _ => None,
        },
        None => None,
    }
}

/// An address with every escaped ampersand written out.
pub open spec fn unescaped(address: Seq<char>) -> Seq<char> {
    regex_replace_all(ESCAPE_PATTERN@, address, AMPERSAND@)
}

/// The clip that the page at `url` with the text `html` describes. A page
/// without a sound stream or without a time range gives an error that names
/// the expression that found nothing; a page without a video stream of the
/// wanted width gives a clip with an empty video address.
pub open spec fn extraction(url: Seq<char>, html: Seq<char>) -> Result<ClipView, ClypperErrorView> {
    let video = chosen_video(regex_captures_all(VIDEO_PATTERN@, html));
    match chosen_audio(regex_captures(AUDIO_PATTERN@, html)) {
        None => Err(ClypperErrorView::RegexError(NO_AUDIO@, AUDIO_PATTERN@)),
        Some(audio) => match chosen_time(regex_captures(TIMESTAMP_PATTERN@, html)) {
            None => Err(ClypperErrorView::RegexError(NO_TIME_RANGE@, TIMESTAMP_PATTERN@)),
            Some(time) => Ok(
                ClipView {
                    url,
                    video: unescaped(video),
                    audio: unescaped(audio),
                    start_ms: time.0,
                    end_ms: time.1,
                },
            ),
        },
    }
}

/// The first of the four expressions that does not compile, with the
/// message of its error: the message first, the expression second.
pub open spec fn pattern_refusal() -> Option<(Seq<char>, Seq<char>)> {
    if let Some(message) = regex_error(VIDEO_PATTERN@) {
        Some((message, VIDEO_PATTERN@))
    } else if let Some(message) = regex_error(AUDIO_PATTERN@) {
        Some((message, AUDIO_PATTERN@))
    } else if let Some(message) = regex_error(TIMESTAMP_PATTERN@) {
        Some((message, TIMESTAMP_PATTERN@))
    } else if let Some(message) = regex_error(ESCAPE_PATTERN@) {
        Some((message, ESCAPE_PATTERN@))
    } else {
        None
    }
}

/// Picks the video stream among all matches of `VIDEO_PATTERN`.
pub fn choose_video(matches: &Vec<Vec<Option<String>>>) -> (address: String)
    ensures
        address@ == chosen_video(matches.deep_view()),
{
    let wanted = String::from_str(TARGET_WIDTH);
    let mut i: usize = matches.len();
    assert(matches.deep_view().take(i as int) =~= matches.deep_view());
    while i > 0
        invariant
            i <= matches.len(),
            wanted@ == TARGET_WIDTH@,
            chosen_video(matches.deep_view()) == chosen_video(matches.deep_view().take(i as int)),
        decreases i,
    {
        let groups = &matches[i - 1];
        proof {
            let front = matches.deep_view().take(i as int);
            assert(front.drop_last() =~= matches.deep_view().take(i - 1));
        }
        if groups.len() > 2 {
            match (&groups[1], &groups[2]) {
                (Some(address), Some(width)) => {
                    if *width == wanted {
                        return address.clone();
                    }
                },
                _ => {},
            }
        }
        i -= 1;
    }
    String::new()
}

/// Picks the sound stream from what the search for `AUDIO_PATTERN` found.
pub fn choose_audio(found: &Option<Vec<Option<String>>>) -> (address: Option<String>)
    ensures
        address.deep_view() == chosen_audio(found.deep_view()),
{
    match found {
        Some(groups) => {
            if groups.len() > 1 {
                match &groups[1] {
                    Some(address) => Some(address.clone()),
                    None => None,
                }
            } else {
                None
            }
        },
        None => None,
    }
}

/// Reads the time range from what the search for `TIMESTAMP_PATTERN` found.
pub fn choose_time(found: &Option<Vec<Option<String>>>) -> (time: Option<ClipTime>)
    ensures
        time == chosen_time(found.deep_view()),
{
    match found {
        Some(groups) => {
            let start_ms = number_of_group(groups, 1);
            let end_ms = number_of_group(groups, 2);
            match (start_ms, end_ms) {
                (Some(start_ms), Some(end_ms)) => Some(ClipTime(start_ms, end_ms)),
                _ => None,
            }
        },
        None => None,
    }
}

/// Writes out every escaped ampersand in `address`.
pub fn unescape(address: &str) -> (text: String)
    ensures
        text@ == unescaped(address@),
{
    replace_all(ESCAPE_PATTERN, address, AMPERSAND)
}

/// Reads clip descriptors out of the text of clips' pages.
pub struct Extractor {
    video_url_re: String,
    audio_url_re: String,
    timestamp_re: String,
}

impl Extractor {
    #[verifier::type_invariant]
    spec fn holds_the_patterns(self) -> bool {
        &&& self.video_url_re@ == VIDEO_PATTERN@
        &&& self.audio_url_re@ == AUDIO_PATTERN@
        &&& self.timestamp_re@ == TIMESTAMP_PATTERN@
    }

    /// The error for `pattern` if it does not compile.
    fn check(pattern: &str) -> (result: Result<(), ClypperError>)
        ensures
            match regex_error(pattern@) {
                Some(message) => result matches Err(error) && error@
                    == ClypperErrorView::RegexError(message, pattern@),
                None => result is Ok,
            },
    {
        match pattern_error(pattern) {
            Some(message) => Err(ClypperError::RegexError(message, String::from_str(pattern))),
            None => Ok(()),
        }
    }

    /// An extractor, unless one of its expressions does not compile.
    pub fn new() -> (result: Result<Self, ClypperError>)
        ensures
            match pattern_refusal() {
                Some((message, pattern)) => result matches Err(error) && error@
                    == ClypperErrorView::RegexError(message, pattern),
                None => result is Ok,
            },
    {
        match Self::check(VIDEO_PATTERN) {
            Err(error) => {
                return Err(error);
            },
            Ok(()) => {},
        }
        match Self::check(AUDIO_PATTERN) {
            Err(error) => {
                return Err(error);
            },
            Ok(()) => {},
        }
        match Self::check(TIMESTAMP_PATTERN) {
            Err(error) => {
                return Err(error);
            },
            Ok(()) => {},
        }
        match Self::check(ESCAPE_PATTERN) {
            Err(error) => {
                return Err(error);
            },
            Ok(()) => {},
        }
        Ok(
            Self {
                video_url_re: String::from_str(VIDEO_PATTERN),
                audio_url_re: String::from_str(AUDIO_PATTERN),
                timestamp_re: String::from_str(TIMESTAMP_PATTERN),
            },
        )
    }

    /// Reads the clip that the page at `url` describes out of the page's
    /// text.
    pub fn extract<'a>(&'a self, url: &'a str, html: &str) -> (result: Result<
        Clip<'a>,
        ClypperError,
    >)
        ensures
            match extraction(url@, html@) {
                Ok(clip) => result matches Ok(found) && found@ == clip,
                Err(error) => result matches Err(found) && found@ == error,
            },
    {
        proof {
            use_type_invariant(self);
        }
        let video_url = choose_video(&captures_all(self.video_url_re.as_str(), html));
        let audio_url = match choose_audio(&captures(self.audio_url_re.as_str(), html)) {
            Some(address) => address,
            None => {
                return Err(
                    ClypperError::RegexError(
                        String::from_str(NO_AUDIO),
                        String::from_str(AUDIO_PATTERN),
                    ),
                );
            },
        };
        let time = match choose_time(&captures(self.timestamp_re.as_str(), html)) {
            Some(time) => time,
            None => {
                return Err(
                    ClypperError::RegexError(
                        String::from_str(NO_TIME_RANGE),
                        String::from_str(TIMESTAMP_PATTERN),
                    ),
                );
            },
        };
        let vid_url = unescape(video_url.as_str());
        let aud_url = unescape(audio_url.as_str());
        Ok(Clip { url, resource: ClipResource(vid_url, aud_url), time })
    }
}

} // verus!
