//! The progress parser: it reads the transcoder's diagnostic stream line by
//! line, finds the timestamps in it, and turns them into events for the
//! controller.
//!
//! A line reports progress if it holds `time=` followed by hours, minutes,
//! seconds and a fraction, each a run of digits: `time=00:01:02.50`. The
//! elapsed time of such a line is
//! `((hours * 3600 + minutes * 60 + seconds) * 1000) + fraction` milliseconds,
//! where the fraction is taken as the number that its digits denote,
//! whatever their count: `.5`, `.05` and `.005` all add 5 milliseconds.
//! A line without such a timestamp, or with one whose numbers do not fit in
//! 64 bits, is passed over.

use vstd::prelude::*;
use vstd::string::*;
use crate::download::ffmpeg::{FFmpegError, FFmpegErrorView, FFmpegState, StateView};
use crate::pattern::{captures, group_number, number_of_group, regex_captures};

verus! {

/// The expression that finds a timestamp; its four groups are the hours,
/// the minutes, the seconds and the fraction.
pub const TIME_PATTERN: &'static str = "\\btime=(\\d+):(\\d+):(\\d+)\\.(\\d+)";

/// The message of the error that the parser records when the controller is
/// gone.
pub const CHANNEL_CLOSED: &'static str = "FFmpeg Channel unexpectedly closed";

/// The elapsed milliseconds that the four numbers of a timestamp stand for.
pub open spec fn elapsed_ms(hours: nat, minutes: nat, seconds: nat, fraction: nat) -> nat {
    (hours * 3600 + minutes * 60 + seconds) * 1000 + fraction
}

/// The elapsed milliseconds of a matched timestamp: groups 1 to 4 read as
/// decimal numbers and combined; `None` where a group is missing, is no
/// number that fits in 64 bits, or the result does not fit in 64 bits.
pub open spec fn captured_progress(groups: Seq<Option<Seq<char>>>) -> Option<u64> {
    match (
        group_number(groups, 1),
        group_number(groups, 2),
        group_number(groups, 3),
        group_number(groups, 4),
    ) {
        (Some(hours), Some(minutes), Some(seconds), Some(fraction)) => {
            let elapsed = elapsed_ms(hours as nat, minutes as nat, seconds as nat, fraction as nat);
            if elapsed <= u64::MAX {
                Some(elapsed as u64)
            } else {
                None
            }
        },
        _ => None,
    }
}

/// The elapsed milliseconds that a line reports, if it reports any.
pub open spec fn line_progress(line: Seq<char>) -> Option<u64> {
    match regex_captures(TIME_PATTERN@, line) {
        Some(groups) => captured_progress(groups),
        None => None,
    }
}

/// The elapsed times that a stream reports, in the order of its lines.
pub open spec fn stream_progress(lines: Seq<Seq<char>>) -> Seq<u64>
    decreases lines.len(),
{
    if lines.len() == 0 {
        Seq::empty()
    } else {
        let before = stream_progress(lines.drop_last());
        match line_progress(lines.last()) {
            Some(elapsed) => before.push(elapsed),
            None => before,
        }
    }
}

/// One `Downloading` for each elapsed time, in order.
pub open spec fn downloading_states(elapsed: Seq<u64>) -> Seq<StateView> {
    Seq::new(elapsed.len(), |i: int| StateView::Downloading(elapsed[i]))
}

/// The events that the parser sends for a stream: a `Downloading` for each
/// line that reports progress, in the order of the lines, and one `Finished`
/// when the stream ends.
pub open spec fn stream_events(lines: Seq<Seq<char>>) -> Seq<StateView> {
    downloading_states(stream_progress(lines)).push(StateView::Finished)
}

/// The views of a list of states, in order.
pub open spec fn state_views(states: Seq<FFmpegState>) -> Seq<StateView> {
    Seq::new(states.len(), |i: int| states[i]@)
}

/// What a stream reports is what its first part reports followed by what
/// the rest reports: no line keeps a later line from being read.
pub proof fn lemma_progress_of_parts(first: Seq<Seq<char>>, rest: Seq<Seq<char>>)
    ensures
        stream_progress(first + rest) == stream_progress(first) + stream_progress(rest),
    decreases rest.len(),
{
    if rest.len() > 0 {
        lemma_progress_of_parts(first, rest.drop_last());
        assert((first + rest).drop_last() =~= first + rest.drop_last());
    }
}

/// A line that reports no progress adds no event: the stream without it
/// reports the same progress and gives the same events.
pub proof fn lemma_silent_line(lines: Seq<Seq<char>>, i: int)
    requires
        0 <= i < lines.len(),
        line_progress(lines[i]) is None,
    ensures
        stream_progress(lines) == stream_progress(lines.remove(i)),
        stream_events(lines) == stream_events(lines.remove(i)),
{
    let first = lines.take(i);
    let one = seq![lines[i]];
    let rest = lines.skip(i + 1);
    assert(lines =~= first + one + rest);
    lemma_progress_of_parts(first + one, rest);
    lemma_progress_of_parts(first, one);
    lemma_progress_of_parts(first, rest);
    assert(stream_progress(one.drop_last()) =~= Seq::<u64>::empty());
}

/// A stream none of whose lines reports progress gives one event,
/// `Finished`.
pub proof fn lemma_silent_stream(lines: Seq<Seq<char>>)
    requires
        forall|i: int| 0 <= i < lines.len() ==> line_progress(#[trigger] lines[i]) is None,
    ensures
        stream_progress(lines) == Seq::<u64>::empty(),
        stream_events(lines) == seq![StateView::Finished],
    decreases lines.len(),
{
    if lines.len() > 0 {
        lemma_silent_stream(lines.drop_last());
    }
}

/// Every stream gives `Finished` exactly once, as its last event; all
/// events before it are `Downloading`.
pub proof fn lemma_finished_once(lines: Seq<Seq<char>>)
    ensures
        stream_events(lines).len() == stream_progress(lines).len() + 1,
        stream_events(lines).last() is Finished,
        forall|i: int|
            0 <= i < stream_events(lines).len() - 1 ==> #[trigger] stream_events(
                lines,
            )[i] is Downloading,
{
}

/// The same lines give the same events, in the same order.
pub proof fn lemma_same_stream_same_events(first: Seq<Seq<char>>, second: Seq<Seq<char>>)
    requires
        first =~= second,
    ensures
        stream_events(first) == stream_events(second),
{
}

/// Combines the four numbers of a matched timestamp. The argument is what
/// the search for `TIME_PATTERN` found in a line.
pub fn progress_from_captures(groups: &Vec<Option<String>>) -> (elapsed: Option<u64>)
    ensures
        elapsed == captured_progress(groups.deep_view()),
{
    let hours = match number_of_group(groups, 1) {
        Some(hours) => hours,
        None => {
            return None;
        },
    };
    let minutes = match number_of_group(groups, 2) {
        Some(minutes) => minutes,
        None => {
            return None;
        },
    };
    let seconds = match number_of_group(groups, 3) {
        Some(seconds) => seconds,
        None => {
            return None;
        },
    };
    let fraction = match number_of_group(groups, 4) {
        Some(fraction) => fraction,
        None => {
            return None;
        },
    };
    let from_hours = match hours.checked_mul(3600) {
        Some(from_hours) => from_hours,
        None => {
            return None;
        },
    };
    let from_minutes = match minutes.checked_mul(60) {
        Some(from_minutes) => from_minutes,
        None => {
            return None;
        },
    };
    let whole = match from_hours.checked_add(from_minutes) {
        Some(sum) => match sum.checked_add(seconds) {
            Some(whole) => whole,
            None => {
                return None;
            },
        },
        None => {
            return None;
        },
    };
    match whole.checked_mul(1000) {
        Some(millis) => millis.checked_add(fraction),
        None => None,
    }
}

/// The elapsed milliseconds that `line` reports, if it reports any.
pub fn parse_progress(line: &str) -> (elapsed: Option<u64>)
    ensures
        elapsed == line_progress(line@),
{
    match captures(TIME_PATTERN, line) {
        Some(groups) => progress_from_captures(&groups),
        None => None,
    }
}

/// The parser as a mathematical value: the last state it sent, whether it
/// has stopped, and the error it has recorded.
pub struct ParserView {
    pub last: StateView,
    pub stopped: bool,
    pub error: Option<FFmpegErrorView>,
}

/// What the parser sends for a line: a `Downloading` if it still runs and
/// the line reports progress.
pub open spec fn line_event(parser: ParserView, line: Seq<char>) -> Option<StateView> {
    if parser.stopped {
        None
    } else {
        match line_progress(line) {
            Some(elapsed) => Some(StateView::Downloading(elapsed)),
            None => None,
        }
    }
}

/// What the parser sends when the stream ends: `Finished`, if it still
/// runs.
pub open spec fn end_event(parser: ParserView) -> Option<StateView> {
    if parser.stopped {
        None
    } else {
        Some(StateView::Finished)
    }
}

/// The parser after it has sent `event`, if it has sent one.
pub open spec fn after_sending(parser: ParserView, event: Option<StateView>) -> ParserView {
    match event {
        Some(state) => ParserView { last: state, ..parser },
        None => parser,
    }
}

/// The parser after the controller has turned out to be gone: stopped, with
/// the error recorded beside the state that could not be delivered.
pub open spec fn after_send_failure(parser: ParserView) -> ParserView {
    ParserView {
        stopped: true,
        error: Some(FFmpegErrorView { message: CHANNEL_CLOSED@, state: parser.last }),
        ..parser
    }
}

/// A view of what the parser sent, if anything.
pub open spec fn event_view(event: Option<FFmpegState>) -> Option<StateView> {
    match event {
        Some(state) => Some(state@),
        None => None,
    }
}

/// A view of the recorded error, if there is one.
pub open spec fn slot_view(error: Option<FFmpegError>) -> Option<FFmpegErrorView> {
    match error {
        Some(error) => Some(error@),
        None => None,
    }
}

/// A parser that has stopped sends nothing more, whatever it is given, and
/// keeps the error it has recorded.
pub proof fn lemma_stopped_is_silent(parser: ParserView, line: Seq<char>)
    requires
        parser.stopped,
    ensures
        line_event(parser, line) is None,
        end_event(parser) is None,
        after_sending(parser, line_event(parser, line)) == parser,
        after_sending(parser, end_event(parser)) == parser,
{
}

/// After a failed delivery the parser has stopped and holds the error,
/// whatever state it was in.
pub proof fn lemma_send_failure_stops(parser: ParserView)
    ensures
        after_send_failure(parser).stopped,
        after_send_failure(parser).error == Some(
            FFmpegErrorView { message: CHANNEL_CLOSED@, state: parser.last },
        ),
{
}

/// The worker that reads the diagnostic stream. Whoever owns the stream
/// hands it each line and then the end of the stream, sends on what it
/// returns, and tells it when sending failed.
#[derive(Debug)]
pub struct ProgressParser {
    last: FFmpegState,
    stopped: bool,
    error: Option<FFmpegError>,
}

impl View for ProgressParser {
    type V = ParserView;

    closed spec fn view(&self) -> ParserView {
        ParserView { last: self.last@, stopped: self.stopped, error: slot_view(self.error) }
    }
}

impl ProgressParser {
    /// A parser for a process that has just started.
    pub fn new() -> (parser: Self)
        ensures
            parser@ == (ParserView { last: StateView::Starting, stopped: false, error: None }),
    {
        ProgressParser { last: FFmpegState::Starting, stopped: false, error: None }
    }

    /// Takes the next line of the stream and gives the event to send for
    /// it, if any.
    pub fn on_line(&mut self, line: &str) -> (event: Option<FFmpegState>)
        ensures
            event_view(event) == line_event(old(self)@, line@),
            final(self)@ == after_sending(old(self)@, line_event(old(self)@, line@)),
    {
        if self.stopped {
            return None;
        }
        match parse_progress(line) {
            Some(elapsed) => {
                self.last = FFmpegState::Downloading(elapsed);
                Some(FFmpegState::Downloading(elapsed))
            },
            None => None,
        }
    }

    /// Takes the end of the stream and gives the event to send for it:
    /// `Finished`, once. The parser has stopped afterwards.
    pub fn on_end(&mut self) -> (event: Option<FFmpegState>)
        ensures
            event_view(event) == end_event(old(self)@),
            final(self)@ == (ParserView {
                stopped: true,
                ..after_sending(old(self)@, end_event(old(self)@))
            }),
    {
        if self.stopped {
            return None;
        }
        self.last = FFmpegState::Finished;
        self.stopped = true;
        Some(FFmpegState::Finished)
    }

    /// Takes the news that the last event could not be delivered because
    /// the controller is gone. The parser records the error and stops.
    pub fn on_send_failure(&mut self)
        ensures
            final(self)@ == after_send_failure(old(self)@),
    {
        self.error = Some(
            FFmpegError { message: String::from_str(CHANNEL_CLOSED), state: self.last.clone() },
        );
        self.stopped = true;
    }

    /// Whether the parser has stopped.
    pub fn is_stopped(&self) -> (stopped: bool)
        ensures
            stopped == self@.stopped,
    {
        self.stopped
    }

    /// The error that the parser has recorded, if any.
    pub fn error(&self) -> (error: Option<FFmpegError>)
        ensures
            slot_view(error) == self@.error,
    {
        match &self.error {
            Some(error) => Some(error.clone()),
            None => None,
        }
    }
}

/// Reads a whole stream and gives the events that the parser sends for it,
/// in order.
pub fn parse_stream(lines: &Vec<String>) -> (events: Vec<FFmpegState>)
    ensures
        state_views(events@) == stream_events(lines.deep_view()),
        events.len() == stream_progress(lines.deep_view()).len() + 1,
        forall|i: int|
            0 <= i < events.len() - 1 ==> #[trigger] events[i] == FFmpegState::Downloading(
                stream_progress(lines.deep_view())[i],
            ),
        events[events.len() - 1] == FFmpegState::Finished,
{
    let mut parser = ProgressParser::new();
    let mut events: Vec<FFmpegState> = Vec::new();
    let mut i: usize = 0;
    while i < lines.len()
        invariant
            i <= lines.len(),
            !parser@.stopped,
            events.len() == stream_progress(lines.deep_view().take(i as int)).len(),
            forall|k: int|
                0 <= k < events.len() ==> #[trigger] events[k] == FFmpegState::Downloading(
                    stream_progress(lines.deep_view().take(i as int))[k],
                ),
        decreases lines.len() - i,
    {
        proof {
            let all = lines.deep_view();
            assert(all.take(i + 1).drop_last() =~= all.take(i as int));
        }
        match parser.on_line(lines[i].as_str()) {
            Some(event) => {
                events.push(event);
            },
            None => {},
        }
        i += 1;
    }
    assert(lines.deep_view().take(i as int) =~= lines.deep_view());
    match parser.on_end() {
        Some(event) => {
            events.push(event);
        },
        None => {},
    }
    events
}

} // verus!
