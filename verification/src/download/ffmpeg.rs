//! The transcoding job: its states, its configuration, the command line it
//! hands to the transcoder, and the controller that advances the state on
//! each event and tells the listeners.
//!
//! The job itself starts no process and reads no pipe. Whoever runs the
//! transcoder asks the job for the command line, reports that the process
//! runs, and then passes on each event as it arrives.

use vstd::prelude::*;
use vstd::string::*;
use crate::decimal::{decimal_digits, format_decimal};
use crate::download::progress::{stream_events, stream_progress};

verus! {

/// The message of the error that follows a second start of one job.
pub const ALREADY_STARTED: &'static str = "FFmpeg job was already started";

/// The message of the error for a job without an output path.
pub const MISSING_OUTPUT: &'static str = "No output was given to ffmpeg";

/// The message of the error for a job with fewer than two inputs.
pub const MISSING_INPUTS: &'static str = "A video and an audio input are needed";

/// The message of the error for a time window that ends before it starts.
pub const INVERTED_RANGE: &'static str = "The clip ends before it starts";

/// The message of the error for a transcoder that could not be started.
pub const SPAWN_FAILED: &'static str = "Failed to start the ffmpeg process";

/// The message of the error for a process without a diagnostic stream.
pub const STREAM_UNAVAILABLE: &'static str = "Failed to get stderr from ffmpeg process";

/// Where a job stands.
#[derive(Debug)]
pub enum FFmpegState {
    NotStarted,
    Starting,
    /// The milliseconds of output that the transcoder has reported.
    Downloading(u64),
    Finished,
    /// The job failed; the text says why.
    Error(String),
}

/// A state as a mathematical value.
pub enum StateView {
    NotStarted,
    Starting,
    Downloading(u64),
    Finished,
    Error(Seq<char>),
}

impl StateView {
    /// `Finished` and `Error` end a job.
    pub open spec fn is_terminal(self) -> bool {
        self is Finished || self is Error
    }
}

/// The transitions of a job: it starts, reports progress any number of
/// times, and finishes; it may fail from any state that is not terminal.
pub open spec fn can_follow(from: StateView, to: StateView) -> bool {
    match (from, to) {
        (StateView::NotStarted, StateView::Starting) => true,
        (StateView::Starting, StateView::Downloading(_)) => true,
        (StateView::Downloading(_), StateView::Downloading(_)) => true,
        (StateView::Starting, StateView::Finished) => true,
        (StateView::Downloading(_), StateView::Finished) => true,
        (StateView::NotStarted, StateView::Error(_)) => true,
        (StateView::Starting, StateView::Error(_)) => true,
        (StateView::Downloading(_), StateView::Error(_)) => true,
        _ => false,
    }
}

/// A history of states is well ordered if it begins with `NotStarted` and
/// each state follows the one before it by a transition.
pub open spec fn well_ordered(history: Seq<StateView>) -> bool {
    &&& history.len() > 0
    &&& history[0] is NotStarted
    &&& forall|i: int|
        0 <= i < history.len() - 1 ==> can_follow(#[trigger] history[i], history[i + 1])
}

/// The shape of every job's history: `NotStarted`, then `Starting`, then any
/// number of `Downloading`, then at most one terminal state; a job that
/// fails before it starts goes from `NotStarted` to `Error`.
pub open spec fn follows_lifecycle(history: Seq<StateView>) -> bool {
    &&& history.len() > 0
    &&& history[0] is NotStarted
    &&& history.len() == 2 ==> history[1] is Starting || history[1] is Error
    &&& history.len() > 2 ==> history[1] is Starting
    &&& forall|i: int| 2 <= i < history.len() - 1 ==> #[trigger] history[i] is Downloading
    &&& history.len() > 2 ==> !(history.last() is NotStarted) && !(history.last() is Starting)
}

/// What a state must be, given its place in a well ordered history.
proof fn lemma_place(history: Seq<StateView>, i: int)
    requires
        well_ordered(history),
        0 <= i < history.len(),
    ensures
        i == 0 ==> history[i] is NotStarted,
        i == 1 ==> history[i] is Starting || history[i] is Error,
        i >= 2 ==> !(history[i] is NotStarted) && !(history[i] is Starting),
        i < history.len() - 1 ==> !history[i].is_terminal(),
        i >= 2 ==> history[1] is Starting,
    decreases i,
{
    if i > 0 {
        lemma_place(history, i - 1);
    }
}

/// A well ordered history has the shape of the lifecycle.
pub proof fn lemma_lifecycle(history: Seq<StateView>)
    requires
        well_ordered(history),
    ensures
        follows_lifecycle(history),
{
    if history.len() >= 2 {
        lemma_place(history, 1);
        lemma_place(history, history.len() - 1);
    }
    assert forall|i: int|
        2 <= i < history.len() - 1 implies #[trigger] history[i] is Downloading by {
        lemma_place(history, i);
    }
}

/// In a well ordered history only the last state can be terminal: a job
/// never finishes twice, and never both finishes and fails.
pub proof fn lemma_terminal_is_last(history: Seq<StateView>, i: int)
    requires
        well_ordered(history),
        0 <= i < history.len(),
        history[i].is_terminal(),
    ensures
        i == history.len() - 1,
{
    lemma_place(history, i);
}

impl View for FFmpegState {
    type V = StateView;

    open spec fn view(&self) -> StateView {
        match self {
            FFmpegState::NotStarted => StateView::NotStarted,
            FFmpegState::Starting => StateView::Starting,
            FFmpegState::Downloading(elapsed) => StateView::Downloading(*elapsed),
            FFmpegState::Finished => StateView::Finished,
            FFmpegState::Error(message) => StateView::Error(message@),
        }
    }
}

impl Clone for FFmpegState {
    fn clone(&self) -> (copy: Self)
        ensures
            copy == *self,
    {
        match self {
            FFmpegState::NotStarted => FFmpegState::NotStarted,
            FFmpegState::Starting => FFmpegState::Starting,
            FFmpegState::Downloading(elapsed) => FFmpegState::Downloading(*elapsed),
            FFmpegState::Finished => FFmpegState::Finished,
            FFmpegState::Error(message) => FFmpegState::Error(message.clone()),
        }
    }
}

impl Default for FFmpegState {
    fn default() -> (state: Self)
        ensures
            state == FFmpegState::NotStarted,
    {
        FFmpegState::NotStarted
    }
}

impl PartialEq for FFmpegState {
    fn eq(&self, other: &Self) -> (equal: bool) {
        match (self, other) {
            (FFmpegState::NotStarted, FFmpegState::NotStarted) => true,
            (FFmpegState::Starting, FFmpegState::Starting) => true,
            (FFmpegState::Downloading(a), FFmpegState::Downloading(b)) => *a == *b,
            (FFmpegState::Finished, FFmpegState::Finished) => true,
            (FFmpegState::Error(a), FFmpegState::Error(b)) => *a == *b,
            _ => false,
        }
    }
}

impl vstd::std_specs::cmp::PartialEqSpecImpl for FFmpegState {
    open spec fn obeys_eq_spec() -> bool {
        true
    }

    open spec fn eq_spec(&self, other: &Self) -> bool {
        self@ == other@
    }
}

impl Eq for FFmpegState {}

impl FFmpegState {
    /// Whether the job has ended in this state.
    pub fn is_terminal(&self) -> (terminal: bool)
        ensures
            terminal == self@.is_terminal(),
    {
        match self {
            FFmpegState::Finished => true,
            FFmpegState::Error(_) => true,
            _ => false,
        }
    }

    /// Whether a job in this state may go on to `next`.
    pub fn can_advance_to(&self, next: &FFmpegState) -> (allowed: bool)
        ensures
            allowed == can_follow(self@, next@),
    {
        match (self, next) {
            (FFmpegState::NotStarted, FFmpegState::Starting) => true,
            (FFmpegState::Starting, FFmpegState::Downloading(_)) => true,
            (FFmpegState::Downloading(_), FFmpegState::Downloading(_)) => true,
            (FFmpegState::Starting, FFmpegState::Finished) => true,
            (FFmpegState::Downloading(_), FFmpegState::Finished) => true,
            (FFmpegState::NotStarted, FFmpegState::Error(_)) => true,
            (FFmpegState::Starting, FFmpegState::Error(_)) => true,
            (FFmpegState::Downloading(_), FFmpegState::Error(_)) => true,
            _ => false,
        }
    }
}

/// A failure of the job: what went wrong, and the state the job was in.
#[derive(Debug)]
pub struct FFmpegError {
    pub message: String,
    pub state: FFmpegState,
}

/// An error as a mathematical value.
pub struct FFmpegErrorView {
    pub message: Seq<char>,
    pub state: StateView,
}

impl View for FFmpegError {
    type V = FFmpegErrorView;

    open spec fn view(&self) -> FFmpegErrorView {
        FFmpegErrorView { message: self.message@, state: self.state@ }
    }
}

impl Clone for FFmpegError {
    fn clone(&self) -> (copy: Self)
        ensures
            copy == *self,
    {
        FFmpegError { message: self.message.clone(), state: self.state.clone() }
    }
}

impl Default for FFmpegError {
    fn default() -> (error: Self)
        ensures
            error@ == (FFmpegErrorView { message: Seq::empty(), state: StateView::NotStarted }),
    {
        FFmpegError { message: String::new(), state: FFmpegState::NotStarted }
    }
}

/// The views of a list of errors, in order.
pub open spec fn error_views(errors: Seq<FFmpegError>) -> Seq<FFmpegErrorView> {
    Seq::new(errors.len(), |i: int| errors[i]@)
}

/// One input of the transcoder with its trim window, each as the text that
/// goes on the command line.
#[derive(Debug, Default)]
pub struct FFmpegInput<'input> {
    url: &'input str,
    start_ms: &'input str,
    end_ms: &'input str,
}

/// An input as a mathematical value.
pub struct FFmpegInputView {
    pub url: Seq<char>,
    pub start_ms: Seq<char>,
    pub end_ms: Seq<char>,
}

/// The arguments that name one input: where to start, where to stop, and
/// what to read.
pub open spec fn input_arguments(input: FFmpegInputView) -> Seq<Seq<char>> {
    seq!["-ss"@, input.start_ms, "-to"@, input.end_ms, "-i"@, input.url]
}

impl<'input> View for FFmpegInput<'input> {
    type V = FFmpegInputView;

    closed spec fn view(&self) -> FFmpegInputView {
        FFmpegInputView { url: self.url@, start_ms: self.start_ms@, end_ms: self.end_ms@ }
    }
}

/// Adds a copy of `text` at the end of `arguments`.
pub(crate) fn push_text(arguments: &mut Vec<String>, text: &str)
    ensures
        final(arguments).deep_view() == old(arguments).deep_view().push(text@),
{
    arguments.push(String::from_str(text));
}

impl<'input> FFmpegInput<'input> {
    /// An input read from `url` between `start_ms` and `end_ms`, which are
    /// given as they are to stand on the command line.
    pub fn new(url: &'input str, start_ms: &'input str, end_ms: &'input str) -> (input: Self)
        ensures
            input@ == (FFmpegInputView { url: url@, start_ms: start_ms@, end_ms: end_ms@ }),
    {
        Self { url, start_ms, end_ms }
    }

    /// Adds this input's arguments at the end of `arguments`.
    pub fn append_to(&self, arguments: &mut Vec<String>)
        ensures
            final(arguments).deep_view() == old(arguments).deep_view() + input_arguments(self@),
    {
        push_text(arguments, "-ss");
        push_text(arguments, self.start_ms);
        push_text(arguments, "-to");
        push_text(arguments, self.end_ms);
        push_text(arguments, "-i");
        push_text(arguments, self.url);
    }
}

/// A number of milliseconds as the transcoder reads it: the decimal numeral
/// followed by `ms`.
pub open spec fn millis_text(ms: u64) -> Seq<char> {
    decimal_digits(ms as nat) + "ms"@
}

/// Writes a number of milliseconds as the transcoder reads it.
pub fn format_millis(ms: u64) -> (text: String)
    ensures
        text@ == millis_text(ms),
{
    let mut text = format_decimal(ms);
    text.append("ms");
    text
}

/// The arguments for all inputs: each input's own, in the order in which the
/// inputs were added, each trimmed to the same window.
pub open spec fn inputs_arguments(inputs: Seq<Seq<char>>, start_ms: u64, end_ms: u64) -> Seq<
    Seq<char>,
>
    decreases inputs.len(),
{
    if inputs.len() == 0 {
        Seq::empty()
    } else {
        inputs_arguments(inputs.drop_last(), start_ms, end_ms) + input_arguments(
            FFmpegInputView {
                url: inputs.last(),
                start_ms: millis_text(start_ms),
                end_ms: millis_text(end_ms),
            },
        )
    }
}

/// The arguments that every job has: video from the first input and audio
/// from the second, the two codecs, progress reports on the diagnostic
/// stream, and leave to overwrite the output.
pub open spec fn fixed_arguments() -> Seq<Seq<char>> {
    seq![
        "-map"@,
        "0:v"@,
        "-map"@,
        "1:a"@,
        "-c:v"@,
        "libx264"@,
        "-c:a"@,
        "aac"@,
        "-progress"@,
        "pipe:2"@,
        "-y"@,
    ]
}

/// A job as a mathematical value: its configuration, where it stands, the
/// errors it has met and every state it has been in, oldest first.
pub struct JobView {
    pub inputs: Seq<Seq<char>>,
    pub start_ms: u64,
    pub end_ms: u64,
    pub output: Option<Seq<char>>,
    pub state: StateView,
    pub errors: Seq<FFmpegErrorView>,
    pub history: Seq<StateView>,
}

/// The whole command line of a job, without the program's name: the inputs,
/// the fixed arguments, and the output path last.
pub open spec fn command_line(job: JobView) -> Seq<Seq<char>> {
    inputs_arguments(job.inputs, job.start_ms, job.end_ms) + fixed_arguments() + match job.output {
        Some(path) => seq![path],
        None => Seq::empty(),
    }
}

/// Why a job cannot be started, if it cannot: it was started before, it has
/// no output, it has fewer than two inputs, or its window ends before it
/// starts. The first of these that holds gives the message.
pub open spec fn refusal(job: JobView) -> Option<Seq<char>> {
    if !(job.state is NotStarted) {
        Some(ALREADY_STARTED@)
    } else if job.output is None {
        Some(MISSING_OUTPUT@)
    } else if job.inputs.len() < 2 {
        Some(MISSING_INPUTS@)
    } else if job.end_ms < job.start_ms {
        Some(INVERTED_RANGE@)
    } else {
        None
    }
}

/// The job after `event`: the event becomes the state, and enters the
/// history, if a transition leads to it; otherwise nothing changes.
pub open spec fn after_event(job: JobView, event: StateView) -> JobView {
    if can_follow(job.state, event) {
        JobView { state: event, history: job.history.push(event), ..job }
    } else {
        job
    }
}

/// The job after a failure with `message`: the error is recorded with the
/// state the job was in, and the job goes to `Error` unless it had ended.
pub open spec fn after_failure(job: JobView, message: Seq<char>) -> JobView {
    let failed = after_event(job, StateView::Error(message));
    JobView {
        errors: job.errors.push(FFmpegErrorView { message, state: job.state }),
        ..failed
    }
}

/// No event and no failure takes a job out of order: if its history was well
/// ordered and ended in its state, it still is and still does.
pub proof fn lemma_order_is_kept(job: JobView, event: StateView, message: Seq<char>)
    requires
        well_ordered(job.history),
        job.history.last() == job.state,
    ensures
        well_ordered(after_event(job, event).history),
        after_event(job, event).history.last() == after_event(job, event).state,
        well_ordered(after_failure(job, message).history),
        after_failure(job, message).history.last() == after_failure(job, message).state,
{
}

/// What the controller makes of what it received: a closed channel counts as
/// `Finished`.
pub open spec fn received_state(received: Option<FFmpegState>) -> FFmpegState {
    match received {
        Some(state) => state,
        None => FFmpegState::Finished,
    }
}

/// The job after a run against a whole diagnostic stream. A job that
/// `refusal` turns down stays as it is. Any other job ends in `Finished`,
/// having been through `Starting` and one `Downloading` for each line that
/// reports progress, in the order of the lines.
pub open spec fn after_run(job: JobView, lines: Seq<Seq<char>>) -> JobView {
    if refusal(job) is Some {
        job
    } else {
        JobView {
            state: StateView::Finished,
            history: job.history.push(StateView::Starting) + stream_events(lines),
            ..job
        }
    }
}

/// A job that can be started goes, on any stream, through exactly
/// `NotStarted`, `Starting`, one `Downloading` for each progress report and
/// one `Finished`, in that order.
pub proof fn lemma_run_lifecycle(job: JobView, lines: Seq<Seq<char>>)
    requires
        well_ordered(job.history),
        job.history.last() == job.state,
        refusal(job) is None,
    ensures
        ({
            let history = after_run(job, lines).history;
            &&& well_ordered(history)
            &&& history.len() == stream_progress(lines).len() + 3
            &&& history[0] is NotStarted
            &&& history[1] is Starting
            &&& forall|i: int| 2 <= i < history.len() - 1 ==> #[trigger] history[i] is Downloading
            &&& history.last() is Finished
        }),
{
    if job.history.len() > 1 {
        lemma_place(job.history, job.history.len() - 1);
    }
}

/// Two runs of one job against the same lines end in the same job, with the
/// same states in the same order.
pub proof fn lemma_run_repeatable(job: JobView, first: Seq<Seq<char>>, second: Seq<Seq<char>>)
    requires
        first =~= second,
    ensures
        after_run(job, first) == after_run(job, second),
{
}

/// A transcoding job. `OnProgressCallback` hears the elapsed milliseconds of
/// each progress report, `OnStateChangeCallback` hears each new state.
pub struct FFmpeg<OnProgressCallback, OnStateChangeCallback> {
    inputs: Vec<String>,
    start_ms: u64,
    end_ms: u64,
    output: Option<String>,
    state: FFmpegState,
    errors: Vec<FFmpegError>,
    on_progress_callback: Option<OnProgressCallback>,
    on_state_change_callback: Option<OnStateChangeCallback>,
    history: Ghost<Seq<StateView>>,
}

impl<OnProgressCallback, OnStateChangeCallback> View for FFmpeg<
    OnProgressCallback,
    OnStateChangeCallback,
> {
    type V = JobView;

    closed spec fn view(&self) -> JobView {
        JobView {
            inputs: self.inputs.deep_view(),
            start_ms: self.start_ms,
            end_ms: self.end_ms,
            output: self.output.deep_view(),
            state: self.state@,
            errors: error_views(self.errors@),
            history: self.history@,
        }
    }
}

impl<OnProgressCallback, OnStateChangeCallback> FFmpeg<
    OnProgressCallback,
    OnStateChangeCallback,
> where OnProgressCallback: Fn(u64) -> (), OnStateChangeCallback: Fn(FFmpegState) -> () {
    /// The listener for progress, if one was given.
    pub closed spec fn progress_listener(&self) -> Option<OnProgressCallback> {
        self.on_progress_callback
    }

    /// The listener for state changes, if one was given.
    pub closed spec fn state_listener(&self) -> Option<OnStateChangeCallback> {
        self.on_state_change_callback
    }

    /// Whether both jobs have the same listeners.
    pub open spec fn same_listeners(&self, other: &Self) -> bool {
        &&& self.progress_listener() == other.progress_listener()
        &&& self.state_listener() == other.state_listener()
    }

    /// A job is well formed if its listeners can be called with every value,
    /// and its history is well ordered and ends in its state.
    pub closed spec fn wf(&self) -> bool {
        &&& self.on_progress_callback matches Some(listener) ==> forall|elapsed: u64|
            call_requires(listener, (elapsed,))
        &&& self.on_state_change_callback matches Some(listener) ==> forall|state: FFmpegState|
            call_requires(listener, (state,))
        &&& well_ordered(self.history@)
        &&& self.history@.last() == self.state@
    }

    /// The history of a well formed job is well ordered and ends in the
    /// job's state.
    pub proof fn lemma_history(&self)
        requires
            self.wf(),
        ensures
            well_ordered(self@.history),
            self@.history.last() == self@.state,
    {
    }

    /// Every job, whatever was done with it, has been through `NotStarted`,
    /// `Starting`, any number of `Downloading` and at most one terminal
    /// state, in that order.
    pub proof fn lemma_job_lifecycle(&self)
        requires
            self.wf(),
        ensures
            follows_lifecycle(self@.history),
            forall|i: int|
                0 <= i < self@.history.len() - 1 ==> !(#[trigger] self@.history[i]).is_terminal(),
    {
        lemma_lifecycle(self.history@);
        assert forall|i: int| 0 <= i < self@.history.len() - 1 implies !(
        #[trigger] self@.history[i]).is_terminal() by {
            if self@.history[i].is_terminal() {
                lemma_terminal_is_last(self.history@, i);
            }
        }
    }

    /// A job without inputs, output or listeners, with the window from 0 to
    /// 0, that has not started.
    pub fn new() -> (job: Self)
        ensures
            job.wf(),
            job@ == (JobView {
                inputs: Seq::empty(),
                start_ms: 0,
                end_ms: 0,
                output: None,
                state: StateView::NotStarted,
                errors: Seq::empty(),
                history: seq![StateView::NotStarted],
            }),
            job.progress_listener() is None,
            job.state_listener() is None,
    {
        let history: Ghost<Seq<StateView>> = Ghost(Seq::empty().push(StateView::NotStarted));
        let job = Self {
            inputs: Vec::new(),
            start_ms: 0,
            end_ms: 0,
            output: None,
            state: FFmpegState::NotStarted,
            errors: Vec::new(),
            on_progress_callback: None,
            on_state_change_callback: None,
            history,
        };
        assert(job.inputs.deep_view() =~= Seq::<Seq<char>>::empty());
        assert(error_views(job.errors@) =~= Seq::<FFmpegErrorView>::empty());
        job
    }

    /// Sets the listener that hears each new state.
    pub fn state_change_callback(&mut self, callback: OnStateChangeCallback) -> (job: &mut Self)
        requires
            old(self).wf(),
            forall|state: FFmpegState| call_requires(callback, (state,)),
        ensures
            job.wf(),
            job@ == old(self)@,
            job.progress_listener() == old(self).progress_listener(),
            job.state_listener() == Some(callback),
            *final(self) == *final(job),
    {
        self.on_state_change_callback = Some(callback);
        self
    }

    /// Sets the listener that hears the elapsed milliseconds of each
    /// progress report.
    pub fn progress_callback(&mut self, callback: OnProgressCallback) -> (job: &mut Self)
        requires
            old(self).wf(),
            forall|elapsed: u64| call_requires(callback, (elapsed,)),
        ensures
            job.wf(),
            job@ == old(self)@,
            job.progress_listener() == Some(callback),
            job.state_listener() == old(self).state_listener(),
            *final(self) == *final(job),
    {
        self.on_progress_callback = Some(callback);
        self
    }

    /// Sets the path that the transcoder writes to. Never fails.
    pub fn output(&mut self, output: &str) -> (result: Result<&mut Self, FFmpegError>)
        requires
            old(self).wf(),
        ensures
            result matches Ok(job) && job.wf() && job.same_listeners(old(self)) && job@
                == (JobView { output: Some(output@), ..old(self)@ }) && *final(self)
                == *final(job),
    {
        self.output = Some(String::from_str(output));
        Ok(self)
    }

    /// Sets the window of the source that the clip covers, in milliseconds.
    /// Never fails: a window that ends before it starts is refused when the
    /// job is started.
    pub fn time(&mut self, start_ms: u64, end_ms: u64) -> (result: Result<&mut Self, FFmpegError>)
        requires
            old(self).wf(),
        ensures
            result matches Ok(job) && job.wf() && job.same_listeners(old(self)) && job@
                == (JobView { start_ms, end_ms, ..old(self)@ }) && *final(self) == *final(job),
    {
        self.start_ms = start_ms;
        self.end_ms = end_ms;
        Ok(self)
    }

    /// Adds an input after those already there. The first input gives the
    /// video, the second the sound. Never fails.
    pub fn input(&mut self, url: &str) -> (result: Result<&mut Self, FFmpegError>)
        requires
            old(self).wf(),
        ensures
            result matches Ok(job) && job.wf() && job.same_listeners(old(self)) && job@
                == (JobView { inputs: old(self)@.inputs.push(url@), ..old(self)@ }) && *final(self)
                == *final(job),
    {
        push_text(&mut self.inputs, url);
        Ok(self)
    }

    /// The state the job is in.
    pub fn state(&self) -> (state: &FFmpegState)
        ensures
            state@ == self@.state,
    {
        &self.state
    }

    /// The errors the job has met, oldest first.
    pub fn errors(&self) -> (errors: &Vec<FFmpegError>)
        ensures
            error_views(errors@) == self@.errors,
    {
        &self.errors
    }

    /// Makes `state` the job's state and tells the state listener.
    fn change_state(&mut self, state: FFmpegState)
        requires
            old(self).wf(),
            can_follow(old(self)@.state, state@),
        ensures
            final(self).wf(),
            final(self).same_listeners(old(self)),
            final(self)@ == after_event(old(self)@, state@),
            final(self).state_listener() matches Some(listener) ==> call_ensures(
                listener,
                (state,),
                (),
            ),
    {
        proof {
            lemma_order_is_kept(self@, state@, Seq::empty());
        }
        let history: Ghost<Seq<StateView>> = Ghost(self.history@.push(state@));
        self.history = history;
        self.state = state;
        if let Some(ref listener) = self.on_state_change_callback {
            listener(self.state.clone());
        }
    }

    /// Checks that the job can be started. The error carries the message of
    /// `refusal` and the state of the job, which does not change.
    pub fn validate(&self) -> (result: Result<(), FFmpegError>)
        ensures
            match refusal(self@) {
                Some(message) => result matches Err(error) && error@ == (FFmpegErrorView {
                    message,
                    state: self@.state,
                }),
                None => result is Ok,
            },
    {
        let message = match self.state {
            FFmpegState::NotStarted => {
                if self.output.is_none() {
                    MISSING_OUTPUT
                } else if self.inputs.len() < 2 {
                    MISSING_INPUTS
                } else if self.end_ms < self.start_ms {
                    INVERTED_RANGE
                } else {
                    return Ok(());
                }
            },
            _ => ALREADY_STARTED,
        };
        Err(FFmpegError { message: String::from_str(message), state: self.state.clone() })
    }

    /// The arguments to start the transcoder with, in order.
    pub fn command_args(&self) -> (arguments: Vec<String>)
        ensures
            arguments.deep_view() == command_line(self@),
    {
        let start = format_millis(self.start_ms);
        let end = format_millis(self.end_ms);
        let mut arguments: Vec<String> = Vec::new();
        let mut i: usize = 0;
        while i < self.inputs.len()
            invariant
                i <= self.inputs.len(),
                start@ == millis_text(self.start_ms),
                end@ == millis_text(self.end_ms),
                arguments.deep_view() == inputs_arguments(
                    self.inputs.deep_view().take(i as int),
                    self.start_ms,
                    self.end_ms,
                ),
            decreases self.inputs.len() - i,
        {
            let input = FFmpegInput::new(self.inputs[i].as_str(), start.as_str(), end.as_str());
            input.append_to(&mut arguments);
            proof {
                let all = self.inputs.deep_view();
                assert(all.take(i + 1).drop_last() =~= all.take(i as int));
            }
            i += 1;
        }
        assert(self.inputs.deep_view().take(i as int) =~= self.inputs.deep_view());
        push_text(&mut arguments, "-map");
        push_text(&mut arguments, "0:v");
        push_text(&mut arguments, "-map");
        push_text(&mut arguments, "1:a");
        push_text(&mut arguments, "-c:v");
        push_text(&mut arguments, "libx264");
        push_text(&mut arguments, "-c:a");
        push_text(&mut arguments, "aac");
        push_text(&mut arguments, "-progress");
        push_text(&mut arguments, "pipe:2");
        push_text(&mut arguments, "-y");
        if let Some(path) = &self.output {
            push_text(&mut arguments, path.as_str());
        }
        arguments
    }

    /// Records that the transcoder runs: a job that has not started goes to
    /// `Starting`; any other job stays as it is.
    pub fn started(&mut self)
        requires
            old(self).wf(),
        ensures
            final(self).wf(),
            final(self).same_listeners(old(self)),
            final(self)@ == after_event(old(self)@, StateView::Starting),
            old(self)@.state is NotStarted ==> (final(self).state_listener() matches Some(listener)
                ==> call_ensures(listener, (FFmpegState::Starting,), ())),
    {
        if self.state.can_advance_to(&FFmpegState::Starting) {
            self.change_state(FFmpegState::Starting);
        }
    }

    /// Takes what the controller received from the parser, a state or the
    /// news that the channel is closed, which counts as `Finished`. Where a
    /// transition leads from the job's state to the received one, the job
    /// takes it, the state listener hears the new state, and after that the
    /// progress listener hears the elapsed time of a `Downloading`. Anything
    /// else changes nothing. The result says whether to wait for more: not
    /// after the channel has closed, and not once the job has ended.
    pub fn handle_event(&mut self, received: Option<FFmpegState>) -> (more: bool)
        requires
            old(self).wf(),
        ensures
            final(self).wf(),
            final(self).same_listeners(old(self)),
            final(self)@ == after_event(old(self)@, received_state(received)@),
            more == (received is Some && !final(self)@.state.is_terminal()),
            can_follow(old(self)@.state, received_state(received)@) ==> {
                &&& final(self).state_listener() matches Some(listener) ==> call_ensures(
                    listener,
                    (received_state(received),),
                    (),
                )
                &&& final(self).progress_listener() matches Some(listener) ==> (received_state(
                    received,
                ) matches FFmpegState::Downloading(elapsed) ==> call_ensures(
                    listener,
                    (elapsed,),
                    (),
                ))
            },
    {
        let open = received.is_some();
        let event = match received {
            Some(state) => state,
            None => FFmpegState::Finished,
        };
        if self.state.can_advance_to(&event) {
            let progress = match &event {
                FFmpegState::Downloading(elapsed) => Some(*elapsed),
                _ => None,
            };
            self.change_state(event);
            if let Some(elapsed) = progress {
                if let Some(ref listener) = self.on_progress_callback {
                    listener(elapsed);
                }
            }
        }
        open && !self.state.is_terminal()
    }

    /// Records a failure of the job: the error holds `message` and the state
    /// the job was in, is added to the job's errors and handed back. A job
    /// that had not ended goes to `Error` with that message and tells the
    /// state listener.
    pub fn fail(&mut self, message: &str) -> (error: FFmpegError)
        requires
            old(self).wf(),
        ensures
            final(self).wf(),
            final(self).same_listeners(old(self)),
            final(self)@ == after_failure(old(self)@, message@),
            error@ == (FFmpegErrorView { message: message@, state: old(self)@.state }),
            !old(self)@.state.is_terminal() ==> (final(self).state_listener() matches Some(
                listener,
            ) ==> exists|text: String|
                text@ == message@ && #[trigger] call_ensures(
                    listener,
                    (FFmpegState::Error(text),),
                    (),
                )),
    {
        let error = FFmpegError { message: String::from_str(message), state: self.state.clone() };
        let next = FFmpegState::Error(String::from_str(message));
        if self.state.can_advance_to(&next) {
            self.change_state(next);
        }
        self.errors.push(error.clone());
        assert(error_views(self.errors@) =~= error_views(old(self).errors@).push(error@));
        error
    }
}

} // verus!
