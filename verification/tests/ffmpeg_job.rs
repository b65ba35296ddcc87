use clypperlib::download::ffmpeg::{
    format_millis, FFmpeg, FFmpegError, FFmpegInput, FFmpegState, ALREADY_STARTED, INVERTED_RANGE,
    MISSING_INPUTS, MISSING_OUTPUT, SPAWN_FAILED, STREAM_UNAVAILABLE,
};
use std::cell::RefCell;
use std::rc::Rc;

/// What a listener has heard: a state, or the elapsed time of a report.
#[derive(Debug, PartialEq)]
enum Heard {
    State(FFmpegState),
    Progress(u64),
}

type Log = Rc<RefCell<Vec<Heard>>>;

fn lines(text: &[&str]) -> Vec<String> {
    text.iter().map(|line| line.to_string()).collect()
}

fn state_listener(log: &Log) -> impl Fn(FFmpegState) {
    let log = log.clone();
    move |state| log.borrow_mut().push(Heard::State(state))
}

fn progress_listener(log: &Log) -> impl Fn(u64) {
    let log = log.clone();
    move |elapsed| log.borrow_mut().push(Heard::Progress(elapsed))
}

/// A job with a video and an audio input, the window from 1000 to 5000 and
/// the output `clip.mp4`, whose listeners write to `log`.
fn clip_job(log: &Log) -> FFmpeg<impl Fn(u64), impl Fn(FFmpegState)> {
    let mut job = FFmpeg::new();
    job.input("https://video.example/v").unwrap();
    job.input("https://audio.example/a").unwrap();
    job.time(1000, 5000).unwrap();
    job.output("clip.mp4").unwrap();
    job.state_change_callback(state_listener(log));
    job.progress_callback(progress_listener(log));
    job
}

fn quiet_job() -> FFmpeg<fn(u64), fn(FFmpegState)> {
    FFmpeg::new()
}

#[test]
fn a_new_job_has_not_started() {
    let job = quiet_job();
    assert_eq!(*job.state(), FFmpegState::NotStarted);
    assert!(job.errors().is_empty());
    assert_eq!(FFmpegState::default(), FFmpegState::NotStarted);
}

#[test]
fn the_command_line_names_inputs_options_and_output_in_order() {
    let log = Log::default();
    let job = clip_job(&log);
    assert_eq!(
        job.command_args(),
        vec![
            "-ss",
            "1000ms",
            "-to",
            "5000ms",
            "-i",
            "https://video.example/v",
            "-ss",
            "1000ms",
            "-to",
            "5000ms",
            "-i",
            "https://audio.example/a",
            "-map",
            "0:v",
            "-map",
            "1:a",
            "-c:v",
            "libx264",
            "-c:a",
            "aac",
            "-progress",
            "pipe:2",
            "-y",
            "clip.mp4",
        ]
    );
    assert!(log.borrow().is_empty());
}

#[test]
fn the_command_line_of_an_empty_job_has_only_the_options() {
    let job = quiet_job();
    assert_eq!(
        job.command_args(),
        vec![
            "-map", "0:v", "-map", "1:a", "-c:v", "libx264", "-c:a", "aac", "-progress", "pipe:2",
            "-y",
        ]
    );
}

#[test]
fn each_input_gets_the_window_in_the_order_it_was_added() {
    let mut job = quiet_job();
    job.time(0, u64::MAX).unwrap().input("first").unwrap().input("second").unwrap();
    job.input("third").unwrap();
    let arguments = job.command_args();
    assert_eq!(
        arguments[..18],
        [
            "-ss",
            "0ms",
            "-to",
            "18446744073709551615ms",
            "-i",
            "first",
            "-ss",
            "0ms",
            "-to",
            "18446744073709551615ms",
            "-i",
            "second",
            "-ss",
            "0ms",
            "-to",
            "18446744073709551615ms",
            "-i",
            "third",
        ]
    );
    assert_eq!(arguments.len(), 18 + 11);
}

#[test]
fn the_last_output_and_the_last_window_count() {
    let mut job = quiet_job();
    job.output("a.mp4").unwrap().output("b.mp4").unwrap();
    job.time(1, 2).unwrap().time(30, 40).unwrap();
    job.input("v").unwrap();
    let arguments = job.command_args();
    assert_eq!(arguments[..6], ["-ss", "30ms", "-to", "40ms", "-i", "v"]);
    assert_eq!(arguments.last().unwrap(), "b.mp4");
}

#[test]
fn an_input_stands_on_the_command_line_as_three_pairs() {
    let input = FFmpegInput::new("https://video.example/v", "1000ms", "5000ms");
    let mut arguments = vec![String::from("ffmpeg")];
    input.append_to(&mut arguments);
    assert_eq!(
        arguments,
        vec!["ffmpeg", "-ss", "1000ms", "-to", "5000ms", "-i", "https://video.example/v"]
    );
    assert_eq!(format_millis(0), "0ms");
    assert_eq!(format_millis(1000), "1000ms");
    assert_eq!(format_millis(u64::MAX), "18446744073709551615ms");
}

#[test]
fn a_job_without_output_is_refused() {
    let mut job = quiet_job();
    job.input("v").unwrap().input("a").unwrap();
    let error = job.validate().unwrap_err();
    assert_eq!(error.message, MISSING_OUTPUT);
    assert_eq!(error.message, "No output was given to ffmpeg");
    assert_eq!(error.state, FFmpegState::NotStarted);
    let error = job.spawn(&lines(&["time=00:00:01.00"])).unwrap_err();
    assert_eq!(error.message, MISSING_OUTPUT);
    assert_eq!(*job.state(), FFmpegState::NotStarted);
    assert!(job.errors().is_empty());
}

#[test]
fn a_job_with_fewer_than_two_inputs_is_refused() {
    let mut job = quiet_job();
    job.output("clip.mp4").unwrap();
    assert_eq!(job.validate().unwrap_err().message, MISSING_INPUTS);
    job.input("v").unwrap();
    let error = job.validate().unwrap_err();
    assert_eq!(error.message, "A video and an audio input are needed");
    assert_eq!(error.state, FFmpegState::NotStarted);
    job.input("a").unwrap();
    assert!(job.validate().is_ok());
}

#[test]
fn a_window_that_ends_before_it_starts_is_refused() {
    let log = Log::default();
    let mut job = clip_job(&log);
    job.time(5000, 4999).unwrap();
    let error = job.spawn(&lines(&[])).unwrap_err();
    assert_eq!(error.message, INVERTED_RANGE);
    assert_eq!(error.message, "The clip ends before it starts");
    assert_eq!(*job.state(), FFmpegState::NotStarted);
    assert!(log.borrow().is_empty());
    job.time(5000, 5000).unwrap();
    assert!(job.validate().is_ok());
}

#[test]
fn a_job_runs_once() {
    let log = Log::default();
    let mut job = clip_job(&log);
    assert!(job.spawn(&lines(&[])).is_ok());
    let heard = log.borrow().len();
    let error = job.spawn(&lines(&["time=00:00:01.00"])).unwrap_err();
    assert_eq!(error.message, ALREADY_STARTED);
    assert_eq!(error.message, "FFmpeg job was already started");
    assert_eq!(error.state, FFmpegState::Finished);
    assert_eq!(*job.state(), FFmpegState::Finished);
    assert_eq!(log.borrow().len(), heard);
}

#[test]
fn a_run_goes_from_starting_through_downloading_to_finished() {
    let log = Log::default();
    let mut job = clip_job(&log);
    let stream = lines(&[
        "ffmpeg version 6.0",
        "frame=1 time=00:00:01.00 bitrate=1",
        "progress=continue",
        "frame=2 time=00:00:02.500 bitrate=1",
        "frame=3 time=00:00:04.000 bitrate=1",
        "progress=end",
    ]);
    job.spawn(&stream).unwrap();
    assert_eq!(*job.state(), FFmpegState::Finished);
    assert_eq!(
        *log.borrow(),
        vec![
            Heard::State(FFmpegState::Starting),
            Heard::State(FFmpegState::Downloading(1000)),
            Heard::Progress(1000),
            Heard::State(FFmpegState::Downloading(2500)),
            Heard::Progress(2500),
            Heard::State(FFmpegState::Downloading(4000)),
            Heard::Progress(4000),
            Heard::State(FFmpegState::Finished),
        ]
    );
    assert!(job.errors().is_empty());
}

#[test]
fn end_to_end_the_progress_stays_within_the_clip() {
    let log = Log::default();
    let mut job = FFmpeg::new();
    job.input("video_url")
        .unwrap()
        .input("audio_url")
        .unwrap()
        .time(1000, 5000)
        .unwrap()
        .output("clip.mp4")
        .unwrap()
        .state_change_callback(state_listener(&log))
        .progress_callback(progress_listener(&log));
    let stream = lines(&[
        "time=00:00:00.000",
        "time=00:00:01.250",
        "time=00:00:01.250",
        "time=00:00:03.999",
        "time=00:00:04.000",
    ]);
    job.spawn(&stream).unwrap();
    assert_eq!(*job.state(), FFmpegState::Finished);
    let mut progress = Vec::new();
    let mut states = Vec::new();
    for heard in log.borrow().iter() {
        match heard {
            Heard::Progress(elapsed) => progress.push(*elapsed),
            Heard::State(state) => states.push(state.clone()),
        }
    }
    assert_eq!(progress, vec![0, 1250, 1250, 3999, 4000]);
    assert!(progress.windows(2).all(|pair| pair[0] <= pair[1]));
    assert!(progress.iter().all(|elapsed| *elapsed <= 5000 - 1000));
    assert_eq!(states.first(), Some(&FFmpegState::Starting));
    assert_eq!(states.last(), Some(&FFmpegState::Finished));
    assert_eq!(states.iter().filter(|state| **state == FFmpegState::Finished).count(), 1);
    assert!(states.iter().all(|state| !matches!(state, FFmpegState::Error(_))));
}

#[test]
fn a_run_without_timestamps_goes_from_starting_to_finished() {
    let log = Log::default();
    let mut job = clip_job(&log);
    job.spawn(&lines(&["Conversion failed!"])).unwrap();
    assert_eq!(
        *log.borrow(),
        vec![Heard::State(FFmpegState::Starting), Heard::State(FFmpegState::Finished)]
    );
}

#[test]
fn the_same_run_gives_the_same_states() {
    let stream = lines(&["time=00:00:01.00", "x", "time=00:00:00.50", "time=00:00:03.00"]);
    let first = Log::default();
    clip_job(&first).spawn(&stream).unwrap();
    let second = Log::default();
    clip_job(&second).spawn(&stream).unwrap();
    assert_eq!(*first.borrow(), *second.borrow());
    assert_eq!(first.borrow().len(), 8);
}

#[test]
fn the_controller_takes_events_one_by_one() {
    let log = Log::default();
    let mut job = clip_job(&log);
    job.started();
    assert_eq!(*job.state(), FFmpegState::Starting);
    assert!(job.handle_event(Some(FFmpegState::Downloading(10))));
    assert_eq!(*job.state(), FFmpegState::Downloading(10));
    assert!(job.handle_event(Some(FFmpegState::Downloading(5))));
    assert_eq!(*job.state(), FFmpegState::Downloading(5));
    assert!(!job.handle_event(Some(FFmpegState::Finished)));
    assert_eq!(*job.state(), FFmpegState::Finished);
    assert_eq!(
        *log.borrow(),
        vec![
            Heard::State(FFmpegState::Starting),
            Heard::State(FFmpegState::Downloading(10)),
            Heard::Progress(10),
            Heard::State(FFmpegState::Downloading(5)),
            Heard::Progress(5),
            Heard::State(FFmpegState::Finished),
        ]
    );
}

#[test]
fn a_closed_channel_counts_as_finished() {
    let log = Log::default();
    let mut job = clip_job(&log);
    job.started();
    assert!(job.handle_event(Some(FFmpegState::Downloading(10))));
    assert!(!job.handle_event(None));
    assert_eq!(*job.state(), FFmpegState::Finished);
    assert_eq!(log.borrow().last(), Some(&Heard::State(FFmpegState::Finished)));
    assert!(!job.handle_event(None));
    assert_eq!(log.borrow().len(), 4);
}

#[test]
fn a_closed_channel_ends_the_wait_of_a_job_that_never_started() {
    let log = Log::default();
    let mut job = clip_job(&log);
    assert!(!job.handle_event(None));
    assert_eq!(*job.state(), FFmpegState::NotStarted);
    assert!(log.borrow().is_empty());
}

#[test]
fn an_event_that_no_transition_leads_to_changes_nothing() {
    let log = Log::default();
    let mut job = clip_job(&log);
    assert!(job.handle_event(Some(FFmpegState::Downloading(1))));
    assert!(job.handle_event(Some(FFmpegState::Finished)));
    assert!(job.handle_event(Some(FFmpegState::NotStarted)));
    assert_eq!(*job.state(), FFmpegState::NotStarted);
    assert!(log.borrow().is_empty());
    job.started();
    job.started();
    assert!(job.handle_event(Some(FFmpegState::Starting)));
    assert!(job.handle_event(Some(FFmpegState::NotStarted)));
    assert_eq!(*job.state(), FFmpegState::Starting);
    assert_eq!(*log.borrow(), vec![Heard::State(FFmpegState::Starting)]);
}

#[test]
fn nothing_follows_a_terminal_state() {
    let log = Log::default();
    let mut job = clip_job(&log);
    job.started();
    assert!(!job.handle_event(Some(FFmpegState::Finished)));
    assert!(!job.handle_event(Some(FFmpegState::Downloading(1))));
    assert!(!job.handle_event(Some(FFmpegState::Error(String::from("late")))));
    assert!(!job.handle_event(Some(FFmpegState::Finished)));
    assert!(!job.handle_event(Some(FFmpegState::Starting)));
    assert_eq!(*job.state(), FFmpegState::Finished);
    assert_eq!(
        *log.borrow(),
        vec![Heard::State(FFmpegState::Starting), Heard::State(FFmpegState::Finished)]
    );
}

#[test]
fn an_error_event_ends_the_job() {
    let log = Log::default();
    let mut job = clip_job(&log);
    job.started();
    assert!(job.handle_event(Some(FFmpegState::Downloading(7))));
    assert!(!job.handle_event(Some(FFmpegState::Error(String::from("pipe broke")))));
    assert_eq!(*job.state(), FFmpegState::Error(String::from("pipe broke")));
    assert!(!job.handle_event(Some(FFmpegState::Finished)));
    assert_eq!(*job.state(), FFmpegState::Error(String::from("pipe broke")));
    assert_eq!(
        log.borrow().last(),
        Some(&Heard::State(FFmpegState::Error(String::from("pipe broke"))))
    );
}

#[test]
fn a_failure_to_start_ends_the_job_in_error() {
    let log = Log::default();
    let mut job = clip_job(&log);
    let error: FFmpegError = job.fail(SPAWN_FAILED);
    assert_eq!(error.message, "Failed to start the ffmpeg process");
    assert_eq!(error.state, FFmpegState::NotStarted);
    assert_eq!(*job.state(), FFmpegState::Error(String::from(SPAWN_FAILED)));
    assert_eq!(
        *log.borrow(),
        vec![Heard::State(FFmpegState::Error(String::from(SPAWN_FAILED)))]
    );
    assert_eq!(job.errors().len(), 1);
    assert_eq!(job.errors()[0].message, SPAWN_FAILED);
    assert_eq!(job.errors()[0].state, FFmpegState::NotStarted);
    job.started();
    assert!(!job.handle_event(Some(FFmpegState::Finished)));
    assert_eq!(*job.state(), FFmpegState::Error(String::from(SPAWN_FAILED)));
}

#[test]
fn a_missing_stream_ends_the_job_in_error() {
    let log = Log::default();
    let mut job = clip_job(&log);
    job.started();
    let error = job.fail(STREAM_UNAVAILABLE);
    assert_eq!(error.message, "Failed to get stderr from ffmpeg process");
    assert_eq!(error.state, FFmpegState::Starting);
    assert_eq!(*job.state(), FFmpegState::Error(String::from(STREAM_UNAVAILABLE)));
    assert_eq!(log.borrow().len(), 2);
}

#[test]
fn a_failure_after_the_end_is_recorded_and_changes_no_state() {
    let log = Log::default();
    let mut job = clip_job(&log);
    job.spawn(&lines(&[])).unwrap();
    let error = job.fail("too late");
    assert_eq!(error.message, "too late");
    assert_eq!(error.state, FFmpegState::Finished);
    assert_eq!(*job.state(), FFmpegState::Finished);
    assert_eq!(log.borrow().len(), 2);
    job.fail("again");
    assert_eq!(job.errors().len(), 2);
    assert_eq!(job.errors()[1].message, "again");
}

#[test]
fn states_compare_by_what_they_hold() {
    assert_eq!(FFmpegState::Downloading(3), FFmpegState::Downloading(3));
    assert_ne!(FFmpegState::Downloading(3), FFmpegState::Downloading(4));
    assert_ne!(FFmpegState::Starting, FFmpegState::NotStarted);
    assert_ne!(FFmpegState::Finished, FFmpegState::Error(String::new()));
    assert_eq!(FFmpegState::Error(String::from("a")), FFmpegState::Error(String::from("a")));
    assert_ne!(FFmpegState::Error(String::from("a")), FFmpegState::Error(String::from("b")));
    let state = FFmpegState::Error(String::from("kept"));
    assert_eq!(state.clone(), state);
    let error = FFmpegError { message: String::from("m"), state: FFmpegState::Downloading(9) };
    let copy = error.clone();
    assert_eq!(copy.message, "m");
    assert_eq!(copy.state, FFmpegState::Downloading(9));
    let empty = FFmpegError::default();
    assert_eq!(empty.message, "");
    assert_eq!(empty.state, FFmpegState::NotStarted);
}

#[test]
fn the_transitions_are_those_of_the_lifecycle() {
    let not_started = FFmpegState::NotStarted;
    let starting = FFmpegState::Starting;
    let downloading = FFmpegState::Downloading(1);
    let finished = FFmpegState::Finished;
    let error = FFmpegState::Error(String::from("e"));
    let all = [&not_started, &starting, &downloading, &finished, &error];
    let allowed = [
        [false, true, false, false, true],
        [false, false, true, true, true],
        [false, false, true, true, true],
        [false, false, false, false, false],
        [false, false, false, false, false],
    ];
    for (from, row) in all.iter().zip(allowed.iter()) {
        for (to, expected) in all.iter().zip(row.iter()) {
            assert_eq!(from.can_advance_to(to), *expected, "{:?} to {:?}", from, to);
        }
    }
    assert!(!not_started.is_terminal());
    assert!(!starting.is_terminal());
    assert!(!downloading.is_terminal());
    assert!(finished.is_terminal());
    assert!(error.is_terminal());
}

#[test]
fn the_controller_ends_with_the_channel() {
    let log = Log::default();
    let mut job = clip_job(&log);
    job.started();
    let (sender, receiver) = std::sync::mpsc::channel();
    sender.send(FFmpegState::Downloading(100)).unwrap();
    sender.send(FFmpegState::Downloading(200)).unwrap();
    drop(sender);
    let mut rounds = 0;
    while job.handle_event(receiver.recv().ok()) {
        rounds += 1;
    }
    assert_eq!(rounds, 2);
    assert_eq!(*job.state(), FFmpegState::Finished);
    assert_eq!(
        *log.borrow(),
        vec![
            Heard::State(FFmpegState::Starting),
            Heard::State(FFmpegState::Downloading(100)),
            Heard::Progress(100),
            Heard::State(FFmpegState::Downloading(200)),
            Heard::Progress(200),
            Heard::State(FFmpegState::Finished),
        ]
    );
}
