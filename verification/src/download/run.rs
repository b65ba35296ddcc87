//! The run of a job against a diagnostic stream that has already ended.
//!
//! This is the whole life of a job in one call: the job is checked and
//! started, the stream is parsed, and each event goes through the
//! controller as it would have come over the channel.

use vstd::prelude::*;
use crate::download::ffmpeg::{
    after_run,
    refusal,
    FFmpeg,
    FFmpegError,
    FFmpegErrorView,
    FFmpegState,
    JobView,
    StateView,
};
use crate::download::progress::{downloading_states, parse_stream, stream_progress};

verus! {

impl<OnProgressCallback, OnStateChangeCallback> FFmpeg<
    OnProgressCallback,
    OnStateChangeCallback,
> where OnProgressCallback: Fn(u64) -> (), OnStateChangeCallback: Fn(FFmpegState) -> () {
    /// Passes the events of a stream that has ended to the controller, in
    /// order: a `Downloading` for each of `elapsed`, then `Finished`.
    fn replay(&mut self, events: &Vec<FFmpegState>, Ghost(elapsed): Ghost<Seq<u64>>)
        requires
            old(self).wf(),
            old(self)@.state is Starting,
            events.len() == elapsed.len() + 1,
            forall|k: int|
                0 <= k < elapsed.len() ==> #[trigger] events[k] == FFmpegState::Downloading(
                    elapsed[k],
                ),
            events[elapsed.len() as int] == FFmpegState::Finished,
        ensures
            final(self).wf(),
            final(self).same_listeners(old(self)),
            final(self)@ == (JobView {
                state: StateView::Finished,
                history: old(self)@.history + downloading_states(elapsed).push(
                    StateView::Finished,
                ),
                ..old(self)@
            }),
            final(self).state_listener() matches Some(listener) ==> {
                &&& forall|k: int|
                    0 <= k < elapsed.len() ==> #[trigger] call_ensures(
                        listener,
                        (FFmpegState::Downloading(elapsed[k]),),
                        (),
                    )
                &&& call_ensures(listener, (FFmpegState::Finished,), ())
            },
            final(self).progress_listener() matches Some(listener) ==> forall|k: int|
                0 <= k < elapsed.len() ==> #[trigger] call_ensures(listener, (elapsed[k],), ()),
    {
        let ghost begun = self@.history;
        let count = events.len() - 1;
        let mut i: usize = 0;
        while i < count
            invariant
                self.wf(),
                self.same_listeners(old(self)),
                count == elapsed.len(),
                events.len() == count + 1,
                i <= count,
                forall|k: int|
                    0 <= k < elapsed.len() ==> #[trigger] events[k] == FFmpegState::Downloading(
                        elapsed[k],
                    ),
                self@.state is Starting || self@.state is Downloading,
                self@ == (JobView {
                    state: self@.state,
                    history: begun + downloading_states(elapsed).take(i as int),
                    ..old(self)@
                }),
                self.state_listener() matches Some(listener) ==> forall|k: int|
                    0 <= k < i ==> #[trigger] call_ensures(
                        listener,
                        (FFmpegState::Downloading(elapsed[k]),),
                        (),
                    ),
                self.progress_listener() matches Some(listener) ==> forall|k: int|
                    0 <= k < i ==> #[trigger] call_ensures(listener, (elapsed[k],), ()),
            decreases count - i,
        {
            let event = events[i].clone();
            assert(event == FFmpegState::Downloading(elapsed[i as int]));
            self.handle_event(Some(event));
            assert(begun + downloading_states(elapsed).take(i + 1) =~= (begun + downloading_states(
                elapsed,
            ).take(i as int)).push(StateView::Downloading(elapsed[i as int])));
            i += 1;
        }
        self.handle_event(Some(events[i].clone()));
        assert(downloading_states(elapsed).take(i as int) =~= downloading_states(elapsed));
    }

    /// Runs the job against a diagnostic stream that is already complete,
    /// line by line as the transcoder wrote it.
    ///
    /// A job that `refusal` turns down gives that error and stays as it is.
    /// Any other job goes to `Starting`, then to `Downloading` once for each
    /// line that carries a timestamp, in the order of the lines, and then to
    /// `Finished`. The state listener hears each of these states and the
    /// progress listener each elapsed time.
    pub fn spawn(&mut self, diagnostics: &Vec<String>) -> (result: Result<(), FFmpegError>)
        requires
            old(self).wf(),
        ensures
            final(self).wf(),
            final(self).same_listeners(old(self)),
            final(self)@ == after_run(old(self)@, diagnostics.deep_view()),
            match refusal(old(self)@) {
                Some(message) => result matches Err(error) && error@ == (FFmpegErrorView {
                    message,
                    state: old(self)@.state,
                }),
                None => {
                    let elapsed = stream_progress(diagnostics.deep_view());
                    &&& result is Ok
                    &&& final(self).state_listener() matches Some(listener) ==> {
                        &&& call_ensures(listener, (FFmpegState::Starting,), ())
                        &&& forall|k: int|
                            0 <= k < elapsed.len() ==> #[trigger] call_ensures(
                                listener,
                                (FFmpegState::Downloading(elapsed[k]),),
                                (),
                            )
                        &&& call_ensures(listener, (FFmpegState::Finished,), ())
                    }
                    &&& final(self).progress_listener() matches Some(listener) ==> forall|k: int|
                        0 <= k < elapsed.len() ==> #[trigger] call_ensures(
                            listener,
                            (elapsed[k],),
                            (),
                        )
                },
            },
    {
        match self.validate() {
            Err(error) => {
                return Err(error);
            },
            Ok(()) => {},
        }
        self.started();
        let events = parse_stream(diagnostics);
        self.replay(&events, Ghost(stream_progress(diagnostics.deep_view())));
        Ok(())
    }
}

} // verus!
