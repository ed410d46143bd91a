//! The listening state machine of the wake-word detector.
//!
//! A detector has three independent facts: whether the background polling
//! loop should keep running (`wake_word_active`), whether a follow-up window
//! for post-wake speech is open (`follow_up_active`), and whether a polling
//! loop currently exists (`loop_running`). The host calls the methods below
//! under one lock, from the UI thread (start and stop), from the polling
//! loop (poll, setup failure, recognition results) and from the follow-up
//! collaborators (utterances, window timers), and carries out what they
//! return with the lock released.
use vstd::prelude::*;
use crate::phrases::{
    contains_seq, is_stop_command, is_stop_command_folded, is_wake_phrase, is_wake_phrase_folded,
    lower_of, names_stop_phrase, WAKE_PHRASE, WAKE_PHRASE_INDEX,
};

verus! {

/// How long one recognition attempt of the polling loop waits, in milliseconds.
pub const POLL_TIMEOUT_MS: u64 = 500;

/// How long a follow-up window stays open at most, in seconds.
pub const FOLLOW_UP_WINDOW_SECS: u64 = 30;

/// The state of a detector, as its contracts speak of it.
#[derive(Clone, Copy, Debug, PartialEq, Eq)]
pub struct ListeningState {
    /// The polling loop should keep running.
    pub wake_word_active: bool,
    /// A follow-up window is open.
    pub follow_up_active: bool,
    /// A polling loop exists (it may not yet have seen a stop request).
    pub loop_running: bool,
    /// The identifier of the most recently opened follow-up window.
    pub follow_up_window: u64,
}

impl ListeningState {
    /// A follow-up window only stays open while listening, and listening
    /// always has a loop behind it.
    pub open spec fn wf(self) -> bool {
        &&& (self.follow_up_active ==> self.wake_word_active)
        &&& (self.wake_word_active ==> self.loop_running)
    }
}

/// The state of a newly constructed detector.
pub open spec fn idle_state() -> ListeningState {
    ListeningState {
        wake_word_active: false,
        follow_up_active: false,
        loop_running: false,
        follow_up_window: 0,
    }
}

/// A start request spawns a loop only when not listening and no loop is left over.
pub open spec fn start_spawns(s: ListeningState) -> bool {
    !s.wake_word_active && !s.loop_running
}

/// The state after a start request. A loop that has not yet observed an
/// earlier stop simply keeps running.
pub open spec fn after_start(s: ListeningState) -> ListeningState {
    if s.wake_word_active {
        s
    } else {
        ListeningState { wake_word_active: true, loop_running: true, ..s }
    }
}

/// The state after a stop request: both flags cleared.
pub open spec fn after_stop(s: ListeningState) -> ListeningState {
    ListeningState { wake_word_active: false, follow_up_active: false, ..s }
}

/// The state after the loop checks, at the top of an iteration, whether to go on.
pub open spec fn after_poll(s: ListeningState) -> ListeningState {
    if s.wake_word_active {
        s
    } else {
        ListeningState { loop_running: false, ..s }
    }
}

/// The state after the loop failed to set up recognition and ended.
pub open spec fn after_setup_failure(s: ListeningState) -> ListeningState {
    ListeningState {
        wake_word_active: false,
        follow_up_active: false,
        loop_running: false,
        ..s
    }
}

/// The identifier that follows `w`, wrapping around.
pub open spec fn next_window(w: u64) -> u64 {
    if w == u64::MAX {
        0
    } else {
        (w + 1) as u64
    }
}

/// What the host must do after a phrase was recognized.
#[derive(Clone, Copy, Debug, PartialEq, Eq)]
pub struct WakeOutcome {
    /// The index to hand to the wake-word callback, if it is to be invoked.
    pub wake_word: Option<usize>,
    /// The follow-up window that was just opened, if any: the host starts
    /// follow-up recognition and a timer for this window.
    pub opened_window: Option<u64>,
}

/// The outcome in which the host does nothing.
pub open spec fn no_outcome() -> WakeOutcome {
    WakeOutcome { wake_word: None, opened_window: None }
}

/// The outcome of a recognized phrase, where `heard` says whether it holds
/// the wake phrase.
pub open spec fn phrase_outcome(s: ListeningState, heard: bool) -> WakeOutcome {
    if s.wake_word_active && heard {
        WakeOutcome {
            wake_word: Some(WAKE_PHRASE_INDEX),
            opened_window: if s.follow_up_active {
                None
            } else {
                Some(next_window(s.follow_up_window))
            },
        }
    } else {
        no_outcome()
    }
}

/// The state after a recognized phrase, where `heard` says whether it holds
/// the wake phrase.
pub open spec fn after_phrase(s: ListeningState, heard: bool) -> ListeningState {
    if s.wake_word_active && heard && !s.follow_up_active {
        ListeningState {
            follow_up_active: true,
            follow_up_window: next_window(s.follow_up_window),
            ..s
        }
    } else {
        s
    }
}

/// The state after a follow-up utterance, given in lower case.
pub open spec fn after_utterance(s: ListeningState, folded: Seq<char>) -> ListeningState {
    if names_stop_phrase(folded) {
        ListeningState { follow_up_active: false, ..s }
    } else {
        s
    }
}

/// The state after the window `w` ended (its timer elapsed, or its
/// recognition could not start). An older window's end changes nothing.
pub open spec fn after_window_end(s: ListeningState, w: u64) -> ListeningState {
    if w == s.follow_up_window {
        ListeningState { follow_up_active: false, ..s }
    } else {
        s
    }
}

/// A request that bears on the polling loop: start and stop from the host,
/// poll and setup failure from the loop itself.
pub enum LoopRequest {
    Start,
    Stop,
    Poll,
    SetupFailed,
}

/// The state after one request.
pub open spec fn apply_request(s: ListeningState, r: LoopRequest) -> ListeningState {
    match r {
        LoopRequest::Start => after_start(s),
        LoopRequest::Stop => after_stop(s),
        LoopRequest::Poll => after_poll(s),
        LoopRequest::SetupFailed => after_setup_failure(s),
    }
}

/// The request makes the host spawn a loop.
pub open spec fn loop_spawned(s: ListeningState, r: LoopRequest) -> bool {
    r is Start && start_spawns(s)
}

/// The request ends the loop that made it.
pub open spec fn loop_exited(s: ListeningState, r: LoopRequest) -> bool {
    match r {
        LoopRequest::Poll => !s.wake_word_active,
        LoopRequest::SetupFailed => true,
        _ => false,
    }
}

/// The state of a new detector after a sequence of requests.
pub open spec fn run_requests(reqs: Seq<LoopRequest>) -> ListeningState
    decreases reqs.len(),
{
    if reqs.len() == 0 {
        idle_state()
    } else {
        apply_request(run_requests(reqs.drop_last()), reqs.last())
    }
}

/// How many loops are alive after a sequence of requests: those spawned
/// less those that ended.
pub open spec fn live_loops(reqs: Seq<LoopRequest>) -> int
    decreases reqs.len(),
{
    if reqs.len() == 0 {
        0
    } else {
        let s = run_requests(reqs.drop_last());
        let r = reqs.last();
        live_loops(reqs.drop_last()) + (if loop_spawned(s, r) { 1int } else { 0int }) - (if loop_exited(s, r) { 1int } else { 0int })
    }
}

/// Each poll and each setup failure in the sequence comes from a loop
/// that is alive at that moment.
pub open spec fn made_by_live_loops(reqs: Seq<LoopRequest>) -> bool {
    forall|i: int|
        0 <= i < reqs.len() && (reqs[i] is Poll || reqs[i] is SetupFailed) ==> live_loops(
            #[trigger] reqs.subrange(0, i),
        ) > 0
}

/// However start and stop requests interleave with the loop's own polls
/// and failures, at most one polling loop is ever alive, and it is alive
/// exactly when the detector records one.
pub proof fn lemma_at_most_one_loop(reqs: Seq<LoopRequest>)
    requires
        made_by_live_loops(reqs),
    ensures
        0 <= live_loops(reqs) <= 1,
        live_loops(reqs) == (if run_requests(reqs).loop_running { 1int } else { 0int }),
        run_requests(reqs).wf(),
    decreases reqs.len(),
{
    if reqs.len() > 0 {
        let prefix = reqs.drop_last();
        assert forall|i: int|
            0 <= i < prefix.len() && (prefix[i] is Poll || prefix[i] is SetupFailed) implies live_loops(
            #[trigger] prefix.subrange(0, i),
        ) > 0 by {
            assert(prefix.subrange(0, i) =~= reqs.subrange(0, i));
            assert(reqs[i] == prefix[i]);
        }
        lemma_at_most_one_loop(prefix);
        assert(reqs.subrange(0, reqs.len() - 1) =~= prefix);
    }
}

/// A follow-up window, once open, is closed by an utterance holding a stop
/// phrase and by the end of its own timer, whichever comes first; what
/// comes second changes nothing. Other utterances leave it open, and a
/// wake phrase heard meanwhile neither reopens nor extends it.
pub proof fn lemma_follow_up_ends(s: ListeningState, folded: Seq<char>, heard: bool)
    requires
        s.wf(),
        s.follow_up_active,
    ensures
        names_stop_phrase(folded) ==> !after_utterance(s, folded).follow_up_active,
        !names_stop_phrase(folded) ==> after_utterance(s, folded) == s,
        !after_window_end(s, s.follow_up_window).follow_up_active,
        names_stop_phrase(folded) ==> after_window_end(after_utterance(s, folded), s.follow_up_window)
            == after_utterance(s, folded),
        after_utterance(after_window_end(s, s.follow_up_window), folded) == after_window_end(
            s,
            s.follow_up_window,
        ),
        after_phrase(s, heard) == s,
{
}

/// What one attempt of the polling loop to recognize speech produced.
pub enum Recognition {
    /// A phrase was recognized, with its text.
    Phrase(String),
    /// The wait ended without a result.
    Timeout,
    /// The engine reported an error; polling goes on.
    Failed,
}

/// The wake-word detector's listening state.
pub struct WakeWordDetector {
    state: ListeningState,
}

impl View for WakeWordDetector {
    type V = ListeningState;

    closed spec fn view(&self) -> ListeningState {
        self.state
    }
}

impl WakeWordDetector {
    #[verifier::type_invariant]
    spec fn inv(self) -> bool {
        self.state.wf()
    }

    /// A detector that is idle and has no loop.
    pub fn new() -> (r: Self)
        ensures
            r@ == idle_state(),
    {
        WakeWordDetector {
            state: ListeningState {
                wake_word_active: false,
                follow_up_active: false,
                loop_running: false,
                follow_up_window: 0,
            },
        }
    }

    /// The state as a plain value.
    pub fn state(&self) -> (r: ListeningState)
        ensures
            r == self@,
            r.wf(),
    {
        proof { use_type_invariant(self); }
        self.state
    }

    /// Whether the detector is listening for the wake phrase.
    pub fn is_listening(&self) -> (r: bool)
        ensures
            r == self@.wake_word_active,
    {
        self.state.wake_word_active
    }

    /// Whether a follow-up window is open.
    pub fn is_following_up(&self) -> (r: bool)
        ensures
            r == self@.follow_up_active,
    {
        self.state.follow_up_active
    }

    /// Starts listening. Returns whether the host must spawn a polling loop;
    /// when already listening nothing changes and no loop is spawned.
    pub fn start_listening(&mut self) -> (spawn: bool)
        ensures
            final(self)@ == after_start(old(self)@),
            spawn == start_spawns(old(self)@),
            old(self)@.wake_word_active ==> final(self)@ == old(self)@ && !spawn,
            final(self)@.wake_word_active,
            final(self)@.wf(),
    {
        proof { use_type_invariant(&*self); }
        if self.state.wake_word_active {
            return false;
        }
        let spawn = !self.state.loop_running;
        self.state = ListeningState { wake_word_active: true, loop_running: true, ..self.state };
        spawn
    }

    /// Stops listening: clears both flags. The loop ends on its next poll;
    /// the host also stops audio capture and follow-up recognition. When
    /// idle, nothing changes.
    pub fn stop_listening(&mut self)
        ensures
            final(self)@ == after_stop(old(self)@),
            !old(self)@.wake_word_active ==> final(self)@ == old(self)@,
            !final(self)@.wake_word_active,
            !final(self)@.follow_up_active,
            final(self)@.wf(),
    {
        proof { use_type_invariant(&*self); }
        self.state = ListeningState {
            wake_word_active: false,
            follow_up_active: false,
            ..self.state
        };
    }

    /// Called by the loop at the top of each iteration: whether to go on.
    /// When it returns `false` the loop is gone.
    pub fn keep_polling(&mut self) -> (go_on: bool)
        ensures
            go_on == old(self)@.wake_word_active,
            final(self)@ == after_poll(old(self)@),
            !go_on ==> !final(self)@.loop_running,
            final(self)@.wf(),
    {
        proof { use_type_invariant(&*self); }
        if self.state.wake_word_active {
            true
        } else {
            self.state.loop_running = false;
            false
        }
    }

    /// Called by the loop when recognition could not be set up; the loop
    /// then ends and the detector no longer listens.
    pub fn setup_failed(&mut self)
        ensures
            final(self)@ == after_setup_failure(old(self)@),
            final(self)@.wf(),
    {
        self.state = ListeningState {
            wake_word_active: false,
            follow_up_active: false,
            loop_running: false,
            ..self.state
        };
    }

    /// Handles a recognized phrase, already in lower case. While listening,
    /// a phrase holding the wake phrase fires the callback and, if no window
    /// is open, opens a follow-up window.
    pub fn on_phrase_folded(&mut self, folded: &str) -> (r: WakeOutcome)
        ensures
            r == phrase_outcome(old(self)@, contains_seq(folded@, WAKE_PHRASE@)),
            final(self)@ == after_phrase(old(self)@, contains_seq(folded@, WAKE_PHRASE@)),
            final(self)@.wf(),
    {
        let heard = is_wake_phrase_folded(folded);
        self.react_to_phrase(heard)
    }

    /// Handles what one recognition attempt produced. A timeout or an error
    /// changes nothing; a phrase is handled as by [`Self::on_phrase_folded`]
    /// on its lower-case form.
    pub fn on_recognition(&mut self, outcome: &Recognition) -> (r: WakeOutcome)
        ensures
            match outcome {
                Recognition::Phrase(text) => {
                    &&& r == phrase_outcome(old(self)@, contains_seq(lower_of(text@), WAKE_PHRASE@))
                    &&& final(self)@ == after_phrase(
                        old(self)@,
                        contains_seq(lower_of(text@), WAKE_PHRASE@),
                    )
                },
                _ => r == no_outcome() && final(self)@ == old(self)@,
            },
            final(self)@.wf(),
    {
        proof { use_type_invariant(&*self); }
        match outcome {
            Recognition::Phrase(text) => {
                let heard = is_wake_phrase(text.as_str());
                self.react_to_phrase(heard)
            },
            _ => WakeOutcome { wake_word: None, opened_window: None },
        }
    }

    fn react_to_phrase(&mut self, heard: bool) -> (r: WakeOutcome)
        ensures
            r == phrase_outcome(old(self)@, heard),
            final(self)@ == after_phrase(old(self)@, heard),
            final(self)@.wf(),
    {
        proof { use_type_invariant(&*self); }
        if !(self.state.wake_word_active && heard) {
            return WakeOutcome { wake_word: None, opened_window: None };
        }
        if self.state.follow_up_active {
            return WakeOutcome { wake_word: Some(WAKE_PHRASE_INDEX), opened_window: None };
        }
        let w = if self.state.follow_up_window == u64::MAX {
            0
        } else {
            self.state.follow_up_window + 1
        };
        self.state.follow_up_active = true;
        self.state.follow_up_window = w;
        WakeOutcome { wake_word: Some(WAKE_PHRASE_INDEX), opened_window: Some(w) }
    }

    /// Handles a follow-up utterance, already in lower case: one that holds
    /// a stop phrase closes the window. Returns whether it did.
    pub fn on_utterance_folded(&mut self, folded: &str) -> (stop: bool)
        ensures
            stop == names_stop_phrase(folded@),
            final(self)@ == after_utterance(old(self)@, folded@),
            final(self)@.wf(),
    {
        proof { use_type_invariant(&*self); }
        let stop = is_stop_command_folded(folded);
        if stop {
            self.state.follow_up_active = false;
        }
        stop
    }

    /// Handles a follow-up utterance in any letter case, as
    /// [`Self::on_utterance_folded`] does on its lower-case form.
    pub fn on_utterance(&mut self, text: &str) -> (stop: bool)
        ensures
            stop == names_stop_phrase(lower_of(text@)),
            final(self)@ == after_utterance(old(self)@, lower_of(text@)),
            final(self)@.wf(),
    {
        proof { use_type_invariant(&*self); }
        let stop = is_stop_command(text);
        if stop {
            self.state.follow_up_active = false;
        }
        stop
    }

    /// Ends the follow-up window `window`, because its timer elapsed or its
    /// recognition could not start. The end of an older window changes
    /// nothing. Returns whether an open window was closed.
    pub fn end_follow_up(&mut self, window: u64) -> (closed: bool)
        ensures
            closed == (old(self)@.follow_up_active && window == old(self)@.follow_up_window),
            final(self)@ == after_window_end(old(self)@, window),
            final(self)@.wf(),
    {
        proof { use_type_invariant(&*self); }
        if window == self.state.follow_up_window {
            let closed = self.state.follow_up_active;
            self.state.follow_up_active = false;
            closed
        } else {
            false
        }
    }
}

} // verus!
