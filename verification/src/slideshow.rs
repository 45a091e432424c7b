//! The slideshow controller: which picture is shown, since when, and when
//! the next one takes its place.
//!
//! The controller does no work outside itself. It is driven by events: a
//! tick of the render loop, the outcome of processing the first picture, the
//! result of a background job. Each step answers with what the caller has to
//! do: show a placeholder, process the current picture, present a new one,
//! start a background job for the one after.

use crate::metadata::ArtworkInfo;
use crate::pipeline::ProcessedImage;
use crate::scheduler::{
    completed, polled, request_dispatches, requested, taken, PrefetchScheduler, SchedulerView,
};
use vstd::prelude::*;

verus! {

/// How long a picture is shown where nothing else is asked for, in
/// milliseconds.
pub const DEFAULT_SLIDE_DURATION_MS: u64 = 10_000;

/// How long the caller may wait before the next tick, in milliseconds.
pub const REPAINT_INTERVAL_MS: u64 = 100;

/// Where the controller stands.
#[derive(Clone, Copy, Debug, PartialEq, Eq)]
pub enum Phase {
    /// There are no pictures.
    Empty,
    /// There are pictures, and none has been made ready yet.
    Bootstrapping,
    /// A picture is ready and its time is running.
    Displaying,
}

/// What happened outside the controller.
pub enum Event {
    /// The render loop came round.
    Tick,
    /// The picture at the current index was processed.
    CurrentReady(ProcessedImage),
    /// The picture at the current index could not be processed.
    CurrentUnavailable,
    /// The background job delivered its result.
    PrefetchCompleted(ProcessedImage),
}

/// What the caller has to do about the display.
#[derive(Clone, Copy, Debug, PartialEq, Eq)]
pub enum Action {
    /// Show that there are no pictures.
    ShowPlaceholder,
    /// Process the picture at `index` now and report the outcome.
    ProcessCurrent { index: usize },
    /// A new picture is current: present it.
    Present,
    /// Go on showing what is shown.
    Keep,
}

/// The controller's answer to one event.
#[derive(Clone, Copy, Debug, PartialEq, Eq)]
pub struct Step {
    /// What to do about the display.
    pub action: Action,
    /// The picture for which a background job has to be started, if any.
    pub dispatch: Option<usize>,
    /// Milliseconds within which the next tick is due, unless there is
    /// nothing to wait for.
    pub repaint_after_ms: Option<u64>,
}

/// The controller: the pictures in order, the one on display and the state
/// of the prefetch.
pub struct Slideshow {
    artworks: Vec<ArtworkInfo>,
    current_index: usize,
    current_processed: Option<ProcessedImage>,
    scheduler: PrefetchScheduler,
    last_change: u64,
    slide_duration: u64,
}

/// The state of a [`Slideshow`].
pub struct SlideshowView {
    /// Number of pictures.
    pub count: nat,
    /// Index of the picture on display, or about to be.
    pub current_index: nat,
    /// The picture on display, once it is ready.
    pub current: Option<ProcessedImage>,
    /// Flag and slot of the prefetch.
    pub prefetch: SchedulerView,
    /// When the picture on display took its place, in milliseconds.
    pub last_change: u64,
    /// How long a picture is shown, in milliseconds.
    pub slide_duration: u64,
}

/// The current index points at a picture, and without pictures nothing is
/// on display.
pub open spec fn well_formed(state: SlideshowView) -> bool {
    &&& state.count == 0 ==> state.current_index == 0 && state.current is None
    &&& state.count > 0 ==> state.current_index < state.count
    &&& state.count <= usize::MAX
}

/// Where a controller in this state stands.
pub open spec fn phase_of(state: SlideshowView) -> Phase {
    if state.count == 0 {
        Phase::Empty
    } else if state.current is None {
        Phase::Bootstrapping
    } else {
        Phase::Displaying
    }
}

/// The index after `index`, wrapping round at `count`.
pub open spec fn following(index: nat, count: nat) -> nat {
    if count == 0 {
        0
    } else {
        (index + 1) % count
    }
}

/// Milliseconds from `since` to `now`; none where the clock went backwards.
pub open spec fn elapsed(now: u64, since: u64) -> int {
    if now >= since {
        now - since
    } else {
        0
    }
}

/// Whether the picture on display has had its time.
pub open spec fn is_due(state: SlideshowView, now: u64) -> bool {
    elapsed(now, state.last_change) >= state.slide_duration
}

/// What is asked of the caller between events.
pub open spec fn repaint_of(state: SlideshowView) -> Option<u64> {
    if state.count == 0 {
        None
    } else {
        Some(REPAINT_INTERVAL_MS)
    }
}

/// An answer that changes nothing on the display and starts no job.
pub open spec fn quiet(state: SlideshowView, action: Action) -> Step {
    Step { action, dispatch: None, repaint_after_ms: repaint_of(state) }
}

/// A state with `picture` newly on display at `index` since `now`, and the
/// prefetch of the picture after it requested; with the answer to give.
pub open spec fn presented(
    state: SlideshowView,
    index: nat,
    picture: ProcessedImage,
    prefetch: SchedulerView,
    now: u64,
) -> (SlideshowView, Step) {
    (
        SlideshowView {
            count: state.count,
            current_index: index,
            current: Some(picture),
            prefetch: requested(prefetch, state.count),
            last_change: now,
            slide_duration: state.slide_duration,
        },
        Step {
            action: Action::Present,
            dispatch: if request_dispatches(prefetch, state.count) {
                Some(following(index, state.count) as usize)
            } else {
                None
            },
            repaint_after_ms: repaint_of(state),
        },
    )
}

/// The step on a tick of the render loop.
pub open spec fn tick_of(state: SlideshowView, now: u64) -> (SlideshowView, Step) {
    match phase_of(state) {
        Phase::Empty => (state, quiet(state, Action::ShowPlaceholder)),
        Phase::Bootstrapping => (
            state,
            quiet(state, Action::ProcessCurrent { index: state.current_index as usize }),
        ),
        Phase::Displaying => {
            let seen = polled(state.prefetch);
            if is_due(state, now) && seen.slot is Some {
                presented(
                    state,
                    following(state.current_index, state.count),
                    seen.slot->0,
                    taken(seen),
                    now,
                )
            } else {
                (
                    SlideshowView {
                        count: state.count,
                        current_index: state.current_index,
                        current: state.current,
                        prefetch: seen,
                        last_change: state.last_change,
                        slide_duration: state.slide_duration,
                    },
                    quiet(state, Action::Keep),
                )
            }
        },
    }
}

/// The state and the answer that follow from `state` on `event` at `now`.
///
/// - A tick without pictures asks for the placeholder; a tick before the
///   first picture is ready asks for it to be processed. A tick while a
///   picture is on display first looks whether the prefetch has landed;
///   if the picture has had its time and the next one is ready, the next one
///   takes its place, the clock starts anew and the one after is requested;
///   otherwise everything stays as it is, however long the wait.
/// - The first picture, once processed, goes on display, the clock starts,
///   and the one after is requested. If it could not be processed nothing
///   changes.
/// - The result of a background job goes into the slot.
pub open spec fn step_of(state: SlideshowView, now: u64, event: Event) -> (SlideshowView, Step) {
    match event {
        Event::Tick => tick_of(state, now),
        Event::CurrentReady(picture) => if phase_of(state) == Phase::Bootstrapping {
            presented(state, state.current_index, picture, state.prefetch, now)
        } else {
            (state, quiet(state, Action::Keep))
        },
        Event::CurrentUnavailable => (state, quiet(state, Action::Keep)),
        Event::PrefetchCompleted(picture) => (
            SlideshowView {
                count: state.count,
                current_index: state.current_index,
                current: state.current,
                prefetch: completed(state.prefetch, picture),
                last_change: state.last_change,
                slide_duration: state.slide_duration,
            },
            quiet(state, Action::Keep),
        ),
    }
}

/// Every step leaves the current index pointing at a picture, and changes
/// neither the number of pictures nor the time each is shown.
pub proof fn lemma_step_keeps_well_formed(state: SlideshowView, now: u64, event: Event)
    requires
        well_formed(state),
    ensures
        well_formed(step_of(state, now, event).0),
        step_of(state, now, event).0.count == state.count,
        step_of(state, now, event).0.slide_duration == state.slide_duration,
{
    if state.count > 0 {
        vstd::arithmetic::div_mod::lemma_mod_bound(
            (state.current_index + 1) as int,
            state.count as int,
        );
    }
}

/// Whatever the caller is asked to work on exists: the picture to process
/// now and the picture to process in the background both lie within the
/// list.
pub proof fn lemma_indices_in_range(state: SlideshowView, now: u64, event: Event)
    requires
        well_formed(state),
    ensures
        step_of(state, now, event).1.action matches Action::ProcessCurrent { index } ==> index
            < state.count,
        step_of(state, now, event).1.dispatch matches Some(index) ==> index < state.count,
{
    if state.count > 0 {
        let next = step_of(state, now, event).0;
        lemma_step_keeps_well_formed(state, now, event);
        vstd::arithmetic::div_mod::lemma_mod_bound(
            (next.current_index + 1) as int,
            state.count as int,
        );
    }
}

/// A slideshow without pictures stays without, one with a picture on display
/// keeps one on display, and the first picture goes on display only when it
/// is reported ready.
pub proof fn lemma_phases_move_forward(state: SlideshowView, now: u64, event: Event)
    ensures
        phase_of(state) == Phase::Empty <==> phase_of(step_of(state, now, event).0)
            == Phase::Empty,
        phase_of(state) == Phase::Displaying ==> phase_of(step_of(state, now, event).0)
            == Phase::Displaying,
        phase_of(state) == Phase::Bootstrapping ==> (phase_of(step_of(state, now, event).0)
            == Phase::Displaying <==> event is CurrentReady),
{
}

/// While a job is in flight and its result has not landed, no event starts
/// another, and only the job's own result changes the state of the prefetch.
pub proof fn lemma_one_job_at_a_time(state: SlideshowView, now: u64, event: Event)
    requires
        state.prefetch.in_flight,
        state.prefetch.slot is None,
    ensures
        step_of(state, now, event).1.dispatch is None,
        !(event is PrefetchCompleted) ==> step_of(state, now, event).0.prefetch == state.prefetch,
        step_of(state, now, event).0.prefetch.in_flight,
{
}

/// A job is started only for the picture after the current one, only when
/// no job was in flight, and it is in flight from then on.
pub proof fn lemma_dispatch_is_recorded(state: SlideshowView, now: u64, event: Event)
    ensures
        step_of(state, now, event).1.dispatch is Some ==> {
            &&& state.count > 1
            &&& !polled(state.prefetch).in_flight
            &&& step_of(state, now, event).0.prefetch.in_flight
            &&& step_of(state, now, event).1.action == Action::Present
            &&& step_of(state, now, event).1.dispatch == Some(
                following(step_of(state, now, event).0.current_index, state.count) as usize,
            )
        },
{
}

/// With no more than one picture no job is ever started and the index stays
/// at the first picture.
pub proof fn lemma_single_picture_never_prefetches(state: SlideshowView, now: u64, event: Event)
    requires
        well_formed(state),
        state.count <= 1,
    ensures
        step_of(state, now, event).1.dispatch is None,
        step_of(state, now, event).0.current_index == 0,
{
    if state.count == 1 {
        vstd::arithmetic::div_mod::lemma_mod_bound((state.current_index + 1) as int, 1);
    }
}

/// On a tick the slideshow advances exactly when a picture is on display,
/// its time is up and the next one waits in the slot. Then the next picture
/// is moved out of the slot onto the display and the clock starts anew.
/// Otherwise the index, the picture on display, the clock and the slot all
/// stay as they are and no job is started: a picture whose successor is not
/// ready is held past its time, it is never skipped.
pub proof fn lemma_advance_is_gated(state: SlideshowView, now: u64)
    ensures
        ({
            let (next, step) = step_of(state, now, Event::Tick);
            if phase_of(state) == Phase::Displaying && is_due(state, now) && state.prefetch.slot
                is Some {
                &&& next.current_index == following(state.current_index, state.count)
                &&& next.current == state.prefetch.slot
                &&& next.prefetch.slot is None
                &&& next.last_change == now
                &&& step.action == Action::Present
            } else {
                &&& next.current_index == state.current_index
                &&& next.current == state.current
                &&& next.prefetch.slot == state.prefetch.slot
                &&& next.last_change == state.last_change
                &&& step.dispatch is None
                &&& step.action != Action::Present
            }
        }),
{
}

/// The clock is reset only when a picture newly goes on display, and the
/// index moves only on a tick.
pub proof fn lemma_clock_resets_on_present(state: SlideshowView, now: u64, event: Event)
    ensures
        step_of(state, now, event).1.action != Action::Present ==> step_of(
            state,
            now,
            event,
        ).0.last_change == state.last_change && step_of(state, now, event).0.current
            == state.current,
        step_of(state, now, event).1.action == Action::Present ==> step_of(
            state,
            now,
            event,
        ).0.last_change == now && step_of(state, now, event).0.current is Some,
        !(event is Tick) ==> step_of(state, now, event).0.current_index == state.current_index,
{
}

impl View for Slideshow {
    type V = SlideshowView;

    closed spec fn view(&self) -> SlideshowView {
        SlideshowView {
            count: self.artworks@.len(),
            current_index: self.current_index as nat,
            current: self.current_processed,
            prefetch: self.scheduler@,
            last_change: self.last_change,
            slide_duration: self.slide_duration,
        }
    }
}

/// Milliseconds from `since` to `now`.
fn elapsed_ms(now: u64, since: u64) -> (out: u64)
    ensures
        out == elapsed(now, since),
{
    if now >= since {
        now - since
    } else {
        0
    }
}

/// The index after `index`, wrapping round at `count`.
fn index_after(index: usize, count: usize) -> (out: usize)
    requires
        index < count,
    ensures
        out == following(index as nat, count as nat),
        out < count,
{
    (index + 1) % count
}

impl Slideshow {
    #[verifier::type_invariant]
    spec fn inv(self) -> bool {
        well_formed(self@)
    }

    /// The pictures, in the order in which they are shown.
    pub closed spec fn spec_artworks(&self) -> Seq<ArtworkInfo> {
        self.artworks@
    }

    /// A slideshow over `artworks` that shows each for `slide_duration_ms`
    /// milliseconds. It starts at the first picture with nothing on display,
    /// no job under way, and the clock at `now`.
    pub fn new(artworks: Vec<ArtworkInfo>, slide_duration_ms: u64, now: u64) -> (out: Self)
        ensures
            out.spec_artworks() == artworks@,
            out@ == (SlideshowView {
                count: artworks@.len(),
                current_index: 0,
                current: None,
                prefetch: SchedulerView { in_flight: false, slot: None },
                last_change: now,
                slide_duration: slide_duration_ms,
            }),
            well_formed(out@),
    {
        let scheduler: PrefetchScheduler = PrefetchScheduler::new();
        let count: usize = artworks.len();
        assert(artworks@.len() == count <= usize::MAX);
        Slideshow {
            artworks,
            current_index: 0,
            current_processed: None,
            scheduler,
            last_change: now,
            slide_duration: slide_duration_ms,
        }
    }

    /// Takes one event and answers with what the caller has to do.
    pub fn step(&mut self, now: u64, event: Event) -> (out: Step)
        ensures
            (final(self)@, out) == step_of(old(self)@, now, event),
            final(self).spec_artworks() == old(self).spec_artworks(),
            well_formed(final(self)@),
    {
        proof {
            use_type_invariant(&*self);
        }
        match event {
            Event::Tick => self.tick(now),
            Event::CurrentReady(picture) => {
                if self.artworks.len() > 0 && self.current_processed.is_none() {
                    let index: usize = self.current_index;
                    self.present(index, picture, now)
                } else {
                    self.quiet_step(Action::Keep)
                }
            },
            Event::CurrentUnavailable => self.quiet_step(Action::Keep),
            Event::PrefetchCompleted(picture) => {
                let out: Step = self.quiet_step(Action::Keep);
                self.scheduler.complete(picture);
                out
            },
        }
    }

    /// The answer that leaves everything as it is.
    fn quiet_step(&self, action: Action) -> (out: Step)
        ensures
            out == quiet(self@, action),
    {
        Step {
            action,
            dispatch: None,
            repaint_after_ms: if self.artworks.len() == 0 {
                None
            } else {
                Some(REPAINT_INTERVAL_MS)
            },
        }
    }

    /// Puts `picture` on display at `index` and requests the one after.
    fn present(&mut self, index: usize, picture: ProcessedImage, now: u64) -> (out: Step)
        requires
            index < old(self)@.count,
        ensures
            (final(self)@, out) == presented(
                old(self)@,
                index as nat,
                picture,
                old(self)@.prefetch,
                now,
            ),
            final(self).spec_artworks() == old(self).spec_artworks(),
            well_formed(final(self)@),
    {
        let count: usize = self.artworks.len();
        let next: usize = index_after(index, count);
        self.current_index = index;
        self.current_processed = Some(picture);
        self.last_change = now;
        let dispatch: Option<usize> = self.scheduler.request_prefetch(next, count);
        Step { action: Action::Present, dispatch, repaint_after_ms: Some(REPAINT_INTERVAL_MS) }
    }

    /// The step on a tick of the render loop: what [`Slideshow::step`] does
    /// on [`Event::Tick`].
    pub fn tick(&mut self, now: u64) -> (out: Step)
        ensures
            (final(self)@, out) == tick_of(old(self)@, now),
            final(self).spec_artworks() == old(self).spec_artworks(),
            well_formed(final(self)@),
    {
        proof {
            use_type_invariant(&*self);
        }
        let count: usize = self.artworks.len();
        if count == 0 {
            return self.quiet_step(Action::ShowPlaceholder);
        }
        if self.current_processed.is_none() {
            return self.quiet_step(Action::ProcessCurrent { index: self.current_index });
        }
        self.scheduler.poll();
        let due: bool = elapsed_ms(now, self.last_change) >= self.slide_duration;
        if due && self.scheduler.is_ready() {
            let next: usize = index_after(self.current_index, count);
            match self.scheduler.take_if_ready() {
                Some(picture) => self.present(next, picture, now),
                None => self.quiet_step(Action::Keep),
            }
        } else {
            self.quiet_step(Action::Keep)
        }
    }

    /// Where the controller stands.
    pub fn phase(&self) -> (out: Phase)
        ensures
            out == phase_of(self@),
    {
        if self.artworks.len() == 0 {
            Phase::Empty
        } else if self.current_processed.is_none() {
            Phase::Bootstrapping
        } else {
            Phase::Displaying
        }
    }

    /// Index of the picture on display, or of the one to display first.
    pub fn current_index(&self) -> (out: usize)
        ensures
            out == self@.current_index,
            self@.count > 0 ==> out < self@.count,
    {
        proof {
            use_type_invariant(self);
        }
        self.current_index
    }

    /// The picture on display, once there is one.
    pub fn current(&self) -> (out: Option<&ProcessedImage>)
        ensures
            out is Some <==> self@.current is Some,
            out matches Some(picture) ==> Some(*picture) == self@.current,
    {
        self.current_processed.as_ref()
    }

    /// The pictures, in the order in which they are shown.
    pub fn artworks(&self) -> (out: &Vec<ArtworkInfo>)
        ensures
            out@ == self.spec_artworks(),
            out@.len() == self@.count,
    {
        &self.artworks
    }

    /// Whether a background job has been started whose result has not been
    /// seen.
    pub fn is_prefetch_in_flight(&self) -> (out: bool)
        ensures
            out == self@.prefetch.in_flight,
    {
        self.scheduler.is_in_flight()
    }

    /// Whether the next picture waits in the slot.
    pub fn is_prefetch_ready(&self) -> (out: bool)
        ensures
            out == self@.prefetch.slot is Some,
    {
        self.scheduler.is_ready()
    }

    /// When the picture on display took its place, in milliseconds.
    pub fn last_change(&self) -> (out: u64)
        ensures
            out == self@.last_change,
    {
        self.last_change
    }

    /// How long a picture is shown, in milliseconds.
    pub fn slide_duration(&self) -> (out: u64)
        ensures
            out == self@.slide_duration,
    {
        self.slide_duration
    }
}

} // verus!
