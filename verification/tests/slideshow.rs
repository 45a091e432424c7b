use art_slideshow::metadata::{ArtworkInfo, ArtworkMetadata};
use art_slideshow::pipeline::ProcessedImage;
use art_slideshow::raster::Raster;
use art_slideshow::slideshow::{
    Action, Event, Phase, Slideshow, Step, DEFAULT_SLIDE_DURATION_MS, REPAINT_INTERVAL_MS,
};

fn artwork(name: &str) -> ArtworkInfo {
    ArtworkInfo {
        path: format!("/gallery/{}.png", name),
        metadata: ArtworkMetadata {
            title: name.to_string(),
            artist: "Unknown".to_string(),
            year: "Unknown".to_string(),
        },
    }
}

fn processed(name: &str) -> ProcessedImage {
    let tag = name.as_bytes()[0];
    ProcessedImage {
        main_image: Raster::new(1, 1, vec![tag, tag, tag, 255]).unwrap(),
        blurred_image: Raster::new(1, 1, vec![tag / 2, tag / 2, tag / 2, 255]).unwrap(),
        metadata: ArtworkMetadata {
            title: name.to_string(),
            artist: "Unknown".to_string(),
            year: "Unknown".to_string(),
        },
    }
}

fn gallery(names: &[&str]) -> Slideshow {
    Slideshow::new(names.iter().map(|name| artwork(name)).collect(), 10_000, 0)
}

fn current_title(show: &Slideshow) -> Option<String> {
    show.current().map(|picture| picture.metadata.title.clone())
}

fn keep() -> Step {
    Step { action: Action::Keep, dispatch: None, repaint_after_ms: Some(100) }
}

/// Brings a gallery of A, B, C to the point where A is on display since
/// time 0 and the job for B is in flight.
fn showing_a() -> Slideshow {
    let mut show = gallery(&["A", "B", "C"]);
    show.step(0, Event::Tick);
    show.step(0, Event::CurrentReady(processed("A")));
    show
}

#[test]
fn documented_defaults() {
    assert_eq!(DEFAULT_SLIDE_DURATION_MS, 10_000);
    assert_eq!(REPAINT_INTERVAL_MS, 100);
}

#[test]
fn new_slideshow_starts_bootstrapping() {
    let show = gallery(&["A", "B", "C"]);
    assert_eq!(show.phase(), Phase::Bootstrapping);
    assert_eq!(show.current_index(), 0);
    assert!(show.current().is_none());
    assert!(!show.is_prefetch_in_flight());
    assert!(!show.is_prefetch_ready());
    assert_eq!(show.artworks().len(), 3);
    assert_eq!(show.artworks()[1].metadata.title, "B");
    assert_eq!(show.slide_duration(), 10_000);
    assert_eq!(show.last_change(), 0);
}

#[test]
fn scenario_first_tick_bootstraps() {
    let mut show = gallery(&["A", "B", "C"]);
    assert_eq!(show.phase(), Phase::Bootstrapping);
    let asked = show.step(0, Event::Tick);
    assert_eq!(
        asked,
        Step {
            action: Action::ProcessCurrent { index: 0 },
            dispatch: None,
            repaint_after_ms: Some(100),
        }
    );
    let shown = show.step(0, Event::CurrentReady(processed("A")));
    assert_eq!(
        shown,
        Step { action: Action::Present, dispatch: Some(1), repaint_after_ms: Some(100) }
    );
    assert_eq!(show.phase(), Phase::Displaying);
    assert_eq!(show.current_index(), 0);
    assert_eq!(current_title(&show), Some("A".to_string()));
    assert!(show.is_prefetch_in_flight());
    assert!(!show.is_prefetch_ready());
    assert_eq!(show.last_change(), 0);
}

#[test]
fn scenario_tick_before_the_time_is_up_changes_nothing() {
    let mut show = showing_a();
    show.step(3_000, Event::PrefetchCompleted(processed("B")));
    let step = show.step(5_000, Event::Tick);
    assert_eq!(step, keep());
    assert_eq!(show.current_index(), 0);
    assert_eq!(current_title(&show), Some("A".to_string()));
    assert_eq!(show.last_change(), 0);
    assert!(show.is_prefetch_ready());
    assert!(!show.is_prefetch_in_flight());
}

#[test]
fn scenario_tick_when_due_and_ready_advances() {
    let mut show = showing_a();
    show.step(3_000, Event::PrefetchCompleted(processed("B")));
    show.step(5_000, Event::Tick);
    let step = show.step(10_000, Event::Tick);
    assert_eq!(
        step,
        Step { action: Action::Present, dispatch: Some(2), repaint_after_ms: Some(100) }
    );
    assert_eq!(show.current_index(), 1);
    assert_eq!(current_title(&show), Some("B".to_string()));
    assert!(show.is_prefetch_in_flight());
    assert!(!show.is_prefetch_ready());
    assert_eq!(show.last_change(), 10_000);
}

#[test]
fn scenario_tick_when_due_but_not_ready_holds() {
    let mut show = showing_a();
    for now in [10_000u64, 10_100, 10_200, 25_000].iter() {
        let step = show.step(*now, Event::Tick);
        assert_eq!(step, keep());
        assert_eq!(show.current_index(), 0);
        assert_eq!(current_title(&show), Some("A".to_string()));
        assert_eq!(show.last_change(), 0);
        assert!(show.is_prefetch_in_flight());
    }
    show.step(25_050, Event::PrefetchCompleted(processed("B")));
    let step = show.step(25_100, Event::Tick);
    assert_eq!(step.action, Action::Present);
    assert_eq!(step.dispatch, Some(2));
    assert_eq!(show.current_index(), 1);
    assert_eq!(current_title(&show), Some("B".to_string()));
    assert_eq!(show.last_change(), 25_100);
}

#[test]
fn scenario_single_artwork_never_prefetches() {
    let mut show = gallery(&["A"]);
    assert_eq!(show.step(0, Event::Tick).action, Action::ProcessCurrent { index: 0 });
    let shown = show.step(0, Event::CurrentReady(processed("A")));
    assert_eq!(
        shown,
        Step { action: Action::Present, dispatch: None, repaint_after_ms: Some(100) }
    );
    assert!(!show.is_prefetch_in_flight());
    for tick in 1u64..50 {
        let step = show.step(tick * 1_000, Event::Tick);
        assert_eq!(step, keep());
        assert_eq!(show.current_index(), 0);
        assert!(!show.is_prefetch_in_flight());
        assert_eq!(current_title(&show), Some("A".to_string()));
    }
}

#[test]
fn index_wraps_round_after_the_last_picture() {
    let mut show = showing_a();
    show.step(1, Event::PrefetchCompleted(processed("B")));
    assert_eq!(show.step(10_000, Event::Tick).dispatch, Some(2));
    show.step(10_001, Event::PrefetchCompleted(processed("C")));
    assert_eq!(show.step(20_000, Event::Tick).dispatch, Some(0));
    assert_eq!(show.current_index(), 2);
    assert_eq!(current_title(&show), Some("C".to_string()));
    show.step(20_001, Event::PrefetchCompleted(processed("A")));
    assert_eq!(show.step(30_000, Event::Tick).dispatch, Some(1));
    assert_eq!(show.current_index(), 0);
    assert_eq!(current_title(&show), Some("A".to_string()));
}

#[test]
fn two_pictures_alternate() {
    let mut show = gallery(&["A", "B"]);
    show.step(0, Event::Tick);
    assert_eq!(show.step(0, Event::CurrentReady(processed("A"))).dispatch, Some(1));
    show.step(1, Event::PrefetchCompleted(processed("B")));
    assert_eq!(show.step(10_000, Event::Tick).dispatch, Some(0));
    assert_eq!(show.current_index(), 1);
    show.step(10_001, Event::PrefetchCompleted(processed("A")));
    assert_eq!(show.step(20_000, Event::Tick).dispatch, Some(1));
    assert_eq!(show.current_index(), 0);
}

#[test]
fn the_time_is_measured_from_the_last_change() {
    let mut show = showing_a();
    show.step(1, Event::PrefetchCompleted(processed("B")));
    show.step(12_345, Event::Tick);
    assert_eq!(show.current_index(), 1);
    assert_eq!(show.last_change(), 12_345);
    show.step(12_346, Event::PrefetchCompleted(processed("C")));
    assert_eq!(show.step(22_344, Event::Tick), keep());
    assert_eq!(show.current_index(), 1);
    assert_eq!(show.step(22_345, Event::Tick).action, Action::Present);
    assert_eq!(show.current_index(), 2);
}

#[test]
fn one_millisecond_short_is_not_due() {
    let mut show = showing_a();
    show.step(1, Event::PrefetchCompleted(processed("B")));
    assert_eq!(show.step(9_999, Event::Tick), keep());
    assert_eq!(show.current_index(), 0);
}

#[test]
fn a_clock_that_runs_backwards_counts_as_no_time() {
    let mut show = Slideshow::new(vec![artwork("A"), artwork("B")], 10_000, 50_000);
    show.step(50_000, Event::Tick);
    show.step(50_000, Event::CurrentReady(processed("A")));
    show.step(50_001, Event::PrefetchCompleted(processed("B")));
    assert_eq!(show.step(10, Event::Tick), keep());
    assert_eq!(show.current_index(), 0);
    assert_eq!(show.last_change(), 50_000);
}

#[test]
fn zero_duration_advances_as_soon_as_the_next_is_ready() {
    let mut show = Slideshow::new(vec![artwork("A"), artwork("B")], 0, 0);
    show.step(0, Event::Tick);
    show.step(0, Event::CurrentReady(processed("A")));
    assert_eq!(show.step(0, Event::Tick), keep());
    show.step(0, Event::PrefetchCompleted(processed("B")));
    assert_eq!(show.step(0, Event::Tick).action, Action::Present);
    assert_eq!(show.current_index(), 1);
}

#[test]
fn bootstrap_resets_the_clock() {
    let mut show = gallery(&["A", "B"]);
    show.step(7_000, Event::Tick);
    show.step(7_500, Event::CurrentReady(processed("A")));
    assert_eq!(show.last_change(), 7_500);
    show.step(7_600, Event::PrefetchCompleted(processed("B")));
    assert_eq!(show.step(17_499, Event::Tick), keep());
    assert_eq!(show.step(17_500, Event::Tick).action, Action::Present);
}

#[test]
fn empty_slideshow_shows_the_placeholder_forever() {
    let mut show = Slideshow::new(Vec::new(), 10_000, 0);
    assert_eq!(show.phase(), Phase::Empty);
    for tick in 0u64..5 {
        let step = show.step(tick * 100_000, Event::Tick);
        assert_eq!(
            step,
            Step { action: Action::ShowPlaceholder, dispatch: None, repaint_after_ms: None }
        );
        assert_eq!(show.phase(), Phase::Empty);
        assert_eq!(show.current_index(), 0);
        assert!(show.current().is_none());
    }
}

#[test]
fn empty_slideshow_ignores_a_processed_picture() {
    let mut show = Slideshow::new(Vec::new(), 10_000, 0);
    let step = show.step(0, Event::CurrentReady(processed("A")));
    assert_eq!(step, Step { action: Action::Keep, dispatch: None, repaint_after_ms: None });
    assert_eq!(show.phase(), Phase::Empty);
    assert!(show.current().is_none());
}

#[test]
fn unavailable_current_picture_changes_nothing() {
    let mut show = gallery(&["A", "B", "C"]);
    assert_eq!(show.step(0, Event::Tick).action, Action::ProcessCurrent { index: 0 });
    assert_eq!(show.step(0, Event::CurrentUnavailable), keep());
    assert_eq!(show.phase(), Phase::Bootstrapping);
    assert_eq!(show.current_index(), 0);
    assert!(show.current().is_none());
    assert!(!show.is_prefetch_in_flight());
    assert_eq!(show.last_change(), 0);
    // the next tick asks again
    assert_eq!(show.step(100, Event::Tick).action, Action::ProcessCurrent { index: 0 });
}

#[test]
fn bootstrapping_does_not_advance_even_when_due() {
    let mut show = gallery(&["A", "B", "C"]);
    show.step(0, Event::CurrentUnavailable);
    show.step(1, Event::PrefetchCompleted(processed("B")));
    let step = show.step(60_000, Event::Tick);
    assert_eq!(step.action, Action::ProcessCurrent { index: 0 });
    assert_eq!(step.dispatch, None);
    assert_eq!(show.current_index(), 0);
    assert!(show.current().is_none());
}

#[test]
fn a_second_processed_current_picture_is_ignored() {
    let mut show = showing_a();
    let step = show.step(5, Event::CurrentReady(processed("Z")));
    assert_eq!(step, keep());
    assert_eq!(current_title(&show), Some("A".to_string()));
    assert_eq!(show.last_change(), 0);
    assert!(show.is_prefetch_in_flight());
}

#[test]
fn prefetch_result_waits_in_the_slot_until_the_tick() {
    let mut show = showing_a();
    let step = show.step(10_500, Event::PrefetchCompleted(processed("B")));
    assert_eq!(step, keep());
    assert_eq!(show.current_index(), 0);
    assert!(show.is_prefetch_ready());
    assert!(show.is_prefetch_in_flight());
    assert_eq!(show.step(10_600, Event::Tick).action, Action::Present);
    assert_eq!(show.current_index(), 1);
}

#[test]
fn a_later_prefetch_result_overwrites_an_earlier_one() {
    let mut show = showing_a();
    show.step(1, Event::PrefetchCompleted(processed("B")));
    show.step(2, Event::PrefetchCompleted(processed("X")));
    show.step(10_000, Event::Tick);
    assert_eq!(current_title(&show), Some("X".to_string()));
}

#[test]
fn no_second_job_while_one_is_in_flight() {
    let mut show = showing_a();
    let mut started = Vec::new();
    for tick in 0u64..300 {
        if let Some(index) = show.step(tick * 100, Event::Tick).dispatch {
            started.push(index);
        }
        assert!(show.is_prefetch_in_flight());
    }
    assert!(started.is_empty());
    assert_eq!(show.current_index(), 0);
}

#[test]
fn every_advance_starts_exactly_one_job() {
    let names = ["A", "B", "C", "D"];
    let mut show = gallery(&names);
    let mut started: Vec<usize> = Vec::new();
    let mut now = 0u64;
    show.step(now, Event::Tick);
    if let Some(index) = show.step(now, Event::CurrentReady(processed("A"))).dispatch {
        started.push(index);
    }
    for round in 0..9 {
        let job = *started.last().unwrap();
        assert_eq!(started.len(), round + 1);
        show.step(now + 1, Event::PrefetchCompleted(processed(names[job])));
        for tick in 1..=100u64 {
            if let Some(index) = show.step(now + tick * 100, Event::Tick).dispatch {
                started.push(index);
            }
        }
        now += 10_000;
        assert_eq!(show.current_index(), job);
        assert_eq!(current_title(&show), Some(names[job].to_string()));
    }
    assert_eq!(started, vec![1, 2, 3, 0, 1, 2, 3, 0, 1, 2]);
}

#[test]
fn artworks_are_kept_in_order() {
    let mut show = showing_a();
    show.step(1, Event::PrefetchCompleted(processed("B")));
    show.step(10_000, Event::Tick);
    let titles: Vec<String> =
        show.artworks().iter().map(|info| info.metadata.title.clone()).collect();
    assert_eq!(titles, vec!["A", "B", "C"]);
    assert_eq!(show.artworks()[0].path, "/gallery/A.png");
}

#[test]
fn tick_is_the_step_on_a_tick_event() {
    let mut by_step = showing_a();
    let mut by_tick = showing_a();
    by_step.step(1, Event::PrefetchCompleted(processed("B")));
    by_tick.step(1, Event::PrefetchCompleted(processed("B")));
    for now in [0u64, 5_000, 9_999, 10_000, 10_001, 30_000].iter() {
        assert_eq!(by_tick.tick(*now), by_step.step(*now, Event::Tick));
        assert_eq!(by_tick.current_index(), by_step.current_index());
        assert_eq!(by_tick.last_change(), by_step.last_change());
        assert_eq!(by_tick.is_prefetch_in_flight(), by_step.is_prefetch_in_flight());
        assert_eq!(current_title(&by_tick), current_title(&by_step));
    }
    assert_eq!(by_tick.current_index(), 1);
}
