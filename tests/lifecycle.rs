use text_sphere::clock::{AnimationClock, FALLBACK_DELTA_MICROS};
use text_sphere::lifecycle::{App, InitState, Viewport};

fn demo() -> Vec<char> {
    "DEMO".chars().collect()
}

#[test]
fn first_tick_uses_fallback_delta() {
    for start in [0u64, 1, 16_667, 5_000_000_000] {
        let mut clock = AnimationClock::new();
        assert_eq!(clock.tick(start), FALLBACK_DELTA_MICROS);
        assert_eq!(clock.tick(start + 33_000), 33_000);
    }
    assert_eq!(FALLBACK_DELTA_MICROS, 16_000);
}

#[test]
fn later_ticks_measure_elapsed_time() {
    let mut clock = AnimationClock::new();
    clock.tick(1_000_000);
    assert_eq!(clock.tick(1_016_500), 16_500);
    assert_eq!(clock.tick(1_050_000), 33_500);
    assert_eq!(clock.tick(1_040_000), -10_000);
    assert_eq!(clock.last_timestamp, Some(1_040_000));
}

#[test]
fn bootstrap_happens_once() {
    let mut app = App::new();
    let mut builds = 0;
    for t in 0..2u64 {
        let plan = app.tick(t * 16_000, true, false, &demo()).unwrap();
        if plan.build_scene {
            builds += 1;
            app.bootstrap_finished();
        }
    }
    assert_eq!(builds, 1);
    assert_eq!(app.state(), InitState::Bootstrapped);
}

#[test]
fn bootstrap_waits_for_engine() {
    let mut app = App::new();
    let plan = app.tick(0, false, true, &demo()).unwrap();
    assert!(!plan.build_scene);
    assert!(plan.glyphs.is_none());
    assert!(!plan.render);
    let plan = app.tick(16_000, true, false, &demo()).unwrap();
    assert!(plan.build_scene);
    assert!(plan.render);
}

#[test]
fn one_tick_builds_scene_then_glyphs_then_renders() {
    let mut app = App::new();
    let plan = app.tick(0, true, true, &demo()).unwrap();
    assert!(plan.build_scene);
    assert_eq!(plan.glyphs.as_ref().map(|g| g.len()), Some(4));
    assert!(plan.render);
    assert_eq!(app.state(), InitState::NotBootstrapped);
    app.bootstrap_finished();
    app.populate_finished();
    assert_eq!(app.state(), InitState::GlyphsPopulated);
}

#[test]
fn populate_happens_once() {
    let mut app = App::new();
    app.bootstrap_finished();
    let text: Vec<char> = "AB".chars().collect();
    let mut attached = 0;
    for t in 0..2u64 {
        let plan = app.tick(t * 16_000, true, true, &text).unwrap();
        assert!(!plan.build_scene);
        if let Some(specs) = plan.glyphs {
            attached += specs.len();
            app.populate_finished();
        }
    }
    assert_eq!(attached, 2);
    assert_eq!(app.state(), InitState::GlyphsPopulated);
}

#[test]
fn populate_before_bootstrap_does_nothing() {
    let mut app = App::new();
    let plan = app.tick(0, false, true, &demo()).unwrap();
    assert!(plan.glyphs.is_none());
    app.populate_finished();
    assert_eq!(app.state(), InitState::NotBootstrapped);
}

#[test]
fn populate_waits_for_font() {
    let mut app = App::new();
    app.bootstrap_finished();
    assert!(app.tick(0, true, false, &demo()).unwrap().glyphs.is_none());
    let plan = app.tick(16_000, true, true, &demo()).unwrap();
    assert_eq!(plan.glyphs.map(|g| g.len()), Some(4));
}

#[test]
fn resize_before_bootstrap_is_dropped() {
    let mut app = App::new();
    assert_eq!(app.resize_target(1600, 900), None);
    app.bootstrap_finished();
    let v = app.resize_target(1600, 900).unwrap();
    assert_eq!(v, Viewport { width: 1600, height: 900 });
    assert_eq!(v.width as f64 / v.height as f64, 1600.0 / 900.0);
}

#[test]
fn cancelled_app_stops_ticking() {
    let mut app = App::new();
    let plan = app.tick(10_000, false, false, &demo()).unwrap();
    assert_eq!(plan.delta_micros, FALLBACK_DELTA_MICROS);
    assert_eq!(app.tick(26_000, false, false, &demo()).unwrap().delta_micros, 16_000);
    assert!(!app.cancelled());
    app.cancel();
    assert!(app.cancelled());
    assert!(app.tick(42_000, true, true, &demo()).is_none());
    assert_eq!(app.last_timestamp(), Some(26_000));
    assert_eq!(app.state(), InitState::NotBootstrapped);
}
