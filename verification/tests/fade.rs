use tank_hud::color::{Color, COLOR_SCALE};
use tank_hud::hud::{
    fade_out_in_out, FadeDirection, FadeInOut, Hud, DEFAULT_FADE_MS, FADE_HOLD_MS,
};

fn black() -> Color {
    Color {
        r: 0,
        g: 0,
        b: 0,
        a: COLOR_SCALE,
    }
}

#[test]
fn fade_lifecycle_matches_requested_durations() {
    // request_fade(0.5s, 0.5s, black): 0.5s in, 0.5s hold, 0.5s out.
    let mut hud = Hud::default();
    hud.fade(500, 500, black());
    let f = hud.fade_in_out.expect("fade should start");
    assert_eq!(f.direction, FadeDirection::In);
    assert_eq!(f.elapsed_ms, 0);
    assert_eq!(f.time_in_ms, 500);
    assert_eq!(f.time_out_ms, 500);
    assert_eq!(f.time_in_between_ms, FADE_HOLD_MS);

    // After 0.5s the In phase completes: hold phase, alpha at full scale.
    fade_out_in_out(&mut hud, 500);
    let f = hud.fade_in_out.expect("fade still running");
    assert_eq!(f.direction, FadeDirection::InBetween);
    assert_eq!(f.elapsed_ms, 0);
    assert_eq!(hud.foreground.a, COLOR_SCALE);

    // After 1.0s total the hold completes: out phase, elapsed reset to 0.
    fade_out_in_out(&mut hud, 500);
    let f = hud.fade_in_out.expect("fade still running");
    assert_eq!(f.direction, FadeDirection::Out);
    assert_eq!(f.elapsed_ms, 0);
    assert_eq!(hud.foreground.a, COLOR_SCALE);

    // A further 0.5s completes the Out phase: the fade is cleared and the
    // last driven alpha is 0.
    fade_out_in_out(&mut hud, 500);
    assert!(hud.fade_in_out.is_none());
    assert_eq!(hud.foreground.a, 0);
    assert_eq!(hud.foreground.r, 0);
}

#[test]
fn fade_request_is_ignored_while_active() {
    let mut hud = Hud::default();
    hud.fade(500, 500, black());
    fade_out_in_out(&mut hud, 100);

    let white = Color {
        r: COLOR_SCALE,
        g: COLOR_SCALE,
        b: COLOR_SCALE,
        a: COLOR_SCALE,
    };
    hud.fade(100, 900, white);

    let f = hud.fade_in_out.expect("the first fade is still running");
    assert_eq!(f.base_color, black());
    assert_eq!(f.time_in_ms, 500);
    assert_eq!(f.time_out_ms, 500);
    assert_eq!(f.elapsed_ms, 100);
    assert_eq!(f.direction, FadeDirection::In);
}

#[test]
fn fade_keeps_the_requested_durations() {
    let mut hud = Hud::default();
    hud.fade(400, 600, black());
    let f = hud.fade_in_out.unwrap();
    assert_eq!(f.time_in_ms, 400);
    assert_eq!(f.time_out_ms, 600);
    assert_eq!(f.time_in_between_ms, FADE_HOLD_MS);
}

#[test]
fn zero_duration_phases_complete_immediately() {
    let mut hud = Hud::default();
    hud.fade(0, 0, black());
    let f = hud.fade_in_out.unwrap();
    assert_eq!(f.time_in_ms, 0);
    assert_eq!(f.time_out_ms, 0);

    // A zero-duration In phase completes on the very next frame, even one
    // with no elapsed time.
    fade_out_in_out(&mut hud, 0);
    let f = hud.fade_in_out.unwrap();
    assert_eq!(f.direction, FadeDirection::InBetween);
    assert_eq!(hud.foreground.a, COLOR_SCALE);

    // The hold still lasts its fixed duration.
    fade_out_in_out(&mut hud, FADE_HOLD_MS);
    let f = hud.fade_in_out.unwrap();
    assert_eq!(f.direction, FadeDirection::Out);

    // A zero-duration Out phase completes immediately and clears the fade.
    fade_out_in_out(&mut hud, 0);
    assert!(hud.fade_in_out.is_none());
    assert_eq!(hud.foreground.a, 0);
}

#[test]
fn alpha_is_elapsed_over_duration() {
    let base = FadeInOut::new(black(), 500, 400, FADE_HOLD_MS);
    assert_eq!(base.alpha(), 0);

    let mid_in = FadeInOut {
        elapsed_ms: 250,
        ..base
    };
    assert_eq!(mid_in.alpha(), 500);

    let held = FadeInOut {
        direction: FadeDirection::InBetween,
        elapsed_ms: 123,
        ..base
    };
    assert_eq!(held.alpha(), COLOR_SCALE);

    let mid_out = FadeInOut {
        direction: FadeDirection::Out,
        elapsed_ms: 100,
        ..base
    };
    assert_eq!(mid_out.alpha(), COLOR_SCALE - 100 * COLOR_SCALE / 400);
    assert_eq!(mid_out.alpha(), 750);
}

#[test]
fn overlay_keeps_external_value_once_cleared() {
    let mut hud = Hud::default();
    hud.fade(100, 100, black());
    fade_out_in_out(&mut hud, 100);
    fade_out_in_out(&mut hud, FADE_HOLD_MS);
    fade_out_in_out(&mut hud, 100);
    assert!(hud.fade_in_out.is_none());

    // With the fade cleared, the overlay keeps whatever is set externally.
    let external = Color {
        r: 100,
        g: 200,
        b: 300,
        a: 400,
    };
    hud.foreground = external;
    fade_out_in_out(&mut hud, 250);
    assert_eq!(hud.foreground, external);
    assert!(hud.fade_in_out.is_none());
}

#[test]
fn default_fade_is_half_a_second_of_black() {
    let mut hud = Hud::default();
    hud.start_default_fade();
    let f = hud.fade_in_out.unwrap();
    assert_eq!(f.base_color, black());
    assert_eq!(f.time_in_ms, DEFAULT_FADE_MS);
    assert_eq!(f.time_out_ms, DEFAULT_FADE_MS);
    assert_eq!(f.direction, FadeDirection::In);
}

#[test]
fn well_formedness_checks_match_the_invariant() {
    assert!(Color {
        r: 0,
        g: 0,
        b: 0,
        a: COLOR_SCALE
    }
    .is_wf());
    assert!(!Color {
        r: 0,
        g: 0,
        b: 0,
        a: COLOR_SCALE + 1
    }
    .is_wf());

    let hud = Hud::default();
    assert!(hud.is_wf());

    let good = FadeInOut::new(black(), 500, 500, FADE_HOLD_MS);
    assert!(good.is_wf());

    // An elapsed time past the current phase's duration breaks the invariant.
    let bad = FadeInOut {
        elapsed_ms: 501,
        ..good
    };
    assert!(!bad.is_wf());

    let mut hud = Hud::default();
    hud.fade_in_out = Some(bad);
    assert!(!hud.is_wf());
}

#[test]
fn default_hud_state() {
    let hud = Hud::default();
    assert_eq!(hud.console_text, "hahaha\nhhehehe\nheheiheihei\nheheaheahe\n");
    assert_eq!(hud.top_left_text, "");
    assert_eq!(hud.top_right_text, "");
    assert_eq!(hud.center_text, "");
    assert_eq!(hud.bottom_center_text, "");
    assert_eq!(
        hud.foreground,
        Color {
            r: COLOR_SCALE,
            g: COLOR_SCALE,
            b: COLOR_SCALE,
            a: 0
        }
    );
    assert!(hud.fade_in_out.is_none());
    assert!(!hud.show_console);
}

#[test]
fn clear_texts_empties_all_but_console() {
    let mut hud = Hud::default();
    hud.top_left_text = "a".to_string();
    hud.top_right_text = "b".to_string();
    hud.center_text = "c".to_string();
    hud.bottom_center_text = "d".to_string();
    let console_before = hud.console_text.clone();
    hud.clear_texts();
    assert_eq!(hud.top_left_text, "");
    assert_eq!(hud.top_right_text, "");
    assert_eq!(hud.center_text, "");
    assert_eq!(hud.bottom_center_text, "");
    assert_eq!(hud.console_text, console_before);
}
