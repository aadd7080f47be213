use tank_hud::color::{Color, COLOR_SCALE};
use tank_hud::display::HudElement;
use tank_hud::hud::{FadeDirection, Hud};
use tank_hud::layout::{hud_layout, NodeKind};
use tank_hud::splash::{
    hide_splash, show_splash, update, AppState, StateTransition, SPLASH_TRANSITION_MS,
};

#[test]
fn show_splash_fills_title_slots() {
    let mut hud = Hud::default();
    show_splash(&mut hud);
    assert_eq!(hud.center_text, "Some Tank Game!\nBy Horup");
    assert_eq!(hud.top_right_text, "build date 2021-10-10");
    assert_eq!(hud.top_left_text, "v1.0");
    assert_eq!(hud.bottom_center_text, "");
}

#[test]
fn hide_splash_clears_title_slots() {
    let mut hud = Hud::default();
    show_splash(&mut hud);
    hide_splash(&mut hud);
    assert_eq!(hud.center_text, "");
    assert_eq!(hud.top_right_text, "");
    assert_eq!(hud.top_left_text, "");
    assert_eq!(hud.bottom_center_text, "");
}

#[test]
fn splash_click_requests_delayed_transition_and_fade() {
    let mut hud = Hud::default();
    show_splash(&mut hud);

    let transition = update(true, &mut hud);
    assert_eq!(
        transition,
        Some(StateTransition {
            state: AppState::InGame,
            delay_ms: SPLASH_TRANSITION_MS
        })
    );
    let f = hud.fade_in_out.expect("the click starts a fade");
    assert_eq!(f.direction, FadeDirection::In);
    assert_eq!(f.time_in_ms, SPLASH_TRANSITION_MS);
    assert_eq!(f.time_out_ms, SPLASH_TRANSITION_MS);
    assert_eq!(
        f.base_color,
        Color {
            r: 0,
            g: 0,
            b: 0,
            a: COLOR_SCALE
        }
    );
}

#[test]
fn splash_frame_without_click_does_nothing() {
    let mut hud = Hud::default();
    show_splash(&mut hud);
    let transition = update(false, &mut hud);
    assert_eq!(transition, None);
    assert!(hud.fade_in_out.is_none());
    assert_eq!(hud.center_text, "Some Tank Game!\nBy Horup");
}

#[test]
fn layout_spawns_the_expected_tree() {
    let nodes = hud_layout();
    assert_eq!(nodes.len(), 9);

    // The root is the only parentless node, and parents come before their
    // children so the list can be spawned in order.
    for (i, node) in nodes.iter().enumerate() {
        match node.parent {
            Some(p) => {
                assert!(p < i);
                assert_eq!(nodes[p].kind, NodeKind::Container);
            }
            None => assert_eq!(i, 0),
        }
    }

    let tagged: Vec<Option<HudElement>> = nodes.iter().map(|n| n.element).collect();
    assert_eq!(
        tagged,
        vec![
            None,
            None,
            Some(HudElement::Center),
            Some(HudElement::BottomCenter),
            Some(HudElement::TopLeft),
            Some(HudElement::TopRight),
            Some(HudElement::Foreground),
            Some(HudElement::Console),
            Some(HudElement::Console),
        ]
    );

    // Text sizes: base 16, doubled for the bottom-center, tripled for the
    // center title.
    assert_eq!(nodes[2].font_size, 48);
    assert_eq!(nodes[3].font_size, 32);
    assert_eq!(nodes[4].font_size, 16);

    // The console panel starts hidden; its backdrop is near-opaque black and
    // the foreground overlay starts half-opaque red.
    assert!(!nodes[7].visible);
    assert_eq!(
        nodes[7].color,
        Color {
            r: 0,
            g: 0,
            b: 0,
            a: 950
        }
    );
    assert_eq!(
        nodes[6].color,
        Color {
            r: COLOR_SCALE,
            g: 0,
            b: 0,
            a: 500
        }
    );
}
