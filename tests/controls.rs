use regressiva::config::RegressivaConfig;
use regressiva::controls::{
    click_target, handle_mouse_click, ButtonPositions, ClickAction, Rect,
};
use regressiva::countdown::{Countdown, Status, NANOS_PER_SEC};

fn rect(x: i32, y: i32) -> Rect {
    Rect { x, y, w: 320, h: 72 }
}

fn layout() -> ButtonPositions {
    ButtonPositions {
        start_button: rect(160, 72),
        pause_button: rect(512, 72),
        reset_button: rect(864, 72),
        close_button: Rect { x: 1230, y: 10, w: 40, h: 40 },
        botao_1: rect(160, 173),
        botao_2: rect(512, 173),
        botao_3: rect(864, 173),
        botao_4: rect(160, 274),
        botao_5: rect(512, 274),
        botao_6: rect(864, 274),
        botao_7: rect(160, 374),
        botao_8: rect(512, 374),
        botao_9: rect(864, 374),
    }
}

#[test]
fn rect_edges_are_half_open() {
    let r = Rect { x: 10, y: 20, w: 5, h: 3 };
    assert!(r.contains_point(10, 20));
    assert!(r.contains_point(14, 22));
    assert!(!r.contains_point(15, 22));
    assert!(!r.contains_point(14, 23));
    assert!(!r.contains_point(9, 20));
    let wide = Rect { x: i32::MAX, y: i32::MIN, w: u32::MAX, h: 1 };
    assert!(wide.contains_point(i32::MAX, i32::MIN));
}

#[test]
fn click_targets() {
    let c = RegressivaConfig::default();
    let b = layout();
    assert_eq!(click_target(&c, &b, 200, 100), ClickAction::Start);
    assert_eq!(click_target(&c, &b, 600, 100), ClickAction::Pause);
    assert_eq!(click_target(&c, &b, 900, 100), ClickAction::Reset);
    assert_eq!(click_target(&c, &b, 1240, 20), ClickAction::Close);
    assert_eq!(click_target(&c, &b, 200, 200), ClickAction::Preset(1));
    assert_eq!(click_target(&c, &b, 900, 400), ClickAction::Preset(9));
    assert_eq!(click_target(&c, &b, 5, 5), ClickAction::Nothing);
}

#[test]
fn hidden_buttons_do_not_respond() {
    let mut c = RegressivaConfig::default();
    c.botoes.botao_iniciar = false;
    c.botoes.botao_pausar = false;
    c.botoes.botao_reset = false;
    let b = layout();
    assert_eq!(click_target(&c, &b, 200, 100), ClickAction::Nothing);
    assert_eq!(click_target(&c, &b, 600, 100), ClickAction::Nothing);
    assert_eq!(click_target(&c, &b, 900, 100), ClickAction::Nothing);
}

#[test]
fn first_matching_preset_wins() {
    let c = RegressivaConfig::default();
    let mut b = layout();
    b.botao_5 = b.botao_2;
    assert_eq!(click_target(&c, &b, 600, 200), ClickAction::Preset(2));
}

#[test]
fn click_start_pause_reset_and_preset() {
    let c = RegressivaConfig::default();
    let b = layout();
    let mut cd = Countdown::new(30, 0);
    assert!(!handle_mouse_click(200, 100, &c, &b, &mut cd, 5 * NANOS_PER_SEC));
    assert!(cd.is_running());
    cd.tick(6 * NANOS_PER_SEC);
    assert_eq!(cd.remaining_secs(), 29);
    assert!(!handle_mouse_click(600, 100, &c, &b, &mut cd, 6 * NANOS_PER_SEC));
    assert_eq!(cd.status(), Status::Stopped);
    assert_eq!(cd.remaining_secs(), 29);
    assert!(!handle_mouse_click(900, 100, &c, &b, &mut cd, 7 * NANOS_PER_SEC));
    assert_eq!(cd.remaining_secs(), 14);
    assert!(!handle_mouse_click(600, 200, &c, &b, &mut cd, 8 * NANOS_PER_SEC));
    assert_eq!(cd.remaining_secs(), 60);
    assert_eq!(cd.status(), Status::Stopped);
}

#[test]
fn click_close_reports_quit_and_keeps_state() {
    let c = RegressivaConfig::default();
    let b = layout();
    let mut cd = Countdown::new(30, 0);
    cd.start(0);
    assert!(handle_mouse_click(1240, 20, &c, &b, &mut cd, NANOS_PER_SEC));
    assert!(cd.is_running());
    assert_eq!(cd.remaining_secs(), 30);
}
