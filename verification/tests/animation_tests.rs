use rust_rpc::animation::{animation_kind, interval_seconds, Animation, AnimationKind, Player, Step};
use rust_rpc::animations::{glyph, glyph_str, Animations, COUNTDOWN_LEN, LOADING_LEN};
use rust_rpc::json_animation::{CustomAnimation, CustomAnimations};

const BAR: &str = "▁ ▂ ▃ ▄ ▅ ▆ ▇ █ ▇ ▆ ▅ ▄ ▃ ▁";

#[test]
fn ids_select_animations() {
    assert_eq!(Animations::from(1), Animations::DeadInside);
    assert_eq!(Animations::from(2), Animations::Loading);
    assert_eq!(Animations::from(3), Animations::DeadInside);
    assert_eq!(Animations::from(-5), Animations::DeadInside);
    assert_eq!(animation_kind(1), AnimationKind::DeadInside);
    assert_eq!(animation_kind(2), AnimationKind::Loading);
    assert_eq!(animation_kind(3), AnimationKind::JsonCustom);
    assert_eq!(animation_kind(0), AnimationKind::Unknown);
    assert_eq!(animation_kind(4), AnimationKind::Unknown);
}

#[test]
fn countdown_frames_go_from_1000_by_sevens() {
    let frames = Animations::run(1);
    assert_eq!(frames.len(), 143);
    assert_eq!(frames.len(), COUNTDOWN_LEN);
    assert_eq!(frames[0].details, "1000 - 7 = 993");
    assert_eq!(frames[1].details, "993 - 7 = 986");
    assert_eq!(frames[142].details, "6 - 7 = -1");
    for f in &frames {
        assert_eq!(f.state, BAR);
        assert!(f.large_image.is_none() && f.button.is_none() && f.start_timestamp.is_none());
    }
}

#[test]
fn loading_frames_walk_the_bar() {
    let frames = Animations::run(2);
    assert_eq!(frames.len(), 14);
    assert_eq!(frames.len(), LOADING_LEN);
    let glyphs: Vec<&str> = BAR.split(' ').collect();
    for (f, g) in frames.iter().zip(glyphs) {
        assert_eq!(f.details, "Loading...");
        assert_eq!(f.state, format!("{} load", g));
    }
    assert_eq!(frames[7].state, "█ load");
}

#[test]
fn glyphs_by_height() {
    assert_eq!(glyph(1), '▁');
    assert_eq!(glyph(8), '█');
    assert_eq!(glyph_str(4), "▄");
}

#[test]
fn interval_defaults_to_five_seconds() {
    assert_eq!(interval_seconds(None), 5);
    assert_eq!(interval_seconds(Some("2")), 2);
    assert_eq!(interval_seconds(Some("+60")), 60);
}

fn shown(step: Step) -> Option<rust_rpc::frame::ActivityFrame> {
    match step {
        Step::Show(f) => Some(f),
        _ => None,
    }
}

#[test]
fn dead_inside_player_counts_down_while_wanted() {
    let mut p = Player::dead_inside();
    let mut details = Vec::new();
    while p.needs_alive_check() {
        match p.step(Some(true)) {
            Step::Show(f) => {
                assert_eq!(f.state, "In an endless loop");
                details.push(f.details);
            }
            Step::Finished => break,
            Step::Idle => panic!("the countdown never idles"),
        }
    }
    assert_eq!(details.len(), 143);
    assert_eq!(details[0], "Dead Inside 1000-7: 1000 - 7 = 993");
    assert_eq!(details[142], "Dead Inside 1000-7: 6 - 7 = -1");
    assert!(!p.needs_alive_check());
    assert!(matches!(p.step(None), Step::Finished));
}

#[test]
fn dead_inside_player_ends_when_stopped() {
    let mut p = Player::dead_inside();
    assert!(shown(p.step(Some(true))).is_some());
    assert!(matches!(p.step(Some(false)), Step::Finished));
    assert!(!p.needs_alive_check());
}

#[test]
fn loading_player_ends_at_once_while_wanted() {
    let mut p = Player::loading();
    assert!(p.needs_alive_check());
    assert!(matches!(p.step(Some(true)), Step::Finished));
}

#[test]
fn loading_player_grows_the_bar_when_not_wanted() {
    let mut p = Player::loading();
    let mut last = String::new();
    let mut n = 0;
    while p.needs_alive_check() {
        let f = shown(p.step(Some(false))).expect("a frame");
        assert_eq!(f.state, "In an endless loop");
        last = f.details;
        n += 1;
    }
    assert_eq!(n, 14);
    assert_eq!(last, BAR.replace(' ', ""));
    assert!(matches!(p.step(None), Step::Finished));
}

fn custom(details: Option<&str>, state: Option<&str>) -> CustomAnimation {
    CustomAnimation {
        details: details.map(String::from),
        state: state.map(String::from),
        large_image_text: Some("ignored".to_string()),
        large_image_key: None,
        small_image_text: None,
        small_image_key: None,
    }
}

#[test]
fn custom_player_shows_frames_only_when_not_wanted() {
    let anims = CustomAnimations {
        randomize: Some(false),
        animations: vec![custom(Some("a"), Some("b")), custom(None, None)],
    };
    let mut p = Player::json_custom(anims, 1700000000);
    // while wanted, it goes back to the start without showing anything
    assert!(matches!(p.step(Some(true)), Step::Idle));
    let f = shown(p.step(Some(false))).expect("a frame");
    assert_eq!(f.details, "a");
    assert_eq!(f.state, "b");
    assert_eq!(f.start_timestamp, Some(1700000000));
    assert!(f.large_image.is_none());
    let f = shown(p.step(Some(false))).expect("a frame");
    assert_eq!(f.details, "custom_animation_details");
    assert_eq!(f.state, "custom_animation_state");
    // after the last frame it starts over
    assert!(!p.needs_alive_check());
    assert!(matches!(p.step(None), Step::Idle));
    let f = shown(p.step(Some(false))).expect("a frame");
    assert_eq!(f.details, "a");
}

#[test]
fn custom_player_with_no_frames_idles() {
    let anims = CustomAnimations { randomize: None, animations: vec![] };
    let mut p = Player::json_custom(anims, 0);
    assert!(!p.needs_alive_check());
    assert!(matches!(p.step(None), Step::Idle));
}

#[test]
fn connection_notice_repeats_while_wanted() {
    let mut p = Player::started_connection(42);
    for _ in 0..3 {
        let f = shown(p.step(Some(true))).expect("a frame");
        assert_eq!(f.details, "Click tray to load animation");
        assert_eq!(f.state, "Click tray to load animation");
        let image = f.large_image.expect("picture");
        assert_eq!(image.key, "dota");
        assert_eq!(image.text, "");
        let button = f.button.expect("button");
        assert_eq!(button.label, "Create You Animation by koliy82");
        assert_eq!(button.url, "https://github.com/koliy82/rust_rpc");
        assert_eq!(f.start_timestamp, Some(42));
    }
    assert!(matches!(p.step(Some(false)), Step::Finished));
}

#[test]
fn unknown_animation_plays_nothing() {
    let mut p = Player::finished();
    assert!(!p.needs_alive_check());
    assert!(matches!(p.step(None), Step::Finished));
}

#[test]
fn stopping_a_handle_stops_its_clones() {
    let a = Animation::new();
    let b = a.clone();
    assert!(a.alive_check());
    assert!(b.alive_check());
    b.stop();
    assert!(!a.alive_check());
    assert!(!b.alive_check());
    let c = Animation::new();
    assert!(c.alive_check());
}

#[test]
fn alive_is_the_opposite_of_cancelled() {
    assert!(rust_rpc::animation::alive_from_cancelled(false));
    assert!(!rust_rpc::animation::alive_from_cancelled(true));
}

#[test]
fn shared_handles_stop_together() {
    let a = Animation::new();
    let b = a.share();
    a.stop();
    assert!(!b.alive_check());
}
