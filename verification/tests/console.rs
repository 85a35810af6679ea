use scopobot::console::{
    cell, controls, frame_wait, layout, pixel, rescale, simulate, status_line, Playback,
};
use scopobot::pack::SpriteSheet;
use scopobot::reading::Reading;
use scopobot::state::{State, Weather};

#[test]
fn simulation_keys_toggle_conditions() {
    let mut s = State::demo();
    simulate(&mut s, 'b');
    assert_eq!(s.battery.unwrap().level, Reading::Value(800));
    simulate(&mut s, 'b');
    assert_eq!(s.battery.unwrap().level, Reading::Value(8500));
    simulate(&mut s, 'c');
    assert!(s.battery.unwrap().charging);
    let plugged = s;
    simulate(&mut s, 'c');
    assert!(!s.battery.unwrap().charging);
    simulate(&mut s, 'c');
    assert_eq!(s, plugged);
    simulate(&mut s, 'n');
    assert_eq!(s.connected, Some(false));
    simulate(&mut s, 'n');
    assert_eq!(s.connected, Some(true));
    simulate(&mut s, 'h');
    assert_eq!(s.cpu, Some(Reading::Value(9800)));
    simulate(&mut s, 'h');
    assert_eq!(s.cpu, Some(Reading::Value(1500)));
    simulate(&mut s, 'r');
    assert_eq!(s.weather, Some(Weather::Rain));
    simulate(&mut s, 'r');
    assert_eq!(s.weather, None);
    let before = s;
    simulate(&mut s, 'x');
    assert_eq!(s, before);
}

#[test]
fn sprite_size_and_frame_waits_are_bounded() {
    assert_eq!(rescale(1, '+'), 2);
    assert_eq!(rescale(3, '='), 3);
    assert_eq!(rescale(1, '-'), 1);
    assert_eq!(rescale(3, '-'), 2);
    assert_eq!(rescale(2, 'q'), 2);
    assert_eq!(frame_wait(true, 5, 50), 500);
    assert_eq!(frame_wait(false, 20, 50), 50);
    assert_eq!(frame_wait(false, 300, 50), 300);
    assert_eq!(frame_wait(false, 9000, 50), 1000);
    assert_eq!(frame_wait(false, 900, 750), 900);
    assert_eq!(frame_wait(false, 9000, 750), 1000);
    assert_eq!(frame_wait(false, 20, 5000), 5000);
    assert_eq!(frame_wait(false, 9000, 5000), 5000);
}

#[test]
fn layout_centres_the_sprite_or_gives_up() {
    assert_eq!(layout(80, 30, 32, 32, 1), Some((1, 24)));
    assert_eq!(layout(80, 30, 32, 32, 3), Some((2, 8)));
    assert_eq!(layout(35, 30, 32, 32, 1), None);
    assert_eq!(layout(80, 23, 32, 32, 1), None);
    assert_eq!(layout(80, 24, 32, 32, 1), Some((1, 24)));
}

#[test]
fn half_blocks_pair_two_pixel_rows() {
    let sheet = SpriteSheet {
        width: 2,
        height: 2,
        rgba: vec![
            10, 20, 30, 255, 0, 0, 0, 0, //
            40, 50, 60, 255, 70, 80, 90, 128,
        ],
    };
    assert_eq!(pixel(&sheet, 0, 2, 2, 0, 0), Some((10, 20, 30)));
    assert_eq!(pixel(&sheet, 0, 2, 2, 1, 0), None);
    assert_eq!(pixel(&sheet, 0, 2, 2, 1, 1), Some((70, 80, 90)));
    assert_eq!(pixel(&sheet, 0, 2, 2, 1, 5), Some((70, 80, 90)));
    let top = Some((1, 2, 3));
    let bottom = Some((4, 5, 6));
    assert_eq!(cell(None, None, false), (" ", None, None));
    assert_eq!(cell(top, None, false), ("▀", top, None));
    assert_eq!(cell(None, bottom, false), ("▄", bottom, None));
    assert_eq!(cell(top, bottom, false), ("▀", top, bottom));
    assert_eq!(cell(top, bottom, true), ("#", top, bottom));
    assert_eq!(cell(None, None, true), (" ", None, None));
}

#[test]
fn pause_holds_the_frame_and_resume_continues() {
    let mut p = Playback::new(0);
    p.follow("idle", 100);
    assert_eq!(p.name, "idle");
    assert_eq!(p.elapsed(600), 500);
    p.follow("idle", 700);
    assert_eq!(p.changed, 100);
    p.toggle_pause(600);
    assert!(p.paused);
    assert_eq!(p.elapsed(5000), 500);
    p.follow("wave", 5000);
    assert_eq!(p.name, "idle");
    p.toggle_pause(9000);
    assert_eq!(p.elapsed(9000), 500);
    assert_eq!(p.elapsed(9250), 750);
    p.follow("wave", 9300);
    assert_eq!(p.elapsed(9300), 0);
}

#[test]
fn status_and_controls_texts() {
    assert_eq!(status_line(true, false), "  Simulated  ");
    assert_eq!(status_line(false, true), "  Live device state  [paused]");
    assert_eq!(controls(false, 200), "q quit · space pause · d simulate · +/- size");
    assert_eq!(controls(false, 6), "q quit");
    assert_eq!(controls(true, 14), "q quit · space");
}
