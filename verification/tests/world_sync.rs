//! World-model semantics and the frame-loop step: full replacement,
//! idempotent application, staleness while out of game, and offline
//! resilience.
use tesselbox_client::decode::decode_line;
use tesselbox_client::input::{InputFrame, KeySamples};
use tesselbox_client::state::WorldSnapshot;
use tesselbox_client::sync::frame_tick;

fn idle_frame() -> InputFrame {
    let samples = KeySamples {
        w: false,
        a: false,
        s: false,
        d: false,
        space: false,
        slot1: false,
        slot2: false,
        slot3: false,
        slot4: false,
        slot5: false,
        slot6: false,
        slot7: false,
        slot8: false,
        slot9: false,
        zoom_in: false,
        zoom_out: false,
        fly: false,
    };
    InputFrame::new(samples, false, false, "0.0".to_string(), "0.0".to_string())
}

fn five_hexagons_line() -> String {
    let mut cells = Vec::new();
    for i in 0..5 {
        cells.push(format!("{{\"x\":{i},\"y\":0}}"));
    }
    format!(
        "{{\"type\":\"state\",\"in_game\":true,\"hexagons\":[{}]}}",
        cells.join(",")
    )
}

#[test]
fn fresh_world_starts_out_of_game() {
    let w = WorldSnapshot::new();
    assert!(!w.in_game);
    assert!(w.player.is_none());
    assert!(w.camera.is_none());
    assert!(w.hexagons.is_empty());
    assert_eq!(w.game_mode, "survival");
}

#[test]
fn decoding_same_line_twice_is_idempotent() {
    let line = five_hexagons_line();
    let mut once = WorldSnapshot::new();
    once.apply(decode_line(&line).unwrap().unwrap());
    let mut twice = WorldSnapshot::new();
    twice.apply(decode_line(&line).unwrap().unwrap());
    twice.apply(decode_line(&line).unwrap().unwrap());
    assert_eq!(once, twice);
}

#[test]
fn collections_are_replaced_not_merged() {
    let mut w = WorldSnapshot::new();
    w.apply(decode_line(&five_hexagons_line()).unwrap().unwrap());
    assert_eq!(w.hexagons.len(), 5);
    w.apply(
        decode_line("{\"type\":\"state\",\"in_game\":true,\"hexagons\":[]}")
            .unwrap()
            .unwrap(),
    );
    assert_eq!(w.hexagons.len(), 0);
    // An absent key empties the collection just the same.
    w.apply(decode_line(&five_hexagons_line()).unwrap().unwrap());
    assert_eq!(w.hexagons.len(), 5);
    w.apply(decode_line("{\"type\":\"state\",\"in_game\":true}").unwrap().unwrap());
    assert_eq!(w.hexagons.len(), 0);
}

#[test]
fn absent_player_key_keeps_the_previous_player() {
    let mut w = WorldSnapshot::new();
    w.apply(
        decode_line("{\"type\":\"state\",\"in_game\":true,\"player\":{\"x\":9}}")
            .unwrap()
            .unwrap(),
    );
    assert_eq!(w.player.as_ref().unwrap().x, "9");
    w.apply(decode_line("{\"type\":\"state\",\"in_game\":true}").unwrap().unwrap());
    assert_eq!(w.player.as_ref().unwrap().x, "9");
}

#[test]
fn out_of_game_leaves_state_stale() {
    let mut w = WorldSnapshot::new();
    w.apply(decode_line(&five_hexagons_line()).unwrap().unwrap());
    assert!(w.in_game);
    w.apply(
        decode_line("{\"type\":\"state\",\"in_game\":false,\"hexagons\":[]}")
            .unwrap()
            .unwrap(),
    );
    assert!(!w.in_game);
    assert_eq!(w.hexagons.len(), 5);
}

#[test]
fn malformed_line_leaves_world_unchanged() {
    let mut w = WorldSnapshot::new();
    w.apply(decode_line(&five_hexagons_line()).unwrap().unwrap());
    let before = w.clone();
    let frame = idle_frame();
    let line = "not json at all".to_string();
    let r = frame_tick(&mut w, true, &frame, Some(&line));
    assert!(r.decode_failed);
    assert!(!r.applied);
    assert_eq!(w, before);
}

#[test]
fn connected_tick_sends_and_applies() {
    let mut w = WorldSnapshot::new();
    let frame = idle_frame();
    let line = five_hexagons_line();
    let r = frame_tick(&mut w, true, &frame, Some(&line));
    assert!(r.applied);
    assert!(!r.decode_failed);
    let sent = r.outbound.unwrap();
    let v: serde_json::Value = serde_json::from_str(sent.trim()).unwrap();
    assert_eq!(v["type"], "update");
    assert_eq!(w.hexagons.len(), 5);
}

#[test]
fn offline_frames_run_without_updates() {
    let mut w = WorldSnapshot::new();
    let frame = idle_frame();
    let initial = w.clone();
    for i in 0..1000 {
        let stray = format!("{{\"type\":\"state\",\"in_game\":true,\"player\":{{\"x\":{i}}}}}");
        let inbound = if i % 2 == 0 { Some(&stray) } else { None };
        let r = frame_tick(&mut w, false, &frame, inbound);
        assert!(r.outbound.is_none());
        assert!(!r.applied);
        assert!(!r.decode_failed);
        assert_eq!(w, initial);
        assert!(w.player_position().is_none());
        assert!(w.camera_position().is_none());
    }
}

#[test]
fn positions_reach_the_scene() {
    let mut w = WorldSnapshot::new();
    w.apply(
        decode_line(
            "{\"type\":\"state\",\"in_game\":true,\"player\":{\"x\":1.5,\"y\":2.5},\"camera\":{\"x\":3,\"y\":4}}",
        )
        .unwrap()
        .unwrap(),
    );
    assert_eq!(w.player_position().unwrap(), ("1.5".to_string(), "2.5".to_string()));
    assert_eq!(w.camera_position().unwrap(), ("3".to_string(), "4".to_string()));
}
