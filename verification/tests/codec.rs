//! Wire-codec behaviour: encoding against a reference JSON parser, and
//! decoding with default substitution and malformed-input tolerance.
use tesselbox_client::decode::decode_line;
use tesselbox_client::encode::encode_input;
use tesselbox_client::input::{check_number, InputFrame, KeySamples};

fn all_released() -> KeySamples {
    KeySamples {
        w: false,
        a: false,
        s: false,
        d: false,
        space: false,
        slot1: false,
        slot2: false,
        slot3: false,
        slot4: false,
        slot5: false,
        slot6: false,
        slot7: false,
        slot8: false,
        slot9: false,
        zoom_in: false,
        zoom_out: false,
        fly: false,
    }
}

#[test]
fn round_trip_input_frame() {
    let mut samples = all_released();
    samples.w = true;
    samples.space = true;
    samples.slot3 = true;
    samples.zoom_out = true;
    let frame = InputFrame::new(samples, true, false, "12.5".to_string(), "-7.25".to_string());
    let line = encode_input(&frame);
    assert!(line.ends_with('\n'));
    assert!(!line[..line.len() - 1].contains('\n'));
    let v: serde_json::Value = serde_json::from_str(line.trim()).unwrap();
    assert_eq!(v["type"], "update");
    assert_eq!(v["keys"]["w"], true);
    assert_eq!(v["keys"]["a"], false);
    assert_eq!(v["keys"]["space"], true);
    assert_eq!(v["keys"]["3"], true);
    assert_eq!(v["keys"]["9"], false);
    assert_eq!(v["keys"]["minus"], true);
    assert_eq!(v["keys"]["equals"], false);
    assert_eq!(v["keys"]["f"], false);
    assert_eq!(v["keys"].as_object().unwrap().len(), 17);
    assert_eq!(v["mining"], true);
    assert_eq!(v["place_block"], false);
    assert_eq!(v["mouse_position"][0].as_f64().unwrap(), 12.5);
    assert_eq!(v["mouse_position"][1].as_f64().unwrap(), -7.25);
}

#[test]
fn encode_escapes_key_names() {
    let frame = InputFrame {
        keys: vec![
            ("quote\"back\\slash".to_string(), true),
            ("ctl\u{01}\u{1f}".to_string(), false),
        ],
        mining: false,
        place_block: false,
        mouse_x: "0.0".to_string(),
        mouse_y: "0.0".to_string(),
    };
    let line = encode_input(&frame);
    let v: serde_json::Value = serde_json::from_str(line.trim()).unwrap();
    assert_eq!(v["keys"]["quote\"back\\slash"], true);
    assert_eq!(v["keys"]["ctl\u{01}\u{1f}"], false);
}

#[test]
fn pointer_text_falls_back_to_origin() {
    let frame = InputFrame::new(
        all_released(),
        false,
        false,
        "NaN".to_string(),
        "31.25".to_string(),
    );
    assert_eq!(frame.mouse_x, "0.0");
    assert_eq!(frame.mouse_y, "31.25");
}

#[test]
fn number_grammar() {
    for ok in ["0.0", "0", "-12.5", "1e9", "3E+2", "10.25e-3", "-0.5"] {
        assert!(check_number(ok), "expected a number: {ok}");
    }
    for bad in ["", " ", "-", "01", "1.", ".5", "abc", "NaN", "inf", "1e", "1e+", "--1", "1.2.3"] {
        assert!(!check_number(bad), "expected no number: {bad}");
    }
}

#[test]
fn empty_line_is_no_update() {
    assert_eq!(decode_line(""), Ok(None));
    assert_eq!(decode_line("   \t \r\n"), Ok(None));
}

#[test]
fn malformed_line_is_a_decode_failure() {
    assert!(decode_line("not json at all").is_err());
    assert!(decode_line("{\"type\":").is_err());
}

#[test]
fn other_message_types_are_ignored() {
    assert_eq!(decode_line("{\"type\":\"pong\"}"), Ok(None));
    assert_eq!(decode_line("{\"in_game\":true}"), Ok(None));
    assert_eq!(decode_line("42"), Ok(None));
    assert_eq!(decode_line("[1,2]"), Ok(None));
}

#[test]
fn default_substitution_for_empty_player() {
    let u = decode_line("{\"type\":\"state\",\"in_game\":true,\"player\":{}}")
        .unwrap()
        .unwrap();
    assert!(u.in_game);
    let p = u.player.unwrap();
    assert_eq!(p.radius, "15.0");
    assert_eq!(p.radius.parse::<f32>().unwrap(), 15.0);
    assert_eq!(p.color, vec![255, 255, 255]);
    assert_eq!(p.selected_slot, 0);
    assert!(!p.flight_mode);
    assert!(!p.on_ground);
    assert_eq!(p.x, "0.0");
    assert_eq!(p.y, "0.0");
}

#[test]
fn full_state_message_decodes_exactly() {
    let line = "{\"type\":\"state\",\"in_game\":true,\
        \"player\":{\"x\":1.5,\"y\":-2,\"radius\":20,\"color\":[10,20,30],\
        \"selected_slot\":4,\"flight_mode\":true,\"on_ground\":true},\
        \"camera\":{\"x\":640,\"y\":360.5},\
        \"hexagons\":[{\"x\":3,\"y\":4,\"block_type\":\"stone\",\"color\":[1,2,3,128],\
        \"health\":50,\"max_health\":200,\"transparent\":true}],\
        \"organisms\":[{\"x\":7,\"y\":8,\"type\":\"slime\",\"health\":9}],\
        \"particles\":[{\"x\":0,\"y\":1,\"age\":0.5,\"size\":6}],\
        \"inventory\":{\"dirt\":3,\"stone\":70000000000},\
        \"game_mode\":\"creative\"}";
    let u = decode_line(line).unwrap().unwrap();
    let p = u.player.unwrap();
    assert_eq!(p.x, "1.5");
    assert_eq!(p.y, "-2");
    assert_eq!(p.radius, "20");
    assert_eq!(p.color, vec![10, 20, 30]);
    assert_eq!(p.selected_slot, 4);
    assert!(p.flight_mode);
    assert!(p.on_ground);
    let c = u.camera.unwrap();
    assert_eq!((c.x.as_str(), c.y.as_str()), ("640", "360.5"));
    assert_eq!(u.hexagons.len(), 1);
    let h = &u.hexagons[0];
    assert_eq!(h.block_type, "stone");
    assert_eq!(h.color, vec![1, 2, 3, 128]);
    assert_eq!(h.health, "50");
    assert_eq!(h.max_health, "200");
    assert!(h.transparent);
    assert_eq!(u.organisms.len(), 1);
    let o = &u.organisms[0];
    assert_eq!(o.org_type, "slime");
    assert_eq!(o.health, "9");
    assert_eq!(o.max_health, "100.0");
    assert_eq!(u.particles.len(), 1);
    let pa = &u.particles[0];
    assert_eq!(pa.age, "0.5");
    assert_eq!(pa.lifetime, "1.0");
    assert_eq!(pa.size, "6");
    assert_eq!(pa.color, vec![255, 255, 255, 255]);
    // 70000000000 does not fit 32 bits: truncated exactly as a cast does.
    let mut inv = u.inventory.clone();
    inv.sort();
    assert_eq!(inv[0], ("dirt".to_string(), 3));
    assert_eq!(inv[1], ("stone".to_string(), (70000000000u64 % 0x1_0000_0000) as u32));
    assert_eq!(u.game_mode, "creative");
}

#[test]
fn color_tolerance() {
    let line = "{\"type\":\"state\",\"in_game\":true,\
        \"player\":{\"color\":[300,\"red\",5.5]},\
        \"hexagons\":[{\"color\":[256]},{\"color\":\"blue\"},{}],\
        \"particles\":[{\"color\":[]}]}";
    let u = decode_line(line).unwrap().unwrap();
    // 300 truncates to 44; a string and a fractional entry fall back to 255.
    assert_eq!(u.player.unwrap().color, vec![44, 255, 255]);
    assert_eq!(u.hexagons[0].color, vec![0]);
    assert_eq!(u.hexagons[1].color, vec![255, 255, 255, 255]);
    assert_eq!(u.hexagons[2].color, vec![255, 255, 255, 255]);
    assert_eq!(u.particles[0].color, Vec::<u8>::new());
}

#[test]
fn short_player_color_is_white() {
    let u = decode_line("{\"type\":\"state\",\"in_game\":true,\"player\":{\"color\":[1,2]}}")
        .unwrap()
        .unwrap();
    assert_eq!(u.player.unwrap().color, vec![255, 255, 255]);
}

#[test]
fn long_player_color_is_white() {
    // The fixed player color is defined only for exactly three
    // components; four are a wrong shape, not a color with alpha.
    let u = decode_line("{\"type\":\"state\",\"in_game\":true,\"player\":{\"color\":[1,1,1,1]}}")
        .unwrap()
        .unwrap();
    assert_eq!(u.player.unwrap().color, vec![255, 255, 255]);
}

#[test]
fn mistyped_fields_fall_back() {
    let line = "{\"type\":\"state\",\"in_game\":\"yes\",\
        \"hexagons\":5,\"inventory\":[1,2],\"game_mode\":7}";
    let u = decode_line(line).unwrap().unwrap();
    assert!(!u.in_game);
    assert!(u.hexagons.is_empty());
    assert!(u.inventory.is_empty());
    assert_eq!(u.game_mode, "survival");
}
