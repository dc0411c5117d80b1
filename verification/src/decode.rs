//! Inbound wire codec: one protocol line to one decoded snapshot.
//!
//! Decoding is deliberately permissive, so the client survives schema
//! drift in the server: a blank line is "nothing new", a line that is
//! not JSON is a decode failure the caller drops, a message whose
//! `type` is not `"state"` is ignored, and inside a `"state"` message
//! every missing or mistyped field resolves to its documented default.
use vstd::prelude::*;

use crate::json::{
    bool_or, field_bool, field_i64, field_num_text, field_of, field_str, get_field, i64_or,
    json_parse, num_text_or, parse_json, str_eq_chk, str_or, Json,
};
use crate::state::{
    hex_views, inventory_views, org_views, particle_views, CameraState, CameraV, HexCellState,
    HexCellV, OrganismState, OrganismV, ParticleState, ParticleV, PlayerState, PlayerV,
    StateUpdate, UpdateV,
};

verus! {

/// The protocol line was not one well-formed JSON document; the caller
/// drops the message and the world model stays as it was.
#[derive(Debug, Clone, Copy, PartialEq, Eq)]
pub struct DecodeError {}

/// What decoding one line yields: nothing (blank line, or a message of
/// another type), a failure, or the content of one `"state"` message.
pub enum DecodedV {
    NoUpdate,
    Failed,
    State(UpdateV),
}

/// Whitespace as the protocol's line framing knows it.
pub open spec fn is_ws_char(c: char) -> bool {
    c == ' ' || c == '\t' || c == '\r' || c == '\n'
}

/// A line with nothing on it: empty or whitespace only.
pub open spec fn is_blank(s: Seq<char>) -> bool {
    forall|i: int| 0 <= i < s.len() ==> is_ws_char(s[i])
}

/// One color component: the array element's value as an unsigned
/// integer taken modulo 256, or opaque 255 where it is no such integer.
pub open spec fn num_u8_or255(j: Json) -> u8 {
    match j {
        Json::Num(n) => match n.uint_val {
            Some(u) => (u % 256) as u8,
            None => 255,
        },
        _ => 255,
    }
}

/// One inventory count: the value as an unsigned integer truncated to
/// 32 bits, or 0 where it is no such integer.
pub open spec fn num_u32_or0(j: Json) -> u32 {
    match j {
        Json::Num(n) => match n.uint_val {
            Some(u) => (u % 0x1_0000_0000) as u32,
            None => 0,
        },
        _ => 0,
    }
}

/// A fixed three-byte color: the components of an array of exactly
/// three elements; absence or any other shape gives opaque white.
pub open spec fn spec_color_rgb(f: Option<Json>) -> Seq<u8> {
    match f {
        Some(Json::Arr(a)) => if a@.len() == 3 {
            seq![num_u8_or255(a@[0]), num_u8_or255(a@[1]), num_u8_or255(a@[2])]
        } else {
            seq![255u8, 255u8, 255u8]
        },
        _ => seq![255u8, 255u8, 255u8],
    }
}

/// A variable-length color: every component of the array (RGB, RGBA, or
/// any other length the server chooses), opaque white RGBA otherwise.
pub open spec fn spec_color_vec(f: Option<Json>) -> Seq<u8> {
    match f {
        Some(Json::Arr(a)) => a@.map_values(|x: Json| num_u8_or255(x)),
        _ => seq![255u8, 255u8, 255u8, 255u8],
    }
}

/// The player record of a `"state"` message, defaults substituted.
pub open spec fn spec_player(j: Json) -> PlayerV {
    PlayerV {
        x: num_text_or(field_of(j, "x"@), "0.0"@),
        y: num_text_or(field_of(j, "y"@), "0.0"@),
        radius: num_text_or(field_of(j, "radius"@), "15.0"@),
        color: spec_color_rgb(field_of(j, "color"@)),
        selected_slot: i64_or(field_of(j, "selected_slot"@), 0),
        flight_mode: bool_or(field_of(j, "flight_mode"@), false),
        on_ground: bool_or(field_of(j, "on_ground"@), false),
    }
}

/// The camera record, defaults substituted.
pub open spec fn spec_camera(j: Json) -> CameraV {
    CameraV {
        x: num_text_or(field_of(j, "x"@), "0.0"@),
        y: num_text_or(field_of(j, "y"@), "0.0"@),
    }
}

/// One terrain cell record, defaults substituted.
pub open spec fn spec_hex(j: Json) -> HexCellV {
    HexCellV {
        x: num_text_or(field_of(j, "x"@), "0.0"@),
        y: num_text_or(field_of(j, "y"@), "0.0"@),
        block_type: str_or(field_of(j, "block_type"@), ""@),
        color: spec_color_vec(field_of(j, "color"@)),
        health: num_text_or(field_of(j, "health"@), "100.0"@),
        max_health: num_text_or(field_of(j, "max_health"@), "100.0"@),
        transparent: bool_or(field_of(j, "transparent"@), false),
    }
}

/// One creature record, defaults substituted; its kind rides under the
/// member name `type`.
pub open spec fn spec_org(j: Json) -> OrganismV {
    OrganismV {
        x: num_text_or(field_of(j, "x"@), "0.0"@),
        y: num_text_or(field_of(j, "y"@), "0.0"@),
        org_type: str_or(field_of(j, "type"@), ""@),
        health: num_text_or(field_of(j, "health"@), "100.0"@),
        max_health: num_text_or(field_of(j, "max_health"@), "100.0"@),
    }
}

/// One particle record, defaults substituted.
pub open spec fn spec_particle(j: Json) -> ParticleV {
    ParticleV {
        x: num_text_or(field_of(j, "x"@), "0.0"@),
        y: num_text_or(field_of(j, "y"@), "0.0"@),
        color: spec_color_vec(field_of(j, "color"@)),
        age: num_text_or(field_of(j, "age"@), "0.0"@),
        lifetime: num_text_or(field_of(j, "lifetime"@), "1.0"@),
        size: num_text_or(field_of(j, "size"@), "3.0"@),
    }
}

/// The terrain cells of a message: every element of the array under the
/// key, or nothing where the key is absent or holds no array.
pub open spec fn spec_hexes(f: Option<Json>) -> Seq<HexCellV> {
    match f {
        Some(Json::Arr(a)) => a@.map_values(|x: Json| spec_hex(x)),
        _ => Seq::empty(),
    }
}

/// The creatures of a message, as `spec_hexes`.
pub open spec fn spec_orgs(f: Option<Json>) -> Seq<OrganismV> {
    match f {
        Some(Json::Arr(a)) => a@.map_values(|x: Json| spec_org(x)),
        _ => Seq::empty(),
    }
}

/// The particles of a message, as `spec_hexes`.
pub open spec fn spec_particles(f: Option<Json>) -> Seq<ParticleV> {
    match f {
        Some(Json::Arr(a)) => a@.map_values(|x: Json| spec_particle(x)),
        _ => Seq::empty(),
    }
}

/// The inventory of a message: each member of the object under the key
/// taken to its count, or nothing where the key is absent or holds no
/// object.
pub open spec fn spec_inventory(f: Option<Json>) -> Seq<(Seq<char>, u32)> {
    match f {
        Some(Json::Obj(fields)) => fields@.map_values(
            |kv: (String, Json)| (kv.0@, num_u32_or0(kv.1)),
        ),
        _ => Seq::empty(),
    }
}

/// The full content of one `"state"` message, defaults substituted
/// throughout.
pub open spec fn spec_update(j: Json) -> UpdateV {
    UpdateV {
        in_game: bool_or(field_of(j, "in_game"@), false),
        player: match field_of(j, "player"@) {
            Some(p) => Some(spec_player(p)),
            None => None,
        },
        camera: match field_of(j, "camera"@) {
            Some(c) => Some(spec_camera(c)),
            None => None,
        },
        hexagons: spec_hexes(field_of(j, "hexagons"@)),
        organisms: spec_orgs(field_of(j, "organisms"@)),
        particles: spec_particles(field_of(j, "particles"@)),
        inventory: spec_inventory(field_of(j, "inventory"@)),
        game_mode: str_or(field_of(j, "game_mode"@), "survival"@),
    }
}

/// Whether a document is a `"state"` message: its `type` member is the
/// string `"state"`. Every other document is ignored, so the protocol
/// stays forward-compatible.
pub open spec fn is_state_msg(j: Json) -> bool {
    match field_of(j, "type"@) {
        Some(Json::Str(s)) => s@ == "state"@,
        _ => false,
    }
}

/// What decoding one line yields, as a function of the line alone:
/// nothing on a blank line, a failure where the reference parser finds
/// no JSON, the message content where it is a `"state"` message, and
/// nothing — forward compatibility — on any other message.
pub open spec fn spec_decode(s: Seq<char>) -> DecodedV {
    if is_blank(s) {
        DecodedV::NoUpdate
    } else {
        match json_parse(s) {
            None => DecodedV::Failed,
            Some(j) => if is_state_msg(j) {
                DecodedV::State(spec_update(j))
            } else {
                DecodedV::NoUpdate
            },
        }
    }
}

/// The outcome an exec decode reports, folded to the spec-level view.
pub open spec fn decode_result_view(r: Result<Option<StateUpdate>, DecodeError>) -> DecodedV {
    match r {
        Ok(None) => DecodedV::NoUpdate,
        Ok(Some(u)) => DecodedV::State(u@),
        Err(_) => DecodedV::Failed,
    }
}

/// Whether a line is empty or whitespace only, matching `is_blank`.
pub fn line_blank(line: &str) -> (r: bool)
    ensures
        r == is_blank(line@),
{
    let n = line.unicode_len();
    let mut i: usize = 0;
    while i < n
        invariant
            i <= n,
            n == line@.len(),
            forall|k: int| 0 <= k < i ==> is_ws_char(line@[k]),
        decreases n - i,
    {
        let c = line.get_char(i);
        if !(c == ' ' || c == '\t' || c == '\r' || c == '\n') {
            assert(!is_ws_char(line@[i as int]));
            return false;
        }
        i += 1;
    }
    true
}

/// One color component, matching `num_u8_or255`.
fn num_u8(j: &Json) -> (r: u8)
    ensures
        r == num_u8_or255(*j),
{
    match j {
        Json::Num(n) => match n.uint_val {
            Some(u) => (u % 256) as u8,
            None => 255,
        },
        _ => 255,
    }
}

/// One inventory count, matching `num_u32_or0`.
fn num_u32(j: &Json) -> (r: u32)
    ensures
        r == num_u32_or0(*j),
{
    match j {
        Json::Num(n) => match n.uint_val {
            Some(u) => (u % 0x1_0000_0000) as u32,
            None => 0,
        },
        _ => 0,
    }
}

/// Opaque white, three bytes.
fn white_rgb() -> (r: Vec<u8>)
    ensures
        r@ == seq![255u8, 255u8, 255u8],
{
    let mut v: Vec<u8> = Vec::new();
    v.push(255);
    v.push(255);
    v.push(255);
    proof {
        assert(v@ =~= seq![255u8, 255u8, 255u8]);
    }
    v
}

/// Opaque white, four bytes.
fn white_rgba() -> (r: Vec<u8>)
    ensures
        r@ == seq![255u8, 255u8, 255u8, 255u8],
{
    let mut v: Vec<u8> = Vec::new();
    v.push(255);
    v.push(255);
    v.push(255);
    v.push(255);
    proof {
        assert(v@ =~= seq![255u8, 255u8, 255u8, 255u8]);
    }
    v
}

/// Reads a fixed three-byte color field, matching `spec_color_rgb`.
fn color_rgb_field(j: &Json, name: &str) -> (r: Vec<u8>)
    ensures
        r@ == spec_color_rgb(field_of(*j, name@)),
{
    match get_field(j, name) {
        Some(f) => match f {
            Json::Arr(a) => {
                if a.len() == 3 {
                    let mut v: Vec<u8> = Vec::new();
                    v.push(num_u8(&a[0]));
                    v.push(num_u8(&a[1]));
                    v.push(num_u8(&a[2]));
                    proof {
                        assert(v@ =~= seq![
                            num_u8_or255(a@[0]),
                            num_u8_or255(a@[1]),
                            num_u8_or255(a@[2]),
                        ]);
                    }
                    v
                } else {
                    white_rgb()
                }
            },
            _ => white_rgb(),
        },
        None => white_rgb(),
    }
}

/// Reads a variable-length color field, matching `spec_color_vec`.
fn color_vec_field(j: &Json, name: &str) -> (r: Vec<u8>)
    ensures
        r@ == spec_color_vec(field_of(*j, name@)),
{
    match get_field(j, name) {
        Some(f) => match f {
            Json::Arr(a) => {
                let n = a.len();
                let mut v: Vec<u8> = Vec::new();
                let mut i: usize = 0;
                while i < n
                    invariant
                        i <= n,
                        n == a@.len(),
                        v@.len() == i,
                        forall|k: int| 0 <= k < i ==> v@[k] == num_u8_or255(a@[k]),
                    decreases n - i,
                {
                    v.push(num_u8(&a[i]));
                    i += 1;
                }
                proof {
                    assert(v@ =~= spec_color_vec(Some(*f)));
                }
                v
            },
            _ => white_rgba(),
        },
        None => white_rgba(),
    }
}

/// Decodes the player record, matching `spec_player`.
pub fn parse_player(j: &Json) -> (r: PlayerState)
    ensures
        r@ == spec_player(*j),
{
    PlayerState {
        x: field_num_text(j, "x", "0.0"),
        y: field_num_text(j, "y", "0.0"),
        radius: field_num_text(j, "radius", "15.0"),
        color: color_rgb_field(j, "color"),
        selected_slot: field_i64(j, "selected_slot", 0),
        flight_mode: field_bool(j, "flight_mode", false),
        on_ground: field_bool(j, "on_ground", false),
    }
}

/// Decodes the camera record, matching `spec_camera`.
pub fn parse_camera(j: &Json) -> (r: CameraState)
    ensures
        r@ == spec_camera(*j),
{
    CameraState { x: field_num_text(j, "x", "0.0"), y: field_num_text(j, "y", "0.0") }
}

/// Decodes one terrain cell record, matching `spec_hex`.
fn parse_hex(j: &Json) -> (r: HexCellState)
    ensures
        r@ == spec_hex(*j),
{
    HexCellState {
        x: field_num_text(j, "x", "0.0"),
        y: field_num_text(j, "y", "0.0"),
        block_type: field_str(j, "block_type", ""),
        color: color_vec_field(j, "color"),
        health: field_num_text(j, "health", "100.0"),
        max_health: field_num_text(j, "max_health", "100.0"),
        transparent: field_bool(j, "transparent", false),
    }
}

/// Decodes one creature record, matching `spec_org`.
fn parse_org(j: &Json) -> (r: OrganismState)
    ensures
        r@ == spec_org(*j),
{
    OrganismState {
        x: field_num_text(j, "x", "0.0"),
        y: field_num_text(j, "y", "0.0"),
        org_type: field_str(j, "type", ""),
        health: field_num_text(j, "health", "100.0"),
        max_health: field_num_text(j, "max_health", "100.0"),
    }
}

/// Decodes one particle record, matching `spec_particle`.
fn parse_particle(j: &Json) -> (r: ParticleState)
    ensures
        r@ == spec_particle(*j),
{
    ParticleState {
        x: field_num_text(j, "x", "0.0"),
        y: field_num_text(j, "y", "0.0"),
        color: color_vec_field(j, "color"),
        age: field_num_text(j, "age", "0.0"),
        lifetime: field_num_text(j, "lifetime", "1.0"),
        size: field_num_text(j, "size", "3.0"),
    }
}

/// Decodes the terrain cell list under `name`, matching `spec_hexes`.
fn parse_hex_list(j: &Json, name: &str) -> (r: Vec<HexCellState>)
    ensures
        hex_views(r@) == spec_hexes(field_of(*j, name@)),
{
    match get_field(j, name) {
        Some(f) => match f {
            Json::Arr(a) => {
                let n = a.len();
                let mut out: Vec<HexCellState> = Vec::new();
                let mut i: usize = 0;
                while i < n
                    invariant
                        i <= n,
                        n == a@.len(),
                        out@.len() == i,
                        forall|k: int| 0 <= k < i ==> out@[k]@ == spec_hex(a@[k]),
                    decreases n - i,
                {
                    out.push(parse_hex(&a[i]));
                    i += 1;
                }
                proof {
                    assert(hex_views(out@) =~= spec_hexes(Some(*f)));
                }
                out
            },
            _ => {
                let out: Vec<HexCellState> = Vec::new();
                proof {
                    assert(hex_views(out@) =~= Seq::<HexCellV>::empty());
                }
                out
            },
        },
        None => {
            let out: Vec<HexCellState> = Vec::new();
            proof {
                assert(hex_views(out@) =~= Seq::<HexCellV>::empty());
            }
            out
        },
    }
}

/// Decodes the creature list under `name`, matching `spec_orgs`.
fn parse_org_list(j: &Json, name: &str) -> (r: Vec<OrganismState>)
    ensures
        org_views(r@) == spec_orgs(field_of(*j, name@)),
{
    match get_field(j, name) {
        Some(f) => match f {
            Json::Arr(a) => {
                let n = a.len();
                let mut out: Vec<OrganismState> = Vec::new();
                let mut i: usize = 0;
                while i < n
                    invariant
                        i <= n,
                        n == a@.len(),
                        out@.len() == i,
                        forall|k: int| 0 <= k < i ==> out@[k]@ == spec_org(a@[k]),
                    decreases n - i,
                {
                    out.push(parse_org(&a[i]));
                    i += 1;
                }
                proof {
                    assert(org_views(out@) =~= spec_orgs(Some(*f)));
                }
                out
            },
            _ => {
                let out: Vec<OrganismState> = Vec::new();
                proof {
                    assert(org_views(out@) =~= Seq::<OrganismV>::empty());
                }
                out
            },
        },
        None => {
            let out: Vec<OrganismState> = Vec::new();
            proof {
                assert(org_views(out@) =~= Seq::<OrganismV>::empty());
            }
            out
        },
    }
}

/// Decodes the particle list under `name`, matching `spec_particles`.
fn parse_particle_list(j: &Json, name: &str) -> (r: Vec<ParticleState>)
    ensures
        particle_views(r@) == spec_particles(field_of(*j, name@)),
{
    match get_field(j, name) {
        Some(f) => match f {
            Json::Arr(a) => {
                let n = a.len();
                let mut out: Vec<ParticleState> = Vec::new();
                let mut i: usize = 0;
                while i < n
                    invariant
                        i <= n,
                        n == a@.len(),
                        out@.len() == i,
                        forall|k: int| 0 <= k < i ==> out@[k]@ == spec_particle(a@[k]),
                    decreases n - i,
                {
                    out.push(parse_particle(&a[i]));
                    i += 1;
                }
                proof {
                    assert(particle_views(out@) =~= spec_particles(Some(*f)));
                }
                out
            },
            _ => {
                let out: Vec<ParticleState> = Vec::new();
                proof {
                    assert(particle_views(out@) =~= Seq::<ParticleV>::empty());
                }
                out
            },
        },
        None => {
            let out: Vec<ParticleState> = Vec::new();
            proof {
                assert(particle_views(out@) =~= Seq::<ParticleV>::empty());
            }
            out
        },
    }
}

/// Decodes the inventory object under `name`, matching `spec_inventory`.
fn parse_inventory(j: &Json, name: &str) -> (r: Vec<(String, u32)>)
    ensures
        inventory_views(r@) == spec_inventory(field_of(*j, name@)),
{
    match get_field(j, name) {
        Some(f) => match f {
            Json::Obj(fields) => {
                let n = fields.len();
                let mut out: Vec<(String, u32)> = Vec::new();
                let mut i: usize = 0;
                while i < n
                    invariant
                        i <= n,
                        n == fields@.len(),
                        out@.len() == i,
                        forall|k: int| 0 <= k < i ==> out@[k].0@ == fields@[k].0@ && out@[k].1
                            == num_u32_or0(fields@[k].1),
                    decreases n - i,
                {
                    let entry = &fields[i];
                    out.push((entry.0.clone(), num_u32(&entry.1)));
                    i += 1;
                }
                proof {
                    assert(inventory_views(out@) =~= spec_inventory(Some(*f)));
                }
                out
            },
            _ => {
                let out: Vec<(String, u32)> = Vec::new();
                proof {
                    assert(inventory_views(out@) =~= Seq::<(Seq<char>, u32)>::empty());
                }
                out
            },
        },
        None => {
            let out: Vec<(String, u32)> = Vec::new();
            proof {
                assert(inventory_views(out@) =~= Seq::<(Seq<char>, u32)>::empty());
            }
            out
        },
    }
}

/// Decodes the full content of one `"state"` message, matching
/// `spec_update`.
pub fn parse_update(j: &Json) -> (r: StateUpdate)
    ensures
        r@ == spec_update(*j),
{
    StateUpdate {
        in_game: field_bool(j, "in_game", false),
        player: match get_field(j, "player") {
            Some(p) => Some(parse_player(p)),
            None => None,
        },
        camera: match get_field(j, "camera") {
            Some(c) => Some(parse_camera(c)),
            None => None,
        },
        hexagons: parse_hex_list(j, "hexagons"),
        organisms: parse_org_list(j, "organisms"),
        particles: parse_particle_list(j, "particles"),
        inventory: parse_inventory(j, "inventory"),
        game_mode: field_str(j, "game_mode", "survival"),
    }
}

/// Whether a parsed document is a `"state"` message, matching
/// `is_state_msg`.
fn is_state_exec(j: &Json) -> (r: bool)
    ensures
        r == is_state_msg(*j),
{
    match get_field(j, "type") {
        Some(f) => match f {
            Json::Str(s) => str_eq_chk(s.as_str(), "state"),
            _ => false,
        },
        None => false,
    }
}

/// Decodes one protocol line. A blank line is "nothing new"; a line
/// the reference parser rejects is a `DecodeError`; a message whose
/// `type` is not `"state"` is ignored; a `"state"` message yields its
/// content with every missing or mistyped field at its default. The
/// outcome is exactly `spec_decode` of the line.
pub fn decode_line(line: &str) -> (r: Result<Option<StateUpdate>, DecodeError>)
    ensures
        decode_result_view(r) == spec_decode(line@),
{
    if line_blank(line) {
        return Ok(None);
    }
    match parse_json(line) {
        None => Err(DecodeError {}),
        Some(j) => {
            if is_state_exec(&j) {
                Ok(Some(parse_update(&j)))
            } else {
                Ok(None)
            }
        },
    }
}

} // verus!

