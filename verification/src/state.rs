//! The client-side world model: the last-known authoritative snapshot,
//! and its full-replacement update semantics.
//!
//! Numeric attributes coming off the wire (positions, health, sizes)
//! are carried as the decimal text the protocol delivered them in; the
//! rendering layer turns them into machine floats at its own edge. The
//! model holds no game logic: a decoded `"state"` message replaces each
//! applicable field wholesale.
use vstd::prelude::*;

verus! {

/// Authoritative state of the player avatar, replaced wholesale on each
/// update.
#[derive(Debug, Clone, PartialEq, Eq)]
pub struct PlayerState {
    /// Horizontal position, decimal text.
    pub x: String,
    /// Vertical position, decimal text.
    pub y: String,
    /// Avatar radius, decimal text.
    pub radius: String,
    /// Fixed three-byte RGB color.
    pub color: Vec<u8>,
    /// Selected hotbar slot.
    pub selected_slot: i64,
    /// Whether flight mode is active.
    pub flight_mode: bool,
    /// Whether the avatar stands on ground.
    pub on_ground: bool,
}

/// Authoritative camera position; drives the render camera directly.
#[derive(Debug, Clone, PartialEq, Eq)]
pub struct CameraState {
    pub x: String,
    pub y: String,
}

/// One terrain cell.
#[derive(Debug, Clone, PartialEq, Eq)]
pub struct HexCellState {
    pub x: String,
    pub y: String,
    /// Block kind identifier.
    pub block_type: String,
    /// Variable-length color bytes: RGB or RGBA.
    pub color: Vec<u8>,
    pub health: String,
    pub max_health: String,
    pub transparent: bool,
}

/// One creature.
#[derive(Debug, Clone, PartialEq, Eq)]
pub struct OrganismState {
    pub x: String,
    pub y: String,
    /// Creature kind identifier.
    pub org_type: String,
    pub health: String,
    pub max_health: String,
}

/// One visual particle.
#[derive(Debug, Clone, PartialEq, Eq)]
pub struct ParticleState {
    pub x: String,
    pub y: String,
    /// Variable-length color bytes: RGB or RGBA.
    pub color: Vec<u8>,
    pub age: String,
    pub lifetime: String,
    pub size: String,
}

/// Mathematical model of a `PlayerState`.
pub struct PlayerV {
    pub x: Seq<char>,
    pub y: Seq<char>,
    pub radius: Seq<char>,
    pub color: Seq<u8>,
    pub selected_slot: i64,
    pub flight_mode: bool,
    pub on_ground: bool,
}

/// Mathematical model of a `CameraState`.
pub struct CameraV {
    pub x: Seq<char>,
    pub y: Seq<char>,
}

/// Mathematical model of a `HexCellState`.
pub struct HexCellV {
    pub x: Seq<char>,
    pub y: Seq<char>,
    pub block_type: Seq<char>,
    pub color: Seq<u8>,
    pub health: Seq<char>,
    pub max_health: Seq<char>,
    pub transparent: bool,
}

/// Mathematical model of an `OrganismState`.
pub struct OrganismV {
    pub x: Seq<char>,
    pub y: Seq<char>,
    pub org_type: Seq<char>,
    pub health: Seq<char>,
    pub max_health: Seq<char>,
}

/// Mathematical model of a `ParticleState`.
pub struct ParticleV {
    pub x: Seq<char>,
    pub y: Seq<char>,
    pub color: Seq<u8>,
    pub age: Seq<char>,
    pub lifetime: Seq<char>,
    pub size: Seq<char>,
}

impl View for PlayerState {
    type V = PlayerV;

    open spec fn view(&self) -> PlayerV {
        PlayerV {
            x: self.x@,
            y: self.y@,
            radius: self.radius@,
            color: self.color@,
            selected_slot: self.selected_slot,
            flight_mode: self.flight_mode,
            on_ground: self.on_ground,
        }
    }
}

impl View for CameraState {
    type V = CameraV;

    open spec fn view(&self) -> CameraV {
        CameraV { x: self.x@, y: self.y@ }
    }
}

impl View for HexCellState {
    type V = HexCellV;

    open spec fn view(&self) -> HexCellV {
        HexCellV {
            x: self.x@,
            y: self.y@,
            block_type: self.block_type@,
            color: self.color@,
            health: self.health@,
            max_health: self.max_health@,
            transparent: self.transparent,
        }
    }
}

impl View for OrganismState {
    type V = OrganismV;

    open spec fn view(&self) -> OrganismV {
        OrganismV {
            x: self.x@,
            y: self.y@,
            org_type: self.org_type@,
            health: self.health@,
            max_health: self.max_health@,
        }
    }
}

impl View for ParticleState {
    type V = ParticleV;

    open spec fn view(&self) -> ParticleV {
        ParticleV {
            x: self.x@,
            y: self.y@,
            color: self.color@,
            age: self.age@,
            lifetime: self.lifetime@,
            size: self.size@,
        }
    }
}

/// The content of one decoded `"state"` message. `player` and `camera`
/// are `None` where the message carried no such key — the model then
/// keeps its previous value; the collections are always the message's
/// own, empty where the key was absent or ill-shaped.
#[derive(Debug, Clone, PartialEq, Eq)]
pub struct StateUpdate {
    pub in_game: bool,
    pub player: Option<PlayerState>,
    pub camera: Option<CameraState>,
    pub hexagons: Vec<HexCellState>,
    pub organisms: Vec<OrganismState>,
    pub particles: Vec<ParticleState>,
    /// Item identifier mapped to count, in the order the parser reports;
    /// identifiers are distinct.
    pub inventory: Vec<(String, u32)>,
    pub game_mode: String,
}

/// Mathematical model of a `StateUpdate`.
pub struct UpdateV {
    pub in_game: bool,
    pub player: Option<PlayerV>,
    pub camera: Option<CameraV>,
    pub hexagons: Seq<HexCellV>,
    pub organisms: Seq<OrganismV>,
    pub particles: Seq<ParticleV>,
    pub inventory: Seq<(Seq<char>, u32)>,
    pub game_mode: Seq<char>,
}

/// Views of a sequence of hex cells, elementwise.
pub open spec fn hex_views(v: Seq<HexCellState>) -> Seq<HexCellV> {
    v.map_values(|h: HexCellState| h@)
}

/// Views of a sequence of organisms, elementwise.
pub open spec fn org_views(v: Seq<OrganismState>) -> Seq<OrganismV> {
    v.map_values(|o: OrganismState| o@)
}

/// Views of a sequence of particles, elementwise.
pub open spec fn particle_views(v: Seq<ParticleState>) -> Seq<ParticleV> {
    v.map_values(|p: ParticleState| p@)
}

/// Views of an inventory list, elementwise.
pub open spec fn inventory_views(v: Seq<(String, u32)>) -> Seq<(Seq<char>, u32)> {
    v.map_values(|e: (String, u32)| (e.0@, e.1))
}

impl View for StateUpdate {
    type V = UpdateV;

    open spec fn view(&self) -> UpdateV {
        UpdateV {
            in_game: self.in_game,
            player: match self.player {
                Some(p) => Some(p@),
                None => None,
            },
            camera: match self.camera {
                Some(c) => Some(c@),
                None => None,
            },
            hexagons: hex_views(self.hexagons@),
            organisms: org_views(self.organisms@),
            particles: particle_views(self.particles@),
            inventory: inventory_views(self.inventory@),
            game_mode: self.game_mode@,
        }
    }
}

/// The world model: the one snapshot of last-known authoritative state.
#[derive(Debug, Clone, PartialEq, Eq)]
pub struct WorldSnapshot {
    pub in_game: bool,
    pub player: Option<PlayerState>,
    pub camera: Option<CameraState>,
    pub hexagons: Vec<HexCellState>,
    pub organisms: Vec<OrganismState>,
    pub particles: Vec<ParticleState>,
    pub inventory: Vec<(String, u32)>,
    pub game_mode: String,
}

/// Mathematical model of a `WorldSnapshot`.
pub struct WorldV {
    pub in_game: bool,
    pub player: Option<PlayerV>,
    pub camera: Option<CameraV>,
    pub hexagons: Seq<HexCellV>,
    pub organisms: Seq<OrganismV>,
    pub particles: Seq<ParticleV>,
    pub inventory: Seq<(Seq<char>, u32)>,
    pub game_mode: Seq<char>,
}

impl View for WorldSnapshot {
    type V = WorldV;

    open spec fn view(&self) -> WorldV {
        WorldV {
            in_game: self.in_game,
            player: match self.player {
                Some(p) => Some(p@),
                None => None,
            },
            camera: match self.camera {
                Some(c) => Some(c@),
                None => None,
            },
            hexagons: hex_views(self.hexagons@),
            organisms: org_views(self.organisms@),
            particles: particle_views(self.particles@),
            inventory: inventory_views(self.inventory@),
            game_mode: self.game_mode@,
        }
    }
}

/// The world a client starts from, before any server message: out of
/// game, nothing known, survival mode.
pub open spec fn spec_initial_world() -> WorldV {
    WorldV {
        in_game: false,
        player: None,
        camera: None,
        hexagons: Seq::empty(),
        organisms: Seq::empty(),
        particles: Seq::empty(),
        inventory: Seq::empty(),
        game_mode: "survival"@,
    }
}

/// Full-replacement application of one decoded `"state"` message: with
/// `in_game` set, every collection and the mode become the message's
/// own, and player and camera are replaced where the message carried
/// them; with `in_game` clear, only the flag itself changes and all
/// gameplay sub-state keeps its previous value.
pub open spec fn spec_apply(w: WorldV, u: UpdateV) -> WorldV {
    if u.in_game {
        WorldV {
            in_game: true,
            player: match u.player {
                Some(p) => Some(p),
                None => w.player,
            },
            camera: match u.camera {
                Some(c) => Some(c),
                None => w.camera,
            },
            hexagons: u.hexagons,
            organisms: u.organisms,
            particles: u.particles,
            inventory: u.inventory,
            game_mode: u.game_mode,
        }
    } else {
        WorldV { in_game: false, ..w }
    }
}

impl WorldSnapshot {
    /// A fresh world model, matching `spec_initial_world`.
    pub fn new() -> (r: WorldSnapshot)
        ensures
            r@ == spec_initial_world(),
    {
        let r = WorldSnapshot {
            in_game: false,
            player: None,
            camera: None,
            hexagons: Vec::new(),
            organisms: Vec::new(),
            particles: Vec::new(),
            inventory: Vec::new(),
            game_mode: "survival".to_owned(),
        };
        proof {
            assert(hex_views(r.hexagons@) =~= Seq::<HexCellV>::empty());
            assert(org_views(r.organisms@) =~= Seq::<OrganismV>::empty());
            assert(particle_views(r.particles@) =~= Seq::<ParticleV>::empty());
            assert(inventory_views(r.inventory@) =~= Seq::<(Seq<char>, u32)>::empty());
        }
        r
    }

    /// Applies one decoded `"state"` message, replacing each applicable
    /// field wholesale as `spec_apply` states.
    pub fn apply(&mut self, u: StateUpdate)
        ensures
            final(self)@ == spec_apply(old(self)@, u@),
    {
        let StateUpdate {
            in_game,
            player,
            camera,
            hexagons,
            organisms,
            particles,
            inventory,
            game_mode,
        } = u;
        self.in_game = in_game;
        if in_game {
            if let Some(p) = player {
                self.player = Some(p);
            }
            if let Some(c) = camera {
                self.camera = Some(c);
            }
            self.hexagons = hexagons;
            self.organisms = organisms;
            self.particles = particles;
            self.inventory = inventory;
            self.game_mode = game_mode;
        }
    }

    /// The rendered player position, where one is known: the decimal
    /// texts of x and y, for the scene layer to push into its transform.
    pub fn player_position(&self) -> (r: Option<(String, String)>)
        ensures
            match r {
                Some(q) => self@.player matches Some(p) && q.0@ == p.x && q.1@ == p.y,
                None => self@.player is None,
            },
    {
        match &self.player {
            Some(p) => Some((p.x.clone(), p.y.clone())),
            None => None,
        }
    }

    /// The camera position, where one is known, as decimal texts.
    pub fn camera_position(&self) -> (r: Option<(String, String)>)
        ensures
            match r {
                Some(q) => self@.camera matches Some(c) && q.0@ == c.x && q.1@ == c.y,
                None => self@.camera is None,
            },
    {
        match &self.camera {
            Some(c) => Some((c.x.clone(), c.y.clone())),
            None => None,
        }
    }
}

/// Idempotence of snapshot application: applying one decoded `"state"`
/// message a second time changes nothing — the world after two
/// applications equals the world after one.
pub proof fn lemma_apply_idempotent(w: WorldV, u: UpdateV)
    ensures
        spec_apply(spec_apply(w, u), u) == spec_apply(w, u),
{
}

/// Full-replacement semantics of the collections: after applying an
/// in-game update, the world's terrain cells, organisms, particles and
/// inventory are exactly the update's own, whatever the world held
/// before — a message with an empty list leaves an empty collection.
pub proof fn lemma_apply_replaces_collections(w: WorldV, u: UpdateV)
    requires
        u.in_game,
    ensures
        spec_apply(w, u).hexagons == u.hexagons,
        spec_apply(w, u).organisms == u.organisms,
        spec_apply(w, u).particles == u.particles,
        spec_apply(w, u).inventory == u.inventory,
        spec_apply(w, u).game_mode == u.game_mode,
{
}

} // verus!
