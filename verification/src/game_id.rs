//! Game identifiers of the native platform, packed and unpacked.

use vstd::prelude::*;

verus! {

/// A game identifier packed into 64 bits: the app id in bits 0 to 23, the
/// game type in bits 24 to 31, the mod id in bits 32 to 63.
pub type GameUID = u64;

/// A game identifier by its parts.
#[derive(Debug, Clone, Copy, PartialEq, Eq, Structural)]
pub struct GameID {
    pub app_id: u32,
    pub game_type: u8,
    pub mod_id: u32,
}

/// The parts of a packed identifier.
pub open spec fn unpacked(value: u64) -> GameID {
    GameID {
        app_id: (value & 0xFFFFFF) as u32,
        game_type: ((value >> 24) & 0xFF) as u8,
        mod_id: (value >> 32) as u32,
    }
}

/// The packed form of an identifier.
pub open spec fn packed(id: GameID) -> u64 {
    (id.app_id as u64) | ((id.game_type as u64) << 24) | ((id.mod_id as u64) << 32)
}

impl GameID {
    /// An identifier from its parts. Of the app id the low 24 bits count.
    pub fn new(app_id: u32, game_type: u8, mod_id: u32) -> (id: Self)
        ensures
            id.app_id == app_id & 0xFFFFFF,
            id.app_id == app_id % 0x1000000,
            id.game_type == game_type,
            id.mod_id == mod_id,
    {
        assert(app_id & 0xFFFFFF == app_id % 0x1000000) by (bit_vector);
        Self { app_id: app_id & 0xFFFFFF, game_type, mod_id }
    }

    /// Whether the identifier names an app: its type is that of an app, and
    /// its app id is not the one that stands for no app.
    pub open spec fn spec_is_valid_app(&self) -> bool {
        self.game_type == 0 && self.app_id != 0
    }

    /// Whether the identifier names an app.
    #[verifier::when_used_as_spec(spec_is_valid_app)]
    pub fn is_valid_app(&self) -> (valid: bool)
        ensures
            valid == self.spec_is_valid_app(),
    {
        self.game_type == 0 && self.app_id != 0
    }

    /// The packed form of the identifier.
    pub fn uid(&self) -> (value: GameUID)
        ensures
            value == packed(*self),
    {
        (self.app_id as u64) | ((self.game_type as u64) << 24) | ((self.mod_id as u64) << 32)
    }
}

impl From<GameUID> for GameID {
    fn from(value: GameUID) -> (id: GameID) {
        let app_id = (value & 0xFFFFFF) as u32;
        let game_type = ((value >> 24) & 0xFF) as u8;
        let mod_id = (value >> 32) as u32;
        assert((value & 0xFFFFFF) as u32 & 0xFFFFFF == (value & 0xFFFFFF) as u32) by (bit_vector);
        Self::new(app_id, game_type, mod_id)
    }
}

impl vstd::std_specs::convert::FromSpecImpl<GameUID> for GameID {
    open spec fn obeys_from_spec() -> bool {
        true
    }

    open spec fn from_spec(value: GameUID) -> GameID {
        unpacked(value)
    }
}

impl From<GameID> for GameUID {
    fn from(id: GameID) -> (value: GameUID) {
        id.uid()
    }
}

impl vstd::std_specs::convert::FromSpecImpl<GameID> for GameUID {
    open spec fn obeys_from_spec() -> bool {
        true
    }

    open spec fn from_spec(id: GameID) -> GameUID {
        packed(id)
    }
}

/// Unpacking and packing again gives the identifier back.
pub proof fn lemma_pack_unpacked(value: u64)
    ensures
        packed(unpacked(value)) == value,
{
    assert(((value & 0xFFFFFF) as u32 as u64) | ((((value >> 24) & 0xFF) as u8 as u64) << 24) | (((
    value >> 32) as u32 as u64) << 32) == value) by (bit_vector);
}

/// Packing and unpacking again gives the parts back, where the app id fits in
/// its 24 bits.
pub proof fn lemma_unpack_packed(id: GameID)
    requires
        id.app_id < 0x1000000,
    ensures
        unpacked(packed(id)) == id,
{
    let a = id.app_id;
    let t = id.game_type;
    let m = id.mod_id;
    let p = (a as u64) | ((t as u64) << 24) | ((m as u64) << 32);
    assert((p & 0xFFFFFF) as u32 == a && ((p >> 24) & 0xFF) as u8 == t && (p >> 32) as u32 == m)
        by (bit_vector)
        requires
            a < 0x1000000,
            p == (a as u64) | ((t as u64) << 24) | ((m as u64) << 32),
    ;
}

/// An identifier made of an app id below 2^24 alone packs to that app id.
pub proof fn lemma_app_packs_to_itself(app_id: u32)
    requires
        app_id < 0x1000000,
    ensures
        packed(GameID { app_id, game_type: 0, mod_id: 0 }) == app_id,
{
    assert((app_id as u64) | ((0u8 as u64) << 24) | ((0u32 as u64) << 32) == app_id as u64)
        by (bit_vector);
}

} // verus!
