//! Small value types shared by the server and the client.

use bevy_renet::renet::NETCODE_USER_DATA_BYTES;
use vstd::prelude::*;
use vstd::slice::{slice_subrange, slice_to_vec};
use vstd::string::StringSliceAdditionalSpecFns;
use vstd::utf8::{decode_utf8, encode_utf8, valid_utf8};

use crate::axial_coordinates::AxialCoordinates;
use crate::server::model::PlayerView;

verus! {

/// Whether a player has declared that the match may start.
#[derive(Clone, Copy, Debug, PartialEq, Eq, Structural)]
pub struct Readiness(pub bool);

/// Whether a player has reported that the level is loaded.
#[derive(Clone, Copy, Debug, PartialEq, Eq, Structural)]
pub struct LevelLoaded(pub bool);

/// Marks the one player whose turn it is.
#[derive(Clone, Copy, Debug, PartialEq, Eq, Structural)]
pub struct CurrentPlayer(pub u64);

/// A label for an object of the server's world. It means something to the
/// server only; everyone else hands it back unchanged.
#[derive(Clone, Copy, Debug, PartialEq, Eq, Hash, Structural)]
pub struct ServerEntity(pub u64);

/// The owner of a character, by client id.
#[derive(Clone, Copy, Debug, PartialEq, Eq, Structural)]
pub struct OwnedBy(pub u64);

/// A spawn point: a cell and its elevation.
#[derive(Clone, Copy, Debug, PartialEq, Eq, Structural)]
pub struct PlayerSpawnpoint(pub AxialCoordinates, pub i32);

/// One connected player, as the server keeps it.
#[derive(Debug, PartialEq, Eq)]
pub struct Player {
    /// The client id.
    pub id: u64,
    pub name: String,
    pub readiness: Readiness,
    pub level_loaded: LevelLoaded,
    /// The server's label for the player.
    pub entity: ServerEntity,
    /// The spawn point assigned for the spawn phase.
    pub spawnpoint: Option<PlayerSpawnpoint>,
    /// The server's label for the player's character, once it is in the
    /// world.
    pub character: Option<ServerEntity>,
}

impl View for Player {
    type V = PlayerView;

    open spec fn view(&self) -> PlayerView {
        PlayerView {
            id: self.id,
            name: self.name@,
            readiness: self.readiness.0,
            level_loaded: self.level_loaded.0,
            entity: self.entity,
            spawnpoint: self.spawnpoint,
            character: self.character,
        }
    }
}

impl DeepView for Player {
    type V = PlayerView;

    open spec fn deep_view(&self) -> PlayerView {
        self@
    }
}

#[derive(Clone, Copy, Debug, PartialEq, Eq, Structural)]
pub struct Special {
    pub strength: u8,
    pub perception: u8,
    pub endurance: u8,
    pub charisma: u8,
    pub intelligence: u8,
    pub agility: u8,
    pub luck: u8,
}

impl Special {
    /// Every attribute at its starting value of five.
    pub fn new() -> (special: Self)
        ensures
            special == (Special {
                strength: 5,
                perception: 5,
                endurance: 5,
                charisma: 5,
                intelligence: 5,
                agility: 5,
                luck: 5,
            }),
    {
        Self {
            strength: 5,
            perception: 5,
            endurance: 5,
            charisma: 5,
            intelligence: 5,
            agility: 5,
            luck: 5,
        }
    }
}

#[derive(Clone, Copy, Debug, PartialEq, Eq, Structural)]
pub enum TileType {
    Passable(u8),
    Impassable,
}

#[derive(Clone, Copy, Debug, PartialEq, Eq, Structural)]
pub enum Race {
    EarthPony,
    Unicorn,
    Pegasus,
}

/// The bytes of the user-data buffer that come before the name: the name's
/// length in bytes, as a little-endian `u64`.
pub const LENGTH_PREFIX_BYTES: usize = 8;

/// The most bytes of a name that the 256-byte user-data buffer has room for.
pub open spec fn name_capacity() -> int {
    256 - LENGTH_PREFIX_BYTES
}

/// The number that eight bytes spell in little-endian order.
pub open spec fn le_u64(bytes: Seq<u8>) -> int
    recommends
        bytes.len() == 8,
{
    bytes[0] + 256 * (bytes[1] + 256 * (bytes[2] + 256 * (bytes[3] + 256 * (bytes[4] + 256 * (
        bytes[5] + 256 * (bytes[6] + 256 * bytes[7]))))))
}

/// The eight bytes that spell `x` in little-endian order.
pub open spec fn u64_le_bytes(x: u64) -> Seq<u8> {
    seq![
        (x % 256) as u8,
        (x / 0x100 % 256) as u8,
        (x / 0x1_0000 % 256) as u8,
        (x / 0x100_0000 % 256) as u8,
        (x / 0x1_0000_0000 % 256) as u8,
        (x / 0x100_0000_0000 % 256) as u8,
        (x / 0x1_0000_0000_0000 % 256) as u8,
        (x / 0x100_0000_0000_0000 % 256) as u8,
    ]
}

/// The user-data buffer that carries `name`: the length prefix, the name in
/// UTF-8, then zeros to the end.
pub open spec fn encode_user_data(name: Seq<char>) -> Seq<u8>
    recommends
        encode_utf8(name).len() <= name_capacity(),
{
    let bytes = encode_utf8(name);
    u64_le_bytes(bytes.len() as u64) + bytes + Seq::new(
        (name_capacity() - bytes.len()) as nat,
        |i: int| 0u8,
    )
}

/// How many bytes of `data` hold the name: what the length prefix says, cut
/// down to the room there is.
pub open spec fn user_data_name_len(data: Seq<u8>) -> int {
    let stated = le_u64(data.subrange(0, LENGTH_PREFIX_BYTES as int));
    if stated <= name_capacity() {
        stated
    } else {
        name_capacity()
    }
}

/// The bytes of `data` that hold the name.
pub open spec fn user_data_name_bytes(data: Seq<u8>) -> Seq<u8> {
    data.subrange(LENGTH_PREFIX_BYTES as int, LENGTH_PREFIX_BYTES + user_data_name_len(data))
}

/// The name that the user-data buffer `data` carries, if its name bytes are
/// well-formed UTF-8.
pub open spec fn decode_user_data(data: Seq<u8>) -> Option<Seq<char>> {
    if valid_utf8(user_data_name_bytes(data)) {
        Some(decode_utf8(user_data_name_bytes(data)))
    } else {
        None
    }
}

/// `String::from_utf8` of std: the string that `bytes` encode where they are
/// well-formed UTF-8, and nothing where they are not.
#[verifier::external_body]
fn string_from_utf8(bytes: Vec<u8>) -> (decoded: Option<String>)
    ensures
        decoded.is_some() == valid_utf8(bytes@),
        decoded.is_some() ==> decoded.unwrap()@ == decode_utf8(bytes@),
{
    match String::from_utf8(bytes) {
        Ok(s) => Some(s),
        Err(_) => None,
    }
}

/// Reads eight bytes as a little-endian number.
fn read_le_u64(bytes: &[u8]) -> (x: u64)
    requires
        bytes@.len() == 8,
    ensures
        x == le_u64(bytes@),
{
    let mut x: u64 = 0;
    let mut i: usize = 8;
    while i > 0
        invariant
            i <= 8,
            bytes@.len() == 8,
            // `x` is what the bytes from `i` on spell, taken as the low end
            // of a number.
            x == le_u64(Seq::new(8, |j: int| if j < 8 - i { bytes@[j + i] } else { 0u8 })),
        decreases i,
    {
        i = i - 1;
        x = x * 256 + bytes[i] as u64;
    }
    x
}

#[derive(Debug, PartialEq, Eq)]
pub struct Username(pub String);

impl Username {
    /// Whether the name has room in a user-data buffer: no more bytes than
    /// the buffer has behind the length prefix.
    pub fn fits_user_data(&self) -> (fits: bool)
        ensures
            fits == (encode_utf8(self.0@).len() <= name_capacity()),
    {
        self.0.as_str().as_bytes().len() <= 256 - LENGTH_PREFIX_BYTES
    }

    /// Packs the name into a user-data buffer. The name must have room in
    /// it: see [`Username::fits_user_data`].
    pub fn to_netcode_user_data(&self) -> (user_data: [u8; NETCODE_USER_DATA_BYTES])
        requires
            encode_utf8(self.0@).len() <= name_capacity(),
        ensures
            user_data@ == encode_user_data(self.0@),
    {
        let mut user_data = [0u8; NETCODE_USER_DATA_BYTES];
        let name = self.0.as_str().as_bytes();
        // The length is below 256: it fills the first byte of its prefix, and
        // the other seven stay zero.
        user_data[0] = name.len() as u8;
        let mut k: usize = 0;
        while k < name.len()
            invariant
                k <= name@.len() <= 248,
                forall|j: int| 0 <= j < 8 ==> user_data@[j] == u64_le_bytes(name@.len() as u64)[j],
                forall|j: int| 0 <= j < k ==> user_data@[8 + j] == name@[j],
                forall|j: int| 8 + k <= j < 256 ==> user_data@[j] == 0,
            decreases name@.len() - k,
        {
            user_data[LENGTH_PREFIX_BYTES + k] = name[k];
            k = k + 1;
        }
        user_data
    }

    /// Reads the name out of a user-data buffer: `None` where its name bytes
    /// are not well-formed UTF-8.
    pub fn from_user_data(user_data: &[u8; NETCODE_USER_DATA_BYTES]) -> (name: Option<Self>)
        ensures
            name.is_some() == decode_user_data(user_data@).is_some(),
            name.is_some() ==> name.unwrap().0@ == decode_user_data(user_data@).unwrap(),
    {
        let bytes = user_data.as_slice();
        let stated = read_le_u64(slice_subrange(bytes, 0, LENGTH_PREFIX_BYTES));
        let room: usize = bytes.len() - LENGTH_PREFIX_BYTES;
        let len: usize = if stated <= room as u64 { stated as usize } else { room };
        let data = slice_to_vec(
            slice_subrange(bytes, LENGTH_PREFIX_BYTES, LENGTH_PREFIX_BYTES + len),
        );
        match string_from_utf8(data) {
            Some(s) => Some(Username(s)),
            None => None,
        }
    }
}

/// A name that fits the user-data buffer comes back out of it unchanged.
pub proof fn lemma_user_data_round_trip(name: Seq<char>)
    requires
        encode_utf8(name).len() <= name_capacity(),
    ensures
        encode_user_data(name).len() == 256,
        decode_user_data(encode_user_data(name)) == Some(name),
{
    assert(user_data_name_bytes(encode_user_data(name)) =~= encode_utf8(name));
    vstd::utf8::encode_utf8_valid_utf8(name);
    vstd::utf8::encode_utf8_decode_utf8(name);
}

} // verus!
