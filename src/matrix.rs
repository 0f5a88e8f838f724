use vstd::prelude::*;
use std::collections::HashMap;

verus! {

/// A chat room as the protocol client knows it.
pub struct Room {
    pub id: String,
    pub name: String,
    pub avatar_url: Option<String>,
    pub last_message: Option<String>,
    pub unread_count: u32,
}

/// Where and as whom the protocol client logs in.
pub struct MatrixConfig {
    pub homeserver: String,
    pub username: String,
    pub device_name: String,
}

/// The protocol client's room store, keyed by room id.
pub struct MatrixClient {
    rooms: HashMap<String, Room>,
}

impl MatrixClient {
    /// The rooms known to the client, by id.
    pub closed spec fn known_rooms(&self) -> Map<String, Room> {
        self.rooms@
    }

    pub fn new() -> (r: MatrixClient)
        ensures
            r.known_rooms() == Map::<String, Room>::empty(),
    {
        MatrixClient { rooms: HashMap::new() }
    }

    pub fn get_rooms(&self) -> (r: &HashMap<String, Room>)
        ensures
            r@ == self.known_rooms(),
    {
        &self.rooms
    }
}

} // verus!
