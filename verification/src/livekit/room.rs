//! Room parameters and descriptions.

use vstd::prelude::*;

verus! {

/// Room metadata attached to every LiveKit room created.
#[derive(Debug)]
pub struct RoomMeta {
    /// ATProto DID of the host.
    pub host_did: String,
    /// AT URI of the `tools.know-me.live.session` record.
    pub session_uri: String,
    /// Whether the session is gated (paid).
    pub gated: bool,
}

/// Options for creating a new room.
#[derive(Debug)]
pub struct CreateRoomParams {
    pub room_name: String,
    pub host_did: String,
    pub session_uri: String,
    pub gated: bool,
    /// Max participants (0 = unlimited).
    pub max_participants: u32,
    /// Empty room timeout in seconds.
    pub empty_timeout_secs: u32,
}

impl Default for CreateRoomParams {
    fn default() -> (r: CreateRoomParams)
        ensures
            r.room_name@ == Seq::<char>::empty(),
            r.host_did@ == Seq::<char>::empty(),
            r.session_uri@ == Seq::<char>::empty(),
            !r.gated,
            r.max_participants == 0,
            r.empty_timeout_secs == 300,
    {
        CreateRoomParams {
            room_name: String::new(),
            host_did: String::new(),
            session_uri: String::new(),
            gated: false,
            max_participants: 0,
            empty_timeout_secs: 300,
        }
    }
}

impl CreateRoomParams {
    /// The metadata recorded on the room: its host, session and gating.
    pub fn meta(&self) -> (r: RoomMeta)
        ensures
            r.host_did@ == self.host_did@,
            r.session_uri@ == self.session_uri@,
            r.gated == self.gated,
    {
        RoomMeta {
            host_did: self.host_did.clone(),
            session_uri: self.session_uri.clone(),
            gated: self.gated,
        }
    }
}

/// Room info returned to callers.
#[derive(Debug)]
pub struct RoomInfo {
    pub name: String,
    pub sid: String,
    pub num_participants: u32,
    pub max_participants: u32,
    pub creation_time: i64,
    pub metadata: Option<String>,
}

} // verus!
