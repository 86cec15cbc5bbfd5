//! Tiles that kill on touch.

use crate::player::respawn::RespawnPlayerEvent;
use vstd::prelude::*;

verus! {

/// A report from the physics engine on two bodies in contact.
#[derive(Debug, Copy, Clone, PartialEq, Eq, Structural)]
pub enum HazardContact {
    /// The bodies began to touch.
    Started,
    /// The bodies ceased to touch.
    Stopped,
}

/// What follows from the contact reports of a tick.
#[derive(Debug, Copy, Clone, PartialEq, Eq, Structural)]
pub struct HazardResponse {
    /// The player is sent back to the spawn point.
    pub respawn_player: Option<RespawnPlayerEvent>,
    /// The reports that are still pending are thrown away.
    pub clear: bool,
}

/// Looks at the first pending contact report, and at no other. Only bodies
/// that report contact without stopping anything send such reports, and the
/// hazardous tiles are the only such bodies: where the report says that a
/// contact began, the player is sent back to the spawn point. With a report
/// of either kind, the rest of the pending reports are thrown away.
pub fn player_contact_hazard(collision: Option<HazardContact>) -> (r: HazardResponse)
    ensures
        r.respawn_player is Some <==> collision == Some(HazardContact::Started),
        r.clear <==> collision is Some,
{
    match collision {
        Some(HazardContact::Started) => HazardResponse {
            respawn_player: Some(RespawnPlayerEvent),
            clear: true,
        },
        Some(HazardContact::Stopped) => HazardResponse { respawn_player: None, clear: true },
        None => HazardResponse { respawn_player: None, clear: false },
    }
}

} // verus!
