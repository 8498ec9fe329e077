//! Kinds of track routes.
use vstd::prelude::*;

verus! {

/// The kind of a track route.
#[derive(Clone, Copy, Debug, PartialEq, Eq, Hash, Structural)]
pub enum TrackRouteType {
    Send,
    Receive,
    HardwareOutput,
}

impl Default for TrackRouteType {
    fn default() -> (r: TrackRouteType)
        ensures
            r == TrackRouteType::Send,
    {
        TrackRouteType::Send
    }
}

} // verus!
