//! What is decided about one player from what the bus says of it.
use vstd::prelude::*;

use crate::errors::{MprisError, MprisErrorView};
use crate::text::{same_text, trim_start_matches, without_leading};
use crate::MPRIS2_PREFIX;

verus! {

/// The name of the error with which the bus answers for a name that nobody owns.
pub const SERVICE_UNKNOWN: &'static str = "org.freedesktop.DBus.Error.ServiceUnknown";

/// A ping that failed: the name of the error, where the bus gave one, and
/// the description of the failure.
#[derive(Debug)]
pub struct PingFailure {
    pub error_name: Option<String>,
    pub description: String,
}

/// Whether the failure says that nobody owns the bus name of the player.
pub open spec fn is_service_unknown(failure: PingFailure) -> bool {
    failure.error_name is Some && failure.error_name->0@
        == "org.freedesktop.DBus.Error.ServiceUnknown"@
}

/// Whether a player is running, from the outcome of a ping: it is where the
/// ping was answered, it is not where nobody owns its bus name, and any
/// other failure leaves the question open.
pub fn running_after_ping(ping: Result<(), PingFailure>) -> (running: Result<bool, MprisError>)
    ensures
        match ping {
            Ok(_) => running == Ok::<bool, MprisError>(true),
            Err(failure) => if is_service_unknown(failure) {
                running == Ok::<bool, MprisError>(false)
            } else {
                running is Err && running->Err_0@ == MprisErrorView::DbusError(
                    failure.description@,
                )
            },
        },
{
    match ping {
        Ok(_) => Ok(true),
        Err(failure) => {
            let unknown = match &failure.error_name {
                Some(name) => same_text(name.as_str(), SERVICE_UNKNOWN),
                None => false,
            };
            if unknown {
                Ok(false)
            } else {
                Err(MprisError::DbusError(failure.description))
            }
        },
    }
}

/// The name of a player's bus without what all players' buses start with.
pub fn bus_name_trimmed(bus_name: &str) -> (short: &str)
    ensures
        short@ == without_leading(bus_name@, "org.mpris.MediaPlayer2."@),
{
    trim_start_matches(bus_name, MPRIS2_PREFIX)
}

} // verus!
