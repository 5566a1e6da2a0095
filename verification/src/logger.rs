//! Log lines handed to the external log sink. The clock and the sink
//! live with the surrounding application; the payload itself is built
//! here.

use vstd::prelude::*;
use crate::model::LogPayload;

verus! {

/// Build the payload of one log line from its level, message and
/// millisecond timestamp, each taken as given.
pub fn make_log_payload(level: &str, message: &str, timestamp: &str) -> (r: LogPayload)
    ensures
        r.level@ == level@,
        r.message@ == message@,
        r.timestamp@ == timestamp@,
{
    LogPayload {
        level: level.to_owned(),
        message: message.to_owned(),
        timestamp: timestamp.to_owned(),
    }
}

} // verus!
