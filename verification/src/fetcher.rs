//! Decisions of the resource fetcher: the fixed plan for listening to
//! database notifications, and the choice of which mirrored resource a
//! notification requires refreshing.  Connecting, listening and writing
//! files is I/O that a caller performs around these decisions.

use vstd::prelude::*;
use vstd::string::{StrSliceExecFns, StringExecFns};

verus! {

/// A resource mirrored from the database to on-disk files.
#[derive(Clone, Copy, PartialEq, Eq, Structural, Debug)]
pub enum Resource {
    Camera,
    Dms,
    DmsMsg,
    DmsAttribute,
    Font,
    Graphic,
    Incident,
    ParkingArea,
    RNode,
    SignConfig,
    SignDetail,
    SignMessage,
    TpimsDyn,
    TpimsArch,
}

/// Compare two string slices character by character.
fn str_eq(a: &str, b: &str) -> (r: bool)
    ensures
        r == (a@ == b@),
{
    let na = a.unicode_len();
    let nb = b.unicode_len();
    if na != nb {
        return false;
    }
    let mut i: usize = 0;
    while i < na
        invariant
            0 <= i <= na,
            na == a@.len(),
            na == b@.len(),
            forall|j: int| 0 <= j < i ==> a@[j] == b@[j],
        decreases na - i,
    {
        if a.get_char(i) != b.get_char(i) {
            return false;
        }
        i = i + 1;
    }
    proof {
        assert(a@ =~= b@);
    }
    true
}

/// The resource a notification channel names directly, if any.
pub open spec fn spec_channel_resource(chan: Seq<char>) -> Option<Resource> {
    if chan == "camera"@ {
        Some(Resource::Camera)
    } else if chan == "dms"@ {
        Some(Resource::Dms)
    } else if chan == "font"@ {
        Some(Resource::Font)
    } else if chan == "graphic"@ {
        Some(Resource::Graphic)
    } else if chan == "incident"@ {
        Some(Resource::Incident)
    } else if chan == "parking_area"@ {
        Some(Resource::ParkingArea)
    } else if chan == "r_node"@ {
        Some(Resource::RNode)
    } else if chan == "sign_config"@ {
        Some(Resource::SignConfig)
    } else if chan == "sign_detail"@ {
        Some(Resource::SignDetail)
    } else if chan == "sign_message"@ {
        Some(Resource::SignMessage)
    } else {
        None
    }
}

/// Which resource a notification requires refreshing: a few
/// channel/payload pairs are handled specially (some ignored, some
/// rerouted), and every other channel maps to the resource of its name.
pub open spec fn spec_lookup_resource(chan: Seq<char>, payload: Seq<char>) -> Option<Resource> {
    if chan == "camera"@ && payload == "video_loss"@ {
        None
    } else if chan == "dms"@ && payload == "expire_time"@ {
        None
    } else if chan == "dms"@ && payload == "msg_sched"@ {
        None
    } else if chan == "dms"@ && payload == "msg_current"@ {
        Some(Resource::DmsMsg)
    } else if chan == "glyph"@ {
        Some(Resource::Font)
    } else if chan == "parking_area"@ && payload == "time_stamp"@ {
        Some(Resource::TpimsDyn)
    } else if chan == "system_attribute"@ {
        Some(Resource::DmsAttribute)
    } else {
        spec_channel_resource(chan)
    }
}

/// Look up the resource to refresh for a notification channel and
/// payload.
pub fn lookup_resource(chan: &str, payload: &str) -> (r: Option<Resource>)
    ensures
        r == spec_lookup_resource(chan@, payload@),
{
    if str_eq(chan, "camera") && str_eq(payload, "video_loss") {
        None
    } else if str_eq(chan, "dms") && str_eq(payload, "expire_time") {
        None
    } else if str_eq(chan, "dms") && str_eq(payload, "msg_sched") {
        None
    } else if str_eq(chan, "dms") && str_eq(payload, "msg_current") {
        Some(Resource::DmsMsg)
    } else if str_eq(chan, "glyph") {
        Some(Resource::Font)
    } else if str_eq(chan, "parking_area") && str_eq(payload, "time_stamp") {
        Some(Resource::TpimsDyn)
    } else if str_eq(chan, "system_attribute") {
        Some(Resource::DmsAttribute)
    } else if str_eq(chan, "camera") {
        Some(Resource::Camera)
    } else if str_eq(chan, "dms") {
        Some(Resource::Dms)
    } else if str_eq(chan, "font") {
        Some(Resource::Font)
    } else if str_eq(chan, "graphic") {
        Some(Resource::Graphic)
    } else if str_eq(chan, "incident") {
        Some(Resource::Incident)
    } else if str_eq(chan, "parking_area") {
        Some(Resource::ParkingArea)
    } else if str_eq(chan, "r_node") {
        Some(Resource::RNode)
    } else if str_eq(chan, "sign_config") {
        Some(Resource::SignConfig)
    } else if str_eq(chan, "sign_detail") {
        Some(Resource::SignDetail)
    } else if str_eq(chan, "sign_message") {
        Some(Resource::SignMessage)
    } else {
        None
    }
}

/// Resource fetched along with another: the dynamic parking data always
/// brings the archived parking data with it.
pub open spec fn spec_companion(r: Resource) -> Option<Resource> {
    match r {
        Resource::TpimsDyn => Some(Resource::TpimsArch),
        _ => None,
    }
}

/// Get the resource to fetch along with `r`, if any.
pub fn companion(r: Resource) -> (c: Option<Resource>)
    ensures
        c == spec_companion(r),
{
    match r {
        Resource::TpimsDyn => Some(Resource::TpimsArch),
        _ => None,
    }
}

/// The fixed plan for receiving notifications: the database socket to
/// connect to, and the channels to listen on.
pub struct FetchPlan {
    pub uds: String,
    pub channels: Vec<&'static str>,
}

/// Start of the fetcher: compute the connection plan for the user
/// running the process.  The caller connects to the socket, listens on
/// each channel, fetches every resource once, and then refreshes what
/// `lookup_resource` names for each notification received.
pub fn start(username: &str) -> (plan: FetchPlan)
    ensures
        plan.uds@ == "postgres://"@ + username@ + "@%2Frun%2Fpostgresql/tms"@,
        plan.channels@.len() == 12,
        plan.channels@[0]@ == "camera"@,
        plan.channels@[1]@ == "dms"@,
        plan.channels@[2]@ == "font"@,
        plan.channels@[3]@ == "glyph"@,
        plan.channels@[4]@ == "graphic"@,
        plan.channels@[5]@ == "incident"@,
        plan.channels@[6]@ == "parking_area"@,
        plan.channels@[7]@ == "r_node"@,
        plan.channels@[8]@ == "sign_config"@,
        plan.channels@[9]@ == "sign_detail"@,
        plan.channels@[10]@ == "sign_message"@,
        plan.channels@[11]@ == "system_attribute"@,
{
    // Path for the unix domain socket, with the directory percent-encoded
    let mut uds = String::from_str("postgres://");
    uds.append(username);
    uds.append("@%2Frun%2Fpostgresql/tms");
    let mut channels: Vec<&'static str> = Vec::new();
    channels.push("camera");
    channels.push("dms");
    channels.push("font");
    channels.push("glyph");
    channels.push("graphic");
    channels.push("incident");
    channels.push("parking_area");
    channels.push("r_node");
    channels.push("sign_config");
    channels.push("sign_detail");
    channels.push("sign_message");
    channels.push("system_attribute");
    FetchPlan { uds, channels }
}

} // verus!
