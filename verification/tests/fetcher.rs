use honeybee::fetcher::{Resource, companion, lookup_resource, start};

#[test]
fn notifications_map_to_resources() {
    assert_eq!(lookup_resource("camera", "video_loss"), None);
    assert_eq!(lookup_resource("dms", "expire_time"), None);
    assert_eq!(lookup_resource("dms", "msg_sched"), None);
    assert_eq!(lookup_resource("dms", "msg_current"), Some(Resource::DmsMsg));
    assert_eq!(lookup_resource("glyph", "anything"), Some(Resource::Font));
    assert_eq!(
        lookup_resource("parking_area", "time_stamp"),
        Some(Resource::TpimsDyn)
    );
    assert_eq!(
        lookup_resource("system_attribute", "x"),
        Some(Resource::DmsAttribute)
    );
    assert_eq!(lookup_resource("camera", "other"), Some(Resource::Camera));
    assert_eq!(lookup_resource("dms", "other"), Some(Resource::Dms));
    assert_eq!(lookup_resource("sign_config", ""), Some(Resource::SignConfig));
    assert_eq!(lookup_resource("incident", ""), Some(Resource::Incident));
    assert_eq!(lookup_resource("unknown_channel", "x"), None);
}

#[test]
fn companions_pair_parking_data() {
    assert_eq!(companion(Resource::TpimsDyn), Some(Resource::TpimsArch));
    assert_eq!(companion(Resource::DmsMsg), None);
    assert_eq!(companion(Resource::Font), None);
}

#[test]
fn fetch_plan_names_socket_and_channels() {
    let plan = start("tms");
    assert_eq!(plan.uds, "postgres://tms@%2Frun%2Fpostgresql/tms");
    assert_eq!(plan.channels.len(), 12);
    assert_eq!(plan.channels[0], "camera");
    assert_eq!(plan.channels[3], "glyph");
    assert_eq!(plan.channels[11], "system_attribute");
}
