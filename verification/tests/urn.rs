use pessimal::domain::error::CoreError;
use pessimal::domain::urn::{
    can_be_segment, segment_refusal, Urn, UrnWire, DEFAULT_URN_PREFIX,
};
use pessimal::ident::Uuid;

fn version(id: Uuid) -> u8 {
    id.bytes[6] >> 4
}

fn an_id() -> Uuid {
    Uuid::parse_str("01890a5d-ac96-774b-bcce-b302099a8057").expect("a UUID")
}

#[test]
fn round_trips_through_string() {
    let urn = Urn::new("prod", "agent", "host").expect("valid segments");
    let parsed: Urn = urn.to_string().parse().expect("round trip");
    assert_eq!(urn, parsed);
}

#[test]
fn renders_all_five_segments_in_order() {
    let id = Uuid::now_v7();
    let urn = Urn::with_id("prod", "agent", "host", id).expect("valid segments");
    assert_eq!(
        urn.to_string(),
        format!("pessimal::prod::agent::host::{}", id.to_string())
    );
}

#[test]
fn mints_sortable_uuid_v7() {
    let urn = Urn::new("prod", "agent", "host").expect("valid segments");
    assert_eq!(version(urn.id()), 7);
}

#[test]
fn honours_a_custom_prefix() {
    let urn = Urn::with_prefix("acme", "prod", "agent", "host", Uuid::now_v7())
        .expect("valid segments");
    assert!(urn.to_string().starts_with("acme::prod::"));
    assert_eq!(urn.prefix(), "acme");
}

#[test]
fn rejects_empty_segments() {
    assert!(Urn::new("", "agent", "host").is_err());
    assert!(Urn::new("prod", "", "host").is_err());
    assert!(Urn::new("prod", "agent", "").is_err());
}

#[test]
fn rejects_segments_containing_the_separator() {
    assert!(Urn::new("pr::od", "agent", "host").is_err());
}

#[test]
fn rejects_wrong_segment_count() {
    assert!("pessimal::prod::agent".parse::<Urn>().is_err());
}

#[test]
fn rejects_a_non_uuid_tail() {
    assert!("pessimal::prod::agent::host::not-a-uuid"
        .parse::<Urn>()
        .is_err());
}

#[test]
fn the_parts_come_back_as_they_went_in() {
    let urn = Urn::with_id("prod", "agent", "host", an_id()).expect("valid segments");
    assert_eq!(urn.prefix(), DEFAULT_URN_PREFIX);
    assert_eq!(urn.environment(), "prod");
    assert_eq!(urn.service(), "agent");
    assert_eq!(urn.model(), "host");
    assert_eq!(urn.id(), an_id());
    assert_eq!(
        urn.to_string(),
        "pessimal::prod::agent::host::01890a5d-ac96-774b-bcce-b302099a8057"
    );
    assert_eq!(urn.clone(), urn);
}

#[test]
fn the_first_bad_segment_is_the_one_named() {
    assert_eq!(
        Urn::with_prefix("a::b", "", "agent", "host", an_id()),
        Err(CoreError::InvalidUrn(
            "segment \"a::b\" must be non-empty and free of `::`".to_owned()
        ))
    );
    assert_eq!(
        Urn::new("", "x::y", "host"),
        Err(CoreError::InvalidUrn(
            "segment \"\" must be non-empty and free of `::`".to_owned()
        ))
    );
}

#[test]
fn a_single_colon_may_stand_inside_a_segment() {
    assert!(can_be_segment("a:b"));
    assert!(!can_be_segment("a::b"));
    assert!(!can_be_segment(""));
    let urn = Urn::with_id("a:b", "agent", "host", an_id()).expect("valid segments");
    assert_eq!(Urn::from_str(urn.to_string().as_str()), Ok(urn));
}

#[test]
fn a_part_that_ends_in_a_colon_does_not_read_back() {
    let urn = Urn::with_id("a:", "agent", "host", an_id()).expect("valid segments");
    let reread = Urn::from_str(urn.to_string().as_str());
    assert_ne!(reread, Ok(urn));
}

#[test]
fn a_wire_value_is_held_to_the_same_rules() {
    let urn = Urn::with_id("prod", "agent", "host", an_id()).expect("valid segments");
    assert_eq!(Urn::try_from(urn.to_wire()), Ok(urn));
    let bad = UrnWire {
        prefix: "pessimal".to_owned(),
        environment: "prod".to_owned(),
        service: "agent".to_owned(),
        model: "".to_owned(),
        id: an_id(),
    };
    assert!(matches!(Urn::try_from(bad), Err(CoreError::InvalidUrn(_))));
}

#[test]
fn a_urn_that_cannot_be_read_says_why() {
    assert_eq!(
        Urn::from_str("pessimal::prod::agent"),
        Err(CoreError::InvalidUrn(
            "expected 5 `::`-separated segments, got 3".to_owned()
        ))
    );
    assert!(matches!(
        Urn::from_str("pessimal::prod::agent::host::not-a-uuid"),
        Err(CoreError::InvalidUrn(why)) if why.starts_with("trailing segment is not a UUID: ")
    ));
    assert!(matches!(
        Urn::from_str("pessimal::::agent::host::01890a5d-ac96-774b-bcce-b302099a8057"),
        Err(CoreError::InvalidUrn(_))
    ));
}

#[test]
fn what_the_last_part_was_read_as_decides() {
    let urn = Urn::assemble("pessimal", "prod", "agent", "host", Ok(an_id()));
    assert_eq!(urn, Urn::with_id("prod", "agent", "host", an_id()));
    assert_eq!(
        Urn::assemble(
            "pessimal",
            "",
            "agent",
            "host",
            Err("too short".to_owned())
        ),
        Err(CoreError::InvalidUrn(
            "trailing segment is not a UUID: too short".to_owned()
        ))
    );
    assert_eq!(
        segment_refusal("\"x\""),
        CoreError::InvalidUrn("segment \"x\" must be non-empty and free of `::`".to_owned())
    );
}
