use pessimal::domain::host::{Host, HostId, HostSelector, OsFamily};
use pessimal::time::Timestamp;

#[test]
fn os_family_round_trips_through_its_otel_value() {
    for family in [
        OsFamily::Linux,
        OsFamily::Darwin,
        OsFamily::Windows,
        OsFamily::Other,
    ] {
        assert_eq!(OsFamily::from_otel_value(family.otel_value()), family);
    }
}

#[test]
fn os_family_parsing_is_lenient() {
    assert_eq!(OsFamily::from_otel_value("MacOS"), OsFamily::Darwin);
    assert_eq!(OsFamily::from_otel_value("Linux"), OsFamily::Linux);
    assert_eq!(OsFamily::from_otel_value("plan9"), OsFamily::Other);
}

#[test]
fn all_selector_matches_every_host() {
    assert!(HostSelector::All.matches(&HostId::new("anything")));
}

#[test]
fn host_selector_matches_only_its_host() {
    let selector = HostSelector::Host(HostId::new("web-1"));
    assert!(selector.matches(&HostId::new("web-1")));
    assert!(!selector.matches(&HostId::new("web-2")));
}

#[test]
fn any_of_matches_members_only() {
    let selector = HostSelector::AnyOf(vec![HostId::new("web-1"), HostId::new("db-1")]);
    assert!(selector.matches(&HostId::new("db-1")));
    assert!(!selector.matches(&HostId::new("web-2")));
}

#[test]
fn an_empty_any_of_matches_nothing() {
    assert!(!HostSelector::AnyOf(vec![]).matches(&HostId::new("web-1")));
}

#[test]
fn a_host_id_is_its_string() {
    let id = HostId::new("web-1");
    assert_eq!(id.as_str(), "web-1");
    assert_eq!(id.to_string(), "web-1");
    assert_eq!(HostId::from("web-1"), id);
    assert_eq!(HostId::from("web-1".to_owned()), id);
    assert_eq!(id.clone(), id);
    assert!(id.same(&HostId::new("web-1")));
    assert!(!id.same(&HostId::new("web-2")));
}

#[test]
fn the_family_of_a_build_is_that_of_its_system() {
    assert_eq!(OsFamily::current("linux"), OsFamily::Linux);
    assert_eq!(OsFamily::current("macos"), OsFamily::Darwin);
    assert_eq!(OsFamily::current("windows"), OsFamily::Windows);
    assert_eq!(OsFamily::current("freebsd"), OsFamily::Other);
}

#[test]
fn a_new_host_knows_nothing_but_its_name_and_family() {
    let at = Timestamp::from_timestamp(1_760_000_000, 0).expect("an instant");
    let host = Host::new(HostId::new("web-1"), OsFamily::Linux);
    assert_eq!(host.last_heartbeat, None);
    assert_eq!(host.agent_version, None);
    let host = host
        .with_last_heartbeat(at)
        .with_agent_version("0.1.0".to_owned());
    assert_eq!(host.id, HostId::new("web-1"));
    assert_eq!(host.os, OsFamily::Linux);
    assert_eq!(host.last_heartbeat, Some(at));
    assert_eq!(host.agent_version, Some("0.1.0".to_owned()));
}

#[test]
fn the_default_selector_is_every_host() {
    assert_eq!(HostSelector::default(), HostSelector::All);
    let selector = HostSelector::AnyOf(vec![HostId::new("a"), HostId::new("b")]);
    assert_eq!(selector.clone(), selector);
}
