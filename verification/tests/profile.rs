use system76_power::config::profile::ProfileKind;

#[test]
fn profile_names() {
    assert_eq!(<&'static str>::from(ProfileKind::Battery), "battery");
    assert_eq!(<&'static str>::from(ProfileKind::Balanced), "balanced");
    assert_eq!(<&'static str>::from(ProfileKind::Performance), "performance");
    assert_eq!(ProfileKind::Battery.name(), "battery");
    assert_eq!(ProfileKind::Balanced.name(), "balanced");
    assert_eq!(ProfileKind::Performance.name(), "performance");
}
