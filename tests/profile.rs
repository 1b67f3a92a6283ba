use ppd::PowerProfile;

#[test]
fn test_from_string() {
    let p = PowerProfile::Performance;
    let s = "performance";
    assert_eq!(p, PowerProfile::try_from(s.to_owned()).unwrap())
}

#[test]
fn test_display() {
    let p = PowerProfile::PowerSaver;

    assert_eq!(p.to_string(), "power-saver".to_owned())
}

#[test]
fn names_round_trip() {
    for name in ["power-saver", "balanced", "performance"] {
        let p = PowerProfile::try_from(name.to_owned()).unwrap();
        assert_eq!(p.to_string(), name);
    }
    for p in [PowerProfile::PowerSaver, PowerProfile::Balanced, PowerProfile::Performance] {
        assert_eq!(PowerProfile::try_from(p.to_string()), Ok(p));
    }
}

#[test]
fn names_map_to_their_profiles() {
    assert_eq!(PowerProfile::try_from("power-saver".to_owned()), Ok(PowerProfile::PowerSaver));
    assert_eq!(PowerProfile::try_from("balanced".to_owned()), Ok(PowerProfile::Balanced));
    assert_eq!(PowerProfile::Balanced.to_string(), "balanced");
    assert_eq!(PowerProfile::Performance.to_string(), "performance");
}

#[test]
fn other_names_are_rejected() {
    for name in ["turbo", "", "Balanced", "power_saver", "performance ", " balanced", "powersaver"] {
        assert_eq!(PowerProfile::try_from(name.to_owned()), Err(()));
    }
}
