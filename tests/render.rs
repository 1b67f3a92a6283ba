use ppd::render::{render_actions, render_battery_aware, render_header, render_list};
use ppd::{Action, PowerProfile, Profile};

fn profile(p: PowerProfile, cpu: Option<&str>, platform: Option<&str>) -> Profile {
    Profile {
        profile: p,
        driver: "multiple".to_owned(),
        platform_driver: platform.map(|s| s.to_owned()),
        cpu_driver: cpu.map(|s| s.to_owned()),
    }
}

#[test]
fn list_is_reversed_and_marks_the_active_profile() {
    let profiles = vec![
        profile(PowerProfile::PowerSaver, None, None),
        profile(PowerProfile::Balanced, None, None),
        profile(PowerProfile::Performance, None, None),
    ];
    let lines = render_list(PowerProfile::Balanced, &profiles, &"no".to_owned());
    assert_eq!(
        lines,
        vec![
            "  performance:",
            "    Degraded:  no",
            "",
            "* balanced:",
            "",
            "  power-saver:",
        ]
    );
}

#[test]
fn list_shows_drivers_and_degraded_reason() {
    let profiles = vec![
        profile(PowerProfile::PowerSaver, Some("intel_pstate"), Some("platform_profile")),
        profile(PowerProfile::Performance, Some("intel_pstate"), None),
    ];
    let lines = render_list(PowerProfile::Performance, &profiles, &"lap-detected".to_owned());
    assert_eq!(
        lines,
        vec![
            "* performance:",
            "    CpuDriver:\tintel_pstate",
            "    Degraded:  lap-detected",
            "",
            "  power-saver:",
            "    CpuDriver:\tintel_pstate",
            "    PlatformDriver:\tplatform_profile",
        ]
    );
}

#[test]
fn list_of_nothing_is_empty() {
    let lines = render_list(PowerProfile::Balanced, &Vec::new(), &"no".to_owned());
    assert!(lines.is_empty());
}

#[test]
fn list_with_one_profile_has_no_blank_line() {
    let profiles = vec![profile(PowerProfile::Balanced, None, Some("placeholder"))];
    let lines = render_list(PowerProfile::PowerSaver, &profiles, &"no".to_owned());
    assert_eq!(lines, vec!["  balanced:", "    PlatformDriver:\tplaceholder"]);
}

#[test]
fn header_marks_only_the_active_profile() {
    assert_eq!(render_header(PowerProfile::Balanced, PowerProfile::Balanced), "* balanced:");
    assert_eq!(render_header(PowerProfile::Balanced, PowerProfile::PowerSaver), "  power-saver:");
}

#[test]
fn actions_are_listed_in_order() {
    let actions = vec![
        Action {
            name: "trickle_charge".to_owned(),
            description: "Charge slowly".to_owned(),
            enabled: true,
        },
        Action {
            name: "amdgpu_panel_power".to_owned(),
            description: "Panel power saving".to_owned(),
            enabled: false,
        },
    ];
    assert_eq!(
        render_actions(&actions),
        vec![
            "Name: trickle_charge",
            "Description: Charge slowly",
            "Enabled: true",
            "Name: amdgpu_panel_power",
            "Description: Panel power saving",
            "Enabled: false",
        ]
    );
    assert!(render_actions(&Vec::new()).is_empty());
}

#[test]
fn battery_aware_line_states_the_flag() {
    assert_eq!(render_battery_aware(true), "Dynamic changes from charger and battery events: true");
    assert_eq!(render_battery_aware(false), "Dynamic changes from charger and battery events: false");
}
