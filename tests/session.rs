use ppd::{Commands, Next, PowerProfile, PpdError, Profile, Reply, Request, Session, Step};

fn profile(p: PowerProfile) -> Profile {
    Profile { profile: p, driver: "placeholder".to_owned(), platform_driver: None, cpu_driver: None }
}

fn all_profiles() -> Vec<Profile> {
    vec![
        profile(PowerProfile::PowerSaver),
        profile(PowerProfile::Balanced),
        profile(PowerProfile::Performance),
    ]
}

fn request(step: &Step) -> Request {
    match step.next {
        Next::Call(r) => r,
        Next::Done(_) => panic!("the session ended early"),
    }
}

fn set(name: &str) -> Option<Commands> {
    Some(Commands::SetProfile { profile: name.to_owned() })
}

#[test]
fn set_unknown_name_fails_without_calls() {
    let (session, step) = Session::start(set("turbo"));
    assert!(session.is_finished());
    assert!(step.output.is_empty());
    assert!(matches!(step.next, Next::Done(Err(PpdError::InvalidProfile(ref s))) if s == "turbo"));
}

#[test]
fn set_unlisted_profile_fails_without_write() {
    let (mut session, step) = Session::start(set("performance"));
    assert_eq!(request(&step), Request::Profiles);
    let listed = vec![profile(PowerProfile::PowerSaver), profile(PowerProfile::Balanced)];
    let step = session.resume(Ok(Reply::Profiles(listed)));
    assert!(session.is_finished());
    assert!(matches!(step.next, Next::Done(Err(PpdError::InvalidProfile(ref s))) if s == "performance"));
}

#[test]
fn set_listed_profile_writes_once() {
    let (mut session, step) = Session::start(set("power-saver"));
    assert_eq!(request(&step), Request::Profiles);
    let step = session.resume(Ok(Reply::Profiles(all_profiles())));
    assert_eq!(request(&step), Request::SetActiveProfile(PowerProfile::PowerSaver));
    assert!(session.expects(&Reply::Written));
    let step = session.resume(Ok(Reply::Written));
    assert!(session.is_finished());
    assert!(step.output.is_empty());
    assert!(matches!(step.next, Next::Done(Ok(()))));
}

#[test]
fn battery_aware_with_both_flags_fails() {
    let (session, step) = Session::start(Some(Commands::ConfigureBatteryAware { enable: true, disable: true }));
    assert!(session.is_finished());
    assert!(matches!(step.next, Next::Done(Err(PpdError::InvalidConfig(_)))));
}

#[test]
fn battery_aware_with_no_flag_fails() {
    let (session, step) = Session::start(Some(Commands::ConfigureBatteryAware { enable: false, disable: false }));
    assert!(session.is_finished());
    assert!(matches!(step.next, Next::Done(Err(PpdError::InvalidConfig(_)))));
}

#[test]
fn battery_aware_with_one_flag_writes_it() {
    for (enable, disable) in [(true, false), (false, true)] {
        let (mut session, step) = Session::start(Some(Commands::ConfigureBatteryAware { enable, disable }));
        assert_eq!(request(&step), Request::SetBatteryAware(enable));
        let step = session.resume(Ok(Reply::Written));
        assert!(session.is_finished());
        assert!(matches!(step.next, Next::Done(Ok(()))));
    }
}

#[test]
fn list_marks_balanced_and_reverses_order() {
    let (mut session, step) = Session::start(Some(Commands::List));
    assert_eq!(request(&step), Request::ActiveProfile);
    let step = session.resume(Ok(Reply::ActiveProfile(PowerProfile::Balanced)));
    assert_eq!(request(&step), Request::Profiles);
    let step = session.resume(Ok(Reply::Profiles(all_profiles())));
    assert_eq!(request(&step), Request::PerformanceDegraded);
    let step = session.resume(Ok(Reply::PerformanceDegraded(None)));
    assert!(session.is_finished());
    assert!(matches!(step.next, Next::Done(Ok(()))));
    assert_eq!(
        step.output,
        vec!["  performance:", "    Degraded:  no", "", "* balanced:", "", "  power-saver:"]
    );
}

#[test]
fn list_is_the_default_and_skips_degraded_without_performance() {
    let (mut session, step) = Session::start(None);
    assert_eq!(request(&step), Request::ActiveProfile);
    session.resume(Ok(Reply::ActiveProfile(PowerProfile::PowerSaver)));
    let listed = vec![profile(PowerProfile::PowerSaver), profile(PowerProfile::Balanced)];
    let step = session.resume(Ok(Reply::Profiles(listed)));
    assert!(session.is_finished());
    assert_eq!(step.output, vec!["  balanced:", "", "* power-saver:"]);
}

#[test]
fn list_shows_the_reported_degraded_reason() {
    let (mut session, _) = Session::start(Some(Commands::List));
    session.resume(Ok(Reply::ActiveProfile(PowerProfile::Performance)));
    session.resume(Ok(Reply::Profiles(vec![profile(PowerProfile::Performance)])));
    let step = session.resume(Ok(Reply::PerformanceDegraded(Some("high-operating-temperature".to_owned()))));
    assert_eq!(step.output, vec!["* performance:", "    Degraded:  high-operating-temperature"]);
}

#[test]
fn get_prints_the_active_profile() {
    let (mut session, step) = Session::start(Some(Commands::Get));
    assert_eq!(request(&step), Request::ActiveProfile);
    let step = session.resume(Ok(Reply::ActiveProfile(PowerProfile::Performance)));
    assert_eq!(step.output, vec!["performance"]);
    assert!(matches!(step.next, Next::Done(Ok(()))));
}

#[test]
fn watch_prints_initial_profile_then_changes() {
    let (mut session, step) = Session::start(Some(Commands::Watch));
    assert_eq!(request(&step), Request::ActiveProfile);
    let step = session.resume(Ok(Reply::ActiveProfile(PowerProfile::Balanced)));
    assert_eq!(step.output, vec!["balanced"]);
    assert_eq!(request(&step), Request::NextProfileChange);
    let step = session.resume(Ok(Reply::ProfileChanged(PowerProfile::Performance)));
    assert_eq!(step.output, vec!["performance"]);
    assert_eq!(request(&step), Request::NextProfileChange);
    assert!(!session.is_finished());
    let step = session.resume(Ok(Reply::ChangesEnded));
    assert!(session.is_finished());
    assert!(matches!(step.next, Next::Done(Ok(()))));
}

#[test]
fn query_battery_aware_prints_the_flag() {
    let (mut session, step) = Session::start(Some(Commands::QueryBatteryAware));
    assert_eq!(request(&step), Request::BatteryAware);
    let step = session.resume(Ok(Reply::BatteryAware(true)));
    assert_eq!(step.output, vec!["Dynamic changes from charger and battery events: true"]);
}

#[test]
fn list_actions_prints_each_action() {
    let (mut session, step) = Session::start(Some(Commands::ListActions));
    assert_eq!(request(&step), Request::ActionsInfo);
    let actions = vec![ppd::Action {
        name: "trickle_charge".to_owned(),
        description: "Charge slowly".to_owned(),
        enabled: false,
    }];
    let step = session.resume(Ok(Reply::ActionsInfo(actions)));
    assert_eq!(step.output, vec!["Name: trickle_charge", "Description: Charge slowly", "Enabled: false"]);
}

#[test]
fn unimplemented_commands_fail() {
    let commands = vec![
        Commands::ListHolds,
        Commands::ConfigureAction { action: "trickle_charge".to_owned(), enable: true, disable: false },
        Commands::Launch { arguments: "true".to_owned(), profile: None, reason: None, appid: None },
    ];
    for c in commands {
        let (session, step) = Session::start(Some(c));
        assert!(session.is_finished());
        assert!(matches!(step.next, Next::Done(Err(PpdError::Unimplemented(_)))));
    }
}

#[test]
fn transport_error_ends_the_session() {
    let (mut session, _) = Session::start(Some(Commands::Get));
    let step = session.resume(Err(zbus::Error::InvalidReply));
    assert!(session.is_finished());
    assert!(matches!(step.next, Next::Done(Err(PpdError::DBusError(zbus::Error::InvalidReply)))));
}

#[test]
fn session_only_expects_its_answer() {
    let (session, _) = Session::start(Some(Commands::Get));
    assert!(session.expects(&Reply::ActiveProfile(PowerProfile::Balanced)));
    assert!(!session.expects(&Reply::Written));
    assert!(!session.expects(&Reply::Profiles(Vec::new())));
}
