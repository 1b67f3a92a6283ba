//! The data model of the power profiles service.

use vstd::prelude::*;

verus! {

/// One of the three power profiles the service knows.
#[derive(Debug, Clone, Copy, PartialEq, Eq, Hash, Structural)]
pub enum PowerProfile {
    PowerSaver,
    Balanced,
    Performance,
}

/// The canonical name of a profile on the bus and in the output.
pub open spec fn profile_name(p: PowerProfile) -> Seq<char> {
    match p {
        PowerProfile::PowerSaver => "power-saver"@,
        PowerProfile::Balanced => "balanced"@,
        PowerProfile::Performance => "performance"@,
    }
}

/// The profile whose canonical name is `s`, if there is one.
pub open spec fn parse_profile(s: Seq<char>) -> Option<PowerProfile> {
    if s == "power-saver"@ {
        Some(PowerProfile::PowerSaver)
    } else if s == "balanced"@ {
        Some(PowerProfile::Balanced)
    } else if s == "performance"@ {
        Some(PowerProfile::Performance)
    } else {
        None
    }
}

/// The three canonical names are pairwise distinct.
pub proof fn lemma_names_distinct()
    ensures
        "power-saver"@ != "balanced"@,
        "power-saver"@ != "performance"@,
        "balanced"@ != "performance"@,
{
    reveal_strlit("power-saver");
    reveal_strlit("balanced");
    reveal_strlit("performance");
    assert("power-saver"@.len() != "balanced"@.len());
    assert("power-saver"@[2] != "performance"@[2]);
    assert("balanced"@.len() != "performance"@.len());
}

/// Formatting a profile and parsing the text gives the profile back, and
/// parsing one of the three canonical names and formatting the profile gives
/// the name back.
pub proof fn lemma_name_round_trip(p: PowerProfile, s: Seq<char>)
    ensures
        parse_profile(profile_name(p)) == Some(p),
        parse_profile(s) is Some ==> profile_name(parse_profile(s)->0) == s,
{
    lemma_names_distinct();
}

/// No text but the three canonical names parses as a profile.
pub proof fn lemma_parse_rejects_other_names(s: Seq<char>)
    requires
        s != "power-saver"@,
        s != "balanced"@,
        s != "performance"@,
    ensures
        parse_profile(s) is None,
        forall|p: PowerProfile| profile_name(p) != s,
{
}

impl PowerProfile {
    /// The canonical name of the profile.
    pub fn to_string(&self) -> (r: String)
        ensures
            r@ == profile_name(*self),
    {
        match self {
            PowerProfile::PowerSaver => String::from_str("power-saver"),
            PowerProfile::Balanced => String::from_str("balanced"),
            PowerProfile::Performance => String::from_str("performance"),
        }
    }

    /// The profile named by `value`; fails on any other text.
    pub fn try_from(value: String) -> (r: Result<PowerProfile, ()>)
        ensures
            r is Ok <==> parse_profile(value@) is Some,
            r is Ok ==> r->Ok_0 == parse_profile(value@)->0,
    {
        if value == String::from_str("power-saver") {
            Ok(PowerProfile::PowerSaver)
        } else if value == String::from_str("balanced") {
            Ok(PowerProfile::Balanced)
        } else if value == String::from_str("performance") {
            Ok(PowerProfile::Performance)
        } else {
            Err(())
        }
    }
}

/// One profile the service offers, with the drivers behind it.
#[derive(Debug)]
pub struct Profile {
    pub profile: PowerProfile,
    pub driver: String,
    pub platform_driver: Option<String>,
    pub cpu_driver: Option<String>,
}

/// A power-related behaviour that can be switched on or off.
#[derive(Debug)]
pub struct Action {
    pub name: String,
    pub description: String,
    pub enabled: bool,
}

/// A profile held on behalf of an application.
#[derive(Debug)]
pub struct ActiveHold {
    pub reason: String,
    pub profile: PowerProfile,
    pub application_id: String,
}

} // verus!
