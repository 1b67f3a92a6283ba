//! The text each command prints, one line per element.

use vstd::prelude::*;
use crate::profile::{profile_name, Action, PowerProfile, Profile};

verus! {

/// The characters of each line.
pub open spec fn lines_view(v: Seq<String>) -> Seq<Seq<char>> {
    v.map_values(|l: String| l@)
}

pub open spec fn bool_text(b: bool) -> Seq<char> {
    if b {
        "true"@
    } else {
        "false"@
    }
}

/// The first line of a profile's entry: a `*` marks the active profile, a
/// space every other one.
pub open spec fn header_line(current: PowerProfile, p: PowerProfile) -> Seq<char> {
    (if p == current {
        "* "@
    } else {
        "  "@
    }) + profile_name(p) + ":"@
}

pub open spec fn optional_line(label: Seq<char>, value: Option<String>) -> Seq<Seq<char>> {
    match value {
        Some(s) => seq![label + s@],
        None => seq![],
    }
}

/// The lines of one profile's entry: its header, the drivers that are known,
/// and for the performance profile the reason it is degraded.
pub open spec fn entry_lines(current: PowerProfile, prof: Profile, degraded: Seq<char>) -> Seq<
    Seq<char>,
> {
    seq![header_line(current, prof.profile)] + optional_line("    CpuDriver:\t"@, prof.cpu_driver)
        + optional_line("    PlatformDriver:\t"@, prof.platform_driver) + (
    if prof.profile == PowerProfile::Performance {
        seq!["    Degraded:  "@ + degraded]
    } else {
        seq![]
    })
}

/// The entries of the last `k` profiles, the last profile first, with a blank
/// line between two entries.
pub open spec fn printed_entries(
    current: PowerProfile,
    ps: Seq<Profile>,
    degraded: Seq<char>,
    k: nat,
) -> Seq<Seq<char>>
    decreases k,
{
    if k == 0 {
        seq![]
    } else if k == 1 {
        entry_lines(current, ps[ps.len() - 1], degraded)
    } else {
        printed_entries(current, ps, degraded, (k - 1) as nat) + seq![seq![]] + entry_lines(
            current,
            ps[ps.len() - k],
            degraded,
        )
    }
}

/// The listing of all profiles, in the reverse of the service's order.
pub open spec fn list_lines(current: PowerProfile, ps: Seq<Profile>, degraded: Seq<char>) -> Seq<
    Seq<char>,
> {
    printed_entries(current, ps, degraded, ps.len())
}

pub open spec fn action_entry(a: Action) -> Seq<Seq<char>> {
    seq!["Name: "@ + a.name@, "Description: "@ + a.description@, "Enabled: "@ + bool_text(a.enabled)]
}

/// Each action's name, description and state, in the service's order.
pub open spec fn action_lines(actions: Seq<Action>) -> Seq<Seq<char>>
    decreases actions.len(),
{
    if actions.len() == 0 {
        seq![]
    } else {
        action_lines(actions.drop_last()) + action_entry(actions.last())
    }
}

pub open spec fn battery_aware_line(enabled: bool) -> Seq<char> {
    "Dynamic changes from charger and battery events: "@ + bool_text(enabled)
}

/// The degraded reason shown when the service reports none.
pub open spec fn degraded_text(d: Option<String>) -> Seq<char> {
    match d {
        Some(s) => s@,
        None => "no"@,
    }
}

/// Each entry opens with its header, whose first character is `*` for the
/// active profile and a space for any other, followed by a space; then come
/// one line per known driver, and a degraded-reason line, as the last line,
/// for the performance profile and for no other.
pub proof fn lemma_entry_shape(current: PowerProfile, prof: Profile, degraded: Seq<char>)
    ensures
        entry_lines(current, prof, degraded)[0] == header_line(current, prof.profile),
        header_line(current, prof.profile)[0] == (if prof.profile == current {
            '*'
        } else {
            ' '
        }),
        header_line(current, prof.profile)[1] == ' ',
        entry_lines(current, prof, degraded).len() == 1 + (if prof.cpu_driver is Some {
            1int
        } else {
            0
        }) + (if prof.platform_driver is Some {
            1int
        } else {
            0
        }) + (if prof.profile == PowerProfile::Performance {
            1int
        } else {
            0
        }),
        prof.profile == PowerProfile::Performance ==> entry_lines(current, prof, degraded).last()
            == "    Degraded:  "@ + degraded,
{
    reveal_strlit("* ");
    reveal_strlit("  ");
    let h = header_line(current, prof.profile);
    let marker = if prof.profile == current {
        "* "@
    } else {
        "  "@
    };
    assert(h[0] == marker[0]);
    assert(h[1] == marker[1]);
}

proof fn lemma_printed_entries_peel(
    current: PowerProfile,
    ps: Seq<Profile>,
    degraded: Seq<char>,
    k: nat,
)
    requires
        2 <= k <= ps.len(),
    ensures
        printed_entries(current, ps, degraded, k) == entry_lines(current, ps.last(), degraded)
            + seq![seq![]] + printed_entries(current, ps.drop_last(), degraded, (k - 1) as nat),
    decreases k,
{
    let rest = ps.drop_last();
    if k == 2 {
        assert(rest[rest.len() - 1] == ps[ps.len() - 2]);
        assert(printed_entries(current, ps, degraded, 1) == entry_lines(current, ps.last(), degraded));
        assert(printed_entries(current, rest, degraded, 1) == entry_lines(current, ps[ps.len() - 2], degraded));
    } else {
        lemma_printed_entries_peel(current, ps, degraded, (k - 1) as nat);
        assert(rest[rest.len() - (k - 1)] == ps[ps.len() - k]);
        assert(printed_entries(current, ps, degraded, k) =~= entry_lines(current, ps.last(), degraded)
            + seq![seq![]] + printed_entries(current, rest, degraded, (k - 1) as nat));
    }
}

/// The listing opens with the entry of the service's last profile and, where
/// other profiles follow, continues after one blank line with the listing of
/// the others: the profiles come in the reverse of the service's order, and
/// no blank line ends the listing.
pub proof fn lemma_list_reverse_order(current: PowerProfile, ps: Seq<Profile>, degraded: Seq<char>)
    requires
        ps.len() > 0,
    ensures
        list_lines(current, ps, degraded) == entry_lines(current, ps.last(), degraded) + (if ps.len()
            == 1 {
            seq![]
        } else {
            seq![seq![]] + list_lines(current, ps.drop_last(), degraded)
        }),
{
    if ps.len() == 1 {
        assert(list_lines(current, ps, degraded) =~= entry_lines(current, ps.last(), degraded) + seq![]);
    } else {
        lemma_printed_entries_peel(current, ps, degraded, ps.len());
        assert(list_lines(current, ps, degraded) =~= entry_lines(current, ps.last(), degraded) + (
        seq![seq![]] + list_lines(current, ps.drop_last(), degraded)));
    }
}

fn concat(a: &str, b: &str) -> (r: String)
    ensures
        r@ == a@ + b@,
{
    let mut s = String::from_str(a);
    s.append(b);
    s
}

fn bool_string(b: bool) -> (r: String)
    ensures
        r@ == bool_text(b),
{
    if b {
        String::from_str("true")
    } else {
        String::from_str("false")
    }
}

fn push_line(out: &mut Vec<String>, line: String)
    ensures
        lines_view(final(out)@) == lines_view(old(out)@).push(line@),
{
    out.push(line);
    assert(lines_view(out@) =~= lines_view(old(out)@).push(line@));
}

fn push_optional(out: &mut Vec<String>, label: &str, value: &Option<String>)
    ensures
        lines_view(final(out)@) == lines_view(old(out)@) + optional_line(label@, *value),
{
    match value {
        Some(s) => push_line(out, concat(label, s.as_str())),
        None => {},
    }
    assert(lines_view(out@) =~= lines_view(old(out)@) + optional_line(label@, *value));
}

/// The header line of a profile's entry.
pub fn render_header(current: PowerProfile, p: PowerProfile) -> (r: String)
    ensures
        r@ == header_line(current, p),
{
    let mut s = if p == current {
        String::from_str("* ")
    } else {
        String::from_str("  ")
    };
    let name = p.to_string();
    s.append(name.as_str());
    s.append(":");
    s
}

/// Appends the lines of one profile's entry.
fn push_entry(out: &mut Vec<String>, current: PowerProfile, prof: &Profile, degraded: &String)
    ensures
        lines_view(final(out)@) == lines_view(old(out)@) + entry_lines(current, *prof, degraded@),
{
    push_line(out, render_header(current, prof.profile));
    push_optional(out, "    CpuDriver:\t", &prof.cpu_driver);
    push_optional(out, "    PlatformDriver:\t", &prof.platform_driver);
    if prof.profile == PowerProfile::Performance {
        push_line(out, concat("    Degraded:  ", degraded.as_str()));
    }
    assert(lines_view(out@) =~= lines_view(old(out)@) + entry_lines(current, *prof, degraded@));
}

/// The listing of the profiles: the service's order reversed, the active
/// profile marked, entries separated by one blank line.
pub fn render_list(current: PowerProfile, profiles: &Vec<Profile>, degraded: &String) -> (r: Vec<
    String,
>)
    ensures
        lines_view(r@) == list_lines(current, profiles@, degraded@),
{
    let mut out: Vec<String> = Vec::new();
    let n = profiles.len();
    let mut k: usize = 0;
    assert(lines_view(out@) =~= printed_entries(current, profiles@, degraded@, 0));
    while k < n
        invariant
            n == profiles@.len(),
            k <= n,
            lines_view(out@) == printed_entries(current, profiles@, degraded@, k as nat),
        decreases n - k,
    {
        if k > 0 {
            push_line(&mut out, String::new());
        }
        push_entry(&mut out, current, &profiles[n - 1 - k], degraded);
        k = k + 1;
        assert(lines_view(out@) =~= printed_entries(current, profiles@, degraded@, k as nat));
    }
    out
}

/// Each action's name, description and state, three lines per action.
pub fn render_actions(actions: &Vec<Action>) -> (r: Vec<String>)
    ensures
        lines_view(r@) == action_lines(actions@),
{
    let mut out: Vec<String> = Vec::new();
    let mut i: usize = 0;
    assert(lines_view(out@) =~= action_lines(actions@.take(0)));
    while i < actions.len()
        invariant
            i <= actions@.len(),
            lines_view(out@) == action_lines(actions@.take(i as int)),
        decreases actions@.len() - i,
    {
        let a = &actions[i];
        push_line(&mut out, concat("Name: ", a.name.as_str()));
        push_line(&mut out, concat("Description: ", a.description.as_str()));
        let state = bool_string(a.enabled);
        push_line(&mut out, concat("Enabled: ", state.as_str()));
        assert(actions@.take(i + 1).drop_last() =~= actions@.take(i as int));
        i = i + 1;
        assert(lines_view(out@) =~= action_lines(actions@.take(i as int)));
    }
    assert(actions@.take(actions@.len() as int) =~= actions@);
    out
}

/// The line that tells whether battery-aware profile changes are on.
pub fn render_battery_aware(enabled: bool) -> (r: String)
    ensures
        r@ == battery_aware_line(enabled),
{
    let state = bool_string(enabled);
    concat("Dynamic changes from charger and battery events: ", state.as_str())
}

} // verus!
