//! One run of a command against the service, as a state machine: the session
//! asks for one remote call at a time, is handed its outcome, and says what to
//! print and what to do next. Whoever drives it performs the calls.

use vstd::prelude::*;
use crate::args::Commands;
use crate::error::{PpdError, PpdErrorView};
use crate::profile::{lemma_name_round_trip, parse_profile, profile_name, Action, PowerProfile, Profile};
use crate::render::{
    action_lines, battery_aware_line, degraded_text, lines_view, list_lines, render_actions,
    render_battery_aware, render_list,
};

verus! {

/// A remote call on the power profiles service.
#[derive(Debug, Clone, Copy, PartialEq, Eq, Structural)]
pub enum Request {
    /// Read the active profile.
    ActiveProfile,
    /// Read the profiles the service offers.
    Profiles,
    /// Read why the performance profile is degraded.
    PerformanceDegraded,
    /// Read the actions with their descriptions and state.
    ActionsInfo,
    /// Read whether battery-aware profile changes are on.
    BatteryAware,
    /// Write the active profile.
    SetActiveProfile(PowerProfile),
    /// Write whether battery-aware profile changes are on.
    SetBatteryAware(bool),
    /// Wait for the next change of the active profile.
    NextProfileChange,
}

/// The answer to a request that succeeded.
#[derive(Debug)]
pub enum Reply {
    ActiveProfile(PowerProfile),
    Profiles(Vec<Profile>),
    PerformanceDegraded(Option<String>),
    ActionsInfo(Vec<Action>),
    BatteryAware(bool),
    /// A write was done.
    Written,
    /// The active profile changed to this one.
    ProfileChanged(PowerProfile),
    /// No more changes will be delivered.
    ChangesEnded,
}

/// What the session wants after printing a step's output.
#[derive(Debug)]
pub enum Next {
    Call(Request),
    Done(Result<(), PpdError>),
}

/// The lines to print, then what to do next.
#[derive(Debug)]
pub struct Step {
    pub output: Vec<String>,
    pub next: Next,
}

pub enum NextView {
    Call(Request),
    Done(Result<(), PpdErrorView>),
}

pub struct StepView {
    pub output: Seq<Seq<char>>,
    pub next: NextView,
}

impl View for Step {
    type V = StepView;

    open spec fn view(&self) -> StepView {
        StepView {
            output: lines_view(self.output@),
            next: match self.next {
                Next::Call(r) => NextView::Call(r),
                Next::Done(Ok(())) => NextView::Done(Ok(())),
                Next::Done(Err(e)) => NextView::Done(Err(e@)),
            },
        }
    }
}

/// Where a session stands: which answer it waits for, and what it has
/// gathered so far.
#[derive(Debug)]
pub enum Stage {
    Get,
    ListActive,
    ListProfiles(PowerProfile),
    ListDegraded(PowerProfile, Vec<Profile>),
    SetProfiles(PowerProfile),
    AwaitWrite,
    Actions,
    BatteryAware,
    WatchInitial,
    WatchChanges,
    Finished,
}

/// The state of one command's run.
#[derive(Debug)]
pub struct Session {
    pub stage: Stage,
}

pub open spec fn call_view(r: Request) -> StepView {
    StepView { output: seq![], next: NextView::Call(r) }
}

pub open spec fn fail_view(e: PpdErrorView) -> StepView {
    StepView { output: seq![], next: NextView::Done(Err(e)) }
}

pub open spec fn done_view(output: Seq<Seq<char>>) -> StepView {
    StepView { output, next: NextView::Done(Ok(())) }
}

/// Whether some profile of `ps` is `p`.
pub open spec fn lists_profile(ps: Seq<Profile>, p: PowerProfile) -> bool {
    exists|i: int| 0 <= i < ps.len() && ps[i].profile == p
}

/// The first stage and step of a command; no command means listing.
pub open spec fn start_spec(command: Option<Commands>) -> (Stage, StepView) {
    match command {
        None => (Stage::ListActive, call_view(Request::ActiveProfile)),
        Some(Commands::List) => (Stage::ListActive, call_view(Request::ActiveProfile)),
        Some(Commands::ListHolds) => (
            Stage::Finished,
            fail_view(PpdErrorView::Unimplemented("ListHolds command"@)),
        ),
        Some(Commands::ListActions) => (Stage::Actions, call_view(Request::ActionsInfo)),
        Some(Commands::Get) => (Stage::Get, call_view(Request::ActiveProfile)),
        Some(Commands::SetProfile { profile }) => match parse_profile(profile@) {
            Some(p) => (Stage::SetProfiles(p), call_view(Request::Profiles)),
            None => (Stage::Finished, fail_view(PpdErrorView::InvalidProfile(profile@))),
        },
        Some(Commands::ConfigureAction { .. }) => (
            Stage::Finished,
            fail_view(PpdErrorView::Unimplemented("ConfigureAction command"@)),
        ),
        Some(Commands::ConfigureBatteryAware { enable, disable }) => if enable && disable {
            (
                Stage::Finished,
                fail_view(PpdErrorView::InvalidConfig("can't set both enable and disable"@)),
            )
        } else if !enable && !disable {
            (
                Stage::Finished,
                fail_view(PpdErrorView::InvalidConfig("enable or disable is required"@)),
            )
        } else {
            (Stage::AwaitWrite, call_view(Request::SetBatteryAware(enable)))
        },
        Some(Commands::QueryBatteryAware) => (Stage::BatteryAware, call_view(Request::BatteryAware)),
        Some(Commands::Launch { .. }) => (
            Stage::Finished,
            fail_view(PpdErrorView::Unimplemented("Launch command"@)),
        ),
        Some(Commands::Watch) => (Stage::WatchInitial, call_view(Request::ActiveProfile)),
    }
}

/// Whether `stage` waits for the answer `reply`.
pub open spec fn accepts(stage: Stage, reply: Reply) -> bool {
    match (stage, reply) {
        (Stage::Get, Reply::ActiveProfile(_)) => true,
        (Stage::ListActive, Reply::ActiveProfile(_)) => true,
        (Stage::ListProfiles(_), Reply::Profiles(_)) => true,
        (Stage::ListDegraded(_, _), Reply::PerformanceDegraded(_)) => true,
        (Stage::SetProfiles(_), Reply::Profiles(_)) => true,
        (Stage::AwaitWrite, Reply::Written) => true,
        (Stage::Actions, Reply::ActionsInfo(_)) => true,
        (Stage::BatteryAware, Reply::BatteryAware(_)) => true,
        (Stage::WatchInitial, Reply::ActiveProfile(_)) => true,
        (Stage::WatchChanges, Reply::ProfileChanged(_)) => true,
        (Stage::WatchChanges, Reply::ChangesEnded) => true,
        _ => false,
    }
}

/// Whether a session at `stage` can be handed `event`: an answer it waits
/// for, or the failure of the call it asked for.
pub open spec fn can_resume(stage: Stage, event: Result<Reply, zbus::Error>) -> bool {
    &&& !(stage is Finished)
    &&& match event {
        Ok(reply) => accepts(stage, reply),
        Err(_) => true,
    }
}

/// The next stage and step after `event`. A failed call ends the session with
/// the transport error; an answer the stage does not wait for ends it too.
pub open spec fn resume_spec(stage: Stage, event: Result<Reply, zbus::Error>) -> (Stage, StepView) {
    match event {
        Err(e) => (Stage::Finished, fail_view(PpdErrorView::DBusError(e))),
        Ok(reply) => match (stage, reply) {
            (Stage::Get, Reply::ActiveProfile(p)) => (
                Stage::Finished,
                done_view(seq![profile_name(p)]),
            ),
            (Stage::ListActive, Reply::ActiveProfile(c)) => (
                Stage::ListProfiles(c),
                call_view(Request::Profiles),
            ),
            (Stage::ListProfiles(c), Reply::Profiles(ps)) => if lists_profile(
                ps@,
                PowerProfile::Performance,
            ) {
                (Stage::ListDegraded(c, ps), call_view(Request::PerformanceDegraded))
            } else {
                (Stage::Finished, done_view(list_lines(c, ps@, "no"@)))
            },
            (Stage::ListDegraded(c, ps), Reply::PerformanceDegraded(d)) => (
                Stage::Finished,
                done_view(list_lines(c, ps@, degraded_text(d))),
            ),
            (Stage::SetProfiles(p), Reply::Profiles(ps)) => if lists_profile(ps@, p) {
                (Stage::AwaitWrite, call_view(Request::SetActiveProfile(p)))
            } else {
                (Stage::Finished, fail_view(PpdErrorView::InvalidProfile(profile_name(p))))
            },
            (Stage::AwaitWrite, Reply::Written) => (Stage::Finished, done_view(seq![])),
            (Stage::Actions, Reply::ActionsInfo(a)) => (
                Stage::Finished,
                done_view(action_lines(a@)),
            ),
            (Stage::BatteryAware, Reply::BatteryAware(b)) => (
                Stage::Finished,
                done_view(seq![battery_aware_line(b)]),
            ),
            (Stage::WatchInitial, Reply::ActiveProfile(p)) => (
                Stage::WatchChanges,
                StepView {
                    output: seq![profile_name(p)],
                    next: NextView::Call(Request::NextProfileChange),
                },
            ),
            (Stage::WatchChanges, Reply::ProfileChanged(p)) => (
                Stage::WatchChanges,
                StepView {
                    output: seq![profile_name(p)],
                    next: NextView::Call(Request::NextProfileChange),
                },
            ),
            (Stage::WatchChanges, Reply::ChangesEnded) => (Stage::Finished, done_view(seq![])),
            _ => (Stage::Finished, done_view(seq![])),
        },
    }
}

/// The steps a session takes from `stage` when handed `events` in turn, up to
/// the step that finishes it.
pub open spec fn run_from(stage: Stage, events: Seq<Result<Reply, zbus::Error>>) -> Seq<StepView>
    decreases events.len(),
{
    if events.len() == 0 || stage is Finished {
        seq![]
    } else {
        let (next, step) = resume_spec(stage, events[0]);
        seq![step] + run_from(next, events.drop_first())
    }
}

/// The steps of a command's run when the service answers with `events`.
pub open spec fn run(command: Option<Commands>, events: Seq<Result<Reply, zbus::Error>>) -> Seq<
    StepView,
> {
    seq![start_spec(command).1] + run_from(start_spec(command).0, events)
}

/// The remote calls that `steps` ask for, in order.
pub open spec fn requests(steps: Seq<StepView>) -> Seq<Request>
    decreases steps.len(),
{
    if steps.len() == 0 {
        seq![]
    } else {
        (match steps[0].next {
            NextView::Call(r) => seq![r],
            NextView::Done(_) => seq![],
        }) + requests(steps.drop_first())
    }
}

proof fn lemma_requests_of_one(st: StepView)
    ensures
        requests(seq![st]) == (match st.next {
            NextView::Call(r) => seq![r],
            NextView::Done(_) => seq![],
        }),
{
    assert(seq![st].drop_first() =~= Seq::<StepView>::empty());
    assert(requests(Seq::<StepView>::empty()) =~= Seq::<Request>::empty());
    assert(requests(seq![st]) =~= (match st.next {
        NextView::Call(r) => seq![r],
        NextView::Done(_) => seq![],
    }));
}

proof fn lemma_requests_of_two(a: StepView, b: Seq<StepView>)
    ensures
        requests(seq![a] + b) == requests(seq![a]) + requests(b),
{
    lemma_requests_of_one(a);
    assert((seq![a] + b).drop_first() =~= b);
}

/// Once a write was asked for, the session ends at the next event.
proof fn lemma_after_write(events: Seq<Result<Reply, zbus::Error>>)
    ensures
        requests(run_from(Stage::AwaitWrite, events)) == Seq::<Request>::empty(),
        events.len() > 0 ==> run_from(Stage::AwaitWrite, events).len() == 1 && run_from(
            Stage::AwaitWrite,
            events,
        )[0].next is Done,
{
    if events.len() > 0 {
        let (next, step) = resume_spec(Stage::AwaitWrite, events[0]);
        assert(next is Finished);
        assert(run_from(next, events.drop_first()) =~= seq![]);
        assert(run_from(Stage::AwaitWrite, events) =~= seq![step]);
        lemma_requests_of_one(step);
    } else {
        assert(requests(run_from(Stage::AwaitWrite, events)) =~= seq![]);
    }
}

/// Setting a profile whose name is not one of the three, or that the service
/// does not list, fails with an invalid-profile error and never writes the
/// active profile: the only call made is the read of the list.
pub proof fn lemma_set_unlisted_never_writes(
    name: String,
    ps: Vec<Profile>,
    events: Seq<Result<Reply, zbus::Error>>,
)
    requires
        events.len() > 0,
        events[0] == Ok::<Reply, zbus::Error>(Reply::Profiles(ps)),
        parse_profile(name@) is None || !lists_profile(ps@, parse_profile(name@)->0),
    ensures
        ({
            let steps = run(Some(Commands::SetProfile { profile: name }), events);
            &&& parse_profile(name@) is None ==> requests(steps) == Seq::<Request>::empty()
            &&& parse_profile(name@) is Some ==> requests(steps) == seq![Request::Profiles]
            &&& steps.last().next == NextView::Done(Err(PpdErrorView::InvalidProfile(name@)))
        }),
{
    let command = Some(Commands::SetProfile { profile: name });
    let steps = run(command, events);
    let (stage, first) = start_spec(command);
    if parse_profile(name@) is None {
        assert(stage is Finished);
        assert(run_from(stage, events) =~= seq![]);
        assert(steps =~= seq![first]);
        lemma_requests_of_one(first);
    } else {
        let p = parse_profile(name@)->0;
        lemma_name_round_trip(p, name@);
        let (next, second) = resume_spec(stage, events[0]);
        assert(next is Finished);
        assert(run_from(next, events.drop_first()) =~= seq![]);
        assert(run_from(stage, events) =~= seq![second]);
        assert(steps =~= seq![first] + seq![second]);
        lemma_requests_of_two(first, seq![second]);
        lemma_requests_of_one(first);
        lemma_requests_of_one(second);
        assert(requests(steps) =~= seq![Request::Profiles]);
    }
}

/// Setting a profile that the service lists makes exactly one write, of that
/// profile, after reading the list, whatever the service answers afterwards.
pub proof fn lemma_set_listed_writes_once(
    name: String,
    ps: Vec<Profile>,
    events: Seq<Result<Reply, zbus::Error>>,
)
    requires
        events.len() > 0,
        events[0] == Ok::<Reply, zbus::Error>(Reply::Profiles(ps)),
        parse_profile(name@) is Some,
        lists_profile(ps@, parse_profile(name@)->0),
    ensures
        requests(run(Some(Commands::SetProfile { profile: name }), events)) == seq![
            Request::Profiles,
            Request::SetActiveProfile(parse_profile(name@)->0),
        ],
{
    let command = Some(Commands::SetProfile { profile: name });
    let steps = run(command, events);
    let (stage, first) = start_spec(command);
    let (next, second) = resume_spec(stage, events[0]);
    assert(next is AwaitWrite);
    let rest = run_from(next, events.drop_first());
    lemma_after_write(events.drop_first());
    assert(run_from(stage, events) =~= seq![second] + rest);
    assert(steps =~= seq![first] + (seq![second] + rest));
    lemma_requests_of_two(first, seq![second] + rest);
    lemma_requests_of_two(second, rest);
    lemma_requests_of_one(first);
    lemma_requests_of_one(second);
    assert(requests(steps) =~= seq![
        Request::Profiles,
        Request::SetActiveProfile(parse_profile(name@)->0),
    ]);
}

/// Configuring battery-aware changes with both flags, or with neither, fails
/// with an invalid-configuration error and makes no call; with exactly one
/// flag it makes exactly one write, of the enable flag.
pub proof fn lemma_battery_aware_flags(
    enable: bool,
    disable: bool,
    events: Seq<Result<Reply, zbus::Error>>,
)
    ensures
        ({
            let steps = run(Some(Commands::ConfigureBatteryAware { enable, disable }), events);
            &&& enable == disable ==> steps.len() == 1 && requests(steps) == Seq::<
                Request,
            >::empty() && steps[0].next is Done && steps[0].next->Done_0 is Err
                && steps[0].next->Done_0->Err_0 is InvalidConfig
            &&& enable != disable ==> requests(steps) == seq![Request::SetBatteryAware(enable)]
        }),
{
    let command = Some(Commands::ConfigureBatteryAware { enable, disable });
    let steps = run(command, events);
    let (stage, first) = start_spec(command);
    lemma_requests_of_one(first);
    if enable == disable {
        assert(run_from(stage, events) =~= seq![]);
        assert(steps =~= seq![first]);
    } else {
        lemma_after_write(events);
        lemma_requests_of_two(first, run_from(stage, events));
        assert(requests(steps) =~= seq![Request::SetBatteryAware(enable)]);
    }
}

/// The lines that `steps` print, in order.
pub open spec fn printed(steps: Seq<StepView>) -> Seq<Seq<char>>
    decreases steps.len(),
{
    if steps.len() == 0 {
        seq![]
    } else {
        steps[0].output + printed(steps.drop_first())
    }
}

/// The notifications that deliver `changes`, one after the other.
pub open spec fn change_events(changes: Seq<PowerProfile>) -> Seq<Result<Reply, zbus::Error>> {
    changes.map_values(|p: PowerProfile| Ok::<Reply, zbus::Error>(Reply::ProfileChanged(p)))
}

pub open spec fn profile_names(ps: Seq<PowerProfile>) -> Seq<Seq<char>> {
    ps.map_values(|p: PowerProfile| profile_name(p))
}

proof fn lemma_watch_changes(changes: Seq<PowerProfile>)
    ensures
        run_from(Stage::WatchChanges, change_events(changes)).len() == changes.len(),
        printed(run_from(Stage::WatchChanges, change_events(changes))) == profile_names(changes),
        forall|i: int|
            0 <= i < changes.len() ==> run_from(Stage::WatchChanges, change_events(changes))[i].next
                == NextView::Call(Request::NextProfileChange),
    decreases changes.len(),
{
    let events = change_events(changes);
    let steps = run_from(Stage::WatchChanges, events);
    if changes.len() == 0 {
        assert(printed(steps) =~= profile_names(changes));
    } else {
        let rest = changes.drop_first();
        lemma_watch_changes(rest);
        assert(events.drop_first() =~= change_events(rest));
        let tail = run_from(Stage::WatchChanges, change_events(rest));
        assert(steps =~= seq![steps[0]] + tail);
        assert(steps.drop_first() =~= tail);
        assert(steps[0].output == seq![profile_name(changes[0])]);
        assert(printed(steps) =~= profile_names(changes));
        assert forall|i: int| 0 <= i < changes.len() implies steps[i].next == NextView::Call(
            Request::NextProfileChange,
        ) by {
            if i > 0 {
                assert(steps[i] == tail[i - 1]);
            }
        }
    }
}

/// Watching prints the active profile, then each profile that a notification
/// delivers, in the order they arrive, and keeps waiting for the next change
/// after every one of them.
pub proof fn lemma_watch_prints_every_change(initial: PowerProfile, changes: Seq<PowerProfile>)
    ensures
        ({
            let steps = run(
                Some(Commands::Watch),
                seq![Ok::<Reply, zbus::Error>(Reply::ActiveProfile(initial))] + change_events(
                    changes,
                ),
            );
            &&& steps.len() == changes.len() + 2
            &&& printed(steps) == seq![profile_name(initial)] + profile_names(changes)
            &&& forall|i: int|
                1 <= i < steps.len() ==> steps[i].next == NextView::Call(Request::NextProfileChange)
        }),
{
    let events = seq![Ok::<Reply, zbus::Error>(Reply::ActiveProfile(initial))] + change_events(
        changes,
    );
    let steps = run(Some(Commands::Watch), events);
    let (stage, first) = start_spec(Some(Commands::Watch));
    let (next, second) = resume_spec(stage, events[0]);
    lemma_watch_changes(changes);
    assert(events.drop_first() =~= change_events(changes));
    let tail = run_from(Stage::WatchChanges, change_events(changes));
    assert(run_from(stage, events) =~= seq![second] + tail);
    assert(steps =~= seq![first, second] + tail);
    assert(steps.drop_first() =~= seq![second] + tail);
    assert((seq![second] + tail).drop_first() =~= tail);
    assert(printed(seq![second] + tail) == second.output + printed(tail));
    assert(printed(steps) == first.output + printed(seq![second] + tail));
    assert(first.output =~= seq![]);
    assert(second.output =~= seq![profile_name(initial)]);
    assert(printed(steps) =~= seq![profile_name(initial)] + profile_names(changes));
    assert forall|i: int| 1 <= i < steps.len() implies steps[i].next == NextView::Call(
        Request::NextProfileChange,
    ) by {
        if i > 1 {
            assert(steps[i] == tail[i - 2]);
        }
    }
}

fn call(r: Request) -> (s: Step)
    ensures
        s@ == call_view(r),
{
    let s = Step { output: Vec::new(), next: Next::Call(r) };
    assert(s@.output =~= seq![]);
    s
}

fn fail(e: PpdError) -> (s: Step)
    ensures
        s@ == fail_view(e@),
{
    let s = Step { output: Vec::new(), next: Next::Done(Err(e)) };
    assert(s@.output =~= seq![]);
    s
}

fn done(output: Vec<String>) -> (s: Step)
    ensures
        s@ == done_view(lines_view(output@)),
{
    Step { output, next: Next::Done(Ok(())) }
}

fn done_silent() -> (s: Step)
    ensures
        s@ == done_view(seq![]),
{
    let s = Step { output: Vec::new(), next: Next::Done(Ok(())) };
    assert(s@.output =~= seq![]);
    s
}

fn one_line(line: String) -> (r: Vec<String>)
    ensures
        lines_view(r@) == seq![line@],
{
    let mut v: Vec<String> = Vec::new();
    v.push(line);
    assert(lines_view(v@) =~= seq![line@]);
    v
}

/// Whether some profile of `ps` is `p`.
pub fn has_profile(ps: &Vec<Profile>, p: PowerProfile) -> (r: bool)
    ensures
        r == lists_profile(ps@, p),
{
    let mut i: usize = 0;
    while i < ps.len()
        invariant
            i <= ps@.len(),
            forall|j: int| 0 <= j < i ==> ps@[j].profile != p,
        decreases ps@.len() - i,
    {
        if ps[i].profile == p {
            return true;
        }
        i = i + 1;
    }
    false
}

impl Session {
    /// Starts running `command`; no command means listing the profiles.
    pub fn start(command: Option<Commands>) -> (r: (Session, Step))
        ensures
            r.0.stage == start_spec(command).0,
            r.1@ == start_spec(command).1,
    {
        match command {
            None => (Session { stage: Stage::ListActive }, call(Request::ActiveProfile)),
            Some(Commands::List) => (Session { stage: Stage::ListActive }, call(Request::ActiveProfile)),
            Some(Commands::ListHolds) => (
                Session { stage: Stage::Finished },
                fail(PpdError::Unimplemented(String::from_str("ListHolds command"))),
            ),
            Some(Commands::ListActions) => (Session { stage: Stage::Actions }, call(Request::ActionsInfo)),
            Some(Commands::Get) => (Session { stage: Stage::Get }, call(Request::ActiveProfile)),
            Some(Commands::SetProfile { profile }) => match PowerProfile::try_from(profile.clone()) {
                Ok(p) => (Session { stage: Stage::SetProfiles(p) }, call(Request::Profiles)),
                Err(()) => (Session { stage: Stage::Finished }, fail(PpdError::InvalidProfile(profile))),
            },
            Some(Commands::ConfigureAction { .. }) => (
                Session { stage: Stage::Finished },
                fail(PpdError::Unimplemented(String::from_str("ConfigureAction command"))),
            ),
            Some(Commands::ConfigureBatteryAware { enable, disable }) => if enable && disable {
                (
                    Session { stage: Stage::Finished },
                    fail(PpdError::InvalidConfig(String::from_str("can't set both enable and disable"))),
                )
            } else if !enable && !disable {
                (
                    Session { stage: Stage::Finished },
                    fail(PpdError::InvalidConfig(String::from_str("enable or disable is required"))),
                )
            } else {
                (Session { stage: Stage::AwaitWrite }, call(Request::SetBatteryAware(enable)))
            },
            Some(Commands::QueryBatteryAware) => (
                Session { stage: Stage::BatteryAware },
                call(Request::BatteryAware),
            ),
            Some(Commands::Launch { .. }) => (
                Session { stage: Stage::Finished },
                fail(PpdError::Unimplemented(String::from_str("Launch command"))),
            ),
            Some(Commands::Watch) => (Session { stage: Stage::WatchInitial }, call(Request::ActiveProfile)),
        }
    }

    /// Whether the session has ended.
    pub fn is_finished(&self) -> (r: bool)
        ensures
            r == (self.stage is Finished),
    {
        match self.stage {
            Stage::Finished => true,
            _ => false,
        }
    }

    /// Whether the session waits for the answer `reply`.
    pub fn expects(&self, reply: &Reply) -> (r: bool)
        ensures
            r == accepts(self.stage, *reply),
    {
        match (&self.stage, reply) {
            (Stage::Get, Reply::ActiveProfile(_)) => true,
            (Stage::ListActive, Reply::ActiveProfile(_)) => true,
            (Stage::ListProfiles(_), Reply::Profiles(_)) => true,
            (Stage::ListDegraded(_, _), Reply::PerformanceDegraded(_)) => true,
            (Stage::SetProfiles(_), Reply::Profiles(_)) => true,
            (Stage::AwaitWrite, Reply::Written) => true,
            (Stage::Actions, Reply::ActionsInfo(_)) => true,
            (Stage::BatteryAware, Reply::BatteryAware(_)) => true,
            (Stage::WatchInitial, Reply::ActiveProfile(_)) => true,
            (Stage::WatchChanges, Reply::ProfileChanged(_)) => true,
            (Stage::WatchChanges, Reply::ChangesEnded) => true,
            _ => false,
        }
    }

    /// Hands the session the outcome of the call it asked for.
    pub fn resume(&mut self, event: Result<Reply, zbus::Error>) -> (r: Step)
        requires
            can_resume(old(self).stage, event),
        ensures
            final(self).stage == resume_spec(old(self).stage, event).0,
            r@ == resume_spec(old(self).stage, event).1,
    {
        let mut stage = Stage::Finished;
        std::mem::swap(&mut self.stage, &mut stage);
        let reply = match event {
            Err(e) => {
                return fail(PpdError::DBusError(e));
            },
            Ok(reply) => reply,
        };
        match (stage, reply) {
            (Stage::Get, Reply::ActiveProfile(p)) => done(one_line(p.to_string())),
            (Stage::ListActive, Reply::ActiveProfile(c)) => {
                self.stage = Stage::ListProfiles(c);
                call(Request::Profiles)
            },
            (Stage::ListProfiles(c), Reply::Profiles(ps)) => {
                if has_profile(&ps, PowerProfile::Performance) {
                    self.stage = Stage::ListDegraded(c, ps);
                    call(Request::PerformanceDegraded)
                } else {
                    done(render_list(c, &ps, &String::from_str("no")))
                }
            },
            (Stage::ListDegraded(c, ps), Reply::PerformanceDegraded(d)) => {
                let degraded = match d {
                    Some(s) => s,
                    None => String::from_str("no"),
                };
                done(render_list(c, &ps, &degraded))
            },
            (Stage::SetProfiles(p), Reply::Profiles(ps)) => {
                if has_profile(&ps, p) {
                    self.stage = Stage::AwaitWrite;
                    call(Request::SetActiveProfile(p))
                } else {
                    fail(PpdError::InvalidProfile(p.to_string()))
                }
            },
            (Stage::Actions, Reply::ActionsInfo(a)) => done(render_actions(&a)),
            (Stage::BatteryAware, Reply::BatteryAware(b)) => done(one_line(render_battery_aware(b))),
            (Stage::WatchInitial, Reply::ActiveProfile(p)) => {
                self.stage = Stage::WatchChanges;
                Step { output: one_line(p.to_string()), next: Next::Call(Request::NextProfileChange) }
            },
            (Stage::WatchChanges, Reply::ProfileChanged(p)) => {
                self.stage = Stage::WatchChanges;
                Step { output: one_line(p.to_string()), next: Next::Call(Request::NextProfileChange) }
            },
            _ => done_silent(),
        }
    }
}

} // verus!
