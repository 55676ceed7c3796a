use vstd::prelude::*;

use crate::config::{LogLevel, StartupConfig};

verus! {

/// A console notice printed at a milestone of setup, in verbose builds.
#[derive(Clone, Copy, Debug, PartialEq, Eq, Structural)]
pub enum Notice {
    Starting,
    WindowFound,
    WindowVisible,
}

pub open spec fn notice_text(n: Notice) -> Seq<char> {
    match n {
        Notice::Starting => "Tauri app starting up..."@,
        Notice::WindowFound => "Main window created successfully"@,
        Notice::WindowVisible => "Window should now be visible"@,
    }
}

impl Notice {
    /// The line printed for this notice.
    pub fn text(&self) -> (r: &'static str)
        ensures
            r@ == notice_text(*self),
    {
        match self {
            Notice::Starting => "Tauri app starting up...",
            Notice::WindowFound => "Main window created successfully",
            Notice::WindowVisible => "Window should now be visible",
        }
    }
}

/// One unit of work of the setup hook, carried out by the host runtime.
#[derive(Clone, Copy, Debug, PartialEq, Eq, Structural)]
pub enum Step {
    /// Print a notice on the console.
    Announce(Notice),
    /// Attach the logging add-on with this threshold.
    AttachLog(LogLevel),
    /// Look up the main window by its label.
    LookupWindow,
    /// Make the main window visible.
    ShowWindow,
    /// Give the main window input focus.
    FocusWindow,
}

/// Why start-up failed. Every fault ends the process.
#[derive(Clone, Copy, Debug, PartialEq, Eq, Structural)]
pub enum Fault {
    /// A console notice could not be written.
    Console,
    /// The logging add-on could not be attached.
    LogPlugin,
    /// No window is registered under the main window's label.
    MissingWindow,
    /// The main window could not be shown.
    ShowWindow,
    /// The main window could not be focused.
    FocusWindow,
    /// The host's event loop could not be started or failed.
    RunLoop,
}

/// The fault raised when `s` fails.
pub open spec fn fault_of(s: Step) -> Fault {
    match s {
        Step::Announce(_) => Fault::Console,
        Step::AttachLog(_) => Fault::LogPlugin,
        Step::LookupWindow => Fault::MissingWindow,
        Step::ShowWindow => Fault::ShowWindow,
        Step::FocusWindow => Fault::FocusWindow,
    }
}

impl Step {
    /// The fault raised when this step fails.
    pub fn fault(&self) -> (f: Fault)
        ensures
            f == fault_of(*self),
    {
        match self {
            Step::Announce(_) => Fault::Console,
            Step::AttachLog(_) => Fault::LogPlugin,
            Step::LookupWindow => Fault::MissingWindow,
            Step::ShowWindow => Fault::ShowWindow,
            Step::FocusWindow => Fault::FocusWindow,
        }
    }
}

pub open spec fn diagnostic_text(f: Fault) -> Seq<char> {
    match f {
        Fault::Console => "could not write to the console"@,
        Fault::LogPlugin => "could not attach the logging plugin"@,
        Fault::MissingWindow => "no window is registered under the label \"main\""@,
        Fault::ShowWindow => "could not show the main window"@,
        Fault::FocusWindow => "could not focus the main window"@,
        Fault::RunLoop => "error while running tauri application"@,
    }
}

impl Fault {
    /// The diagnostic reported when start-up ends with this fault.
    pub fn diagnostic(&self) -> (r: &'static str)
        ensures
            r@ == diagnostic_text(*self),
    {
        match self {
            Fault::Console => "could not write to the console",
            Fault::LogPlugin => "could not attach the logging plugin",
            Fault::MissingWindow => "no window is registered under the label \"main\"",
            Fault::ShowWindow => "could not show the main window",
            Fault::FocusWindow => "could not focus the main window",
            Fault::RunLoop => "error while running tauri application",
        }
    }
}

/// The steps of the setup hook for `c`, in order: a start notice when
/// verbose, the logging add-on when one is asked for, the window lookup, a
/// notice when verbose, showing and focusing the window, and a last notice
/// when verbose.
pub open spec fn plan_for(c: StartupConfig) -> Seq<Step> {
    let notice = |n: Notice| if c.verbose { seq![Step::Announce(n)] } else { Seq::<Step>::empty() };
    let log = match c.log_level {
        Some(level) => seq![Step::AttachLog(level)],
        None => Seq::<Step>::empty(),
    };
    notice(Notice::Starting) + log + seq![Step::LookupWindow] + notice(Notice::WindowFound)
        + seq![Step::ShowWindow, Step::FocusWindow] + notice(Notice::WindowVisible)
}

/// The steps of the setup hook for `c` (see `plan_for`).
pub fn plan(c: &StartupConfig) -> (r: Vec<Step>)
    ensures
        r@ == plan_for(*c),
{
    let mut r: Vec<Step> = Vec::new();
    if c.verbose {
        r.push(Step::Announce(Notice::Starting));
    }
    match c.log_level {
        Some(level) => r.push(Step::AttachLog(level)),
        None => {},
    }
    r.push(Step::LookupWindow);
    if c.verbose {
        r.push(Step::Announce(Notice::WindowFound));
    }
    r.push(Step::ShowWindow);
    r.push(Step::FocusWindow);
    if c.verbose {
        r.push(Step::Announce(Notice::WindowVisible));
    }
    assert(r@ =~= plan_for(*c));
    r
}

/// Where a run of the setup hook stands.
#[derive(Clone, Copy, Debug, PartialEq, Eq, Structural)]
pub enum Status {
    /// Steps remain to be carried out.
    Pending,
    /// Every step of the plan succeeded.
    Completed,
    /// A step failed; nothing more is carried out.
    Aborted(Fault),
}

/// What the host runtime is asked to do next.
#[derive(Clone, Copy, Debug, PartialEq, Eq, Structural)]
pub enum Action {
    /// Carry out this step and report whether it succeeded.
    Perform(Step),
    /// Setup is over: return success to the host.
    Finish,
    /// Setup is over: return this fault to the host.
    Abort(Fault),
}

/// The abstract state of a setup run: its plan, how many of its steps
/// succeeded so far, and its status.
pub struct SetupView {
    pub plan: Seq<Step>,
    pub done: nat,
    pub status: Status,
}

/// A consistent setup state: the steps that succeeded are a prefix of the
/// plan, a pending or aborted run has a step at `done`, the failed one for
/// an aborted run, and a completed run has carried out every step.
pub open spec fn setup_wf(s: SetupView) -> bool {
    &&& s.done <= s.plan.len()
    &&& match s.status {
        Status::Pending => s.done < s.plan.len(),
        Status::Completed => s.done == s.plan.len(),
        Status::Aborted(f) => s.done < s.plan.len() && f == fault_of(s.plan[s.done as int]),
    }
}

/// The start of a setup run for `c`.
pub open spec fn initial_setup(c: StartupConfig) -> SetupView {
    SetupView { plan: plan_for(c), done: 0, status: Status::Pending }
}

/// The state after the pending step is reported as `succeeded` or failed.
/// A finished run ignores further reports.
pub open spec fn after_report(s: SetupView, succeeded: bool) -> SetupView {
    match s.status {
        Status::Pending => if succeeded {
            SetupView {
                plan: s.plan,
                done: s.done + 1,
                status: if s.done + 1 == s.plan.len() { Status::Completed } else { Status::Pending },
            }
        } else {
            SetupView { plan: s.plan, done: s.done, status: Status::Aborted(fault_of(s.plan[s.done as int])) }
        },
        _ => s,
    }
}

/// The state after the reports `outcomes`, in order.
pub open spec fn after_reports(s: SetupView, outcomes: Seq<bool>) -> SetupView
    decreases outcomes.len(),
{
    if outcomes.len() == 0 {
        s
    } else {
        after_reports(after_report(s, outcomes[0]), outcomes.drop_first())
    }
}

/// What the host is asked to do in state `s`.
pub open spec fn action_of(s: SetupView) -> Action {
    match s.status {
        Status::Pending => Action::Perform(s.plan[s.done as int]),
        Status::Completed => Action::Finish,
        Status::Aborted(f) => Action::Abort(f),
    }
}

/// The steps that have been carried out with success.
pub open spec fn performed(s: SetupView) -> Seq<Step> {
    s.plan.take(s.done as int)
}

/// A run of the setup hook: walks the plan one step at a time and stops at
/// the first step that fails.
pub struct Setup {
    steps: Vec<Step>,
    done: usize,
    status: Status,
}

impl View for Setup {
    type V = SetupView;

    closed spec fn view(&self) -> SetupView {
        SetupView { plan: self.steps@, done: self.done as nat, status: self.status }
    }
}

impl Setup {
    pub closed spec fn wf(&self) -> bool {
        setup_wf(self@)
    }

    /// A run of the setup hook for `c`, before its first step.
    pub fn new(c: &StartupConfig) -> (s: Setup)
        ensures
            s.wf(),
            s@ == initial_setup(*c),
    {
        let steps = plan(c);
        Setup { steps, done: 0, status: Status::Pending }
    }

    pub fn status(&self) -> (r: Status)
        ensures
            r == self@.status,
    {
        self.status
    }

    /// The number of steps carried out with success so far.
    pub fn steps_done(&self) -> (r: usize)
        ensures
            r == self@.done,
    {
        self.done
    }

    /// What the host is asked to do now.
    pub fn next_action(&self) -> (a: Action)
        requires
            self.wf(),
        ensures
            a == action_of(self@),
    {
        match self.status {
            Status::Pending => Action::Perform(self.steps[self.done]),
            Status::Completed => Action::Finish,
            Status::Aborted(f) => Action::Abort(f),
        }
    }

    /// Records whether the pending step succeeded. Once the run has
    /// completed or aborted, a report changes nothing.
    pub fn report(&mut self, succeeded: bool)
        requires
            old(self).wf(),
        ensures
            final(self).wf(),
            final(self)@ == after_report(old(self)@, succeeded),
    {
        match self.status {
            Status::Pending => {
                if succeeded {
                    let n = self.steps.len();
                    self.done = self.done + 1;
                    if self.done == n {
                        self.status = Status::Completed;
                    }
                } else {
                    self.status = Status::Aborted(self.steps[self.done].fault());
                }
            },
            _ => {},
        }
    }

    /// What the setup hook returns to the host: `None` while steps remain,
    /// then success or the fault that stopped the run.
    pub fn outcome(&self) -> (r: Option<Result<(), Fault>>)
        ensures
            r == match self@.status {
                Status::Pending => None::<Result<(), Fault>>,
                Status::Completed => Some(Ok::<(), Fault>(())),
                Status::Aborted(f) => Some(Err::<(), Fault>(f)),
            },
    {
        match self.status {
            Status::Pending => None,
            Status::Completed => Some(Ok(())),
            Status::Aborted(f) => Some(Err(f)),
        }
    }
}

/// The display state of the main window.
pub struct WindowFlags {
    pub visible: bool,
    pub focused: bool,
}

/// The display state after step `s` succeeded on a window in state `w`.
pub open spec fn apply_step(w: WindowFlags, s: Step) -> WindowFlags {
    match s {
        Step::ShowWindow => WindowFlags { visible: true, focused: w.focused },
        Step::FocusWindow => WindowFlags { visible: w.visible, focused: true },
        _ => w,
    }
}

/// The display state after the steps `steps` succeeded, in order, on a
/// window in state `w`.
pub open spec fn window_after(w: WindowFlags, steps: Seq<Step>) -> WindowFlags
    decreases steps.len(),
{
    if steps.len() == 0 {
        w
    } else {
        apply_step(window_after(w, steps.drop_last()), steps.last())
    }
}

/// The position of the window lookup in the plan for `c`.
pub open spec fn lookup_index(c: StartupConfig) -> int {
    (if c.verbose { 1int } else { 0int }) + (if c.log_level is Some { 1int } else { 0int })
}

/// `s` after the next `n` steps of a pending run succeeded.
pub open spec fn advanced(s: SetupView, n: nat) -> SetupView {
    SetupView {
        plan: s.plan,
        done: s.done + n,
        status: if s.done + n == s.plan.len() { Status::Completed } else { Status::Pending },
    }
}

proof fn lemma_window_after_concat(w: WindowFlags, a: Seq<Step>, b: Seq<Step>)
    ensures
        window_after(w, a + b) == window_after(window_after(w, a), b),
    decreases b.len(),
{
    if b.len() > 0 {
        assert((a + b).drop_last() =~= a + b.drop_last());
        lemma_window_after_concat(w, a, b.drop_last());
    } else {
        assert(a + b =~= a);
    }
}

proof fn lemma_window_untouched(w: WindowFlags, steps: Seq<Step>)
    requires
        forall|i: int| 0 <= i < steps.len() ==> steps[i] != Step::ShowWindow && steps[i] != Step::FocusWindow,
    ensures
        window_after(w, steps) == w,
    decreases steps.len(),
{
    if steps.len() > 0 {
        lemma_window_untouched(w, steps.drop_last());
    }
}

proof fn lemma_successes_advance(s: SetupView, outcomes: Seq<bool>, n: nat)
    requires
        setup_wf(s),
        s.status == Status::Pending,
        n <= outcomes.len(),
        s.done + n <= s.plan.len(),
        forall|i: int| 0 <= i < n ==> outcomes[i],
    ensures
        after_reports(s, outcomes) == after_reports(advanced(s, n), outcomes.skip(n as int)),
    decreases n,
{
    if n == 0 {
        assert(outcomes.skip(0) =~= outcomes);
        assert(advanced(s, 0) == s);
    } else {
        let s1 = after_report(s, outcomes[0]);
        assert(s1 == advanced(s, 1));
        assert(outcomes.drop_first().skip(n - 1) =~= outcomes.skip(n as int));
        if n > 1 {
            lemma_successes_advance(s1, outcomes.drop_first(), (n - 1) as nat);
            assert(advanced(s1, (n - 1) as nat) == advanced(s, n));
        } else {
            assert(outcomes.drop_first() =~= outcomes.skip(1));
        }
    }
}

/// A run that has completed or aborted stays as it is, whatever is reported
/// afterwards: the setup hook does its work once.
pub proof fn lemma_finished_run_is_absorbing(s: SetupView, outcomes: Seq<bool>)
    ensures
        s.status != Status::Pending ==> after_reports(s, outcomes) == s,
    decreases outcomes.len(),
{
    if outcomes.len() > 0 {
        lemma_finished_run_is_absorbing(after_report(s, outcomes[0]), outcomes.drop_first());
    }
}

/// Reports keep a setup state consistent, keep its plan, and never undo a
/// step that succeeded.
pub proof fn lemma_reports_keep_wf(s: SetupView, outcomes: Seq<bool>)
    requires
        setup_wf(s),
    ensures
        setup_wf(after_reports(s, outcomes)),
        after_reports(s, outcomes).plan == s.plan,
        after_reports(s, outcomes).done >= s.done,
    decreases outcomes.len(),
{
    if outcomes.len() > 0 {
        lemma_reports_keep_wf(after_report(s, outcomes[0]), outcomes.drop_first());
    }
}

/// Once a run has completed, the main window is visible and has input
/// focus, whatever its state before setup.
pub proof fn lemma_completed_run_shows_window(c: StartupConfig, outcomes: Seq<bool>, w: WindowFlags)
    ensures
        after_reports(initial_setup(c), outcomes).status == Status::Completed ==> window_after(
            w,
            performed(after_reports(initial_setup(c), outcomes)),
        ) == (WindowFlags { visible: true, focused: true }),
{
    let s = after_reports(initial_setup(c), outcomes);
    lemma_reports_keep_wf(initial_setup(c), outcomes);
    if s.status == Status::Completed {
        let p = plan_for(c);
        assert(performed(s) =~= p);
        let notice = |n: Notice| if c.verbose { seq![Step::Announce(n)] } else { Seq::<Step>::empty() };
        let log = match c.log_level {
            Some(level) => seq![Step::AttachLog(level)],
            None => Seq::<Step>::empty(),
        };
        let head = notice(Notice::Starting) + log + seq![Step::LookupWindow] + notice(Notice::WindowFound);
        let tail = notice(Notice::WindowVisible);
        let mid = seq![Step::ShowWindow, Step::FocusWindow];
        assert(p =~= head + mid + tail);
        lemma_window_after_concat(w, head + mid, tail);
        lemma_window_after_concat(w, head, mid);
        let w1 = window_after(w, head);
        assert(mid.drop_last() =~= seq![Step::ShowWindow]);
        assert(mid.drop_last().drop_last() =~= Seq::<Step>::empty());
        assert(window_after(w1, mid.drop_last().drop_last()) == w1);
        assert(mid.drop_last().last() == Step::ShowWindow);
        assert(window_after(w1, mid.drop_last()) == apply_step(w1, Step::ShowWindow));
        assert(mid.last() == Step::FocusWindow);
        assert(window_after(w1, mid) == (WindowFlags { visible: true, focused: true }));
        lemma_window_untouched(window_after(w1, mid), tail);
    }
}

/// When every step succeeds, the window lookup included, the run completes
/// after as many reports as the plan has steps.
pub proof fn lemma_successful_run_completes(c: StartupConfig, outcomes: Seq<bool>)
    requires
        outcomes.len() >= plan_for(c).len(),
        forall|i: int| 0 <= i < outcomes.len() ==> outcomes[i],
    ensures
        after_reports(initial_setup(c), outcomes).status == Status::Completed,
        performed(after_reports(initial_setup(c), outcomes)) == plan_for(c),
{
    let s0 = initial_setup(c);
    let n = plan_for(c).len();
    lemma_successes_advance(s0, outcomes, n);
    lemma_finished_run_is_absorbing(advanced(s0, n), outcomes.skip(n as int));
    assert(plan_for(c).take(n as int) =~= plan_for(c));
}

/// When the window lookup is reached and finds no window, the run aborts
/// with `MissingWindow`, before the window is shown or focused.
pub proof fn lemma_missing_window_aborts(c: StartupConfig, outcomes: Seq<bool>, w: WindowFlags)
    requires
        lookup_index(c) < outcomes.len(),
        forall|i: int| 0 <= i < lookup_index(c) ==> outcomes[i],
        !outcomes[lookup_index(c)],
    ensures
        after_reports(initial_setup(c), outcomes).status == Status::Aborted(Fault::MissingWindow),
        window_after(w, performed(after_reports(initial_setup(c), outcomes))) == w,
{
    let s0 = initial_setup(c);
    let k = lookup_index(c);
    let p = plan_for(c);
    assert(p[k] == Step::LookupWindow);
    lemma_successes_advance(s0, outcomes, k as nat);
    let s1 = advanced(s0, k as nat);
    let rest = outcomes.skip(k);
    let s2 = after_report(s1, rest[0]);
    assert(s2.status == Status::Aborted(Fault::MissingWindow));
    lemma_finished_run_is_absorbing(s2, rest.drop_first());
    assert(performed(s2) =~= p.take(k));
    assert forall|i: int| 0 <= i < p.take(k).len() implies p.take(k)[i] != Step::ShowWindow
        && p.take(k)[i] != Step::FocusWindow by {
        assert(p.take(k)[i] == p[i]);
    };
    lemma_window_untouched(w, p.take(k));
}

/// In a verbose run, the start notice is the first step, so it is printed
/// before the window is shown; in a quiet run no notice is printed at all.
pub proof fn lemma_notices_follow_verbosity(c: StartupConfig, outcomes: Seq<bool>)
    ensures
        c.verbose ==> plan_for(c)[0] == Step::Announce(Notice::Starting),
        c.verbose ==> forall|i: int|
            0 <= i < performed(after_reports(initial_setup(c), outcomes)).len()
                && #[trigger] performed(after_reports(initial_setup(c), outcomes))[i] == Step::ShowWindow
                ==> 0 < i && performed(after_reports(initial_setup(c), outcomes))[0] == Step::Announce(
                Notice::Starting,
            ),
        !c.verbose ==> forall|i: int| 0 <= i < plan_for(c).len() ==> !(#[trigger] plan_for(c)[i] is Announce),
{
    let s = after_reports(initial_setup(c), outcomes);
    lemma_reports_keep_wf(initial_setup(c), outcomes);
    let p = plan_for(c);
    assert forall|i: int| 0 <= i < performed(s).len() implies performed(s)[i] == p[i] by {};
}

} // verus!
