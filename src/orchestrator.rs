//! The injection orchestrator: runs the strategies of a plan in order,
//! stops at the first success, and reports an aggregate failure when every
//! strategy failed. The caller performs each attempt and reports back.
use vstd::prelude::*;

use crate::config::{apps_view, lookup_app, AppView, Config};
use crate::strategy::{
    lemma_plan_starts_with_primary, lowered, plan_of, resolve_names, strategy_of_name, views_of,
    InjectionStrategy,
};
use crate::text::{lower_of, lowercase};

verus! {

/// Who the payload is for. `window_handle` is the target's top-level
/// window as the platform numbers it; it is only handed back to the caller.
pub struct InjectionContext {
    pub app_name: String,
    pub window_title: String,
    pub window_handle: usize,
}

/// The one failure an orchestration reports to its caller.
#[derive(Debug, Clone, Copy, PartialEq, Eq, Structural)]
pub enum InjectionError {
    AllStrategiesFailed,
}

impl InjectionError {
    /// A readable description of the failure.
    pub fn message(&self) -> (r: &'static str)
        ensures
            r@ == "All injection strategies failed"@,
    {
        "All injection strategies failed"
    }
}

/// What the orchestrator asks of its caller next.
#[derive(Debug, Clone, Copy, PartialEq, Eq, Structural)]
pub enum OrchestratorAction {
    /// Run this strategy and report how it went.
    Attempt(InjectionStrategy),
    /// The strategy succeeded after the given whole milliseconds.
    Succeeded(InjectionStrategy, u64),
    /// Every strategy of the plan failed.
    Failed(InjectionError),
}

/// One reported attempt: whether it succeeded, and how long it took in
/// microseconds.
pub type AttemptReport = (bool, u64);

/// Whole milliseconds of a duration in microseconds, rounded up, so that
/// any attempt that took time is reported as taking some.
pub open spec fn millis_up(us: u64) -> u64 {
    if us % 1000 == 0 {
        (us / 1000) as u64
    } else {
        (us / 1000 + 1) as u64
    }
}

/// What an orchestration over `plan` asks for once `reports` came back,
/// one per attempt, in order.
pub open spec fn orchestration_action(
    plan: Seq<InjectionStrategy>,
    reports: Seq<AttemptReport>,
) -> OrchestratorAction
    decreases reports.len(),
{
    if reports.len() == 0 {
        if plan.len() == 0 {
            OrchestratorAction::Failed(InjectionError::AllStrategiesFailed)
        } else {
            OrchestratorAction::Attempt(plan[0])
        }
    } else {
        let prev = orchestration_action(plan, reports.drop_last());
        match prev {
            OrchestratorAction::Attempt(s) => {
                let n = reports.len() - 1;
                if reports.last().0 {
                    OrchestratorAction::Succeeded(s, millis_up(reports.last().1))
                } else if n + 1 < plan.len() {
                    OrchestratorAction::Attempt(plan[n + 1])
                } else {
                    OrchestratorAction::Failed(InjectionError::AllStrategiesFailed)
                }
            },
            _ => prev,
        }
    }
}

/// One orchestration: a plan and the attempts reported so far.
pub struct Orchestration {
    plan: Vec<InjectionStrategy>,
    attempted: usize,
    current: OrchestratorAction,
    reports: Ghost<Seq<AttemptReport>>,
}

impl Orchestration {
    /// The plan being run.
    pub closed spec fn plan_view(&self) -> Seq<InjectionStrategy> {
        self.plan@
    }

    /// The attempts reported so far.
    pub closed spec fn reports_view(&self) -> Seq<AttemptReport> {
        self.reports@
    }

    pub closed spec fn wf(&self) -> bool {
        &&& self.current == orchestration_action(self.plan@, self.reports@)
        &&& self.attempted == self.reports@.len()
        &&& self.current is Attempt ==> self.attempted < self.plan@.len()
            && self.current == OrchestratorAction::Attempt(self.plan@[self.attempted as int])
    }

    /// Starts running `plan`.
    pub fn new(plan: Vec<InjectionStrategy>) -> (r: Orchestration)
        ensures
            r.wf(),
            r.plan_view() == plan@,
            r.reports_view() == Seq::<AttemptReport>::empty(),
    {
        let current = if plan.len() == 0 {
            OrchestratorAction::Failed(InjectionError::AllStrategiesFailed)
        } else {
            OrchestratorAction::Attempt(plan[0])
        };
        Orchestration { plan, attempted: 0, current, reports: Ghost(Seq::empty()) }
    }

    /// What is asked of the caller now.
    pub fn action(&self) -> (r: OrchestratorAction)
        requires
            self.wf(),
        ensures
            r == orchestration_action(self.plan_view(), self.reports_view()),
    {
        self.current
    }

    /// Records how the attempt asked for went, and says what comes next.
    /// A report after the orchestration has finished changes nothing.
    pub fn report(&mut self, succeeded: bool, elapsed_us: u64) -> (r: OrchestratorAction)
        requires
            old(self).wf(),
        ensures
            final(self).wf(),
            final(self).plan_view() == old(self).plan_view(),
            orchestration_action(old(self).plan_view(), old(self).reports_view()) is Attempt
                ==> final(self).reports_view() == old(
                self,
            ).reports_view().push((succeeded, elapsed_us)),
            !(orchestration_action(old(self).plan_view(), old(self).reports_view()) is Attempt)
                ==> final(self).reports_view() == old(
                self,
            ).reports_view(),
            r == orchestration_action(final(self).plan_view(), final(self).reports_view()),
    {
        if let OrchestratorAction::Attempt(s) = self.current {
            let ghost before = self.reports@;
            self.reports = Ghost(self.reports@.push((succeeded, elapsed_us)));
            assert(self.reports@.drop_last() =~= before);
            let n = self.attempted;
            let len = self.plan.len();
            assert(n < len);
            self.attempted = n + 1;
            let ms = if elapsed_us % 1000 == 0 {
                elapsed_us / 1000
            } else {
                elapsed_us / 1000 + 1
            };
            if succeeded {
                self.current = OrchestratorAction::Succeeded(s, ms);
            } else if n + 1 < len {
                self.current = OrchestratorAction::Attempt(self.plan[n + 1]);
            } else {
                self.current = OrchestratorAction::Failed(InjectionError::AllStrategiesFailed);
            }
        }
        self.current
    }

    /// The final outcome once the orchestration has finished: the strategy
    /// that succeeded with its time, or the aggregate failure.
    pub fn outcome(&self) -> (r: Option<Result<(InjectionStrategy, u64), InjectionError>>)
        requires
            self.wf(),
        ensures
            r == match orchestration_action(self.plan_view(), self.reports_view()) {
                OrchestratorAction::Attempt(_) => None,
                OrchestratorAction::Succeeded(s, ms) => Some(Ok((s, ms))),
                OrchestratorAction::Failed(e) => Some(Err(e)),
            },
    {
        match self.current {
            OrchestratorAction::Attempt(_) => None,
            OrchestratorAction::Succeeded(s, ms) => Some(Ok((s, ms))),
            OrchestratorAction::Failed(e) => Some(Err(e)),
        }
    }
}

/// While no attempt succeeded, the k-th report is followed by an attempt of
/// the next strategy of the plan, or by the aggregate failure after the last.
pub proof fn lemma_failures_walk_plan(plan: Seq<InjectionStrategy>, reports: Seq<AttemptReport>)
    requires
        reports.len() <= plan.len(),
        forall|i: int| 0 <= i < reports.len() ==> !(#[trigger] reports[i]).0,
    ensures
        reports.len() < plan.len() ==> orchestration_action(plan, reports)
            == OrchestratorAction::Attempt(plan[reports.len() as int]),
        reports.len() == plan.len() ==> orchestration_action(plan, reports)
            == OrchestratorAction::Failed(InjectionError::AllStrategiesFailed),
    decreases reports.len(),
{
    if reports.len() > 0 {
        let prev = reports.drop_last();
        assert forall|i: int| 0 <= i < prev.len() implies !(#[trigger] prev[i]).0 by {
            assert(prev[i] == reports[i]);
        }
        lemma_failures_walk_plan(plan, prev);
        assert(!reports.last().0);
    }
}

/// When every strategy of a plan fails, the orchestration ends with the
/// aggregate failure, after exactly one attempt per strategy and in plan
/// order.
pub proof fn lemma_all_failed(plan: Seq<InjectionStrategy>, reports: Seq<AttemptReport>)
    requires
        reports.len() == plan.len(),
        forall|i: int| 0 <= i < reports.len() ==> !(#[trigger] reports[i]).0,
    ensures
        orchestration_action(plan, reports) == OrchestratorAction::Failed(
            InjectionError::AllStrategiesFailed,
        ),
        forall|k: int|
            0 <= k < plan.len() ==> orchestration_action(plan, #[trigger] reports.take(k))
                == OrchestratorAction::Attempt(plan[k]),
{
    lemma_failures_walk_plan(plan, reports);
    assert forall|k: int| 0 <= k < plan.len() implies orchestration_action(
        plan,
        #[trigger] reports.take(k),
    ) == OrchestratorAction::Attempt(plan[k]) by {
        let t = reports.take(k);
        assert forall|i: int| 0 <= i < t.len() implies !(#[trigger] t[i]).0 by {
            assert(t[i] == reports[i]);
        }
        lemma_failures_walk_plan(plan, t);
    }
}

/// The names a plan is made from: an application's own primary strategy
/// and fallbacks when it has an entry with a primary, else the global order.
pub open spec fn configured_names(
    apps: Seq<(Seq<char>, AppView)>,
    order: Seq<Seq<char>>,
    key: Seq<char>,
) -> Seq<Seq<char>> {
    match lookup_app(apps, key) {
        Some(a) => if a.1.0.len() > 0 {
            seq![a.1.0] + a.1.1
        } else {
            order
        },
        None => order,
    }
}

/// Every name of a list, lower-cased.
pub open spec fn lower_all(names: Seq<Seq<char>>) -> Seq<Seq<char>> {
    names.map_values(|n: Seq<char>| lower_of(n))
}

/// When an application's entry has a primary strategy whose lower-case
/// name is known, the plan for that application starts with it.
pub proof fn lemma_override_primary_first(
    apps: Seq<(Seq<char>, AppView)>,
    order: Seq<Seq<char>>,
    key: Seq<char>,
)
    requires
        lookup_app(apps, key) is Some,
        lookup_app(apps, key)->Some_0.1.0.len() > 0,
        strategy_of_name(lower_of(lookup_app(apps, key)->Some_0.1.0)) is Some,
    ensures
        plan_of(lower_all(configured_names(apps, order, key)))[0] == strategy_of_name(
            lower_of(lookup_app(apps, key)->Some_0.1.0),
        )->Some_0,
{
    let a = lookup_app(apps, key)->Some_0;
    let names = seq![a.1.0] + a.1.1;
    assert(lower_all(names) =~= seq![lower_of(a.1.0)] + lower_all(a.1.1));
    lemma_plan_starts_with_primary(lower_of(a.1.0), lower_all(a.1.1));
}

/// Runs injections under one configuration.
pub struct Injector {
    config: Config,
}

impl Injector {
    /// An injector for `config`; the plan comes from the configuration, so
    /// no strategy list is needed.
    pub fn new(_strategies: Vec<InjectionStrategy>, config: Config) -> (r: Injector)
        ensures
            r.config() == &config,
    {
        Injector { config }
    }

    pub closed spec fn config(&self) -> &Config {
        &self.config
    }

    /// The configuration in use.
    pub fn get_config(&self) -> (r: &Config)
        ensures
            r == self.config(),
    {
        &self.config
    }

    /// The plan for an application, looked up by its lower-case name.
    pub fn effective_strategies_for(&self, app_name: &str) -> (r: Vec<InjectionStrategy>)
        ensures
            r@ == plan_of(
                lower_all(
                    configured_names(
                        apps_view(self.config().applications@),
                        views_of(self.config().injection.order@),
                        lower_of(app_name@),
                    ),
                ),
            ),
    {
        let key = lowercase(app_name);
        let names: Vec<String> = match self.config.find_app(key.as_str()) {
            Some(app) => {
                if app.strategies.primary.unicode_len() > 0 {
                    let mut v: Vec<String> = Vec::new();
                    v.push(app.strategies.primary.clone());
                    let mut i: usize = 0;
                    while i < app.strategies.fallback.len()
                        invariant
                            i <= app.strategies.fallback@.len(),
                            views_of(v@) =~= seq![app.strategies.primary@] + views_of(
                                app.strategies.fallback@,
                            ).take(i as int),
                        decreases app.strategies.fallback@.len() - i,
                    {
                        let ghost before = v@;
                        v.push(app.strategies.fallback[i].clone());
                        assert(views_of(v@) =~= views_of(before).push(
                            app.strategies.fallback@[i as int]@,
                        ));
                        i = i + 1;
                    }
                    assert(views_of(app.strategies.fallback@).take(
                        app.strategies.fallback@.len() as int,
                    ) =~= views_of(app.strategies.fallback@));
                    v
                } else {
                    crate::config::copy_strings(&self.config.injection.order)
                }
            },
            None => crate::config::copy_strings(&self.config.injection.order),
        };
        let r = resolve_names(&names);
        assert(lowered(names@) =~= lower_all(views_of(names@)));
        r
    }

    /// The settle delay before injecting into an application.
    pub fn get_pre_inject_delay(&self, app_name: &str) -> (r: u64)
        ensures
            r == match lookup_app(apps_view(self.config().applications@), lower_of(app_name@)) {
                Some(c) => c.2.pre_inject_delay,
                None => 80,
            },
    {
        let app_config = self.config.get_app_config(app_name);
        app_config.settings.pre_inject_delay
    }

    /// Starts an injection for `context`: the orchestration runs the plan
    /// of the target application.
    pub fn begin(&self, context: &InjectionContext) -> (r: Orchestration)
        ensures
            r.wf(),
            r.plan_view() == plan_of(
                lower_all(
                    configured_names(
                        apps_view(self.config().applications@),
                        views_of(self.config().injection.order@),
                        lower_of(context.app_name@),
                    ),
                ),
            ),
            r.reports_view() == Seq::<AttemptReport>::empty(),
    {
        let plan = self.effective_strategies_for(context.app_name.as_str());
        Orchestration::new(plan)
    }
}

} // verus!
