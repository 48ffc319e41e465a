//! Top-level sequencing and the trigger dispatcher.
//!
//! The engine runs the unconditional scanners, then the baseline scan, and
//! hands the inventory to the dispatcher. The dispatcher walks the inventory
//! in order: for the first record of each open port it looks the port up in
//! the static trigger table and plans every listed follow-up scanner exactly
//! once — a repeated open-port record never re-triggers, a port without a
//! rule triggers nothing, and a closed or unclassified record triggers
//! nothing. The caller performs the planned invocations one by one and
//! records each outcome; one scanner's failure never touches the rest of
//! the plan.

use vstd::prelude::*;

use crate::error::ScanError;
use crate::feroxbuster::FeroxbusterScanResult;
use crate::nmap::{NmapScanResult, PortState, RecordModel};
use crate::nuclei::NucleiScanResult;

verus! {

/// The follow-up and unconditional scanners the engine knows how to invoke.
#[derive(Clone, Copy, PartialEq, Eq, Structural, PartialOrd, Ord, Debug)]
pub enum ScannerKind {
    /// Content discovery against a web port.
    Feroxbuster,
    /// Template-based vulnerability scan; runs unconditionally.
    Nuclei,
    /// The file-sharing checks planned for the file-sharing port.
    SmbSuite,
}

/// One rule of the static trigger table: a port number and the follow-up
/// scanners it activates.
pub struct TriggerRule {
    pub port: String,
    pub scanners: Vec<ScannerKind>,
}

/// The mathematical value of a [`TriggerRule`].
pub struct RuleModel {
    pub port: Seq<char>,
    pub scanners: Seq<ScannerKind>,
}

impl View for TriggerRule {
    type V = RuleModel;

    open spec fn view(&self) -> RuleModel {
        RuleModel { port: self.port@, scanners: self.scanners@ }
    }
}

impl DeepView for TriggerRule {
    type V = RuleModel;

    open spec fn deep_view(&self) -> RuleModel {
        self@
    }
}

/// One planned follow-up invocation: which scanner to run for which port.
pub struct Invocation {
    pub port: String,
    pub scanner: ScannerKind,
}

/// The mathematical value of an [`Invocation`].
pub struct InvocationModel {
    pub port: Seq<char>,
    pub scanner: ScannerKind,
}

impl View for Invocation {
    type V = InvocationModel;

    open spec fn view(&self) -> InvocationModel {
        InvocationModel { port: self.port@, scanner: self.scanner }
    }
}

impl DeepView for Invocation {
    type V = InvocationModel;

    open spec fn deep_view(&self) -> InvocationModel {
        self@
    }
}

/// The scanners a port activates regardless of discovery: the vulnerability
/// scan always runs, before the baseline scan.
pub fn always_triggers() -> (r: Vec<ScannerKind>)
    ensures
        r@ =~= seq![ScannerKind::Nuclei],
{
    vec![ScannerKind::Nuclei]
}

/// The follow-up scanners for the web port.
pub fn port80_triggers() -> (r: Vec<ScannerKind>)
    ensures
        r@ =~= seq![ScannerKind::Feroxbuster],
{
    vec![ScannerKind::Feroxbuster]
}

/// The follow-up scanners for the secure web port.
pub fn port443_triggers() -> (r: Vec<ScannerKind>)
    ensures
        r@ =~= seq![ScannerKind::Feroxbuster],
{
    vec![ScannerKind::Feroxbuster]
}

/// The follow-up scanners for the file-sharing port.
pub fn port445_triggers() -> (r: Vec<ScannerKind>)
    ensures
        r@ =~= seq![ScannerKind::SmbSuite],
{
    vec![ScannerKind::SmbSuite]
}

/// The static trigger table: defined once at startup, read-only for the
/// whole run.
pub struct ScanTriggers {
    /// The rules, one per recognized port number.
    pub triggers: Vec<TriggerRule>,
}

/// The table's mathematical value.
pub open spec fn spec_trigger_table() -> Seq<RuleModel> {
    seq![
        RuleModel { port: "80"@, scanners: seq![ScannerKind::Feroxbuster] },
        RuleModel { port: "443"@, scanners: seq![ScannerKind::Feroxbuster] },
        RuleModel { port: "445"@, scanners: seq![ScannerKind::SmbSuite] },
    ]
}

impl ScanTriggers {
    /// The static table: the web ports activate content discovery, the
    /// file-sharing port its own checks.
    pub fn new() -> (r: ScanTriggers)
        ensures
            r.triggers.deep_view() =~= spec_trigger_table(),
    {
        let triggers = vec![
            TriggerRule { port: "80".to_owned(), scanners: port80_triggers() },
            TriggerRule { port: "443".to_owned(), scanners: port443_triggers() },
            TriggerRule { port: "445".to_owned(), scanners: port445_triggers() },
        ];
        let r = ScanTriggers { triggers };
        assert(r.triggers.deep_view() =~= spec_trigger_table());
        r
    }

    /// The scanners the first rule for this port lists; none for a port
    /// without a rule.
    pub fn scanners_for(&self, port: &String) -> (r: Vec<ScannerKind>)
        ensures
            r@ == rule_scanners(self.triggers.deep_view(), port@),
    {
        let mut i: usize = 0;
        assert(self.triggers.deep_view().skip(0) =~= self.triggers.deep_view());
        while i < self.triggers.len()
            invariant
                i <= self.triggers.len(),
                rule_scanners(self.triggers.deep_view(), port@) == rule_scanners(
                    self.triggers.deep_view().skip(i as int),
                    port@,
                ),
            decreases self.triggers.len() - i,
        {
            assert(self.triggers.deep_view().skip(i as int).drop_first()
                =~= self.triggers.deep_view().skip(i + 1));
            assert(self.triggers.deep_view().skip(i as int).first()
                == self.triggers.deep_view()[i as int]);
            if self.triggers[i].port == *port {
                let rule = &self.triggers[i];
                let mut out: Vec<ScannerKind> = Vec::new();
                let mut j: usize = 0;
                while j < rule.scanners.len()
                    invariant
                        j <= rule.scanners.len(),
                        out@ == rule.scanners@.take(j as int),
                    decreases rule.scanners.len() - j,
                {
                    out.push(rule.scanners[j]);
                    assert(out@ =~= rule.scanners@.take(j + 1));
                    j += 1;
                }
                assert(rule.scanners@.take(rule.scanners.len() as int) =~= rule.scanners@);
                return out;
            }
            i += 1;
        }
        assert(self.triggers.deep_view().skip(self.triggers.len() as int) =~= Seq::<
            RuleModel,
        >::empty());
        Vec::new()
    }
}

/// The scanners the table's first rule for a port lists; none without a
/// rule.
pub open spec fn rule_scanners(rules: Seq<RuleModel>, port: Seq<char>) -> Seq<ScannerKind>
    decreases rules.len(),
{
    if rules.len() == 0 {
        Seq::<ScannerKind>::empty()
    } else if rules.first().port == port {
        rules.first().scanners
    } else {
        rule_scanners(rules.drop_first(), port)
    }
}

/// The invocations one port's rule plans: one per listed scanner.
pub open spec fn invocations_for(port: Seq<char>, scanners: Seq<ScannerKind>) -> Seq<
    InvocationModel,
> {
    scanners.map_values(|s: ScannerKind| InvocationModel { port: port, scanner: s })
}

/// The plan the dispatcher builds walking the inventory in order, with
/// `seen` the port numbers already dispatched: the first record of each
/// open port plans that port's rule, everything else plans nothing.
pub open spec fn plan_from(
    inv: Seq<RecordModel>,
    rules: Seq<RuleModel>,
    seen: Seq<Seq<char>>,
) -> Seq<InvocationModel>
    decreases inv.len(),
{
    if inv.len() == 0 {
        Seq::<InvocationModel>::empty()
    } else {
        let r = inv.first();
        if r.port.state is Open && !seen.contains(r.port.num) {
            invocations_for(r.port.num, rule_scanners(rules, r.port.num)) + plan_from(
                inv.drop_first(),
                rules,
                seen.push(r.port.num),
            )
        } else {
            plan_from(inv.drop_first(), rules, seen)
        }
    }
}

/// The dispatch plan for an inventory: a pure function of the inventory and
/// the trigger table.
pub open spec fn dispatch_plan(inv: Seq<RecordModel>, rules: Seq<RuleModel>) -> Seq<
    InvocationModel,
> {
    plan_from(inv, rules, Seq::<Seq<char>>::empty())
}

/// Whether one of the strings is this one.
fn contains_string(v: &Vec<String>, s: &String) -> (r: bool)
    ensures
        r == v.deep_view().contains(s@),
{
    let mut i: usize = 0;
    while i < v.len()
        invariant
            i <= v.len(),
            forall|k: int| 0 <= k < i ==> v.deep_view()[k] != s@,
        decreases v.len() - i,
    {
        if v[i] == *s {
            assert(v.deep_view()[i as int] == s@);
            return true;
        }
        i += 1;
    }
    false
}

/// Computes the dispatch plan, exactly as [`dispatch_plan`] says: every
/// listed follow-up scanner of the first record of each open port, at most
/// once per port.
pub fn compute_plan(inventory: &Vec<NmapScanResult>, triggers: &ScanTriggers) -> (plan: Vec<
    Invocation,
>)
    ensures
        plan.deep_view() == dispatch_plan(inventory.deep_view(), triggers.triggers.deep_view()),
{
    let ghost rules = triggers.triggers.deep_view();
    let mut out: Vec<Invocation> = Vec::new();
    let mut seen: Vec<String> = Vec::new();
    let mut i: usize = 0;
    proof {
        assert(inventory.deep_view().skip(0) =~= inventory.deep_view());
        assert(seen.deep_view() =~= Seq::<Seq<char>>::empty());
        assert(out.deep_view() + plan_from(inventory.deep_view(), rules, seen.deep_view())
            =~= plan_from(inventory.deep_view(), rules, seen.deep_view()));
    }
    while i < inventory.len()
        invariant
            i <= inventory.len(),
            rules == triggers.triggers.deep_view(),
            dispatch_plan(inventory.deep_view(), rules) == out.deep_view() + plan_from(
                inventory.deep_view().skip(i as int),
                rules,
                seen.deep_view(),
            ),
        decreases inventory.len() - i,
    {
        assert(inventory.deep_view().skip(i as int).drop_first() =~= inventory.deep_view().skip(
            i + 1,
        ));
        assert(inventory.deep_view().skip(i as int).first() == inventory.deep_view()[i as int]);
        let rec = &inventory[i];
        let is_open = match rec.port.state {
            PortState::Open => true,
            _ => false,
        };
        let ghost seen0 = seen.deep_view();
        let ghost out_start = out.deep_view();
        if is_open && !contains_string(&seen, &rec.port.num) {
            let scanners = triggers.scanners_for(&rec.port.num);
            let ghost out0 = out.deep_view();
            let ghost p = rec.port.num@;
            let mut j: usize = 0;
            proof {
                assert(scanners@.take(0int) =~= Seq::<ScannerKind>::empty());
                assert(invocations_for(p, scanners@.take(0int)) =~= Seq::<
                    InvocationModel,
                >::empty());
                assert(out.deep_view() =~= out0 + invocations_for(p, scanners@.take(0int)));
            }
            while j < scanners.len()
                invariant
                    j <= scanners.len(),
                    p == rec.port.num@,
                    out.deep_view() == out0 + invocations_for(p, scanners@.take(j as int)),
                decreases scanners.len() - j,
            {
                let ghost prev = out.deep_view();
                out.push(Invocation { port: rec.port.num.clone(), scanner: scanners[j] });
                proof {
                    let e = InvocationModel { port: p, scanner: scanners@[j as int] };
                    assert(out.deep_view() =~= prev.push(e));
                    assert(invocations_for(p, scanners@.take(j + 1)) =~= invocations_for(
                        p,
                        scanners@.take(j as int),
                    ).push(e));
                    assert(prev.push(e) =~= out0 + invocations_for(p, scanners@.take(j as int)).push(
                        e,
                    ));
                }
                j += 1;
            }
            assert(scanners@.take(scanners.len() as int) =~= scanners@);
            seen.push(rec.port.num.clone());
            proof {
                assert(seen.deep_view() =~= seen0.push(p));
                let block = invocations_for(p, rule_scanners(rules, p));
                let rest = plan_from(inventory.deep_view().skip(i + 1), rules, seen0.push(p));
                assert(plan_from(inventory.deep_view().skip(i as int), rules, seen0) == block
                    + rest);
                assert((out_start + block) + rest =~= out_start + (block + rest));
            }
        }
        i += 1;
    }
    assert(inventory.deep_view().skip(inventory.len() as int) =~= Seq::<RecordModel>::empty());
    assert(out.deep_view() + Seq::<InvocationModel>::empty() =~= out.deep_view());
    out
}

/// One typed unit of scan output, over all follow-up scanner kinds.
pub enum Finding {
    /// A discovered web path.
    WebPath(FeroxbusterScanResult),
    /// A matched vulnerability template.
    Vulnerability(NucleiScanResult),
}

/// The tagged result of running one scanner: exactly one variant per
/// invocation. An installed scanner that found nothing is `Success` with no
/// findings — distinct from a scanner that never ran.
pub enum ScanOutcome {
    /// The tool ran and its output decoded to these findings.
    Success(Vec<Finding>),
    /// The named tool is absent; only this scanner is disabled.
    NotInstalled(String),
    /// The named tool could not be spawned or exited abnormally, with the
    /// underlying error text.
    RuntimeFailure(String, String),
}

/// Wraps decoded web-path records as findings, in order.
pub fn wrap_web_findings(records: Vec<FeroxbusterScanResult>) -> (r: Vec<Finding>)
    ensures
        r@.len() == records@.len(),
        forall|i: int| 0 <= i < r@.len() ==> r@[i] == Finding::WebPath(records@[i]),
{
    let ghost all = records@;
    let mut records = records;
    let mut rev: Vec<FeroxbusterScanResult> = Vec::new();
    while records.len() > 0
        invariant
            records@.len() + rev@.len() == all.len(),
            records@ == all.take(records@.len() as int),
            forall|k: int| 0 <= k < rev@.len() ==> rev@[k] == all[all.len() - 1 - k],
        decreases records.len(),
    {
        assert(all.take(records@.len() as int).drop_last() =~= all.take(records@.len() - 1));
        let x = records.pop().unwrap();
        rev.push(x);
    }
    let mut out: Vec<Finding> = Vec::new();
    while rev.len() > 0
        invariant
            out@.len() + rev@.len() == all.len(),
            forall|k: int| 0 <= k < rev@.len() ==> rev@[k] == all[all.len() - 1 - k],
            forall|k: int| 0 <= k < out@.len() ==> out@[k] == Finding::WebPath(all[k]),
        decreases rev.len(),
    {
        let x = rev.pop().unwrap();
        out.push(Finding::WebPath(x));
    }
    out
}

/// Wraps decoded vulnerability records as findings, in order.
pub fn wrap_vuln_findings(records: Vec<NucleiScanResult>) -> (r: Vec<Finding>)
    ensures
        r@.len() == records@.len(),
        forall|i: int| 0 <= i < r@.len() ==> r@[i] == Finding::Vulnerability(records@[i]),
{
    let ghost all = records@;
    let mut records = records;
    let mut rev: Vec<NucleiScanResult> = Vec::new();
    while records.len() > 0
        invariant
            records@.len() + rev@.len() == all.len(),
            records@ == all.take(records@.len() as int),
            forall|k: int| 0 <= k < rev@.len() ==> rev@[k] == all[all.len() - 1 - k],
        decreases records.len(),
    {
        assert(all.take(records@.len() as int).drop_last() =~= all.take(records@.len() - 1));
        let x = records.pop().unwrap();
        rev.push(x);
    }
    let mut out: Vec<Finding> = Vec::new();
    while rev.len() > 0
        invariant
            out@.len() + rev@.len() == all.len(),
            forall|k: int| 0 <= k < rev@.len() ==> rev@[k] == all[all.len() - 1 - k],
            forall|k: int| 0 <= k < out@.len() ==> out@[k] == Finding::Vulnerability(all[k]),
        decreases rev.len(),
    {
        let x = rev.pop().unwrap();
        out.push(Finding::Vulnerability(x));
    }
    out
}

/// Carries one scanner's error into the aggregated outcome set, with the
/// underlying error text for a runtime failure.
pub fn outcome_of_error(err: ScanError, detail: String) -> (r: ScanOutcome)
    ensures
        err matches ScanError::NotInstalled(n) ==> (r matches ScanOutcome::NotInstalled(m) && m@
            == n@),
        err matches ScanError::Runtime(n) ==> (r matches ScanOutcome::RuntimeFailure(m, d) && m@
            == n@ && d@ == detail@),
{
    match err {
        ScanError::NotInstalled(n) => ScanOutcome::NotInstalled(n),
        ScanError::Runtime(n) => ScanOutcome::RuntimeFailure(n, detail),
    }
}

/// The dispatcher's phase: it starts `Idle` with the static table, moves to
/// `Dispatching` when a non-empty plan is on foot, and is `Done` when every
/// planned invocation has an outcome.
#[derive(Clone, Copy, PartialEq, Eq, Structural, Debug)]
pub enum DispatchPhase {
    Idle,
    Dispatching,
    Done,
}

/// The trigger dispatcher: plans the follow-up invocations for one
/// inventory and collects one outcome per invocation.
///
/// The caller asks for the next invocation, performs it, and records the
/// outcome; recording never touches the plan, so no failure can cost
/// another scanner its turn.
pub struct Dispatcher {
    /// The static trigger table, held from construction on.
    pub triggers: ScanTriggers,
    /// Where the dispatcher stands.
    pub phase: DispatchPhase,
    /// The planned invocations, fixed once `dispatch` ran.
    pub plan: Vec<Invocation>,
    /// How many invocations have an outcome already; the next one to run.
    pub next: usize,
    /// One outcome per performed invocation, in plan order.
    pub outcomes: Vec<ScanOutcome>,
}

impl Dispatcher {
    /// The dispatcher's phase always agrees with how far the plan got.
    pub open spec fn wf(&self) -> bool {
        &&& self.next <= self.plan@.len()
        &&& self.outcomes@.len() == self.next
        &&& (self.phase is Idle ==> self.plan@.len() == 0 && self.next == 0)
        &&& (self.phase is Dispatching ==> self.next < self.plan@.len())
        &&& (self.phase is Done ==> self.next == self.plan@.len())
    }

    /// A dispatcher at rest, holding the trigger table.
    pub fn new(triggers: ScanTriggers) -> (d: Dispatcher)
        ensures
            d.wf(),
            d.phase is Idle,
            d.triggers == triggers,
    {
        Dispatcher {
            triggers,
            phase: DispatchPhase::Idle,
            plan: Vec::new(),
            next: 0,
            outcomes: Vec::new(),
        }
    }

    /// Plans the follow-up work for an inventory: exactly
    /// [`dispatch_plan`] of the inventory and the table. With nothing to
    /// invoke the dispatcher is immediately done; otherwise it is
    /// dispatching, starting from the first invocation.
    pub fn dispatch(&mut self, inventory: &Vec<NmapScanResult>)
        requires
            old(self).wf(),
            old(self).phase is Idle,
        ensures
            final(self).wf(),
            final(self).triggers == old(self).triggers,
            final(self).plan.deep_view() == dispatch_plan(
                inventory.deep_view(),
                old(self).triggers.triggers.deep_view(),
            ),
            final(self).next == 0,
            final(self).outcomes@.len() == 0,
            final(self).phase is Done <==> final(self).plan@.len() == 0,
            final(self).phase is Dispatching <==> final(self).plan@.len() > 0,
    {
        let plan = compute_plan(inventory, &self.triggers);
        if plan.len() == 0 {
            self.phase = DispatchPhase::Done;
        } else {
            self.phase = DispatchPhase::Dispatching;
        }
        self.plan = plan;
    }

    /// The invocation to perform next, while any is left.
    pub fn next_invocation(&self) -> (r: Option<&Invocation>)
        requires
            self.wf(),
        ensures
            self.phase is Dispatching ==> (r matches Some(inv) && *inv
                == self.plan@[self.next as int]),
            !(self.phase is Dispatching) ==> r is None,
    {
        match self.phase {
            DispatchPhase::Dispatching => Some(&self.plan[self.next]),
            _ => None,
        }
    }

    /// Records the outcome of the invocation just performed and moves on.
    ///
    /// Whatever the outcome — findings, an absent tool, a crashed tool —
    /// the plan and the invocations still pending are exactly as they were:
    /// one scanner's failure is isolated to its own outcome and never
    /// prevents the remaining scanners from being invoked.
    pub fn record_outcome(&mut self, outcome: ScanOutcome)
        requires
            old(self).wf(),
            old(self).phase is Dispatching,
        ensures
            final(self).wf(),
            final(self).triggers == old(self).triggers,
            final(self).plan == old(self).plan,
            final(self).next == old(self).next + 1,
            final(self).outcomes@ == old(self).outcomes@.push(outcome),
            final(self).phase is Done <==> final(self).next == final(self).plan@.len(),
            final(self).phase is Dispatching <==> final(self).next < final(self).plan@.len(),
    {
        let n = self.plan.len();
        assert(self.next < n);
        self.outcomes.push(outcome);
        self.next += 1;
        if self.next == n {
            self.phase = DispatchPhase::Done;
        }
    }
}

/// The engine's terminal state: either nothing was discovered and nothing
/// is to do, or the dispatcher's plan stands.
#[derive(Clone, Copy, PartialEq, Eq, Structural, Debug)]
pub enum EngineStatus {
    /// The baseline scan found no open ports; no follow-up scanner is ever
    /// invoked.
    NoOpenPorts,
    /// The inventory was handed to the dispatcher.
    Dispatched,
}

/// What one run of the engine decides: the unconditional scanners, and the
/// follow-up plan where there is one.
pub struct EnginePlan {
    /// The scanners run once per target before the baseline scan.
    pub unconditional: Vec<ScannerKind>,
    /// The planned follow-up invocations, in dispatch order.
    pub dispatch: Vec<Invocation>,
    pub status: EngineStatus,
}

/// The top-level sequencing decision, a pure function of the baseline
/// inventory and the trigger table: the unconditional scanners always run;
/// an empty inventory short-circuits — the dispatcher is never invoked and
/// the run ends in the no-open-ports state; otherwise the follow-up plan is
/// exactly [`dispatch_plan`]. The caller performs the invocations.
pub fn run(inventory: &Vec<NmapScanResult>, triggers: &ScanTriggers) -> (p: EnginePlan)
    ensures
        p.unconditional@ =~= seq![ScannerKind::Nuclei],
        inventory@.len() == 0 ==> p.status is NoOpenPorts && p.dispatch@.len() == 0,
        inventory@.len() > 0 ==> p.status is Dispatched && p.dispatch.deep_view()
            == dispatch_plan(inventory.deep_view(), triggers.triggers.deep_view()),
        (forall|i: int| 0 <= i < inventory.deep_view().len()
            ==> !((#[trigger] inventory.deep_view()[i]).port.state is Open))
            ==> p.dispatch@.len() == 0,
{
    let unconditional = always_triggers();
    if inventory.len() == 0 {
        EnginePlan { unconditional, dispatch: Vec::new(), status: EngineStatus::NoOpenPorts }
    } else {
        let dispatch = compute_plan(inventory, triggers);
        proof {
            if forall|i: int| 0 <= i < inventory.deep_view().len()
                ==> !((#[trigger] inventory.deep_view()[i]).port.state is Open) {
                lemma_no_open_ports_no_dispatch(
                    inventory.deep_view(),
                    triggers.triggers.deep_view(),
                );
                assert(dispatch.deep_view().len() == 0);
                assert(dispatch@.len() == 0);
            }
        }
        EnginePlan { unconditional, dispatch, status: EngineStatus::Dispatched }
    }
}

/// How many of the outcomes are successes.
pub open spec fn spec_count_successes(outcomes: Seq<ScanOutcome>) -> nat
    decreases outcomes.len(),
{
    if outcomes.len() == 0 {
        0
    } else {
        spec_count_successes(outcomes.drop_last()) + if outcomes.last() is Success {
            1nat
        } else {
            0nat
        }
    }
}

/// The engine's final status reflects the union of all outcomes: this is
/// how many scanner runs succeeded, the absent and crashed tools counted
/// apart. An installed scanner with zero findings still counts as a
/// success, distinct from one that never ran.
pub fn count_successes(outcomes: &Vec<ScanOutcome>) -> (n: usize)
    ensures
        n == spec_count_successes(outcomes@),
        n <= outcomes@.len(),
{
    let mut n: usize = 0;
    let mut i: usize = 0;
    while i < outcomes.len()
        invariant
            i <= outcomes.len(),
            n <= i,
            n == spec_count_successes(outcomes@.take(i as int)),
        decreases outcomes.len() - i,
    {
        assert(outcomes@.take(i + 1).drop_last() =~= outcomes@.take(i as int));
        assert(outcomes@.take(i + 1).last() == outcomes@[i as int]);
        if matches!(&outcomes[i], ScanOutcome::Success(_)) {
            n += 1;
        }
        i += 1;
    }
    assert(outcomes@.take(outcomes.len() as int) =~= outcomes@);
    n
}

/// Whether some record of the inventory shows this port number open.
pub open spec fn has_open_port(inv: Seq<RecordModel>, port: Seq<char>) -> bool {
    exists|i: int| 0 <= i < inv.len() && inv[i].port.state is Open && inv[i].port.num == port
}

/// The set of open port numbers of an inventory.
pub open spec fn open_ports(inv: Seq<RecordModel>) -> Set<Seq<char>> {
    Set::new(|p: Seq<char>| has_open_port(inv, p))
}

proof fn lemma_contains_concat<T>(a: Seq<T>, b: Seq<T>, x: T)
    ensures
        (a + b).contains(x) <==> a.contains(x) || b.contains(x),
{
    if (a + b).contains(x) {
        let i = choose|i: int| 0 <= i < (a + b).len() && (a + b)[i] == x;
        if i < a.len() {
            assert(a[i] == x);
        } else {
            assert(b[i - a.len()] == x);
        }
    }
    if a.contains(x) {
        let i = choose|i: int| 0 <= i < a.len() && a[i] == x;
        assert((a + b)[i] == x);
    }
    if b.contains(x) {
        let i = choose|i: int| 0 <= i < b.len() && b[i] == x;
        assert((a + b)[a.len() + i] == x);
    }
}

proof fn lemma_push_contains<T>(s: Seq<T>, y: T, x: T)
    ensures
        s.push(y).contains(x) <==> s.contains(x) || x == y,
{
    if s.push(y).contains(x) {
        let i = choose|i: int| 0 <= i < s.push(y).len() && s.push(y)[i] == x;
        if i < s.len() {
            assert(s[i] == x);
        }
    }
    if s.contains(x) {
        let i = choose|i: int| 0 <= i < s.len() && s[i] == x;
        assert(s.push(y)[i] == x);
    }
    assert(s.push(y)[s.len() as int] == y);
}

proof fn lemma_invocations_for_contains(p: Seq<char>, ss: Seq<ScannerKind>, x: InvocationModel)
    ensures
        invocations_for(p, ss).contains(x) <==> (x.port == p && ss.contains(x.scanner)),
{
    if invocations_for(p, ss).contains(x) {
        let i = choose|i: int|
            0 <= i < invocations_for(p, ss).len() && invocations_for(p, ss)[i] == x;
        assert(ss[i] == x.scanner);
    }
    if x.port == p && ss.contains(x.scanner) {
        let i = choose|i: int| 0 <= i < ss.len() && ss[i] == x.scanner;
        assert(invocations_for(p, ss)[i] == x);
    }
}

/// What stands in a partial plan: an invocation for exactly the open ports
/// not yet dispatched, with exactly the scanners their rule lists.
proof fn lemma_plan_from_membership(
    inv: Seq<RecordModel>,
    rules: Seq<RuleModel>,
    seen: Seq<Seq<char>>,
    x: InvocationModel,
)
    ensures
        plan_from(inv, rules, seen).contains(x) <==> (has_open_port(inv, x.port)
            && !seen.contains(x.port) && rule_scanners(rules, x.port).contains(x.scanner)),
    decreases inv.len(),
{
    if inv.len() == 0 {
    } else {
        let r = inv.first();
        let rest_inv = inv.drop_first();
        assert forall|p: Seq<char>| has_open_port(rest_inv, p) implies has_open_port(inv, p) by {
            let i = choose|i: int|
                0 <= i < rest_inv.len() && rest_inv[i].port.state is Open && rest_inv[i].port.num
                    == p;
            assert(inv[i + 1].port.state is Open && inv[i + 1].port.num == p);
        }
        assert forall|p: Seq<char>|
            has_open_port(inv, p) && !(r.port.state is Open && r.port.num
                == p) implies has_open_port(rest_inv, p) by {
            let i = choose|i: int|
                0 <= i < inv.len() && inv[i].port.state is Open && inv[i].port.num == p;
            assert(i != 0);
            assert(rest_inv[i - 1].port.state is Open && rest_inv[i - 1].port.num == p);
        }
        if r.port.state is Open && !seen.contains(r.port.num) {
            let block = invocations_for(r.port.num, rule_scanners(rules, r.port.num));
            let rest = plan_from(rest_inv, rules, seen.push(r.port.num));
            lemma_plan_from_membership(rest_inv, rules, seen.push(r.port.num), x);
            lemma_contains_concat(block, rest, x);
            lemma_invocations_for_contains(r.port.num, rule_scanners(rules, r.port.num), x);
            lemma_push_contains(seen, r.port.num, x.port);
            assert(has_open_port(inv, r.port.num)) by {
                assert(inv[0].port.state is Open && inv[0].port.num == r.port.num);
            }
        } else {
            lemma_plan_from_membership(rest_inv, rules, seen, x);
            if r.port.state is Open && seen.contains(r.port.num) && x.port == r.port.num {
                assert(!(plan_from(inv, rules, seen).contains(x)));
            }
        }
    }
}

/// What the dispatcher plans for an inventory: an invocation for a port and
/// a scanner exactly when the port is open somewhere in the inventory and
/// the table's rule for it lists the scanner.
pub proof fn lemma_dispatch_membership(
    inv: Seq<RecordModel>,
    rules: Seq<RuleModel>,
    x: InvocationModel,
)
    ensures
        dispatch_plan(inv, rules).contains(x) <==> (has_open_port(inv, x.port) && rule_scanners(
            rules,
            x.port,
        ).contains(x.scanner)),
{
    lemma_plan_from_membership(inv, rules, Seq::<Seq<char>>::empty(), x);
}

/// Dispatch is a pure function of the open-port set and the trigger table:
/// two inventories with the same open ports — whatever the order or the
/// multiplicity of their records — plan the same set of invocations.
pub proof fn lemma_dispatch_pure(
    inv1: Seq<RecordModel>,
    inv2: Seq<RecordModel>,
    rules: Seq<RuleModel>,
)
    requires
        open_ports(inv1) == open_ports(inv2),
    ensures
        dispatch_plan(inv1, rules).to_set() == dispatch_plan(inv2, rules).to_set(),
{
    assert forall|x: InvocationModel|
        dispatch_plan(inv1, rules).to_set().contains(x) == dispatch_plan(
            inv2,
            rules,
        ).to_set().contains(x) by {
        lemma_dispatch_membership(inv1, rules, x);
        lemma_dispatch_membership(inv2, rules, x);
        assert(dispatch_plan(inv1, rules).to_set().contains(x) == dispatch_plan(
            inv1,
            rules,
        ).contains(x));
        assert(dispatch_plan(inv2, rules).to_set().contains(x) == dispatch_plan(
            inv2,
            rules,
        ).contains(x));
        assert(open_ports(inv1).contains(x.port) == has_open_port(inv1, x.port));
        assert(open_ports(inv2).contains(x.port) == has_open_port(inv2, x.port));
        assert(open_ports(inv1).contains(x.port) == open_ports(inv2).contains(x.port));
    }
    assert(dispatch_plan(inv1, rules).to_set() =~= dispatch_plan(inv2, rules).to_set());
}

/// No two entries of a plan name the same port and scanner.
pub open spec fn distinct_invocations(plan: Seq<InvocationModel>) -> bool {
    forall|i: int, j: int| 0 <= i < j < plan.len() ==> plan[i] != plan[j]
}

/// A well-formed trigger table lists no scanner twice within one rule.
pub open spec fn rules_wf(rules: Seq<RuleModel>) -> bool {
    forall|k: int| 0 <= k < rules.len() ==> distinct_scanners(#[trigger] rules[k].scanners)
}

/// No scanner kind appears twice.
pub open spec fn distinct_scanners(ss: Seq<ScannerKind>) -> bool {
    forall|i: int, j: int| 0 <= i < j < ss.len() ==> ss[i] != ss[j]
}

proof fn lemma_rule_scanners_distinct(rules: Seq<RuleModel>, port: Seq<char>)
    requires
        rules_wf(rules),
    ensures
        distinct_scanners(rule_scanners(rules, port)),
    decreases rules.len(),
{
    if rules.len() == 0 {
    } else if rules.first().port == port {
        assert(rules[0].scanners == rule_scanners(rules, port));
    } else {
        assert forall|k: int|
            0 <= k < rules.drop_first().len() implies distinct_scanners(
            #[trigger] rules.drop_first()[k].scanners,
        ) by {
            assert(rules.drop_first()[k] == rules[k + 1]);
        }
        lemma_rule_scanners_distinct(rules.drop_first(), port);
    }
}

proof fn lemma_plan_from_distinct(inv: Seq<RecordModel>, rules: Seq<RuleModel>, seen: Seq<
    Seq<char>,
>)
    requires
        rules_wf(rules),
    ensures
        distinct_invocations(plan_from(inv, rules, seen)),
    decreases inv.len(),
{
    if inv.len() == 0 {
    } else {
        let r = inv.first();
        let rest_inv = inv.drop_first();
        if r.port.state is Open && !seen.contains(r.port.num) {
            let p = r.port.num;
            let ss = rule_scanners(rules, p);
            let block = invocations_for(p, ss);
            let rest = plan_from(rest_inv, rules, seen.push(p));
            let plan = plan_from(inv, rules, seen);
            lemma_plan_from_distinct(rest_inv, rules, seen.push(p));
            lemma_rule_scanners_distinct(rules, p);
            assert forall|i: int, j: int| 0 <= i < j < plan.len() implies plan[i] != plan[j] by {
                if j < block.len() {
                    assert(plan[i] == block[i] && plan[j] == block[j]);
                    assert(block[i].scanner == ss[i] && block[j].scanner == ss[j]);
                } else if i < block.len() {
                    assert(plan[i] == block[i]);
                    assert(plan[j] == rest[j - block.len()]);
                    assert(rest.contains(rest[j - block.len()]));
                    lemma_plan_from_membership(
                        rest_inv,
                        rules,
                        seen.push(p),
                        rest[j - block.len()],
                    );
                    lemma_push_contains(seen, p, rest[j - block.len()].port);
                    assert(rest[j - block.len()].port != p);
                    assert(block[i].port == p);
                } else {
                    assert(plan[i] == rest[i - block.len()] && plan[j] == rest[j - block.len()]);
                }
            }
        } else {
            lemma_plan_from_distinct(rest_inv, rules, seen);
        }
    }
}

/// Every planned invocation is invoked exactly once: with a well-formed
/// table, the plan never names the same port and scanner twice, however
/// often the inventory repeats an open port.
pub proof fn lemma_dispatch_exactly_once(inv: Seq<RecordModel>, rules: Seq<RuleModel>)
    requires
        rules_wf(rules),
    ensures
        distinct_invocations(dispatch_plan(inv, rules)),
{
    lemma_plan_from_distinct(inv, rules, Seq::<Seq<char>>::empty());
}

/// The static table is well-formed: no rule lists a scanner twice.
pub proof fn lemma_trigger_table_wf()
    ensures
        rules_wf(spec_trigger_table()),
{
    assert forall|k: int| 0 <= k < spec_trigger_table().len() implies distinct_scanners(
        #[trigger] spec_trigger_table()[k].scanners,
    ) by {
        assert(spec_trigger_table()[k].scanners.len() == 1);
    }
}

/// Zero open ports mean zero follow-up invocations: an inventory without an
/// open record plans nothing at all, whatever the table says.
pub proof fn lemma_no_open_ports_no_dispatch(inv: Seq<RecordModel>, rules: Seq<RuleModel>)
    requires
        forall|i: int| 0 <= i < inv.len() ==> !((#[trigger] inv[i]).port.state is Open),
    ensures
        dispatch_plan(inv, rules) == Seq::<InvocationModel>::empty(),
    decreases inv.len(),
{
    lemma_plan_from_no_open(inv, rules, Seq::<Seq<char>>::empty());
}

proof fn lemma_plan_from_no_open(inv: Seq<RecordModel>, rules: Seq<RuleModel>, seen: Seq<
    Seq<char>,
>)
    requires
        forall|i: int| 0 <= i < inv.len() ==> !((#[trigger] inv[i]).port.state is Open),
    ensures
        plan_from(inv, rules, seen) == Seq::<InvocationModel>::empty(),
    decreases inv.len(),
{
    if inv.len() > 0 {
        assert(!(inv[0].port.state is Open));
        let rest_inv = inv.drop_first();
        assert forall|i: int| 0 <= i < rest_inv.len() implies !((#[trigger] rest_inv[i]).port.state
            is Open) by {
            assert(rest_inv[i] == inv[i + 1]);
        }
        lemma_plan_from_no_open(rest_inv, rules, seen);
    }
}

} // verus!