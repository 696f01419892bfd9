//! The inference engine: premises, goal evaluation and the decisions of an
//! inference run.
//!
//! Evaluating MeTTa is the work of the Hyperon interpreter, which runs
//! outside this library: a run here says which goal to evaluate next
//! ([`InferenceRun::next_action`]), and is handed back what the interpreter
//! produced ([`InferenceRun::goal_evaluated`]), as [`HyperonAtom`] values.

use vstd::prelude::*;

use crate::config::InferenceConfig;
use crate::error::OpenCogError;
use crate::text::{append_decimal, decimal};
use crate::types::{
    Atom, AtomId, AtomModel, AtomType, AtomTypeModel, AttentionValue, InferenceRequest,
    InferenceResult, MettaExpression, ONE_BITS, ProofStep, ProofStepModel, TruthValue,
    is_random_uuid,
};

verus! {

/// What a Hyperon atom holds, as plain values.
#[derive(Debug)]
pub enum HyperonAtom {
    /// A symbol, by name
    Symbol { name: String },
    /// A variable, by name
    Variable { name: String },
    /// An expression, by its children
    Expression { children: Vec<HyperonAtom> },
    /// A grounded value, by the text of its type
    Grounded { type_text: String },
}

/// The atom type that a Hyperon atom becomes: symbols and variables keep
/// their names; an expression becomes an expression without operands whose
/// operator is the name of its first child when that is a symbol, "expr" when
/// it is anything else and "empty" when there is no child; a grounded value
/// becomes the symbol "grounded:" followed by the text of its type.
pub open spec fn converted_type(h: HyperonAtom) -> AtomTypeModel {
    match h {
        HyperonAtom::Symbol { name } => AtomTypeModel::Symbol { name: name@ },
        HyperonAtom::Variable { name } => AtomTypeModel::Variable { name: name@ },
        HyperonAtom::Expression { children } => {
            if children@.len() > 0 {
                match children@[0] {
                    HyperonAtom::Symbol { name } => AtomTypeModel::Expression {
                        operator: name@,
                        operands: Seq::empty(),
                    },
                    _ => AtomTypeModel::Expression { operator: "expr"@, operands: Seq::empty() },
                }
            } else {
                AtomTypeModel::Expression { operator: "empty"@, operands: Seq::empty() }
            }
        },
        HyperonAtom::Grounded { type_text } => AtomTypeModel::Symbol {
            name: "grounded:"@ + type_text@,
        },
    }
}

/// The default truth value: full strength and confidence.
pub open spec fn default_truth() -> TruthValue {
    TruthValue { strength: ONE_BITS, confidence: ONE_BITS }
}

/// The default attention value: no importance.
pub open spec fn default_attention() -> AttentionValue {
    AttentionValue { sti: 0, lti: 0, vlti: 0 }
}

/// The atom that a Hyperon atom becomes under identifier `id`, with the
/// default truth and attention values.
pub open spec fn converted_atom(h: HyperonAtom, id: AtomId) -> AtomModel {
    AtomModel {
        id,
        atom_type: converted_type(h),
        truth_value: Some(default_truth()),
        attention_value: Some(default_attention()),
    }
}

/// The description of the proof step that adds premise `index`.
pub open spec fn premise_text(index: nat, expression: Seq<char>) -> Seq<char> {
    "Added premise "@ + decimal(index) + ": "@ + expression
}

/// The description of the proof step that evaluated the goal at `step`.
pub open spec fn goal_text(step: nat, expression: Seq<char>) -> Seq<char> {
    "Evaluated goal at step "@ + decimal(step) + ": "@ + expression
}

/// A proof step that adds premise `index` with the given expression text.
pub open spec fn is_premise_step(s: ProofStepModel, index: nat, expression: Seq<char>) -> bool {
    &&& s.rule == "add-premise"@
    &&& s.inputs == Seq::<AtomId>::empty()
    &&& is_random_uuid(s.output.0)
    &&& s.description == premise_text(index, expression)
}

/// A proof step that evaluated the goal at `step`, giving atom `output`.
pub open spec fn is_goal_step(
    s: ProofStepModel,
    step: nat,
    expression: Seq<char>,
    output: AtomId,
) -> bool {
    &&& s.rule == "goal-evaluation"@
    &&& s.inputs == Seq::<AtomId>::empty()
    &&& s.output == output
    &&& s.description == goal_text(step, expression)
}

/// The models of a list of proof steps.
pub open spec fn steps_view(steps: Seq<ProofStep>) -> Seq<ProofStepModel> {
    steps.map_values(|s: ProofStep| s@)
}

/// The models of a list of atoms.
pub open spec fn atoms_view(atoms: Seq<Atom>) -> Seq<AtomModel> {
    atoms.map_values(|a: Atom| a@)
}

/// The steps that add the premises, in order.
pub open spec fn are_premise_steps(steps: Seq<ProofStepModel>, premises: Seq<MettaExpression>) -> bool {
    &&& steps.len() == premises.len()
    &&& forall|i: int|
        0 <= i < steps.len() ==> #[trigger] is_premise_step(
            steps[i],
            i as nat,
            premises[i].expression@,
        )
}

/// Builds `prefix`, then the decimal rendering of `n`, then ": ", then `tail`.
fn numbered_text(prefix: &str, n: usize, tail: &str) -> (s: String)
    ensures
        s@ == prefix@ + decimal(n as nat) + ": "@ + tail@,
{
    let mut s = String::from_str(prefix);
    append_decimal(&mut s, n);
    s.append(": ");
    s.append(tail);
    s
}

/// Joins a list of lists into one list, in order.
pub fn flatten_results<T>(runs: Vec<Vec<T>>) -> (r: Vec<T>)
    ensures
        r@ == runs@.map_values(|v: Vec<T>| v@).flatten(),
{
    let ghost whole = runs@.map_values(|v: Vec<T>| v@);
    let mut runs = runs;
    let mut tail: Vec<Vec<T>> = Vec::new();
    // Take the lists off the back, then append them front to back.
    while runs.len() > 0
        invariant
            runs@.map_values(|v: Vec<T>| v@) + tail@.map_values(|v: Vec<T>| v@).reverse() == whole,
        decreases runs.len(),
    {
        let last = runs.pop().unwrap();
        let ghost before = tail@;
        tail.push(last);
        assert(tail@.map_values(|v: Vec<T>| v@).reverse() =~= seq![last@] + before.map_values(
            |v: Vec<T>| v@,
        ).reverse());
        assert(runs@.map_values(|v: Vec<T>| v@) + tail@.map_values(|v: Vec<T>| v@).reverse()
            =~= whole);
    }
    assert(runs@.map_values(|v: Vec<T>| v@) =~= Seq::empty());
    let mut r: Vec<T> = Vec::new();
    let ghost mut done: Seq<Seq<T>> = Seq::empty();
    assert(done.flatten() =~= Seq::empty());
    while tail.len() > 0
        invariant
            done + tail@.map_values(|v: Vec<T>| v@).reverse() == whole,
            r@ == done.flatten(),
        decreases tail.len(),
    {
        let mut next = tail.pop().unwrap();
        let ghost piece = next@;
        r.append(&mut next);
        proof {
            done.lemma_flatten_push(piece);
            assert(done.push(piece) + tail@.map_values(|v: Vec<T>| v@).reverse() =~= whole);
            done = done.push(piece);
        }
    }
    assert(done =~= whole);
    r
}

/// The result of evaluating a goal: the derived atom and the step that
/// derived it.
#[derive(Debug)]
pub struct GoalResult {
    pub atom: Atom,
    pub proof_steps: Vec<ProofStep>,
}

/// The result of one general inference step.
#[derive(Debug)]
pub struct InferenceStep {
    pub derived_atom: Option<Atom>,
    pub proof_step: ProofStep,
}


/// The step limit of a run: the request's, or the configuration's where the
/// request sets none.
pub open spec fn step_limit(config: InferenceConfig, requested: Option<usize>) -> usize {
    match requested {
        Some(n) => n,
        None => config.max_steps,
    }
}

/// The time limit of a run: the request's, or the configuration's where the
/// request sets none.
pub open spec fn time_limit(config: InferenceConfig, requested: Option<u64>) -> u64 {
    match requested {
        Some(t) => t,
        None => config.timeout_ms,
    }
}

/// `v` is how a run starts for `request` under `config`: its limits, its
/// goal, the premise steps, and, without a goal, the immediate end of general
/// inference.
pub open spec fn started_run(
    config: InferenceConfig,
    request: InferenceRequest,
    v: InferenceRunModel,
) -> bool {
    &&& v.max_steps == step_limit(config, request.max_steps)
    &&& v.timeout_ms == time_limit(config, request.timeout_ms)
    &&& v.goal == goal_view(request.goal)
    &&& v.step == 0
    &&& v.conclusions.len() == 0
    &&& are_premise_steps(v.proof_steps, request.premises@)
    &&& request.goal is None ==> v.finished && v.success == (v.max_steps > 0)
    &&& request.goal is Some ==> v.finished == (v.max_steps == 0) && !v.success
}

/// `new` is what a run in state `old` becomes when the evaluation of its goal
/// gave `outcome`.
pub open spec fn evaluation_step(
    old: InferenceRunModel,
    new: InferenceRunModel,
    outcome: Result<Vec<HyperonAtom>, OpenCogError>,
) -> bool {
    &&& new.goal == old.goal
    &&& new.max_steps == old.max_steps
    &&& new.timeout_ms == old.timeout_ms
    &&& match outcome {
        Err(_) => {
            &&& new.finished
            &&& !new.success
            &&& new.step == old.step
            &&& new.conclusions == old.conclusions
            &&& new.proof_steps == old.proof_steps
        },
        Ok(results) => if results@.len() > 0 {
            let c = new.conclusions.last();
            &&& new.finished
            &&& new.success
            &&& new.step == old.step
            &&& is_random_uuid(c.id.0)
            &&& new.conclusions == old.conclusions.push(converted_atom(results@[0], c.id))
            &&& new.proof_steps.len() == old.proof_steps.len() + 1
            &&& new.proof_steps.drop_last() == old.proof_steps
            &&& is_goal_step(new.proof_steps.last(), old.step as nat, old.goal->0, c.id)
        } else {
            &&& new.step == old.step + 1
            &&& new.finished == (new.step == new.max_steps)
            &&& !new.success
            &&& new.conclusions == old.conclusions
            &&& new.proof_steps == old.proof_steps
        },
    }
}

/// Two proof steps agree in everything but the identifier they output.
pub open spec fn same_step_up_to_ids(a: ProofStepModel, b: ProofStepModel) -> bool {
    &&& a.rule == b.rule
    &&& a.inputs == b.inputs
    &&& a.description == b.description
}

/// Two atoms agree in everything but their identifier.
pub open spec fn same_atom_up_to_ids(a: AtomModel, b: AtomModel) -> bool {
    &&& a.atom_type == b.atom_type
    &&& a.truth_value == b.truth_value
    &&& a.attention_value == b.attention_value
}

/// Two run states agree in everything but the fresh identifiers drawn for
/// their proof steps and conclusions.
pub open spec fn same_run_up_to_ids(a: InferenceRunModel, b: InferenceRunModel) -> bool {
    &&& a.goal == b.goal
    &&& a.max_steps == b.max_steps
    &&& a.timeout_ms == b.timeout_ms
    &&& a.step == b.step
    &&& a.success == b.success
    &&& a.finished == b.finished
    &&& a.conclusions.len() == b.conclusions.len()
    &&& forall|i: int|
        0 <= i < a.conclusions.len() ==> same_atom_up_to_ids(
            #[trigger] a.conclusions[i],
            b.conclusions[i],
        )
    &&& a.proof_steps.len() == b.proof_steps.len()
    &&& forall|i: int|
        0 <= i < a.proof_steps.len() ==> same_step_up_to_ids(
            #[trigger] a.proof_steps[i],
            b.proof_steps[i],
        )
}

/// Two requests that differ only in their limits: the same premise texts, in
/// order, and the same goal text.
pub open spec fn same_request_but_limits(a: InferenceRequest, b: InferenceRequest) -> bool {
    &&& a.premises@.len() == b.premises@.len()
    &&& forall|i: int|
        0 <= i < a.premises@.len() ==> (#[trigger] a.premises@[i]).expression@
            == b.premises@[i].expression@
    &&& goal_view(a.goal) == goal_view(b.goal)
}

/// A request that names the configured step and time limits starts a run
/// just as one that names no limits: the two start states agree in all but
/// fresh identifiers.
pub proof fn law_explicit_default_limits_start_alike(
    config: InferenceConfig,
    implicit: InferenceRequest,
    explicit: InferenceRequest,
    v1: InferenceRunModel,
    v2: InferenceRunModel,
)
    requires
        implicit.max_steps is None,
        implicit.timeout_ms is None,
        explicit.max_steps == Some(config.max_steps),
        explicit.timeout_ms == Some(config.timeout_ms),
        same_request_but_limits(implicit, explicit),
        started_run(config, implicit, v1),
        started_run(config, explicit, v2),
    ensures
        same_run_up_to_ids(v1, v2),
{
    assert forall|i: int| 0 <= i < v1.proof_steps.len() implies same_step_up_to_ids(
        #[trigger] v1.proof_steps[i],
        v2.proof_steps[i],
    ) by {
        assert(is_premise_step(v1.proof_steps[i], i as nat, implicit.premises@[i].expression@));
        assert(is_premise_step(v2.proof_steps[i], i as nat, explicit.premises@[i].expression@));
    }
}

/// Runs that agree in all but fresh identifiers still do so after their goal
/// evaluations give the same outcome; with the start law, two runs of the
/// same request driven by the same outcomes agree step by step to the end.
pub proof fn law_alike_runs_stay_alike(
    a1: InferenceRunModel,
    a2: InferenceRunModel,
    b1: InferenceRunModel,
    b2: InferenceRunModel,
    outcome: Result<Vec<HyperonAtom>, OpenCogError>,
)
    requires
        same_run_up_to_ids(a1, a2),
        evaluation_step(a1, b1, outcome),
        evaluation_step(a2, b2, outcome),
    ensures
        same_run_up_to_ids(b1, b2),
{
    match outcome {
        Err(_) => {},
        Ok(results) => {
            if results@.len() > 0 {
                assert forall|i: int| 0 <= i < b1.conclusions.len() implies same_atom_up_to_ids(
                    #[trigger] b1.conclusions[i],
                    b2.conclusions[i],
                ) by {
                    if i < a1.conclusions.len() {
                        assert(b1.conclusions[i] == a1.conclusions[i]);
                        assert(b2.conclusions[i] == a2.conclusions[i]);
                    }
                }
                assert forall|i: int| 0 <= i < b1.proof_steps.len() implies same_step_up_to_ids(
                    #[trigger] b1.proof_steps[i],
                    b2.proof_steps[i],
                ) by {
                    if i < a1.proof_steps.len() {
                        assert(b1.proof_steps[i] == b1.proof_steps.drop_last()[i]);
                        assert(b2.proof_steps[i] == b2.proof_steps.drop_last()[i]);
                    }
                }
            }
        },
    }
}

proof fn lemma_runs_alike_upto(
    outcomes: Seq<Result<Vec<HyperonAtom>, OpenCogError>>,
    states1: Seq<InferenceRunModel>,
    states2: Seq<InferenceRunModel>,
    n: int,
)
    requires
        0 <= n <= outcomes.len(),
        states1.len() == outcomes.len() + 1,
        states2.len() == outcomes.len() + 1,
        same_run_up_to_ids(states1[0], states2[0]),
        forall|i: int|
            0 <= i < outcomes.len() ==> evaluation_step(
                #[trigger] states1[i],
                states1[i + 1],
                outcomes[i],
            ) && evaluation_step(states2[i], states2[i + 1], outcomes[i]),
    ensures
        same_run_up_to_ids(states1[n], states2[n]),
    decreases n,
{
    if n > 0 {
        lemma_runs_alike_upto(outcomes, states1, states2, n - 1);
        assert(evaluation_step(states1[n - 1], states1[n], outcomes[n - 1]));
        law_alike_runs_stay_alike(states1[n - 1], states2[n - 1], states1[n], states2[n], outcomes[n - 1]);
    }
}

/// A request that names the configured step and time limits runs just as one
/// that names no limits: driven by the same evaluation outcomes, the two runs
/// agree after every step (in success, conclusions and proof steps) in all
/// but fresh identifiers.
pub proof fn law_explicit_default_limits_run_alike(
    config: InferenceConfig,
    implicit: InferenceRequest,
    explicit: InferenceRequest,
    outcomes: Seq<Result<Vec<HyperonAtom>, OpenCogError>>,
    states1: Seq<InferenceRunModel>,
    states2: Seq<InferenceRunModel>,
)
    requires
        implicit.max_steps is None,
        implicit.timeout_ms is None,
        explicit.max_steps == Some(config.max_steps),
        explicit.timeout_ms == Some(config.timeout_ms),
        same_request_but_limits(implicit, explicit),
        states1.len() == outcomes.len() + 1,
        states2.len() == outcomes.len() + 1,
        started_run(config, implicit, states1[0]),
        started_run(config, explicit, states2[0]),
        forall|i: int|
            0 <= i < outcomes.len() ==> evaluation_step(
                #[trigger] states1[i],
                states1[i + 1],
                outcomes[i],
            ) && evaluation_step(states2[i], states2[i + 1], outcomes[i]),
    ensures
        forall|i: int| 0 <= i <= outcomes.len() ==> same_run_up_to_ids(#[trigger] states1[i], states2[i]),
{
    law_explicit_default_limits_start_alike(config, implicit, explicit, states1[0], states2[0]);
    assert forall|i: int| 0 <= i <= outcomes.len() implies same_run_up_to_ids(#[trigger] states1[i], states2[i]) by {
        lemma_runs_alike_upto(outcomes, states1, states2, i);
    }
}

/// A run's limits are the request's own wherever it sets them, whatever the
/// configuration says; the configuration only fills in a limit the request
/// leaves unset.
pub proof fn law_request_limits_win(
    config: InferenceConfig,
    request: InferenceRequest,
    v: InferenceRunModel,
)
    requires
        started_run(config, request, v),
    ensures
        request.max_steps matches Some(n) ==> v.max_steps == n,
        request.timeout_ms matches Some(t) ==> v.timeout_ms == t,
        request.max_steps is None ==> v.max_steps == config.max_steps,
        request.timeout_ms is None ==> v.timeout_ms == config.timeout_ms,
{
}

/// Two engines whose configurations differ start a request that sets both
/// limits with the same limits.
pub proof fn law_set_limits_ignore_configuration(
    config1: InferenceConfig,
    config2: InferenceConfig,
    request: InferenceRequest,
    v1: InferenceRunModel,
    v2: InferenceRunModel,
)
    requires
        request.max_steps is Some,
        request.timeout_ms is Some,
        started_run(config1, request, v1),
        started_run(config2, request, v2),
    ensures
        v1.max_steps == v2.max_steps,
        v1.timeout_ms == v2.timeout_ms,
{
}

/// A goal run with `n` steps allowed stays in progress through `n - 1`
/// empty evaluations and ends after the `n`-th: an empty result moves a run
/// in progress (which is below its limit) on one step, and ends it exactly
/// when the step reached is the limit.
pub proof fn law_empty_results_use_up_steps(
    old: InferenceRunModel,
    new: InferenceRunModel,
    results: Vec<HyperonAtom>,
)
    requires
        old.step < old.max_steps,
        results@.len() == 0,
        evaluation_step(old, new, Ok(results)),
    ensures
        new.step == old.step + 1,
        new.max_steps == old.max_steps,
        !new.finished <==> old.step + 1 < old.max_steps,
        !new.success,
{
}

/// An expression whose first child is a symbol becomes an expression atom,
/// without operands, whose operator is that symbol's name.
pub proof fn law_expression_head_names_operator(h: HyperonAtom, id: AtomId)
    requires
        h is Expression,
        h->children@.len() > 0,
        h->children@[0] is Symbol,
    ensures
        converted_atom(h, id).atom_type == (AtomTypeModel::Expression {
            operator: h->children@[0]->Symbol_name@,
            operands: Seq::empty(),
        }),
        converted_atom(h, id).id == id,
{
}

/// Only the first child of an expression decides what it becomes: two
/// expressions with the same first child convert alike, whatever their later
/// children.
pub proof fn law_expression_later_children_ignored(h1: HyperonAtom, h2: HyperonAtom, id: AtomId)
    requires
        h1 is Expression,
        h2 is Expression,
        h1->children@.len() > 0,
        h2->children@.len() > 0,
        h1->children@[0] == h2->children@[0],
    ensures
        converted_atom(h1, id) == converted_atom(h2, id),
{
}

/// What each kind of Hyperon atom becomes: symbols and variables keep their
/// kind and name; a grounded value becomes the symbol "grounded:" followed
/// by its type; an expression without children has operator "empty", and one
/// whose first child is not a symbol has operator "expr"; every converted
/// atom keeps the given identifier and has full truth (1.0, 1.0) and no
/// attention.
pub proof fn law_conversion_by_kind(h: HyperonAtom, id: AtomId)
    ensures
        converted_atom(h, id).id == id,
        converted_atom(h, id).truth_value == Some(
            TruthValue { strength: 0x3ff0_0000_0000_0000u64, confidence: 0x3ff0_0000_0000_0000u64 },
        ),
        converted_atom(h, id).attention_value == Some(AttentionValue { sti: 0, lti: 0, vlti: 0 }),
        h is Symbol ==> converted_atom(h, id).atom_type == (AtomTypeModel::Symbol {
            name: h->Symbol_name@,
        }),
        h is Variable ==> converted_atom(h, id).atom_type == (AtomTypeModel::Variable {
            name: h->Variable_name@,
        }),
        h is Grounded ==> converted_atom(h, id).atom_type == (AtomTypeModel::Symbol {
            name: "grounded:"@ + h->type_text@,
        }),
        h is Expression && h->children@.len() == 0 ==> converted_atom(h, id).atom_type == (
        AtomTypeModel::Expression { operator: "empty"@, operands: Seq::empty() }),
        h is Expression && h->children@.len() > 0 && !(h->children@[0] is Symbol)
            ==> converted_atom(h, id).atom_type == (AtomTypeModel::Expression {
            operator: "expr"@,
            operands: Seq::empty(),
        }),
{
}

/// What the driver of an inference run is to do next.
#[derive(Debug)]
pub enum InferenceAction {
    /// Evaluate the goal's expression and hand the outcome to
    /// [`InferenceRun::goal_evaluated`].
    EvaluateGoal { expression: String, step: usize },
    /// The run is over: collect it with [`InferenceRun::finish`].
    Finish,
}

/// Mathematical model of an [`InferenceRun`].
pub struct InferenceRunModel {
    /// The text of the goal's expression, if there is a goal
    pub goal: Option<Seq<char>>,
    /// The number of inference steps allowed
    pub max_steps: usize,
    /// The time allowed, in milliseconds
    pub timeout_ms: u64,
    /// The next step to take
    pub step: usize,
    /// The conclusions derived so far
    pub conclusions: Seq<AtomModel>,
    /// The proof steps taken so far
    pub proof_steps: Seq<ProofStepModel>,
    /// Whether the run has succeeded
    pub success: bool,
    /// Whether the run is over
    pub finished: bool,
}

/// The state of an inference run in progress.
pub struct InferenceRun {
    goal: Option<MettaExpression>,
    max_steps: usize,
    timeout_ms: u64,
    step: usize,
    conclusions: Vec<Atom>,
    proof_steps: Vec<ProofStep>,
    success: bool,
    finished: bool,
}

impl View for InferenceRun {
    type V = InferenceRunModel;

    closed spec fn view(&self) -> InferenceRunModel {
        InferenceRunModel {
            goal: match self.goal {
                Some(g) => Some(g.expression@),
                None => None,
            },
            max_steps: self.max_steps,
            timeout_ms: self.timeout_ms,
            step: self.step,
            conclusions: atoms_view(self.conclusions@),
            proof_steps: steps_view(self.proof_steps@),
            success: self.success,
            finished: self.finished,
        }
    }
}

/// The number of goal evaluations a run may still ask for.
pub open spec fn steps_left(v: InferenceRunModel) -> nat {
    if v.finished {
        0
    } else {
        (v.max_steps - v.step) as nat
    }
}

/// The text of an optional goal.
pub open spec fn goal_view(goal: Option<MettaExpression>) -> Option<Seq<char>> {
    match goal {
        Some(g) => Some(g.expression@),
        None => None,
    }
}

impl InferenceRun {
    /// A run in progress has a goal, steps left, and nothing concluded yet;
    /// a successful run is over.
    pub open spec fn wf(&self) -> bool {
        &&& self@.step <= self@.max_steps
        &&& self@.success ==> self@.finished
        &&& self@.goal is Some ==> {
            &&& self@.conclusions.len() <= 1
            &&& self@.success == (self@.conclusions.len() == 1)
            &&& self@.success ==> self@.proof_steps.len() > 0
                && self@.proof_steps.last().output == self@.conclusions[0].id
        }
        &&& self@.goal is None ==> self@.conclusions.len() == 0
        &&& !self@.finished ==> {
            &&& self@.goal is Some
            &&& self@.step < self@.max_steps
            &&& !self@.success
            &&& self@.conclusions.len() == 0
        }
    }

    /// The time allowed for the run, in milliseconds.
    pub fn timeout_ms(&self) -> (t: u64)
        ensures
            t == self@.timeout_ms,
    {
        self.timeout_ms
    }

    /// What the driver is to do next: evaluate the goal at the current step
    /// while the run is in progress, collect the run once it is over.
    pub fn next_action(&self) -> (a: InferenceAction)
        requires
            self.wf(),
        ensures
            match a {
                InferenceAction::Finish => self@.finished,
                InferenceAction::EvaluateGoal { expression, step } => {
                    &&& !self@.finished
                    &&& self@.goal == Some(expression@)
                    &&& step == self@.step
                },
            },
    {
        if self.finished {
            InferenceAction::Finish
        } else {
            match &self.goal {
                Some(g) => InferenceAction::EvaluateGoal {
                    expression: g.expression.clone(),
                    step: self.step,
                },
                None => InferenceAction::Finish,
            }
        }
    }

    /// Takes in what evaluating the goal at the current step gave. An
    /// evaluation error ends the run without success. A non-empty result
    /// yields a conclusion (its first atom, converted under a fresh
    /// identifier) and the step that derived it, and ends the run with
    /// success. An empty result moves on to the next step, and ends the run
    /// without success when no step is left.
    pub fn goal_evaluated(
        &mut self,
        engine: &InferenceEngine,
        outcome: Result<Vec<HyperonAtom>, OpenCogError>,
    )
        requires
            old(self).wf(),
            !old(self)@.finished,
        ensures
            final(self).wf(),
            final(self)@.goal == old(self)@.goal,
            final(self)@.max_steps == old(self)@.max_steps,
            final(self)@.timeout_ms == old(self)@.timeout_ms,
            steps_left(final(self)@) < steps_left(old(self)@),
            evaluation_step(old(self)@, final(self)@, outcome),
    {
        let results = match outcome {
            Ok(results) => results,
            Err(_) => {
                self.finished = true;
                return;
            },
        };
        let evaluated = match &self.goal {
            Some(goal) => engine.evaluate_goal(goal, self.step, &results),
            None => {
                self.finished = true;
                return;
            },
        };
        match evaluated {
            Ok(Some(found)) => {
                let ghost before_steps = self.proof_steps@;
                let GoalResult { atom, proof_steps } = found;
                let mut proof_steps = proof_steps;
                self.conclusions.push(atom);
                self.proof_steps.append(&mut proof_steps);
                self.success = true;
                self.finished = true;
                assert(atoms_view(self.conclusions@) =~= old(self)@.conclusions.push(
                    self.conclusions@.last()@,
                ));
                assert(steps_view(self.proof_steps@).drop_last() =~= steps_view(before_steps));
            },
            Ok(None) => {
                self.step = self.step + 1;
                if self.conclusions.len() >= 10 {
                    self.success = true;
                    self.finished = true;
                } else if self.step == self.max_steps {
                    self.finished = true;
                }
            },
            Err(_) => {
                self.finished = true;
            },
        }
    }

    /// Collects the run into an inference result. A run cut short by its
    /// timeout keeps what it derived so far but does not succeed.
    pub fn finish(self, timed_out: bool, execution_time_ms: u64) -> (r: InferenceResult)
        ensures
            atoms_view(r.conclusions@) == self@.conclusions,
            steps_view(r.proof_steps@) == self@.proof_steps,
            r.success == (self@.success && !timed_out),
            r.execution_time_ms == execution_time_ms,
    {
        InferenceResult {
            conclusions: self.conclusions,
            proof_steps: self.proof_steps,
            success: self.success && !timed_out,
            execution_time_ms,
        }
    }
}

/// Inference engine using Hyperon MeTTa.
pub struct InferenceEngine {
    /// Configuration
    config: InferenceConfig,
}

impl InferenceEngine {
    /// The configuration the engine was created with.
    pub closed spec fn configuration(&self) -> InferenceConfig {
        self.config
    }

    /// Create new inference engine.
    pub fn new(config: &InferenceConfig) -> (r: Result<InferenceEngine, OpenCogError>)
        ensures
            r matches Ok(e) && e.configuration() == *config,
    {
        Ok(InferenceEngine { config: *config })
    }


    /// Add a premise: records the proof step that adds premise `index`,
    /// under a fresh output identifier.
    fn add_premise_to_runner(&self, premise: &MettaExpression, index: usize) -> (r: Result<
        Option<ProofStep>,
        OpenCogError,
    >)
        ensures
            r matches Ok(Some(step)) && is_premise_step(step@, index as nat, premise.expression@),
    {
        Ok(
            Some(
                ProofStep {
                    rule: String::from_str("add-premise"),
                    inputs: Vec::new(),
                    output: AtomId::new(),
                    description: numbered_text("Added premise ", index, premise.expression.as_str()),
                },
            ),
        )
    }

    /// Evaluate a goal at `step`, given what the interpreter produced for the
    /// goal's expression: nothing when it produced nothing; otherwise the
    /// first result, converted under a fresh identifier, and the step that
    /// derived it.
    pub fn evaluate_goal(&self, goal: &MettaExpression, step: usize, results: &Vec<HyperonAtom>) -> (r:
        Result<Option<GoalResult>, OpenCogError>)
        ensures
            match r {
                Ok(None) => results@.len() == 0,
                Ok(Some(g)) => {
                    &&& results@.len() > 0
                    &&& is_random_uuid(g.atom.id.0)
                    &&& g.atom@ == converted_atom(results@[0], g.atom.id)
                    &&& g.proof_steps@.len() == 1
                    &&& is_goal_step(g.proof_steps@[0]@, step as nat, goal.expression@, g.atom.id)
                },
                Err(_) => false,
            },
    {
        if results.len() > 0 {
            let atom = match self.hyperon_to_atom(&results[0], AtomId::new()) {
                Ok(a) => a,
                Err(e) => {
                    return Err(e);
                },
            };
            let proof_step = ProofStep {
                rule: String::from_str("goal-evaluation"),
                inputs: Vec::new(),
                output: atom.id,
                description: numbered_text(
                    "Evaluated goal at step ",
                    step,
                    goal.expression.as_str(),
                ),
            };
            let mut proof_steps: Vec<ProofStep> = Vec::new();
            proof_steps.push(proof_step);
            Ok(Some(GoalResult { atom, proof_steps }))
        } else {
            Ok(None)
        }
    }

    /// Perform a single general inference step: no inference rule applies,
    /// so there is nothing more to infer.
    fn perform_inference_step(&self, step: usize) -> (r: Result<Option<InferenceStep>, OpenCogError>)
        ensures
            r matches Ok(None),
    {
        Ok(None)
    }


    /// Start an inference run: the step and time limits come from the
    /// request, or from the configuration where the request sets none; each
    /// premise is recorded as a proof step. Without a goal, general inference
    /// finds nothing more to infer at its first step, so the run is over at
    /// once, and succeeds when at least one step is allowed. With a goal, the
    /// run is in progress while a step is allowed.
    pub fn start_inference(&self, request: &InferenceRequest) -> (run: InferenceRun)
        ensures
            run.wf(),
            started_run(self.configuration(), *request, run@),
    {
        let max_steps: usize = match request.max_steps {
            Some(n) => n,
            None => self.config.max_steps,
        };
        let timeout_ms: u64 = match request.timeout_ms {
            Some(t) => t,
            None => self.config.timeout_ms,
        };
        let mut proof_steps: Vec<ProofStep> = Vec::new();
        let n: usize = request.premises.len();
        let mut i: usize = 0;
        while i < n
            invariant
                n == request.premises@.len(),
                i <= n,
                are_premise_steps(steps_view(proof_steps@), request.premises@.take(i as int)),
            decreases n - i,
        {
            let ghost before = proof_steps@;
            match self.add_premise_to_runner(&request.premises[i], i) {
                Ok(Some(step)) => {
                    proof_steps.push(step);
                },
                Ok(None) => {},
                Err(_) => {},
            }
            i = i + 1;
            assert(steps_view(proof_steps@) =~= steps_view(before).push(proof_steps@.last()@));
            assert forall|j: int| 0 <= j < i implies #[trigger] is_premise_step(
                steps_view(proof_steps@)[j],
                j as nat,
                request.premises@.take(i as int)[j].expression@,
            ) by {
                if j < i - 1 {
                    assert(steps_view(proof_steps@)[j] == steps_view(before)[j]);
                    assert(request.premises@.take(i as int)[j] == request.premises@.take(
                        i - 1,
                    )[j]);
                }
            }
        }
        assert(request.premises@.take(n as int) =~= request.premises@);
        let mut conclusions: Vec<Atom> = Vec::new();
        let mut success = false;
        let goal = match &request.goal {
            Some(g) => Some(g.clone()),
            None => None,
        };
        let finished = if goal.is_some() {
            max_steps == 0
        } else {
            let ghost premise_steps = proof_steps@;
            let mut step: usize = 0;
            while step < max_steps
                invariant_except_break
                    conclusions@.len() == 0,
                    proof_steps@ == premise_steps,
                    !success,
                    step == 0,
                ensures
                    conclusions@.len() == 0,
                    proof_steps@ == premise_steps,
                    success == (max_steps > 0),
                decreases max_steps - step,
            {
                match self.perform_inference_step(step) {
                    Ok(Some(inferred)) => {
                        let InferenceStep { derived_atom, proof_step } = inferred;
                        match derived_atom {
                            Some(atom) => conclusions.push(atom),
                            None => {},
                        }
                        proof_steps.push(proof_step);
                    },
                    Ok(None) => {
                        success = true;
                        break ;
                    },
                    Err(_) => {
                        break ;
                    },
                }
                if conclusions.len() >= 10 {
                    success = true;
                    break ;
                }
                step = step + 1;
            }
            true
        };
        let run = InferenceRun {
            goal,
            max_steps,
            timeout_ms,
            step: 0,
            conclusions,
            proof_steps,
            success,
            finished,
        };
        assert(atoms_view(run.conclusions@) =~= Seq::empty());
        run
    }

    /// Convert a Hyperon atom to an atom of ours under identifier `id`.
    pub fn hyperon_to_atom(&self, hyperon_atom: &HyperonAtom, id: AtomId) -> (r: Result<
        Atom,
        OpenCogError,
    >)
        ensures
            r matches Ok(a) && a@ == converted_atom(*hyperon_atom, id),
    {
        let atom_type = match hyperon_atom {
            HyperonAtom::Symbol { name } => AtomType::Symbol { name: name.clone() },
            HyperonAtom::Variable { name } => AtomType::Variable { name: name.clone() },
            HyperonAtom::Expression { children } => {
                if children.len() > 0 {
                    match &children[0] {
                        HyperonAtom::Symbol { name } => AtomType::Expression {
                            operator: name.clone(),
                            operands: Vec::new(),
                        },
                        _ => AtomType::Expression {
                            operator: String::from_str("expr"),
                            operands: Vec::new(),
                        },
                    }
                } else {
                    AtomType::Expression { operator: String::from_str("empty"), operands: Vec::new() }
                }
            },
            HyperonAtom::Grounded { type_text } => {
                let mut name = String::from_str("grounded:");
                name.append(type_text.as_str());
                AtomType::Symbol { name }
            },
        };
        Ok(
            Atom {
                id,
                atom_type,
                truth_value: Some(TruthValue::default()),
                attention_value: Some(AttentionValue::default()),
            },
        )
    }
}

} // verus!
