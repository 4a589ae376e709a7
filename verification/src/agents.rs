//! Lightweight agents: named specifications (model, instructions, settings,
//! tools), a registry of them, the prompt that runs one on a task, and the
//! record of a chain of agents that pass their outputs along.

use vstd::prelude::*;

use crate::chat::Tool;
use crate::client::ApiClient;
use crate::error::{ClientError, Result};
use crate::prompt::{PromptBuilder, PromptModel};
use crate::text::{opt_view, str_eq};

verus! {

/// An agent: its name, and what it runs with.
#[derive(Debug, PartialEq)]
pub struct AgentSpec {
    pub name: String,
    pub model: Option<String>,
    pub instructions: Option<String>,
    /// The sampling temperature, as the bits of an `f32` (`f32::to_bits`).
    pub temperature: Option<u32>,
    pub max_tokens: Option<u32>,
    pub tools: Vec<Tool>,
}

/// Whether `a` and `b` describe the same agent.
pub open spec fn same_agent(a: AgentSpec, b: AgentSpec) -> bool {
    &&& a.name == b.name
    &&& a.model == b.model
    &&& a.instructions == b.instructions
    &&& a.temperature == b.temperature
    &&& a.max_tokens == b.max_tokens
    &&& a.tools@ == b.tools@
}

impl Clone for AgentSpec {
    /// A copy of the same agent.
    fn clone(&self) -> (r: AgentSpec)
        ensures
            same_agent(r, *self),
    {
        let tools = self.tools.clone();
        assert(tools@ =~= self.tools@);
        AgentSpec {
            name: self.name.clone(),
            model: match &self.model {
                Some(m) => Some(m.clone()),
                None => None,
            },
            instructions: match &self.instructions {
                Some(i) => Some(i.clone()),
                None => None,
            },
            temperature: self.temperature,
            max_tokens: self.max_tokens,
            tools,
        }
    }
}

impl AgentSpec {
    /// An agent named `name`, with nothing else set.
    pub fn new(name: &str) -> (r: AgentSpec)
        ensures
            r.name@ == name@,
            r.model.is_none(),
            r.instructions.is_none(),
            r.temperature.is_none(),
            r.max_tokens.is_none(),
            r.tools@ == Seq::<Tool>::empty(),
    {
        let r = AgentSpec {
            name: name.to_owned(),
            model: None,
            instructions: None,
            temperature: None,
            max_tokens: None,
            tools: Vec::new(),
        };
        assert(r.tools@ =~= seq![]);
        r
    }

    /// Sets the model.
    pub fn model(self, model: &str) -> (r: AgentSpec)
        ensures
            opt_view(r.model) == Some(model@),
            r == (AgentSpec { model: r.model, ..self }),
    {
        AgentSpec { model: Some(model.to_owned()), ..self }
    }

    /// Sets the instructions.
    pub fn instructions(self, instructions: &str) -> (r: AgentSpec)
        ensures
            opt_view(r.instructions) == Some(instructions@),
            r == (AgentSpec { instructions: r.instructions, ..self }),
    {
        AgentSpec { instructions: Some(instructions.to_owned()), ..self }
    }

    /// Sets the sampling temperature, given as the bits of an `f32`.
    pub fn temperature(self, temperature: u32) -> (r: AgentSpec)
        ensures
            r == (AgentSpec { temperature: Some(temperature), ..self }),
    {
        AgentSpec { temperature: Some(temperature), ..self }
    }

    /// Sets the largest number of tokens to generate.
    pub fn max_tokens(self, max_tokens: u32) -> (r: AgentSpec)
        ensures
            r == (AgentSpec { max_tokens: Some(max_tokens), ..self }),
    {
        AgentSpec { max_tokens: Some(max_tokens), ..self }
    }

    /// Adds a tool.
    pub fn tool(self, tool: Tool) -> (r: AgentSpec)
        ensures
            r.tools@ == self.tools@.push(tool),
            r == (AgentSpec { tools: r.tools, ..self }),
    {
        let mut tools = self.tools;
        tools.push(tool);
        AgentSpec { tools, ..self }
    }
}

/// What one agent did with one task.
#[derive(Debug, Clone, PartialEq, Eq)]
pub struct AgentRun {
    pub agent: String,
    pub task: String,
    pub output: String,
}

/// What a chain of agents did: the first task, each step, and the output of
/// the last step (the first task when there was no step).
#[derive(Debug, Clone, PartialEq, Eq)]
pub struct AgentChainRun {
    pub initial_task: String,
    pub steps: Vec<AgentRun>,
    pub output: String,
}

/// Whether a chain is consistent: its output is that of its last step, or its
/// first task when it has no step.
pub open spec fn chain_consistent(c: AgentChainRun) -> bool {
    if c.steps@.len() == 0 {
        c.output@ == c.initial_task@
    } else {
        c.output@ == c.steps@.last().output@
    }
}

impl AgentChainRun {
    /// A chain that starts from `task`, with no step yet.
    pub fn begin(task: &str) -> (r: AgentChainRun)
        ensures
            r.initial_task@ == task@,
            r.steps@ == Seq::<AgentRun>::empty(),
            r.output@ == task@,
    {
        let r = AgentChainRun {
            initial_task: task.to_owned(),
            steps: Vec::new(),
            output: task.to_owned(),
        };
        assert(r.steps@ =~= seq![]);
        r
    }

    /// The task for the next agent: the output so far.
    pub fn next_task(&self) -> (r: &str)
        ensures
            r@ == self.output@,
    {
        self.output.as_str()
    }

    /// Records a step: its output becomes the output of the chain.
    pub fn record(self, run: AgentRun) -> (r: AgentChainRun)
        ensures
            r.initial_task == self.initial_task,
            r.steps@ == self.steps@.push(run),
            r.output@ == run.output@,
    {
        let output = run.output.clone();
        let mut steps = self.steps;
        steps.push(run);
        AgentChainRun { initial_task: self.initial_task, steps, output }
    }

    /// Takes in what running the next agent gave: a run is recorded, while
    /// a failure ends the chain with its error and records nothing.
    pub fn record_result(self, run: Result<AgentRun>) -> (r: Result<AgentChainRun>)
        ensures
            match run {
                Ok(a) => r matches Ok(c) && recorded(self, a, c),
                Err(e) => r == Err::<AgentChainRun, ClientError>(e),
            },
    {
        match run {
            Ok(a) => Ok(self.record(a)),
            Err(e) => Err(e),
        }
    }
}

/// Every chain made by `begin` and `record` is consistent: a new chain, and
/// a consistent chain with one more step.
pub proof fn lemma_chain_stays_consistent(before: AgentChainRun, run: AgentRun, after: AgentChainRun)
    requires
        chain_consistent(before),
        after.initial_task == before.initial_task,
        after.steps@ == before.steps@.push(run),
        after.output@ == run.output@,
    ensures
        chain_consistent(after),
        after.steps@.len() == before.steps@.len() + 1,
{
}

/// Whether `c` is the chain that `begin` makes from `task`.
pub open spec fn began(c: AgentChainRun, task: Seq<char>) -> bool {
    &&& c.initial_task@ == task
    &&& c.steps@ == Seq::<AgentRun>::empty()
    &&& c.output@ == task
}

/// Whether `after` is what `record` makes of `before` and `run`.
pub open spec fn recorded(before: AgentChainRun, run: AgentRun, after: AgentChainRun) -> bool {
    &&& after.initial_task == before.initial_task
    &&& after.steps@ == before.steps@.push(run)
    &&& after.output@ == run.output@
}

/// Whether `chains` and `runs` are a run of a sequence of `agents` on
/// `task`: the chain begins from the task, and each agent in turn runs on
/// the chain's next task and is recorded.
pub open spec fn is_sequence_run(
    task: Seq<char>,
    agents: Seq<Seq<char>>,
    runs: Seq<AgentRun>,
    chains: Seq<AgentChainRun>,
) -> bool {
    &&& runs.len() == agents.len()
    &&& chains.len() == runs.len() + 1
    &&& began(chains[0], task)
    &&& forall|i: int|
        0 <= i < runs.len() ==> {
            &&& recorded(chains[i], #[trigger] runs[i], chains[i + 1])
            &&& runs[i].task@ == chains[i].output@
            &&& runs[i].agent@ == agents[i]
        }
}

proof fn lemma_sequence_prefix(
    task: Seq<char>,
    agents: Seq<Seq<char>>,
    runs: Seq<AgentRun>,
    chains: Seq<AgentChainRun>,
    k: int,
)
    requires
        is_sequence_run(task, agents, runs, chains),
        0 <= k <= runs.len(),
    ensures
        chains[k].initial_task@ == task,
        chains[k].steps@ == runs.take(k),
        chains[k].output@ == (if k == 0 {
            task
        } else {
            runs[k - 1].output@
        }),
    decreases k,
{
    if k == 0 {
        assert(runs.take(0) =~= Seq::<AgentRun>::empty());
    } else {
        lemma_sequence_prefix(task, agents, runs, chains, k - 1);
        assert(recorded(chains[k - 1], runs[k - 1], chains[k]));
        assert(runs.take(k) =~= runs.take(k - 1).push(runs[k - 1]));
    }
}

/// Running agents in sequence: the final chain starts from the task, its
/// steps are the runs in the agents' order, the first agent works on the
/// task and each later one on the output of the one before, and the chain's
/// output is that of the last run (the task itself when there is none).
pub proof fn lemma_sequence_run(
    task: Seq<char>,
    agents: Seq<Seq<char>>,
    runs: Seq<AgentRun>,
    chains: Seq<AgentChainRun>,
)
    requires
        is_sequence_run(task, agents, runs, chains),
    ensures
        chains.last().initial_task@ == task,
        chains.last().steps@ == runs,
        chains.last().output@ == (if runs.len() == 0 {
            task
        } else {
            runs.last().output@
        }),
        forall|i: int|
            0 <= i < runs.len() ==> (#[trigger] runs[i]).agent@ == agents[i] && runs[i].task@ == (if i
                == 0 {
                task
            } else {
                runs[i - 1].output@
            }),
{
    let n = runs.len() as int;
    lemma_sequence_prefix(task, agents, runs, chains, n);
    assert(runs.take(n) =~= runs);
    assert forall|i: int| 0 <= i < runs.len() implies (#[trigger] runs[i]).agent@ == agents[i]
        && runs[i].task@ == (if i == 0 {
        task
    } else {
        runs[i - 1].output@
    }) by {
        lemma_sequence_prefix(task, agents, runs, chains, i);
    }
}

/// The runs among `results`, in order, for results that are all runs.
pub open spec fn runs_of(results: Seq<Result<AgentRun>>) -> Seq<AgentRun> {
    results.map_values(|r: Result<AgentRun>| r->Ok_0)
}

/// Whether `outcome` is what a sequence of `agents` on `task` comes to when
/// the agents, run in turn, give `results`: the chain begins from the task,
/// each result is taken in by `record_result` on the chain so far (each run
/// working on the chain's output, by the agent of its turn), and the
/// sequence goes on to the next agent only after a success.
pub open spec fn is_sequence_outcome(
    task: Seq<char>,
    agents: Seq<Seq<char>>,
    results: Seq<Result<AgentRun>>,
    chains: Seq<AgentChainRun>,
    outcome: Result<AgentChainRun>,
) -> bool {
    &&& results.len() <= agents.len()
    &&& chains.len() == results.len() + 1
    &&& began(chains[0], task)
    &&& forall|i: int|
        0 <= i < results.len() ==> match #[trigger] results[i] {
            Ok(run) => {
                &&& recorded(chains[i], run, chains[i + 1])
                &&& run.task@ == chains[i].output@
                &&& run.agent@ == agents[i]
            },
            Err(_) => i == results.len() - 1,
        }
    &&& (results.len() < agents.len() ==> results.len() > 0 && results.last() is Err)
    &&& outcome == (if results.len() > 0 && results.last() is Err {
        Err(results.last()->Err_0)
    } else {
        Ok(chains.last())
    })
}

/// A sequence of agents either runs every agent or stops at the first
/// failure. It succeeds exactly when every run succeeds; then every agent
/// has run, and the chain holds the runs in the agents' order, each on the
/// output of the one before. Otherwise its error is that of the first failed
/// run, and no agent after that one was run.
pub proof fn lemma_sequence_outcome(
    task: Seq<char>,
    agents: Seq<Seq<char>>,
    results: Seq<Result<AgentRun>>,
    chains: Seq<AgentChainRun>,
    outcome: Result<AgentChainRun>,
)
    requires
        is_sequence_outcome(task, agents, results, chains, outcome),
    ensures
        outcome is Ok <==> forall|i: int| 0 <= i < results.len() ==> #[trigger] results[i] is Ok,
        outcome matches Ok(c) ==> {
            &&& results.len() == agents.len()
            &&& is_sequence_run(task, agents, runs_of(results), chains)
            &&& c.initial_task@ == task
            &&& c.steps@ == runs_of(results)
            &&& c.output@ == (if results.len() == 0 {
                task
            } else {
                runs_of(results).last().output@
            })
        },
        outcome matches Err(e) ==> {
            &&& results.len() > 0
            &&& results.last() == Err::<AgentRun, ClientError>(e)
            &&& forall|i: int| 0 <= i < results.len() - 1 ==> #[trigger] results[i] is Ok
        },
{
    if results.len() > 0 && results.last() is Err {
        let k = results.len() - 1;
        assert(!(results[k] is Ok));
        assert forall|i: int| 0 <= i < results.len() - 1 implies #[trigger] results[i] is Ok by {
            if results[i] is Err {
                assert(i == results.len() - 1);
            }
        }
    } else {
        assert forall|i: int| 0 <= i < results.len() implies #[trigger] results[i] is Ok by {
            if results[i] is Err {
                assert(i == results.len() - 1);
            }
        }
        let runs = runs_of(results);
        assert forall|i: int| 0 <= i < runs.len() implies {
            &&& recorded(chains[i], #[trigger] runs[i], chains[i + 1])
            &&& runs[i].task@ == chains[i].output@
            &&& runs[i].agent@ == agents[i]
        } by {
            assert(results[i] is Ok);
        }
        assert(is_sequence_run(task, agents, runs, chains));
        lemma_sequence_run(task, agents, runs, chains);
    }
}

/// The registry of agents, by name.
pub open spec fn specs_map(s: Seq<AgentSpec>) -> Map<Seq<char>, AgentSpec> {
    Map::new(
        |k: Seq<char>| exists|i: int| 0 <= i < s.len() && #[trigger] s[i].name@ == k,
        |k: Seq<char>| s[choose|i: int| 0 <= i < s.len() && #[trigger] s[i].name@ == k],
    )
}

/// Whether no two agents share a name.
pub open spec fn distinct_names(s: Seq<AgentSpec>) -> bool {
    forall|i: int, j: int|
        0 <= i < s.len() && 0 <= j < s.len() && i != j ==> #[trigger] s[i].name@ != #[trigger] s[j].name@
}

/// What an agent registry holds, as plain values.
pub struct AgentsModel {
    pub client: ApiClient,
    pub default_model: Option<Seq<char>>,
    pub specs: Map<Seq<char>, AgentSpec>,
}

/// A registry of named agents that run through one client.
pub struct Agents<'a> {
    client: &'a ApiClient,
    default_model: Option<String>,
    specs: Vec<AgentSpec>,
}

impl<'a> View for Agents<'a> {
    type V = AgentsModel;

    closed spec fn view(&self) -> AgentsModel {
        AgentsModel {
            client: *self.client,
            default_model: opt_view(self.default_model),
            specs: specs_map(self.specs@),
        }
    }
}

proof fn lemma_specs_map_at(s: Seq<AgentSpec>, i: int)
    requires
        distinct_names(s),
        0 <= i < s.len(),
    ensures
        specs_map(s).dom().contains(s[i].name@),
        specs_map(s)[s[i].name@] == s[i],
{
    let k = s[i].name@;
    assert(exists|j: int| 0 <= j < s.len() && #[trigger] s[j].name@ == k);
    let j = choose|j: int| 0 <= j < s.len() && #[trigger] s[j].name@ == k;
    assert(j == i);
}

/// The model that runs an agent: its own, else the registry's default.
pub open spec fn agent_model(spec: AgentSpec, default_model: Option<Seq<char>>) -> Option<Seq<char>> {
    match spec.model {
        Some(m) => Some(m@),
        None => default_model,
    }
}

/// An agent that names a model runs with it, whatever the registry's
/// default; only an agent without a model takes the default, and without
/// either there is no model.
pub proof fn lemma_agent_model_prefers_own(spec: AgentSpec, default_model: Option<Seq<char>>)
    ensures
        spec.model matches Some(m) ==> agent_model(spec, default_model) == Some(m@),
        spec.model is None ==> agent_model(spec, default_model) == default_model,
        agent_model(spec, default_model) is None <==> spec.model is None && default_model is None,
{
}

impl<'a> Agents<'a> {
    #[verifier::type_invariant]
    spec fn inv(self) -> bool {
        distinct_names(self.specs@)
    }

    /// An empty registry for `client`, whose default model is the client's.
    pub fn new(client: &'a ApiClient) -> (r: Agents<'a>)
        ensures
            r@.client == *client,
            r@.default_model == client.spec_config()@.default_model,
            r@.specs == Map::<Seq<char>, AgentSpec>::empty(),
    {
        let default_model = match client.default_model() {
            Some(m) => Some(m.to_owned()),
            None => None,
        };
        let r = Agents { client, default_model, specs: Vec::new() };
        assert(r@.specs =~= Map::<Seq<char>, AgentSpec>::empty());
        r
    }

    /// The client that runs the agents.
    pub fn client(&self) -> (r: &'a ApiClient)
        ensures
            *r == self@.client,
    {
        self.client
    }

    /// Sets the model of agents that name none.
    pub fn default_model(self, model: &str) -> (r: Agents<'a>)
        ensures
            r@ == (AgentsModel { default_model: Some(model@), ..self@ }),
    {
        proof {
            use_type_invariant(&self);
        }
        Agents { default_model: Some(model.to_owned()), ..self }
    }

    /// Registers `spec` under its name, replacing the agent of that name.
    pub fn add(self, spec: AgentSpec) -> (r: Agents<'a>)
        ensures
            r@ == (AgentsModel { specs: self@.specs.insert(spec.name@, spec), ..self@ }),
    {
        proof {
            use_type_invariant(&self);
        }
        let ghost old_specs = self.specs@;
        let mut found: Option<usize> = None;
        let mut i: usize = 0;
        while i < self.specs.len()
            invariant
                self.specs@ == old_specs,
                i <= old_specs.len(),
                found is None ==> forall|k: int| 0 <= k < i ==> old_specs[k].name@ != spec.name@,
                found matches Some(f) ==> f < old_specs.len() && old_specs[f as int].name@ == spec.name@,
            decreases old_specs.len() - i,
        {
            if found.is_none() && self.specs[i].name == spec.name {
                found = Some(i);
            }
            i = i + 1;
        }
        let mut specs = self.specs;
        if let Some(fi) = found {
            let ghost idx = fi as int;
            let ghost replaced = spec;
            specs.set(fi, spec);
            proof {
                assert(specs@[idx] == replaced);
                assert(distinct_names(specs@));
                assert(specs_map(specs@) =~= specs_map(old_specs).insert(replaced.name@, replaced)) by {
                    assert forall|k: Seq<char>| #[trigger]
                        specs_map(specs@).dom().contains(k) <==> specs_map(old_specs).insert(
                            replaced.name@,
                            replaced,
                        ).dom().contains(k) by {
                        if specs_map(specs@).dom().contains(k) {
                            let j = choose|j: int| 0 <= j < specs@.len() && #[trigger] specs@[j].name@ == k;
                            if j != idx {
                                assert(old_specs[j].name@ == k);
                            }
                        }
                        if specs_map(old_specs).dom().contains(k) && k != replaced.name@ {
                            let j = choose|j: int| 0 <= j < old_specs.len() && #[trigger] old_specs[j].name@ == k;
                            assert(specs@[j].name@ == k);
                        }
                        if k == replaced.name@ {
                            assert(specs@[idx].name@ == k);
                        }
                    }
                    assert forall|k: Seq<char>| #[trigger]
                        specs_map(specs@).dom().contains(k) implies specs_map(specs@)[k]
                        == specs_map(old_specs).insert(replaced.name@, replaced)[k] by {
                        let j = choose|j: int| 0 <= j < specs@.len() && #[trigger] specs@[j].name@ == k;
                        lemma_specs_map_at(specs@, j);
                        if j != idx {
                            lemma_specs_map_at(old_specs, j);
                        }
                    }
                }
            }
            return Agents { specs, ..self };
        }
        let ghost added = spec;
        specs.push(spec);
        proof {
            assert(distinct_names(specs@));
            let n = old_specs.len() as int;
            assert(specs_map(specs@) =~= specs_map(old_specs).insert(added.name@, added)) by {
                assert forall|k: Seq<char>| #[trigger]
                    specs_map(specs@).dom().contains(k) <==> specs_map(old_specs).insert(
                        added.name@,
                        added,
                    ).dom().contains(k) by {
                    if specs_map(specs@).dom().contains(k) {
                        let j = choose|j: int| 0 <= j < specs@.len() && #[trigger] specs@[j].name@ == k;
                        if j != n {
                            assert(old_specs[j].name@ == k);
                        }
                    }
                    if specs_map(old_specs).dom().contains(k) {
                        let j = choose|j: int| 0 <= j < old_specs.len() && #[trigger] old_specs[j].name@ == k;
                        assert(specs@[j].name@ == k);
                    }
                    if k == added.name@ {
                        assert(specs@[n].name@ == k);
                    }
                }
                assert forall|k: Seq<char>| #[trigger]
                    specs_map(specs@).dom().contains(k) implies specs_map(specs@)[k]
                    == specs_map(old_specs).insert(added.name@, added)[k] by {
                    let j = choose|j: int| 0 <= j < specs@.len() && #[trigger] specs@[j].name@ == k;
                    lemma_specs_map_at(specs@, j);
                    if j != n {
                        lemma_specs_map_at(old_specs, j);
                    }
                }
            }
        }
        Agents { specs, ..self }
    }

    /// Registers an agent named `name` with `instructions`.
    pub fn simple(self, name: &str, instructions: &str) -> (r: Agents<'a>)
        ensures
            r@.client == self@.client,
            r@.default_model == self@.default_model,
            r@.specs.dom() == self@.specs.dom().insert(name@),
            forall|k: Seq<char>| k != name@ && self@.specs.dom().contains(k) ==> r@.specs[k] == self@.specs[k],
            r@.specs[name@].name@ == name@,
            opt_view(r@.specs[name@].instructions) == Some(instructions@),
            r@.specs[name@].model.is_none(),
            r@.specs[name@].temperature.is_none(),
            r@.specs[name@].max_tokens.is_none(),
            r@.specs[name@].tools@ == Seq::<Tool>::empty(),
    {
        let spec = AgentSpec::new(name).instructions(instructions);
        self.add(spec)
    }

    /// The agent named `name`, if one is registered.
    pub fn get(&self, name: &str) -> (r: Option<&AgentSpec>)
        ensures
            match r {
                Some(a) => self@.specs.dom().contains(name@) && self@.specs[name@] == *a,
                None => !self@.specs.dom().contains(name@),
            },
    {
        proof {
            use_type_invariant(self);
        }
        let mut i: usize = 0;
        while i < self.specs.len()
            invariant
                distinct_names(self.specs@),
                i <= self.specs@.len(),
                forall|k: int| 0 <= k < i ==> self.specs@[k].name@ != name@,
            decreases self.specs@.len() - i,
        {
            if str_eq(self.specs[i].name.as_str(), name) {
                proof {
                    lemma_specs_map_at(self.specs@, i as int);
                }
                return Some(&self.specs[i]);
            }
            i = i + 1;
        }
        None
    }

    /// The agent that runs under `name`: the registered one, else a bare
    /// agent of that name.
    pub fn spec_for(&self, name: &str) -> (r: AgentSpec)
        ensures
            self@.specs.dom().contains(name@) ==> same_agent(r, self@.specs[name@]),
            !self@.specs.dom().contains(name@) ==> r.name@ == name@ && r.model.is_none()
                && r.instructions.is_none() && r.temperature.is_none() && r.max_tokens.is_none()
                && r.tools@ == Seq::<Tool>::empty(),
    {
        match self.get(name) {
            Some(spec) => spec.clone(),
            None => AgentSpec::new(name),
        }
    }

    /// The prompt that runs `spec` on `task`: its model (or the registry's
    /// default), its instructions as system message, its settings and its
    /// tools in order; refused when there is no model at all.
    pub fn prompt_for(&self, spec: AgentSpec, task: &str) -> (r: Result<PromptBuilder<'a>>)
        ensures
            agent_model(spec, self@.default_model) is None <==> r is Err,
            r is Err ==> r matches Err(ClientError::InvalidConfig(_)),
            r matches Ok(p) ==> p@ == (PromptModel {
                client: self@.client,
                model: agent_model(spec, self@.default_model),
                system: opt_view(spec.instructions),
                prompt: task@,
                temperature: spec.temperature,
                max_tokens: spec.max_tokens,
                tools: spec.tools@,
                json_object: false,
                json_schema: None,
            }),
    {
        let ghost start = spec;
        let model: String = match spec.model {
            Some(m) => m,
            None => match &self.default_model {
                Some(m) => m.clone(),
                None => {
                    return Err(ClientError::InvalidConfig("agent model is required".to_owned()));
                },
            },
        };
        let mut prompt = self.client.prompt(task).model(model.as_str());
        if let Some(instructions) = spec.instructions {
            prompt = prompt.system(instructions.as_str());
        }
        if let Some(temperature) = spec.temperature {
            prompt = prompt.temperature(temperature);
        }
        if let Some(max_tokens) = spec.max_tokens {
            prompt = prompt.max_tokens(max_tokens);
        }
        let mut remaining = spec.tools;
        let ghost all_tools = remaining@;
        let total = remaining.len();
        let mut added: usize = 0;
        assert(all_tools.skip(0) =~= all_tools);
        assert(all_tools.take(0) =~= seq![]);
        while remaining.len() > 0
            invariant
                added + remaining@.len() == all_tools.len(),
                all_tools.len() == total,
                remaining@ == all_tools.skip(added as int),
                prompt@ == (PromptModel {
                    client: self@.client,
                    model: agent_model(start, self@.default_model),
                    system: opt_view(start.instructions),
                    prompt: task@,
                    temperature: start.temperature,
                    max_tokens: start.max_tokens,
                    tools: all_tools.take(added as int),
                    json_object: false,
                    json_schema: None,
                }),
            decreases remaining@.len(),
        {
            let tool = remaining.remove(0);
            assert(tool == all_tools[added as int]);
            prompt = prompt.tool(tool);
            assert(all_tools.take(added + 1) =~= all_tools.take(added as int).push(tool));
            assert(remaining@ =~= all_tools.skip(added + 1));
            added = added + 1;
        }
        assert(all_tools.take(all_tools.len() as int) =~= all_tools);
        Ok(prompt)
    }
}

/// Registering an agent and then asking for its name gives that agent back,
/// and leaves every other name as it was.
pub proof fn lemma_get_after_add(specs: Map<Seq<char>, AgentSpec>, spec: AgentSpec, other: Seq<char>)
    ensures
        specs.insert(spec.name@, spec).dom().contains(spec.name@),
        specs.insert(spec.name@, spec)[spec.name@] == spec,
        other != spec.name@ ==> (specs.insert(spec.name@, spec).dom().contains(other)
            == specs.dom().contains(other)),
        other != spec.name@ && specs.dom().contains(other) ==> specs.insert(spec.name@, spec)[other]
            == specs[other],
{
}

} // verus!
