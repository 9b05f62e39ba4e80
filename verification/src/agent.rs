//! Agent trait, capabilities, and registry for the Synapse system.
//!
//! The registry decides which registered agents are candidates for a task,
//! in preference order; asking a candidate whether it is currently available
//! is an asynchronous call that the runtime around the library makes, in that
//! order, stopping at the first available one.

use vstd::prelude::*;

use crate::task::{task_type_label, TaskType};

verus! {

/// Errors that can occur when working with agents.
#[derive(Debug)]
pub enum AgentError {
    /// No agent was available to handle the task.
    NoAvailableAgent { task_type: TaskType },
    /// An agent-specific execution error occurred.
    ExecutionFailed { agent_id: String, reason: String },
}

/// The human-readable message of an [`AgentError`].
pub open spec fn agent_error_message(e: AgentError) -> Seq<char> {
    match e {
        AgentError::NoAvailableAgent { task_type } => "no available agent for task type "@
            + task_type_label(task_type),
        AgentError::ExecutionFailed { agent_id, reason } => "agent "@ + agent_id@
            + " execution failed: "@ + reason@,
    }
}

impl AgentError {
    /// Returns the human-readable message of this error.
    pub fn message(&self) -> (text: String)
        ensures
            text@ == agent_error_message(*self),
    {
        match self {
            AgentError::NoAvailableAgent { task_type } => {
                let mut text = String::from_str("no available agent for task type ");
                text.append(task_type.label());
                text
            },
            AgentError::ExecutionFailed { agent_id, reason } => {
                let mut text = String::from_str("agent ");
                text.append(agent_id.as_str());
                text.append(" execution failed: ");
                text.append(reason.as_str());
                text
            },
        }
    }
}

/// Describes what kinds of tasks an agent can handle.
#[derive(Debug, Clone)]
pub struct AgentCapabilities {
    /// Human-readable identifier of the agent.
    pub agent_id: String,
    /// Task types this agent can handle.
    pub supported_task_types: Vec<TaskType>,
}

/// Core trait that every Synapse coding agent implements: how it identifies
/// itself and what it can do. Availability checks and task execution are
/// asynchronous and belong to the runtime's extension of this trait.
///
/// `spec_id` and `spec_capabilities` name what an agent reports; each
/// implementation defines them, and its `id` and `capabilities` are proved to
/// return exactly those values.
pub trait CodingAgent: Send + Sync {
    /// The identifier this agent reports.
    spec fn spec_id(&self) -> Seq<char>;

    /// The capabilities this agent reports.
    spec fn spec_capabilities(&self) -> AgentCapabilities;

    /// Returns the unique identifier for this agent.
    fn id(&self) -> (id: &str)
        ensures
            id@ == self.spec_id(),
    ;

    /// Returns this agent's capabilities.
    fn capabilities(&self) -> (capabilities: &AgentCapabilities)
        ensures
            *capabilities == self.spec_capabilities(),
    ;
}

/// What an agent reports of itself: its identifier and the task types it
/// supports.
pub struct AgentProfile {
    pub id: Seq<char>,
    pub supported_task_types: Seq<TaskType>,
}

/// The profile an agent reports through `id` and `capabilities`.
pub open spec fn reported_profile<A: CodingAgent>(agent: A) -> AgentProfile {
    AgentProfile {
        id: agent.spec_id(),
        supported_task_types: agent.spec_capabilities().supported_task_types@,
    }
}

/// Whether an agent with this profile answers to `id` and supports tasks of
/// type `task_type`.
pub open spec fn serves(profile: AgentProfile, id: Seq<char>, task_type: TaskType) -> bool {
    profile.id == id && profile.supported_task_types.contains(task_type)
}

/// The positions, below `upto` and in registration order, of the agents that
/// answer to `id` and support `task_type`.
pub open spec fn serving_agents(
    profiles: Seq<AgentProfile>,
    id: Seq<char>,
    task_type: TaskType,
    upto: int,
) -> Seq<usize>
    decreases upto,
{
    if upto <= 0 {
        Seq::empty()
    } else {
        let earlier = serving_agents(profiles, id, task_type, upto - 1);
        if serves(profiles[upto - 1], id, task_type) {
            earlier.push((upto - 1) as usize)
        } else {
            earlier
        }
    }
}

/// The order in which agents are considered for a task: for each preferred
/// id in turn, the agents that answer to it and support the task's type, in
/// registration order. Agents whose id is not preferred are never
/// considered.
pub open spec fn candidate_order(
    profiles: Seq<AgentProfile>,
    prefer: Seq<Seq<char>>,
    task_type: TaskType,
) -> Seq<usize>
    decreases prefer.len(),
{
    if prefer.len() == 0 {
        Seq::empty()
    } else {
        candidate_order(profiles, prefer.drop_last(), task_type) + serving_agents(
            profiles,
            prefer.last(),
            task_type,
            profiles.len() as int,
        )
    }
}

/// The preferred ids as text.
pub open spec fn preferred_ids(prefer: Seq<&str>) -> Seq<Seq<char>> {
    prefer.map_values(|id: &str| id@)
}

/// Returns `true` if `task_type` is one of `types`.
fn supports_type(types: &Vec<TaskType>, task_type: &TaskType) -> (supported: bool)
    ensures
        supported == types@.contains(*task_type),
{
    let mut i: usize = 0;
    while i < types.len()
        invariant
            i <= types.len(),
            forall|j: int| 0 <= j < i ==> types@[j] != *task_type,
        decreases types.len() - i,
    {
        if types[i] == *task_type {
            return true;
        }
        i += 1;
    }
    false
}

/// Registry of all known agents; selects the best available agent for a task
/// using a preference-ordered fallback list.
pub struct AgentRegistry<A> {
    agents: Vec<A>,
}

impl<A: CodingAgent> AgentRegistry<A> {
    /// The registered agents, in registration order.
    pub closed spec fn registered(self) -> Seq<A> {
        self.agents@
    }

    /// What each registered agent reports of itself, in registration order.
    pub open spec fn profiles(self) -> Seq<AgentProfile> {
        self.registered().map_values(|a: A| reported_profile(a))
    }

    /// Creates an empty registry.
    pub fn new() -> (registry: Self)
        ensures
            registry.registered() == Seq::<A>::empty(),
            registry.profiles() == Seq::<AgentProfile>::empty(),
    {
        AgentRegistry { agents: Vec::new() }
    }

    /// Registers an agent with the registry; its profile is the identifier
    /// and task types it reports.
    pub fn register(&mut self, agent: A)
        ensures
            final(self).registered() == old(self).registered().push(agent),
            final(self).profiles() == old(self).profiles().push(reported_profile(agent)),
    {
        let ghost before = self.agents@;
        self.agents.push(agent);
        proof {
            assert(self.agents@.map_values(|a: A| reported_profile(a)) =~= before.map_values(
                |a: A| reported_profile(a),
            ).push(reported_profile(agent)));
        }
    }

    /// The number of registered agents.
    pub fn len(&self) -> (n: usize)
        ensures
            n == self.registered().len(),
    {
        self.agents.len()
    }

    /// Returns the agent registered at position `index`.
    pub fn agent(&self, index: usize) -> (agent: &A)
        requires
            index < self.registered().len(),
        ensures
            *agent == self.registered()[index as int],
    {
        &self.agents[index]
    }

    /// The agents to consider for a task of type `task_type`, as positions in
    /// the registry, in the order they are to be asked for availability.
    ///
    /// Agents are checked in the order their ids appear in `prefer`; any
    /// agent not in `prefer`, or whose capabilities do not include the task
    /// type, is left out. The first of them that is available is the one
    /// selected.
    pub fn candidates(&self, task_type: &TaskType, prefer: &[&str]) -> (order: Vec<usize>)
        ensures
            order@ == candidate_order(self.profiles(), preferred_ids(prefer@), *task_type),
    {
        let ghost profiles = self.profiles();
        let ghost ids = preferred_ids(prefer@);
        let mut order: Vec<usize> = Vec::new();
        let mut p: usize = 0;
        assert(ids.take(0) =~= Seq::<Seq<char>>::empty());
        while p < prefer.len()
            invariant
                p <= prefer@.len(),
                profiles == self.profiles(),
                profiles.len() == self.agents@.len(),
                ids == preferred_ids(prefer@),
                ids.len() == prefer@.len(),
                order@ == candidate_order(profiles, ids.take(p as int), *task_type),
            decreases prefer.len() - p,
        {
            let preferred = String::from_str(prefer[p]);
            let ghost before = order@;
            let mut a: usize = 0;
            while a < self.agents.len()
                invariant
                    a <= self.agents@.len(),
                    profiles == self.profiles(),
                    profiles.len() == self.agents@.len(),
                    preferred@ == ids[p as int],
                    p < ids.len(),
                    order@ == before + serving_agents(profiles, ids[p as int], *task_type, a as int),
                decreases self.agents.len() - a,
            {
                let agent = &self.agents[a];
                assert(profiles[a as int] == reported_profile(*agent));
                if String::from_str(agent.id()) == preferred && supports_type(
                    &agent.capabilities().supported_task_types,
                    task_type,
                ) {
                    order.push(a);
                }
                a += 1;
            }
            assert(ids.take(p + 1).drop_last() =~= ids.take(p as int));
            assert(ids.take(p + 1).last() == ids[p as int]);
            p += 1;
        }
        assert(ids.take(prefer.len() as int) =~= ids);
        order
    }
}

impl<A: CodingAgent> Default for AgentRegistry<A> {
    fn default() -> (registry: Self)
        ensures
            registry.registered() == Seq::<A>::empty(),
    {
        AgentRegistry::new()
    }
}

/// What selection does next, given the candidates in the order they are to
/// be asked and the availability answers received so far.
#[derive(Debug, PartialEq, Eq, Structural)]
pub enum SelectionStep {
    /// Ask the agent at this registry position whether it is available.
    Ask(usize),
    /// Select the agent at this registry position.
    Chosen(usize),
    /// No candidate is available.
    NoneAvailable,
}

/// The next step of selection: the first candidate that answered available
/// is chosen; while every answer so far was negative, the next candidate is
/// asked; when every candidate answered negative, none is available.
pub open spec fn selection_step(order: Seq<usize>, answers: Seq<bool>) -> SelectionStep
    decreases order.len(),
{
    if order.len() == 0 {
        SelectionStep::NoneAvailable
    } else if answers.len() == 0 {
        SelectionStep::Ask(order[0])
    } else if answers[0] {
        SelectionStep::Chosen(order[0])
    } else {
        selection_step(order.drop_first(), answers.drop_first())
    }
}

/// Decides the next step of selecting an agent, from the candidate order
/// (as given by [`AgentRegistry::candidates`]) and the availability answers
/// of the candidates asked so far, in that order.
pub fn select_step(order: &Vec<usize>, answers: &Vec<bool>) -> (step: SelectionStep)
    ensures
        step == selection_step(order@, answers@),
{
    let mut i: usize = 0;
    assert(order@.skip(0) =~= order@);
    assert(answers@.skip(0) =~= answers@);
    while i < order.len() && i < answers.len() && !answers[i]
        invariant
            i <= order@.len(),
            i <= answers@.len(),
            selection_step(order@, answers@) == selection_step(
                order@.skip(i as int),
                answers@.skip(i as int),
            ),
        decreases order.len() - i,
    {
        assert(order@.skip(i as int).drop_first() =~= order@.skip(i + 1));
        assert(answers@.skip(i as int).drop_first() =~= answers@.skip(i + 1));
        i += 1;
    }
    if i >= order.len() {
        SelectionStep::NoneAvailable
    } else if i >= answers.len() {
        SelectionStep::Ask(order[i])
    } else {
        SelectionStep::Chosen(order[i])
    }
}

// ── Laws of the registry ────────────────────────────────────────────────────

/// The agents serving an id, below `upto`: each position is in range and
/// serves the id, they come in registration order, every serving agent is
/// there, and the first one is the earliest serving agent.
pub proof fn lemma_serving_agents(
    agents: Seq<AgentProfile>,
    id: Seq<char>,
    task_type: TaskType,
    upto: int,
)
    requires
        0 <= upto <= agents.len() <= usize::MAX,
    ensures
        forall|k: int|
            0 <= k < serving_agents(agents, id, task_type, upto).len() ==> {
                let i = #[trigger] serving_agents(agents, id, task_type, upto)[k];
                &&& i < upto
                &&& serves(agents[i as int], id, task_type)
            },
        forall|k1: int, k2: int|
            0 <= k1 < k2 < serving_agents(agents, id, task_type, upto).len() ==> #[trigger] serving_agents(
                agents,
                id,
                task_type,
                upto,
            )[k1] < #[trigger] serving_agents(agents, id, task_type, upto)[k2],
        forall|i: int|
            0 <= i < upto && #[trigger] serves(agents[i], id, task_type) ==> serving_agents(
                agents,
                id,
                task_type,
                upto,
            ).contains(i as usize),
    decreases upto,
{
    if upto > 0 {
        lemma_serving_agents(agents, id, task_type, upto - 1);
        let earlier = serving_agents(agents, id, task_type, upto - 1);
        let now = serving_agents(agents, id, task_type, upto);
        assert forall|i: int|
            0 <= i < upto && #[trigger] serves(agents[i], id, task_type) implies now.contains(
            i as usize,
        ) by {
            if i < upto - 1 {
                let k = choose|k: int| 0 <= k < earlier.len() && earlier[k] == i as usize;
                assert(now[k] == i as usize);
            } else {
                assert(now[now.len() - 1] == i as usize);
            }
        }
    }
}

/// Every candidate is a registered agent that answers to one of the
/// preferred ids and supports the task type: agents whose id is not
/// preferred are never selected.
pub proof fn lemma_candidates_sound(
    agents: Seq<AgentProfile>,
    prefer: Seq<Seq<char>>,
    task_type: TaskType,
    k: int,
)
    requires
        agents.len() <= usize::MAX,
        0 <= k < candidate_order(agents, prefer, task_type).len(),
    ensures
        ({
            let i = candidate_order(agents, prefer, task_type)[k] as int;
            &&& 0 <= i < agents.len()
            &&& exists|p: int| #![trigger prefer[p]] 0 <= p < prefer.len() && serves(agents[i], prefer[p], task_type)
        }),
    decreases prefer.len(),
{
    let earlier = candidate_order(agents, prefer.drop_last(), task_type);
    let last = serving_agents(agents, prefer.last(), task_type, agents.len() as int);
    let order = candidate_order(agents, prefer, task_type);
    if k < earlier.len() {
        lemma_candidates_sound(agents, prefer.drop_last(), task_type, k);
        let p = choose|p: int|
            0 <= p < prefer.drop_last().len() && #[trigger] serves(
                agents[earlier[k] as int],
                prefer.drop_last()[p],
                task_type,
            );
        assert(order[k] == earlier[k]);
        assert(serves(agents[order[k] as int], prefer[p], task_type));
    } else {
        lemma_serving_agents(agents, prefer.last(), task_type, agents.len() as int);
        assert(order[k] == last[k - earlier.len()]);
        assert(serves(agents[order[k] as int], prefer[prefer.len() - 1], task_type));
    }
}

/// Every registered agent that answers to a preferred id and supports the
/// task type is a candidate.
pub proof fn lemma_candidates_complete(
    agents: Seq<AgentProfile>,
    prefer: Seq<Seq<char>>,
    task_type: TaskType,
    p: int,
    i: int,
)
    requires
        agents.len() <= usize::MAX,
        0 <= p < prefer.len(),
        0 <= i < agents.len(),
        serves(agents[i], prefer[p], task_type),
    ensures
        candidate_order(agents, prefer, task_type).contains(i as usize),
    decreases prefer.len(),
{
    let earlier = candidate_order(agents, prefer.drop_last(), task_type);
    let last = serving_agents(agents, prefer.last(), task_type, agents.len() as int);
    let order = candidate_order(agents, prefer, task_type);
    if p < prefer.len() - 1 {
        assert(prefer.drop_last()[p] == prefer[p]);
        lemma_candidates_complete(agents, prefer.drop_last(), task_type, p, i);
        let k = choose|k: int| 0 <= k < earlier.len() && earlier[k] == i as usize;
        assert(order[k] == i as usize);
    } else {
        lemma_serving_agents(agents, prefer.last(), task_type, agents.len() as int);
        assert(serves(agents[i], prefer.last(), task_type));
        let k = choose|k: int| 0 <= k < last.len() && last[k] == i as usize;
        assert(order[earlier.len() + k] == i as usize);
    }
}

/// The preference list decides the order: the first candidate answers to
/// the earliest preferred id that any capable registered agent answers to,
/// and among the agents answering to that id it is the first registered.
pub proof fn lemma_first_candidate_is_most_preferred(
    agents: Seq<AgentProfile>,
    prefer: Seq<Seq<char>>,
    task_type: TaskType,
)
    requires
        agents.len() <= usize::MAX,
        candidate_order(agents, prefer, task_type).len() > 0,
    ensures
        exists|p: int|
            #![trigger prefer[p]]
            0 <= p < prefer.len() && {
                let first = candidate_order(agents, prefer, task_type)[0] as int;
                &&& 0 <= first < agents.len()
                &&& serves(agents[first], prefer[p], task_type)
                &&& forall|q: int, j: int|
                    0 <= q < p && 0 <= j < agents.len() ==> !serves(agents[j], prefer[q], task_type)
                &&& forall|j: int| 0 <= j < first ==> !serves(agents[j], prefer[p], task_type)
            },
    decreases prefer.len(),
{
    let earlier = candidate_order(agents, prefer.drop_last(), task_type);
    let last = serving_agents(agents, prefer.last(), task_type, agents.len() as int);
    let order = candidate_order(agents, prefer, task_type);
    lemma_serving_agents(agents, prefer.last(), task_type, agents.len() as int);
    if earlier.len() > 0 {
        lemma_first_candidate_is_most_preferred(agents, prefer.drop_last(), task_type);
        let p = choose|p: int|
            #![trigger prefer.drop_last()[p]]
            0 <= p < prefer.drop_last().len() && {
                let first = earlier[0] as int;
                &&& 0 <= first < agents.len()
                &&& serves(agents[first], prefer.drop_last()[p], task_type)
                &&& forall|q: int, j: int|
                    0 <= q < p && 0 <= j < agents.len() ==> !serves(
                        agents[j],
                        prefer.drop_last()[q],
                        task_type,
                    )
                &&& forall|j: int|
                    0 <= j < first ==> !serves(agents[j], prefer.drop_last()[p], task_type)
            };
        assert(order[0] == earlier[0]);
        assert(prefer.drop_last()[p] == prefer[p]);
        assert forall|q: int, j: int|
            0 <= q < p && 0 <= j < agents.len() implies !serves(agents[j], prefer[q], task_type) by {
            assert(prefer.drop_last()[q] == prefer[q]);
        }
    } else {
        let p = prefer.len() - 1;
        assert(order[0] == last[0]);
        assert forall|q: int, j: int|
            0 <= q < p && 0 <= j < agents.len() implies !serves(agents[j], prefer[q], task_type) by {
            if serves(agents[j], prefer[q], task_type) {
                assert(prefer.drop_last()[q] == prefer[q]);
                lemma_candidates_complete(agents, prefer.drop_last(), task_type, q, j);
            }
        }
        assert forall|j: int| 0 <= j < order[0] as int implies !serves(
            agents[j],
            prefer[p],
            task_type,
        ) by {
            if serves(agents[j], prefer[p], task_type) {
                let k = choose|k: int| 0 <= k < last.len() && last[k] == j as usize;
                if k > 0 {
                    assert(last[0] < last[k]);
                }
            }
        }
        assert(serves(agents[order[0] as int], prefer[p], task_type));
    }
}

/// With no registered agents, or no preferred ids, there is no candidate.
pub proof fn lemma_no_candidates_without_agents_or_preferences(
    agents: Seq<AgentProfile>,
    prefer: Seq<Seq<char>>,
    task_type: TaskType,
)
    requires
        agents.len() <= usize::MAX,
        agents.len() == 0 || prefer.len() == 0,
    ensures
        candidate_order(agents, prefer, task_type).len() == 0,
{
    if candidate_order(agents, prefer, task_type).len() > 0 {
        lemma_candidates_sound(agents, prefer, task_type, 0);
    }
}

/// Selection takes the first available candidate: a chosen agent is the
/// first candidate that answered available, and every candidate before it
/// answered unavailable; a candidate is asked only after every earlier one
/// answered unavailable, and never once one has answered available; no agent
/// is available only when every candidate answered unavailable.
pub proof fn lemma_selection_takes_first_available(order: Seq<usize>, answers: Seq<bool>)
    ensures
        selection_step(order, answers) matches SelectionStep::Chosen(a) ==> exists|k: int|
            0 <= k < order.len() && k < answers.len() && order[k] == a && answers[k] && (
            forall|j: int| 0 <= j < k ==> !#[trigger] answers[j]),
        selection_step(order, answers) matches SelectionStep::Ask(a) ==> answers.len()
            < order.len() && a == order[answers.len() as int] && (forall|j: int|
            0 <= j < answers.len() ==> !#[trigger] answers[j]),
        selection_step(order, answers) is NoneAvailable ==> answers.len() >= order.len() && (
        forall|j: int| 0 <= j < order.len() ==> !#[trigger] answers[j]),
    decreases order.len(),
{
    if order.len() > 0 && answers.len() > 0 && !answers[0] {
        let o = order.drop_first();
        let w = answers.drop_first();
        lemma_selection_takes_first_available(o, w);
        match selection_step(o, w) {
            SelectionStep::Chosen(a) => {
                let k = choose|k: int|
                    0 <= k < o.len() && k < w.len() && o[k] == a && w[k] && (forall|j: int|
                        0 <= j < k ==> !#[trigger] w[j]);
                assert(order[k + 1] == a && answers[k + 1]);
                assert forall|j: int| 0 <= j < k + 1 implies !#[trigger] answers[j] by {
                    if j > 0 {
                        assert(answers[j] == w[j - 1]);
                    }
                }
            },
            SelectionStep::Ask(a) => {
                assert forall|j: int| 0 <= j < answers.len() implies !#[trigger] answers[j] by {
                    if j > 0 {
                        assert(answers[j] == w[j - 1]);
                    }
                }
            },
            SelectionStep::NoneAvailable => {
                assert forall|j: int| 0 <= j < order.len() implies !#[trigger] answers[j] by {
                    if j > 0 {
                        assert(answers[j] == w[j - 1]);
                    }
                }
            },
        }
    }
}

/// The preference list orders the candidates throughout, not only the
/// first one: when the preferred ids are distinct, a candidate that answers
/// to an earlier preferred id comes before one that answers to a later id,
/// and candidates answering to the same id come in registration order.
pub proof fn lemma_candidates_follow_preference(
    agents: Seq<AgentProfile>,
    prefer: Seq<Seq<char>>,
    task_type: TaskType,
    k1: int,
    k2: int,
    p1: int,
    p2: int,
)
    requires
        agents.len() <= usize::MAX,
        forall|a: int, b: int| 0 <= a < b < prefer.len() ==> prefer[a] != prefer[b],
        0 <= k1 < k2 < candidate_order(agents, prefer, task_type).len(),
        0 <= p1 < prefer.len(),
        0 <= p2 < prefer.len(),
        agents[candidate_order(agents, prefer, task_type)[k1] as int].id == prefer[p1],
        agents[candidate_order(agents, prefer, task_type)[k2] as int].id == prefer[p2],
    ensures
        p1 < p2 || (p1 == p2 && candidate_order(agents, prefer, task_type)[k1]
            < candidate_order(agents, prefer, task_type)[k2]),
    decreases prefer.len(),
{
    let n = prefer.len() as int;
    let front = prefer.drop_last();
    let earlier = candidate_order(agents, front, task_type);
    let last = serving_agents(agents, prefer.last(), task_type, agents.len() as int);
    let order = candidate_order(agents, prefer, task_type);
    lemma_serving_agents(agents, prefer.last(), task_type, agents.len() as int);
    assert(order == earlier + last);
    if k1 < earlier.len() {
        lemma_candidates_sound(agents, front, task_type, k1);
        let q1 = choose|q: int|
            #![trigger front[q]]
            0 <= q < front.len() && serves(agents[earlier[k1] as int], front[q], task_type);
        assert(order[k1] == earlier[k1]);
        assert(front[q1] == prefer[q1]);
        assert(p1 == q1);
        if k2 < earlier.len() {
            lemma_candidates_sound(agents, front, task_type, k2);
            let q2 = choose|q: int|
                #![trigger front[q]]
                0 <= q < front.len() && serves(agents[earlier[k2] as int], front[q], task_type);
            assert(order[k2] == earlier[k2]);
            assert(front[q2] == prefer[q2]);
            assert(p2 == q2);
            assert forall|a: int, b: int| 0 <= a < b < front.len() implies front[a] != front[b] by {
                assert(front[a] == prefer[a] && front[b] == prefer[b]);
            }
            lemma_candidates_follow_preference(agents, front, task_type, k1, k2, p1, p2);
        } else {
            assert(order[k2] == last[k2 - earlier.len()]);
            assert(serves(agents[order[k2] as int], prefer[n - 1], task_type));
            assert(p2 == n - 1);
        }
    } else {
        assert(order[k1] == last[k1 - earlier.len()]);
        assert(order[k2] == last[k2 - earlier.len()]);
        assert(serves(agents[order[k1] as int], prefer[n - 1], task_type));
        assert(serves(agents[order[k2] as int], prefer[n - 1], task_type));
        assert(p1 == n - 1);
        assert(p2 == n - 1);
        assert(last[k1 - earlier.len()] < last[k2 - earlier.len()]);
    }
}

} // verus!
