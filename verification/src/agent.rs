//! The handling of requests where an agent answers the messages, in two
//! halves, between which the agent works while the store is free.

use crate::error::{result_view, A2AError, A2AErrorView, A2AResult};
use crate::json::{str_eq, Json, JsonView};
use crate::server::{
    failure, handle_cancel_task, handle_get_task, id_of, malformed, method_of, refuse_malformed,
    reply, reply_for, request_id, request_method, Action, AppState, RpcReply,
};
use crate::store::{
    announced, announced_all, apply, apply_all, fetch, lemma_next_change, outcome, Mutation,
    Registry,
};
use crate::time::Timestamp;
use crate::types::{
    CancelTaskRequest, GetTaskRequest, SendTaskRequest, Task, TaskSendParamsView, TaskState,
    TaskStatus, TaskStatusView, TaskView,
};
use crate::wire::envelope::{
    cancel_request_from_json, get_request_from_json, send_request_from_json,
};
use vstd::prelude::*;

verus! {

/// The task that a message creates when an agent is to answer it:
/// submitted at `now`, with the message as the message of its status.
pub open spec fn submission(params: TaskSendParamsView, now: Timestamp) -> TaskView {
    TaskView {
        id: params.id,
        session_id: params.session_id,
        status: TaskStatusView {
            state: TaskState::Submitted,
            message: Some(params.message),
            timestamp: now,
        },
        artifacts: None,
        metadata: None,
    }
}

/// The changes that bring what an agent made of a task into the store:
/// first the status, then each artifact in its order.
pub open spec fn agent_changes(processed: TaskView) -> Seq<Mutation> {
    let artifacts = match processed.artifacts {
        Some(list) => list,
        None => Seq::empty(),
    };
    seq![Mutation::UpdateStatus(processed.id, processed.status)] + Seq::new(
        artifacts.len(),
        |i: int| Mutation::AddArtifact(processed.id, artifacts[i]),
    )
}

/// Stores a task for a message that an agent is to answer, and returns it
/// as stored. The store is not borrowed while the agent works: what the
/// agent makes of the task is brought in afterwards by
/// [`apply_agent_result`].
pub fn submit_task(state: &mut AppState, request: SendTaskRequest, now: Timestamp) -> (r:
    A2AResult<Task>)
    ensures
        ({
            let before = old(state).task_store@;
            let m = Mutation::Create(submission(request@.params, now));
            &&& result_view(r) == outcome(before, m)
            &&& final(state).task_store@ == apply(before, m)
            &&& final(state).task_store.channel() == old(state).task_store.channel()
            &&& final(state).task_store.published() == old(state).task_store.published()
                + announced(before, m)
        }),
{
    let SendTaskRequest { jsonrpc: _, id: _, method: _, params } = request;
    let task = Task {
        id: params.id,
        session_id: params.session_id,
        status: TaskStatus {
            state: TaskState::Submitted,
            message: Some(params.message),
            timestamp: now,
        },
        artifacts: None,
        metadata: None,
    };
    state.task_store.create_task(task)
}

/// Brings what an agent made of a task into the store: its status, then
/// its artifacts one by one, each as a change of its own. Returns the task
/// as it stands in the store afterwards. If no task has the id, nothing is
/// changed.
pub fn apply_agent_result(state: &mut AppState, processed: Task) -> (r: A2AResult<Task>)
    ensures
        ({
            let before = old(state).task_store@;
            let changes = agent_changes(processed@);
            &&& final(state).task_store@ == apply_all(before, changes)
            &&& final(state).task_store.channel() == old(state).task_store.channel()
            &&& final(state).task_store.published() == old(state).task_store.published()
                + announced_all(before, changes)
            &&& result_view(r) == fetch(apply_all(before, changes), processed@.id)
        }),
{
    let ghost before = state.task_store@;
    let ghost published = state.task_store.published();
    let ghost changes = agent_changes(processed@);
    let Task { id, session_id: _, status, artifacts, metadata: _ } = processed;
    let ghost first = Mutation::UpdateStatus(id@, status@);
    proof {
        lemma_next_change(before, changes, 0);
        assert(changes[0] == first);
        assert(announced_all(before, changes.take(1)) =~= announced(before, first));
    }
    match state.task_store.update_task_status(id.as_str(), status) {
        Ok(_) => {},
        Err(e) => {
            proof {
                lemma_unknown_task_unchanged(before, changes, id@);
            }
            return Err(e);
        },
    }
    let artifacts = match artifacts {
        Some(list) => list,
        None => Vec::new(),
    };
    let ghost listed = artifacts.deep_view();
    assert(processed@.artifacts is None ==> listed =~= Seq::empty());
    let mut i: usize = 0;
    while i < artifacts.len()
        invariant
            i <= artifacts.len(),
            listed == artifacts.deep_view(),
            changes.len() == listed.len() + 1,
            forall|k: int|
                0 <= k < listed.len() ==> #[trigger] changes[k + 1] == Mutation::AddArtifact(
                    id@,
                    listed[k],
                ),
            state.task_store.channel() == old(state).task_store.channel(),
            state.task_store@ == apply_all(before, changes.take(i + 1)),
            state.task_store.published() == published + announced_all(
                before,
                changes.take(i + 1),
            ),
        decreases artifacts.len() - i,
    {
        let artifact = artifacts[i].clone();
        proof {
            lemma_next_change(before, changes, i + 1);
        }
        let _ = state.task_store.add_artifact(id.as_str(), artifact);
        proof {
            let sofar = announced_all(before, changes.take(i + 1));
            let step = announced(
                apply_all(before, changes.take(i + 1)),
                changes[i + 1],
            );
            assert(published + sofar + step =~= published + (sofar + step));
        }
        i += 1;
    }
    assert(changes.take(i + 1) =~= changes);
    state.task_store.get_task(id.as_str())
}

/// Changes to a task that does not exist, none of which creates it, leave
/// the registry as it was and announce nothing.
proof fn lemma_unknown_task_unchanged(reg: Registry, changes: Seq<Mutation>, id: Seq<char>)
    requires
        !reg.contains_key(id),
        forall|k: int|
            0 <= k < changes.len() ==> (#[trigger] changes[k]).target() == id
                && !(changes[k] is Create),
    ensures
        apply_all(reg, changes) == reg,
        announced_all(reg, changes) == Seq::<TaskView>::empty(),
    decreases changes.len(),
{
    if changes.len() > 0 {
        let earlier = changes.drop_last();
        assert forall|k: int| 0 <= k < earlier.len() implies (#[trigger] earlier[k]).target() == id
            && !(earlier[k] is Create) by {
            assert(earlier[k] == changes[k]);
        }
        lemma_unknown_task_unchanged(reg, earlier, id);
        assert(changes.last() == changes[changes.len() - 1]);
    }
}

/// What a request amounts to at `now` where an agent answers the messages:
/// as without an agent, but that a message always creates a submitted task,
/// whatever task had its id.
pub open spec fn agent_request_action(payload: JsonView, now: Timestamp) -> Action {
    match method_of(payload) {
        None => Action::Refuse(A2AErrorView::InvalidRequest("Missing method"@)),
        Some(method) => if method == "tasks/send"@ {
            match send_request_from_json(payload) {
                Some(request) => Action::Change(
                    Mutation::Create(submission(request.params, now)),
                ),
                None => Action::Refuse(A2AErrorView::InvalidRequest(malformed(method))),
            }
        } else if method == "tasks/get"@ {
            match get_request_from_json(payload) {
                Some(request) => Action::Read(request.params.id),
                None => Action::Refuse(A2AErrorView::InvalidRequest(malformed(method))),
            }
        } else if method == "tasks/cancel"@ {
            match cancel_request_from_json(payload) {
                Some(request) => Action::Change(Mutation::Cancel(request.params.id, now)),
                None => Action::Refuse(A2AErrorView::InvalidRequest(malformed(method))),
            }
        } else {
            Action::Refuse(A2AErrorView::MethodNotFound(method))
        },
    }
}

/// Whether a request is a message that reads, which is what the agent is
/// run for.
pub open spec fn needs_agent(payload: JsonView) -> bool {
    method_of(payload) == Some("tasks/send"@) && send_request_from_json(payload) is Some
}

/// How the handling of a request goes on after its first half.
#[derive(Debug, PartialEq, Eq)]
pub enum AgentStep {
    /// The request is answered.
    Done(RpcReply),
    /// The agent is to work on `task`; what it returns is handed to
    /// [`finish_agent_request`] together with `request_id`.
    Run { request_id: Option<String>, task: Task },
}

/// The first half of the handling of a request where an agent answers the
/// messages, as of `now`. A message that reads is stored as a submitted
/// task, on which the agent is then to be run; every other request is
/// answered at once.
pub fn begin_agent_request_at(state: &mut AppState, payload: &Json, now: Timestamp) -> (step:
    AgentStep)
    ensures
        ({
            let before = old(state).task_store@;
            let action = agent_request_action(payload@, now);
            &&& final(state).task_store@ == action.apply(before)
            &&& final(state).task_store.channel() == old(state).task_store.channel()
            &&& final(state).task_store.published() == old(state).task_store.published()
                + action.announced(before)
            &&& step matches AgentStep::Done(reply) ==> (reply.status == 200 <==> action.outcome(
                before,
            ) is Ok)
            &&& match step {
                AgentStep::Run { request_id, task } => needs_agent(payload@)
                    && request_id.deep_view() == id_of(payload@) && action.outcome(before) == Ok::<
                    TaskView,
                    A2AErrorView,
                >(task@),
                AgentStep::Done(reply) => !needs_agent(payload@) && reply@ == reply_for(
                    id_of(payload@),
                    action.outcome(before),
                ),
            }
        }),
{
    let id = request_id(payload);
    let method = match request_method(payload) {
        Some(method) => method,
        None => {
            let e = A2AError::InvalidRequest(String::from_str("Missing method"));
            return AgentStep::Done(failure(id, e));
        },
    };
    let name = method.as_str();
    if str_eq(name, "tasks/send") {
        match SendTaskRequest::from_json(payload) {
            Some(request) => match submit_task(state, request, now) {
                Ok(task) => AgentStep::Run { request_id: id, task },
                Err(e) => AgentStep::Done(failure(id, e)),
            },
            None => AgentStep::Done(failure(id, refuse_malformed(name))),
        }
    } else if str_eq(name, "tasks/get") {
        match GetTaskRequest::from_json(payload) {
            Some(request) => AgentStep::Done(reply(id, handle_get_task(state, request))),
            None => AgentStep::Done(failure(id, refuse_malformed(name))),
        }
    } else if str_eq(name, "tasks/cancel") {
        match CancelTaskRequest::from_json(payload) {
            Some(request) => AgentStep::Done(reply(id, handle_cancel_task(state, request, now))),
            None => AgentStep::Done(failure(id, refuse_malformed(name))),
        }
    } else {
        AgentStep::Done(failure(id, A2AError::MethodNotFound(method)))
    }
}

/// What the second half answers: the task as the store holds it after what
/// the agent made of it was brought in, or the error of the agent.
pub open spec fn agent_answer(
    before: Registry,
    processed: Result<TaskView, A2AErrorView>,
) -> Result<TaskView, A2AErrorView> {
    match processed {
        Ok(task) => fetch(apply_all(before, agent_changes(task)), task.id),
        Err(e) => Err(e),
    }
}

/// The second half of the handling of a message: brings what the agent
/// returned into the store and answers the request. If the agent failed,
/// the store is left alone and the failure is the answer.
pub fn finish_agent_request(
    state: &mut AppState,
    request_id: Option<String>,
    processed: A2AResult<Task>,
) -> (reply: RpcReply)
    ensures
        ({
            let before = old(state).task_store@;
            let changes = match processed {
                Ok(task) => agent_changes(task@),
                Err(_) => Seq::empty(),
            };
            &&& final(state).task_store@ == apply_all(before, changes)
            &&& final(state).task_store.channel() == old(state).task_store.channel()
            &&& final(state).task_store.published() == old(state).task_store.published()
                + announced_all(before, changes)
            &&& reply@ == reply_for(
                request_id.deep_view(),
                agent_answer(before, result_view(processed)),
            )
            &&& reply.status == 200 <==> agent_answer(before, result_view(processed)) is Ok
        }),
{
    match processed {
        Ok(task) => {
            let result = apply_agent_result(state, task);
            self::reply(request_id, result)
        },
        Err(e) => {
            assert(old(state).task_store.published() + Seq::<TaskView>::empty()
                =~= old(state).task_store.published());
            failure(request_id, e)
        },
    }
}

} // verus!
