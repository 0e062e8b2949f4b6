//! The orchestrator: drives a multi-turn tool-calling conversation under
//! an iteration budget.

use vstd::prelude::*;

use crate::config::AgentConfig;
use crate::jsonval::{clone_value, json_text_of, value_to_text};
use crate::llm::router::LLMRouter;
use crate::llm::types::{CompletionRequest, LLMResponse, Message, ProviderAdapter, ProviderError};
use crate::result::AgentResult;
use crate::task::store::TaskStore;
use crate::task::types::{is_terminal, TaskStatus};
use crate::tools::registry::ToolRegistry;
use crate::tools::types::{ToolHandler, ToolResult, ToolSchema};

verus! {

/// How one execution of the loop ends, as a function of the completions
/// the provider returned, iteration by iteration.
pub enum LoopVerdict {
    /// A completion without tool calls ended the conversation; carries
    /// its content.
    Finished(String),
    /// A dispatch failure aborted the whole execution.
    ProviderFailed(ProviderError),
    /// Every iteration returned tool calls until the budget ran out.
    Exhausted,
}

/// The verdict of the execution loop over a history of per-iteration
/// completion outcomes and an iteration budget: the first dispatch
/// failure aborts, the first completion without tool calls finishes, and
/// a spent budget exhausts.
pub open spec fn spec_verdict(
    history: Seq<Result<LLMResponse, ProviderError>>,
    max: nat,
) -> LoopVerdict
    decreases max,
{
    if max == 0 || history.len() == 0 {
        LoopVerdict::Exhausted
    } else {
        match history[0] {
            Err(e) => LoopVerdict::ProviderFailed(e),
            Ok(resp) => {
                if resp.tool_calls@.len() == 0 {
                    LoopVerdict::Finished(resp.content)
                } else {
                    spec_verdict(history.drop_first(), (max - 1) as nat)
                }
            },
        }
    }
}

/// If the model returns zero tool calls on iteration `k` (counting from
/// zero, with `k` under the budget) and every earlier iteration returned
/// at least one, the loop finishes there with that completion's content.
pub proof fn lemma_verdict_finishes_on_empty_tool_calls(
    history: Seq<Result<LLMResponse, ProviderError>>,
    max: nat,
    k: int,
)
    requires
        0 <= k < max,
        k < history.len(),
        forall|j: int|
            0 <= j < k ==> (#[trigger] history[j] matches Ok(resp) && resp.tool_calls@.len()
                > 0),
        history[k] matches Ok(resp) && resp.tool_calls@.len() == 0,
    ensures
        history[k] matches Ok(resp) && spec_verdict(history, max) == LoopVerdict::Finished(
            resp.content,
        ),
    decreases k,
{
    if k > 0 {
        assert(history[0] matches Ok(resp) && resp.tool_calls@.len() > 0);
        lemma_verdict_finishes_on_empty_tool_calls(history.drop_first(), (max - 1) as nat, k - 1);
    }
}

/// If iteration `k` fails to dispatch and every earlier iteration
/// returned at least one tool call, the loop aborts with that failure.
pub proof fn lemma_verdict_aborts_on_dispatch_failure(
    history: Seq<Result<LLMResponse, ProviderError>>,
    max: nat,
    k: int,
)
    requires
        0 <= k < max,
        k < history.len(),
        forall|j: int|
            0 <= j < k ==> (#[trigger] history[j] matches Ok(resp) && resp.tool_calls@.len()
                > 0),
        history[k] is Err,
    ensures
        history[k] matches Err(e) && spec_verdict(history, max) == LoopVerdict::ProviderFailed(e),
    decreases k,
{
    if k > 0 {
        assert(history[0] matches Ok(resp) && resp.tool_calls@.len() > 0);
        lemma_verdict_aborts_on_dispatch_failure(history.drop_first(), (max - 1) as nat, k - 1);
    }
}

/// If every one of the budget's `max` iterations returns at least one
/// tool call, the loop ends exhausted after exactly `max` iterations.
pub proof fn lemma_verdict_exhausts(history: Seq<Result<LLMResponse, ProviderError>>, max: nat)
    requires
        forall|j: int|
            0 <= j < max && j < history.len() ==> (#[trigger] history[j] matches Ok(resp)
                && resp.tool_calls@.len() > 0),
    ensures
        spec_verdict(history, max) == LoopVerdict::Exhausted,
    decreases max,
{
    if max > 0 && history.len() > 0 {
        assert(history[0] matches Ok(resp) && resp.tool_calls@.len() > 0);
        lemma_verdict_exhausts(history.drop_first(), (max - 1) as nat);
    }
}

/// The conversation a fresh execution starts from: the configured system
/// prompt, then the instruction as the user turn.
pub fn seed_messages(system_prompt: &str, instruction: &str) -> (r: Vec<Message>)
    ensures
        r@.len() == 2,
        r@[0].role@ == "system"@,
        r@[0].content@ == system_prompt@,
        r@[1].role@ == "user"@,
        r@[1].content@ == instruction@,
{
    let mut r: Vec<Message> = Vec::new();
    r.push(Message { role: String::from_str("system"), content: system_prompt.to_owned() });
    r.push(Message { role: String::from_str("user"), content: instruction.to_owned() });
    r
}

/// Copies a conversation.
fn clone_messages(v: &Vec<Message>) -> (r: Vec<Message>)
    ensures
        r@ == v@,
{
    let mut out: Vec<Message> = Vec::new();
    let mut i: usize = 0;
    while i < v.len()
        invariant
            i <= v@.len(),
            out@.len() == i,
            forall|k: int| 0 <= k < i ==> out@[k] == v@[k],
        decreases v@.len() - i,
    {
        out.push(v[i].clone());
        i = i + 1;
    }
    proof {
        assert(out@ =~= v@);
    }
    out
}

/// Copies a schema set.
fn clone_schemas(v: &Vec<ToolSchema>) -> (r: Vec<ToolSchema>)
    ensures
        r@ == v@,
{
    let mut out: Vec<ToolSchema> = Vec::new();
    let mut i: usize = 0;
    while i < v.len()
        invariant
            i <= v@.len(),
            out@.len() == i,
            forall|k: int| 0 <= k < i ==> out@[k] == v@[k],
        decreases v@.len() - i,
    {
        out.push(v[i].clone());
        i = i + 1;
    }
    proof {
        assert(out@ =~= v@);
    }
    out
}

/// The user-role text a tool execution is reported back to the model
/// with: the tool's output rendered as JSON text, or its error.
pub open spec fn spec_tool_feedback(name: Seq<char>, result: ToolResult) -> Seq<char> {
    if result.success {
        "Tool "@ + name + " result: "@ + (match result.output {
            Some(v) => json_text_of(v),
            None => Seq::<char>::empty(),
        })
    } else {
        "Tool "@ + name + " error: "@ + (match result.error {
            Some(e) => e@,
            None => "unknown error"@,
        })
    }
}

/// Builds the conversation message reporting one tool execution.
pub fn tool_feedback_message(name: &str, result: &ToolResult) -> (r: Message)
    ensures
        r.role@ == "user"@,
        r.content@ == spec_tool_feedback(name@, *result),
{
    let mut content = String::from_str("Tool ");
    content.append(name);
    if result.success {
        content.append(" result: ");
        match &result.output {
            Some(v) => {
                let rendered = value_to_text(v);
                content.append(rendered.as_str());
            },
            None => {},
        }
    } else {
        content.append(" error: ");
        match &result.error {
            Some(e) => {
                content.append(e.as_str());
            },
            None => {
                content.append("unknown error");
            },
        }
    }
    Message { role: String::from_str("user"), content }
}

/// Appends the assistant turn carrying the model's content (even when
/// empty), then one user-role message per tool call, executed and
/// reported in exactly the order the model returned the calls; the
/// earlier conversation is never reordered or truncated.
pub fn apply_tool_calls<H: ToolHandler>(
    tools: &ToolRegistry<H>,
    messages: &mut Vec<Message>,
    response: &LLMResponse,
)
    ensures
        final(messages)@.len() == old(messages)@.len() + 1 + response.tool_calls@.len(),
        final(messages)@.subrange(0, old(messages)@.len() as int) =~= old(messages)@,
        final(messages)@[old(messages)@.len() as int].role@ == "assistant"@,
        final(messages)@[old(messages)@.len() as int].content == response.content,
        forall|i: int|
            0 <= i < response.tool_calls@.len() ==> {
                &&& (#[trigger] final(messages)@[old(messages)@.len() + 1 + i]).role@ == "user"@
                &&& exists|res: ToolResult|
                    final(messages)@[old(messages)@.len() + 1 + i].content@
                        == spec_tool_feedback(response.tool_calls@[i].name@, res)
            },
{
    let ghost base = messages@;
    messages.push(
        Message { role: String::from_str("assistant"), content: response.content.clone() },
    );
    let mut i: usize = 0;
    while i < response.tool_calls.len()
        invariant
            i <= response.tool_calls@.len(),
            messages@.len() == base.len() + 1 + i,
            messages@.subrange(0, base.len() as int) =~= base,
            messages@[base.len() as int].role@ == "assistant"@,
            messages@[base.len() as int].content == response.content,
            forall|k: int|
                0 <= k < i ==> {
                    &&& (#[trigger] messages@[base.len() + 1 + k]).role@ == "user"@
                    &&& exists|res: ToolResult|
                        messages@[base.len() + 1 + k].content@ == spec_tool_feedback(
                            response.tool_calls@[k].name@,
                            res,
                        )
                },
        decreases response.tool_calls@.len() - i,
    {
        let call = &response.tool_calls[i];
        let result = tools.execute(call.name.as_str(), clone_value(&call.args));
        let feedback = tool_feedback_message(call.name.as_str(), &result);
        messages.push(feedback);
        proof {
            assert(messages@.subrange(0, base.len() as int) =~= base);
            assert(messages@[base.len() + 1 + i as int].content@ == spec_tool_feedback(
                response.tool_calls@[i as int].name@,
                result,
            ));
        }
        i = i + 1;
    }
}

/// Per-call overrides for one execution: each present value replaces the
/// agent's configured one for the duration of that call alone.
pub struct ExecuteOverrides {
    pub system_prompt: Option<String>,
    pub provider: Option<String>,
    pub model: Option<String>,
    pub temperature: Option<u32>,
}

/// A task with this id and instruction is recorded in the store.
pub open spec fn task_recorded(store: TaskStore, tid: Seq<char>, instr: Seq<char>) -> bool {
    exists|i: int|
        0 <= i < store.spec_tasks().len() && (#[trigger] store.spec_tasks()[i]).id@ == tid
            && store.spec_tasks()[i].instruction@ == instr
}

/// The recorded task with this id ended in the given terminal status,
/// with its completion time set and, where one is claimed, its output.
pub open spec fn task_finished(
    store: TaskStore,
    tid: Seq<char>,
    instr: Seq<char>,
    status: TaskStatus,
    output: Option<String>,
) -> bool {
    exists|i: int|
        {
            &&& 0 <= i < store.spec_tasks().len()
            &&& (#[trigger] store.spec_tasks()[i]).id@ == tid
            &&& store.spec_tasks()[i].instruction@ == instr
            &&& store.spec_tasks()[i].status == status
            &&& (output is Some ==> store.spec_tasks()[i].output == output)
            &&& store.spec_tasks()[i].completed_at is Some
        }
}

/// The orchestrator: one router, one tool registry, an optional task
/// store, and the configuration the loop runs under.
pub struct Agent<A: ProviderAdapter, H: ToolHandler> {
    pub name: String,
    pub config: AgentConfig,
    pub system_prompt: String,
    pub router: LLMRouter<A>,
    pub tools: ToolRegistry<H>,
    pub tasks: Option<TaskStore>,
}

impl<A: ProviderAdapter, H: ToolHandler> Agent<A, H> {
    /// The component invariants hold together.
    pub open spec fn well_formed(self) -> bool {
        &&& self.router.well_formed()
        &&& self.tools.well_formed()
        &&& (self.tasks matches Some(store) ==> store.well_formed())
    }

    /// Builds an agent around a ready router, filling empty or zero
    /// configuration entries with the defaults, and attaching a task
    /// store when the configuration asks for one.
    pub fn new(name: &str, config: AgentConfig, system_prompt: &str, router: LLMRouter<A>) -> (r:
        Agent<A, H>)
        requires
            router.well_formed(),
        ensures
            r.well_formed(),
            name@.len() == 0 ==> r.name@ == "agent"@,
            name@.len() > 0 ==> r.name@ == name@,
            system_prompt@.len() == 0 ==> r.system_prompt@ == "You are a helpful assistant."@,
            system_prompt@.len() > 0 ==> r.system_prompt@ == system_prompt@,
            config.provider@.len() == 0 ==> r.config.provider@ == "gemini"@,
            config.provider@.len() > 0 ==> r.config.provider == config.provider,
            config.model@.len() == 0 ==> r.config.model@ == "gemini-3-flash-preview"@,
            config.model@.len() > 0 ==> r.config.model == config.model,
            config.max_iterations == 0 ==> r.config.max_iterations == 10,
            config.max_iterations > 0 ==> r.config.max_iterations == config.max_iterations,
            config.temperature == 0 ==> r.config.temperature == 30,
            config.temperature != 0 ==> r.config.temperature == config.temperature,
            r.config.enable_task_store == config.enable_task_store,
            r.config.reasoning_effort == config.reasoning_effort,
            r.config.codex_auth_file == config.codex_auth_file,
            r.router == router,
            r.tools.spec_tools().len() == 0,
            config.enable_task_store ==> (r.tasks matches Some(store)
                && store.spec_tasks().len() == 0),
            !config.enable_task_store ==> r.tasks is None,
    {
        let mut config = config;
        let resolved_name = if name.unicode_len() == 0 {
            String::from_str("agent")
        } else {
            name.to_owned()
        };
        let prompt = if system_prompt.unicode_len() == 0 {
            String::from_str("You are a helpful assistant.")
        } else {
            system_prompt.to_owned()
        };
        if config.provider.as_str().unicode_len() == 0 {
            config.provider = AgentConfig::default().provider;
        }
        if config.model.as_str().unicode_len() == 0 {
            config.model = AgentConfig::default().model;
        }
        if config.max_iterations == 0 {
            config.max_iterations = AgentConfig::default().max_iterations;
        }
        if config.temperature == 0 {
            config.temperature = AgentConfig::default().temperature;
        }
        let tasks = if config.enable_task_store {
            Some(TaskStore::new(false, None))
        } else {
            None
        };
        Agent {
            name: resolved_name,
            config,
            system_prompt: prompt,
            router,
            tools: ToolRegistry::new(),
            tasks,
        }
    }

    /// Registers a tool on the agent's registry.
    pub fn add_tool(&mut self, name: &str, handler: H, schema: ToolSchema) -> (r: Result<
        (),
        String,
    >)
        requires
            old(self).well_formed(),
        ensures
            final(self).well_formed(),
            final(self).name == old(self).name,
            final(self).config == old(self).config,
            final(self).system_prompt == old(self).system_prompt,
            final(self).router == old(self).router,
            final(self).tasks == old(self).tasks,
            name@.len() > 0 && (schema.name@.len() == 0 || schema.name@ == name@) && !old(
                self,
            ).tools.spec_has(name@) ==> r is Ok && final(self).tools.spec_has(name@),
            r is Err ==> final(self).tools == old(self).tools,
    {
        let r = self.tools.register(name, handler, schema);
        proof {
            if r is Ok {
                assert(final(self).tools.spec_tools().last().name@ == name@);
            }
        }
        r
    }

    fn build_request(&self, messages: &Vec<Message>, schemas: &Option<Vec<ToolSchema>>) -> (r:
        CompletionRequest)
        ensures
            r.messages@ == messages@,
            (schemas matches Some(s) ==> r.tools matches Some(t) && t@ == s@),
            (schemas is None ==> r.tools is None),
            r.temperature == Some(self.config.temperature),
            r.model matches Some(m) && m == self.config.model,
            r.provider matches Some(p) && p == self.config.provider,
            r.metadata is None,
    {
        CompletionRequest {
            messages: clone_messages(messages),
            tools: match schemas {
                Some(s) => Some(clone_schemas(s)),
                None => None,
            },
            temperature: Some(self.config.temperature),
            model: Some(self.config.model.clone()),
            provider: Some(self.config.provider.clone()),
            metadata: None,
        }
    }

    /// Writes a terminal status onto the execution's task.
    fn finish_task(
        store: &mut TaskStore,
        tid: &str,
        status: TaskStatus,
        output: Option<String>,
        error: Option<String>,
        Ghost(instr): Ghost<Seq<char>>,
    )
        requires
            old(store).well_formed(),
            is_terminal(status),
            task_recorded(*old(store), tid@, instr),
        ensures
            final(store).well_formed(),
            task_finished(*final(store), tid@, instr, status, output),
    {
        let ghost store0 = *store;
        let ghost i0 = choose|i: int|
            0 <= i < store0.spec_tasks().len() && (#[trigger] store0.spec_tasks()[i]).id@ == tid@
                && store0.spec_tasks()[i].instruction@ == instr;
        proof {
            assert(store0.spec_has_task(tid@));
        }
        let updated = store.update(tid, status, output, error);
        proof {
            let t = updated->Some_0;
            let i = choose|i: int|
                {
                    &&& 0 <= i < store0.spec_tasks().len()
                    &&& store0.spec_tasks()[i].id@ == tid@
                    &&& store.spec_tasks() =~= store0.spec_tasks().update(i, t)
                    &&& t.id == store0.spec_tasks()[i].id
                    &&& t.instruction == store0.spec_tasks()[i].instruction
                    &&& t.created_at == store0.spec_tasks()[i].created_at
                    &&& t.status == status
                    &&& (output is Some ==> t.output == output)
                    &&& (output is None ==> t.output == store0.spec_tasks()[i].output)
                    &&& (error is Some ==> t.error == error)
                    &&& (error is None ==> t.error == store0.spec_tasks()[i].error)
                    &&& (is_terminal(status) ==> t.completed_at is Some)
                    &&& (!is_terminal(status) ==> t.completed_at
                        == store0.spec_tasks()[i].completed_at)
                };
            assert(i == i0) by {
                if i < i0 {
                    assert(store0.spec_tasks()[i].id@ != store0.spec_tasks()[i0].id@);
                } else if i0 < i {
                    assert(store0.spec_tasks()[i0].id@ != store0.spec_tasks()[i].id@);
                }
            };
            assert(store.spec_tasks()[i0] == t);
            assert((#[trigger] store.spec_tasks()[i0]).id@ == tid@);
        }
    }

    /// Runs the execution loop for one instruction: seeds the
    /// conversation, dispatches a completion per iteration, and either
    /// finishes on a completion without tool calls, aborts on a dispatch
    /// failure, or fails after `max_iterations` rounds of tool calls.
    /// The result is consistent with `spec_verdict` over the history of
    /// completion outcomes; the attached task (when a store is enabled)
    /// ends `Completed` with the output exactly on success, `Failed`
    /// otherwise.
    pub fn execute(&mut self, instruction: &str) -> (r: AgentResult)
        requires
            old(self).well_formed(),
        ensures
            final(self).well_formed(),
            final(self).name == old(self).name,
            final(self).config == old(self).config,
            final(self).system_prompt == old(self).system_prompt,
            final(self).tools == old(self).tools,
            r.trace is None,
            !r.success ==> r.output@ == Seq::<char>::empty(),
            old(self).tasks is None ==> final(self).tasks is None && r.task_id is None,
            old(self).tasks is Some ==> {
                &&& r.task_id is Some
                &&& final(self).tasks is Some
                &&& task_finished(
                    final(self).tasks->Some_0,
                    r.task_id->Some_0@,
                    instruction@,
                    (if r.success {
                        TaskStatus::Completed
                    } else {
                        TaskStatus::Failed
                    }),
                    (if r.success {
                        Some(r.output)
                    } else {
                        None
                    }),
                )
            },
            exists|history: Seq<Result<LLMResponse, ProviderError>>|
                {
                    &&& history.len() <= old(self).config.max_iterations
                    &&& match spec_verdict(history, old(self).config.max_iterations as nat) {
                        LoopVerdict::Finished(c) => r.success == true && r.output == c,
                        LoopVerdict::ProviderFailed(e) => r.success == false,
                        LoopVerdict::Exhausted => r.success == false,
                    }
                },
    {
        let ghost pre = *old(self);
        let mut task_id: Option<String> = None;
        match &mut self.tasks {
            Some(store) => {
                let ghost store0 = *store;
                let task = store.create(instruction);
                let ghost tsk = task;
                proof {
                    if !store0.spec_has_task(tsk.id@) {
                        assert(store.spec_tasks()[store.spec_tasks().len() - 1] == tsk);
                    } else {
                        let i = choose|i: int|
                            {
                                &&& 0 <= i < store0.spec_tasks().len()
                                &&& store0.spec_tasks()[i].id@ == tsk.id@
                                &&& store.spec_tasks() =~= store0.spec_tasks().update(i, tsk)
                            };
                        assert(store.spec_tasks()[i] == tsk);
                    }
                    assert(task_recorded(*store, tsk.id@, instruction@));
                }
                task_id = Some(task.id);
            },
            None => {},
        }

        let mut messages = seed_messages(self.system_prompt.as_str(), instruction);

        let schemas: Option<Vec<ToolSchema>> = if self.tools.count() > 0 {
            Some(self.tools.get_schemas())
        } else {
            None
        };

        let max = self.config.max_iterations;
        let mut it: usize = 0;
        let ghost mut past: Seq<Result<LLMResponse, ProviderError>> = Seq::empty();
        while it < max
            invariant
                pre == *old(self),
                self.well_formed(),
                self.name == pre.name,
                self.config == pre.config,
                self.system_prompt == pre.system_prompt,
                self.tools == pre.tools,
                max == pre.config.max_iterations,
                pre.tasks is None ==> self.tasks is None && task_id is None,
                pre.tasks is Some ==> {
                    &&& task_id is Some
                    &&& self.tasks is Some
                    &&& task_recorded(self.tasks->Some_0, task_id->Some_0@, instruction@)
                },
                it <= max,
                messages@.len() >= 2,
                messages@[0].role@ == "system"@,
                messages@[0].content@ == pre.system_prompt@,
                messages@[1].role@ == "user"@,
                messages@[1].content@ == instruction@,
                past.len() == it,
                forall|j: int|
                    0 <= j < past.len() ==> (#[trigger] past[j] matches Ok(resp)
                        && resp.tool_calls@.len() > 0),
            decreases max - it,
        {
            let request = self.build_request(&messages, &schemas);
            let outcome = self.router.complete(request);
            match outcome {
                Err(err) => {
                    match (&mut self.tasks, &task_id) {
                        (Some(store), Some(tid)) => {
                            Self::finish_task(
                                store,
                                tid.as_str(),
                                TaskStatus::Failed,
                                None,
                                Some(err.message.clone()),
                                Ghost(instruction@),
                            );
                        },
                        _ => {},
                    }
                    proof {
                        let history = past.push(Err::<LLMResponse, ProviderError>(err));
                        assert(history[it as int] is Err);
                        assert(forall|j: int|
                            0 <= j < it ==> (#[trigger] history[j] matches Ok(resp)
                                && resp.tool_calls@.len() > 0));
                        lemma_verdict_aborts_on_dispatch_failure(
                            history,
                            max as nat,
                            it as int,
                        );
                    }
                    return AgentResult {
                        success: false,
                        output: String::new(),
                        task_id,
                        trace: None,
                    };
                },
                Ok(response) => {
                    if response.tool_calls.len() == 0 {
                        let output = response.content.clone();
                        match (&mut self.tasks, &task_id) {
                            (Some(store), Some(tid)) => {
                                Self::finish_task(
                                    store,
                                    tid.as_str(),
                                    TaskStatus::Completed,
                                    Some(output.clone()),
                                    None,
                                    Ghost(instruction@),
                                );
                            },
                            _ => {},
                        }
                        proof {
                            let history = past.push(
                                Ok::<LLMResponse, ProviderError>(response),
                            );
                            assert(history[it as int] matches Ok(resp)
                                && resp.tool_calls@.len() == 0);
                            assert(forall|j: int|
                                0 <= j < it ==> (#[trigger] history[j] matches Ok(resp)
                                    && resp.tool_calls@.len() > 0));
                            lemma_verdict_finishes_on_empty_tool_calls(
                                history,
                                max as nat,
                                it as int,
                            );
                        }
                        return AgentResult { success: true, output, task_id, trace: None };
                    }
                    apply_tool_calls(&self.tools, &mut messages, &response);
                    proof {
                        past = past.push(Ok::<LLMResponse, ProviderError>(response));
                    }
                },
            }
            it = it + 1;
        }

        match (&mut self.tasks, &task_id) {
            (Some(store), Some(tid)) => {
                Self::finish_task(
                    store,
                    tid.as_str(),
                    TaskStatus::Failed,
                    None,
                    Some(String::from_str("max iterations reached")),
                    Ghost(instruction@),
                );
            },
            _ => {},
        }
        proof {
            lemma_verdict_exhausts(past, max as nat);
        }
        AgentResult { success: false, output: String::new(), task_id, trace: None }
    }

    /// Runs one execution under per-call overrides: the configuration and
    /// system prompt are snapshotted, the overrides applied, the loop
    /// run, and the snapshot restored before returning. The whole window
    /// lives under one exclusive borrow, so concurrent callers cannot
    /// observe another call's overrides.
    pub fn execute_with_overrides(&mut self, instruction: &str, overrides: ExecuteOverrides) -> (r:
        AgentResult)
        requires
            old(self).well_formed(),
        ensures
            final(self).well_formed(),
            final(self).name == old(self).name,
            final(self).config == old(self).config,
            final(self).system_prompt == old(self).system_prompt,
            final(self).tools == old(self).tools,
            r.trace is None,
            !r.success ==> r.output@ == Seq::<char>::empty(),
            old(self).tasks is None ==> final(self).tasks is None && r.task_id is None,
            old(self).tasks is Some ==> {
                &&& r.task_id is Some
                &&& final(self).tasks is Some
                &&& task_finished(
                    final(self).tasks->Some_0,
                    r.task_id->Some_0@,
                    instruction@,
                    (if r.success {
                        TaskStatus::Completed
                    } else {
                        TaskStatus::Failed
                    }),
                    (if r.success {
                        Some(r.output)
                    } else {
                        None
                    }),
                )
            },
    {
        let saved_config = self.config.clone();
        let saved_prompt = self.system_prompt.clone();
        match overrides.provider {
            Some(p) => {
                self.config.provider = p;
            },
            None => {},
        }
        match overrides.model {
            Some(m) => {
                self.config.model = m;
            },
            None => {},
        }
        match overrides.temperature {
            Some(t) => {
                self.config.temperature = t;
            },
            None => {},
        }
        match overrides.system_prompt {
            Some(sp) => {
                self.system_prompt = sp;
            },
            None => {},
        }
        let result = self.execute(instruction);
        self.config = saved_config;
        self.system_prompt = saved_prompt;
        result
    }
}

} // verus!
