use std::cell::RefCell;
use std::rc::Rc;

use base_agent::agent::{apply_tool_calls, seed_messages, tool_feedback_message, ExecuteOverrides};
use base_agent::{
    Agent, AgentConfig, CompletionRequest, LLMResponse, LLMRouter, Message, ProviderAdapter,
    ProviderError, ToolCall, ToolHandler, ToolRegistry, ToolResult, ToolSchema, TaskStatus,
};

struct AddHandler;

impl ToolHandler for AddHandler {
    fn call(&self, args: serde_json::Value) -> Result<serde_json::Value, String> {
        let a = args.get("a").and_then(|v| v.as_i64()).unwrap_or(0);
        let b = args.get("b").and_then(|v| v.as_i64()).unwrap_or(0);
        Ok(serde_json::Value::from(a + b))
    }
}

/// What one dispatched request looked like.
struct Snapshot {
    messages: Vec<Message>,
    tools: Option<usize>,
    model: Option<String>,
    provider: Option<String>,
    temperature: Option<u32>,
}

/// Replays a fixed list of outcomes and records each request it saw.
struct ScriptedAdapter {
    script: RefCell<Vec<Result<LLMResponse, ProviderError>>>,
    seen: Rc<RefCell<Vec<Snapshot>>>,
}

impl ScriptedAdapter {
    fn new(script: Vec<Result<LLMResponse, ProviderError>>) -> (Self, Rc<RefCell<Vec<Snapshot>>>) {
        let seen = Rc::new(RefCell::new(Vec::new()));
        (ScriptedAdapter { script: RefCell::new(script), seen: seen.clone() }, seen)
    }
}

impl ProviderAdapter for ScriptedAdapter {
    fn complete(&mut self, request: CompletionRequest) -> Result<LLMResponse, ProviderError> {
        self.seen.borrow_mut().push(Snapshot {
            messages: request.messages,
            tools: request.tools.as_ref().map(|t| t.len()),
            model: request.model.clone(),
            provider: request.provider.clone(),
            temperature: request.temperature,
        });
        self.script.borrow_mut().remove(0)
    }
}

fn text_response(content: &str) -> Result<LLMResponse, ProviderError> {
    Ok(LLMResponse { content: content.to_string(), tool_calls: Vec::new(), raw: None })
}

fn tool_call_response(content: &str, name: &str, args_json: &str) -> Result<LLMResponse, ProviderError> {
    Ok(LLMResponse {
        content: content.to_string(),
        tool_calls: vec![ToolCall {
            name: name.to_string(),
            args: serde_json::from_str(args_json).expect("valid json"),
        }],
        raw: None,
    })
}

fn config(max_iterations: usize) -> AgentConfig {
    AgentConfig {
        provider: "scripted".to_string(),
        model: "gemini-3-flash-preview".to_string(),
        reasoning_effort: None,
        max_iterations,
        temperature: 30,
        enable_task_store: true,
        codex_auth_file: None,
    }
}

fn agent_with_script(
    script: Vec<Result<LLMResponse, ProviderError>>,
    max_iterations: usize,
) -> (Agent<ScriptedAdapter, AddHandler>, Rc<RefCell<Vec<Snapshot>>>) {
    let (adapter, seen) = ScriptedAdapter::new(script);
    let mut router: LLMRouter<ScriptedAdapter> = LLMRouter::new("scripted");
    router.register_provider("scripted", adapter);
    let agent = Agent::new("tester", config(max_iterations), "Be helpful.", router);
    (agent, seen)
}

#[test]
fn plain_question_finishes_on_first_completion() {
    let (mut agent, seen) = agent_with_script(vec![text_response("4")], 10);
    let result = agent.execute("What is 2+2?");
    assert!(result.success);
    assert_eq!(result.output, "4");
    assert!(result.trace.is_none());
    assert_eq!(seen.borrow().len(), 1);

    let task_id = result.task_id.expect("task store enabled");
    let store = agent.tasks.as_ref().expect("task store enabled");
    let task = store.get(&task_id).expect("task recorded");
    assert_eq!(task.status, TaskStatus::Completed);
    assert_eq!(task.output, Some("4".to_string()));
    assert!(task.completed_at.is_some());
}

#[test]
fn seed_conversation_is_system_then_user() {
    let (mut agent, seen) = agent_with_script(vec![text_response("ok")], 10);
    agent.execute("hello");
    let seen = seen.borrow();
    let first = &seen[0];
    assert_eq!(first.messages.len(), 2);
    assert_eq!(first.messages[0].role, "system");
    assert_eq!(first.messages[0].content, "Be helpful.");
    assert_eq!(first.messages[1].role, "user");
    assert_eq!(first.messages[1].content, "hello");
    assert_eq!(first.tools, None);
    assert_eq!(first.model.as_deref(), Some("gemini-3-flash-preview"));
    assert_eq!(first.provider.as_deref(), Some("scripted"));
    assert_eq!(first.temperature, Some(30));
}

#[test]
fn tool_result_is_fed_back_and_loop_continues() {
    let script = vec![
        tool_call_response("calling add", "add", "{\"a\":2,\"b\":2}"),
        text_response("the answer is 4"),
    ];
    let (mut agent, seen) = agent_with_script(script, 10);
    agent
        .add_tool(
            "add",
            AddHandler,
            ToolSchema { name: "add".to_string(), description: "adds".to_string(), parameters: None },
        )
        .expect("registration");

    let result = agent.execute("add two and two");
    assert!(result.success);
    assert_eq!(result.output, "the answer is 4");

    let seen = seen.borrow();
    assert_eq!(seen.len(), 2);
    assert_eq!(seen[0].tools, Some(1));
    let second = &seen[1].messages;
    assert_eq!(second.len(), 4);
    assert_eq!(second[2].role, "assistant");
    assert_eq!(second[2].content, "calling add");
    assert_eq!(second[3].role, "user");
    assert_eq!(second[3].content, "Tool add result: 4");
}

#[test]
fn exhausting_the_budget_fails_with_the_fixed_reason() {
    let script = vec![
        tool_call_response("again", "missing", "{}"),
        tool_call_response("again", "missing", "{}"),
    ];
    let (mut agent, seen) = agent_with_script(script, 2);
    let result = agent.execute("loop forever");
    assert!(!result.success);
    assert_eq!(result.output, "");
    assert_eq!(seen.borrow().len(), 2);

    let task_id = result.task_id.expect("task store enabled");
    let store = agent.tasks.as_ref().expect("task store enabled");
    let task = store.get(&task_id).expect("task recorded");
    assert_eq!(task.status, TaskStatus::Failed);
    assert_eq!(task.error, Some("max iterations reached".to_string()));
}

#[test]
fn dispatch_failure_aborts_the_whole_execution() {
    let script = vec![Err(ProviderError {
        code: "auth_error".to_string(),
        message: "credentials rejected".to_string(),
        retryable: true,
    })];
    let (mut agent, seen) = agent_with_script(script, 10);
    let result = agent.execute("anything");
    assert!(!result.success);
    assert_eq!(result.output, "");
    assert_eq!(seen.borrow().len(), 1);

    let task_id = result.task_id.expect("task store enabled");
    let store = agent.tasks.as_ref().expect("task store enabled");
    let task = store.get(&task_id).expect("task recorded");
    assert_eq!(task.status, TaskStatus::Failed);
    assert_eq!(task.error, Some("credentials rejected".to_string()));
}

#[test]
fn unregistered_provider_fails_the_execution() {
    let router: LLMRouter<ScriptedAdapter> = LLMRouter::new("gemini");
    let mut cfg = config(10);
    cfg.provider = "gemini".to_string();
    let mut agent: Agent<ScriptedAdapter, AddHandler> = Agent::new("tester", cfg, "", router);
    let result = agent.execute("anything");
    assert!(!result.success);

    let task_id = result.task_id.expect("task store enabled");
    let store = agent.tasks.as_ref().expect("task store enabled");
    let task = store.get(&task_id).expect("task recorded");
    assert_eq!(task.status, TaskStatus::Failed);
    assert_eq!(task.error, Some("provider not registered: gemini".to_string()));
}

#[test]
fn constructor_fills_defaults() {
    let router: LLMRouter<ScriptedAdapter> = LLMRouter::new("gemini");
    let empty = AgentConfig {
        provider: String::new(),
        model: String::new(),
        reasoning_effort: None,
        max_iterations: 0,
        temperature: 0,
        enable_task_store: false,
        codex_auth_file: None,
    };
    let agent: Agent<ScriptedAdapter, AddHandler> = Agent::new("", empty, "", router);
    assert_eq!(agent.name, "agent");
    assert_eq!(agent.system_prompt, "You are a helpful assistant.");
    assert_eq!(agent.config.provider, "gemini");
    assert_eq!(agent.config.model, "gemini-3-flash-preview");
    assert_eq!(agent.config.max_iterations, 10);
    assert_eq!(agent.config.temperature, 30);
    assert!(agent.tasks.is_none());
}

#[test]
fn overrides_are_restored_after_the_call() {
    let (mut agent, seen) = agent_with_script(vec![text_response("ok")], 10);
    let result = agent.execute_with_overrides(
        "hello",
        ExecuteOverrides {
            system_prompt: Some("Terse.".to_string()),
            provider: None,
            model: None,
            temperature: Some(90),
        },
    );
    assert!(result.success);
    assert_eq!(agent.system_prompt, "Be helpful.");
    assert_eq!(agent.config.temperature, 30);
    let seen = seen.borrow();
    assert_eq!(seen[0].messages[0].content, "Terse.");
}

#[test]
fn tool_feedback_reports_results_and_errors() {
    let ok = ToolResult {
        success: true,
        output: Some(serde_json::Value::from(4i64)),
        error: None,
    };
    let msg = tool_feedback_message("add", &ok);
    assert_eq!(msg.role, "user");
    assert_eq!(msg.content, "Tool add result: 4");

    let failed = ToolResult { success: false, output: None, error: Some("bad args".to_string()) };
    let msg = tool_feedback_message("add", &failed);
    assert_eq!(msg.content, "Tool add error: bad args");

    let unknown = ToolResult { success: false, output: None, error: None };
    let msg = tool_feedback_message("add", &unknown);
    assert_eq!(msg.content, "Tool add error: unknown error");
}

#[test]
fn tool_results_are_appended_in_call_order() {
    let mut reg: ToolRegistry<AddHandler> = ToolRegistry::new();
    reg.register(
        "add",
        AddHandler,
        ToolSchema { name: "add".to_string(), description: "adds".to_string(), parameters: None },
    )
    .expect("registration");

    let mut messages = seed_messages("sys", "user says");
    let response = LLMResponse {
        content: "two calls".to_string(),
        tool_calls: vec![
            ToolCall {
                name: "add".to_string(),
                args: serde_json::from_str("{\"a\":1,\"b\":2}").expect("valid json"),
            },
            ToolCall { name: "missing".to_string(), args: serde_json::Value::Null },
        ],
        raw: None,
    };
    apply_tool_calls(&reg, &mut messages, &response);

    assert_eq!(messages.len(), 5);
    assert_eq!(messages[2].role, "assistant");
    assert_eq!(messages[2].content, "two calls");
    assert_eq!(messages[3].role, "user");
    assert_eq!(messages[3].content, "Tool add result: 3");
    assert_eq!(messages[4].role, "user");
    assert_eq!(messages[4].content, "Tool missing error: tool not found");
}
