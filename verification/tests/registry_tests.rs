use base_agent::{ToolHandler, ToolRegistry, ToolSchema};

struct AddHandler;

impl ToolHandler for AddHandler {
    fn call(&self, args: serde_json::Value) -> Result<serde_json::Value, String> {
        let a = args.get("a").and_then(|v| v.as_i64()).unwrap_or(0);
        let b = args.get("b").and_then(|v| v.as_i64()).unwrap_or(0);
        Ok(serde_json::Value::from(a + b))
    }
}

struct FailingHandler;

impl ToolHandler for FailingHandler {
    fn call(&self, _args: serde_json::Value) -> Result<serde_json::Value, String> {
        Err("handler exploded".to_string())
    }
}

fn schema(name: &str) -> ToolSchema {
    ToolSchema {
        name: name.to_string(),
        description: "a tool".to_string(),
        parameters: None,
    }
}

#[test]
fn duplicate_registration_is_rejected() {
    let mut reg: ToolRegistry<AddHandler> = ToolRegistry::new();
    assert!(reg.register("add", AddHandler, schema("add")).is_ok());
    let second = reg.register("add", AddHandler, schema("add"));
    assert_eq!(second, Err("tool already registered".to_string()));
    assert_eq!(reg.count(), 1);
}

#[test]
fn schema_name_mismatch_is_rejected() {
    let mut reg: ToolRegistry<AddHandler> = ToolRegistry::new();
    let r = reg.register("add", AddHandler, schema("other"));
    assert_eq!(r, Err("schema name mismatch".to_string()));
    assert_eq!(reg.count(), 0);
}

#[test]
fn empty_name_is_invalid() {
    let mut reg: ToolRegistry<AddHandler> = ToolRegistry::new();
    let r = reg.register("", AddHandler, schema(""));
    assert_eq!(r, Err("invalid tool".to_string()));
}

#[test]
fn empty_schema_name_is_filled_from_name() {
    let mut reg: ToolRegistry<AddHandler> = ToolRegistry::new();
    assert!(reg.register("add", AddHandler, schema("")).is_ok());
    let schemas = reg.get_schemas();
    assert_eq!(schemas.len(), 1);
    assert_eq!(schemas[0].name, "add");
    assert_eq!(schemas[0].description, "a tool");
}

#[test]
fn executing_unknown_tool_fails_softly() {
    let reg: ToolRegistry<AddHandler> = ToolRegistry::new();
    let r = reg.execute("missing", serde_json::Value::Null);
    assert!(!r.success);
    assert_eq!(r.output, None);
    assert_eq!(r.error, Some("tool not found".to_string()));
}

#[test]
fn executing_registered_tool_returns_output() {
    let mut reg: ToolRegistry<AddHandler> = ToolRegistry::new();
    reg.register("add", AddHandler, schema("add")).unwrap();
    let args: serde_json::Value = serde_json::from_str("{\"a\":2,\"b\":2}").unwrap();
    let r = reg.execute("add", args);
    assert!(r.success);
    assert_eq!(r.output, Some(serde_json::Value::from(4i64)));
    assert_eq!(r.error, None);
}

#[test]
fn handler_failure_is_reported_not_raised() {
    let mut reg: ToolRegistry<FailingHandler> = ToolRegistry::new();
    reg.register("boom", FailingHandler, schema("boom")).unwrap();
    let r = reg.execute("boom", serde_json::Value::Null);
    assert!(!r.success);
    assert_eq!(r.output, None);
    assert_eq!(r.error, Some("handler exploded".to_string()));
}

#[test]
fn has_and_count_track_registration() {
    let mut reg: ToolRegistry<AddHandler> = ToolRegistry::new();
    assert!(!reg.has("add"));
    assert_eq!(reg.count(), 0);
    reg.register("add", AddHandler, schema("add")).unwrap();
    assert!(reg.has("add"));
    assert!(!reg.has("sub"));
    assert_eq!(reg.count(), 1);
}
