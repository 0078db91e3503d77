use std::collections::HashMap;
use std::sync::Arc;
use std::sync::Mutex;

use nebo_sdk::tool::execute_response;
use nebo_sdk::tool::ToolBridge;
use nebo_sdk::tool::ToolHandler;
use nebo_sdk::AppEnv;
use nebo_sdk::NeboApp;
use nebo_sdk::NeboError;
use nebo_sdk::SchemaBuilder;
use serde_json::Value;

fn env() -> AppEnv {
    AppEnv {
        dir: "/apps/calc".to_string(),
        sock_path: "/run/calc.sock".to_string(),
        id: "app-1".to_string(),
        name: "calc".to_string(),
        version: "1.2.3".to_string(),
        data_dir: "/data/calc".to_string(),
    }
}

struct Calculator;

impl ToolHandler for Calculator {
    fn name(&self) -> &str {
        "calculator"
    }

    fn description(&self) -> &str {
        "Performs arithmetic calculations."
    }

    fn schema(&self) -> Value {
        SchemaBuilder::new(&["add", "subtract", "multiply", "divide"])
            .number("a", "First operand", true)
            .number("b", "Second operand", true)
            .build()
    }

    fn execute(&self, input: Value) -> Result<String, NeboError> {
        let action = match input.get("action").and_then(Value::as_str) {
            Some(action) => action.to_string(),
            None => return Err(NeboError::Execution("missing field `action`".to_string())),
        };
        let a = match input.get("a").and_then(Value::as_f64) {
            Some(a) => a,
            None => return Err(NeboError::Execution("missing field `a`".to_string())),
        };
        let b = match input.get("b").and_then(Value::as_f64) {
            Some(b) => b,
            None => return Err(NeboError::Execution("missing field `b`".to_string())),
        };
        let result = match action.as_str() {
            "add" => a + b,
            "subtract" => a - b,
            "multiply" => a * b,
            "divide" => {
                if b == 0.0 {
                    return Err(NeboError::Execution("division by zero".to_string()));
                }
                a / b
            }
            other => return Err(NeboError::Execution(format!("unknown action: {other}"))),
        };
        Ok(format!("{} {} {} = {}", a, action, b, result))
    }
}

struct Echo;

impl ToolHandler for Echo {
    fn name(&self) -> &str {
        "echo"
    }

    fn description(&self) -> &str {
        "Says what it was given."
    }

    fn schema(&self) -> Value {
        Value::Null
    }

    fn execute(&self, input: Value) -> Result<String, NeboError> {
        Ok(input.to_string())
    }

    fn requires_approval(&self) -> bool {
        true
    }
}

#[test]
fn the_calculator_adds() {
    let app = NeboApp::new(env()).unwrap().register_tool(Calculator);
    let bridge = app.tool().unwrap();
    let response = bridge.execute(br#"{"action":"add","a":2,"b":3}"#);
    assert_eq!(response.content, "2 add 3 = 5");
    assert!(!response.is_error);
}

#[test]
fn the_calculator_refuses_to_divide_by_zero() {
    let app = NeboApp::new(env()).unwrap().register_tool(Calculator);
    let bridge = app.tool().unwrap();
    let response = bridge.execute(br#"{"action":"divide","a":1,"b":0}"#);
    assert!(response.is_error);
    assert!(response.content.contains("division by zero"));
    assert_eq!(response.content, "execution error: division by zero");
}

#[test]
fn the_tool_gets_the_input_that_was_sent() {
    let env = env();
    let bridge = ToolBridge::new(&Echo, &env);
    assert_eq!(bridge.execute(br#"{"x": [1, 2]}"#).content, r#"{"x":[1,2]}"#);
}

#[test]
fn the_tool_gets_the_empty_object_for_input_that_is_not_json() {
    let env = env();
    let bridge = ToolBridge::new(&Echo, &env);
    let response = bridge.execute(b"\xff\xfe");
    assert_eq!(response.content, "{}");
    assert!(!response.is_error);
    assert_eq!(bridge.execute(b"").content, "{}");
}

#[test]
fn the_bridge_passes_on_what_the_handler_says_of_itself() {
    let env = env();
    let bridge = ToolBridge::new(&Calculator, &env);
    assert_eq!(bridge.name(), "calculator");
    assert_eq!(bridge.description(), "Performs arithmetic calculations.");
    assert!(!bridge.requires_approval());
    assert!(ToolBridge::new(&Echo, &env).requires_approval());
}

#[test]
fn the_schema_goes_out_as_json() {
    let env = env();
    let bridge = ToolBridge::new(&Calculator, &env);
    let bytes = bridge.schema();
    assert_eq!(bytes, serde_json::to_vec(&Calculator.schema()).unwrap());
    let read: Value = serde_json::from_slice(&bytes).unwrap();
    assert_eq!(read["required"], serde_json::from_str::<Value>(r#"["action","a","b"]"#).unwrap());
    assert_eq!(ToolBridge::new(&Echo, &env).schema(), b"null".to_vec());
}

#[test]
fn the_outcome_of_a_run_is_encoded() {
    let ok = execute_response(Ok("fine".to_string()));
    assert_eq!(ok.content, "fine");
    assert!(!ok.is_error);
    let failed = execute_response(Err(NeboError::Other("bad".to_string())));
    assert_eq!(failed.content, "bad");
    assert!(failed.is_error);
}

#[test]
fn health_comes_from_the_environment() {
    let env = env();
    let health = ToolBridge::new(&Calculator, &env).health_check();
    assert!(health.healthy);
    assert_eq!(health.name, "calc");
    assert_eq!(health.version, "1.2.3");
}

#[test]
fn a_configuration_update_reaches_the_callback() {
    let seen: Arc<Mutex<Vec<HashMap<String, String>>>> = Arc::new(Mutex::new(Vec::new()));
    let sink = seen.clone();
    let app = NeboApp::new(env())
        .unwrap()
        .register_tool(Calculator)
        .on_configure(move |values: HashMap<String, String>| sink.lock().unwrap().push(values));
    let mut update = HashMap::new();
    update.insert("precision".to_string(), "2".to_string());
    app.tool().unwrap().configure(update.clone());
    assert_eq!(*seen.lock().unwrap(), vec![update]);
}

#[test]
fn a_configuration_update_without_a_callback_is_dropped() {
    let app = NeboApp::new(env()).unwrap().register_tool(Calculator);
    let mut update = HashMap::new();
    update.insert("precision".to_string(), "2".to_string());
    app.tool().unwrap().configure(update);
    let env = env();
    ToolBridge::new(&Calculator, &env).configure(HashMap::new());
}
