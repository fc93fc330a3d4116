use goldberg_drop::sendto::SendToState;
use goldberg_drop::single_instance::IpcCommand;
use serde_json::Value;

fn opt_text(v: &Option<String>) -> Value {
    match v {
        Some(s) => Value::String(s.clone()),
        None => Value::Null,
    }
}

fn state_json(s: &SendToState) -> String {
    let mut m = serde_json::Map::new();
    m.insert("enabled".to_string(), Value::Bool(s.enabled));
    m.insert("registered_exe".to_string(), opt_text(&s.registered_exe));
    Value::Object(m).to_string()
}

fn state_from_json(text: &str) -> SendToState {
    let v: Value = serde_json::from_str(text).unwrap();
    SendToState {
        enabled: v["enabled"].as_bool().unwrap(),
        registered_exe: v["registered_exe"].as_str().map(|s| s.to_string()),
    }
}

fn ipc_json(c: &IpcCommand) -> String {
    let mut m = serde_json::Map::new();
    m.insert("greenluma".to_string(), Value::Bool(c.greenluma));
    m.insert("path".to_string(), opt_text(&c.path));
    m.insert("show".to_string(), Value::Bool(c.show));
    Value::Object(m).to_string()
}

fn ipc_from_json(text: &str) -> IpcCommand {
    let v: Value = serde_json::from_str(text).unwrap();
    IpcCommand {
        greenluma: v["greenluma"].as_bool().unwrap(),
        path: v["path"].as_str().map(|s| s.to_string()),
        show: v["show"].as_bool().unwrap(),
    }
}

#[test]
fn state_round_trips_through_json() {
    let state = SendToState {
        enabled: true,
        registered_exe: Some(r"C:\Games\Foo\GoldbergDrop.exe".to_string()),
    };
    let json = state_json(&state);
    let parsed = state_from_json(&json);
    assert_eq!(parsed.enabled, state.enabled);
    assert_eq!(parsed.registered_exe, state.registered_exe);
}

#[test]
fn ipc_round_trip_json() {
    let cmd = IpcCommand {
        greenluma: true,
        path: Some(r"C:\Games\foo.exe".to_string()),
        show: true,
    };
    let json = ipc_json(&cmd);
    let parsed = ipc_from_json(&json);
    assert!(parsed.greenluma);
    assert_eq!(parsed.path, cmd.path);
}
