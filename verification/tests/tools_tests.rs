use rob::json::{JsonNumber, JsonValue};
use rob::tools::{
    command_output, decorate_parameter_schema, digital_life_mock_command, file_manager_request,
    is_allowed_command, listing_options, normalize_smart_home_args, read_file_request,
    required_fields, route_tool, search_request, shell_request, should_skip, shows_entry,
    select_tool_specs, smart_home_command, string_array_arg, tool, tool_context_prompt, tool_specs,
    tool_specs_by_name, truncate,
    FileAction, ToolError, ToolRoute,
};

fn object(entries: Vec<(&str, JsonValue)>) -> JsonValue {
    JsonValue::Object(entries.into_iter().map(|(k, v)| (k.to_string(), v)).collect())
}

fn text(s: &str) -> JsonValue {
    JsonValue::String(s.to_string())
}

fn num(v: i64) -> JsonValue {
    JsonValue::Number(JsonNumber::from_i64(v))
}

fn field_i64(v: &JsonValue, key: &str) -> Option<i64> {
    v.get(key).and_then(|x| x.as_i64())
}

#[test]
fn shell_exec_rejects_non_allowlisted_command() {
    let result = shell_request(&object(vec![
        ("command", text("sh")),
        ("args", JsonValue::Array(vec![text("-c"), text("echo no")])),
    ]));

    assert!(result.is_err());
}

#[test]
fn shell_requests_are_checked_and_bounded() {
    let ok = shell_request(&object(vec![
        ("command", text("uname")),
        ("args", JsonValue::Array(vec![text("-a")])),
        ("timeout_ms", num(50)),
    ]))
    .unwrap();
    assert_eq!(ok.command, "uname");
    assert_eq!(ok.args, vec!["-a"]);
    assert_eq!(ok.timeout_ms, 100);
    let default = shell_request(&object(vec![("command", text("ls"))])).unwrap();
    assert!(default.args.is_empty());
    assert_eq!(default.timeout_ms, 3000);
    let missing = shell_request(&object(vec![])).unwrap_err();
    assert_eq!(missing.to_string(), "missing string argument `command`");
    let bad = shell_request(&object(vec![("command", text("ls")), ("args", text("-l"))])).unwrap_err();
    assert_eq!(bad.to_string(), "argument `args` must be an array");
    let mixed = shell_request(&object(vec![
        ("command", text("ls")),
        ("args", JsonValue::Array(vec![num(1)])),
    ]))
    .unwrap_err();
    assert_eq!(mixed.to_string(), "argument `args` items must be strings");
    let denied = shell_request(&object(vec![("command", text("rm")), ("args", JsonValue::Array(vec![]))])).unwrap_err();
    assert_eq!(denied.to_string(), "command `rm` is not in the allowlist");
    assert!(is_allowed_command("env"));
    assert!(!is_allowed_command("bash"));
}

#[test]
fn smart_home_tool_returns_normalized_payload() {
    let payload = smart_home_command(
        "smart_home_control_scene",
        object(vec![
            ("tool_title", text("打开回家模式")),
            ("scene_name", text("回家模式")),
            ("action", text("activate")),
        ]),
    );

    assert_eq!(payload.get("status").and_then(|v| v.as_str()), Some("accepted"));
    let command = payload.get("command").unwrap();
    assert_eq!(command.get("scene_name").and_then(|v| v.as_str()), Some("回家模式"));
}

#[test]
fn smart_home_light_normalizes_common_kelvin_short_forms() {
    let set = smart_home_command(
        "smart_home_control_light_temperature",
        object(vec![
            ("tool_title", text("设置色温")),
            ("action", text("set_color_temperature")),
            ("color_temperature_kelvin", num(400)),
        ]),
    );
    let tone = smart_home_command(
        "smart_home_control_light_temperature",
        object(vec![
            ("tool_title", text("设置冷光")),
            ("action", text("set_light_tone")),
            ("light_tone", text("cool")),
            ("color_temperature_kelvin", num(600)),
        ]),
    );
    let delta = smart_home_command(
        "smart_home_control_light_temperature",
        object(vec![
            ("tool_title", text("调大色温")),
            ("action", text("increase_color_temperature")),
            ("delta_kelvin", num(120)),
        ]),
    );

    assert_eq!(field_i64(set.get("command").unwrap(), "color_temperature_kelvin"), Some(4000));
    assert_eq!(field_i64(tone.get("command").unwrap(), "color_temperature_kelvin"), Some(6000));
    assert_eq!(field_i64(delta.get("command").unwrap(), "delta_kelvin"), Some(1200));
}

#[test]
fn smart_home_normalizes_default_control_values() {
    let volume = smart_home_command(
        "smart_home_control_speaker",
        object(vec![("tool_title", text("调大音量")), ("action", text("increase_volume"))]),
    );
    let mute = smart_home_command(
        "smart_home_control_speaker",
        object(vec![("tool_title", text("扬声器静音")), ("action", text("mute"))]),
    );
    let brightness = smart_home_command(
        "smart_home_control_light",
        object(vec![("tool_title", text("调亮灯光")), ("action", text("increase_brightness"))]),
    );
    let temperature = smart_home_command(
        "smart_home_control_light_temperature",
        object(vec![("tool_title", text("调冷灯光")), ("action", text("increase_color_temperature"))]),
    );

    assert_eq!(field_i64(volume.get("command").unwrap(), "delta_percent"), Some(10));
    assert_eq!(field_i64(mute.get("command").unwrap(), "volume_percent"), Some(0));
    assert_eq!(field_i64(brightness.get("command").unwrap(), "delta_percent"), Some(20));
    assert_eq!(field_i64(temperature.get("command").unwrap(), "delta_kelvin"), Some(500));
}

#[test]
fn normalization_keeps_given_values_and_is_idempotent() {
    let mut args = object(vec![
        ("action", text("increase_brightness")),
        ("delta_percent", num(35)),
    ]);
    normalize_smart_home_args("smart_home_control_light", &mut args);
    assert_eq!(field_i64(&args, "delta_percent"), Some(35));

    let mut warm = object(vec![("action", text("set_light_tone")), ("light_tone", text("warm"))]);
    normalize_smart_home_args("smart_home_control_light", &mut warm);
    assert_eq!(field_i64(&warm, "color_temperature_kelvin"), Some(3000));
    let once = warm.deep_clone();
    normalize_smart_home_args("smart_home_control_light", &mut warm);
    assert_eq!(format!("{warm:?}"), format!("{once:?}"));

    let mut null_default = object(vec![("action", text("mute")), ("volume_percent", JsonValue::Null)]);
    normalize_smart_home_args("smart_home_control_speaker", &mut null_default);
    assert_eq!(field_i64(&null_default, "volume_percent"), Some(0));

    let mut not_object = text("x");
    normalize_smart_home_args("smart_home_control_speaker", &mut not_object);
    assert_eq!(not_object.as_str(), Some("x"));
}

#[test]
fn digital_life_mock_tools_return_normalized_payload() {
    let payload = digital_life_mock_command(
        "digital_media_control",
        object(vec![
            ("tool_title", text("投屏到客厅电视")),
            ("action", text("cast_to_device")),
            ("target_device", text("客厅电视")),
        ]),
    );

    assert_eq!(payload.get("status").and_then(|v| v.as_str()), Some("accepted"));
    assert_eq!(payload.get("tool").and_then(|v| v.as_str()), Some("digital_media_control"));
    assert_eq!(
        payload.get("command").and_then(|c| c.get("target_device")).and_then(|v| v.as_str()),
        Some("客厅电视")
    );
}

#[test]
fn schemas_get_a_required_tool_title() {
    let schema = object(vec![
        ("type", text("object")),
        ("properties", object(vec![("command", object(vec![("type", text("string"))]))])),
        ("required", JsonValue::Array(vec![text("command"), text("args")])),
    ]);
    let decorated = decorate_parameter_schema(schema);
    let required: Vec<String> = required_fields(&decorated);
    assert_eq!(required, vec!["tool_title", "command", "args"]);
    assert!(decorated.get("properties").unwrap().get("tool_title").is_some());
    let twice = decorate_parameter_schema(decorated.deep_clone());
    assert_eq!(format!("{twice:?}"), format!("{decorated:?}"));

    let bare = decorate_parameter_schema(object(vec![]));
    assert_eq!(required_fields(&bare), vec!["tool_title"]);
    let not_object = decorate_parameter_schema(text("x"));
    assert_eq!(not_object.as_str(), Some("x"));
}

#[test]
fn tool_context_prompt_lists_required_arguments() {
    let spec = tool(
        "shell_exec",
        "Run an allowlisted command.",
        object(vec![("required", JsonValue::Array(vec![text("command"), text("args")]))]),
    );
    let prompt = tool_context_prompt(&[spec]);
    assert!(prompt.starts_with("Tool usage context for this turn:\n"));
    assert!(prompt.contains("Tool arguments must strictly match"));
    assert!(prompt.contains("- `shell_exec`: Run an allowlisted command. Required: tool_title, command, args.\n"));
    assert!(prompt.contains(r#"{"command":"uname","args":["-a"],"timeout_ms":3000}"#));
}

#[test]
fn tools_are_looked_up_by_name() {
    let all = vec![
        tool("pwd", "Print the directory.", object(vec![])),
        tool("list_dir", "List a directory.", object(vec![])),
    ];
    let found = select_tool_specs(&all, &["list_dir", "pwd"]).unwrap();
    assert_eq!(found[0].function.name, "list_dir");
    assert_eq!(found[1].function.name, "pwd");
    assert_eq!(found[0].tool_type, "function");
    let error = select_tool_specs(&all, &["pwd", "nope", "other"]).unwrap_err();
    assert_eq!(error.to_string(), "unknown tool `nope` in agent definition");
}

#[test]
fn output_is_truncated_at_the_limit() {
    assert_eq!(truncate("short".to_string(), 10), "short");
    assert_eq!(truncate("abcdef".to_string(), 3), "abc\n[truncated]");
    assert_eq!(command_output(0, "out", "err"), "exit_code: 0\nstdout:\nout\nstderr:\nerr");
    assert_eq!(command_output(-1, "", ""), "exit_code: -1\nstdout:\n\nstderr:\n");
}

#[test]
fn tool_requests() {
    let search = search_request(&object(vec![("pattern", text("TODO")), ("max_results", num(500))])).unwrap();
    assert_eq!(search.path, ".");
    assert_eq!(search.max_results, 200);
    assert!(search_request(&object(vec![])).is_err());
    let (path, max) = read_file_request(&object(vec![("path", text("README.md"))])).unwrap();
    assert_eq!(path, "README.md");
    assert_eq!(max, 16384);
    let (action, path) = file_manager_request(&object(vec![
        ("action", text("list_directory")),
        ("path", text("~/docs")),
    ]))
    .unwrap();
    assert_eq!(action, FileAction::ListDirectory);
    assert_eq!(path, "~/docs");
    let unsupported = file_manager_request(&object(vec![("action", text("delete")), ("path", text("x"))])).unwrap_err();
    assert_eq!(unsupported.to_string(), "unsupported digital_file_manager action `delete`");
    assert!(matches!(
        file_manager_request(&object(vec![("action", text("delete"))])),
        Err(ToolError::MissingString(_))
    ));
    assert_eq!(listing_options(&object(vec![])), (false, 50));
    assert_eq!(listing_options(&object(vec![("include_hidden", JsonValue::Bool(true)), ("max_entries", num(0))])), (true, 1));
    assert!(shows_entry("a", false));
    assert!(!shows_entry(".a", false));
    assert!(shows_entry(".a", true));
    assert!(should_skip("node_modules"));
    assert!(!should_skip("src"));
    assert!(string_array_arg(&object(vec![]), "args").unwrap().is_empty());
}

#[test]
fn tools_are_routed_by_name() {
    assert_eq!(route_tool("pwd"), ToolRoute::Pwd);
    assert_eq!(route_tool("smart_home_control_power"), ToolRoute::SmartHome);
    assert_eq!(route_tool("digital_note_knowledge"), ToolRoute::DigitalLifeMock);
    assert_eq!(route_tool("digital_file_manager"), ToolRoute::FileManager);
    assert_eq!(route_tool("digital_video_playback"), ToolRoute::Unknown);
    assert_eq!(ToolError::UnknownTool("x".to_string()).to_string(), "unknown tool `x`");
}

fn find_spec<'a>(specs: &'a [rob::tools::ToolSpec], name: &str) -> &'a rob::tools::ToolSpec {
    specs.iter().find(|spec| spec.function.name == name).unwrap()
}

fn enum_values<'a>(parameters: &'a JsonValue, field: &str) -> &'a Vec<JsonValue> {
    match parameters
        .get("properties")
        .unwrap()
        .get(field)
        .unwrap()
        .get("enum")
        .unwrap()
    {
        JsonValue::Array(items) => items,
        other => panic!("not a list: {other:?}"),
    }
}

fn has_text(items: &[JsonValue], value: &str) -> bool {
    items.iter().any(|item| item.as_str() == Some(value))
}

fn has_number(items: &[JsonValue], value: u64) -> bool {
    items.iter().any(|item| item.as_u64() == Some(value))
}

#[test]
fn shell_exec_schema_requires_command_and_args() {
    let specs = tool_specs();
    let shell = find_spec(&specs, "shell_exec");
    let required = match shell.function.parameters.get("required").unwrap() {
        JsonValue::Array(items) => items,
        other => panic!("not a list: {other:?}"),
    };

    assert!(has_text(required, "tool_title"));
    assert!(has_text(required, "command"));
    assert!(has_text(required, "args"));
}

#[test]
fn smart_home_light_schema_exposes_locations_and_actions() {
    let specs = tool_specs();
    let light = find_spec(&specs, "smart_home_control_light");
    let parameters = &light.function.parameters;

    assert!(has_text(enum_values(parameters, "floor"), "一楼"));
    assert!(has_text(enum_values(parameters, "room"), "全屋"));
    assert!(has_text(enum_values(parameters, "action"), "set_color"));
    assert!(parameters
        .get("properties")
        .unwrap()
        .get("color_temperature_kelvin")
        .unwrap()
        .get("description")
        .unwrap()
        .as_str()
        .unwrap()
        .contains("不要写 300/400/600"));
}

#[test]
fn smart_home_temperature_schema_uses_full_kelvin_enums() {
    let specs = tool_specs();
    let temperature = find_spec(&specs, "smart_home_control_light_temperature");

    assert!(temperature.function.description.contains("never 100 or 400"));
    assert!(has_number(
        enum_values(&temperature.function.parameters, "delta_kelvin"),
        1200
    ));
    assert!(has_number(
        enum_values(&temperature.function.parameters, "color_temperature_kelvin"),
        4000
    ));
}

#[test]
fn tool_context_prompt_includes_schema_guidance() {
    let prompt = tool_context_prompt(&tool_specs());

    assert!(prompt.contains("Tool arguments must strictly match"));
    assert!(prompt.contains("tool_title"));
    assert!(prompt.contains("`shell_exec`"));
    assert!(prompt.contains("Required: tool_title, command, args"));
    assert!(prompt.contains(r#""command":"uname""#));
}

#[test]
fn digital_life_schemas_expose_grouped_actions() {
    let specs = tool_specs();
    let document = find_spec(&specs, "digital_document_workspace");
    let media = find_spec(&specs, "digital_media_control");

    assert!(has_text(enum_values(&document.function.parameters, "action"), "pdf_merge"));
    assert!(has_text(
        enum_values(&document.function.parameters, "action"),
        "ocr_extract_text"
    ));
    assert!(has_text(enum_values(&media.function.parameters, "action"), "cast_to_device"));
}

#[test]
fn builtin_tools_have_distinct_names_and_title_first() {
    let specs = tool_specs();
    assert_eq!(specs.len(), 18);
    for (i, a) in specs.iter().enumerate() {
        for b in &specs[i + 1..] {
            assert_ne!(a.function.name, b.function.name);
        }
        let required = required_fields(&a.function.parameters);
        assert_eq!(required[0], "tool_title");
    }
}

#[test]
fn builtin_tools_are_looked_up_by_name() {
    let found = tool_specs_by_name(&["shell_exec", "pwd"]).unwrap();
    assert_eq!(found[0].function.name, "shell_exec");
    assert_eq!(found[1].function.name, "pwd");
    assert_eq!(
        tool_specs_by_name(&["pwd", "missing"]).unwrap_err().to_string(),
        "unknown tool `missing` in agent definition"
    );
}

#[test]
fn builtin_tools_declare_a_string_title_required_once() {
    for spec in tool_specs() {
        assert_eq!(spec.tool_type, "function");
        let title_type = spec
            .function
            .parameters
            .get("properties")
            .unwrap()
            .get("tool_title")
            .unwrap()
            .get("type")
            .unwrap()
            .as_str();
        assert_eq!(title_type, Some("string"));
        let required = required_fields(&spec.function.parameters);
        assert_eq!(required.iter().filter(|name| *name == "tool_title").count(), 1);
    }
}
