use llm_tui::domain::{Capabilities, ImageContent, Message, Role, Timestamp, ToolCall, ToolDefinition};
use llm_tui::tools::{
    ListDirectoryTool, ReadFileTool, ShellTool, ToolExecutor, ToolRegistry, WriteFileTool,
};

fn call(name: &str, arguments: &str) -> ToolCall {
    ToolCall {
        id: "test-1".to_string(),
        name: name.to_string(),
        arguments: arguments.to_string(),
    }
}

#[test]
fn tool_definition_has_correct_schema() {
    let tool = ShellTool;
    let def = tool.definition();

    assert_eq!(def.name, "shell");
    assert!(!def.description.is_empty());
    let params: serde_json::Value = serde_json::from_str(&def.parameters).unwrap();
    assert!(params.is_object());
    assert!(params["properties"]["command"].is_object());
}

#[test]
fn all_builtin_tools_have_definitions() {
    let tools: Vec<Box<dyn ToolExecutor>> = vec![
        Box::new(ShellTool),
        Box::new(ReadFileTool),
        Box::new(WriteFileTool),
        Box::new(ListDirectoryTool),
    ];

    for tool in tools {
        let def: ToolDefinition = tool.definition();
        assert!(!def.name.is_empty());
        assert!(!def.description.is_empty());
        let params: serde_json::Value = serde_json::from_str(&def.parameters).unwrap();
        assert!(params.is_object());
    }
}

#[test]
fn capabilities_supports_feature() {
    let caps = Capabilities {
        streaming: true,
        tool_calling: true,
        vision: true,
        ..Default::default()
    };

    assert!(caps.supports_feature("streaming"));
    assert!(caps.supports_feature("tool_calling"));
    assert!(caps.supports_feature("tools")); // alias
    assert!(caps.supports_feature("vision"));
    assert!(caps.supports_feature("image_input")); // alias
    assert!(!caps.supports_feature("reasoning"));
    assert!(!caps.supports_feature("embeddings"));
}

#[test]
fn capabilities_default_values() {
    let caps = Capabilities::default();

    assert!(!caps.streaming);
    assert!(!caps.tool_calling);
    assert!(!caps.vision);
    assert!(!caps.reasoning);
}

#[test]
fn capabilities_unknown_feature_is_unsupported() {
    let caps = Capabilities {
        streaming: true,
        tools: true,
        image_input: true,
        reasoning: true,
        embeddings: true,
        ..Default::default()
    };
    assert!(caps.supports_feature("tools"));
    assert!(caps.supports_feature("tool_calling"));
    assert!(caps.supports_feature("image_input"));
    assert!(caps.supports_feature("vision"));
    assert!(caps.supports_feature("reasoning"));
    assert!(caps.supports_feature("embeddings"));
    assert!(!caps.supports_feature("telepathy"));
    assert!(!caps.supports_feature(""));
}

#[test]
fn image_content_creation() {
    let image = ImageContent {
        url: "data:image/png;base64,abc123".to_string(),
        detail: Some("high".to_string()),
    };

    assert_eq!(image.url, "data:image/png;base64,abc123");
    assert_eq!(image.detail, Some("high".to_string()));
}

#[test]
fn message_with_images() {
    let msg = Message {
        id: 1,
        conversation_id: 2,
        parent_id: None,
        role: Role::User,
        content: "What's in this image?".to_string(),
        reasoning_content: None,
        tool_calls: None,
        tool_call_id: None,
        images: Some(vec![ImageContent {
            url: "data:image/png;base64,test".to_string(),
            detail: None,
        }]),
        metadata: "{}".to_string(),
        created_at: at(0),
    };

    assert!(msg.images.is_some());
    assert_eq!(msg.images.as_ref().unwrap().len(), 1);
}

#[test]
fn arguments_are_read_as_json_strings_only() {
    let tool = ShellTool;
    assert_eq!(tool.command(&call("shell", "{\"command\":\"echo hi\"}")).ok(), Some("echo hi".to_string()));
    assert_eq!(tool.command(&call("shell", "{ \"command\" : \"a\\nb\" }")).ok(), Some("a\nb".to_string()));
    assert!(tool.command(&call("shell", "{\"command\":3}")).is_err());
    assert!(tool.command(&call("shell", "{}")).is_err());
    assert!(tool.command(&call("shell", "\"not an object\"")).is_err());
    assert!(tool.command(&call("shell", "not json")).is_err());
}

#[test]
fn shell_tool_reads_command_or_reports_missing() {
    let tool = ShellTool;
    match tool.command(&call("shell", "{\"command\":\"echo hello\"}")) {
        Ok(c) => assert_eq!(c, "echo hello"),
        Err(_) => panic!("command expected"),
    }
    match tool.command(&call("shell", "{}")) {
        Ok(_) => panic!("missing command expected"),
        Err(r) => {
            assert!(r.is_error);
            assert_eq!(r.call_id, "test-1");
            assert_eq!(r.output, "Missing 'command' argument");
        }
    }
    match tool.command(&call("shell", "\"not an object\"")) {
        Ok(_) => panic!("missing command expected"),
        Err(r) => assert!(r.output.contains("Missing")),
    }
}

#[test]
fn shell_tool_outputs() {
    let tool = ShellTool;
    let c = call("shell", "{}");
    let ok = tool.finished(&c, true, Some(0), "hello\n", "");
    assert!(!ok.is_error);
    assert_eq!(ok.output, "hello\n");
    let warn = tool.finished(&c, true, Some(0), "out", "warning");
    assert_eq!(warn.output, "out\nwarning");
    let failed = tool.finished(&c, false, Some(2), "out", "err");
    assert!(failed.is_error);
    assert_eq!(failed.output, "Command failed with exit code Some(2)\nout\nerr");
    let killed = tool.finished(&c, false, None, "", "");
    assert_eq!(killed.output, "Command failed with exit code None\n\n");
    assert_eq!(tool.spawn_failed(&c, "no sh").output, "Failed to execute command: no sh");
    assert_eq!(tool.task_failed(&c, "panicked").output, "Task failed: panicked");
}

#[test]
fn exit_code_prints_like_debug() {
    let tool = ShellTool;
    let c = call("shell", "{}");
    assert_eq!(tool.finished(&c, false, Some(1), "", "").output, "Command failed with exit code Some(1)\n\n");
    assert_eq!(tool.finished(&c, false, Some(-9), "", "").output, "Command failed with exit code Some(-9)\n\n");
}

#[test]
fn read_file_tool_results() {
    let tool = ReadFileTool;
    let c = call("read_file", "{\"path\":\"/tmp/x.txt\"}");
    match tool.path(&c) {
        Ok(p) => assert_eq!(p, "/tmp/x.txt"),
        Err(_) => panic!("path expected"),
    }
    match tool.path(&call("read_file", "{}")) {
        Ok(_) => panic!("missing path expected"),
        Err(r) => assert_eq!(r.output, "Missing 'path' argument"),
    }
    let ok = tool.finished(&c, Ok("test content".to_string()));
    assert!(!ok.is_error);
    assert_eq!(ok.output, "test content");
    let err = tool.finished(&c, Err("No such file".to_string()));
    assert!(err.is_error);
    assert_eq!(err.output, "Failed to read file: No such file");
}

#[test]
fn write_file_tool_results() {
    let tool = WriteFileTool;
    let c = call("write_file", "{\"path\":\"out.txt\",\"content\":\"new content\"}");
    match tool.target(&c) {
        Ok((p, body)) => {
            assert_eq!(p, "out.txt");
            assert_eq!(body, "new content");
        }
        Err(_) => panic!("target expected"),
    }
    match tool.target(&call("write_file", "{\"content\":\"x\"}")) {
        Ok(_) => panic!("missing path expected"),
        Err(r) => assert_eq!(r.output, "Missing 'path' argument"),
    }
    match tool.target(&call("write_file", "{\"path\":\"x\"}")) {
        Ok(_) => panic!("missing content expected"),
        Err(r) => assert_eq!(r.output, "Missing 'content' argument"),
    }
    let ok = tool.finished(&c, "out.txt", Ok(()));
    assert!(!ok.is_error);
    assert_eq!(ok.output, "Successfully wrote to out.txt");
    let err = tool.finished(&c, "out.txt", Err("denied".to_string()));
    assert!(err.is_error);
    assert_eq!(err.output, "Failed to write file: denied");
}

#[test]
fn list_directory_tool_sorts_and_marks_directories() {
    let tool = ListDirectoryTool;
    let c = call("list_directory", "{}");
    assert_eq!(tool.path(&c), ".");
    assert_eq!(tool.path(&call("list_directory", "{\"path\":\"src\"}")), "src");
    let entries = vec![
        ("file2.txt".to_string(), false),
        ("subdir".to_string(), true),
        ("file1.txt".to_string(), false),
    ];
    let r = tool.listing(&c, &entries);
    assert!(!r.is_error);
    assert_eq!(r.call_id, "test-1");
    assert_eq!(r.output, "file1.txt\nfile2.txt\nsubdir/");
    assert_eq!(tool.listing(&c, &Vec::new()).output, "");
    let err = tool.failed(&c, "not a directory");
    assert!(err.is_error);
    assert_eq!(err.output, "Failed to list directory: not a directory");
}

#[test]
fn listing_orders_by_code_point() {
    let tool = ListDirectoryTool;
    let c = call("list_directory", "{}");
    let entries = vec![
        ("b".to_string(), false),
        ("B".to_string(), false),
        ("a".to_string(), true),
        ("ab".to_string(), false),
    ];
    assert_eq!(tool.listing(&c, &entries).output, "B\na/\nab\nb");
}

#[test]
fn tool_registry_register_and_execute() {
    let mut registry: ToolRegistry<u32> = ToolRegistry::new();
    assert!(registry.definitions().is_empty());
    registry.register(ShellTool.definition(), 1);
    let defs = registry.definitions();
    assert_eq!(defs.len(), 1);
    assert_eq!(defs[0].name, "shell");
}

#[test]
fn tool_registry_execute_nonexistent_tool() {
    let registry: ToolRegistry<u32> = ToolRegistry::default();
    match registry.route(&call("nonexistent", "{}")) {
        Ok(_) => panic!("nothing is registered"),
        Err(result) => {
            assert!(result.is_error);
            assert!(result.output.contains("not found"));
        }
    }
}

#[test]
fn tool_registry_multiple_tools() {
    let mut registry: ToolRegistry<u32> = ToolRegistry::new();
    registry.register(ShellTool.definition(), 1);
    registry.register(ReadFileTool.definition(), 2);
    registry.register(WriteFileTool.definition(), 3);
    registry.register(ListDirectoryTool.definition(), 4);
    assert_eq!(registry.definitions().len(), 4);
}

#[test]
fn shell_tool_missing_command_argument() {
    let result = ShellTool.command(&call("shell", "{}")).unwrap_err();
    assert!(result.is_error);
    assert!(result.output.contains("Missing 'command'"));
}

#[test]
fn shell_tool_invalid_json_arguments() {
    let result = ShellTool.command(&call("shell", "\"not an object\""));
    match result {
        Ok(_) => panic!("a string is no argument object"),
        Err(r) => assert!(r.output.contains("Missing")),
    }
}

#[test]
fn tool_registry_routes_calls() {
    let mut registry: ToolRegistry<u32> = ToolRegistry::new();
    registry.register(ShellTool.definition(), 1);
    registry.register(ReadFileTool.definition(), 2);
    match registry.route(&call("read_file", "{}")) {
        Ok(t) => assert_eq!(*t, 2),
        Err(_) => panic!("read_file is registered"),
    }
    match registry.route(&call("nonexistent", "{}")) {
        Ok(_) => panic!("nothing is registered under that name"),
        Err(r) => {
            assert!(r.is_error);
            assert_eq!(r.call_id, "test-1");
            assert_eq!(r.output, "Error: Tool 'nonexistent' not found");
            assert!(r.output.contains("not found"));
        }
    }
}

#[test]
fn tool_registry_replaces_same_name() {
    let mut registry: ToolRegistry<u32> = ToolRegistry::new();
    registry.register(ShellTool.definition(), 1);
    registry.register(ShellTool.definition(), 5);
    assert_eq!(registry.definitions().len(), 1);
    match registry.route(&call("shell", "{}")) {
        Ok(t) => assert_eq!(*t, 5),
        Err(_) => panic!("shell is registered"),
    }
}

#[test]
fn registering_a_name_again_keeps_the_last_definition() {
    let def = |name: &str, description: &str| ToolDefinition {
        name: name.to_string(),
        description: description.to_string(),
        parameters: "{}".to_string(),
    };
    let mut registry: ToolRegistry<u32> = ToolRegistry::new();
    registry.register(def("a", "first"), 1);
    registry.register(def("b", "other"), 2);
    registry.register(def("a", "second"), 3);
    let mut defs = registry.definitions();
    defs.sort_by(|x, y| x.name.cmp(&y.name));
    assert_eq!(defs.len(), 2);
    assert_eq!(defs[0].name, "a");
    assert_eq!(defs[0].description, "second");
    assert_eq!(defs[1].name, "b");
    assert_eq!(defs[1].description, "other");
    assert_eq!(registry.route(&call("a", "{}")).ok(), Some(&3));
}

fn at(secs: i64) -> Timestamp {
    Timestamp { secs, nanos: 0 }
}
