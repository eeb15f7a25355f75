use bonbo_executor::idempotency::IdempotencyTracker;
use bonbo_executor::mcp::{
    extract_port, method_not_found, rate_limited_error, route_method, validate_tool_call, McpMethod,
    RateLimiter,
};
use bonbo_executor::registry::{
    data_dir_under, join_tool_lists, ExtendError, PluginContext, PluginMetadata, PluginRegistry, ToolPlugin, ToolSchema,
};

struct MockPlugin {
    metadata: PluginMetadata,
    tools: Vec<ToolSchema>,
}

impl MockPlugin {
    fn new(id: &str, tool_names: &[&str]) -> Self {
        let tools = tool_names
            .iter()
            .map(|&name| ToolSchema {
                name: name.to_string(),
                description: format!("Mock tool: {}", name),
                parameters: vec![],
            })
            .collect();
        MockPlugin {
            metadata: PluginMetadata {
                id: id.to_string(),
                name: format!("Mock Plugin ({})", id),
                version: "0.1.0".to_string(),
                description: "A mock plugin for testing".to_string(),
                author: "Test".to_string(),
                tags: vec!["test".to_string()],
            },
            tools,
        }
    }
}

impl ToolPlugin for MockPlugin {
    fn metadata(&self) -> &PluginMetadata {
        &self.metadata
    }

    fn tools(&self) -> Vec<ToolSchema> {
        self.tools.clone()
    }
}

fn registry() -> PluginRegistry<MockPlugin> {
    PluginRegistry::with_data_dir("/tmp/data".to_string())
}

// ── Plugin registry ────────────────────────────────────────────

#[test]
fn test_register_plugin() {
    let mut registry = registry();
    let plugin = MockPlugin::new("test-plugin", &["tool_a", "tool_b"]);
    assert!(registry.register_tool_plugin(plugin).is_ok());
    assert_eq!(registry.plugin_count(), 1);
    assert_eq!(registry.tool_count(), 2);
}

#[test]
fn test_duplicate_plugin() {
    let mut registry = registry();
    let plugin1 = MockPlugin::new("test-plugin", &["tool_a"]);
    let plugin2 = MockPlugin::new("test-plugin", &["tool_b"]);
    assert!(registry.register_tool_plugin(plugin1).is_ok());
    match registry.register_tool_plugin(plugin2) {
        Err(ExtendError::PluginAlreadyRegistered(id)) => assert_eq!(id, "test-plugin"),
        other => panic!("unexpected {:?}", other.is_ok()),
    }
    assert!(!registry.has_tool("tool_b"));
    assert_eq!(registry.plugin_count(), 1);
}

#[test]
fn test_has_tool() {
    let mut registry = registry();
    let plugin = MockPlugin::new("test-plugin", &["tool_a", "tool_b"]);
    registry.register_tool_plugin(plugin).unwrap();
    assert!(registry.has_tool("tool_a"));
    assert!(registry.has_tool("tool_b"));
    assert!(!registry.has_tool("tool_c"));
}

#[test]
fn test_all_tool_schemas() {
    let mut registry = registry();
    registry.register_tool_plugin(MockPlugin::new("p1", &["tool_a"])).unwrap();
    registry.register_tool_plugin(MockPlugin::new("p2", &["tool_b"])).unwrap();
    let schemas = registry.all_tool_schemas();
    assert_eq!(schemas.len(), 2);
    assert_eq!(schemas[0].name, "tool_a");
    assert_eq!(schemas[1].name, "tool_b");
}

#[test]
fn first_plugin_keeps_a_shared_tool_name() {
    let mut registry = registry();
    registry.register_tool_plugin(MockPlugin::new("p1", &["shared", "a"])).unwrap();
    registry.register_tool_plugin(MockPlugin::new("p2", &["shared", "b"])).unwrap();
    assert_eq!(registry.tool_count(), 3);
    let (_, ctx) = registry.resolve_tool("shared").ok().unwrap();
    assert_eq!(ctx.plugin_id, "p1");
    let (plugin, ctx) = registry.resolve_tool("b").ok().unwrap();
    assert_eq!(ctx.plugin_id, "p2");
    assert_eq!(plugin.metadata().id, "p2");
    assert_eq!(ctx.data_dir, "/tmp/data");
}

#[test]
fn resolving_an_unknown_tool_fails() {
    let registry = registry();
    assert!(matches!(registry.resolve_tool("unknown"), Err(ExtendError::PluginNotFound(_))));
}

#[test]
fn list_plugins_in_order() {
    let mut registry = registry();
    registry.register_tool_plugin(MockPlugin::new("p1", &[])).unwrap();
    registry.register_tool_plugin(MockPlugin::new("p2", &["x"])).unwrap();
    let list = registry.list_plugins();
    assert_eq!(list.len(), 2);
    assert_eq!(list[0].id, "p1");
    assert_eq!(list[1].id, "p2");
}

#[test]
fn plugin_context_holds_its_values() {
    let ctx = PluginContext::new("/var/lib".to_string(), "plug");
    assert_eq!(ctx.data_dir, "/var/lib");
    assert_eq!(ctx.plugin_id, "plug");
}

#[test]
fn default_registry_is_empty() {
    let r: PluginRegistry<MockPlugin> = PluginRegistry::new();
    assert_eq!(r.plugin_count(), 0);
    assert_eq!(r.tool_count(), 0);
}

// ── Server decisions ───────────────────────────────────────────

#[test]
fn test_extract_port_with_flag() {
    let args = vec!["prog".to_string(), "--port".to_string(), "9876".to_string()];
    assert_eq!(extract_port(&args), Some(9876));
}

#[test]
fn test_extract_port_with_equals() {
    let args = vec!["prog".to_string(), "--port=8080".to_string()];
    assert_eq!(extract_port(&args), Some(8080));
}

#[test]
fn test_extract_port_missing() {
    let args = vec!["prog".to_string()];
    assert_eq!(extract_port(&args), None);
}

#[test]
fn test_extract_port_invalid() {
    let args = vec!["prog".to_string(), "--port".to_string(), "abc".to_string()];
    assert_eq!(extract_port(&args), None);
}

#[test]
fn extract_port_short_flag_and_edges() {
    let short = vec!["prog".to_string(), "-p".to_string(), "3000".to_string()];
    assert_eq!(extract_port(&short), Some(3000));
    let dangling = vec!["prog".to_string(), "--port".to_string()];
    assert_eq!(extract_port(&dangling), None);
    let too_big = vec!["prog".to_string(), "--port=70000".to_string()];
    assert_eq!(extract_port(&too_big), None);
    let first_wins = vec!["--port=1".to_string(), "--port=2".to_string()];
    assert_eq!(extract_port(&first_wins), Some(1));
}

#[test]
fn routes_methods() {
    assert_eq!(route_method("initialize"), McpMethod::Initialize);
    assert_eq!(route_method("tools/list"), McpMethod::ToolsList);
    assert_eq!(route_method("tools/call"), McpMethod::ToolsCall);
    assert_eq!(route_method("ping"), McpMethod::Ping);
    assert_eq!(route_method("resources/list"), McpMethod::NotFound);
    let e = method_not_found("resources/list");
    assert_eq!(e.code, -32601);
    assert_eq!(e.message, "Method not found: resources/list");
}

#[test]
fn validates_tool_calls() {
    let tools = vec![ToolSchema { name: "hello".to_string(), description: String::new(), parameters: vec![] }];
    assert!(validate_tool_call("hello", &tools).is_none());
    let missing = validate_tool_call("", &tools).unwrap();
    assert_eq!(missing.code, -32602);
    assert_eq!(missing.message, "Missing tool name");
    let unknown = validate_tool_call("bye", &tools).unwrap();
    assert_eq!(unknown.code, -32602);
    assert_eq!(unknown.message, "Unknown tool: bye");
    let limited = rate_limited_error("hello");
    assert_eq!(limited.code, -32000);
    assert_eq!(limited.message, "Rate limited: hello \u{2014} too many requests");
}

#[test]
fn test_rate_limiter_allows_under_limit() {
    let mut limiter = RateLimiter::new(5);
    for i in 0..5u64 {
        assert!(limiter.check("test_tool", 1_000 + i));
    }
}

#[test]
fn test_rate_limiter_blocks_over_limit() {
    let mut limiter = RateLimiter::new(3);
    assert!(limiter.check("tool_a", 1_000));
    assert!(limiter.check("tool_a", 1_001));
    assert!(limiter.check("tool_a", 1_002));
    assert!(!limiter.check("tool_a", 1_003)); // the fourth is blocked
}

#[test]
fn test_rate_limiter_per_tool_isolation() {
    let mut limiter = RateLimiter::new(1);
    assert!(limiter.check("tool_a", 1_000));
    assert!(limiter.check("tool_b", 1_000)); // a different tool passes
    assert!(!limiter.check("tool_a", 1_001)); // the same tool is blocked
}

#[test]
fn rate_limiter_window_slides() {
    let mut limiter = RateLimiter::new(1);
    assert!(limiter.check("t", 0));
    assert!(!limiter.check("t", 59_999));
    assert!(limiter.check("t", 60_000));
}

// ── Duplicate-order guard ──────────────────────────────────────

#[test]
fn test_claim_first_use() {
    let mut tracker = IdempotencyTracker::new(100);
    assert!(tracker.claim("order-1"));
    assert!(!tracker.claim("order-1")); // duplicate
    assert!(tracker.claim("order-2")); // new
}

#[test]
fn test_eviction() {
    let mut tracker = IdempotencyTracker::new(2);
    tracker.claim("a");
    tracker.claim("b");
    tracker.claim("c"); // evicts "a"
    assert_eq!(tracker.len(), 2);
    assert!(!tracker.contains("a"));
    assert!(tracker.contains("b"));
    assert!(tracker.contains("c"));
    assert!(tracker.claim("a"));
}

#[test]
fn default_tracker_is_empty() {
    let tracker = IdempotencyTracker::default();
    assert_eq!(tracker.len(), 0);
}

#[test]
fn data_dir_is_bonbo_under_the_platform_dir() {
    assert_eq!(data_dir_under(None), "./bonbo");
    assert_eq!(data_dir_under(Some("/home/u/.local/share".to_string())), "/home/u/.local/share/bonbo");
    assert_eq!(data_dir_under(Some("/tmp/".to_string())), "/tmp/bonbo");
    assert_eq!(data_dir_under(Some(String::new())), "bonbo");
    assert_eq!(data_dir_under(Some("/ü".to_string())), "/ü/bonbo");
}

#[test]
fn registration_history_counts_new_names_once() {
    let mut registry = registry();
    registry.register_tool_plugin(MockPlugin::new("p1", &["a", "b"])).unwrap();
    assert_eq!(registry.tool_count(), 2);
    // "b" is taken already: only "c" is new
    registry.register_tool_plugin(MockPlugin::new("p2", &["b", "c", "c"])).unwrap();
    assert_eq!(registry.tool_count(), 3);
    assert_eq!(registry.plugin_count(), 2);
    // a refused registration changes nothing
    assert!(registry.register_tool_plugin(MockPlugin::new("p1", &["d"])).is_err());
    assert_eq!(registry.tool_count(), 3);
    assert_eq!(registry.plugin_count(), 2);
    assert!(!registry.has_tool("d"));
    assert_eq!(registry.resolve_tool("b").unwrap().1.plugin_id, "p1");
    assert_eq!(registry.resolve_tool("c").unwrap().1.plugin_id, "p2");
    let ids: Vec<&str> = registry.list_plugins().iter().map(|m| m.id.as_str()).collect();
    assert_eq!(ids, vec!["p1", "p2"]);
}

#[test]
fn parse_of_port_refuses_a_minus_sign() {
    let args = vec!["prog".to_string(), "--port".to_string(), "-0".to_string()];
    assert_eq!(bonbo_executor::mcp::extract_port(&args), None);
    let args = vec!["prog".to_string(), "--port=+8080".to_string()];
    assert_eq!(bonbo_executor::mcp::extract_port(&args), Some(8080));
}

#[test]
fn tool_lists_join_in_order() {
    let schema = |n: &str| ToolSchema { name: n.to_string(), description: String::new(), parameters: vec![] };
    let joined = join_tool_lists(vec![vec![schema("a"), schema("b")], vec![], vec![schema("c")]]);
    let names: Vec<&str> = joined.iter().map(|s| s.name.as_str()).collect();
    assert_eq!(names, vec!["a", "b", "c"]);
    assert!(join_tool_lists(vec![]).is_empty());
}
