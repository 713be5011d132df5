use codegraph::agent::{agent_json, AgentConfig, ContextTier};
use codegraph::config::{config_json, Settings};
use codegraph::estimate::{estimate_json, EmbeddingThroughputConfig, Estimate, EstimateFigures};
use codegraph::json::Json;
use codegraph::watch::DaemonStatus;

fn at<'a>(json: &'a Json, path: &[&str]) -> &'a Json {
    let mut here = json;
    for name in path {
        here = match here {
            Json::Object(fields) => &fields.iter().find(|(n, _)| n == name).unwrap().1,
            _ => panic!("no object"),
        };
    }
    here
}

fn names(json: &Json) -> Vec<&str> {
    match json {
        Json::Object(fields) => fields.iter().map(|(n, _)| n.as_str()).collect(),
        _ => panic!("no object"),
    }
}

fn text(s: &str) -> Json {
    Json::Text(s.to_string())
}

#[test]
fn the_agent_as_a_document() {
    let c = AgentConfig {
        provider: "lmstudio",
        model: None,
        enabled: true,
        context_window: 100_000,
        max_output_tokens: Some(77),
        tier: ContextTier::Medium,
    };
    let doc = agent_json(&c);
    assert_eq!(
        names(&doc),
        ["llm", "context", "orchestrator", "mcp_tools", "analysis_types"]
    );
    assert_eq!(at(&doc, &["llm", "provider"]), &text("lmstudio"));
    assert_eq!(at(&doc, &["llm", "model"]), &text("auto-detected"));
    assert_eq!(at(&doc, &["llm", "enabled"]), &Json::Bool(true));
    assert_eq!(at(&doc, &["context", "tier"]), &text("Medium"));
    assert_eq!(at(&doc, &["context", "window_size"]), &Json::Number(100_000));
    assert_eq!(at(&doc, &["context", "prompt_verbosity"]), &text("BALANCED"));
    assert_eq!(at(&doc, &["orchestrator", "max_steps"]), &Json::Number(10));
    assert_eq!(at(&doc, &["orchestrator", "base_search_limit"]), &Json::Number(25));
    assert_eq!(at(&doc, &["orchestrator", "cache_enabled"]), &Json::Bool(true));
    assert_eq!(at(&doc, &["orchestrator", "cache_size"]), &Json::Number(100));
    assert_eq!(at(&doc, &["orchestrator", "max_output_tokens"]), &Json::Number(77));
    assert_eq!(at(&doc, &["orchestrator", "max_output_tokens_source"]), &text("custom"));
    match at(&doc, &["mcp_tools"]) {
        Json::List(tools) => {
            assert_eq!(tools.len(), 7);
            assert_eq!(at(&tools[2], &["name"]), &text("vector_search"));
            assert_eq!(at(&tools[2], &["description"]), &text("Fast vector search (0.5s)"));
            assert_eq!(at(&tools[2], &["prompt_type"]), &text("BALANCED"));
        }
        _ => panic!("no list"),
    }
    match at(&doc, &["analysis_types"]) {
        Json::List(kinds) => {
            assert_eq!(kinds.len(), 7);
            assert_eq!(at(&kinds[6], &["name"]), &text("semantic_question"));
            assert_eq!(at(&kinds[6], &["prompt_type"]), &text("BALANCED"));
        }
        _ => panic!("no list"),
    }
}

#[test]
fn the_configuration_as_a_document() {
    let s = Settings {
        embedding_provider: "jina",
        embedding_model: Some("m1"),
        embedding_dimension: 384,
        jina_api_base: "https://api",
        jina_late_chunking: true,
        jina_task: "code.query",
        rerank_provider: "unused",
        rerank_top_n: 10,
        rerank_jina_model: None,
        rerank_ollama_model: Some("m3"),
        llm_provider: "lmstudio",
        llm_enabled: false,
        llm_model: None,
        llm_context_window: 32000,
    };
    let doc = config_json(&s, text("jina"));
    assert_eq!(names(&doc), ["embedding", "rerank", "llm"]);
    assert_eq!(at(&doc, &["embedding", "provider"]), &text("jina"));
    assert_eq!(at(&doc, &["embedding", "model"]), &text("m1"));
    assert_eq!(at(&doc, &["embedding", "dimension"]), &Json::Number(384));
    assert_eq!(at(&doc, &["embedding", "jina_task"]), &text("code.query"));
    assert_eq!(at(&doc, &["rerank", "provider"]), &text("jina"));
    assert_eq!(at(&doc, &["rerank", "top_n"]), &Json::Number(10));
    assert_eq!(at(&doc, &["rerank", "jina_model"]), &Json::Null);
    assert_eq!(at(&doc, &["rerank", "ollama_model"]), &text("m3"));
    assert_eq!(at(&doc, &["llm", "enabled"]), &Json::Bool(false));
    assert_eq!(at(&doc, &["llm", "provider"]), &text("lmstudio"));
    assert_eq!(at(&doc, &["llm", "model"]), &Json::Null);
    assert_eq!(at(&doc, &["llm", "context_window"]), &Json::Number(32000));
}

#[test]
fn a_daemon_as_a_document() {
    let doc = DaemonStatus::new(Some(9), true).json("/p", "/p/d.pid");
    assert_eq!(
        doc,
        Json::Object(vec![
            ("project".to_string(), text("/p")),
            ("running".to_string(), Json::Bool(true)),
            ("pid".to_string(), Json::Number(9)),
            ("pid_file".to_string(), text("/p/d.pid")),
        ])
    );
    let doc = DaemonStatus::new(None, false).json("/p", "f");
    assert_eq!(at(&doc, &["pid"]), &Json::Null);
    assert_eq!(at(&doc, &["running"]), &Json::Bool(false));
}

#[test]
fn an_estimate_as_a_document() {
    let languages = vec!["rust".to_string()];
    let mut e = Estimate {
        path: "shown",
        languages: &languages,
        provider: "jina",
        parsed_files: 9,
        total_files: 10,
        failed_files: 1,
        nodes: 100,
        edges: 200,
        symbols: 300,
        parsing_seconds: None,
        jina_seconds: None,
        jina_batches: 3,
        jina_batch_size: 2000,
        total_jina_seconds: None,
        local: None,
        assumed_batch_size: 2000,
        assumed_batch_minutes: "9.0",
        assumed_rate: "14400",
        runtime_seconds: None,
    };
    let f = EstimateFigures {
        path: "/p",
        total_lines: 5000,
        parsing_minutes: 1.5f64.to_bits(),
        parsing_seconds: 90f64.to_bits(),
        files_per_second: 2f64.to_bits(),
        lines_per_second: 3f64.to_bits(),
        jina_batch_minutes: 9f64.to_bits(),
        jina_minutes: 27f64.to_bits(),
        total_jina_minutes: 28.5f64.to_bits(),
        local_rate_per_minute: Some(7f64.to_bits()),
        local_minutes: None,
        total_local_minutes: Some(8f64.to_bits()),
        workers: 4,
        batch_size: 100,
        runtime_seconds: 91f64.to_bits(),
    };
    let t = EmbeddingThroughputConfig {
        jina_batch_size: 1000,
        jina_batch_minutes: 6f64.to_bits(),
        local_embeddings_per_minute: 5f64.to_bits(),
    };
    let doc = estimate_json(&e, &f, &t);
    let real = |x: f64| Json::Real(x.to_bits());
    assert_eq!(at(&doc, &["path"]), &text("/p"));
    assert_eq!(at(&doc, &["languages"]), &Json::List(vec![text("rust")]));
    assert_eq!(at(&doc, &["counts", "failed_files"]), &Json::Number(1));
    assert_eq!(at(&doc, &["counts", "symbols"]), &Json::Number(300));
    assert_eq!(at(&doc, &["parsing", "minutes"]), &real(1.5));
    assert_eq!(at(&doc, &["parsing", "duration_seconds"]), &real(90.0));
    assert_eq!(at(&doc, &["parsing", "total_lines"]), &Json::Number(5000));
    assert_eq!(at(&doc, &["timings", "jina", "batches"]), &Json::Number(3));
    assert_eq!(
        at(&doc, &["timings", "jina", "total_minutes_with_parsing"]),
        &real(28.5)
    );
    assert_eq!(at(&doc, &["timings", "local", "rate_per_minute"]), &real(7.0));
    assert_eq!(at(&doc, &["timings", "local", "minutes"]), &Json::Null);
    assert_eq!(at(&doc, &["workers"]), &Json::Number(4));
    assert_eq!(at(&doc, &["embedding_provider"]), &text("jina"));
    assert_eq!(at(&doc, &["assumptions", "jina_batch_size"]), &Json::Number(1000));
    assert_eq!(at(&doc, &["assumptions", "jina_batch_minutes"]), &real(6.0));
    assert_eq!(at(&doc, &["estimate_runtime_seconds"]), &real(91.0));
    let none = vec![];
    e.languages = &none;
    assert_eq!(at(&estimate_json(&e, &f, &t), &["languages"]), &Json::Null);
}
