//! The commands that deal with the configuration.
use crate::json::{has_field, lemma_has_field, maybe_text_view, Fields, Json, JsonView};
use crate::json::{no_fields, object};
use crate::report::{Line, Report, Style};
use crate::report::{blank_line, field_line, law_line_says_its_pieces, lemma_shows, line_text};
use crate::report::{lemma_shows_in, shows, shows_in, styled_line, text_line};
use crate::text::{chars_of, decimal, decimal_text, law_trimming_leaves_the_middle};
use crate::text::{parts_at_space, same_text, trim_bounds, trimmed};
use vstd::prelude::*;

verus! {

/// What a new environment file holds.
pub const ENV_TEMPLATE: &'static str = r#"# CodeGraph Global Configuration
# This file is loaded automatically by codegraph
# Environment variables here override config.toml settings

# ============================================================================
# EMBEDDING PROVIDER
# ============================================================================
# Provider: "local", "ollama", "lmstudio", "openai", "jina", or "auto"
# - local: ONNX local embeddings (fastest, no API needed)
# - ollama: Ollama embeddings (good balance, requires Ollama running)
# - openai: OpenAI embeddings (cloud, requires API key)
# - jina: Jina embeddings with reranking (best quality, requires API key)
# - auto: Auto-detect best available provider
CODEGRAPH_EMBEDDING_PROVIDER=auto

# ============================================================================
# CLOUD PROVIDERS (OpenAI, Jina)
# ============================================================================
# OpenAI API Key (if using OpenAI embeddings)
# OPENAI_API_KEY=sk-...

# Jina API Key (if using Jina embeddings + reranking)
# JINA_API_KEY=jina_...

# Enable Jina reranking (improves search quality, requires Jina provider)
# JINA_ENABLE_RERANKING=true

# ============================================================================
# LOCAL PROVIDERS (Ollama, Local)
# ============================================================================
# Ollama URL (if using Ollama)
# CODEGRAPH_OLLAMA_URL=http://localhost:11434

# Local embedding model (if using local/ONNX provider)
# CODEGRAPH_LOCAL_MODEL=/path/to/model

# ============================================================================
# PERFORMANCE
# ============================================================================
# Embedding batch size (default: 100)
# Higher values = faster indexing but more memory
# CODEGRAPH_BATCH_SIZE=100

# Embedding dimension (default: auto-detected)
# - 384: all-MiniLM (local)
# - 2048: jina-embeddings-v4 (supports Matryoshka 1024/512/256)
# - 1536: OpenAI text-embedding-3-small, jina-code-embeddings
# CODEGRAPH_EMBEDDING_DIMENSION=2048

# ============================================================================
# LLM PROVIDER (for insights, optional)
# ============================================================================
# LLM Provider: "ollama", "lmstudio", "anthropic", "openai"
# CODEGRAPH_LLM_PROVIDER=lmstudio

# LLM Model
# CODEGRAPH_MODEL=qwen2.5-coder:14b

# Enable LLM insights (context-only mode if disabled)
# CODEGRAPH_LLM_ENABLED=false

# ============================================================================
# LOGGING
# ============================================================================
# Log level: trace, debug, info, warn, error
# RUST_LOG=warn
"#;

/// What is done about a file of the configuration.
#[derive(Debug, Clone, Copy, PartialEq, Eq, Structural)]
pub enum FilePlan {
    /// The file that is there is kept.
    Keep,
    /// The file is written.
    Create,
}

/// What is done about a file: one that is there is kept, unless it is to be overwritten.
pub open spec fn planned(exists: bool, force: bool) -> FilePlan {
    if exists && !force {
        FilePlan::Keep
    } else {
        FilePlan::Create
    }
}

/// What is done about a file of the configuration.
pub fn plan_file(exists: bool, force: bool) -> (r: FilePlan)
    ensures
        r == planned(exists, force),
        r == FilePlan::Keep <==> exists && !force,
{
    if exists && !force {
        FilePlan::Keep
    } else {
        FilePlan::Create
    }
}

/// A file of the configuration.
#[derive(Debug, Clone, Copy, PartialEq, Eq, Structural)]
pub enum ConfigFile {
    Settings,
    Environment,
}

/// What is shown of a file of the configuration after it was dealt with.
pub open spec fn file_lines(
    file: ConfigFile,
    plan: FilePlan,
    path: Seq<char>,
) -> Seq<Seq<(Style, Seq<char>)>> {
    match (plan, file) {
        (FilePlan::Keep, ConfigFile::Settings) => seq![
            field_line("⚠️  Configuration file already exists: "@, Style::Plain, path),
            text_line("   Use --force to overwrite"@),
        ],
        (FilePlan::Keep, ConfigFile::Environment) => seq![
            field_line("⚠️  Environment file already exists: "@, Style::Plain, path),
            text_line("   Use --force to overwrite"@),
        ],
        (FilePlan::Create, ConfigFile::Settings) => seq![
            field_line("✓ Created config file: "@, Style::Plain, path),
        ],
        (FilePlan::Create, ConfigFile::Environment) => seq![
            field_line("✓ Created environment file: "@, Style::Plain, path),
        ],
    }
}

/// What is shown of a file of the configuration after it was dealt with.
pub fn file_report(file: ConfigFile, plan: FilePlan, path: &str) -> (r: Report)
    ensures
        r@ == file_lines(file, plan, path@),
{
    let mut r = Report::new();
    match (plan, file) {
        (FilePlan::Keep, ConfigFile::Settings) => {
            r.field("⚠️  Configuration file already exists: ", Style::Plain, path);
            r.text("   Use --force to overwrite");
        },
        (FilePlan::Keep, ConfigFile::Environment) => {
            r.field("⚠️  Environment file already exists: ", Style::Plain, path);
            r.text("   Use --force to overwrite");
        },
        (FilePlan::Create, ConfigFile::Settings) => {
            r.field("✓ Created config file: ", Style::Plain, path);
        },
        (FilePlan::Create, ConfigFile::Environment) => {
            r.field("✓ Created environment file: ", Style::Plain, path);
        },
    }
    assert(r@ =~= file_lines(file, plan, path@));
    r
}

/// What is shown before the configuration is set up.
pub fn init_opening() -> (r: Report)
    ensures
        r@ == seq![
            styled_line(Style::GreenBold, "Initializing CodeGraph global configuration..."@),
            blank_line(),
        ],
{
    let mut r = Report::new();
    r.styled(Style::GreenBold, "Initializing CodeGraph global configuration...");
    r.blank();
    assert(r@ =~= seq![
        styled_line(Style::GreenBold, "Initializing CodeGraph global configuration..."@),
        blank_line(),
    ]);
    r
}

/// What is shown of the directory of the configuration after it was made.
pub fn directory_created(path: &str) -> (r: Line)
    ensures
        r@ == field_line("✓ Created directory: "@, Style::Plain, path@),
{
    Line::new().plain("✓ Created directory: ").plain(path)
}

/// What is shown after the configuration was set up.
pub open spec fn init_closing_lines(
    env_path: Seq<char>,
    config_path: Seq<char>,
) -> Seq<Seq<(Style, Seq<char>)>> {
    seq![
        blank_line(),
        styled_line(Style::GreenBold, "Configuration initialized successfully!"@),
        blank_line(),
        text_line("Next steps:"@),
        seq![
            (Style::Plain, "1. Edit "@),
            (Style::Plain, env_path),
            (Style::Plain, " to configure your API keys and preferences"@),
        ],
        text_line("2. Run 'codegraph config show' to verify your configuration"@),
        text_line("3. Run 'codegraph index <path>' to start indexing your codebase"@),
        blank_line(),
        text_line("Configuration hierarchy (highest to lowest priority):"@),
        text_line("  1. Environment variables"@),
        text_line("  2. Local .env (current directory)"@),
        field_line("  3. Global "@, Style::Plain, env_path),
        text_line("  4. Local .codegraph.toml (current directory)"@),
        field_line("  5. Global "@, Style::Plain, config_path),
        text_line("  6. Built-in defaults"@),
    ]
}

/// What is shown after the configuration was set up.
pub fn init_closing(env_path: &str, config_path: &str) -> (r: Report)
    ensures
        r@ == init_closing_lines(env_path@, config_path@),
{
    let mut r = Report::new();
    r.blank();
    r.styled(Style::GreenBold, "Configuration initialized successfully!");
    r.blank();
    r.text("Next steps:");
    r.push(
        Line::new().plain("1. Edit ").plain(env_path).plain(
            " to configure your API keys and preferences",
        ),
    );
    r.text("2. Run 'codegraph config show' to verify your configuration");
    r.text("3. Run 'codegraph index <path>' to start indexing your codebase");
    r.blank();
    r.text("Configuration hierarchy (highest to lowest priority):");
    r.text("  1. Environment variables");
    r.text("  2. Local .env (current directory)");
    r.field("  3. Global ", Style::Plain, env_path);
    r.text("  4. Local .codegraph.toml (current directory)");
    r.field("  5. Global ", Style::Plain, config_path);
    r.text("  6. Built-in defaults");
    assert(r@ =~~= init_closing_lines(env_path@, config_path@));
    r
}

/// What is shown of a configuration.
#[derive(Debug)]
pub struct Settings<'a> {
    pub embedding_provider: &'a str,
    pub embedding_model: Option<&'a str>,
    pub embedding_dimension: usize,
    pub jina_api_base: &'a str,
    pub jina_late_chunking: bool,
    pub jina_task: &'a str,
    pub rerank_provider: &'a str,
    pub rerank_top_n: usize,
    pub rerank_jina_model: Option<&'a str>,
    pub rerank_ollama_model: Option<&'a str>,
    pub llm_provider: &'a str,
    pub llm_enabled: bool,
    pub llm_model: Option<&'a str>,
    pub llm_context_window: usize,
}

/// A line with a value, if there is one.
pub open spec fn value_lines(
    label: Seq<char>,
    style: Style,
    value: Option<&str>,
) -> Seq<Seq<(Style, Seq<char>)>> {
    match value {
        Some(v) => seq![field_line(label, style, v@)],
        None => seq![],
    }
}

/// The name of a truth value.
pub open spec fn bool_text(b: bool) -> Seq<char> {
    if b {
        "true"@
    } else {
        "false"@
    }
}

/// What is shown of the embeddings.
pub open spec fn embedding_lines(s: Settings) -> Seq<Seq<(Style, Seq<char>)>> {
    seq![
        styled_line(Style::BlueBold, "Current Configuration:"@),
        field_line("  Embedding Provider: "@, Style::Yellow, s.embedding_provider@),
    ] + value_lines("  Embedding Model: "@, Style::Yellow, s.embedding_model) + seq![
        field_line("  Vector Dimension: "@, Style::Plain, decimal(s.embedding_dimension as nat)),
    ] + if s.embedding_provider@ == "jina"@ {
        seq![
            blank_line(),
            field_line("  "@, Style::GreenBold, "Jina Embedding Settings:"@),
            field_line("    API Base: "@, Style::Plain, s.jina_api_base@),
            field_line("    Late Chunking: "@, Style::Plain, bool_text(s.jina_late_chunking)),
            field_line("    Task: "@, Style::Plain, s.jina_task@),
        ]
    } else {
        seq![]
    }
}

/// What is shown of reranking.
pub open spec fn rerank_lines(s: Settings) -> Seq<Seq<(Style, Seq<char>)>> {
    seq![
        blank_line(),
        field_line("  "@, Style::GreenBold, "Reranking Settings:"@),
        field_line("    Provider: "@, Style::Plain, s.rerank_provider@),
        field_line("    Top-N: "@, Style::Plain, decimal(s.rerank_top_n as nat)),
    ] + value_lines("    Jina Model: "@, Style::Plain, s.rerank_jina_model) + value_lines(
        "    Ollama Model: "@,
        Style::Plain,
        s.rerank_ollama_model,
    )
}

/// What is shown of the language model.
pub open spec fn llm_lines(s: Settings) -> Seq<Seq<(Style, Seq<char>)>> {
    seq![
        blank_line(),
        field_line("  "@, Style::GreenBold, "LLM Settings:"@),
        field_line("    Provider: "@, Style::Yellow, s.llm_provider@),
        if s.llm_enabled {
            field_line("    Enabled: "@, Style::Green, "yes"@)
        } else {
            field_line("    Enabled: "@, Style::Yellow, "no (context-only)"@)
        },
    ] + value_lines("    Model: "@, Style::Yellow, s.llm_model) + seq![
        field_line("    Context Window: "@, Style::Plain, decimal(s.llm_context_window as nat)),
    ]
}

fn push_value(r: &mut Report, label: &str, style: Style, value: Option<&str>)
    ensures
        final(r)@ == old(r)@ + value_lines(label@, style, value),
{
    match value {
        Some(v) => {
            r.field(label, style, v);
        },
        None => {},
    }
    assert(r@ =~= old(r)@ + value_lines(label@, style, value));
}

fn push_embedding(r: &mut Report, s: &Settings<'_>)
    ensures
        final(r)@ == old(r)@ + embedding_lines(*s),
{
    r.styled(Style::BlueBold, "Current Configuration:");
    r.field("  Embedding Provider: ", Style::Yellow, s.embedding_provider);
    push_value(r, "  Embedding Model: ", Style::Yellow, s.embedding_model);
    r.field(
        "  Vector Dimension: ",
        Style::Plain,
        decimal_text(s.embedding_dimension as u64).as_str(),
    );
    if same_text(s.embedding_provider, "jina") {
        r.blank();
        r.field("  ", Style::GreenBold, "Jina Embedding Settings:");
        r.field("    API Base: ", Style::Plain, s.jina_api_base);
        if s.jina_late_chunking {
            r.field("    Late Chunking: ", Style::Plain, "true");
        } else {
            r.field("    Late Chunking: ", Style::Plain, "false");
        }
        r.field("    Task: ", Style::Plain, s.jina_task);
    }
    assert(r@ =~= old(r)@ + embedding_lines(*s));
}

fn push_rerank(r: &mut Report, s: &Settings<'_>)
    ensures
        final(r)@ == old(r)@ + rerank_lines(*s),
{
    r.blank();
    r.field("  ", Style::GreenBold, "Reranking Settings:");
    r.field("    Provider: ", Style::Plain, s.rerank_provider);
    r.field("    Top-N: ", Style::Plain, decimal_text(s.rerank_top_n as u64).as_str());
    push_value(r, "    Jina Model: ", Style::Plain, s.rerank_jina_model);
    push_value(r, "    Ollama Model: ", Style::Plain, s.rerank_ollama_model);
    assert(r@ =~= old(r)@ + rerank_lines(*s));
}

fn push_llm(r: &mut Report, s: &Settings<'_>)
    ensures
        final(r)@ == old(r)@ + llm_lines(*s),
{
    r.blank();
    r.field("  ", Style::GreenBold, "LLM Settings:");
    r.field("    Provider: ", Style::Yellow, s.llm_provider);
    if s.llm_enabled {
        r.field("    Enabled: ", Style::Green, "yes");
    } else {
        r.field("    Enabled: ", Style::Yellow, "no (context-only)");
    }
    push_value(r, "    Model: ", Style::Yellow, s.llm_model);
    r.field(
        "    Context Window: ",
        Style::Plain,
        decimal_text(s.llm_context_window as u64).as_str(),
    );
    assert(r@ =~= old(r)@ + llm_lines(*s));
}

/// What is shown of a configuration.
pub fn show_report(s: &Settings<'_>) -> (r: Report)
    ensures
        r@ == embedding_lines(*s) + rerank_lines(*s) + llm_lines(*s),
{
    let mut r = Report::new();
    push_embedding(&mut r, s);
    push_rerank(&mut r, s);
    push_llm(&mut r, s);
    assert(r@ =~= embedding_lines(*s) + rerank_lines(*s) + llm_lines(*s));
    r
}

/// The configuration, as a document. The provider of reranking comes as the document that it is.
pub open spec fn config_document(s: Settings, rerank_provider: JsonView) -> JsonView {
    object(no_fields()
        .push((
                "embedding"@,
                object(no_fields()
                    .push(("provider"@, JsonView::Text(s.embedding_provider@)))
                    .push(("model"@, maybe_text_view(s.embedding_model)))
                    .push(("dimension"@, JsonView::Number(s.embedding_dimension as nat)))
                    .push(("jina_task"@, JsonView::Text(s.jina_task@)))),
        ))
        .push((
                "rerank"@,
                object(no_fields()
                    .push(("provider"@, rerank_provider))
                    .push(("top_n"@, JsonView::Number(s.rerank_top_n as nat)))
                    .push(("jina_model"@, maybe_text_view(s.rerank_jina_model)))
                    .push(("ollama_model"@, maybe_text_view(s.rerank_ollama_model)))),
        ))
        .push((
                "llm"@,
                object(no_fields()
                    .push(("enabled"@, JsonView::Bool(s.llm_enabled)))
                    .push(("provider"@, JsonView::Text(s.llm_provider@)))
                    .push(("model"@, maybe_text_view(s.llm_model)))
                    .push(("context_window"@, JsonView::Number(s.llm_context_window as nat)))),
    )))
}

/// The configuration, as a document. The provider of reranking comes as the document that it is.
pub fn config_json(s: &Settings<'_>, rerank_provider: Json) -> (r: Json)
    ensures
        r@ == config_document(*s, rerank_provider@),
{
    let embedding = Fields::new().with("provider", Json::text(s.embedding_provider)).with(
        "model",
        Json::maybe_text(s.embedding_model),
    ).with("dimension", Json::number(s.embedding_dimension)).with(
        "jina_task",
        Json::text(s.jina_task),
    ).done();
    let rerank = Fields::new().with("provider", rerank_provider).with(
        "top_n",
        Json::number(s.rerank_top_n),
    ).with("jina_model", Json::maybe_text(s.rerank_jina_model)).with(
        "ollama_model",
        Json::maybe_text(s.rerank_ollama_model),
    ).done();
    let llm = Fields::new().with("enabled", Json::Bool(s.llm_enabled)).with(
        "provider",
        Json::text(s.llm_provider),
    ).with("model", Json::maybe_text(s.llm_model)).with(
        "context_window",
        Json::number(s.llm_context_window),
    ).done();
    Fields::new().with("embedding", embedding).with("rerank", rerank).with(
        "llm",
        llm,
    ).done()
}

/// What is shown when a value is set.
pub fn set_line(key: &str, value: &str) -> (r: Line)
    ensures
        r@ == seq![
            (Style::Plain, "Set "@),
            (Style::Yellow, key@),
            (Style::Plain, " = "@),
            (Style::Green, value@),
        ],
{
    Line::new().plain("Set ").with(Style::Yellow, key).plain(" = ").with(Style::Green, value)
}

/// What is shown of a value that is asked for, if there is one.
pub open spec fn value_line(key: Seq<char>, value: Option<Seq<char>>) -> Seq<(Style, Seq<char>)> {
    seq![
        (Style::Plain, key),
        (Style::Plain, ": "@),
        match value {
            Some(v) => (Style::Plain, v),
            None => (Style::Dimmed, "not set"@),
        },
    ]
}

/// What some text says, if there is one.
pub open spec fn text_of(text: Option<&str>) -> Option<Seq<char>> {
    match text {
        Some(t) => Some(t@),
        None => None,
    }
}

/// What is shown of a value that is asked for, if there is one.
pub fn get_line(key: &str, value: Option<&str>) -> (r: Line)
    ensures
        r@ == value_line(key@, text_of(value)),
{
    let line = Line::new().plain(key).plain(": ");
    match value {
        Some(v) => line.plain(v),
        None => line.with(Style::Dimmed, "not set"),
    }
}

/// Whether an entry has the key `key`.
pub open spec fn has_key(entries: Seq<(String, String)>, key: Seq<char>) -> bool {
    exists|i: int| 0 <= i < entries.len() && #[trigger] entries[i].0@ == key
}

/// An entry with the key `key`.
pub open spec fn key_index(entries: Seq<(String, String)>, key: Seq<char>) -> int {
    choose|i: int| 0 <= i < entries.len() && #[trigger] entries[i].0@ == key
}

/// Whether no two entries have one key.
pub open spec fn keys_differ(entries: Seq<(String, String)>) -> bool {
    forall|i: int, j: int|
        0 <= i < j < entries.len() ==> #[trigger] entries[i].0@ != #[trigger] entries[j].0@
}

/// The values of some entries, by their keys.
pub open spec fn entries_map(entries: Seq<(String, String)>) -> Map<Seq<char>, Seq<char>> {
    Map::new(
        |key: Seq<char>| has_key(entries, key),
        |key: Seq<char>| entries[key_index(entries, key)].1@,
    )
}

/// The value of a key, if it has one.
pub open spec fn value_of(values: Map<Seq<char>, Seq<char>>, key: Seq<char>) -> Option<Seq<char>> {
    if values.dom().contains(key) {
        Some(values[key])
    } else {
        None
    }
}

/// Whether a reset is wanted: it was said beforehand, or the answer is a `y`.
pub open spec fn confirmed(yes: bool, answer: Seq<char>) -> bool {
    yes || trimmed(answer) == seq!['y'] || trimmed(answer) == seq!['Y']
}

/// Values of the configuration that were set.
#[derive(Debug)]
pub struct ConfigValues {
    entries: Vec<(String, String)>,
}

impl ConfigValues {
    /// The values, by their keys.
    pub closed spec fn view(&self) -> Map<Seq<char>, Seq<char>> {
        entries_map(self.entries@)
    }

    /// No key has two values.
    pub closed spec fn well_formed(&self) -> bool {
        keys_differ(self.entries@)
    }

    /// No values.
    pub fn new() -> (r: Self)
        ensures
            r.well_formed(),
            r@ == Map::<Seq<char>, Seq<char>>::empty(),
    {
        let r = ConfigValues { entries: Vec::new() };
        assert(r@ =~= Map::<Seq<char>, Seq<char>>::empty());
        r
    }

    fn find(&self, key: &str) -> (r: Option<usize>)
        ensures
            match r {
                Some(i) => i < self.entries@.len() && self.entries@[i as int].0@ == key@,
                None => !has_key(self.entries@, key@),
            },
    {
        let n: usize = self.entries.len();
        let mut i: usize = 0;
        while i < n
            invariant
                i <= n == self.entries@.len(),
                forall|j: int| 0 <= j < i ==> #[trigger] self.entries@[j].0@ != key@,
            decreases n - i,
        {
            if same_text(self.entries[i].0.as_str(), key) {
                return Some(i);
            }
            i = i + 1;
        }
        None
    }

    /// Gives a key a value.
    pub fn set(&mut self, key: &str, value: &str)
        requires
            old(self).well_formed(),
        ensures
            final(self).well_formed(),
            final(self)@ == old(self)@.insert(key@, value@),
    {
        let entry = (String::from_str(key), String::from_str(value));
        match self.find(key) {
            Some(i) => {
                self.entries.set(i, entry);
                proof {
                    lemma_replaced(old(self).entries@, i as int, entry);
                }
            },
            None => {
                self.entries.push(entry);
                proof {
                    lemma_added(old(self).entries@, entry);
                }
            },
        }
    }

    /// The value of a key, if it has one.
    pub fn get(&self, key: &str) -> (r: Option<&str>)
        requires
            self.well_formed(),
        ensures
            text_of(r) == value_of(self@, key@),
            r is Some <==> self@.dom().contains(key@),
            r matches Some(v) ==> v@ == self@[key@],
    {
        match self.find(key) {
            Some(i) => {
                assert(has_key(self.entries@, key@));
                assert(self.entries@[key_index(self.entries@, key@)].0@ == key@);
                Some(self.entries[i].1.as_str())
            },
            None => None,
        }
    }

    /// The value of a key: the one that was set, or else the one that is configured otherwise.
    pub fn get_or<'a>(&'a self, key: &str, configured: Option<&'a str>) -> (r: Option<&'a str>)
        requires
            self.well_formed(),
        ensures
            text_of(r) == match value_of(self@, key@) {
                Some(v) => Some(v),
                None => text_of(configured),
            },
            self@.dom().contains(key@) ==> (r matches Some(v) && v@ == self@[key@]),
            !self@.dom().contains(key@) ==> r == configured,
    {
        match self.get(key) {
            Some(v) => Some(v),
            None => configured,
        }
    }

    /// All keys with their values, each key once.
    pub fn entries(&self) -> (r: &Vec<(String, String)>)
        requires
            self.well_formed(),
        ensures
            keys_differ(r@),
            entries_map(r@) == self@,
    {
        &self.entries
    }

    /// Takes all values away, if that is wanted, and says what was done.
    pub fn reset(&mut self, yes: bool, answer: &str) -> (r: Line)
        requires
            old(self).well_formed(),
        ensures
            final(self).well_formed(),
            final(self)@ == if confirmed(yes, answer@) {
                Map::<Seq<char>, Seq<char>>::empty()
            } else {
                old(self)@
            },
            r@ == reset_line(confirmed(yes, answer@)),
            yes ==> final(self)@ == Map::<Seq<char>, Seq<char>>::empty(),
            final(self)@ == old(self)@ || final(self)@ == Map::<Seq<char>, Seq<char>>::empty(),
    {
        if is_confirmed(yes, answer) {
            self.entries = Vec::new();
            assert(self@ =~= Map::<Seq<char>, Seq<char>>::empty());
            Line::new().plain("✓ Configuration reset to defaults")
        } else {
            Line::new().plain("Configuration not changed")
        }
    }
}

proof fn lemma_replaced(entries: Seq<(String, String)>, i: int, entry: (String, String))
    requires
        keys_differ(entries),
        0 <= i < entries.len(),
        entries[i].0@ == entry.0@,
    ensures
        keys_differ(entries.update(i, entry)),
        entries_map(entries.update(i, entry)) == entries_map(entries).insert(entry.0@, entry.1@),
{
    let after = entries.update(i, entry);
    assert forall|a: int, b: int| 0 <= a < b < after.len() implies #[trigger] after[a].0@
        != #[trigger] after[b].0@ by {
        assert(entries[a].0@ != entries[b].0@);
    }
    assert forall|key: Seq<char>| has_key(after, key) == #[trigger] has_key(entries, key) by {
        if has_key(after, key) {
            let k = key_index(after, key);
            assert(entries[k].0@ == key);
        }
        if has_key(entries, key) {
            let k = key_index(entries, key);
            assert(after[k].0@ == key);
        }
    }
    assert(has_key(entries, entry.0@));
    assert forall|key: Seq<char>| #[trigger] has_key(entries, key) implies entries_map(after)[key]
        == entries_map(entries).insert(entry.0@, entry.1@)[key] by {
        assert(has_key(after, key));
        let k = key_index(entries, key);
        let l = key_index(after, key);
        assert(entries[k].0@ == key);
        assert(after[l].0@ == key);
        assert(entries[l].0@ == key);
        assert(k == l) by {
            if k < l {
                assert(entries[k].0@ != entries[l].0@);
            } else if l < k {
                assert(entries[l].0@ != entries[k].0@);
            }
        }
        if key == entry.0@ {
            assert(k == i) by {
                if k < i {
                    assert(entries[k].0@ != entries[i].0@);
                } else if i < k {
                    assert(entries[i].0@ != entries[k].0@);
                }
            }
        }
    }
    assert(entries_map(after) =~= entries_map(entries).insert(entry.0@, entry.1@));
}

proof fn lemma_added(entries: Seq<(String, String)>, entry: (String, String))
    requires
        keys_differ(entries),
        !has_key(entries, entry.0@),
    ensures
        keys_differ(entries.push(entry)),
        entries_map(entries.push(entry)) == entries_map(entries).insert(entry.0@, entry.1@),
{
    let after = entries.push(entry);
    let n = entries.len() as int;
    assert forall|a: int, b: int| 0 <= a < b < after.len() implies #[trigger] after[a].0@
        != #[trigger] after[b].0@ by {
        assert(after[a] == entries[a]);
        if b < n {
            assert(entries[a].0@ != entries[b].0@);
        } else {
            assert(entries[a].0@ != entry.0@);
        }
    }
    assert(after[n].0@ == entry.0@);
    assert(has_key(after, entry.0@));
    assert forall|key: Seq<char>| #[trigger]
        has_key(after, key) == (has_key(entries, key) || key == entry.0@) by {
        if has_key(after, key) && key != entry.0@ {
            let k = key_index(after, key);
            assert(k < n);
            assert(entries[k].0@ == key);
        }
        if has_key(entries, key) {
            let k = key_index(entries, key);
            assert(after[k].0@ == key);
        }
    }
    assert forall|key: Seq<char>| #[trigger] has_key(after, key) implies entries_map(after)[key]
        == entries_map(entries).insert(entry.0@, entry.1@)[key] by {
        let l = key_index(after, key);
        assert(after[l].0@ == key);
        if key == entry.0@ {
            if l < n {
                assert(entries[l].0@ == key);
            }
        } else {
            let k = key_index(entries, key);
            assert(has_key(entries, key));
            assert(entries[k].0@ == key);
            assert(after[k].0@ == key);
            if k < l {
                assert(after[k].0@ != after[l].0@);
            } else if l < k {
                assert(after[l].0@ != after[k].0@);
            }
        }
    }
    assert(entries_map(after) =~= entries_map(entries).insert(entry.0@, entry.1@));
}

/// Whether a reset is wanted: it was said beforehand, or the answer is a `y`.
pub fn is_confirmed(yes: bool, answer: &str) -> (r: bool)
    ensures
        r == confirmed(yes, answer@),
{
    if yes {
        return true;
    }
    let chars = chars_of(answer);
    let (start, end): (usize, usize) = trim_bounds(&chars);
    let ghost said = trimmed(answer@);
    if end - start != 1 {
        assert(said.len() != 1);
        return false;
    }
    let c: char = chars[start];
    assert(said =~= seq![c]);
    assert(said[0] == c && seq!['y'][0] == 'y' && seq!['Y'][0] == 'Y');
    c == 'y' || c == 'Y'
}

/// What is asked before a reset, unless it was said beforehand that it is wanted.
pub fn reset_question(yes: bool) -> (r: Option<Line>)
    ensures
        r is Some <==> !yes,
        r matches Some(line) ==> line@ == text_line("Reset configuration to defaults? (y/n)"@),
{
    if yes {
        None
    } else {
        Some(Line::new().plain("Reset configuration to defaults? (y/n)"))
    }
}

/// What is shown after a reset that was wanted, or was not.
pub open spec fn reset_line(done: bool) -> Seq<(Style, Seq<char>)> {
    if done {
        text_line("✓ Configuration reset to defaults"@)
    } else {
        text_line("Configuration not changed"@)
    }
}

/// What a validation comes to: the configuration is valid if it could be loaded; else it is not, for
/// the given reason.
pub fn validate(problem: Option<&str>) -> (r: Result<Line, String>)
    ensures
        match problem {
            None => r matches Ok(line) && line@ == text_line("✓ Configuration is valid"@),
            Some(reason) => r matches Err(message) && message@ == "Configuration is not valid: "@
                + reason@,
        },
{
    match problem {
        None => Ok(Line::new().plain("✓ Configuration is valid")),
        Some(reason) => Err(String::from_str("Configuration is not valid: ").concat(reason)),
    }
}

/// The value that was asked for, or else the default one.
pub fn asked_or(asked: Option<String>, default: String) -> (r: String)
    ensures
        r == match asked {
            Some(value) => value,
            None => default,
        },
{
    match asked {
        Some(value) => value,
        None => default,
    }
}

/// What is shown of a database that answered.
pub fn database_line() -> (r: Line)
    ensures
        r@ == text_line("✓ SurrealDB connectivity verified"@),
{
    Line::new().plain("✓ SurrealDB connectivity verified")
}

/// A file that is there is overwritten only by force, and one that is not there is always written.
pub proof fn law_no_overwrite_without_force(exists: bool, force: bool)
    ensures
        exists && planned(exists, force) == FilePlan::Create ==> force,
        !exists ==> planned(exists, force) == FilePlan::Create,
{
}

/// What was set for a key is what is shown when it is asked for, and setting it changes no other key.
pub proof fn law_get_after_set(
    values: Map<Seq<char>, Seq<char>>,
    key: Seq<char>,
    value: Seq<char>,
    other: Seq<char>,
)
    ensures
        value_of(values.insert(key, value), key) == Some(value),
        value_line(key, value_of(values.insert(key, value), key)) == value_line(key, Some(value)),
        other != key ==> value_of(values.insert(key, value), other) == value_of(values, other),
{
}

/// After a reset that was wanted no key has a value; one that was neither said beforehand nor answered
/// with a `y` changes nothing.
pub proof fn law_reset_asks(answer: Seq<char>, key: Seq<char>)
    ensures
        confirmed(true, answer),
        confirmed(false, answer) <==> trimmed(answer) == seq!['y'] || trimmed(answer) == seq!['Y'],
        value_of(Map::empty(), key) is None,
{
}

/// A file is kept exactly if it is there and is not to be overwritten; else it is written.
pub proof fn law_file_is_kept_or_written(exists: bool, force: bool)
    ensures
        planned(exists, force) == FilePlan::Keep <==> exists && !force,
        planned(exists, force) == FilePlan::Create <==> force || !exists,
        planned(true, true) == FilePlan::Create,
{
}

/// What is shown of a file names its path: as one that was there if it was kept, with how to overwrite it, and
/// as one that was made if it was written.
pub proof fn law_file_is_shown(file: ConfigFile, path: Seq<char>)
    ensures
        shows(
            file_lines(ConfigFile::Settings, FilePlan::Keep, path),
            "⚠️  Configuration file already exists: "@ + path,
        ),
        shows(
            file_lines(ConfigFile::Environment, FilePlan::Keep, path),
            "⚠️  Environment file already exists: "@ + path,
        ),
        shows(file_lines(file, FilePlan::Keep, path), "   Use --force to overwrite"@),
        shows(
            file_lines(ConfigFile::Settings, FilePlan::Create, path),
            "✓ Created config file: "@ + path,
        ),
        shows(
            file_lines(ConfigFile::Environment, FilePlan::Create, path),
            "✓ Created environment file: "@ + path,
        ),
        file_lines(file, FilePlan::Keep, path).len() == 2,
        file_lines(file, FilePlan::Create, path).len() == 1,
{
    lemma_shows(
        file_lines(ConfigFile::Settings, FilePlan::Keep, path),
        0,
        "⚠️  Configuration file already exists: "@ + path,
    );
    lemma_shows(
        file_lines(ConfigFile::Environment, FilePlan::Keep, path),
        0,
        "⚠️  Environment file already exists: "@ + path,
    );
    lemma_shows(file_lines(file, FilePlan::Keep, path), 1, "   Use --force to overwrite"@);
    lemma_shows(
        file_lines(ConfigFile::Settings, FilePlan::Create, path),
        0,
        "✓ Created config file: "@ + path,
    );
    lemma_shows(
        file_lines(ConfigFile::Environment, FilePlan::Create, path),
        0,
        "✓ Created environment file: "@ + path,
    );
}

/// After the configuration was set up, it is told which file to edit, and in which files it lies.
pub proof fn law_setup_names_its_files(env_path: Seq<char>, config_path: Seq<char>)
    ensures
        ({
            let lines = init_closing_lines(env_path, config_path);
            &&& shows(
                lines,
                "1. Edit "@ + env_path + " to configure your API keys and preferences"@,
            )
            &&& shows(lines, "  3. Global "@ + env_path)
            &&& shows(lines, "  5. Global "@ + config_path)
            &&& lines.len() == 15
        }),
{
    let lines = init_closing_lines(env_path, config_path);
    lemma_shows(lines, 4, "1. Edit "@ + env_path + " to configure your API keys and preferences"@);
    lemma_shows(lines, 11, "  3. Global "@ + env_path);
    lemma_shows(lines, 13, "  5. Global "@ + config_path);
}

/// A value that there is gets a line with its label, and one that there is not gets none.
pub proof fn law_value_has_a_line(label: Seq<char>, style: Style, value: &str)
    ensures
        value_lines(label, style, Some(value)).len() == 1,
        shows(value_lines(label, style, Some(value)), label + value@),
        value_lines(label, style, None).len() == 0,
        bool_text(true) == "true"@,
        bool_text(false) == "false"@,
{
    lemma_shows(value_lines(label, style, Some(value)), 0, label + value@);
}

/// The embeddings are shown with provider, model if there is one, and dimension; what is peculiar to Jina is
/// shown exactly if it is the provider.
pub proof fn law_embeddings_are_shown(s: Settings)
    ensures
        ({
            let lines = embedding_lines(s);
            let jina = s.embedding_provider@ == "jina"@;
            &&& shows(lines, "  Embedding Provider: "@ + s.embedding_provider@)
            &&& s.embedding_model is Some ==> shows(
                lines,
                "  Embedding Model: "@ + s.embedding_model->0@,
            )
            &&& shows(lines, "  Vector Dimension: "@ + decimal(s.embedding_dimension as nat))
            &&& jina ==> shows(lines, "    API Base: "@ + s.jina_api_base@)
            &&& jina ==> shows(lines, "    Late Chunking: "@ + bool_text(s.jina_late_chunking))
            &&& jina ==> shows(lines, "    Task: "@ + s.jina_task@)
            &&& lines.len() == 3 + (if s.embedding_model is Some {
                1nat
            } else {
                0nat
            }) + (if jina {
                5nat
            } else {
                0nat
            })
        }),
{
    let lines = embedding_lines(s);
    let m = if s.embedding_model is Some {
        1int
    } else {
        0int
    };
    lemma_shows(lines, 1, "  Embedding Provider: "@ + s.embedding_provider@);
    if s.embedding_model is Some {
        lemma_shows(lines, 2, "  Embedding Model: "@ + s.embedding_model->0@);
    }
    lemma_shows(lines, 2 + m, "  Vector Dimension: "@ + decimal(s.embedding_dimension as nat));
    if s.embedding_provider@ == "jina"@ {
        lemma_shows(lines, 5 + m, "    API Base: "@ + s.jina_api_base@);
        lemma_shows(lines, 6 + m, "    Late Chunking: "@ + bool_text(s.jina_late_chunking));
        lemma_shows(lines, 7 + m, "    Task: "@ + s.jina_task@);
    }
}

/// Reranking is shown with provider and number of results, and with each model that there is.
pub proof fn law_reranking_is_shown(s: Settings)
    ensures
        ({
            let lines = rerank_lines(s);
            &&& shows(lines, "    Provider: "@ + s.rerank_provider@)
            &&& shows(lines, "    Top-N: "@ + decimal(s.rerank_top_n as nat))
            &&& s.rerank_jina_model is Some ==> shows(
                lines,
                "    Jina Model: "@ + s.rerank_jina_model->0@,
            )
            &&& s.rerank_ollama_model is Some ==> shows(
                lines,
                "    Ollama Model: "@ + s.rerank_ollama_model->0@,
            )
            &&& lines.len() == 4 + (if s.rerank_jina_model is Some {
                1nat
            } else {
                0nat
            }) + (if s.rerank_ollama_model is Some {
                1nat
            } else {
                0nat
            })
        }),
{
    let lines = rerank_lines(s);
    lemma_shows(lines, 2, "    Provider: "@ + s.rerank_provider@);
    lemma_shows(lines, 3, "    Top-N: "@ + decimal(s.rerank_top_n as nat));
    if s.rerank_jina_model is Some {
        lemma_shows(lines, 4, "    Jina Model: "@ + s.rerank_jina_model->0@);
    }
    if s.rerank_ollama_model is Some {
        lemma_shows(lines, lines.len() - 1, "    Ollama Model: "@ + s.rerank_ollama_model->0@);
    }
}

/// The language model is shown with provider, whether it is used, its name if it has one, and its context.
pub proof fn law_language_model_is_shown(s: Settings)
    ensures
        ({
            let lines = llm_lines(s);
            &&& shows(lines, "    Provider: "@ + s.llm_provider@)
            &&& s.llm_enabled ==> shows(lines, "    Enabled: "@ + "yes"@)
            &&& !s.llm_enabled ==> shows(lines, "    Enabled: "@ + "no (context-only)"@)
            &&& s.llm_model is Some ==> shows(lines, "    Model: "@ + s.llm_model->0@)
            &&& shows(lines, "    Context Window: "@ + decimal(s.llm_context_window as nat))
            &&& lines.len() == 5 + (if s.llm_model is Some {
                1nat
            } else {
                0nat
            })
        }),
{
    let lines = llm_lines(s);
    lemma_shows(lines, 2, "    Provider: "@ + s.llm_provider@);
    if s.llm_enabled {
        lemma_shows(lines, 3, "    Enabled: "@ + "yes"@);
    } else {
        lemma_shows(lines, 3, "    Enabled: "@ + "no (context-only)"@);
    }
    if s.llm_model is Some {
        lemma_shows(lines, 4, "    Model: "@ + s.llm_model->0@);
    }
    lemma_shows(
        lines,
        lines.len() - 1,
        "    Context Window: "@ + decimal(s.llm_context_window as nat),
    );
}

/// The document of a configuration has each setting under its own name, in the part that it belongs to.
pub proof fn law_config_document_has_settings(s: Settings, rerank_provider: JsonView)
    ensures
        ({
            let d = config_document(s, rerank_provider);
            &&& d->Object_0.len() == 3
            &&& exists|p: JsonView| #[trigger]
                has_field(d, "embedding"@, p) && {
                    &&& has_field(p, "provider"@, JsonView::Text(s.embedding_provider@))
                    &&& has_field(p, "model"@, maybe_text_view(s.embedding_model))
                    &&& has_field(p, "dimension"@, JsonView::Number(s.embedding_dimension as nat))
                    &&& has_field(p, "jina_task"@, JsonView::Text(s.jina_task@))
                    &&& p->Object_0.len() == 4
                }
            &&& exists|p: JsonView| #[trigger]
                has_field(d, "rerank"@, p) && {
                    &&& has_field(p, "provider"@, rerank_provider)
                    &&& has_field(p, "top_n"@, JsonView::Number(s.rerank_top_n as nat))
                    &&& has_field(p, "jina_model"@, maybe_text_view(s.rerank_jina_model))
                    &&& has_field(p, "ollama_model"@, maybe_text_view(s.rerank_ollama_model))
                    &&& p->Object_0.len() == 4
                }
            &&& exists|p: JsonView| #[trigger]
                has_field(d, "llm"@, p) && {
                    &&& has_field(p, "enabled"@, JsonView::Bool(s.llm_enabled))
                    &&& has_field(p, "provider"@, JsonView::Text(s.llm_provider@))
                    &&& has_field(p, "model"@, maybe_text_view(s.llm_model))
                    &&& has_field(
                        p,
                        "context_window"@,
                        JsonView::Number(s.llm_context_window as nat),
                    )
                    &&& p->Object_0.len() == 4
                }
        }),
{
    let d = config_document(s, rerank_provider);
    let e = d->Object_0[0].1;
    lemma_has_field(d, 0, "embedding"@, e);
    lemma_has_field(e, 0, "provider"@, JsonView::Text(s.embedding_provider@));
    lemma_has_field(e, 1, "model"@, maybe_text_view(s.embedding_model));
    lemma_has_field(e, 2, "dimension"@, JsonView::Number(s.embedding_dimension as nat));
    lemma_has_field(e, 3, "jina_task"@, JsonView::Text(s.jina_task@));
    let r = d->Object_0[1].1;
    lemma_has_field(d, 1, "rerank"@, r);
    lemma_has_field(r, 0, "provider"@, rerank_provider);
    lemma_has_field(r, 1, "top_n"@, JsonView::Number(s.rerank_top_n as nat));
    lemma_has_field(r, 2, "jina_model"@, maybe_text_view(s.rerank_jina_model));
    lemma_has_field(r, 3, "ollama_model"@, maybe_text_view(s.rerank_ollama_model));
    let l = d->Object_0[2].1;
    lemma_has_field(d, 2, "llm"@, l);
    lemma_has_field(l, 0, "enabled"@, JsonView::Bool(s.llm_enabled));
    lemma_has_field(l, 1, "provider"@, JsonView::Text(s.llm_provider@));
    lemma_has_field(l, 2, "model"@, maybe_text_view(s.llm_model));
    lemma_has_field(l, 3, "context_window"@, JsonView::Number(s.llm_context_window as nat));
}

/// A value that is asked for is shown behind its key as it is, and one that there is not is shown as not set.
pub proof fn law_value_is_shown(key: Seq<char>, value: Seq<char>, text: &str)
    ensures
        line_text(value_line(key, Some(value))) == key + ": "@ + value,
        line_text(value_line(key, None)) == key + ": "@ + "not set"@,
        text_of(Some(text)) == Some(text@),
        text_of(None) is None,
{
    law_line_says_its_pieces(value_line(key, Some(value)));
    law_line_says_its_pieces(value_line(key, None));
}

/// The entries of a configuration give each key the value that stands beside it, and no other key a value.
pub proof fn law_entries_give_values(entries: Seq<(String, String)>, i: int, key: Seq<char>)
    requires
        keys_differ(entries),
    ensures
        0 <= i < entries.len() ==> value_of(entries_map(entries), entries[i].0@) == Some(
            entries[i].1@,
        ),
        (forall|j: int| 0 <= j < entries.len() ==> #[trigger] entries[j].0@ != key) ==> value_of(
            entries_map(entries),
            key,
        ) is None,
{
    if 0 <= i < entries.len() {
        let k = key_index(entries, entries[i].0@);
        assert(has_key(entries, entries[i].0@));
        assert(entries[k].0@ == entries[i].0@);
        if k < i {
            assert(entries[k].0@ != entries[i].0@);
        } else if i < k {
            assert(entries[i].0@ != entries[k].0@);
        }
    }
}

/// It is told that the configuration was reset exactly if it was, and otherwise that it was not changed.
pub proof fn law_reset_is_told(done: bool)
    ensures
        done ==> line_text(reset_line(done)) == "✓ Configuration reset to defaults"@,
        !done ==> line_text(reset_line(done)) == "Configuration not changed"@,
{
    law_line_says_its_pieces(reset_line(done));
}

/// An answer is a yes, whatever white space stands around it, if it is a `y` or a `Y`, and otherwise not.
pub proof fn law_answer(front: Seq<char>, said: Seq<char>, back: Seq<char>)
    requires
        parts_at_space(front + said + back, front, said, back),
    ensures
        confirmed(false, front + said + back) <==> said.len() == 1 && (said[0] == 'y' || said[0] == 'Y'),
{
    law_trimming_leaves_the_middle(front + said + back, front, said, back);
    if said.len() == 1 {
        assert(said =~= seq![said[0]]);
    }
    assert(seq!['y'][0] == 'y' && seq!['Y'][0] == 'Y');
}

/// Of a configuration, providers and models are shown in yellow, and that the language model is used in green.
pub proof fn law_colours_of_the_configuration(s: Settings, key: Seq<char>)
    ensures
        shows_in(embedding_lines(s), Style::BlueBold, "Current Configuration:"@),
        shows_in(embedding_lines(s), Style::Yellow, s.embedding_provider@),
        s.embedding_model is Some ==> shows_in(
            embedding_lines(s),
            Style::Yellow,
            s.embedding_model->0@,
        ),
        shows_in(rerank_lines(s), Style::GreenBold, "Reranking Settings:"@),
        shows_in(llm_lines(s), Style::GreenBold, "LLM Settings:"@),
        shows_in(llm_lines(s), Style::Yellow, s.llm_provider@),
        s.llm_enabled ==> shows_in(llm_lines(s), Style::Green, "yes"@),
        !s.llm_enabled ==> shows_in(llm_lines(s), Style::Yellow, "no (context-only)"@),
        s.llm_model is Some ==> shows_in(llm_lines(s), Style::Yellow, s.llm_model->0@),
        value_line(key, None)[2] == (Style::Dimmed, "not set"@),
{
    lemma_shows_in(embedding_lines(s), 0, 0, Style::BlueBold, "Current Configuration:"@);
    lemma_shows_in(embedding_lines(s), 1, 1, Style::Yellow, s.embedding_provider@);
    if s.embedding_model is Some {
        lemma_shows_in(embedding_lines(s), 2, 1, Style::Yellow, s.embedding_model->0@);
    }
    lemma_shows_in(rerank_lines(s), 1, 1, Style::GreenBold, "Reranking Settings:"@);
    lemma_shows_in(llm_lines(s), 1, 1, Style::GreenBold, "LLM Settings:"@);
    lemma_shows_in(llm_lines(s), 2, 1, Style::Yellow, s.llm_provider@);
    if s.llm_enabled {
        lemma_shows_in(llm_lines(s), 3, 1, Style::Green, "yes"@);
    }
    if !s.llm_enabled {
        lemma_shows_in(llm_lines(s), 3, 1, Style::Yellow, "no (context-only)"@);
    }
    if s.llm_model is Some {
        lemma_shows_in(llm_lines(s), 4, 1, Style::Yellow, s.llm_model->0@);
    }
}

} // verus!
