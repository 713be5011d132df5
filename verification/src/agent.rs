//! What the orchestrating agent may do, by the size of the context of its language model.
use crate::json::{has_field, lemma_has_field, Fields, Items, Json, JsonView};
use crate::json::{no_fields, object};
use crate::report::{Line, Report, Style};
use crate::report::{blank_line, field_line, law_line_says_its_pieces, lemma_shows, line_text};
use crate::report::{lemma_shows_in, shows, shows_in, styled_line, text_line};
use crate::text::{decimal, decimal_text};
use vstd::prelude::*;

verus! {

/// The entries of the cache of the agent.
pub const CACHE_SIZE: usize = 100;

/// The size of the context of a language model.
#[derive(Debug, Clone, Copy, PartialEq, Eq, Structural)]
pub enum ContextTier {
    Small,
    Medium,
    Large,
    Massive,
}

/// What the agent may do.
#[derive(Debug, Clone, Copy, PartialEq, Eq, Structural)]
pub struct AgentLimits {
    pub max_steps: usize,
    pub base_limit: usize,
    pub max_output_tokens: usize,
    /// Whether the output tokens are configured, rather than given by the size of the context.
    pub custom_tokens: bool,
}

/// The name of a size.
pub open spec fn tier_name(tier: ContextTier) -> Seq<char> {
    match tier {
        ContextTier::Small => "Small"@,
        ContextTier::Medium => "Medium"@,
        ContextTier::Large => "Large"@,
        ContextTier::Massive => "Massive"@,
    }
}

/// How wordy prompts are for a size.
pub open spec fn verbosity(tier: ContextTier) -> Seq<char> {
    match tier {
        ContextTier::Small => "TERSE"@,
        ContextTier::Medium => "BALANCED"@,
        ContextTier::Large => "DETAILED"@,
        ContextTier::Massive => "EXPLORATORY"@,
    }
}

/// Steps, search results and output tokens for a size.
pub open spec fn tier_parameters(tier: ContextTier) -> (usize, usize, usize) {
    match tier {
        ContextTier::Small => (5, 10, 2048),
        ContextTier::Medium => (10, 25, 4096),
        ContextTier::Large => (15, 50, 8192),
        ContextTier::Massive => (20, 100, 16384),
    }
}

/// What the agent may do with a context of the given size, if the given output tokens are configured.
pub open spec fn limits(tier: ContextTier, configured_tokens: Option<usize>) -> AgentLimits {
    let (max_steps, base_limit, default_tokens) = tier_parameters(tier);
    AgentLimits {
        max_steps,
        base_limit,
        max_output_tokens: match configured_tokens {
            Some(n) => n,
            None => default_tokens,
        },
        custom_tokens: configured_tokens is Some,
    }
}

impl ContextTier {
    /// The name of the size.
    pub fn name(&self) -> (r: &'static str)
        ensures
            r@ == tier_name(*self),
    {
        match self {
            ContextTier::Small => "Small",
            ContextTier::Medium => "Medium",
            ContextTier::Large => "Large",
            ContextTier::Massive => "Massive",
        }
    }

    /// How wordy prompts are.
    pub fn prompt_verbosity(&self) -> (r: &'static str)
        ensures
            r@ == verbosity(*self),
    {
        match self {
            ContextTier::Small => "TERSE",
            ContextTier::Medium => "BALANCED",
            ContextTier::Large => "DETAILED",
            ContextTier::Massive => "EXPLORATORY",
        }
    }

    /// What the agent may do, if the given output tokens are configured.
    pub fn limits(&self, configured_tokens: Option<usize>) -> (r: AgentLimits)
        ensures
            r == limits(*self, configured_tokens),
            configured_tokens matches Some(n) ==> r.max_output_tokens == n && r.custom_tokens,
            configured_tokens is None ==> !r.custom_tokens,
    {
        let (max_steps, base_limit, default_tokens): (usize, usize, usize) = match self {
            ContextTier::Small => (5, 10, 2048),
            ContextTier::Medium => (10, 25, 4096),
            ContextTier::Large => (15, 50, 8192),
            ContextTier::Massive => (20, 100, 16384),
        };
        match configured_tokens {
            Some(n) => AgentLimits {
                max_steps,
                base_limit,
                max_output_tokens: n,
                custom_tokens: true,
            },
            None => AgentLimits {
                max_steps,
                base_limit,
                max_output_tokens: default_tokens,
                custom_tokens: false,
            },
        }
    }
}

impl AgentLimits {
    /// Where the number of output tokens comes from.
    pub fn tokens_source(&self) -> (r: &'static str)
        ensures
            r@ == if self.custom_tokens {
                "custom"@
            } else {
                "tier_default"@
            },
    {
        if self.custom_tokens {
            "custom"
        } else {
            "tier_default"
        }
    }
}

/// The tools of the agent and what they are for.
pub open spec fn tool_texts() -> Seq<(Seq<char>, Seq<char>)> {
    seq![
        ("enhanced_search"@, "Search code with AI insights (2-5s)"@),
        ("pattern_detection"@, "Analyze coding patterns and conventions (1-3s)"@),
        ("vector_search"@, "Fast vector search (0.5s)"@),
        ("graph_neighbors"@, "Find dependencies for a code element (0.3s)"@),
        ("graph_traverse"@, "Follow dependency chains through code (0.5-2s)"@),
        ("codebase_qa"@, "Ask questions about code and get AI answers (5-30s)"@),
        ("semantic_intelligence"@, "Deep architectural analysis (30-120s)"@),
    ]
}

/// The kinds of analysis.
pub open spec fn analysis_texts() -> Seq<Seq<char>> {
    seq![
        "code_search"@,
        "dependency_analysis"@,
        "call_chain_analysis"@,
        "architecture_analysis"@,
        "api_surface_analysis"@,
        "context_builder"@,
        "semantic_question"@,
    ]
}

/// What some pairs of strings say.
pub open spec fn pairs_view(pairs: Seq<(&str, &str)>) -> Seq<(Seq<char>, Seq<char>)> {
    pairs.map_values(|p: (&str, &str)| (p.0@, p.1@))
}

/// What some strings say.
pub open spec fn names_view(names: Seq<&str>) -> Seq<Seq<char>> {
    names.map_values(|s: &str| s@)
}

/// The tools of the agent and what they are for.
pub fn mcp_tools() -> (r: Vec<(&'static str, &'static str)>)
    ensures
        pairs_view(r@) == tool_texts(),
        r@.len() == 7,
        r@[0].0@ == "enhanced_search"@ && r@[0].1@ == "Search code with AI insights (2-5s)"@,
        r@[1].0@ == "pattern_detection"@ && r@[1].1@
            == "Analyze coding patterns and conventions (1-3s)"@,
        r@[2].0@ == "vector_search"@ && r@[2].1@ == "Fast vector search (0.5s)"@,
        r@[3].0@ == "graph_neighbors"@ && r@[3].1@ == "Find dependencies for a code element (0.3s)"@,
        r@[4].0@ == "graph_traverse"@ && r@[4].1@
            == "Follow dependency chains through code (0.5-2s)"@,
        r@[5].0@ == "codebase_qa"@ && r@[5].1@
            == "Ask questions about code and get AI answers (5-30s)"@,
        r@[6].0@ == "semantic_intelligence"@ && r@[6].1@ == "Deep architectural analysis (30-120s)"@,
{
    let mut r: Vec<(&'static str, &'static str)> = Vec::new();
    r.push(("enhanced_search", "Search code with AI insights (2-5s)"));
    r.push(("pattern_detection", "Analyze coding patterns and conventions (1-3s)"));
    r.push(("vector_search", "Fast vector search (0.5s)"));
    r.push(("graph_neighbors", "Find dependencies for a code element (0.3s)"));
    r.push(("graph_traverse", "Follow dependency chains through code (0.5-2s)"));
    r.push(("codebase_qa", "Ask questions about code and get AI answers (5-30s)"));
    r.push(("semantic_intelligence", "Deep architectural analysis (30-120s)"));
    assert(pairs_view(r@) =~= tool_texts());
    r
}

/// The kinds of analysis.
pub fn analysis_types() -> (r: Vec<&'static str>)
    ensures
        names_view(r@) == analysis_texts(),
        r@.len() == 7,
        r@[0]@ == "code_search"@,
        r@[1]@ == "dependency_analysis"@,
        r@[2]@ == "call_chain_analysis"@,
        r@[3]@ == "architecture_analysis"@,
        r@[4]@ == "api_surface_analysis"@,
        r@[5]@ == "context_builder"@,
        r@[6]@ == "semantic_question"@,
{
    let mut r: Vec<&'static str> = Vec::new();
    r.push("code_search");
    r.push("dependency_analysis");
    r.push("call_chain_analysis");
    r.push("architecture_analysis");
    r.push("api_surface_analysis");
    r.push("context_builder");
    r.push("semantic_question");
    assert(names_view(r@) =~= analysis_texts());
    r
}

/// What is configured of the language model of the agent.
#[derive(Debug)]
pub struct AgentConfig<'a> {
    pub provider: &'a str,
    pub model: Option<&'a str>,
    pub enabled: bool,
    pub context_window: usize,
    pub max_output_tokens: Option<usize>,
    pub tier: ContextTier,
}

/// The model, or that it is found out.
pub open spec fn model_text(model: Option<&str>) -> Seq<char> {
    match model {
        Some(m) => m@,
        None => "auto-detected"@,
    }
}

/// The model, or that it is found out.
pub fn model_name<'a>(model: Option<&'a str>) -> (r: &'a str)
    ensures
        r@ == model_text(model),
{
    match model {
        Some(m) => m,
        None => "auto-detected",
    }
}

/// What is shown of the language model and of its context.
pub open spec fn model_lines(c: AgentConfig) -> Seq<Seq<(Style, Seq<char>)>> {
    seq![
        styled_line(
            Style::BlueBold,
            "╔══════════════════════════════════════════════════════════════════════╗"@,
        ),
        styled_line(
            Style::BlueBold,
            "║          CodeGraph Orchestrator-Agent Configuration                  ║"@,
        ),
        styled_line(
            Style::BlueBold,
            "╚══════════════════════════════════════════════════════════════════════╝"@,
        ),
        blank_line(),
        styled_line(Style::GreenBold, "🤖 LLM Configuration"@),
        field_line("   Provider: "@, Style::Yellow, c.provider@),
        field_line("   Model: "@, Style::Yellow, model_text(c.model)),
        if c.enabled {
            field_line("   Status: "@, Style::Green, "Enabled"@)
        } else {
            field_line("   Status: "@, Style::Yellow, "Context-only mode"@)
        },
        blank_line(),
    ]
}

/// What is shown of the context and of what the agent may do.
pub open spec fn limit_lines(c: AgentConfig) -> Seq<Seq<(Style, Seq<char>)>> {
    let l = limits(c.tier, c.max_output_tokens);
    seq![
        styled_line(Style::GreenBold, "📊 Context Configuration"@),
        seq![
            (Style::Plain, "   Tier: "@),
            (Style::Yellow, tier_name(c.tier)),
            (Style::Plain, " ("@),
            (Style::Cyan, decimal(c.context_window as nat)),
            (Style::Plain, " tokens)"@),
        ],
        field_line("   Prompt Verbosity: "@, Style::Cyan, verbosity(c.tier)),
        seq![
            (Style::Plain, "   Base Search Limit: "@),
            (Style::Cyan, decimal(l.base_limit as nat)),
            (Style::Plain, " results"@),
        ],
        blank_line(),
        styled_line(Style::GreenBold, "⚙️  Orchestrator Settings"@),
        field_line("   Max Steps per Workflow: "@, Style::Cyan, decimal(l.max_steps as nat)),
        seq![
            (Style::Plain, "   Cache: "@),
            (Style::Green, "Enabled"@),
            (Style::Plain, " (size: "@),
            (Style::Cyan, decimal(CACHE_SIZE as nat)),
            (Style::Plain, " entries)"@),
        ],
        seq![
            (Style::Plain, "   Max Output Tokens: "@),
            (Style::Cyan, decimal(l.max_output_tokens as nat)),
            (
                Style::Plain,
                if l.custom_tokens {
                    " (custom)"@
                } else {
                    " (tier default)"@
                },
            ),
        ],
        blank_line(),
    ]
}

/// What is shown of the tools: two lines for each.
pub open spec fn tool_lines(
    tools: Seq<(Seq<char>, Seq<char>)>,
    prompts: Seq<char>,
) -> Seq<Seq<(Style, Seq<char>)>>
    decreases tools.len(),
{
    if tools.len() == 0 {
        Seq::empty()
    } else {
        let (name, purpose) = tools.last();
        tool_lines(tools.drop_last(), prompts).push(
            seq![
                (Style::Plain, "   • "@),
                (Style::Yellow, name),
                (Style::Plain, " ["@),
                (Style::Cyan, prompts),
                (Style::Plain, "]"@),
            ],
        ).push(field_line("     "@, Style::Dimmed, purpose))
    }
}

/// What is shown of the kinds of analysis: a line for each.
pub open spec fn analysis_lines(
    names: Seq<Seq<char>>,
    prompts: Seq<char>,
) -> Seq<Seq<(Style, Seq<char>)>> {
    names.map_values(
        |name: Seq<char>|
            seq![
                (Style::Plain, "   • "@),
                (Style::Yellow, name),
                (Style::Plain, " → "@),
                (Style::Cyan, prompts),
            ],
    )
}

/// What is shown of the sizes.
pub open spec fn tier_lines(tier: ContextTier) -> Seq<Seq<(Style, Seq<char>)>> {
    seq![
        styled_line(Style::GreenBold, "📈 Context Tier Details"@),
        text_line("   Small (< 50K):        5 steps,  10 results, TERSE prompts"@),
        text_line("   Medium (50K-150K):   10 steps,  25 results, BALANCED prompts"@),
        text_line("   Large (150K-500K):   15 steps,  50 results, DETAILED prompts"@),
        text_line("   Massive (> 500K):    20 steps, 100 results, EXPLORATORY prompts"@),
        blank_line(),
        field_line("   Current tier: "@, Style::GreenBold, tier_name(tier)),
    ]
}

/// What is shown of the agent.
pub open spec fn agent_lines(c: AgentConfig) -> Seq<Seq<(Style, Seq<char>)>> {
    model_lines(c) + limit_lines(c) + seq![
        styled_line(Style::GreenBold, "🛠️  Available MCP Tools"@),
    ] + tool_lines(tool_texts(), verbosity(c.tier)) + seq![
        blank_line(),
        styled_line(Style::GreenBold, "🔍 Analysis Types & Prompt Variants"@),
    ] + analysis_lines(analysis_texts(), verbosity(c.tier)) + seq![blank_line()] + tier_lines(c.tier)
}

fn push_model(r: &mut Report, c: &AgentConfig<'_>)
    ensures
        final(r)@ == old(r)@ + model_lines(*c),
{
    r.styled(
        Style::BlueBold,
        "╔══════════════════════════════════════════════════════════════════════╗",
    );
    r.styled(
        Style::BlueBold,
        "║          CodeGraph Orchestrator-Agent Configuration                  ║",
    );
    r.styled(
        Style::BlueBold,
        "╚══════════════════════════════════════════════════════════════════════╝",
    );
    r.blank();
    r.styled(Style::GreenBold, "🤖 LLM Configuration");
    r.field("   Provider: ", Style::Yellow, c.provider);
    r.field("   Model: ", Style::Yellow, model_name(c.model));
    if c.enabled {
        r.field("   Status: ", Style::Green, "Enabled");
    } else {
        r.field("   Status: ", Style::Yellow, "Context-only mode");
    }
    r.blank();
    assert(r@ =~= old(r)@ + model_lines(*c));
}

fn push_limits(r: &mut Report, c: &AgentConfig<'_>)
    ensures
        final(r)@ == old(r)@ + limit_lines(*c),
{
    let l = c.tier.limits(c.max_output_tokens);
    r.styled(Style::GreenBold, "📊 Context Configuration");
    r.push(
        Line::new().plain("   Tier: ").with(Style::Yellow, c.tier.name()).plain(" (").with(
            Style::Cyan,
            decimal_text(c.context_window as u64).as_str(),
        ).plain(" tokens)"),
    );
    r.field("   Prompt Verbosity: ", Style::Cyan, c.tier.prompt_verbosity());
    r.push(
        Line::new().plain("   Base Search Limit: ").with(
            Style::Cyan,
            decimal_text(l.base_limit as u64).as_str(),
        ).plain(" results"),
    );
    r.blank();
    r.styled(Style::GreenBold, "⚙️  Orchestrator Settings");
    r.field(
        "   Max Steps per Workflow: ",
        Style::Cyan,
        decimal_text(l.max_steps as u64).as_str(),
    );
    r.push(
        Line::new().plain("   Cache: ").with(Style::Green, "Enabled").plain(" (size: ").with(
            Style::Cyan,
            decimal_text(CACHE_SIZE as u64).as_str(),
        ).plain(" entries)"),
    );
    let source = if l.custom_tokens {
        " (custom)"
    } else {
        " (tier default)"
    };
    r.push(
        Line::new().plain("   Max Output Tokens: ").with(
            Style::Cyan,
            decimal_text(l.max_output_tokens as u64).as_str(),
        ).plain(source),
    );
    r.blank();
    assert(r@ =~~= old(r)@ + limit_lines(*c));
}

fn push_tools(r: &mut Report, prompts: &str)
    ensures
        final(r)@ == old(r)@ + tool_lines(tool_texts(), prompts@),
{
    let tools = mcp_tools();
    let n: usize = tools.len();
    let ghost all = pairs_view(tools@);
    let mut i: usize = 0;
    assert(r@ =~= old(r)@ + tool_lines(all.take(0), prompts@));
    while i < n
        invariant
            i <= n == tools@.len(),
            all == pairs_view(tools@),
            r@ == old(r)@ + tool_lines(all.take(i as int), prompts@),
        decreases n - i,
    {
        let ghost before = tool_lines(all.take(i as int), prompts@);
        let (name, purpose) = tools[i];
        let line = Line::new().plain("   • ").with(Style::Yellow, name).plain(" [").with(
            Style::Cyan,
            prompts,
        ).plain("]");
        let ghost named = line@;
        r.push(line);
        r.field("     ", Style::Dimmed, purpose);
        proof {
            assert(all.take(i + 1).drop_last() =~= all.take(i as int));
            assert(named =~= seq![
                (Style::Plain, "   • "@),
                (Style::Yellow, name@),
                (Style::Plain, " ["@),
                (Style::Cyan, prompts@),
                (Style::Plain, "]"@),
            ]);
            assert(r@ =~= old(r)@ + before.push(named).push(
                field_line("     "@, Style::Dimmed, purpose@),
            ));
        }
        i = i + 1;
    }
    assert(all.take(n as int) =~= all);
}

fn push_analyses(r: &mut Report, prompts: &str)
    ensures
        final(r)@ == old(r)@ + analysis_lines(analysis_texts(), prompts@),
{
    let names = analysis_types();
    let n: usize = names.len();
    let ghost all = names_view(names@);
    let mut i: usize = 0;
    while i < n
        invariant
            i <= n == names@.len(),
            all == names_view(names@),
            r@ == old(r)@ + analysis_lines(all.take(i as int), prompts@),
        decreases n - i,
    {
        r.push(
            Line::new().plain("   • ").with(Style::Yellow, names[i]).plain(" → ").with(
                Style::Cyan,
                prompts,
            ),
        );
        i = i + 1;
        assert(r@ =~~= old(r)@ + analysis_lines(all.take(i as int), prompts@));
    }
    assert(all.take(n as int) =~= all);
}

fn push_tiers(r: &mut Report, tier: ContextTier)
    ensures
        final(r)@ == old(r)@ + tier_lines(tier),
{
    r.styled(Style::GreenBold, "📈 Context Tier Details");
    r.text("   Small (< 50K):        5 steps,  10 results, TERSE prompts");
    r.text("   Medium (50K-150K):   10 steps,  25 results, BALANCED prompts");
    r.text("   Large (150K-500K):   15 steps,  50 results, DETAILED prompts");
    r.text("   Massive (> 500K):    20 steps, 100 results, EXPLORATORY prompts");
    r.blank();
    r.field("   Current tier: ", Style::GreenBold, tier.name());
    assert(r@ =~= old(r)@ + tier_lines(tier));
}

/// What is shown of the agent.
pub fn agent_report(c: &AgentConfig<'_>) -> (r: Report)
    ensures
        r@ == agent_lines(*c),
{
    let prompts = c.tier.prompt_verbosity();
    let mut r = Report::new();
    push_model(&mut r, c);
    push_limits(&mut r, c);
    r.styled(Style::GreenBold, "🛠️  Available MCP Tools");
    push_tools(&mut r, prompts);
    r.blank();
    r.styled(Style::GreenBold, "🔍 Analysis Types & Prompt Variants");
    push_analyses(&mut r, prompts);
    r.blank();
    push_tiers(&mut r, c.tier);
    assert(r@ =~= agent_lines(*c));
    r
}

/// The order of the sizes.
pub open spec fn tier_rank(tier: ContextTier) -> int {
    match tier {
        ContextTier::Small => 0,
        ContextTier::Medium => 1,
        ContextTier::Large => 2,
        ContextTier::Massive => 3,
    }
}

/// A larger context allows more of everything, unless the output tokens are configured, which then
/// decide.
pub proof fn law_larger_context_allows_more(a: ContextTier, b: ContextTier, tokens: Option<usize>)
    requires
        tier_rank(a) < tier_rank(b),
    ensures
        limits(a, tokens).max_steps < limits(b, tokens).max_steps,
        limits(a, tokens).base_limit < limits(b, tokens).base_limit,
        limits(a, None).max_output_tokens < limits(b, None).max_output_tokens,
        tokens is Some ==> limits(a, tokens).max_output_tokens == limits(b, tokens).max_output_tokens,
{
}

/// The language model of the agent, as a document.
pub open spec fn llm_document(c: AgentConfig) -> JsonView {
    object(no_fields()
        .push(("provider"@, JsonView::Text(c.provider@)))
        .push(("model"@, JsonView::Text(model_text(c.model))))
        .push(("enabled"@, JsonView::Bool(c.enabled))))
}

/// The context of the agent, as a document.
pub open spec fn context_document(c: AgentConfig) -> JsonView {
    object(no_fields()
        .push(("tier"@, JsonView::Text(tier_name(c.tier))))
        .push(("window_size"@, JsonView::Number(c.context_window as nat)))
        .push(("prompt_verbosity"@, JsonView::Text(verbosity(c.tier)))))
}

/// What the agent may do, as a document.
pub open spec fn orchestrator_document(c: AgentConfig) -> JsonView {
    let l = limits(c.tier, c.max_output_tokens);
    object(no_fields()
        .push(("max_steps"@, JsonView::Number(l.max_steps as nat)))
        .push(("base_search_limit"@, JsonView::Number(l.base_limit as nat)))
        .push(("cache_enabled"@, JsonView::Bool(true)))
        .push(("cache_size"@, JsonView::Number(CACHE_SIZE as nat)))
        .push(("max_output_tokens"@, JsonView::Number(l.max_output_tokens as nat)))
        .push((
                "max_output_tokens_source"@,
                JsonView::Text(
                    if l.custom_tokens {
                        "custom"@
                    } else {
                        "tier_default"@
                    },
                ),
    )))
}

/// A tool, as a document.
pub open spec fn tool_document(tool: (Seq<char>, Seq<char>), prompts: Seq<char>) -> JsonView {
    object(no_fields()
        .push(("name"@, JsonView::Text(tool.0)))
        .push(("description"@, JsonView::Text(tool.1)))
        .push(("prompt_type"@, JsonView::Text(prompts))))
}

/// A kind of analysis, as a document.
pub open spec fn analysis_document(name: Seq<char>, prompts: Seq<char>) -> JsonView {
    object(no_fields()
        .push(("name"@, JsonView::Text(name)))
        .push(("prompt_type"@, JsonView::Text(prompts))))
}

/// The agent, as a document.
pub open spec fn agent_document(c: AgentConfig) -> JsonView {
    let prompts = verbosity(c.tier);
    object(no_fields()
        .push(("llm"@, llm_document(c)))
        .push(("context"@, context_document(c)))
        .push(("orchestrator"@, orchestrator_document(c)))
        .push((
                "mcp_tools"@,
                JsonView::List(
                    tool_texts().map_values(
                        |tool: (Seq<char>, Seq<char>)| tool_document(tool, prompts),
                    ),
                ),
        ))
        .push((
                "analysis_types"@,
                JsonView::List(
                    analysis_texts().map_values(|name: Seq<char>| analysis_document(name, prompts)),
                ),
    )))
}

fn llm_json(c: &AgentConfig<'_>) -> (r: Json)
    ensures
        r@ == llm_document(*c),
{
    Fields::new().with("provider", Json::text(c.provider)).with(
        "model",
        Json::text(model_name(c.model)),
    ).with("enabled", Json::Bool(c.enabled)).done()
}

fn context_json(c: &AgentConfig<'_>) -> (r: Json)
    ensures
        r@ == context_document(*c),
{
    Fields::new().with("tier", Json::text(c.tier.name())).with(
        "window_size",
        Json::number(c.context_window),
    ).with("prompt_verbosity", Json::text(c.tier.prompt_verbosity())).done()
}

fn orchestrator_json(c: &AgentConfig<'_>) -> (r: Json)
    ensures
        r@ == orchestrator_document(*c),
{
    let l = c.tier.limits(c.max_output_tokens);
    Fields::new().with("max_steps", Json::number(l.max_steps)).with(
        "base_search_limit",
        Json::number(l.base_limit),
    ).with("cache_enabled", Json::Bool(true)).with("cache_size", Json::number(CACHE_SIZE)).with(
        "max_output_tokens",
        Json::number(l.max_output_tokens),
    ).with("max_output_tokens_source", Json::text(l.tokens_source())).done()
}

fn tools_json(prompts: &str) -> (r: Json)
    ensures
        r@ == JsonView::List(
            tool_texts().map_values(|tool: (Seq<char>, Seq<char>)| tool_document(tool, prompts@)),
        ),
{
    let tools = mcp_tools();
    let n: usize = tools.len();
    let ghost all = pairs_view(tools@);
    let mut list = Items::new();
    let mut i: usize = 0;
    while i < n
        invariant
            i <= n == tools@.len(),
            all == pairs_view(tools@),
            list@ == all.take(i as int).map_values(
                |tool: (Seq<char>, Seq<char>)| tool_document(tool, prompts@),
            ),
        decreases n - i,
    {
        let (name, purpose) = tools[i];
        let tool = Fields::new().with("name", Json::text(name)).with(
            "description",
            Json::text(purpose),
        ).with("prompt_type", Json::text(prompts)).done();
        list.push(tool);
        i = i + 1;
        assert(list@ =~= all.take(i as int).map_values(
            |tool: (Seq<char>, Seq<char>)| tool_document(tool, prompts@),
        ));
    }
    assert(all.take(n as int) =~= all);
    list.done()
}

fn analyses_json(prompts: &str) -> (r: Json)
    ensures
        r@ == JsonView::List(
            analysis_texts().map_values(|name: Seq<char>| analysis_document(name, prompts@)),
        ),
{
    let names = analysis_types();
    let n: usize = names.len();
    let ghost all = names_view(names@);
    let mut list = Items::new();
    let mut i: usize = 0;
    while i < n
        invariant
            i <= n == names@.len(),
            all == names_view(names@),
            list@ == all.take(i as int).map_values(
                |name: Seq<char>| analysis_document(name, prompts@),
            ),
        decreases n - i,
    {
        let analysis = Fields::new().with("name", Json::text(names[i])).with(
            "prompt_type",
            Json::text(prompts),
        ).done();
        list.push(analysis);
        i = i + 1;
        assert(list@ =~= all.take(i as int).map_values(
            |name: Seq<char>| analysis_document(name, prompts@),
        ));
    }
    assert(all.take(n as int) =~= all);
    list.done()
}

/// The agent, as a document.
pub fn agent_json(c: &AgentConfig<'_>) -> (r: Json)
    ensures
        r@ == agent_document(*c),
{
    let prompts = c.tier.prompt_verbosity();
    Fields::new().with("llm", llm_json(c)).with("context", context_json(c)).with(
        "orchestrator",
        orchestrator_json(c),
    ).with("mcp_tools", tools_json(prompts)).with("analysis_types", analyses_json(prompts)).done()
}

/// With each size, the agent gets five steps more and twice the output tokens, from five steps and 2048 tokens
/// on, and more search results. Output tokens that are configured are taken as they are, and change nothing
/// else.
pub proof fn law_limits_by_size(tier: ContextTier, next: ContextTier, tokens: usize)
    ensures
        limits(tier, None).max_steps == 5 * (tier_rank(tier) + 1),
        tier_rank(next) == tier_rank(tier) + 1 ==> limits(next, None).max_output_tokens == 2 * limits(
            tier,
            None,
        ).max_output_tokens,
        limits(ContextTier::Small, None).max_output_tokens == 2048,
        limits(ContextTier::Small, None).base_limit == 10,
        limits(ContextTier::Medium, None).base_limit == 25,
        limits(ContextTier::Large, None).base_limit == 50,
        limits(ContextTier::Massive, None).base_limit == 100,
        limits(tier, Some(tokens)).max_output_tokens == tokens,
        limits(tier, Some(tokens)).custom_tokens,
        !limits(tier, None).custom_tokens,
        limits(tier, Some(tokens)).max_steps == limits(tier, None).max_steps,
        limits(tier, Some(tokens)).base_limit == limits(tier, None).base_limit,
{
}

/// Sizes are told apart by their names, and by how wordy prompts are for them.
pub proof fn law_sizes_have_their_names(a: ContextTier, b: ContextTier)
    ensures
        tier_name(a) == tier_name(b) <==> a == b,
        verbosity(a) == verbosity(b) <==> a == b,
        tier_name(ContextTier::Small) == "Small"@,
        tier_name(ContextTier::Medium) == "Medium"@,
        tier_name(ContextTier::Large) == "Large"@,
        tier_name(ContextTier::Massive) == "Massive"@,
        verbosity(ContextTier::Small) == "TERSE"@,
        verbosity(ContextTier::Medium) == "BALANCED"@,
        verbosity(ContextTier::Large) == "DETAILED"@,
        verbosity(ContextTier::Massive) == "EXPLORATORY"@,
{
    reveal_strlit("Small");
    reveal_strlit("Medium");
    reveal_strlit("Large");
    reveal_strlit("Massive");
    reveal_strlit("TERSE");
    reveal_strlit("BALANCED");
    reveal_strlit("DETAILED");
    reveal_strlit("EXPLORATORY");
    if tier_name(a) =~= tier_name(b) {
        assert(tier_name(a).len() == tier_name(b).len());
        assert(tier_name(a)[0] == tier_name(b)[0]);
        assert(a == b);
    }
    if verbosity(a) =~= verbosity(b) {
        assert(verbosity(a).len() == verbosity(b).len());
        assert(verbosity(a)[0] == verbosity(b)[0]);
        assert(a == b);
    }
}

/// A model that is configured is named as it is; otherwise it is said to be found out.
pub proof fn law_model_is_named(model: &str)
    ensures
        model_text(Some(model)) == model@,
        model_text(None) == "auto-detected"@,
{
}

/// The language model of the agent is shown with its provider and its name, and with whether it is used.
pub proof fn law_agent_model_is_shown(c: AgentConfig)
    ensures
        shows(model_lines(c), "   Provider: "@ + c.provider@),
        shows(model_lines(c), "   Model: "@ + model_text(c.model)),
        c.enabled ==> shows(model_lines(c), "   Status: "@ + "Enabled"@),
        !c.enabled ==> shows(model_lines(c), "   Status: "@ + "Context-only mode"@),
        model_lines(c).len() == 9,
{
    let lines = model_lines(c);
    lemma_shows(lines, 5, "   Provider: "@ + c.provider@);
    lemma_shows(lines, 6, "   Model: "@ + model_text(c.model));
    if c.enabled {
        lemma_shows(lines, 7, "   Status: "@ + "Enabled"@);
    } else {
        lemma_shows(lines, 7, "   Status: "@ + "Context-only mode"@);
    }
}

/// What the agent may do is shown, number by number, behind the label of each; output tokens that are configured
/// are shown as such.
pub proof fn law_agent_limits_are_shown(c: AgentConfig)
    ensures
        ({
            let lines = limit_lines(c);
            let l = limits(c.tier, c.max_output_tokens);
            &&& shows(
                lines,
                "   Tier: "@ + tier_name(c.tier) + " ("@ + decimal(c.context_window as nat)
                    + " tokens)"@,
            )
            &&& shows(lines, "   Prompt Verbosity: "@ + verbosity(c.tier))
            &&& shows(
                lines,
                "   Base Search Limit: "@ + decimal(l.base_limit as nat) + " results"@,
            )
            &&& shows(lines, "   Max Steps per Workflow: "@ + decimal(l.max_steps as nat))
            &&& shows(
                lines,
                "   Cache: "@ + "Enabled"@ + " (size: "@ + decimal(100) + " entries)"@,
            )
            &&& c.max_output_tokens is Some ==> shows(
                lines,
                "   Max Output Tokens: "@ + decimal(c.max_output_tokens->0 as nat) + " (custom)"@,
            )
            &&& c.max_output_tokens is None ==> shows(
                lines,
                "   Max Output Tokens: "@ + decimal(l.max_output_tokens as nat)
                    + " (tier default)"@,
            )
            &&& lines.len() == 10
        }),
{
    let lines = limit_lines(c);
    let l = limits(c.tier, c.max_output_tokens);
    lemma_shows(
        lines,
        1,
        "   Tier: "@ + tier_name(c.tier) + " ("@ + decimal(c.context_window as nat) + " tokens)"@,
    );
    lemma_shows(lines, 2, "   Prompt Verbosity: "@ + verbosity(c.tier));
    lemma_shows(lines, 3, "   Base Search Limit: "@ + decimal(l.base_limit as nat) + " results"@);
    lemma_shows(lines, 6, "   Max Steps per Workflow: "@ + decimal(l.max_steps as nat));
    lemma_shows(
        lines,
        7,
        "   Cache: "@ + "Enabled"@ + " (size: "@ + decimal(100) + " entries)"@,
    );
    if c.max_output_tokens is Some {
        lemma_shows(
            lines,
            8,
            "   Max Output Tokens: "@ + decimal(c.max_output_tokens->0 as nat) + " (custom)"@,
        );
    } else {
        lemma_shows(
            lines,
            8,
            "   Max Output Tokens: "@ + decimal(l.max_output_tokens as nat) + " (tier default)"@,
        );
    }
}

/// Each tool is shown in two lines, in its place: its name with how wordy its prompts are, and what it is for.
pub proof fn law_tools_are_shown(tools: Seq<(Seq<char>, Seq<char>)>, prompts: Seq<char>, i: int)
    requires
        0 <= i < tools.len(),
    ensures
        tool_lines(tools, prompts).len() == 2 * tools.len(),
        line_text(tool_lines(tools, prompts)[2 * i]) == "   • "@ + tools[i].0 + " ["@ + prompts + "]"@,
        line_text(tool_lines(tools, prompts)[2 * i + 1]) == "     "@ + tools[i].1,
    decreases tools.len(),
{
    let earlier = tools.drop_last();
    let n = earlier.len() as int;
    if n > 0 {
        let k = if i < n {
            i
        } else {
            0
        };
        law_tools_are_shown(earlier, prompts, k);
    } else {
        assert(tool_lines(earlier, prompts).len() == 0);
    }
    let lines = tool_lines(tools, prompts);
    if i == n {
        law_line_says_its_pieces(lines[2 * n]);
        law_line_says_its_pieces(lines[2 * n + 1]);
    } else {
        assert(lines[2 * i] == tool_lines(earlier, prompts)[2 * i]);
        assert(lines[2 * i + 1] == tool_lines(earlier, prompts)[2 * i + 1]);
    }
}

/// Each kind of analysis is shown in its place, with how wordy its prompts are.
pub proof fn law_analyses_are_shown(names: Seq<Seq<char>>, prompts: Seq<char>, i: int)
    requires
        0 <= i < names.len(),
    ensures
        analysis_lines(names, prompts).len() == names.len(),
        line_text(analysis_lines(names, prompts)[i]) == "   • "@ + names[i] + " → "@ + prompts,
{
    law_line_says_its_pieces(analysis_lines(names, prompts)[i]);
}

/// The size that the agent has is shown by its name.
pub proof fn law_current_size_is_shown(tier: ContextTier)
    ensures
        shows(tier_lines(tier), "   Current tier: "@ + tier_name(tier)),
        tier_lines(tier).len() == 7,
{
    lemma_shows(tier_lines(tier), 6, "   Current tier: "@ + tier_name(tier));
}

/// The document of the agent has each setting under its own name, in the part that it belongs to.
pub proof fn law_agent_document_has_settings(c: AgentConfig)
    ensures
        has_field(agent_document(c), "llm"@, llm_document(c)),
        has_field(agent_document(c), "context"@, context_document(c)),
        has_field(agent_document(c), "orchestrator"@, orchestrator_document(c)),
        agent_document(c)->Object_0.len() == 5,
        has_field(llm_document(c), "provider"@, JsonView::Text(c.provider@)),
        has_field(llm_document(c), "model"@, JsonView::Text(model_text(c.model))),
        has_field(llm_document(c), "enabled"@, JsonView::Bool(c.enabled)),
        llm_document(c)->Object_0.len() == 3,
        has_field(context_document(c), "tier"@, JsonView::Text(tier_name(c.tier))),
        has_field(context_document(c), "window_size"@, JsonView::Number(c.context_window as nat)),
        has_field(context_document(c), "prompt_verbosity"@, JsonView::Text(verbosity(c.tier))),
        context_document(c)->Object_0.len() == 3,
{
    let d = agent_document(c);
    lemma_has_field(d, 0, "llm"@, llm_document(c));
    lemma_has_field(d, 1, "context"@, context_document(c));
    lemma_has_field(d, 2, "orchestrator"@, orchestrator_document(c));
    let l = llm_document(c);
    lemma_has_field(l, 0, "provider"@, JsonView::Text(c.provider@));
    lemma_has_field(l, 1, "model"@, JsonView::Text(model_text(c.model)));
    lemma_has_field(l, 2, "enabled"@, JsonView::Bool(c.enabled));
    let x = context_document(c);
    lemma_has_field(x, 0, "tier"@, JsonView::Text(tier_name(c.tier)));
    lemma_has_field(x, 1, "window_size"@, JsonView::Number(c.context_window as nat));
    lemma_has_field(x, 2, "prompt_verbosity"@, JsonView::Text(verbosity(c.tier)));
}

/// The document of the agent has what it may do, and where the number of output tokens comes from.
pub proof fn law_agent_document_has_limits(c: AgentConfig)
    ensures
        ({
            let d = orchestrator_document(c);
            let l = limits(c.tier, c.max_output_tokens);
            &&& has_field(d, "max_steps"@, JsonView::Number(l.max_steps as nat))
            &&& has_field(d, "base_search_limit"@, JsonView::Number(l.base_limit as nat))
            &&& has_field(d, "cache_enabled"@, JsonView::Bool(true))
            &&& has_field(d, "cache_size"@, JsonView::Number(100))
            &&& has_field(d, "max_output_tokens"@, JsonView::Number(l.max_output_tokens as nat))
            &&& c.max_output_tokens is Some ==> has_field(
                d,
                "max_output_tokens_source"@,
                JsonView::Text("custom"@),
            )
            &&& c.max_output_tokens is None ==> has_field(
                d,
                "max_output_tokens_source"@,
                JsonView::Text("tier_default"@),
            )
            &&& d->Object_0.len() == 6
        }),
{
    let d = orchestrator_document(c);
    let l = limits(c.tier, c.max_output_tokens);
    lemma_has_field(d, 0, "max_steps"@, JsonView::Number(l.max_steps as nat));
    lemma_has_field(d, 1, "base_search_limit"@, JsonView::Number(l.base_limit as nat));
    lemma_has_field(d, 2, "cache_enabled"@, JsonView::Bool(true));
    lemma_has_field(d, 3, "cache_size"@, JsonView::Number(100));
    lemma_has_field(d, 4, "max_output_tokens"@, JsonView::Number(l.max_output_tokens as nat));
    lemma_has_field(d, 5, "max_output_tokens_source"@, d->Object_0[5].1);
}

/// The document of the agent lists every tool and every kind of analysis in its place, each with its name and
/// with how wordy its prompts are, and a tool with what it is for.
pub proof fn law_agent_document_lists_tools(c: AgentConfig, i: int)
    ensures
        exists|tools: Seq<JsonView>| #[trigger]
            has_field(agent_document(c), "mcp_tools"@, JsonView::List(tools)) && tools.len()
                == tool_texts().len() && (0 <= i < tools.len() ==> {
                &&& has_field(tools[i], "name"@, JsonView::Text(tool_texts()[i].0))
                &&& has_field(tools[i], "description"@, JsonView::Text(tool_texts()[i].1))
                &&& has_field(tools[i], "prompt_type"@, JsonView::Text(verbosity(c.tier)))
            }),
        exists|names: Seq<JsonView>| #[trigger]
            has_field(agent_document(c), "analysis_types"@, JsonView::List(names)) && names.len()
                == analysis_texts().len() && (0 <= i < names.len() ==> {
                &&& has_field(names[i], "name"@, JsonView::Text(analysis_texts()[i]))
                &&& has_field(names[i], "prompt_type"@, JsonView::Text(verbosity(c.tier)))
            }),
{
    let d = agent_document(c);
    let tools = d->Object_0[3].1->List_0;
    lemma_has_field(d, 3, "mcp_tools"@, JsonView::List(tools));
    if 0 <= i < tools.len() {
        lemma_has_field(tools[i], 0, "name"@, JsonView::Text(tool_texts()[i].0));
        lemma_has_field(tools[i], 1, "description"@, JsonView::Text(tool_texts()[i].1));
        lemma_has_field(tools[i], 2, "prompt_type"@, JsonView::Text(verbosity(c.tier)));
    }
    let names = d->Object_0[4].1->List_0;
    lemma_has_field(d, 4, "analysis_types"@, JsonView::List(names));
    if 0 <= i < names.len() {
        lemma_has_field(names[i], 0, "name"@, JsonView::Text(analysis_texts()[i]));
        lemma_has_field(names[i], 1, "prompt_type"@, JsonView::Text(verbosity(c.tier)));
    }
}

/// What some strings say is what each of them says, in order.
pub proof fn law_strings_in_order(pairs: Seq<(&str, &str)>, names: Seq<&str>)
    ensures
        pairs_view(pairs).len() == pairs.len(),
        forall|i: int|
            0 <= i < pairs.len() ==> #[trigger] pairs_view(pairs)[i] == (pairs[i].0@, pairs[i].1@),
        names_view(names).len() == names.len(),
        forall|i: int| 0 <= i < names.len() ==> #[trigger] names_view(names)[i] == names[i]@,
{
}

/// Of the agent, names and models are shown in yellow, numbers in cyan, and what is enabled in green.
pub proof fn law_colours_of_the_agent(c: AgentConfig)
    ensures
        shows_in(model_lines(c), Style::GreenBold, "🤖 LLM Configuration"@),
        shows_in(model_lines(c), Style::Yellow, c.provider@),
        shows_in(model_lines(c), Style::Yellow, model_text(c.model)),
        c.enabled ==> shows_in(model_lines(c), Style::Green, "Enabled"@),
        !c.enabled ==> shows_in(model_lines(c), Style::Yellow, "Context-only mode"@),
        shows_in(limit_lines(c), Style::GreenBold, "📊 Context Configuration"@),
        shows_in(limit_lines(c), Style::Yellow, tier_name(c.tier)),
        shows_in(limit_lines(c), Style::Cyan, decimal(c.context_window as nat)),
        shows_in(limit_lines(c), Style::Cyan, verbosity(c.tier)),
        shows_in(
            limit_lines(c),
            Style::Cyan,
            decimal(limits(c.tier, c.max_output_tokens).base_limit as nat),
        ),
        shows_in(limit_lines(c), Style::GreenBold, "⚙️  Orchestrator Settings"@),
        shows_in(
            limit_lines(c),
            Style::Cyan,
            decimal(limits(c.tier, c.max_output_tokens).max_steps as nat),
        ),
        shows_in(limit_lines(c), Style::Green, "Enabled"@),
        shows_in(limit_lines(c), Style::Cyan, decimal(100)),
        shows_in(
            limit_lines(c),
            Style::Cyan,
            decimal(limits(c.tier, c.max_output_tokens).max_output_tokens as nat),
        ),
        shows_in(tier_lines(c.tier), Style::GreenBold, tier_name(c.tier)),
{
    lemma_shows_in(model_lines(c), 4, 0, Style::GreenBold, "🤖 LLM Configuration"@);
    lemma_shows_in(model_lines(c), 5, 1, Style::Yellow, c.provider@);
    lemma_shows_in(model_lines(c), 6, 1, Style::Yellow, model_text(c.model));
    if c.enabled {
        lemma_shows_in(model_lines(c), 7, 1, Style::Green, "Enabled"@);
    }
    if !c.enabled {
        lemma_shows_in(model_lines(c), 7, 1, Style::Yellow, "Context-only mode"@);
    }
    lemma_shows_in(limit_lines(c), 0, 0, Style::GreenBold, "📊 Context Configuration"@);
    lemma_shows_in(limit_lines(c), 1, 1, Style::Yellow, tier_name(c.tier));
    lemma_shows_in(limit_lines(c), 1, 3, Style::Cyan, decimal(c.context_window as nat));
    lemma_shows_in(limit_lines(c), 2, 1, Style::Cyan, verbosity(c.tier));
    lemma_shows_in(
        limit_lines(c),
        3,
        1,
        Style::Cyan,
        decimal(limits(c.tier, c.max_output_tokens).base_limit as nat),
    );
    lemma_shows_in(limit_lines(c), 5, 0, Style::GreenBold, "⚙️  Orchestrator Settings"@);
    lemma_shows_in(
        limit_lines(c),
        6,
        1,
        Style::Cyan,
        decimal(limits(c.tier, c.max_output_tokens).max_steps as nat),
    );
    lemma_shows_in(limit_lines(c), 7, 1, Style::Green, "Enabled"@);
    lemma_shows_in(limit_lines(c), 7, 3, Style::Cyan, decimal(100));
    lemma_shows_in(
        limit_lines(c),
        8,
        1,
        Style::Cyan,
        decimal(limits(c.tier, c.max_output_tokens).max_output_tokens as nat),
    );
    lemma_shows_in(tier_lines(c.tier), 6, 1, Style::GreenBold, tier_name(c.tier));
}

} // verus!
