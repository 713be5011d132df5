//! How a project is indexed, and what is shown of it.
use crate::memory::{optimize_for_memory, optimized};
use crate::report::{Line, Report, Style};
use crate::report::{blank_line, field_line, law_line_says_its_pieces, lemma_shows, line_text};
use crate::report::{lemma_shows_in, shows, shows_in, styled_line, text_line};
use crate::text::{decimal, decimal_text, join, joined, left_aligned, left_aligned_text};
use crate::text::{padded_decimal_text, right_aligned, right_aligned_text, texts};
use std::path::PathBuf;
use vstd::prelude::*;

verus! {

/// The memory in gigabytes from which on a system is said to have much of it.
pub const HIGH_MEMORY_GB: usize = 64;

/// How much of a project is indexed, as it is asked for.
#[derive(Debug, Clone, Copy, PartialEq, Eq, Structural)]
pub enum IndexTier {
    Fast,
    Balanced,
    Full,
}

/// How much of a project is indexed, as it is configured.
#[derive(Debug, Clone, Copy, PartialEq, Eq, Structural)]
pub enum IndexingTier {
    Fast,
    Balanced,
    Full,
}

/// The configured form of a tier that is asked for.
pub open spec fn configured(tier: IndexTier) -> IndexingTier {
    match tier {
        IndexTier::Fast => IndexingTier::Fast,
        IndexTier::Balanced => IndexingTier::Balanced,
        IndexTier::Full => IndexingTier::Full,
    }
}

impl From<IndexTier> for IndexingTier {
    fn from(value: IndexTier) -> (r: Self) {
        match value {
            IndexTier::Fast => IndexingTier::Fast,
            IndexTier::Balanced => IndexingTier::Balanced,
            IndexTier::Full => IndexingTier::Full,
        }
    }
}

impl vstd::std_specs::convert::FromSpecImpl<IndexTier> for IndexingTier {
    open spec fn obeys_from_spec() -> bool {
        true
    }

    open spec fn from_spec(value: IndexTier) -> Self {
        configured(value)
    }
}

/// The tier that was asked for, or else the configured one.
pub open spec fn chosen_tier(asked: Option<IndexTier>, config: IndexingTier) -> IndexingTier {
    match asked {
        Some(tier) => configured(tier),
        None => config,
    }
}

/// The tier that was asked for, or else the configured one.
pub fn resolve_tier(asked: Option<IndexTier>, config: IndexingTier) -> (r: IndexingTier)
    ensures
        r == chosen_tier(asked, config),
{
    match asked {
        Some(tier) => IndexingTier::from(tier),
        None => config,
    }
}

/// What a tier covers, in words.
pub open spec fn tier_text(tier: IndexingTier) -> Seq<char> {
    match tier {
        IndexingTier::Fast => "fast (speed-first: AST + core edges)"@,
        IndexingTier::Balanced => "balanced (adds LSP symbols + enrichment)"@,
        IndexingTier::Full => "full (max detail: LSP definitions + dataflow + architecture)"@,
    }
}

/// What a tier covers, in words.
pub fn tier_hint(tier: IndexingTier) -> (r: &'static str)
    ensures
        r@ == tier_text(tier),
{
    match tier {
        IndexingTier::Fast => "fast (speed-first: AST + core edges)",
        IndexingTier::Balanced => "balanced (adds LSP symbols + enrichment)",
        IndexingTier::Full => "full (max detail: LSP definitions + dataflow + architecture)",
    }
}

/// How a project is to be indexed, as it is asked for.
#[derive(Debug)]
pub struct IndexRequest {
    pub languages: Option<Vec<String>>,
    pub exclude: Vec<String>,
    pub include_only: Vec<String>,
    pub recursive: bool,
    pub force: bool,
    pub watch: bool,
    pub workers: usize,
    pub batch_size: usize,
    pub max_concurrent: usize,
    pub device: Option<String>,
    pub max_seq_len: usize,
    pub symbol_batch_size: Option<usize>,
    pub symbol_max_concurrent: Option<usize>,
    pub index_tier: Option<IndexTier>,
}

/// How a project is indexed.
#[derive(Debug)]
pub struct IndexSettings {
    pub languages: Vec<String>,
    pub exclude_patterns: Vec<String>,
    pub include_patterns: Vec<String>,
    pub recursive: bool,
    pub force_reindex: bool,
    pub watch: bool,
    pub workers: usize,
    pub batch_size: usize,
    pub max_concurrent: usize,
    pub device: Option<String>,
    pub max_seq_len: usize,
    pub symbol_batch_size: Option<usize>,
    pub symbol_max_concurrent: Option<usize>,
    pub indexing_tier: IndexingTier,
    pub project_root: PathBuf,
}

/// `languages` are those that were asked for; none if nothing was.
pub open spec fn asked_languages(languages: Seq<String>, asked: Option<Vec<String>>) -> bool {
    match asked {
        Some(v) => languages == v@,
        None => languages == Seq::<String>::empty(),
    }
}

/// The languages that were asked for; none if nothing was.
pub fn languages_or_none(asked: Option<Vec<String>>) -> (r: Vec<String>)
    ensures
        asked_languages(r@, asked),
        asked matches Some(v) ==> r@ == v@,
        asked is None ==> r@.len() == 0,
{
    match asked {
        Some(v) => v,
        None => Vec::new(),
    }
}

impl IndexSettings {
    /// How a project is indexed on a system with the given memory.
    pub fn for_index(
        request: IndexRequest,
        config_tier: IndexingTier,
        memory_gb: usize,
        embedding_provider: &str,
        project_root: PathBuf,
    ) -> (r: Self)
        ensures
            asked_languages(r.languages@, request.languages),
            request.languages matches Some(v) ==> r.languages@ == v@,
            request.languages is None ==> r.languages@.len() == 0,
            r.exclude_patterns == request.exclude,
            r.include_patterns == request.include_only,
            r.recursive == request.recursive,
            r.force_reindex == request.force,
            r.watch == request.watch,
            (r.batch_size, r.workers) == optimized(
                memory_gb as nat,
                request.batch_size,
                request.workers,
                embedding_provider@,
            ),
            r.max_concurrent == request.max_concurrent,
            r.device == request.device,
            r.max_seq_len == request.max_seq_len,
            r.symbol_batch_size == request.symbol_batch_size,
            r.symbol_max_concurrent == request.symbol_max_concurrent,
            request.batch_size != 100 ==> r.batch_size == request.batch_size,
            request.workers != 4 ==> r.workers == request.workers,
            r.indexing_tier == chosen_tier(request.index_tier, config_tier),
            request.index_tier is None ==> r.indexing_tier == config_tier,
            r.project_root == project_root,
    {
        let (batch_size, workers): (usize, usize) = optimize_for_memory(
            memory_gb,
            request.batch_size,
            request.workers,
            embedding_provider,
        );
        IndexSettings {
            languages: languages_or_none(request.languages),
            exclude_patterns: request.exclude,
            include_patterns: request.include_only,
            recursive: request.recursive,
            force_reindex: request.force,
            watch: request.watch,
            workers,
            batch_size,
            max_concurrent: request.max_concurrent,
            device: request.device,
            max_seq_len: request.max_seq_len,
            symbol_batch_size: request.symbol_batch_size,
            symbol_max_concurrent: request.symbol_max_concurrent,
            indexing_tier: resolve_tier(request.index_tier, config_tier),
            project_root,
        }
    }
}

/// How a project is parsed for an estimate. What was asked for is not adapted to the memory.
#[derive(Debug)]
pub struct EstimateSettings {
    pub languages: Vec<String>,
    pub exclude_patterns: Vec<String>,
    pub include_patterns: Vec<String>,
    pub recursive: bool,
    pub workers: usize,
    pub batch_size: usize,
    pub indexing_tier: IndexingTier,
    pub project_root: PathBuf,
}

impl EstimateSettings {
    /// How a project is parsed for an estimate.
    pub fn for_estimate(
        languages: Option<Vec<String>>,
        exclude: Vec<String>,
        include_only: Vec<String>,
        recursive: bool,
        workers: usize,
        batch_size: usize,
        index_tier: Option<IndexTier>,
        config_tier: IndexingTier,
        project_root: PathBuf,
    ) -> (r: Self)
        ensures
            asked_languages(r.languages@, languages),
            languages matches Some(v) ==> r.languages@ == v@,
            languages is None ==> r.languages@.len() == 0,
            r.exclude_patterns == exclude,
            r.include_patterns == include_only,
            r.recursive == recursive,
            r.workers == workers,
            r.batch_size == batch_size,
            r.indexing_tier == chosen_tier(index_tier, config_tier),
            index_tier is None ==> r.indexing_tier == config_tier,
            r.project_root == project_root,
    {
        EstimateSettings {
            languages: languages_or_none(languages),
            exclude_patterns: exclude,
            include_patterns: include_only,
            recursive,
            workers,
            batch_size,
            indexing_tier: resolve_tier(index_tier, config_tier),
            project_root,
        }
    }
}

/// What is shown before a project is indexed.
pub open spec fn notice_lines(memory_gb: nat, tier: IndexingTier) -> Seq<Seq<(Style, Seq<char>)>> {
    let memory = if memory_gb >= HIGH_MEMORY_GB {
        seq![
            seq![
                (Style::Plain, "🚀 High-memory system detected ("@),
                (Style::Plain, decimal(memory_gb)),
                (Style::Plain, "GB) - performance optimized!"@),
            ],
        ]
    } else {
        seq![]
    };
    memory.push(
        seq![
            (Style::Plain, "🧭 Indexing tier: "@),
            (Style::Plain, tier_text(tier)),
            (Style::Plain, " — override with --index-tier or CODEGRAPH_INDEX_TIER"@),
        ],
    )
}

/// What is shown before a project is indexed.
pub fn index_notices(memory_gb: usize, tier: IndexingTier) -> (r: Report)
    ensures
        r@ == notice_lines(memory_gb as nat, tier),
{
    let mut r = Report::new();
    if memory_gb >= HIGH_MEMORY_GB {
        r.push(
            Line::new().plain("🚀 High-memory system detected (").plain(
                decimal_text(memory_gb as u64).as_str(),
            ).plain("GB) - performance optimized!"),
        );
    }
    r.push(
        Line::new().plain("🧭 Indexing tier: ").plain(tier_hint(tier)).plain(
            " — override with --index-tier or CODEGRAPH_INDEX_TIER",
        ),
    );
    assert(r@ =~~= notice_lines(memory_gb as nat, tier));
    r
}

/// What was found in a project.
#[derive(Debug)]
pub struct IndexStats<'a> {
    pub files: usize,
    pub skipped: usize,
    pub lines: usize,
    pub nodes: usize,
    pub edges: usize,
    pub resolved_edges: usize,
    pub unresolved_edges: usize,
    pub analyzers_enabled: bool,
    pub build_context_nodes: usize,
    pub build_context_edges: usize,
    pub lsp_nodes_enriched: usize,
    pub lsp_edges_resolved: usize,
    pub docs_attached: usize,
    pub export_edges_added: usize,
    pub reexport_edges_added: usize,
    pub feature_enables_edges_added: usize,
    pub module_nodes_added: usize,
    pub module_import_edges_added: usize,
    pub dataflow_variable_nodes_added: usize,
    pub dataflow_flows_to_edges_added: usize,
    pub doc_nodes_added: usize,
    pub document_edges_added: usize,
    pub specification_edges_added: usize,
    pub package_cycles_detected: usize,
    pub boundary_violations_added: usize,
    pub embeddings: usize,
    pub embedding_dimension: usize,
    pub embedding_provider: &'a str,
    pub errors: usize,
    /// The time that indexing took, as it is shown.
    pub elapsed: &'a str,
    /// Files and nodes in a second, as they are shown.
    pub throughput: &'a str,
    /// The share of edges that were resolved in percent, as it is shown.
    pub resolution_rate: &'a str,
    /// The nodes per file, as they are shown.
    pub average_nodes: &'a str,
    /// The edges per file, as they are shown.
    pub average_edges: &'a str,
}

/// A line with one number.
pub open spec fn count_line(before: Seq<char>, n: nat, after: Seq<char>) -> Seq<(Style, Seq<char>)> {
    seq![
        (Style::Plain, before),
        (Style::Plain, right_aligned(decimal(n), 6)),
        (Style::Plain, after),
    ]
}

/// A line with two numbers, of which the second is `width` characters wide.
pub open spec fn counts_line(
    before: Seq<char>,
    n: nat,
    between: Seq<char>,
    m: nat,
    width: nat,
    after: Seq<char>,
) -> Seq<(Style, Seq<char>)> {
    seq![
        (Style::Plain, before),
        (Style::Plain, right_aligned(decimal(n), 6)),
        (Style::Plain, between),
        (Style::Plain, right_aligned(decimal(m), width)),
        (Style::Plain, after),
    ]
}

fn count(before: &str, n: usize, after: &str) -> (r: Line)
    ensures
        r@ == count_line(before@, n as nat, after@),
{
    Line::new().plain(before).plain(padded_decimal_text(n as u64, 6).as_str()).plain(after)
}

fn counts(before: &str, n: usize, between: &str, m: usize, width: usize, after: &str) -> (r: Line)
    ensures
        r@ == counts_line(before@, n as nat, between@, m as nat, width as nat, after@),
{
    Line::new().plain(before).plain(padded_decimal_text(n as u64, 6).as_str()).plain(between).plain(
        padded_decimal_text(m as u64, width).as_str(),
    ).plain(after)
}

/// The first lines of the summary.
pub open spec fn performance_lines(s: IndexStats) -> Seq<Seq<(Style, Seq<char>)>> {
    seq![
        blank_line(),
        styled_line(Style::GreenBold, "🎉 INDEXING COMPLETE!"@),
        blank_line(),
        styled_line(Style::CyanBold, "📊 Performance Summary"@),
        text_line("┌───────────────────────────────────────────────────────┐"@),
        seq![
            (Style::Plain, "│ ⏱️  Total time: "@),
            (Style::Green, left_aligned(s.elapsed@, 39)),
            (Style::Plain, " │"@),
        ],
        seq![
            (Style::Plain, "│ ⚡ Throughput: "@),
            (Style::Yellow, left_aligned(s.throughput@, 39)),
            (Style::Plain, " │"@),
        ],
        text_line("├───────────────────────────────────────────────────────┤"@),
        counts_line(
            "│ 📄 Files:      "@,
            s.files as nat,
            " indexed, "@,
            s.skipped as nat,
            4,
            " skipped           │"@,
        ),
        count_line("│ 📝 Lines:      "@, s.lines as nat, " processed                        │"@),
        count_line("│ 🌳 Nodes:      "@, s.nodes as nat, " extracted                        │"@),
        count_line("│ 🔗 Edges:      "@, s.edges as nat, " relationships                    │"@),
        seq![
            (Style::Plain, "│ 🎯 Resolution: "@),
            (Style::Plain, right_aligned(s.resolution_rate@, 6)),
            (Style::Plain, "% ("@),
            (Style::Plain, decimal(s.resolved_edges as nat)),
            (Style::Plain, " resolved, "@),
            (Style::Plain, decimal(s.unresolved_edges as nat)),
            (Style::Plain, " unresolved)      │"@),
        ],
    ]
}

/// What the summary says of the analyzers.
pub open spec fn analyzer_lines(s: IndexStats) -> Seq<Seq<(Style, Seq<char>)>> {
    if s.analyzers_enabled {
        seq![
            counts_line(
                "│ 🧩 Build ctx:   "@,
                s.build_context_nodes as nat,
                " nodes, "@,
                s.build_context_edges as nat,
                4,
                " edges                 │"@,
            ),
            counts_line(
                "│ 🧠 LSP:         "@,
                s.lsp_nodes_enriched as nat,
                " symbols, "@,
                s.lsp_edges_resolved as nat,
                4,
                " edges               │"@,
            ),
            counts_line(
                "│ 🧾 Rustdoc/API: "@,
                s.docs_attached as nat,
                " docs, "@,
                s.export_edges_added as nat,
                4,
                " exports               │"@,
            ),
            counts_line(
                "│               +"@,
                s.reexport_edges_added as nat,
                " reexports, "@,
                s.feature_enables_edges_added as nat,
                3,
                " enables            │"@,
            ),
            counts_line(
                "│ 🧭 Modules:     "@,
                s.module_nodes_added as nat,
                " nodes, "@,
                s.module_import_edges_added as nat,
                4,
                " imports              │"@,
            ),
            counts_line(
                "│ 🌊 Dataflow:    "@,
                s.dataflow_variable_nodes_added as nat,
                " vars, "@,
                s.dataflow_flows_to_edges_added as nat,
                4,
                " flows                │"@,
            ),
            counts_line(
                "│ 📚 Docs:        "@,
                s.doc_nodes_added as nat,
                " docs, "@,
                (s.document_edges_added + s.specification_edges_added) as nat,
                4,
                " links                │"@,
            ),
            counts_line(
                "│ 🏛️  Arch:       "@,
                s.package_cycles_detected as nat,
                " cycles, "@,
                s.boundary_violations_added as nat,
                4,
                " violations          │"@,
            ),
        ]
    } else {
        seq![]
    }
}

/// What the summary says of embeddings and errors, and its averages.
pub open spec fn outcome_lines(s: IndexStats) -> Seq<Seq<(Style, Seq<char>)>> {
    let errors = if s.errors > 0 {
        seq![count_line("│ ❌ Errors:     "@, s.errors as nat, " encountered                      │"@)]
    } else {
        seq![]
    };
    seq![
        seq![
            (Style::Plain, "│ 💾 Embeddings: "@),
            (Style::Plain, right_aligned(decimal(s.embeddings as nat), 6)),
            (Style::Plain, " chunks ("@),
            (Style::Plain, decimal(s.embedding_dimension as nat)),
            (Style::Plain, "-dim)                  │"@),
        ],
    ] + errors + seq![
        text_line("├──────────────────────────────────────────────────────┤"@),
        seq![
            (Style::Plain, "│ 📈 Averages: "@),
            (Style::Plain, s.average_nodes@),
            (Style::Plain, " nodes/file, "@),
            (Style::Plain, s.average_edges@),
            (Style::Plain, " edges/file          │"@),
        ],
        text_line("└───────────────────────────────────────────────────────┘"@),
    ]
}

/// What the summary says of the configuration, and how it ends.
pub open spec fn configuration_lines(
    s: IndexStats,
    workers: nat,
    batch_size: nat,
    languages: Seq<String>,
) -> Seq<Seq<(Style, Seq<char>)>> {
    let embeddings = if s.embedding_provider@.len() > 0 {
        seq![
            seq![
                (Style::Plain, "Embeddings: "@),
                (Style::Plain, s.embedding_provider@),
                (Style::Plain, " ("@),
                (Style::Plain, decimal(s.embedding_dimension as nat)),
                (Style::Plain, "-dim)"@),
            ],
        ]
    } else {
        seq![]
    };
    let errors = if s.errors > 0 {
        seq![
            seq![
                (Style::Plain, "  "@),
                (Style::Yellow, "⚠"@),
                (Style::Plain, " Errors: "@),
                (Style::Plain, decimal(s.errors as nat)),
            ],
        ]
    } else {
        seq![]
    };
    seq![
        blank_line(),
        styled_line(Style::CyanBold, "⚙️  Configuration Summary"@),
        seq![
            (Style::Plain, "Workers: "@),
            (Style::Plain, decimal(workers)),
            (Style::Plain, " | Batch Size: "@),
            (Style::Plain, decimal(batch_size)),
            (Style::Plain, " | Languages: "@),
            (Style::Plain, joined(texts(languages), ", "@)),
        ],
    ] + embeddings + seq![
        blank_line(),
        styled_line(Style::GreenBold, "🚀 Ready for CodeGraph Agentic MCP Intelligence!"@),
        text_line(
            "Next: Start MCP server with 'codegraph start http' or 'codegraph start stdio'"@,
        ),
    ] + errors
}

fn push_performance(r: &mut Report, s: &IndexStats<'_>)
    ensures
        final(r)@ == old(r)@ + performance_lines(*s),
{
    r.blank();
    r.styled(Style::GreenBold, "🎉 INDEXING COMPLETE!");
    r.blank();
    r.styled(Style::CyanBold, "📊 Performance Summary");
    r.text("┌───────────────────────────────────────────────────────┐");
    r.push(
        Line::new().plain("│ ⏱️  Total time: ").with(
            Style::Green,
            left_aligned_text(s.elapsed, 39).as_str(),
        ).plain(" │"),
    );
    r.push(
        Line::new().plain("│ ⚡ Throughput: ").with(
            Style::Yellow,
            left_aligned_text(s.throughput, 39).as_str(),
        ).plain(" │"),
    );
    r.text("├───────────────────────────────────────────────────────┤");
    r.push(
        counts(
            "│ 📄 Files:      ",
            s.files,
            " indexed, ",
            s.skipped,
            4,
            " skipped           │",
        ),
    );
    r.push(count("│ 📝 Lines:      ", s.lines, " processed                        │"));
    r.push(count("│ 🌳 Nodes:      ", s.nodes, " extracted                        │"));
    r.push(count("│ 🔗 Edges:      ", s.edges, " relationships                    │"));
    r.push(
        Line::new().plain("│ 🎯 Resolution: ").plain(
            right_aligned_text(s.resolution_rate, 6).as_str(),
        ).plain("% (").plain(decimal_text(s.resolved_edges as u64).as_str()).plain(
            " resolved, ",
        ).plain(decimal_text(s.unresolved_edges as u64).as_str()).plain(" unresolved)      │"),
    );
    assert(r@ =~~= old(r)@ + performance_lines(*s));
}

fn push_analyzers(r: &mut Report, s: &IndexStats<'_>)
    requires
        s.document_edges_added + s.specification_edges_added <= usize::MAX,
    ensures
        final(r)@ == old(r)@ + analyzer_lines(*s),
{
    if s.analyzers_enabled {
        r.push(
            counts(
                "│ 🧩 Build ctx:   ",
                s.build_context_nodes,
                " nodes, ",
                s.build_context_edges,
                4,
                " edges                 │",
            ),
        );
        r.push(
            counts(
                "│ 🧠 LSP:         ",
                s.lsp_nodes_enriched,
                " symbols, ",
                s.lsp_edges_resolved,
                4,
                " edges               │",
            ),
        );
        r.push(
            counts(
                "│ 🧾 Rustdoc/API: ",
                s.docs_attached,
                " docs, ",
                s.export_edges_added,
                4,
                " exports               │",
            ),
        );
        r.push(
            counts(
                "│               +",
                s.reexport_edges_added,
                " reexports, ",
                s.feature_enables_edges_added,
                3,
                " enables            │",
            ),
        );
        r.push(
            counts(
                "│ 🧭 Modules:     ",
                s.module_nodes_added,
                " nodes, ",
                s.module_import_edges_added,
                4,
                " imports              │",
            ),
        );
        r.push(
            counts(
                "│ 🌊 Dataflow:    ",
                s.dataflow_variable_nodes_added,
                " vars, ",
                s.dataflow_flows_to_edges_added,
                4,
                " flows                │",
            ),
        );
        r.push(
            counts(
                "│ 📚 Docs:        ",
                s.doc_nodes_added,
                " docs, ",
                s.document_edges_added + s.specification_edges_added,
                4,
                " links                │",
            ),
        );
        r.push(
            counts(
                "│ 🏛️  Arch:       ",
                s.package_cycles_detected,
                " cycles, ",
                s.boundary_violations_added,
                4,
                " violations          │",
            ),
        );
    }
    assert(r@ =~~= old(r)@ + analyzer_lines(*s));
}

fn push_outcome(r: &mut Report, s: &IndexStats<'_>)
    ensures
        final(r)@ == old(r)@ + outcome_lines(*s),
{
    r.push(
        Line::new().plain("│ 💾 Embeddings: ").plain(
            padded_decimal_text(s.embeddings as u64, 6).as_str(),
        ).plain(" chunks (").plain(decimal_text(s.embedding_dimension as u64).as_str()).plain(
            "-dim)                  │",
        ),
    );
    if s.errors > 0 {
        r.push(count("│ ❌ Errors:     ", s.errors, " encountered                      │"));
    }
    r.text("├──────────────────────────────────────────────────────┤");
    r.push(
        Line::new().plain("│ 📈 Averages: ").plain(s.average_nodes).plain(" nodes/file, ").plain(
            s.average_edges,
        ).plain(" edges/file          │"),
    );
    r.text("└───────────────────────────────────────────────────────┘");
    assert(r@ =~~= old(r)@ + outcome_lines(*s));
}

fn push_configuration(
    r: &mut Report,
    s: &IndexStats<'_>,
    workers: usize,
    batch_size: usize,
    languages: &Vec<String>,
)
    ensures
        final(r)@ == old(r)@ + configuration_lines(
            *s,
            workers as nat,
            batch_size as nat,
            languages@,
        ),
{
    r.blank();
    r.styled(Style::CyanBold, "⚙️  Configuration Summary");
    r.push(
        Line::new().plain("Workers: ").plain(decimal_text(workers as u64).as_str()).plain(
            " | Batch Size: ",
        ).plain(decimal_text(batch_size as u64).as_str()).plain(" | Languages: ").plain(
            join(languages, ", ").as_str(),
        ),
    );
    if s.embedding_provider.unicode_len() > 0 {
        r.push(
            Line::new().plain("Embeddings: ").plain(s.embedding_provider).plain(" (").plain(
                decimal_text(s.embedding_dimension as u64).as_str(),
            ).plain("-dim)"),
        );
    }
    r.blank();
    r.styled(Style::GreenBold, "🚀 Ready for CodeGraph Agentic MCP Intelligence!");
    r.text("Next: Start MCP server with 'codegraph start http' or 'codegraph start stdio'");
    if s.errors > 0 {
        r.push(
            Line::new().plain("  ").with(Style::Yellow, "⚠").plain(" Errors: ").plain(
                decimal_text(s.errors as u64).as_str(),
            ),
        );
    }
    assert(r@ =~~= old(r)@ + configuration_lines(
        *s,
        workers as nat,
        batch_size as nat,
        languages@,
    ));
}

/// What is shown after a project was indexed.
pub fn index_summary(
    stats: &IndexStats<'_>,
    workers: usize,
    batch_size: usize,
    languages: &Vec<String>,
) -> (r: Report)
    requires
        stats.document_edges_added + stats.specification_edges_added <= usize::MAX,
    ensures
        r@ == performance_lines(*stats) + analyzer_lines(*stats) + outcome_lines(*stats)
            + configuration_lines(*stats, workers as nat, batch_size as nat, languages@),
{
    let mut r = Report::new();
    push_performance(&mut r, stats);
    push_analyzers(&mut r, stats);
    push_outcome(&mut r, stats);
    push_configuration(&mut r, stats, workers, batch_size, languages);
    assert(r@ =~= performance_lines(*stats) + analyzer_lines(*stats) + outcome_lines(*stats)
        + configuration_lines(*stats, workers as nat, batch_size as nat, languages@));
    r
}

/// What is shown when changes are about to be watched for.
pub fn watch_notice() -> (r: Report)
    ensures
        r@ == seq![blank_line(), text_line("Watching for changes... (Press Ctrl+C to stop)"@)],
{
    let mut r = Report::new();
    r.blank();
    r.text("Watching for changes... (Press Ctrl+C to stop)");
    assert(r@ =~= seq![blank_line(), text_line("Watching for changes... (Press Ctrl+C to stop)"@)]);
    r
}

/// A label and a path behind it.
pub open spec fn path_line(label: Seq<char>, path: Seq<char>) -> Seq<(Style, Seq<char>)> {
    seq![(Style::Cyan, label), (Style::Plain, " "@), (Style::Plain, path)]
}

/// What is shown of the log before a project is indexed.
pub fn log_opened(path: &str) -> (r: Line)
    ensures
        r@ == path_line("📝 Debug log:"@, path@),
{
    Line::new().with(Style::Cyan, "📝 Debug log:").plain(" ").plain(path)
}

/// What is shown of the log after a project was indexed.
pub fn log_saved(path: &str) -> (r: Line)
    ensures
        r@ == path_line("📂 Detailed log saved at:"@, path@),
{
    Line::new().with(Style::Cyan, "📂 Detailed log saved at:").plain(" ").plain(path)
}

/// A tier that is asked for decides; without one, the configured tier does.
pub proof fn law_asked_tier_decides(asked: IndexTier, a: IndexingTier, b: IndexingTier)
    ensures
        chosen_tier(Some(asked), a) == chosen_tier(Some(asked), b),
        chosen_tier(None, a) == a,
{
}

/// The languages that are indexed are those of the request, all of them and in its order; without any in
/// the request there are none.
pub proof fn law_languages_are_the_asked_ones(
    languages: Seq<String>,
    asked: Vec<String>,
    i: int,
)
    ensures
        asked_languages(languages, Some(asked)) ==> languages.len() == asked@.len(),
        asked_languages(languages, Some(asked)) && 0 <= i < asked@.len() ==> languages[i]
            == asked@[i],
        asked_languages(asked@, Some(asked)),
        asked_languages(languages, None) <==> languages.len() == 0,
{
    if languages.len() == 0 {
        assert(languages =~= Seq::<String>::empty());
    }
}

/// A tier that is asked for is the tier of that name, and what is said of a tier starts with its name.
pub proof fn law_tier_keeps_its_name(tier: IndexTier, config: IndexingTier)
    ensures
        chosen_tier(Some(tier), config) == IndexingTier::Fast <==> tier == IndexTier::Fast,
        chosen_tier(Some(tier), config) == IndexingTier::Balanced <==> tier == IndexTier::Balanced,
        chosen_tier(Some(tier), config) == IndexingTier::Full <==> tier == IndexTier::Full,
        tier_text(IndexingTier::Fast).take(5) == "fast "@,
        tier_text(IndexingTier::Balanced).take(9) == "balanced "@,
        tier_text(IndexingTier::Full).take(5) == "full "@,
{
    reveal_strlit("fast (speed-first: AST + core edges)");
    reveal_strlit("balanced (adds LSP symbols + enrichment)");
    reveal_strlit("full (max detail: LSP definitions + dataflow + architecture)");
    reveal_strlit("fast ");
    reveal_strlit("balanced ");
    reveal_strlit("full ");
    assert(tier_text(IndexingTier::Fast).take(5) =~= "fast "@);
    assert(tier_text(IndexingTier::Balanced).take(9) =~= "balanced "@);
    assert(tier_text(IndexingTier::Full).take(5) =~= "full "@);
}

/// Before indexing, the tier is always told; the memory is told, with its number, from 64 gigabytes on.
pub proof fn law_notices(memory_gb: nat, tier: IndexingTier)
    ensures
        shows(
            notice_lines(memory_gb, tier),
            "🧭 Indexing tier: "@ + tier_text(tier)
                + " — override with --index-tier or CODEGRAPH_INDEX_TIER"@,
        ),
        memory_gb >= 64 ==> shows(
            notice_lines(memory_gb, tier),
            "🚀 High-memory system detected ("@ + decimal(memory_gb)
                + "GB) - performance optimized!"@,
        ),
        notice_lines(memory_gb, tier).len() == if memory_gb >= 64 {
            2nat
        } else {
            1nat
        },
{
    let lines = notice_lines(memory_gb, tier);
    let last = lines.len() - 1;
    lemma_shows(
        lines,
        last,
        "🧭 Indexing tier: "@ + tier_text(tier)
            + " — override with --index-tier or CODEGRAPH_INDEX_TIER"@,
    );
    if memory_gb >= 64 {
        lemma_shows(
            lines,
            0,
            "🚀 High-memory system detected ("@ + decimal(memory_gb)
                + "GB) - performance optimized!"@,
        );
    }
}

/// The summary shows each of the main counts behind its own label, six characters wide.
pub proof fn law_summary_shows_counts(s: IndexStats)
    ensures
        shows(
            performance_lines(s),
            "│ 📄 Files:      "@ + right_aligned(decimal(s.files as nat), 6) + " indexed, "@
                + right_aligned(decimal(s.skipped as nat), 4) + " skipped           │"@,
        ),
        shows(
            performance_lines(s),
            "│ 📝 Lines:      "@ + right_aligned(decimal(s.lines as nat), 6)
                + " processed                        │"@,
        ),
        shows(
            performance_lines(s),
            "│ 🌳 Nodes:      "@ + right_aligned(decimal(s.nodes as nat), 6)
                + " extracted                        │"@,
        ),
        shows(
            performance_lines(s),
            "│ 🔗 Edges:      "@ + right_aligned(decimal(s.edges as nat), 6)
                + " relationships                    │"@,
        ),
        shows(
            performance_lines(s),
            "│ 🎯 Resolution: "@ + right_aligned(s.resolution_rate@, 6) + "% ("@ + decimal(
                s.resolved_edges as nat,
            ) + " resolved, "@ + decimal(s.unresolved_edges as nat) + " unresolved)      │"@,
        ),
        shows(
            performance_lines(s),
            "│ ⏱️  Total time: "@ + left_aligned(s.elapsed@, 39) + " │"@,
        ),
        shows(
            performance_lines(s),
            "│ ⚡ Throughput: "@ + left_aligned(s.throughput@, 39) + " │"@,
        ),
{
    let lines = performance_lines(s);
    lemma_shows(
        lines,
        8,
        "│ 📄 Files:      "@ + right_aligned(decimal(s.files as nat), 6) + " indexed, "@
            + right_aligned(decimal(s.skipped as nat), 4) + " skipped           │"@,
    );
    lemma_shows(
        lines,
        9,
        "│ 📝 Lines:      "@ + right_aligned(decimal(s.lines as nat), 6)
            + " processed                        │"@,
    );
    lemma_shows(
        lines,
        10,
        "│ 🌳 Nodes:      "@ + right_aligned(decimal(s.nodes as nat), 6)
            + " extracted                        │"@,
    );
    lemma_shows(
        lines,
        11,
        "│ 🔗 Edges:      "@ + right_aligned(decimal(s.edges as nat), 6)
            + " relationships                    │"@,
    );
    lemma_shows(
        lines,
        12,
        "│ 🎯 Resolution: "@ + right_aligned(s.resolution_rate@, 6) + "% ("@ + decimal(
            s.resolved_edges as nat,
        ) + " resolved, "@ + decimal(s.unresolved_edges as nat) + " unresolved)      │"@,
    );
    lemma_shows(lines, 5, "│ ⏱️  Total time: "@ + left_aligned(s.elapsed@, 39) + " │"@);
    lemma_shows(lines, 6, "│ ⚡ Throughput: "@ + left_aligned(s.throughput@, 39) + " │"@);
}

/// The text of a line with two counts.
pub open spec fn two_counts(
    before: Seq<char>,
    n: nat,
    between: Seq<char>,
    m: nat,
    width: nat,
    after: Seq<char>,
) -> Seq<char> {
    before + right_aligned(decimal(n), 6) + between + right_aligned(decimal(m), width) + after
}

/// Where analyzers ran, the summary shows what each of them found; the links are those of documents and
/// of specifications together. Where none ran, it says nothing of them.
pub proof fn law_summary_shows_analyzers(s: IndexStats)
    ensures
        !s.analyzers_enabled ==> analyzer_lines(s).len() == 0,
        s.analyzers_enabled ==> {
            let lines = analyzer_lines(s);
            &&& lines.len() == 8
            &&& shows(lines, two_counts("│ 🧩 Build ctx:   "@, s.build_context_nodes as nat,
                " nodes, "@, s.build_context_edges as nat, 4, " edges                 │"@))
            &&& shows(lines, two_counts("│ 🧠 LSP:         "@, s.lsp_nodes_enriched as nat,
                " symbols, "@, s.lsp_edges_resolved as nat, 4, " edges               │"@))
            &&& shows(lines, two_counts("│ 🧾 Rustdoc/API: "@, s.docs_attached as nat,
                " docs, "@, s.export_edges_added as nat, 4, " exports               │"@))
            &&& shows(lines, two_counts("│               +"@, s.reexport_edges_added as nat,
                " reexports, "@, s.feature_enables_edges_added as nat, 3, " enables            │"@))
            &&& shows(lines, two_counts("│ 🧭 Modules:     "@, s.module_nodes_added as nat,
                " nodes, "@, s.module_import_edges_added as nat, 4, " imports              │"@))
            &&& shows(lines, two_counts("│ 🌊 Dataflow:    "@, s.dataflow_variable_nodes_added as nat,
                " vars, "@, s.dataflow_flows_to_edges_added as nat, 4, " flows                │"@))
            &&& shows(lines, two_counts("│ 📚 Docs:        "@, s.doc_nodes_added as nat, " docs, "@,
                s.document_edges_added as nat + s.specification_edges_added as nat, 4,
                " links                │"@))
            &&& shows(lines, two_counts("│ 🏛️  Arch:       "@, s.package_cycles_detected as nat,
                " cycles, "@, s.boundary_violations_added as nat, 4, " violations          │"@))
        },
{
    if s.analyzers_enabled {
        let lines = analyzer_lines(s);
        lemma_shows(lines, 0, two_counts("│ 🧩 Build ctx:   "@, s.build_context_nodes as nat,
            " nodes, "@, s.build_context_edges as nat, 4, " edges                 │"@));
        lemma_shows(lines, 1, two_counts("│ 🧠 LSP:         "@, s.lsp_nodes_enriched as nat,
            " symbols, "@, s.lsp_edges_resolved as nat, 4, " edges               │"@));
        lemma_shows(lines, 2, two_counts("│ 🧾 Rustdoc/API: "@, s.docs_attached as nat, " docs, "@,
            s.export_edges_added as nat, 4, " exports               │"@));
        lemma_shows(lines, 3, two_counts("│               +"@, s.reexport_edges_added as nat,
            " reexports, "@, s.feature_enables_edges_added as nat, 3, " enables            │"@));
        lemma_shows(lines, 4, two_counts("│ 🧭 Modules:     "@, s.module_nodes_added as nat,
            " nodes, "@, s.module_import_edges_added as nat, 4, " imports              │"@));
        lemma_shows(lines, 5, two_counts("│ 🌊 Dataflow:    "@, s.dataflow_variable_nodes_added as nat,
            " vars, "@, s.dataflow_flows_to_edges_added as nat, 4, " flows                │"@));
        lemma_shows(lines, 6, two_counts("│ 📚 Docs:        "@, s.doc_nodes_added as nat, " docs, "@,
            s.document_edges_added as nat + s.specification_edges_added as nat, 4,
            " links                │"@));
        lemma_shows(lines, 7, two_counts("│ 🏛️  Arch:       "@, s.package_cycles_detected as nat,
            " cycles, "@, s.boundary_violations_added as nat, 4, " violations          │"@));
    }
}

/// The summary shows embeddings and averages, and errors exactly if there are any.
pub proof fn law_summary_shows_outcome(s: IndexStats)
    ensures
        shows(
            outcome_lines(s),
            "│ 💾 Embeddings: "@ + right_aligned(decimal(s.embeddings as nat), 6) + " chunks ("@
                + decimal(s.embedding_dimension as nat) + "-dim)                  │"@,
        ),
        shows(
            outcome_lines(s),
            "│ 📈 Averages: "@ + s.average_nodes@ + " nodes/file, "@ + s.average_edges@
                + " edges/file          │"@,
        ),
        s.errors > 0 ==> shows(
            outcome_lines(s),
            "│ ❌ Errors:     "@ + right_aligned(decimal(s.errors as nat), 6)
                + " encountered                      │"@,
        ),
        outcome_lines(s).len() == if s.errors > 0 {
            5nat
        } else {
            4nat
        },
{
    let lines = outcome_lines(s);
    lemma_shows(
        lines,
        0,
        "│ 💾 Embeddings: "@ + right_aligned(decimal(s.embeddings as nat), 6) + " chunks ("@
            + decimal(s.embedding_dimension as nat) + "-dim)                  │"@,
    );
    lemma_shows(
        lines,
        lines.len() - 2,
        "│ 📈 Averages: "@ + s.average_nodes@ + " nodes/file, "@ + s.average_edges@
            + " edges/file          │"@,
    );
    if s.errors > 0 {
        lemma_shows(
            lines,
            1,
            "│ ❌ Errors:     "@ + right_aligned(decimal(s.errors as nat), 6)
                + " encountered                      │"@,
        );
    }
}

/// The summary shows the configuration that was used, with every language; the provider of embeddings
/// exactly if it has a name, and errors exactly if there are any.
pub proof fn law_summary_shows_configuration(
    s: IndexStats,
    workers: nat,
    batch_size: nat,
    languages: Seq<String>,
)
    ensures
        ({
            let lines = configuration_lines(s, workers, batch_size, languages);
            &&& shows(
                lines,
                "Workers: "@ + decimal(workers) + " | Batch Size: "@ + decimal(batch_size)
                    + " | Languages: "@ + joined(texts(languages), ", "@),
            )
            &&& s.embedding_provider@.len() > 0 ==> shows(
                lines,
                "Embeddings: "@ + s.embedding_provider@ + " ("@ + decimal(
                    s.embedding_dimension as nat,
                ) + "-dim)"@,
            )
            &&& s.errors > 0 ==> shows(
                lines,
                "  "@ + "⚠"@ + " Errors: "@ + decimal(s.errors as nat),
            )
            &&& lines.len() == 6 + (if s.embedding_provider@.len() > 0 {
                1nat
            } else {
                0nat
            }) + (if s.errors > 0 {
                1nat
            } else {
                0nat
            })
        }),
{
    let lines = configuration_lines(s, workers, batch_size, languages);
    lemma_shows(
        lines,
        2,
        "Workers: "@ + decimal(workers) + " | Batch Size: "@ + decimal(batch_size)
            + " | Languages: "@ + joined(texts(languages), ", "@),
    );
    if s.embedding_provider@.len() > 0 {
        lemma_shows(
            lines,
            3,
            "Embeddings: "@ + s.embedding_provider@ + " ("@ + decimal(s.embedding_dimension as nat)
                + "-dim)"@,
        );
    }
    if s.errors > 0 {
        lemma_shows(
            lines,
            lines.len() - 1,
            "  "@ + "⚠"@ + " Errors: "@ + decimal(s.errors as nat),
        );
    }
}

/// A label with a path says both, with a space between them.
pub proof fn law_path_line(label: Seq<char>, path: Seq<char>)
    ensures
        line_text(path_line(label, path)) == label + " "@ + path,
{
    law_line_says_its_pieces(path_line(label, path));
}

/// Of a summary, titles are bold, the time is green and the throughput yellow, and so is the sign for errors.
pub proof fn law_colours_of_the_summary(
    s: IndexStats,
    workers: nat,
    batch_size: nat,
    languages: Seq<String>,
    label: Seq<char>,
    path: Seq<char>,
)
    ensures
        shows_in(performance_lines(s), Style::GreenBold, "🎉 INDEXING COMPLETE!"@),
        shows_in(performance_lines(s), Style::CyanBold, "📊 Performance Summary"@),
        shows_in(performance_lines(s), Style::Green, left_aligned(s.elapsed@, 39)),
        shows_in(performance_lines(s), Style::Yellow, left_aligned(s.throughput@, 39)),
        shows_in(
            configuration_lines(s, workers, batch_size, languages),
            Style::CyanBold,
            "⚙️  Configuration Summary"@,
        ),
        s.errors > 0 ==> shows_in(
            configuration_lines(s, workers, batch_size, languages),
            Style::Yellow,
            "⚠"@,
        ),
        performance_lines(s).len() == 13,
        path_line(label, path)[0] == (Style::Cyan, label),
{
    lemma_shows_in(performance_lines(s), 1, 0, Style::GreenBold, "🎉 INDEXING COMPLETE!"@);
    lemma_shows_in(performance_lines(s), 3, 0, Style::CyanBold, "📊 Performance Summary"@);
    lemma_shows_in(performance_lines(s), 5, 1, Style::Green, left_aligned(s.elapsed@, 39));
    lemma_shows_in(performance_lines(s), 6, 1, Style::Yellow, left_aligned(s.throughput@, 39));
    lemma_shows_in(
        configuration_lines(s, workers, batch_size, languages),
        1,
        0,
        Style::CyanBold,
        "⚙️  Configuration Summary"@,
    );
    if s.errors > 0 {
        lemma_shows_in(
            configuration_lines(s, workers, batch_size, languages),
            configuration_lines(s, workers, batch_size, languages).len() - 1,
            1,
            Style::Yellow,
            "⚠"@,
        );
    }
}

} // verus!
