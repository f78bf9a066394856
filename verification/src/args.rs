//! Resolution of command-line tokens into a run configuration.
//!
//! The tokens arrive already split into flags, flag values and positional
//! words. Resolution folds over them in order: a terminal token (version,
//! help, config scaffolding, or an unrecognized flag) short-circuits the
//! rest, positional words accumulate into a file list, and flags that pick
//! an output destination follow a last-wins policy. When the fold is done,
//! a run that would read standard input and write "in place" is redirected
//! to standard output, since an unnamed source cannot be overwritten.
use vstd::prelude::*;
use vstd::string::StringExecFns;

verus! {

/// One command-line token, after flag/value splitting.
pub enum Token {
    /// `-v` / `--version`
    Version,
    /// `-h` / `--help`
    Help,
    /// `-C` / `--make-default-config`
    MakeDefaultConfig,
    /// A positional word: a file path to format.
    Positional(String),
    /// `--stdout`
    StdoutFlag,
    /// `-o VALUE` / `--output VALUE`
    Output(String),
    /// `--verbose`
    Verbose,
    /// `-c VALUE` / `--config VALUE`
    ConfigPath(String),
    /// `--check`
    CheckFlag,
    /// Any token the resolver does not recognize, by its display text.
    Unknown(String),
}

/// The ghost counterpart of `Token`, over character sequences.
pub enum TokenModel {
    Version,
    Help,
    MakeDefaultConfig,
    Positional(Seq<char>),
    StdoutFlag,
    Output(Seq<char>),
    Verbose,
    ConfigPath(Seq<char>),
    CheckFlag,
    Unknown(Seq<char>),
}

impl View for Token {
    type V = TokenModel;

    open spec fn view(&self) -> TokenModel {
        match self {
            Token::Version => TokenModel::Version,
            Token::Help => TokenModel::Help,
            Token::MakeDefaultConfig => TokenModel::MakeDefaultConfig,
            Token::Positional(p) => TokenModel::Positional(p@),
            Token::StdoutFlag => TokenModel::StdoutFlag,
            Token::Output(v) => TokenModel::Output(v@),
            Token::Verbose => TokenModel::Verbose,
            Token::ConfigPath(p) => TokenModel::ConfigPath(p@),
            Token::CheckFlag => TokenModel::CheckFlag,
            Token::Unknown(u) => TokenModel::Unknown(u@),
        }
    }
}

impl DeepView for Token {
    type V = TokenModel;

    open spec fn deep_view(&self) -> TokenModel {
        self.view()
    }
}

/// Where the documents of a run come from: standard input, or a list of
/// file paths in invocation order.
pub enum InputSource {
    Stdin,
    Files(Vec<String>),
}

/// The ghost counterpart of `InputSource`.
#[verifier::ext_equal]
pub enum SourceModel {
    Stdin,
    Files(Seq<Seq<char>>),
}

impl View for InputSource {
    type V = SourceModel;

    open spec fn view(&self) -> SourceModel {
        match self {
            InputSource::Stdin => SourceModel::Stdin,
            InputSource::Files(paths) => SourceModel::Files(paths.deep_view()),
        }
    }
}

/// Where each formatted document goes. Exactly one variant is active per
/// run; `InPlace` is the default.
pub enum OutputSink {
    /// Overwrite the source file, but only when formatting changed it.
    InPlace,
    /// Report whether formatting would change anything; never write.
    Check,
    /// Write every formatted document to standard output.
    Stdout,
    /// Write to one fixed destination path.
    ToFile(String),
}

/// The ghost counterpart of `OutputSink`.
#[verifier::ext_equal]
pub enum SinkModel {
    InPlace,
    Check,
    Stdout,
    ToFile(Seq<char>),
}

impl View for OutputSink {
    type V = SinkModel;

    open spec fn view(&self) -> SinkModel {
        match self {
            OutputSink::InPlace => SinkModel::InPlace,
            OutputSink::Check => SinkModel::Check,
            OutputSink::Stdout => SinkModel::Stdout,
            OutputSink::ToFile(path) => SinkModel::ToFile(path@),
        }
    }
}

/// A fully resolved run: where documents come from, where results go,
/// whether to log informational messages, and which configuration file
/// to try.
pub struct RunConfig {
    pub source: InputSource,
    pub sink: OutputSink,
    pub verbose: bool,
    pub config_path: String,
}

/// The ghost counterpart of `RunConfig`.
#[verifier::ext_equal]
pub struct RunModel {
    pub source: SourceModel,
    pub sink: SinkModel,
    pub verbose: bool,
    pub config_path: Seq<char>,
}

impl View for RunConfig {
    type V = RunModel;

    open spec fn view(&self) -> RunModel {
        RunModel {
            source: self.source@,
            sink: self.sink@,
            verbose: self.verbose,
            config_path: self.config_path@,
        }
    }
}

/// An action that ends the process before any document is touched.
pub enum TerminalAction {
    /// Print the version string and exit successfully.
    PrintVersion,
    /// Print the usage text and exit successfully.
    PrintHelp,
    /// Write a default configuration file and exit; creation fails loudly
    /// if the file already exists.
    CreateDefaultConfig,
    /// An unrecognized token: print its display text and a usage hint,
    /// then exit successfully without formatting anything.
    Unexpected(String),
}

/// The ghost counterpart of `TerminalAction`.
pub enum TerminalModel {
    PrintVersion,
    PrintHelp,
    CreateDefaultConfig,
    Unexpected(Seq<char>),
}

impl View for TerminalAction {
    type V = TerminalModel;

    open spec fn view(&self) -> TerminalModel {
        match self {
            TerminalAction::PrintVersion => TerminalModel::PrintVersion,
            TerminalAction::PrintHelp => TerminalModel::PrintHelp,
            TerminalAction::CreateDefaultConfig => TerminalModel::CreateDefaultConfig,
            TerminalAction::Unexpected(text) => TerminalModel::Unexpected(text@),
        }
    }
}

/// What resolution decided: either end the process at once, or run.
pub enum Resolution {
    Terminal(TerminalAction),
    Run(RunConfig),
}

/// The ghost counterpart of `Resolution`.
#[verifier::ext_equal]
pub enum ResolutionModel {
    Terminal(TerminalModel),
    Run(RunModel),
}

impl View for Resolution {
    type V = ResolutionModel;

    open spec fn view(&self) -> ResolutionModel {
        match self {
            Resolution::Terminal(action) => ResolutionModel::Terminal(action@),
            Resolution::Run(config) => ResolutionModel::Run(config@),
        }
    }
}

/// The configuration file tried when `--config` is absent.
pub open spec fn spec_default_config_path() -> Seq<char> {
    "typstfmt.toml"@
}

/// Returns the default configuration file path.
pub fn default_config_path() -> (path: String)
    ensures
        path@ == spec_default_config_path(),
{
    String::from_str("typstfmt.toml")
}

/// The state the fold starts from: read standard input, write in place,
/// quiet, default configuration path.
pub open spec fn init_model() -> RunModel {
    RunModel {
        source: SourceModel::Stdin,
        sink: SinkModel::InPlace,
        verbose: false,
        config_path: spec_default_config_path(),
    }
}

/// Tokens that end resolution at once.
pub open spec fn is_terminal(t: TokenModel) -> bool {
    ||| t is Version
    ||| t is Help
    ||| t is MakeDefaultConfig
    ||| t is Unknown
}

/// The terminal action a terminal token stands for.
pub open spec fn terminal_of(t: TokenModel) -> TerminalModel
    recommends
        is_terminal(t),
{
    match t {
        TokenModel::Version => TerminalModel::PrintVersion,
        TokenModel::Help => TerminalModel::PrintHelp,
        TokenModel::MakeDefaultConfig => TerminalModel::CreateDefaultConfig,
        TokenModel::Unknown(text) => TerminalModel::Unexpected(text),
        _ => TerminalModel::PrintHelp,
    }
}

/// How one non-terminal token updates the state: positionals accumulate,
/// sink-selecting flags overwrite each other (last wins), `--output -`
/// means standard output.
pub open spec fn apply_token(m: RunModel, t: TokenModel) -> RunModel
    recommends
        !is_terminal(t),
{
    match t {
        TokenModel::Positional(path) => (RunModel {
            source: match m.source {
                SourceModel::Stdin => SourceModel::Files(seq![path]),
                SourceModel::Files(paths) => SourceModel::Files(paths.push(path)),
            },
            ..m
        }),
        TokenModel::StdoutFlag => (RunModel { sink: SinkModel::Stdout, ..m }),
        TokenModel::Output(value) => (RunModel {
            sink: if value == "-"@ {
                SinkModel::Stdout
            } else {
                SinkModel::ToFile(value)
            },
            ..m
        }),
        TokenModel::Verbose => (RunModel { verbose: true, ..m }),
        TokenModel::ConfigPath(path) => (RunModel { config_path: path, ..m }),
        TokenModel::CheckFlag => (RunModel { sink: SinkModel::Check, ..m }),
        _ => m,
    }
}

/// The adjustment made once all tokens are folded: a run that would read
/// standard input and write in place writes to standard output instead.
pub open spec fn finalize(m: RunModel) -> RunModel {
    if m.source is Stdin && m.sink is InPlace {
        RunModel { sink: SinkModel::Stdout, ..m }
    } else {
        m
    }
}

/// Folds the remaining tokens over state `m`.
pub open spec fn resolve_from(tokens: Seq<TokenModel>, m: RunModel) -> ResolutionModel
    decreases tokens.len(),
{
    if tokens.len() == 0 {
        ResolutionModel::Run(finalize(m))
    } else if is_terminal(tokens[0]) {
        ResolutionModel::Terminal(terminal_of(tokens[0]))
    } else {
        resolve_from(tokens.drop_first(), apply_token(m, tokens[0]))
    }
}

/// What a whole token sequence resolves to.
pub open spec fn resolve_model(tokens: Seq<TokenModel>) -> ResolutionModel {
    resolve_from(tokens, init_model())
}

/// One unfolding step of `resolve_from`, phrased over an index.
proof fn lemma_resolve_step(tokens: Seq<TokenModel>, i: int, m: RunModel)
    requires
        0 <= i < tokens.len(),
    ensures
        is_terminal(tokens[i]) ==> resolve_from(tokens.skip(i), m)
            == ResolutionModel::Terminal(terminal_of(tokens[i])),
        !is_terminal(tokens[i]) ==> resolve_from(tokens.skip(i), m)
            == resolve_from(tokens.skip(i + 1), apply_token(m, tokens[i])),
{
    assert(tokens.skip(i).len() == tokens.len() - i);
    assert(tokens.skip(i)[0] == tokens[i]);
    assert(tokens.skip(i).drop_first() =~= tokens.skip(i + 1));
}

/// Resolves a token sequence into a terminal action or a run
/// configuration, exactly as the fold model says.
pub fn resolve_args(tokens: &Vec<Token>) -> (r: Resolution)
    ensures
        r@ == resolve_model(tokens.deep_view()),
{
    let dash: String = String::from_str("-");
    let mut has_files: bool = false;
    let mut files: Vec<String> = Vec::new();
    let mut sink: OutputSink = OutputSink::InPlace;
    let mut verbose: bool = false;
    let mut config_path: String = default_config_path();
    let ghost toks: Seq<TokenModel> = tokens.deep_view();

    proof {
        assert(toks.skip(0) =~= toks);
        assert(dash@ == "-"@);
    }
    let mut i: usize = 0;
    while i < tokens.len()
        invariant
            dash@ == "-"@,
            0 <= i <= tokens.len(),
            toks == tokens.deep_view(),
            toks.len() == tokens.len(),
            resolve_model(toks) == resolve_from(
                toks.skip(i as int),
                (RunModel {
                    source: if has_files {
                        SourceModel::Files(files.deep_view())
                    } else {
                        SourceModel::Stdin
                    },
                    sink: sink@,
                    verbose: verbose,
                    config_path: config_path@,
                }),
            ),
        decreases tokens.len() - i,
    {
        let ghost m = RunModel {
            source: if has_files {
                SourceModel::Files(files.deep_view())
            } else {
                SourceModel::Stdin
            },
            sink: sink@,
            verbose: verbose,
            config_path: config_path@,
        };
        proof {
            lemma_resolve_step(toks, i as int, m);
            assert(toks[i as int] == tokens[i as int].deep_view());
        }
        match &tokens[i] {
            Token::Version => {
                return Resolution::Terminal(TerminalAction::PrintVersion);
            },
            Token::Help => {
                return Resolution::Terminal(TerminalAction::PrintHelp);
            },
            Token::MakeDefaultConfig => {
                return Resolution::Terminal(TerminalAction::CreateDefaultConfig);
            },
            Token::Unknown(text) => {
                return Resolution::Terminal(TerminalAction::Unexpected(text.clone()));
            },
            Token::Positional(path) => {
                if !has_files {
                    has_files = true;
                    files = Vec::new();
                }
                files.push(path.clone());
            },
            Token::StdoutFlag => {
                sink = OutputSink::Stdout;
            },
            Token::Output(value) => {
                if *value == dash {
                    sink = OutputSink::Stdout;
                } else {
                    sink = OutputSink::ToFile(value.clone());
                }
            },
            Token::Verbose => {
                verbose = true;
            },
            Token::ConfigPath(path) => {
                config_path = path.clone();
            },
            Token::CheckFlag => {
                sink = OutputSink::Check;
            },
        }
        proof {
            let next_m = RunModel {
                source: if has_files {
                    SourceModel::Files(files.deep_view())
                } else {
                    SourceModel::Stdin
                },
                sink: sink@,
                verbose: verbose,
                config_path: config_path@,
            };
            assert(next_m =~~= apply_token(m, toks[i as int]));
        }
        i = i + 1;
    }
    proof {
        assert(toks.skip(toks.len() as int) =~= Seq::<TokenModel>::empty());
    }
    let source = if has_files {
        InputSource::Files(files)
    } else {
        InputSource::Stdin
    };
    let final_sink = if !has_files && matches!(sink, OutputSink::InPlace) {
        OutputSink::Stdout
    } else {
        sink
    };
    Resolution::Run(RunConfig { source, sink: final_sink, verbose, config_path })
}

/// Whether a token leaves the document source at standard input.
pub open spec fn keeps_stdin_source(t: TokenModel) -> bool {
    !(t is Positional)
}

/// Whether a token leaves the output sink untouched.
pub open spec fn keeps_sink(t: TokenModel) -> bool {
    !(t is StdoutFlag) && !(t is Output) && !(t is CheckFlag)
}

/// Helper for the standard-input default: folding tokens that touch
/// neither the source nor the sink over a state that reads standard
/// input and writes in place can only end in a run that reads standard
/// input and writes to standard output.
proof fn lemma_stdin_run_from(tokens: Seq<TokenModel>, m: RunModel)
    requires
        m.source is Stdin,
        m.sink is InPlace,
        forall|i: int|
            0 <= i < tokens.len() ==> keeps_stdin_source(#[trigger] tokens[i]) && keeps_sink(
                tokens[i],
            ),
    ensures
        forall|r: RunModel|
            resolve_from(tokens, m) == ResolutionModel::Run(r) ==> r.source is Stdin
                && r.sink is Stdout,
    decreases tokens.len(),
{
    if tokens.len() == 0 {
    } else if is_terminal(tokens[0]) {
    } else {
        lemma_stdin_run_from(tokens.drop_first(), apply_token(m, tokens[0]));
    }
}

/// The standard-input default: an invocation with no positional file
/// arguments and no output-selecting flag that resolves to a run reads
/// standard input and routes output to standard output — never to an
/// in-place overwrite.
pub proof fn lemma_stdin_defaults_to_stdout(tokens: Seq<TokenModel>)
    requires
        forall|i: int|
            0 <= i < tokens.len() ==> keeps_stdin_source(#[trigger] tokens[i]) && keeps_sink(
                tokens[i],
            ),
    ensures
        forall|r: RunModel|
            resolve_model(tokens) == ResolutionModel::Run(r) ==> r.source is Stdin
                && r.sink is Stdout,
{
    lemma_stdin_run_from(tokens, init_model());
}

/// How many file paths a source enumerates; reading standard input
/// enumerates none by path.
pub open spec fn files_len(source: SourceModel) -> nat {
    match source {
        SourceModel::Stdin => 0,
        SourceModel::Files(paths) => paths.len(),
    }
}

/// How many positional tokens a sequence holds.
pub open spec fn count_positionals(tokens: Seq<TokenModel>) -> nat
    decreases tokens.len(),
{
    if tokens.len() == 0 {
        0
    } else {
        (if tokens[0] is Positional {
            1nat
        } else {
            0nat
        }) + count_positionals(tokens.drop_first())
    }
}

/// A token sequence without terminal tokens always resolves to a run,
/// whose file list grows by exactly one path per positional token.
proof fn lemma_no_terminal_resolves_to_run(tokens: Seq<TokenModel>, m: RunModel)
    requires
        forall|i: int| 0 <= i < tokens.len() ==> !is_terminal(#[trigger] tokens[i]),
    ensures
        resolve_from(tokens, m) matches ResolutionModel::Run(r) && files_len(r.source)
            == files_len(m.source) + count_positionals(tokens),
        count_positionals(tokens) > 0 ==> (resolve_from(tokens, m) matches ResolutionModel::Run(r)
            && r.source is Files),
    decreases tokens.len(),
{
    if tokens.len() > 0 {
        lemma_no_terminal_resolves_to_run(tokens.drop_first(), apply_token(m, tokens[0]));
    }
}

/// A token sequence without terminal tokens that touches the sink
/// nowhere leaves a sink other than the in-place default as it was.
proof fn lemma_sink_preserved(tokens: Seq<TokenModel>, m: RunModel)
    requires
        forall|i: int| 0 <= i < tokens.len() ==> !is_terminal(#[trigger] tokens[i]),
        forall|i: int| 0 <= i < tokens.len() ==> keeps_sink(#[trigger] tokens[i]),
        !(m.sink is InPlace),
    ensures
        resolve_from(tokens, m) matches ResolutionModel::Run(r) && r.sink == m.sink,
    decreases tokens.len(),
{
    if tokens.len() > 0 {
        lemma_sink_preserved(tokens.drop_first(), apply_token(m, tokens[0]));
    }
}

/// After the last sink-selecting token `--output VALUE` with a value
/// other than `-`, the resolved sink is that fixed destination file.
proof fn lemma_last_output_file_wins(tokens: Seq<TokenModel>, m: RunModel, k: int, value: Seq<char>)
    requires
        forall|i: int| 0 <= i < tokens.len() ==> !is_terminal(#[trigger] tokens[i]),
        0 <= k < tokens.len(),
        tokens[k] == TokenModel::Output(value),
        value != "-"@,
        forall|j: int| k < j < tokens.len() ==> keeps_sink(#[trigger] tokens[j]),
    ensures
        resolve_from(tokens, m) matches ResolutionModel::Run(r) && r.sink == SinkModel::ToFile(
            value,
        ),
    decreases tokens.len(),
{
    let tail = tokens.drop_first();
    if k == 0 {
        lemma_sink_preserved(tail, apply_token(m, tokens[0]));
    } else {
        lemma_last_output_file_wins(tail, apply_token(m, tokens[0]), k - 1, value);
    }
}

/// Conflict rejection: an invocation of two or more file paths whose
/// last sink-selecting flag is `--output` with a destination other than
/// `-` resolves to the rejected combination — several inputs into one
/// destination file — and the run aborts before any document is read.
pub proof fn lemma_conflict_rejection(tokens: Seq<TokenModel>, k: int, value: Seq<char>)
    requires
        forall|i: int| 0 <= i < tokens.len() ==> !is_terminal(#[trigger] tokens[i]),
        count_positionals(tokens) >= 2,
        0 <= k < tokens.len(),
        tokens[k] == TokenModel::Output(value),
        value != "-"@,
        forall|j: int| k < j < tokens.len() ==> keeps_sink(#[trigger] tokens[j]),
    ensures
        resolve_model(tokens) matches ResolutionModel::Run(r) && output_conflict(r),
{
    lemma_no_terminal_resolves_to_run(tokens, init_model());
    lemma_last_output_file_wins(tokens, init_model(), k, value);
}

/// A run that sends several input files into one destination file is
/// rejected: one output file cannot receive the result of many inputs.
pub open spec fn output_conflict(m: RunModel) -> bool {
    &&& m.sink is ToFile
    &&& m.source matches SourceModel::Files(paths) && paths.len() > 1
}

/// Decides whether a resolved run is the rejected combination of several
/// input files with a single destination file. A run for which this
/// returns `true` aborts before any document is read, formatted or
/// written.
pub fn has_output_conflict(config: &RunConfig) -> (conflict: bool)
    ensures
        conflict == output_conflict(config@),
{
    match (&config.sink, &config.source) {
        (OutputSink::ToFile(_), InputSource::Files(paths)) => paths.len() > 1,
        _ => false,
    }
}

} // verus!
