use crate::budget::{estimate, estimate_spec, CHARS_PER_TOKEN, MAX_TOKENS};
use crate::reducer::{reduce, reduce_spec, reduced_spec, rewrite_all, short_flag, short_flag_string};
use vstd::prelude::*;

verus! {

/// The instruction that opens every prompt unless the user gives another.
pub const DEFAULT_SYSTEM_PROMPT: &'static str = "You are an experienced software engineer reviewing a pull request.
Read the diff below and point out bugs, security problems, unclear code and
missing tests. For each finding name the file and the changed lines, explain
the problem briefly and suggest a fix. Mention what is done well, too.
Keep the review concise and ordered by importance.
";

/// Whether `a` and `b` hold the same characters.
pub fn same_text(a: &str, b: &str) -> (r: bool)
    ensures
        r == (a@ == b@),
{
    let n = a.unicode_len();
    if n != b.unicode_len() {
        return false;
    }
    let mut i: usize = 0;
    while i < n
        invariant
            i <= n,
            n == a@.len(),
            n == b@.len(),
            forall|j: int| 0 <= j < i ==> a@[j] == b@[j],
        decreases n - i,
    {
        if a.get_char(i) != b.get_char(i) {
            return false;
        }
        i = i + 1;
    }
    assert(a@ =~= b@);
    true
}

/// A format the review may be asked to come in.
#[derive(Clone, Copy, Debug, PartialEq, Eq)]
pub enum OutputFormat {
    Markdown,
    AsciiDoc,
    MediaWiki,
}

/// The format named by `s`, if any.
pub open spec fn format_named(s: Seq<char>) -> Option<OutputFormat> {
    if s == "markdown"@ {
        Some(OutputFormat::Markdown)
    } else if s == "asciidoc"@ {
        Some(OutputFormat::AsciiDoc)
    } else if s == "mediawiki"@ {
        Some(OutputFormat::MediaWiki)
    } else {
        None
    }
}

/// How a format is written in the prompt.
pub open spec fn format_title(f: OutputFormat) -> Seq<char> {
    match f {
        OutputFormat::Markdown => "Markdown"@,
        OutputFormat::AsciiDoc => "AsciiDoc"@,
        OutputFormat::MediaWiki => "MediaWiki"@,
    }
}

impl OutputFormat {
    /// The format named `markdown`, `asciidoc` or `mediawiki`; `None` for
    /// any other name.
    pub fn from_str(s: &str) -> (r: Option<OutputFormat>)
        ensures
            r == format_named(s@),
    {
        if same_text(s, "markdown") {
            Some(OutputFormat::Markdown)
        } else if same_text(s, "asciidoc") {
            Some(OutputFormat::AsciiDoc)
        } else if same_text(s, "mediawiki") {
            Some(OutputFormat::MediaWiki)
        } else {
            None
        }
    }

    /// The format's name as it appears in the prompt.
    pub fn title(&self) -> (r: &'static str)
        ensures
            r@ == format_title(*self),
    {
        match self {
            OutputFormat::Markdown => "Markdown",
            OutputFormat::AsciiDoc => "AsciiDoc",
            OutputFormat::MediaWiki => "MediaWiki",
        }
    }
}

/// What the user asked for on the command line.
pub struct Cli {
    /// Additional context appended to the system prompt.
    pub context: Option<String>,
    /// A system prompt that replaces the default one.
    pub system_prompt: Option<String>,
    /// Print the default system prompt and stop.
    pub show_system_prompt: bool,
    /// The format the review is requested in.
    pub output_format: Option<String>,
    /// Number of context lines asked of the diff.
    pub unified_context: usize,
    /// Verbose output.
    pub verbose: bool,
    /// Debug output.
    pub debug: bool,
    /// Reduce the context even when the diff fits the budget.
    pub force_reduced: bool,
    /// Arguments handed on to the diff command.
    pub remaining_args: Vec<String>,
}

impl Default for Cli {
    /// Three context lines and no other option.
    fn default() -> (r: Cli)
        ensures
            r.context is None,
            r.system_prompt is None,
            !r.show_system_prompt,
            r.output_format is None,
            r.unified_context == 3,
            !r.verbose,
            !r.debug,
            !r.force_reduced,
            r.remaining_args@.len() == 0,
    {
        Cli {
            context: None,
            system_prompt: None,
            show_system_prompt: false,
            output_format: None,
            unified_context: 3,
            verbose: false,
            debug: false,
            force_reduced: false,
            remaining_args: Vec::new(),
        }
    }
}

/// How much the run reports while it works.
#[derive(Clone, Copy, Debug, PartialEq, Eq)]
pub enum LogLevel {
    Warn,
    Info,
    Trace,
}

impl Cli {
    /// Verbose output shows information, debug output shows everything, and
    /// otherwise only warnings are shown; verbose takes precedence.
    pub fn log_level(&self) -> (r: LogLevel)
        ensures
            r == (if self.verbose {
                LogLevel::Info
            } else if self.debug {
                LogLevel::Trace
            } else {
                LogLevel::Warn
            }),
    {
        if self.verbose {
            LogLevel::Info
        } else if self.debug {
            LogLevel::Trace
        } else {
            LogLevel::Warn
        }
    }
}

/// The system prompt in use: the user's own, or the default one.
pub open spec fn base_prompt(cli: &Cli) -> Seq<char> {
    match cli.system_prompt {
        Some(p) => p@,
        None => DEFAULT_SYSTEM_PROMPT@,
    }
}

/// The sentence asking for an output format, empty when none is named.
pub open spec fn format_directive(cli: &Cli) -> Seq<char> {
    match cli.output_format {
        Some(name) => match format_named(name@) {
            Some(f) => "\nOutput the review in "@ + format_title(f) + " format.\n"@,
            None => Seq::empty(),
        },
        None => Seq::empty(),
    }
}

/// The section holding the user's additional context, empty without one.
pub open spec fn context_section(cli: &Cli) -> Seq<char> {
    match cli.context {
        Some(c) => "\n## Additional Context\n"@ + c@ + "\n"@,
        None => Seq::empty(),
    }
}

/// The full prompt for a review of `diff`.
pub open spec fn prompt_spec(cli: &Cli, diff: Seq<char>) -> Seq<char> {
    base_prompt(cli) + format_directive(cli) + context_section(cli) + "\n\n# PR Code\n\n"@ + diff
}

/// Assembles the prompt: the system prompt, the format directive, the
/// additional context and the diff, in this order.
pub fn build_prompt(cli: &Cli, diff: &str) -> (r: String)
    ensures
        r@ == prompt_spec(cli, diff@),
{
    let mut prompt = match &cli.system_prompt {
        Some(p) => p.clone(),
        None => String::from_str(DEFAULT_SYSTEM_PROMPT),
    };
    if let Some(name) = &cli.output_format {
        if let Some(f) = OutputFormat::from_str(name.as_str()) {
            prompt.append("\nOutput the review in ");
            prompt.append(f.title());
            prompt.append(" format.\n");
        }
    }
    if let Some(c) = &cli.context {
        prompt.append("\n## Additional Context\n");
        prompt.append(c.as_str());
        prompt.append("\n");
    }
    prompt.append("\n\n# PR Code\n\n");
    prompt.append(diff);
    prompt
}

/// What one run of the diff command gave: whether it exited successfully,
/// its standard output and its standard error.
pub struct DiffResult {
    pub success: bool,
    pub stdout: String,
    pub stderr: String,
}

/// Why a review stops without a prompt.
#[derive(Debug)]
pub enum ReviewError {
    /// The diff command failed; holds what it wrote to standard error.
    InvocationFailure(String),
    /// The diff stays over the token budget even with reduced context.
    BudgetExceededUnrecoverable,
    /// The diff is empty: nothing to review. This is no failure.
    NoChanges,
}

impl ReviewError {
    /// The process status for this stop: 0 when there was nothing to
    /// review, 1 for a failure.
    pub fn exit_code(&self) -> (r: i32)
        ensures
            r == (if self is NoChanges {
                0i32
            } else {
                1i32
            }),
    {
        match self {
            ReviewError::NoChanges => 0,
            _ => 1,
        }
    }

    /// The notice shown to the user for this stop.
    pub fn message(&self) -> (r: String)
        ensures
            r@ == (match self {
                ReviewError::InvocationFailure(e) => "Git diff command failed. Check your arguments:\nStderr: "@
                    + e@,
                ReviewError::BudgetExceededUnrecoverable => "Diff is too large to process even with minimal context. Try reviewing a smaller set of changes."@,
                ReviewError::NoChanges => "No changes found to review."@,
            }),
    {
        match self {
            ReviewError::InvocationFailure(e) => {
                let mut m = String::from_str("Git diff command failed. Check your arguments:\nStderr: ");
                m.append(e.as_str());
                m
            },
            ReviewError::BudgetExceededUnrecoverable => String::from_str(
                "Diff is too large to process even with minimal context. Try reviewing a smaller set of changes.",
            ),
            ReviewError::NoChanges => String::from_str("No changes found to review."),
        }
    }
}

/// The diff text of a run, or why the review stops: a failed run is an
/// invocation failure and an empty output means there are no changes.
pub fn accept_diff(result: &DiffResult) -> (r: Result<String, ReviewError>)
    ensures
        !result.success ==> (r matches Err(ReviewError::InvocationFailure(e)) && e@
            == result.stderr@),
        result.success && result.stdout@.len() == 0 ==> r matches Err(ReviewError::NoChanges),
        result.success && result.stdout@.len() > 0 ==> (r matches Ok(t) && t@ == result.stdout@),
{
    if !result.success {
        return Err(ReviewError::InvocationFailure(result.stderr.clone()));
    }
    if result.stdout.unicode_len() == 0 {
        return Err(ReviewError::NoChanges);
    }
    Ok(result.stdout.clone())
}

/// Decides from the first diff whether the context must be reduced.
/// `Ok(None)`: keep the diff. `Ok(Some(args))`: run the diff once more with
/// `args`. `Err(BudgetExceededUnrecoverable)`: the diff is over budget, and
/// reducing the context would not be enough.
pub fn reduce_context_if_needed(
    git_args: &Vec<String>,
    unified_context: usize,
    force_reduced: bool,
    diff_output: &str,
    max_tokens: usize,
    chars_per_token: usize,
) -> (r: Result<Option<Vec<String>>, ReviewError>)
    requires
        chars_per_token > 0,
        ({
            let est = estimate_spec(diff_output@.len(), chars_per_token as nat);
            est == 0 || unified_context as nat * max_tokens as nat / est <= usize::MAX
        }),
    ensures
        ({
            let est = estimate_spec(diff_output@.len(), chars_per_token as nat);
            &&& (est <= max_tokens && !force_reduced) ==> (r matches Ok(None))
            &&& (force_reduced && est == 0) ==> (r matches Ok(None))
            &&& est > max_tokens ==> (r matches Err(ReviewError::BudgetExceededUnrecoverable))
            &&& (force_reduced && 0 < est <= max_tokens) ==> (r matches Ok(Some(v)) && reduce_spec(
                git_args.deep_view(),
                unified_context as nat,
                est,
                max_tokens as nat,
            ) == Some(v.deep_view()))
        }),
{
    let estimated_tokens = estimate(diff_output, chars_per_token);
    if estimated_tokens <= max_tokens && !force_reduced {
        return Ok(None);
    }
    if estimated_tokens > max_tokens {
        return Err(ReviewError::BudgetExceededUnrecoverable);
    }
    Ok(reduce(git_args, unified_context, estimated_tokens, max_tokens))
}

/// The diff arguments first asked for: the short context flag, then the
/// user's arguments as they are.
pub open spec fn initial_args_spec(cli: &Cli) -> Seq<Seq<char>> {
    seq![short_flag(cli.unified_context as nat)] + cli.remaining_args.deep_view()
}

/// Builds the first diff arguments, one token per argument.
pub fn initial_args(cli: &Cli) -> (r: Vec<String>)
    ensures
        r.deep_view() == initial_args_spec(cli),
{
    let mut r: Vec<String> = Vec::new();
    r.push(short_flag_string(cli.unified_context));
    let mut i: usize = 0;
    while i < cli.remaining_args.len()
        invariant
            i <= cli.remaining_args.len(),
            r@.len() == i + 1,
            r@[0]@ == short_flag(cli.unified_context as nat),
            forall|j: int| 0 <= j < i ==> (#[trigger] r@[j + 1])@ == cli.remaining_args@[j]@,
        decreases cli.remaining_args.len() - i,
    {
        r.push(cli.remaining_args[i].clone());
        i = i + 1;
    }
    assert forall|j: int| 0 <= j < r@.len() implies r.deep_view()[j] == initial_args_spec(
        cli,
    )[j] by {
        if j > 0 {
            assert(r@[(j - 1) + 1]@ == cli.remaining_args@[j - 1]@);
        }
    }
    assert(r.deep_view() =~= initial_args_spec(cli));
    r
}

/// Which run of the diff command a result comes from.
#[derive(Clone, Copy, Debug, PartialEq, Eq)]
pub enum Stage {
    FirstRun,
    SecondRun,
}

/// What to do next.
#[derive(Debug)]
pub enum Action {
    /// Run the diff command, this time with these arguments.
    Invoke(Vec<String>),
    /// Print this prompt: the review is ready.
    Prompt(String),
    /// Stop without a prompt.
    Halt(ReviewError),
}

/// Decides what follows a run of the diff command. After the first run an
/// over-budget diff stops the review, and a forced reduction asks for one
/// more run with the reduced context. The second run's output is taken as it
/// is: there is never a third run.
pub fn after_diff(cli: &Cli, stage: Stage, result: &DiffResult) -> (r: Action)
    requires
        ({
            let est = estimate_spec(result.stdout@.len(), CHARS_PER_TOKEN as nat);
            est == 0 || cli.unified_context as nat * MAX_TOKENS as nat / est <= usize::MAX
        }),
    ensures
        !result.success ==> (r matches Action::Halt(ReviewError::InvocationFailure(e)) && e@
            == result.stderr@),
        result.success && result.stdout@.len() == 0 ==> r matches Action::Halt(
            ReviewError::NoChanges,
        ),
        result.success && result.stdout@.len() > 0 && stage == Stage::SecondRun ==> (r matches Action::Prompt(p)
            && p@ == prompt_spec(cli, result.stdout@)),
        ({
            let est = estimate_spec(result.stdout@.len(), CHARS_PER_TOKEN as nat);
            let first = result.success && result.stdout@.len() > 0 && stage == Stage::FirstRun;
            &&& first && ((est <= MAX_TOKENS && !cli.force_reduced) || est == 0) ==> (r matches Action::Prompt(p)
                && p@ == prompt_spec(cli, result.stdout@))
            &&& first && est > MAX_TOKENS ==> (r matches Action::Halt(
                ReviewError::BudgetExceededUnrecoverable,
            ))
            &&& first && cli.force_reduced && 0 < est <= MAX_TOKENS ==> (r matches Action::Invoke(a)
                && a.deep_view() == rewrite_all(
                initial_args_spec(cli),
                reduced_spec(cli.unified_context as nat, MAX_TOKENS as nat, est),
            ))
        }),
{
    let text = match accept_diff(result) {
        Err(e) => {
            return Action::Halt(e);
        },
        Ok(t) => t,
    };
    match stage {
        Stage::SecondRun => Action::Prompt(build_prompt(cli, text.as_str())),
        Stage::FirstRun => {
            let args = initial_args(cli);
            match reduce_context_if_needed(
                &args,
                cli.unified_context,
                cli.force_reduced,
                text.as_str(),
                MAX_TOKENS,
                CHARS_PER_TOKEN,
            ) {
                Err(e) => Action::Halt(e),
                Ok(None) => Action::Prompt(build_prompt(cli, text.as_str())),
                Ok(Some(a)) => Action::Invoke(a),
            }
        },
    }
}

/// `s` with two spaces put after every newline.
pub open spec fn indent_after_newlines(s: Seq<char>) -> Seq<char>
    decreases s.len(),
{
    if s.len() == 0 {
        Seq::empty()
    } else {
        (if s[0] == '\n' {
            seq!['\n', ' ', ' ']
        } else {
            seq![s[0]]
        }) + indent_after_newlines(s.skip(1))
    }
}

/// `s` with two spaces at the start of every line: at its start and after
/// each newline, a final newline included.
pub open spec fn indented(s: Seq<char>) -> Seq<char> {
    seq![' ', ' '] + indent_after_newlines(s)
}

/// Relies on regex's `Regex::replace_all` with the multi-line pattern
/// `(?m)^`, which matches at the start of the text and right after each
/// `\n`; every match is replaced by two spaces.
#[verifier::external_body]
fn indent_lines(s: &str) -> (r: String)
    ensures
        r@ == indented(s@),
{
    regex::Regex::new(r"(?m)^").unwrap().replace_all(s, "  ").into_owned()
}

/// The listing of the default system prompt, each of its lines indented by
/// two spaces.
pub fn system_prompt_listing() -> (r: String)
    ensures
        r@ == "Default System Prompt:\n\n"@ + indented(DEFAULT_SYSTEM_PROMPT@),
{
    let mut r = String::from_str("Default System Prompt:\n\n");
    let body = indent_lines(DEFAULT_SYSTEM_PROMPT);
    r.append(body.as_str());
    r
}

} // verus!
