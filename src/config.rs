//! The configuration document and its merge with the command line.
use vstd::prelude::*;
use vstd::string::StringSliceAdditionalSpecFns;
use yaml_rust::{ScanError, Yaml, YamlLoader};

verus! {

#[verifier::external_type_specification]
#[verifier::external_body]
pub struct ExYaml(Yaml);

#[verifier::external_type_specification]
#[verifier::external_body]
pub struct ExScanError(ScanError);

/// The documents that a YAML text holds, in order; `None` where the text is
/// not well-formed YAML.
pub uninterp spec fn yaml_load(source: Seq<char>) -> Option<Seq<Yaml>>;

/// The entries of a YAML mapping whose key and value are both strings; empty
/// for a node that is not a mapping.
pub uninterp spec fn yaml_string_entries(doc: Yaml) -> Map<Seq<char>, Seq<char>>;

/// The longest line, in bytes, that a configuration text may hold.
pub const MAX_LINE_BYTES: usize = 512;

/// The number of bytes between the last newline before position `i` (or the
/// start of the text) and `i`: the column at which the scanner stands there.
pub open spec fn line_run(b: Seq<u8>, i: int) -> nat
    decreases i,
{
    if i <= 0 || i > b.len() {
        0
    } else if b[i - 1] == 10 {
        0
    } else {
        line_run(b, i - 1) + 1
    }
}

/// No line of the text is longer than `n` bytes.
pub open spec fn lines_within(b: Seq<u8>, n: nat) -> bool {
    forall|i: int| 0 <= i <= b.len() ==> #[trigger] line_run(b, i) <= n
}

/// Relies on `YamlLoader::load_from_str`: the documents it returns, or the
/// scan error, depend on the text alone. Its loader recurses once per level of
/// nesting; flow collections are capped by the scanner (a `u8` level), while a
/// block collection nested in another starts at a greater column, and the
/// column is reset only by `\n`. Bounding the line length therefore bounds
/// the recursion, which is unbounded otherwise.
#[verifier::external_body]
fn load_documents(source: &str) -> (r: Result<Vec<Yaml>, ScanError>)
    requires
        lines_within(source.spec_bytes(), MAX_LINE_BYTES as nat),
    ensures
        match r {
            Ok(d) => yaml_load(source@) == Some(d@),
            Err(_) => yaml_load(source@) is None,
        },
{
    YamlLoader::load_from_str(source)
}

/// Relies on `Index<&str> for Yaml` and `Yaml::as_str`: indexing a mapping by
/// a string key yields the value stored under `Yaml::String(key)`, and
/// `as_str` gives the text of a string node, `None` for every other node.
#[verifier::external_body]
fn string_entry(doc: &Yaml, key: &str) -> (r: Option<String>)
    ensures
        match r {
            Some(v) => yaml_string_entries(*doc).contains_key(key@) && yaml_string_entries(
                *doc,
            )[key@] == v@,
            None => !yaml_string_entries(*doc).contains_key(key@),
        },
{
    doc[key].as_str().map(|s| s.to_owned())
}

/// The values that decide one submission: where it goes, and what it holds.
#[derive(Debug, Clone, PartialEq, Eq)]
pub struct Params {
    pub webhook: Option<String>,
    pub text: Option<String>,
    pub file: Option<String>,
}

pub struct ParamsView {
    pub webhook: Option<Seq<char>>,
    pub text: Option<Seq<char>>,
    pub file: Option<Seq<char>>,
}

impl View for Params {
    type V = ParamsView;

    open spec fn view(&self) -> ParamsView {
        ParamsView {
            webhook: self.webhook.deep_view(),
            text: self.text.deep_view(),
            file: self.file.deep_view(),
        }
    }
}

/// No value at all.
pub open spec fn no_params() -> ParamsView {
    ParamsView { webhook: None, text: None, file: None }
}

/// `first` where it is present, else `second`.
pub open spec fn prefer(first: Option<Seq<char>>, second: Option<Seq<char>>) -> Option<Seq<char>> {
    if first is Some {
        first
    } else {
        second
    }
}

/// Each field from the command line where it was given there, else from the
/// configuration document.
pub open spec fn merged(cli: ParamsView, config: ParamsView) -> ParamsView {
    ParamsView {
        webhook: prefer(cli.webhook, config.webhook),
        text: prefer(cli.text, config.text),
        file: prefer(cli.file, config.file),
    }
}

/// The value stored under `key`, if any.
pub open spec fn entry(m: Map<Seq<char>, Seq<char>>, key: Seq<char>) -> Option<Seq<char>> {
    if m.contains_key(key) {
        Some(m[key])
    } else {
        None
    }
}

/// What a document's string entries contribute.
pub open spec fn params_of_entries(m: Map<Seq<char>, Seq<char>>) -> ParamsView {
    ParamsView {
        webhook: entry(m, "webhook"@),
        text: entry(m, "text"@),
        file: entry(m, "file"@),
    }
}

/// What a configuration text contributes: the first document's string
/// entries, nothing where it holds no document, `None` where it is not
/// well-formed.
pub open spec fn params_of_source(source: Seq<char>) -> Option<ParamsView> {
    match yaml_load(source) {
        None => None,
        Some(docs) => if docs.len() == 0 {
            Some(no_params())
        } else {
            Some(params_of_entries(yaml_string_entries(docs[0])))
        },
    }
}

/// Why a configuration text cannot be used.
#[derive(Debug)]
pub enum ConfigError {
    /// A line is longer than `MAX_LINE_BYTES`; such a text may nest deeper
    /// than the YAML loader can follow.
    LineTooLong,
    /// The text is not well-formed YAML.
    Malformed(ScanError),
}

impl Params {
    /// Parameters with no value set.
    pub fn empty() -> (r: Params)
        ensures
            r@ == no_params(),
    {
        Params { webhook: None, text: None, file: None }
    }
}

/// Reads the `webhook`, `text` and `file` string entries of a YAML document.
pub fn params_from_document(doc: &Yaml) -> (r: Params)
    ensures
        r@ == params_of_entries(yaml_string_entries(*doc)),
{
    proof {
        reveal_strlit("webhook");
        reveal_strlit("text");
        reveal_strlit("file");
    }
    let webhook = string_entry(doc, "webhook");
    let text = string_entry(doc, "text");
    let file = string_entry(doc, "file");
    Params { webhook, text, file }
}

/// Whether no line of `source` is longer than `MAX_LINE_BYTES`.
pub fn lines_fit(source: &str) -> (r: bool)
    ensures
        r == lines_within(source.spec_bytes(), MAX_LINE_BYTES as nat),
{
    let b = source.as_bytes();
    let mut run: usize = 0;
    let mut i: usize = 0;
    while i < b.len()
        invariant
            i <= b@.len(),
            b@ == source.spec_bytes(),
            run == line_run(b@, i as int),
            forall|j: int| 0 <= j <= i ==> #[trigger] line_run(b@, j) <= MAX_LINE_BYTES,
        decreases b.len() - i,
    {
        if b[i] == 10 {
            run = 0;
        } else {
            if run == MAX_LINE_BYTES {
                assert(line_run(b@, i + 1) > MAX_LINE_BYTES);
                return false;
            }
            run = run + 1;
        }
        i = i + 1;
    }
    true
}

/// Parses a configuration text. A text without any document contributes
/// nothing; one with a line longer than `MAX_LINE_BYTES`, or one that is not
/// well-formed, is an error.
pub fn parse_config(source: &str) -> (r: Result<Params, ConfigError>)
    ensures
        match r {
            Err(ConfigError::LineTooLong) => !lines_within(
                source.spec_bytes(),
                MAX_LINE_BYTES as nat,
            ),
            Err(ConfigError::Malformed(_)) => lines_within(
                source.spec_bytes(),
                MAX_LINE_BYTES as nat,
            ) && params_of_source(source@) is None,
            Ok(p) => lines_within(source.spec_bytes(), MAX_LINE_BYTES as nat) && params_of_source(
                source@,
            ) == Some(p@),
        },
{
    if !lines_fit(source) {
        return Err(ConfigError::LineTooLong);
    }
    match load_documents(source) {
        Ok(docs) => {
            if docs.len() == 0 {
                Ok(Params::empty())
            } else {
                Ok(params_from_document(&docs[0]))
            }
        },
        Err(e) => Err(ConfigError::Malformed(e)),
    }
}

/// Merges the command line with the configuration document: a value given
/// on the command line always wins.
pub fn merge(cli: Params, config: Params) -> (r: Params)
    ensures
        r@ == merged(cli@, config@),
{
    let webhook = match cli.webhook {
        Some(w) => Some(w),
        None => config.webhook,
    };
    let text = match cli.text {
        Some(t) => Some(t),
        None => config.text,
    };
    let file = match cli.file {
        Some(f) => Some(f),
        None => config.file,
    };
    Params { webhook, text, file }
}

/// The parameters of one invocation: the command line, merged with the
/// configuration text where one was read.
pub fn resolve(cli: Params, config_source: Option<&str>) -> (r: Result<Params, ConfigError>)
    ensures
        match config_source {
            None => r matches Ok(p) && p@ == cli@,
            Some(s) => if !lines_within(s.spec_bytes(), MAX_LINE_BYTES as nat) {
                r matches Err(ConfigError::LineTooLong)
            } else {
                match params_of_source(s@) {
                    None => r matches Err(ConfigError::Malformed(_)),
                    Some(c) => r matches Ok(p) && p@ == merged(cli@, c),
                }
            },
        },
{
    match config_source {
        None => Ok(cli),
        Some(s) => match parse_config(s) {
            Ok(c) => Ok(merge(cli, c)),
            Err(e) => Err(e),
        },
    }
}

/// Whatever the configuration holds, every field given on the command line
/// keeps its command-line value after the merge.
pub proof fn command_line_wins(cli: ParamsView, config: ParamsView)
    ensures
        cli.webhook is Some ==> merged(cli, config).webhook == cli.webhook,
        cli.text is Some ==> merged(cli, config).text == cli.text,
        cli.file is Some ==> merged(cli, config).file == cli.file,
        cli.webhook is None ==> merged(cli, config).webhook == config.webhook,
        cli.text is None ==> merged(cli, config).text == config.text,
        cli.file is None ==> merged(cli, config).file == config.file,
{
}

/// A configuration that contributes nothing leaves the command line as it
/// is.
pub proof fn empty_config_keeps_command_line(cli: ParamsView)
    ensures
        merged(cli, no_params()) == cli,
{
}

} // verus!
