use vstd::prelude::*;
use crate::cli::OutputFormat;
use crate::report::{CrJsonReport, ReportItem, opt_str};
use crate::text::{push_str, seq_ends_with, str_ends_with, to_owned_string};

verus! {

/// JSON and YAML are the structured formats.
pub open spec fn structured(format: OutputFormat) -> bool {
    format == OutputFormat::Json || format == OutputFormat::Yaml
}

pub fn is_structured_format(format: OutputFormat) -> (r: bool)
    ensures
        r == structured(format),
{
    match format {
        OutputFormat::Json | OutputFormat::Yaml => true,
        _ => false,
    }
}

/// File extension of each output format.
pub open spec fn extension_of(format: OutputFormat) -> Seq<char> {
    match format {
        OutputFormat::Json => "json"@,
        OutputFormat::Yaml => "yaml"@,
        OutputFormat::Markdown => "md"@,
        OutputFormat::Html => "html"@,
    }
}

pub fn format_extension(format: OutputFormat) -> (r: &'static str)
    ensures
        r@ == extension_of(format),
{
    match format {
        OutputFormat::Json => "json",
        OutputFormat::Yaml => "yaml",
        OutputFormat::Markdown => "md",
        OutputFormat::Html => "html",
    }
}

// ---------------------------------------------------------------------------
// Paths
// ---------------------------------------------------------------------------

/// What `std::path::Path::file_stem` gives for a path, as text.
pub uninterp spec fn path_file_stem(path: Seq<char>) -> Option<Seq<char>>;

/// What `std::path::Path::file_name` gives for a path, as text.
pub uninterp spec fn path_file_name(path: Seq<char>) -> Option<Seq<char>>;

/// What `std::path::Path::parent` gives for a path, as text.
pub uninterp spec fn path_parent(path: Seq<char>) -> Option<Seq<char>>;

/// What `std::path::Path::join` gives for a base path and a name, as text.
pub uninterp spec fn path_join(base: Seq<char>, name: Seq<char>) -> Seq<char>;

/// What `std::path::Path::is_absolute` says of a path.
pub uninterp spec fn path_is_absolute(path: Seq<char>) -> bool;

/// The file stem of a path by `std::path::Path::file_stem` (the path's rules for the target
/// platform). A stem of text is text, so no stem is lost in the conversion.
#[verifier::external_body]
pub(crate) fn file_stem_of(path: &str) -> (r: Option<String>)
    ensures
        opt_str(r) == path_file_stem(path@),
{
    match std::path::Path::new(path).file_stem() {
        Some(s) => s.to_str().map(|t| t.to_string()),
        None => None,
    }
}

/// The last component of a path by `std::path::Path::file_name`.
#[verifier::external_body]
fn file_name_of(path: &str) -> (r: Option<String>)
    ensures
        opt_str(r) == path_file_name(path@),
{
    match std::path::Path::new(path).file_name() {
        Some(s) => s.to_str().map(|t| t.to_string()),
        None => None,
    }
}

/// The path without its last component by `std::path::Path::parent`.
#[verifier::external_body]
pub(crate) fn parent_of(path: &str) -> (r: Option<String>)
    ensures
        opt_str(r) == path_parent(path@),
{
    match std::path::Path::new(path).parent() {
        Some(p) => p.to_str().map(|t| t.to_string()),
        None => None,
    }
}

/// `name` appended to `base` by `std::path::Path::join`.
#[verifier::external_body]
pub(crate) fn join_path(base: &str, name: &str) -> (r: String)
    ensures
        r@ == path_join(base@, name@),
{
    std::path::Path::new(base).join(name).to_string_lossy().into_owned()
}

/// Whether a path is absolute by `std::path::Path::is_absolute`.
#[verifier::external_body]
fn is_absolute_path(path: &str) -> (r: bool)
    ensures
        r == path_is_absolute(path@),
{
    std::path::Path::new(path).is_absolute()
}

/// The stem an output file is named after: the input's file stem, or `report`.
pub open spec fn stem_or_report(path: Seq<char>) -> Seq<char> {
    match path_file_stem(path) {
        Some(s) => s,
        None => "report"@,
    }
}

/// The directory of a path, `.` when it has none.
pub open spec fn parent_or_dot(path: Seq<char>) -> Seq<char> {
    match path_parent(path) {
        Some(p) => p,
        None => "."@,
    }
}

/// Base name of an output file: a profile report gets `_report` after the stem.
pub open spec fn report_base(stem: Seq<char>, use_profile_output: bool) -> Seq<char> {
    if use_profile_output {
        stem + "_report"@
    } else {
        stem
    }
}

/// File name of a base name in a format.
pub open spec fn with_extension(base: Seq<char>, format: OutputFormat) -> Seq<char> {
    base + "."@ + extension_of(format)
}

pub(crate) fn output_stem(path: &str) -> (r: String)
    ensures
        r@ == stem_or_report(path@),
{
    match file_stem_of(path) {
        Some(s) => s,
        None => to_owned_string("report"),
    }
}

pub(crate) fn output_parent(path: &str) -> (r: String)
    ensures
        r@ == parent_or_dot(path@),
{
    match parent_of(path) {
        Some(p) => p,
        None => to_owned_string("."),
    }
}

fn base_name(stem: String, use_profile_output: bool) -> (r: String)
    ensures
        r@ == report_base(stem@, use_profile_output),
{
    if use_profile_output {
        let mut b = stem;
        push_str(&mut b, "_report");
        b
    } else {
        stem
    }
}

pub(crate) fn file_name_in(base: &str, format: OutputFormat) -> (r: String)
    ensures
        r@ == with_extension(base@, format),
{
    let mut f = to_owned_string(base);
    push_str(&mut f, ".");
    push_str(&mut f, format_extension(format));
    f
}

/// Where the report goes when no output path is given: beside the first input, named after
/// its stem (`report.<ext>` in `.` when there is no result).
pub open spec fn default_output_path_of(format: OutputFormat, results: Seq<ReportItem>, use_profile_output: bool) -> Seq<char> {
    if results.len() == 0 {
        path_join("."@, with_extension("report"@, format))
    } else {
        let p = results[0].spec_input_path();
        path_join(parent_or_dot(p), with_extension(report_base(stem_or_report(p), use_profile_output), format))
    }
}

pub fn default_output_path(format: OutputFormat, report: &CrJsonReport, use_profile_output: bool) -> (r: String)
    ensures
        r@ == default_output_path_of(format, report.results@, use_profile_output),
{
    if report.results.len() == 0 {
        let name = file_name_in("report", format);
        join_path(".", name.as_str())
    } else {
        let p = report.results[0].input_path();
        let parent = output_parent(p);
        let base = base_name(output_stem(p), use_profile_output);
        let name = file_name_in(base.as_str(), format);
        join_path(parent.as_str(), name.as_str())
    }
}

/// Where the crJSON goes beside a profile report: the report's directory, named after the
/// first input's stem.
pub open spec fn crjson_output_path_of(format: OutputFormat, results: Seq<ReportItem>, report_path: Seq<char>) -> Seq<char> {
    let stem = if results.len() == 0 {
        "report"@
    } else {
        stem_or_report(results[0].spec_input_path())
    };
    path_join(parent_or_dot(report_path), with_extension(stem, format))
}

pub fn crjson_output_path(format: OutputFormat, report: &CrJsonReport, report_path: &str) -> (r: String)
    ensures
        r@ == crjson_output_path_of(format, report.results@, report_path@),
{
    let stem = if report.results.len() == 0 {
        to_owned_string("report")
    } else {
        output_stem(report.results[0].input_path())
    };
    let parent = output_parent(report_path);
    let name = file_name_in(stem.as_str(), format);
    join_path(parent.as_str(), name.as_str())
}

/// A name that ends in one of the report formats' extensions.
pub open spec fn names_report_file(name: Option<Seq<char>>) -> bool {
    match name {
        Some(n) => seq_ends_with(n, ".json"@) || seq_ends_with(n, ".yaml"@) || seq_ends_with(n, ".yml"@)
            || seq_ends_with(n, ".md"@) || seq_ends_with(n, ".html"@),
        None => false,
    }
}

fn looks_like_report_file(path: &str) -> (r: bool)
    ensures
        r == names_report_file(path_file_name(path@)),
{
    match file_name_of(path) {
        Some(n) => {
            let n = n.as_str();
            str_ends_with(n, ".json") || str_ends_with(n, ".yaml") || str_ends_with(n, ".yml")
                || str_ends_with(n, ".md") || str_ends_with(n, ".html")
        },
        None => false,
    }
}

/// An output path names a directory when it is an existing directory or its name has no
/// report extension.
pub open spec fn is_output_dir(output: Seq<char>, exists_as_dir: bool) -> bool {
    exists_as_dir || !names_report_file(path_file_name(output))
}

/// Whether the output path is taken as a directory; `exists_as_dir` tells whether it is an
/// existing directory.
pub fn output_is_dir(output: &str, exists_as_dir: bool) -> (r: bool)
    ensures
        r == is_output_dir(output@, exists_as_dir),
{
    exists_as_dir || !looks_like_report_file(output)
}

/// The file a report is written to for output path `output`: the path itself, or, for a
/// directory, a file in it named after the single input's stem (`report` for several).
pub open spec fn resolved_output_path_of(
    output: Seq<char>,
    exists_as_dir: bool,
    format: OutputFormat,
    results: Seq<ReportItem>,
    use_profile_output: bool,
) -> Seq<char> {
    if is_output_dir(output, exists_as_dir) {
        let stem = if results.len() == 1 {
            stem_or_report(results[0].spec_input_path())
        } else {
            "report"@
        };
        path_join(output, with_extension(report_base(stem, use_profile_output), format))
    } else {
        output
    }
}

pub fn resolve_output_path(
    output: &str,
    exists_as_dir: bool,
    format: OutputFormat,
    report: &CrJsonReport,
    use_profile_output: bool,
) -> (r: String)
    ensures
        r@ == resolved_output_path_of(output@, exists_as_dir, format, report.results@, use_profile_output),
{
    if output_is_dir(output, exists_as_dir) {
        let stem = if report.results.len() == 1 {
            output_stem(report.results[0].input_path())
        } else {
            to_owned_string("report")
        };
        let base = base_name(stem, use_profile_output);
        let name = file_name_in(base.as_str(), format);
        join_path(output, name.as_str())
    } else {
        to_owned_string(output)
    }
}

/// With a single result, a report written into an output directory gets the same file name
/// as the one written by default beside the input; only the directory differs.
pub proof fn lemma_directory_output_names_like_default(
    output: Seq<char>,
    format: OutputFormat,
    results: Seq<ReportItem>,
    use_profile_output: bool,
)
    requires
        results.len() == 1,
    ensures
        ({
            let name = with_extension(
                report_base(stem_or_report(results[0].spec_input_path()), use_profile_output),
                format,
            );
            &&& resolved_output_path_of(output, true, format, results, use_profile_output) == path_join(output, name)
            &&& default_output_path_of(format, results, use_profile_output) == path_join(
                parent_or_dot(results[0].spec_input_path()),
                name,
            )
        }),
{
}

/// Why output cannot be written.
#[derive(Debug, Clone, Copy, PartialEq, Eq, Structural)]
pub enum OutputError {
    /// Several structured reports need a directory, and the output path names a file.
    DirectoryRequired,
}

pub open spec fn output_error_message(e: OutputError) -> Seq<char> {
    match e {
        OutputError::DirectoryRequired => "With multiple inputs and structured output, use -o <directory> to write one file per input (e.g. -o ./out)"@,
    }
}

impl OutputError {
    /// The message shown for the error.
    pub fn message(&self) -> (r: &'static str)
        ensures
            r@ == output_error_message(*self),
    {
        match self {
            OutputError::DirectoryRequired => "With multiple inputs and structured output, use -o <directory> to write one file per input (e.g. -o ./out)",
        }
    }
}

/// The directory that per-input files go to: an error when the path names a report file and
/// is not an existing directory.
pub fn resolve_output_dir(output: &str, exists_as_dir: bool) -> (r: Result<String, OutputError>)
    ensures
        r is Err <==> (names_report_file(path_file_name(output@)) && !exists_as_dir),
        r matches Err(e) ==> e == OutputError::DirectoryRequired,
        r matches Ok(d) ==> d@ == output@,
{
    if looks_like_report_file(output) && !exists_as_dir {
        Err(OutputError::DirectoryRequired)
    } else {
        Ok(to_owned_string(output))
    }
}

/// An output path made absolute against the working directory `cwd`.
pub open spec fn normalized_path_of(path: Option<Seq<char>>, cwd: Seq<char>) -> Option<Seq<char>> {
    match path {
        Some(p) => if path_is_absolute(p) {
            Some(p)
        } else {
            Some(path_join(cwd, p))
        },
        None => None,
    }
}

/// Makes a relative output path absolute against the working directory `cwd`; an absolute
/// path and no path are returned as they are.
pub fn normalize_output_path(path: Option<String>, cwd: &str) -> (r: Option<String>)
    ensures
        opt_str(r) == normalized_path_of(opt_str(path), cwd@),
{
    match path {
        Some(p) => if is_absolute_path(p.as_str()) {
            Some(p)
        } else {
            Some(join_path(cwd, p.as_str()))
        },
        None => None,
    }
}

} // verus!
