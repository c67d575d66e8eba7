use vstd::prelude::*;
use crate::validator::{ValidatorError, check_inputs};
use crate::report::{
    CrJsonReport, ExitStatus, ReportItem, SdkMetadata, Summary, ToolMetadata, ValidationState,
    exit_status_of,
};

verus! {

/// Number of asset results in the given state.
pub open spec fn asset_count(items: Seq<ReportItem>, state: ValidationState) -> nat
    decreases items.len(),
{
    if items.len() == 0 {
        0
    } else {
        asset_count(items.drop_last(), state) + match items.last() {
            ReportItem::Asset(a) => if a.validation_state == state { 1nat } else { 0nat },
            ReportItem::CrJsonValidation(_) => 0nat,
        }
    }
}

/// Number of crJSON validation results.
pub open spec fn crjson_count(items: Seq<ReportItem>) -> nat
    decreases items.len(),
{
    if items.len() == 0 {
        0
    } else {
        crjson_count(items.drop_last()) + match items.last() {
            ReportItem::Asset(_) => 0nat,
            ReportItem::CrJsonValidation(_) => 1nat,
        }
    }
}

/// Number of crJSON validation results that are not valid.
pub open spec fn failed_crjson_count(items: Seq<ReportItem>) -> nat
    decreases items.len(),
{
    if items.len() == 0 {
        0
    } else {
        failed_crjson_count(items.drop_last()) + match items.last() {
            ReportItem::Asset(_) => 0nat,
            ReportItem::CrJsonValidation(c) => if c.valid { 0nat } else { 1nat },
        }
    }
}

/// Number of warnings over all asset results.
pub open spec fn warning_total(items: Seq<ReportItem>) -> nat
    decreases items.len(),
{
    if items.len() == 0 {
        0
    } else {
        warning_total(items.drop_last()) + match items.last() {
            ReportItem::Asset(a) => a.warnings@.len(),
            ReportItem::CrJsonValidation(_) => 0nat,
        }
    }
}

/// Number of assets that are valid (not trusted) and carry warnings: strict mode counts each
/// of them as an error.
pub open spec fn strict_error_count(items: Seq<ReportItem>) -> nat
    decreases items.len(),
{
    if items.len() == 0 {
        0
    } else {
        strict_error_count(items.drop_last()) + match items.last() {
            ReportItem::Asset(a) => if a.validation_state == ValidationState::Valid
                && a.warnings@.len() > 0 {
                1nat
            } else {
                0nat
            },
            ReportItem::CrJsonValidation(_) => 0nat,
        }
    }
}

/// Errors a run counts: invalid crJSON reports, and in strict mode also the valid assets
/// with warnings.
pub open spec fn error_count(items: Seq<ReportItem>, strict: bool) -> nat {
    failed_crjson_count(items) + if strict { strict_error_count(items) } else { 0nat }
}

/// The summary fields for the given results.
pub open spec fn summary_matches(s: Summary, items: Seq<ReportItem>, strict: bool) -> bool {
    &&& s.total == items.len()
    &&& s.trusted == asset_count(items, ValidationState::Trusted)
    &&& s.valid == asset_count(items, ValidationState::Valid)
    &&& s.invalid == asset_count(items, ValidationState::Invalid)
    &&& s.errors == error_count(items, strict)
    &&& s.warnings == warning_total(items)
}

/// Every count is at most the number of results; the three asset states and the crJSON
/// reports split the results; failed crJSON reports and strict errors are among the crJSON
/// reports and the valid assets.
pub proof fn lemma_counts_partition(items: Seq<ReportItem>)
    ensures
        asset_count(items, ValidationState::Trusted) + asset_count(items, ValidationState::Valid)
            + asset_count(items, ValidationState::Invalid) + crjson_count(items) == items.len(),
        failed_crjson_count(items) <= crjson_count(items),
        strict_error_count(items) <= asset_count(items, ValidationState::Valid),
    decreases items.len(),
{
    if items.len() > 0 {
        lemma_counts_partition(items.drop_last());
    }
}

/// The counts over a prefix grow by the item that follows it.
proof fn lemma_counts_step(items: Seq<ReportItem>, i: int)
    requires
        0 <= i < items.len(),
    ensures
        items.take(i + 1).drop_last() == items.take(i),
        items.take(i + 1).last() == items[i],
{
    assert(items.take(i + 1).drop_last() =~= items.take(i));
}

/// Warnings over a prefix are at most those over the whole sequence.
proof fn lemma_warning_total_prefix(items: Seq<ReportItem>, i: int)
    requires
        0 <= i <= items.len(),
    ensures
        warning_total(items.take(i)) <= warning_total(items),
    decreases items.len() - i,
{
    if i < items.len() {
        lemma_warning_total_prefix(items, i + 1);
        lemma_counts_step(items, i);
    } else {
        assert(items.take(i) =~= items);
    }
}

/// Counts the results of a run. Every result counts toward the total; each asset toward its
/// state and with its warnings; each invalid crJSON report as an error; in strict mode each
/// valid asset with warnings as an error too.
pub fn summarize(results: &Vec<ReportItem>, strict: bool) -> (r: Summary)
    requires
        warning_total(results@) <= usize::MAX,
    ensures
        summary_matches(r, results@, strict),
{
    let ghost items = results@;
    let mut s = Summary { total: 0, trusted: 0, valid: 0, invalid: 0, errors: 0, warnings: 0 };
    let mut strict_errors: usize = 0;
    let mut i: usize = 0;
    while i < results.len()
        invariant
            items == results@,
            i <= items.len(),
            warning_total(items) <= usize::MAX,
            s.total == i,
            s.trusted == asset_count(items.take(i as int), ValidationState::Trusted),
            s.valid == asset_count(items.take(i as int), ValidationState::Valid),
            s.invalid == asset_count(items.take(i as int), ValidationState::Invalid),
            s.errors == failed_crjson_count(items.take(i as int)),
            s.warnings == warning_total(items.take(i as int)),
            strict_errors == strict_error_count(items.take(i as int)),
        decreases items.len() - i,
    {
        proof {
            lemma_counts_step(items, i as int);
            lemma_counts_partition(items.take(i as int));
            lemma_warning_total_prefix(items, i + 1);
        }
        match &results[i] {
            ReportItem::Asset(a) => {
                match a.validation_state {
                    ValidationState::Trusted => s.trusted = s.trusted + 1,
                    ValidationState::Valid => s.valid = s.valid + 1,
                    ValidationState::Invalid => s.invalid = s.invalid + 1,
                }
                s.warnings = s.warnings + a.warnings.len();
                if a.validation_state == ValidationState::Valid && a.warnings.len() > 0 {
                    strict_errors = strict_errors + 1;
                }
            },
            ReportItem::CrJsonValidation(c) => {
                if !c.valid {
                    s.errors = s.errors + 1;
                }
            },
        }
        s.total = s.total + 1;
        i = i + 1;
    }
    proof {
        assert(items.take(items.len() as int) =~= items);
        lemma_counts_partition(items);
    }
    if strict {
        s.errors = s.errors + strict_errors;
    }
    s
}

/// Name of the report format.
pub open spec fn report_schema() -> Seq<char> {
    "crjson"@
}

/// Version of the report format.
pub open spec fn report_schema_version() -> Seq<char> {
    "0.1.0"@
}

/// The report of a run: the results in input order with their summary, stamped with the
/// tool, the C2PA SDK it was built with, and the time it was made.
pub fn assemble_report(
    results: Vec<ReportItem>,
    strict: bool,
    sdk_name: &'static str,
    sdk_version: &'static str,
    generated_at: String,
) -> (r: CrJsonReport)
    requires
        warning_total(results@) <= usize::MAX,
    ensures
        r.schema@ == report_schema(),
        r.schema_version@ == report_schema_version(),
        r.tool.name@ == "c2pa-validate"@,
        r.tool.version@ == "0.5.0"@,
        r.tool.c2pa_sdk.name == sdk_name,
        r.tool.c2pa_sdk.version == sdk_version,
        r.tool.c2pa_sdk.source@ == "vendor/c2pa-rs/sdk"@,
        r.generated_at == generated_at,
        r.results == results,
        summary_matches(r.summary, results@, strict),
{
    let summary = summarize(&results, strict);
    CrJsonReport {
        schema: "crjson",
        schema_version: "0.1.0",
        tool: ToolMetadata {
            name: "c2pa-validate",
            version: "0.5.0",
            c2pa_sdk: SdkMetadata { name: sdk_name, version: sdk_version, source: "vendor/c2pa-rs/sdk" },
        },
        generated_at,
        summary,
        results,
    }
}

/// A run fails exactly when some asset is invalid or some error was counted; strict mode
/// can turn a passing run into a failing one but never the reverse.
pub proof fn lemma_run_exit_status(items: Seq<ReportItem>, s: Summary, t: Summary)
    requires
        summary_matches(s, items, false),
        summary_matches(t, items, true),
    ensures
        exit_status_of(s) == ExitStatus::Failure <==> (asset_count(items, ValidationState::Invalid) > 0
            || failed_crjson_count(items) > 0),
        exit_status_of(t) == ExitStatus::Failure <==> (exit_status_of(s) == ExitStatus::Failure
            || strict_error_count(items) > 0),
        t.total == s.total && t.trusted == s.trusted && t.valid == s.valid && t.invalid == s.invalid
            && t.warnings == s.warnings,
        t.errors >= s.errors,
{
}

/// A run in progress: the expanded inputs, and the results of those validated so far, in
/// input order.
pub struct RunProgress {
    pub inputs: Vec<String>,
    pub results: Vec<ReportItem>,
}

impl RunProgress {
    /// No more results than inputs.
    pub open spec fn well_formed(&self) -> bool {
        self.results@.len() <= self.inputs@.len()
    }

    /// Starts a run over the expanded inputs; a run needs at least one.
    pub fn start(inputs: Vec<String>) -> (r: Result<RunProgress, ValidatorError>)
        ensures
            r is Err <==> inputs@.len() == 0,
            r matches Err(e) ==> e == ValidatorError::NoInputs,
            r matches Ok(p) ==> p.inputs == inputs && p.results@.len() == 0 && p.well_formed(),
    {
        match check_inputs(&inputs) {
            Err(e) => Err(e),
            Ok(()) => Ok(RunProgress { inputs, results: Vec::new() }),
        }
    }

    /// The input to validate next: the first one without a result, none when all have one.
    pub fn next_input(&self) -> (r: Option<&str>)
        requires
            self.well_formed(),
        ensures
            r is None <==> self.results@.len() == self.inputs@.len(),
            r matches Some(s) ==> s@ == self.inputs@[self.results@.len() as int]@,
    {
        if self.results.len() < self.inputs.len() {
            Some(self.inputs[self.results.len()].as_str())
        } else {
            None
        }
    }

    /// Records the result of the input returned by `next_input`.
    pub fn record(&mut self, item: ReportItem)
        requires
            old(self).results@.len() < old(self).inputs@.len(),
        ensures
            final(self).inputs == old(self).inputs,
            final(self).results@ == old(self).results@.push(item),
            final(self).well_formed(),
    {
        self.results.push(item);
    }

    /// The report of a run with a result for every input: one result per expanded input, in
    /// input order, with their summary.
    pub fn finish(
        self,
        strict: bool,
        sdk_name: &'static str,
        sdk_version: &'static str,
        generated_at: String,
    ) -> (r: CrJsonReport)
        requires
            self.results@.len() == self.inputs@.len(),
            warning_total(self.results@) <= usize::MAX,
        ensures
            r.results == self.results,
            r.results@.len() == self.inputs@.len(),
            summary_matches(r.summary, self.results@, strict),
            r.schema@ == report_schema(),
            r.schema_version@ == report_schema_version(),
            r.generated_at == generated_at,
            r.tool.c2pa_sdk.name == sdk_name,
            r.tool.c2pa_sdk.version == sdk_version,
    {
        let RunProgress { inputs: _, results } = self;
        assemble_report(results, strict, sdk_name, sdk_version, generated_at)
    }
}

} // verus!
