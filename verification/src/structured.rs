use vstd::prelude::*;
use crate::cli::OutputFormat;
use crate::json::{JsonData, JsonValue, datas, lemma_array_data};
use crate::output::{
    OutputError, crjson_output_path, crjson_output_path_of, default_output_path,
    default_output_path_of, is_output_dir, names_report_file, path_file_name,
    resolve_output_dir, resolve_output_path, resolved_output_path_of,
    file_name_in, join_path, output_parent, output_stem, parent_of, parent_or_dot,
    path_join, path_parent, stem_or_report, structured, with_extension,
};
use crate::summary::crjson_count;
use crate::report::{
    AssetReport, CrJsonReport, CrJsonValidationReport, InputDescriptor, InputType, ReportItem,
    opt_str,
};
use crate::text::{decimal, decimal_string, push_str, str_eq, to_owned_string};
use crate::validator::string_views;

verus! {

// ---------------------------------------------------------------------------
// Structured values
// ---------------------------------------------------------------------------

fn array_value(items: Vec<JsonValue>) -> (r: JsonValue)
    ensures
        r.data() == JsonData::Array(datas(items@)),
{
    let r = JsonValue::Array(items);
    proof {
        lemma_array_data(&r);
    }
    r
}

fn copies(v: &Vec<JsonValue>) -> (r: Vec<JsonValue>)
    ensures
        datas(r@) == datas(v@),
{
    let mut out: Vec<JsonValue> = Vec::new();
    let mut i: usize = 0;
    while i < v.len()
        invariant
            i <= v@.len(),
            out@.len() == i,
            forall|k: int| 0 <= k < i ==> #[trigger] out@[k].data() == v@[k].data(),
        decreases v@.len() - i,
    {
        out.push(v[i].deep_copy());
        i = i + 1;
    }
    assert(datas(out@) =~= datas(v@));
    out
}

/// The structured value of a crJSON result: its single rubric result, or all its rubric
/// results as an array; none without rubric results, as a crJSON input has no asset.
pub open spec fn structured_crjson_data(r: CrJsonValidationReport) -> Option<JsonData> {
    if r.rubric_results@.len() == 0 {
        None
    } else if r.rubric_results@.len() == 1 {
        Some(r.rubric_results@[0].data())
    } else {
        Some(JsonData::Array(datas(r.rubric_results@)))
    }
}

pub fn structured_crjson_value(report: &CrJsonValidationReport) -> (r: Option<JsonValue>)
    ensures
        opt_json(r) == structured_crjson_data(*report),
{
    if report.rubric_results.len() == 0 {
        None
    } else if report.rubric_results.len() == 1 {
        Some(report.rubric_results[0].deep_copy())
    } else {
        Some(array_value(copies(&report.rubric_results)))
    }
}

pub open spec fn opt_json(v: Option<JsonValue>) -> Option<JsonData> {
    match v {
        Some(x) => Some(x.data()),
        None => None,
    }
}

/// The structured value of an asset: its profile evaluation, or its reader crJSON.
pub open spec fn structured_asset_data(a: AssetReport, use_profile_output: bool) -> Option<JsonData> {
    if use_profile_output {
        opt_json(a.profile_evaluation)
    } else {
        opt_json(a.reader_json)
    }
}

fn copy_opt_json(v: &Option<JsonValue>) -> (r: Option<JsonValue>)
    ensures
        opt_json(r) == opt_json(*v),
{
    match v {
        Some(x) => Some(x.deep_copy()),
        None => None,
    }
}

pub fn structured_asset_value(asset: &AssetReport, use_profile_output: bool) -> (r: Option<JsonValue>)
    ensures
        opt_json(r) == structured_asset_data(*asset, use_profile_output),
{
    if use_profile_output {
        copy_opt_json(&asset.profile_evaluation)
    } else {
        copy_opt_json(&asset.reader_json)
    }
}

/// The structured values of the results, in order; results without one are left out.
pub open spec fn structured_values(items: Seq<ReportItem>, use_profile_output: bool) -> Seq<JsonData>
    decreases items.len(),
{
    if items.len() == 0 {
        Seq::empty()
    } else {
        let rest = structured_values(items.drop_last(), use_profile_output);
        match items.last() {
            ReportItem::Asset(a) => match structured_asset_data(a, use_profile_output) {
                Some(v) => rest.push(v),
                None => rest,
            },
            ReportItem::CrJsonValidation(c) => match structured_crjson_data(c) {
                Some(v) => rest.push(v),
                None => rest,
            },
        }
    }
}

/// The structured output of a report: null for no value, the value itself for one, an array
/// for several.
pub open spec fn structured_report_data(items: Seq<ReportItem>, use_profile_output: bool) -> JsonData {
    let values = structured_values(items, use_profile_output);
    if values.len() == 0 {
        JsonData::Null
    } else if values.len() == 1 {
        values[0]
    } else {
        JsonData::Array(values)
    }
}

pub fn report_to_structured_value(report: &CrJsonReport, use_profile_output: bool) -> (r: JsonValue)
    ensures
        r.data() == structured_report_data(report.results@, use_profile_output),
{
    let ghost items = report.results@;
    let mut values: Vec<JsonValue> = Vec::new();
    let mut i: usize = 0;
    while i < report.results.len()
        invariant
            items == report.results@,
            i <= items.len(),
            datas(values@) == structured_values(items.take(i as int), use_profile_output),
        decreases items.len() - i,
    {
        proof {
            assert(items.take(i + 1).drop_last() =~= items.take(i as int));
        }
        let ghost before = values@;
        match &report.results[i] {
            ReportItem::Asset(a) => {
                match structured_asset_value(a, use_profile_output) {
                    Some(v) => {
                        values.push(v);
                        assert(datas(values@) =~= datas(before).push(values@[before.len() as int].data()));
                    },
                    None => {},
                }
            },
            ReportItem::CrJsonValidation(c) => {
                match structured_crjson_value(c) {
                    Some(v) => {
                        values.push(v);
                        assert(datas(values@) =~= datas(before).push(values@[before.len() as int].data()));
                    },
                    None => {},
                }
            },
        }
        i = i + 1;
    }
    proof {
        assert(items.take(items.len() as int) =~= items);
    }
    if values.len() == 0 {
        JsonValue::Null
    } else if values.len() == 1 {
        let v = values.pop().unwrap();
        assert(datas(values@.push(v)) == structured_values(items, use_profile_output));
        assert(datas(values@.push(v))[0] == v.data());
        v
    } else {
        array_value(values)
    }
}

// ---------------------------------------------------------------------------
// One structured file per asset
// ---------------------------------------------------------------------------

/// The key under which an asset's output files are counted to tell same-named files apart:
/// the stem when all files go to one directory, else the input's directory and stem.
pub open spec fn collision_key(item: ReportItem, out_dir: Option<Seq<char>>) -> Option<Seq<char>> {
    match item {
        ReportItem::Asset(a) => {
            let p = a.input.resolved_path@;
            let stem = stem_or_report(p);
            Some(
                match out_dir {
                    Some(_) => stem,
                    None => parent_or_dot(p) + "::"@ + stem,
                },
            )
        },
        ReportItem::CrJsonValidation(_) => None,
    }
}

/// How many of the results have the given key.
pub open spec fn key_count(items: Seq<ReportItem>, out_dir: Option<Seq<char>>, key: Seq<char>) -> nat
    decreases items.len(),
{
    if items.len() == 0 {
        0
    } else {
        key_count(items.drop_last(), out_dir, key) + if collision_key(items.last(), out_dir) == Some(key) {
            1nat
        } else {
            0nat
        }
    }
}

/// The suffix of the `n`-th file under one key: none for the first, `_n` after that.
pub open spec fn name_suffix(n: nat) -> Seq<char> {
    if n == 1 {
        ""@
    } else {
        "_"@ + decimal(n)
    }
}

/// The directory an asset's files go to: the output directory, else the input's directory.
pub open spec fn target_dir(path: Seq<char>, out_dir: Option<Seq<char>>) -> Seq<char> {
    match out_dir {
        Some(d) => d,
        None => match path_parent(path) {
            Some(p) => p,
            None => ""@,
        },
    }
}

pub open spec fn planned_path(dir: Seq<char>, base: Seq<char>, n: nat, format: OutputFormat) -> Seq<char> {
    path_join(dir, with_extension(base + name_suffix(n), format))
}

/// The files written for one asset whose key is seen for the `n`-th time: its crJSON under its
/// stem and, with a profile, its profile evaluation under `<stem>_report`; values it lacks
/// are not written.
pub open spec fn asset_files(
    a: AssetReport,
    n: nat,
    out_dir: Option<Seq<char>>,
    format: OutputFormat,
    use_profile_output: bool,
) -> Seq<(Seq<char>, JsonData)> {
    let p = a.input.resolved_path@;
    let stem = stem_or_report(p);
    let dir = target_dir(p, out_dir);
    let crjson = match opt_json(a.reader_json) {
        Some(v) => seq![(planned_path(dir, stem, n, format), v)],
        None => Seq::empty(),
    };
    if use_profile_output {
        crjson + match opt_json(a.profile_evaluation) {
            Some(v) => seq![(planned_path(dir, stem + "_report"@, n, format), v)],
            None => Seq::empty(),
        }
    } else {
        crjson
    }
}

/// The files written for all assets, in order.
pub open spec fn planned_files(
    items: Seq<ReportItem>,
    out_dir: Option<Seq<char>>,
    format: OutputFormat,
    use_profile_output: bool,
) -> Seq<(Seq<char>, JsonData)>
    decreases items.len(),
{
    if items.len() == 0 {
        Seq::empty()
    } else {
        planned_files(items.drop_last(), out_dir, format, use_profile_output) + match items.last() {
            ReportItem::Asset(a) => asset_files(
                a,
                key_count(items, out_dir, collision_key(items.last(), out_dir).unwrap()),
                out_dir,
                format,
                use_profile_output,
            ),
            ReportItem::CrJsonValidation(_) => Seq::empty(),
        }
    }
}

/// One file to write: its path and its content.
pub struct OutputFile {
    pub path: String,
    pub value: JsonValue,
}

pub open spec fn file_view(f: OutputFile) -> (Seq<char>, JsonData) {
    (f.path@, f.value.data())
}

pub open spec fn files_view(files: Seq<OutputFile>) -> Seq<(Seq<char>, JsonData)> {
    Seq::new(files.len(), |i: int| file_view(files[i]))
}

pub open spec fn opt_view(o: Option<&str>) -> Option<Seq<char>> {
    match o {
        Some(s) => Some(s@),
        None => None,
    }
}


fn collision_key_of(item: &ReportItem, out_dir: Option<&str>) -> (r: Option<String>)
    ensures
        opt_str(r) == collision_key(*item, opt_view(out_dir)),
{
    match item {
        ReportItem::Asset(a) => {
            let p = a.input.resolved_path.as_str();
            let stem = output_stem(p);
            match out_dir {
                Some(_) => Some(stem),
                None => {
                    let mut k = output_parent(p);
                    push_str(&mut k, "::");
                    push_str(&mut k, stem.as_str());
                    Some(k)
                },
            }
        },
        ReportItem::CrJsonValidation(_) => None,
    }
}

fn suffix_string(n: usize) -> (r: String)
    ensures
        r@ == name_suffix(n as nat),
{
    if n == 1 {
        to_owned_string("")
    } else {
        let mut s = to_owned_string("_");
        let d = decimal_string(n);
        push_str(&mut s, d.as_str());
        s
    }
}

fn target_dir_of(path: &str, out_dir: Option<&str>) -> (r: String)
    ensures
        r@ == target_dir(path@, opt_view(out_dir)),
{
    match out_dir {
        Some(d) => to_owned_string(d),
        None => match parent_of(path) {
            Some(p) => p,
            None => to_owned_string(""),
        },
    }
}

fn planned_path_of(dir: &str, base: &str, suffix: &str, format: OutputFormat) -> (r: String)
    ensures
        r@ == path_join(dir@, with_extension(base@ + suffix@, format)),
{
    let mut b = to_owned_string(base);
    push_str(&mut b, suffix);
    let name = file_name_in(b.as_str(), format);
    join_path(dir, name.as_str())
}

/// Number of results among the first `j` with key `key`.
fn count_key(keys: &Vec<Option<String>>, j: usize, key: &str, Ghost(items): Ghost<Seq<ReportItem>>, Ghost(od): Ghost<Option<Seq<char>>>) -> (r: usize)
    requires
        j <= keys@.len(),
        keys@.len() == items.len(),
        forall|k: int| 0 <= k < keys@.len() ==> #[trigger] opt_str(keys@[k]) == collision_key(items[k], od),
    ensures
        r == key_count(items.take(j as int), od, key@),
{
    let mut c: usize = 0;
    let mut t: usize = 0;
    while t < j
        invariant
            t <= j <= keys@.len(),
            keys@.len() == items.len(),
            forall|k: int| 0 <= k < keys@.len() ==> #[trigger] opt_str(keys@[k]) == collision_key(items[k], od),
            c <= t,
            c == key_count(items.take(t as int), od, key@),
        decreases j - t,
    {
        proof {
            assert(items.take(t + 1).drop_last() =~= items.take(t as int));
            assert(items.take(t + 1).last() == items[t as int]);
            assert(opt_str(keys@[t as int]) == collision_key(items[t as int], od));
        }
        match &keys[t] {
            Some(k) => {
                if str_eq(k.as_str(), key) {
                    c = c + 1;
                }
            },
            None => {},
        }
        t = t + 1;
    }
    c
}

/// The files to write for a structured report with one file per asset. With `out_dir` all
/// files go there; without it each goes beside its input. Same-named files get `_2`, `_3`, ...
/// in order; with a profile each asset also gets a `<stem>_report` file.
pub fn structured_output_files(
    report: &CrJsonReport,
    out_dir: Option<&str>,
    format: OutputFormat,
    use_profile_output: bool,
) -> (r: Vec<OutputFile>)
    ensures
        files_view(r@) == planned_files(report.results@, opt_view(out_dir), format, use_profile_output),
{
    let ghost items = report.results@;
    let ghost od = opt_view(out_dir);
    let n = report.results.len();
    let mut keys: Vec<Option<String>> = Vec::new();
    let mut i: usize = 0;
    while i < n
        invariant
            n == items.len(),
            items == report.results@,
            od == opt_view(out_dir),
            i <= n,
            keys@.len() == i,
            forall|k: int| 0 <= k < i ==> #[trigger] opt_str(keys@[k]) == collision_key(items[k], od),
        decreases n - i,
    {
        keys.push(collision_key_of(&report.results[i], out_dir));
        i = i + 1;
    }
    let mut files: Vec<OutputFile> = Vec::new();
    i = 0;
    while i < n
        invariant
            n == items.len(),
            items == report.results@,
            od == opt_view(out_dir),
            i <= n,
            keys@.len() == n,
            forall|k: int| 0 <= k < n ==> #[trigger] opt_str(keys@[k]) == collision_key(items[k], od),
            files_view(files@) == planned_files(items.take(i as int), od, format, use_profile_output),
        decreases n - i,
    {
        proof {
            assert(items.take(i + 1).drop_last() =~= items.take(i as int));
            assert(items.take(i + 1).last() == items[i as int]);
            assert(opt_str(keys@[i as int]) == collision_key(items[i as int], od));
        }
        let ghost before = files@;
        match &report.results[i] {
            ReportItem::Asset(a) => {
                let key = match &keys[i] {
                    Some(k) => k.as_str(),
                    None => "",
                };
                let count = count_key(&keys, i + 1, key, Ghost(items), Ghost(od));
                let suffix = suffix_string(count);
                let p = a.input.resolved_path.as_str();
                let stem = output_stem(p);
                let dir = target_dir_of(p, out_dir);
                let ghost pth = a.input.resolved_path@;
                let ghost crjson_part: Seq<(Seq<char>, JsonData)> = match opt_json(a.reader_json) {
                    Some(v) => seq![(planned_path(dir@, stem@, count as nat, format), v)],
                    None => Seq::empty(),
                };
                let ghost profile_part: Seq<(Seq<char>, JsonData)> = match opt_json(a.profile_evaluation) {
                    Some(v) => seq![(planned_path(dir@, stem@ + "_report"@, count as nat, format), v)],
                    None => Seq::empty(),
                };
                assert(stem@ == stem_or_report(pth));
                assert(dir@ == target_dir(pth, od));
                match structured_asset_value(a, false) {
                    Some(v) => {
                        let path = planned_path_of(dir.as_str(), stem.as_str(), suffix.as_str(), format);
                        let ghost vd = v.data();
                        files.push(OutputFile { path, value: v });
                        assert(files_view(files@) =~= files_view(before).push(file_view(files@.last())));
                        assert(file_view(files@.last()) == (path@, vd));
                        assert(opt_json(a.reader_json) == Some(vd));
                        assert(path@ == planned_path(dir@, stem@, count as nat, format));
                        assert(crjson_part == seq![(path@, vd)]);
                    },
                    None => {
                        assert(crjson_part =~= Seq::<(Seq<char>, JsonData)>::empty());
                    },
                }
                assert(files_view(files@) =~= files_view(before) + crjson_part);
                let ghost mid = files@;
                if use_profile_output {
                    match structured_asset_value(a, true) {
                        Some(v) => {
                            let mut base = to_owned_string(stem.as_str());
                            push_str(&mut base, "_report");
                            let path = planned_path_of(dir.as_str(), base.as_str(), suffix.as_str(), format);
                            files.push(OutputFile { path, value: v });
                            assert(files_view(files@) =~= files_view(mid).push(file_view(files@.last())));
                        },
                        None => {},
                    }
                    assert(files_view(files@) =~= files_view(mid) + profile_part);
                    assert(files_view(files@) =~= files_view(before) + (crjson_part + profile_part));
                }
                assert(asset_files(*a, count as nat, od, format, use_profile_output) == if use_profile_output {
                    crjson_part + profile_part
                } else {
                    crjson_part
                });
            },
            ReportItem::CrJsonValidation(_) => {
                assert(files_view(files@) =~= files_view(before) + Seq::<(Seq<char>, JsonData)>::empty());
            },
        }
        i = i + 1;
    }
    proof {
        assert(items.take(n as int) =~= items);
    }
    files
}

/// A structured report of several assets is written as one file per asset.
pub open spec fn one_file_per_asset(format: OutputFormat, items: Seq<ReportItem>) -> bool {
    structured(format) && items.len() - crjson_count(items) > 1
}

pub fn writes_one_file_per_asset(format: OutputFormat, report: &CrJsonReport) -> (r: bool)
    ensures
        r == one_file_per_asset(format, report.results@),
{
    let ghost items = report.results@;
    let mut assets: usize = 0;
    let mut i: usize = 0;
    while i < report.results.len()
        invariant
            items == report.results@,
            i <= items.len(),
            assets == i - crjson_count(items.take(i as int)),
            crjson_count(items.take(i as int)) <= i,
        decreases items.len() - i,
    {
        proof {
            assert(items.take(i + 1).drop_last() =~= items.take(i as int));
        }
        match &report.results[i] {
            ReportItem::Asset(_) => assets = assets + 1,
            ReportItem::CrJsonValidation(_) => {},
        }
        i = i + 1;
    }
    proof {
        assert(items.take(items.len() as int) =~= items);
    }
    crate::output::is_structured_format(format) && assets > 1
}

/// The count of a key over a prefix never exceeds its count over a longer prefix.
proof fn lemma_key_count_monotone(items: Seq<ReportItem>, od: Option<Seq<char>>, key: Seq<char>, a: int, b: int)
    requires
        0 <= a <= b <= items.len(),
    ensures
        key_count(items.take(a), od, key) <= key_count(items.take(b), od, key),
    decreases b - a,
{
    if a < b {
        lemma_key_count_monotone(items, od, key, a, b - 1);
        assert(items.take(b).drop_last() =~= items.take(b - 1));
    }
}

/// Same-named files never collide: each asset's file is counted at least once under its key,
/// and of two assets with the same key the later one has the higher count, so only the first
/// goes without a suffix and the others get different ones.
pub proof fn lemma_collision_counts(items: Seq<ReportItem>, out_dir: Option<Seq<char>>, i: int, j: int)
    requires
        0 <= i < j < items.len(),
        collision_key(items[i], out_dir) is Some,
        collision_key(items[i], out_dir) == collision_key(items[j], out_dir),
    ensures
        key_count(items.take(i + 1), out_dir, collision_key(items[i], out_dir).unwrap()) >= 1,
        key_count(items.take(i + 1), out_dir, collision_key(items[i], out_dir).unwrap())
            < key_count(items.take(j + 1), out_dir, collision_key(items[j], out_dir).unwrap()),
{
    let key = collision_key(items[i], out_dir).unwrap();
    assert(items.take(i + 1).drop_last() =~= items.take(i));
    assert(items.take(i + 1).last() == items[i]);
    assert(items.take(j + 1).drop_last() =~= items.take(j));
    assert(items.take(j + 1).last() == items[j]);
    lemma_key_count_monotone(items, out_dir, key, i + 1, j);
}

// ---------------------------------------------------------------------------
// Where a run's output goes
// ---------------------------------------------------------------------------

/// What a run writes, and the directories to create first.
pub enum OutputPlan {
    /// One structured file per asset: all in `out_dir` (created first) when given, else each
    /// beside its input.
    PerAsset { out_dir: Option<String> },
    /// The profile report at `report_path` and the crJSON beside it at `crjson_path`.
    ReportAndCrJson { create_dir: Option<String>, parent: Option<String>, report_path: String, crjson_path: String },
    /// One report at `path`.
    Single { create_dir: Option<String>, parent: Option<String>, path: String },
}

/// The contents of an output plan.
pub enum OutputPlanView {
    PerAsset(Option<Seq<char>>),
    ReportAndCrJson(Option<Seq<char>>, Option<Seq<char>>, Seq<char>, Seq<char>),
    Single(Option<Seq<char>>, Option<Seq<char>>, Seq<char>),
}

pub open spec fn plan_view(p: OutputPlan) -> OutputPlanView {
    match p {
        OutputPlan::PerAsset { out_dir } => OutputPlanView::PerAsset(opt_str(out_dir)),
        OutputPlan::ReportAndCrJson { create_dir, parent, report_path, crjson_path } => OutputPlanView::ReportAndCrJson(
            opt_str(create_dir),
            opt_str(parent),
            report_path@,
            crjson_path@,
        ),
        OutputPlan::Single { create_dir, parent, path } => OutputPlanView::Single(opt_str(create_dir), opt_str(parent), path@),
    }
}

/// The file a report goes to: into or at the output path when one is given, else beside
/// the first input.
pub open spec fn report_file_of(
    format: OutputFormat,
    output: Option<Seq<char>>,
    output_exists_as_dir: bool,
    use_profile_output: bool,
    items: Seq<ReportItem>,
) -> Seq<char> {
    match output {
        Some(o) => resolved_output_path_of(o, output_exists_as_dir, format, items, use_profile_output),
        None => default_output_path_of(format, items, use_profile_output),
    }
}

/// The output directory to create before writing into it.
pub open spec fn dir_to_create(output: Option<Seq<char>>, output_exists_as_dir: bool) -> Option<Seq<char>> {
    match output {
        Some(o) => if is_output_dir(o, output_exists_as_dir) {
            Some(o)
        } else {
            None
        },
        None => None,
    }
}

/// What a run writes: one file per asset for a structured report of several assets (into
/// the output directory, which must not name a report file unless it is an existing
/// directory); with a profile, the profile report and the crJSON beside it; else one report.
pub open spec fn output_plan_of(
    format: OutputFormat,
    output: Option<Seq<char>>,
    output_exists_as_dir: bool,
    use_profile_output: bool,
    items: Seq<ReportItem>,
) -> Result<OutputPlanView, OutputError> {
    if one_file_per_asset(format, items) {
        match output {
            Some(o) => if names_report_file(path_file_name(o)) && !output_exists_as_dir {
                Err(OutputError::DirectoryRequired)
            } else {
                Ok(OutputPlanView::PerAsset(Some(o)))
            },
            None => Ok(OutputPlanView::PerAsset(None)),
        }
    } else {
        let path = report_file_of(format, output, output_exists_as_dir, use_profile_output, items);
        if use_profile_output {
            Ok(OutputPlanView::ReportAndCrJson(
                dir_to_create(output, output_exists_as_dir),
                path_parent(path),
                path,
                crjson_output_path_of(format, items, path),
            ))
        } else {
            Ok(OutputPlanView::Single(dir_to_create(output, output_exists_as_dir), path_parent(path), path))
        }
    }
}

/// Decides what a run writes; `output_exists_as_dir` tells whether the output path is an
/// existing directory.
pub fn plan_output(
    format: OutputFormat,
    output: Option<&str>,
    output_exists_as_dir: bool,
    use_profile_output: bool,
    report: &CrJsonReport,
) -> (r: Result<OutputPlan, OutputError>)
    ensures
        match output_plan_of(format, opt_view(output), output_exists_as_dir, use_profile_output, report.results@) {
            Ok(v) => r matches Ok(p) && plan_view(p) == v,
            Err(e) => r == Err::<OutputPlan, OutputError>(e),
        },
{
    if writes_one_file_per_asset(format, report) {
        match output {
            Some(o) => match resolve_output_dir(o, output_exists_as_dir) {
                Ok(d) => Ok(OutputPlan::PerAsset { out_dir: Some(d) }),
                Err(e) => Err(e),
            },
            None => Ok(OutputPlan::PerAsset { out_dir: None }),
        }
    } else {
        let path = match output {
            Some(o) => resolve_output_path(o, output_exists_as_dir, format, report, use_profile_output),
            None => default_output_path(format, report, use_profile_output),
        };
        let create_dir = match output {
            Some(o) => if crate::output::output_is_dir(o, output_exists_as_dir) {
                Some(to_owned_string(o))
            } else {
                None
            },
            None => None,
        };
        let parent = parent_of(path.as_str());
        if use_profile_output {
            let crjson_path = crjson_output_path(format, report, path.as_str());
            Ok(OutputPlan::ReportAndCrJson { create_dir, parent, report_path: path, crjson_path })
        } else {
            Ok(OutputPlan::Single { create_dir, parent, path })
        }
    }
}

} // verus!
