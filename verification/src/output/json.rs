//! SARIF output rendering.
//!
//! The SARIF document is built as `serde_json` values and printed by
//! `serde_json`; what each value holds is stated over [`Json`].
use vstd::prelude::*;

use crate::diagnostic::{finding_views, Finding, FindingView, LocationView, Report, Severity};

verus! {

#[verifier::external_type_specification]
#[verifier::external_body]
pub struct ExJsonValue(serde_json::Value);

#[verifier::external_type_specification]
#[verifier::external_body]
#[verifier::reject_recursive_types(K)]
#[verifier::reject_recursive_types(V)]
pub struct ExJsonMap<K, V>(serde_json::Map<K, V>);

/// A JSON value, as the SARIF document uses them.
pub enum Json {
    Int(int),
    Str(Seq<char>),
    Array(Seq<Json>),
    Object(Map<Seq<char>, Json>),
}

/// What a `serde_json::Value` holds.
pub uninterp spec fn json_value(v: serde_json::Value) -> Json;

/// What a `serde_json::Map` holds: its entries by key.
pub uninterp spec fn json_entries(m: serde_json::Map<String, serde_json::Value>) -> Map<
    Seq<char>,
    Json,
>;

/// The text `serde_json::to_string_pretty` gives for an object with these
/// entries. (The map is the `BTreeMap`-backed one, as `serde_json` is built
/// without `preserve_order`: the text depends on the entries alone.)
pub uninterp spec fn pretty_json(entries: Map<Seq<char>, Json>) -> Seq<char>;

pub open spec fn json_values(v: Seq<serde_json::Value>) -> Seq<Json> {
    v.map_values(|x: serde_json::Value| json_value(x))
}

pub open spec fn no_entries() -> Map<Seq<char>, Json> {
    Map::empty()
}

/// `serde_json::Map::new`. Trusted: the new map is empty.
#[verifier::external_body]
fn json_map() -> (r: serde_json::Map<String, serde_json::Value>)
    ensures
        json_entries(r) == no_entries(),
{
    serde_json::Map::new()
}

/// `serde_json::Map::insert`. Trusted: afterwards the key maps to the value,
/// the other entries unchanged.
#[verifier::external_body]
fn json_insert(m: &mut serde_json::Map<String, serde_json::Value>, k: &str, v: serde_json::Value)
    ensures
        json_entries(*final(m)) == json_entries(*old(m)).insert(k@, json_value(v)),
{
    m.insert(k.to_string(), v);
}

/// `serde_json::Value::String`. Trusted: the value is that string.
#[verifier::external_body]
fn json_string(s: String) -> (v: serde_json::Value)
    ensures
        json_value(v) == Json::Str(s@),
{
    serde_json::Value::String(s)
}

/// `serde_json::Value::Number` of `serde_json::Number::from(i64)`. Trusted:
/// the value is that integer.
#[verifier::external_body]
fn json_number(n: i64) -> (v: serde_json::Value)
    ensures
        json_value(v) == Json::Int(n as int),
{
    serde_json::Value::Number(serde_json::Number::from(n))
}

/// `serde_json::Value::Object`. Trusted: the value is the object with the
/// map's entries.
#[verifier::external_body]
fn json_object(m: serde_json::Map<String, serde_json::Value>) -> (v: serde_json::Value)
    ensures
        json_value(v) == Json::Object(json_entries(m)),
{
    serde_json::Value::Object(m)
}

/// `serde_json::Value::Array`. Trusted: the value is the array of the
/// values, in order.
#[verifier::external_body]
fn json_array(items: Vec<serde_json::Value>) -> (v: serde_json::Value)
    ensures
        json_value(v) == Json::Array(json_values(items@)),
{
    serde_json::Value::Array(items)
}

/// `serde_json::to_string_pretty` of a map, or the empty text when it
/// fails. Trusted: the text is a function of the map's entries, named
/// `pretty_json`; the printer's format is not restated here.
#[verifier::external_body]
fn json_pretty(m: &serde_json::Map<String, serde_json::Value>) -> (s: String)
    ensures
        s@ == pretty_json(json_entries(*m)),
{
    serde_json::to_string_pretty(m).unwrap_or_default()
}

// ---------------------------------------------------------------------------
// The SARIF document
// ---------------------------------------------------------------------------

pub open spec fn sarif_level(s: Severity) -> Seq<char> {
    match s {
        Severity::Error => "error"@,
        Severity::Warning => "warning"@,
        Severity::Info => "note"@,
    }
}

/// `{"text": t}`.
pub open spec fn text_object(t: Seq<char>) -> Json {
    Json::Object(Map::empty().insert("text"@, Json::Str(t)))
}

/// A line or column of a region; SARIF counts from 1, so a missing one is
/// the first.
pub open spec fn opt_number(n: Option<u32>) -> int {
    match n {
        Some(v) => v as int,
        None => 1,
    }
}

pub open spec fn sarif_region(l: LocationView) -> Map<Seq<char>, Json> {
    let m = Map::empty().insert("startLine"@, Json::Int(opt_number(l.line))).insert(
        "startColumn"@,
        Json::Int(opt_number(l.column)),
    );
    let m = match l.end_line {
        Some(e) => m.insert("endLine"@, Json::Int(e as int)),
        None => m,
    };
    match l.end_column {
        Some(e) => m.insert("endColumn"@, Json::Int(e as int)),
        None => m,
    }
}

pub open spec fn sarif_location(l: LocationView) -> Json {
    Json::Object(
        Map::empty().insert(
            "physicalLocation"@,
            Json::Object(
                Map::empty().insert(
                    "artifactLocation"@,
                    Json::Object(Map::empty().insert("uri"@, Json::Str(l.path))),
                ).insert("region"@, Json::Object(sarif_region(l))),
            ),
        ),
    )
}

/// The SARIF result of a finding.
pub open spec fn sarif_result(f: FindingView) -> Map<Seq<char>, Json> {
    let m = Map::empty().insert("ruleId"@, Json::Str(f.rule_id)).insert(
        "level"@,
        Json::Str(sarif_level(f.severity)),
    ).insert("message"@, text_object(f.message));
    let m = match f.location {
        Some(l) => m.insert("locations"@, Json::Array(seq![sarif_location(l)])),
        None => m,
    };
    match f.llm_fix_prompt {
        Some(p) => m.insert("help"@, text_object(p)),
        None => m,
    }
}

pub open spec fn sarif_results(fs: Seq<FindingView>) -> Seq<Json> {
    fs.map_values(|f: FindingView| Json::Object(sarif_result(f)))
}

/// One rule entry per finding, by the finding's rule.
pub open spec fn sarif_rules(fs: Seq<FindingView>) -> Seq<Json> {
    fs.map_values(|f: FindingView| Json::Object(Map::empty().insert("id"@, Json::Str(f.rule_id))))
}

pub open spec fn sarif_schema() -> Seq<char> {
    "https://raw.githubusercontent.com/oasis-tcs/sarif-spec/master/Schemata/sarif-schema-2.1.0.json"@
}

/// The SARIF 2.1.0 document of a report: one run, whose driver lists a rule
/// per finding and whose results are the findings.
pub open spec fn sarif_document(tool_version: Seq<char>, fs: Seq<FindingView>) -> Map<
    Seq<char>,
    Json,
> {
    let driver = Map::empty().insert("name"@, Json::Str("rust-doctor"@)).insert(
        "version"@,
        Json::Str(tool_version),
    ).insert("rules"@, Json::Array(sarif_rules(fs)));
    let run = Map::empty().insert(
        "tool"@,
        Json::Object(Map::empty().insert("driver"@, Json::Object(driver))),
    ).insert("results"@, Json::Array(sarif_results(fs)));
    Map::empty().insert("version"@, Json::Str("2.1.0"@)).insert(
        "$schema"@,
        Json::Str(sarif_schema()),
    ).insert("runs"@, Json::Array(seq![Json::Object(run)]))
}

fn text_value(t: &str) -> (v: serde_json::Value)
    ensures
        json_value(v) == text_object(t@),
{
    let mut m = json_map();
    json_insert(&mut m, "text", json_string(String::from_str(t)));
    json_object(m)
}

fn number_of(n: Option<u32>) -> (v: serde_json::Value)
    ensures
        json_value(v) == Json::Int(opt_number(n)),
{
    let x: u32 = match n {
        Some(v) => v,
        None => 1,
    };
    json_number(x as i64)
}

fn location_value(l: &crate::diagnostic::Location) -> (v: serde_json::Value)
    ensures
        json_value(v) == sarif_location(l@),
{
    let mut region = json_map();
    json_insert(&mut region, "startLine", number_of(l.line));
    json_insert(&mut region, "startColumn", number_of(l.column));
    match l.end_line {
        Some(e) => json_insert(&mut region, "endLine", json_number(e as i64)),
        None => {},
    }
    match l.end_column {
        Some(e) => json_insert(&mut region, "endColumn", json_number(e as i64)),
        None => {},
    }
    assert(json_entries(region) == sarif_region(l@));
    let mut artifact = json_map();
    json_insert(&mut artifact, "uri", json_string(l.path.clone()));
    let mut physical = json_map();
    json_insert(&mut physical, "artifactLocation", json_object(artifact));
    json_insert(&mut physical, "region", json_object(region));
    let mut location = json_map();
    json_insert(&mut location, "physicalLocation", json_object(physical));
    json_object(location)
}

fn result_value(f: &Finding) -> (v: serde_json::Value)
    ensures
        json_value(v) == Json::Object(sarif_result(f@)),
{
    let level = match f.severity {
        Severity::Error => "error",
        Severity::Warning => "warning",
        Severity::Info => "note",
    };
    let mut result = json_map();
    json_insert(&mut result, "ruleId", json_string(f.rule_id.clone()));
    json_insert(&mut result, "level", json_string(String::from_str(level)));
    json_insert(&mut result, "message", text_value(f.message.as_str()));
    match &f.location {
        Some(loc) => {
            let mut locs: Vec<serde_json::Value> = Vec::new();
            locs.push(location_value(loc));
            assert(json_values(locs@) =~= seq![sarif_location(loc@)]);
            json_insert(&mut result, "locations", json_array(locs));
        },
        None => {},
    }
    match &f.llm_fix_prompt {
        Some(p) => json_insert(&mut result, "help", text_value(p.as_str())),
        None => {},
    }
    json_object(result)
}

fn rule_value(f: &Finding) -> (v: serde_json::Value)
    ensures
        json_value(v) == Json::Object(Map::empty().insert("id"@, Json::Str(f@.rule_id))),
{
    let mut rule = json_map();
    json_insert(&mut rule, "id", json_string(f.rule_id.clone()));
    json_object(rule)
}

/// Render a report as SARIF 2.1.0 JSON.
pub fn render_sarif(report: &Report) -> (s: String)
    ensures
        s@ == pretty_json(sarif_document(report.tool_version@, finding_views(report.findings@))),
{
    let ghost fs = finding_views(report.findings@);
    let mut results: Vec<serde_json::Value> = Vec::new();
    let mut rules: Vec<serde_json::Value> = Vec::new();
    let mut i: usize = 0;
    while i < report.findings.len()
        invariant
            i <= report.findings@.len(),
            fs == finding_views(report.findings@),
            json_values(results@) == sarif_results(fs.take(i as int)),
            json_values(rules@) == sarif_rules(fs.take(i as int)),
        decreases report.findings@.len() - i,
    {
        let ghost r0 = json_values(results@);
        let ghost r1 = json_values(rules@);
        results.push(result_value(&report.findings[i]));
        rules.push(rule_value(&report.findings[i]));
        assert(json_values(results@) =~= r0.push(Json::Object(sarif_result(fs[i as int]))));
        assert(json_values(rules@) =~= r1.push(
            Json::Object(Map::empty().insert("id"@, Json::Str(fs[i as int].rule_id))),
        ));
        assert(sarif_results(fs.take(i + 1)) =~= sarif_results(fs.take(i as int)).push(
            Json::Object(sarif_result(fs[i as int])),
        ));
        assert(sarif_rules(fs.take(i + 1)) =~= sarif_rules(fs.take(i as int)).push(
            Json::Object(Map::empty().insert("id"@, Json::Str(fs[i as int].rule_id))),
        ));
        i = i + 1;
    }
    assert(fs.take(report.findings@.len() as int) =~= fs);
    let mut driver = json_map();
    json_insert(&mut driver, "name", json_string(String::from_str("rust-doctor")));
    json_insert(&mut driver, "version", json_string(report.tool_version.clone()));
    json_insert(&mut driver, "rules", json_array(rules));
    let mut tool = json_map();
    json_insert(&mut tool, "driver", json_object(driver));
    let mut run = json_map();
    json_insert(&mut run, "tool", json_object(tool));
    json_insert(&mut run, "results", json_array(results));
    let mut runs: Vec<serde_json::Value> = Vec::new();
    let run_value = json_object(run);
    runs.push(run_value);
    let mut sarif = json_map();
    json_insert(&mut sarif, "version", json_string(String::from_str("2.1.0")));
    json_insert(
        &mut sarif,
        "$schema",
        json_string(
            String::from_str(
                "https://raw.githubusercontent.com/oasis-tcs/sarif-spec/master/Schemata/sarif-schema-2.1.0.json",
            ),
        ),
    );
    assert(json_values(runs@) =~= seq![json_value(run_value)]);
    json_insert(&mut sarif, "runs", json_array(runs));
    json_pretty(&sarif)
}


/// The results of the one run of a SARIF document, if it has that shape.
pub open spec fn run_results(doc: Map<Seq<char>, Json>) -> Option<Seq<Json>> {
    if doc.dom().contains("runs"@) {
        match doc["runs"@] {
            Json::Array(runs) => if runs.len() == 1 {
                match runs[0] {
                    Json::Object(run) => if run.dom().contains("results"@) {
                        match run["results"@] {
                            Json::Array(results) => Some(results),
                            _ => None,
                        }
                    } else {
                        None
                    },
                    _ => None,
                }
            } else {
                None
            },
            _ => None,
        }
    } else {
        None
    }
}

/// SARIF output reports the same findings as the report: one result per
/// finding, in order, each with the finding's rule, the level of its
/// severity and its message, and the help text of its LLM fix prompt.
pub proof fn law_sarif_results_are_findings(tool_version: Seq<char>, fs: Seq<FindingView>)
    ensures
        run_results(sarif_document(tool_version, fs)) == Some(sarif_results(fs)),
        sarif_results(fs).len() == fs.len(),
        forall|i: int|
            0 <= i < fs.len() ==> {
                let m = sarif_result(#[trigger] fs[i]);
                &&& sarif_results(fs)[i] == Json::Object(m)
                &&& m["ruleId"@] == Json::Str(fs[i].rule_id)
                &&& m["level"@] == Json::Str(sarif_level(fs[i].severity))
                &&& m["message"@] == text_object(fs[i].message)
                &&& (m.dom().contains("help"@) <==> fs[i].llm_fix_prompt is Some)
                &&& (fs[i].llm_fix_prompt matches Some(p) ==> m["help"@] == text_object(p))
            },
{
    let doc = sarif_document(tool_version, fs);
    assert(doc["runs"@] == Json::Array(seq![
        Json::Object(
            Map::empty().insert(
                "tool"@,
                Json::Object(
                    Map::empty().insert(
                        "driver"@,
                        Json::Object(
                            Map::empty().insert("name"@, Json::Str("rust-doctor"@)).insert(
                                "version"@,
                                Json::Str(tool_version),
                            ).insert("rules"@, Json::Array(sarif_rules(fs))),
                        ),
                    ),
                ),
            ).insert("results"@, Json::Array(sarif_results(fs))),
        ),
    ]));
    assert forall|i: int| 0 <= i < fs.len() implies {
        let m = sarif_result(#[trigger] fs[i]);
        &&& sarif_results(fs)[i] == Json::Object(m)
        &&& m["ruleId"@] == Json::Str(fs[i].rule_id)
        &&& m["level"@] == Json::Str(sarif_level(fs[i].severity))
        &&& m["message"@] == text_object(fs[i].message)
        &&& (m.dom().contains("help"@) <==> fs[i].llm_fix_prompt is Some)
        &&& (fs[i].llm_fix_prompt matches Some(p) ==> m["help"@] == text_object(p))
    } by {
        let f = fs[i];
        reveal_strlit("ruleId");
        reveal_strlit("level");
        reveal_strlit("message");
        reveal_strlit("locations");
        reveal_strlit("help");
        let m0 = Map::<Seq<char>, Json>::empty().insert("ruleId"@, Json::Str(f.rule_id)).insert(
            "level"@,
            Json::Str(sarif_level(f.severity)),
        ).insert("message"@, text_object(f.message));
        let m1 = match f.location {
            Some(l) => m0.insert("locations"@, Json::Array(seq![sarif_location(l)])),
            None => m0,
        };
        assert("ruleId"@.len() == 6 && "level"@.len() == 5 && "message"@.len() == 7);
        assert("locations"@.len() == 9 && "help"@.len() == 4);
        assert(m1["ruleId"@] == Json::Str(f.rule_id));
        assert(m1["level"@] == Json::Str(sarif_level(f.severity)));
        assert(m1["message"@] == text_object(f.message));
        assert(!m1.dom().contains("help"@));
        assert(sarif_result(f) == match f.llm_fix_prompt {
            Some(p) => m1.insert("help"@, text_object(p)),
            None => m1,
        });
    }
}

} // verus!
