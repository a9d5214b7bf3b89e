//! Settings of a debug data run, their validation and the command line
//! they are read from.

use vstd::prelude::*;
use crate::normalize::IngestError;
use crate::text::{copy_str, push_str, str_equal, parse_u32, parse_u64, decimal_value};

verus! {

/// Which data set to generate.
#[derive(Clone, Copy, Debug, PartialEq, Eq, Structural)]
pub enum DebugSeedPreset {
    /// A fixed set of eight webhooks, one file each.
    Smoke,
    /// A large generated set in batched files.
    Bulk,
}

/// Settings of a debug data run.
#[derive(Clone, Debug)]
pub struct DebugSeedConfig {
    pub output_dir: String,
    pub preset: DebugSeedPreset,
    pub count: u32,
    pub days: u32,
    pub contents: u32,
    pub rows_per_file: u32,
    pub seed: u64,
}

/// What a run produced; days are calendar day numbers (see `time`).
#[derive(Clone, Debug, PartialEq, Eq)]
pub struct DebugSeedSummary {
    pub event_count: usize,
    pub file_count: usize,
    pub partition_count: usize,
    pub min_dt: Option<i64>,
    pub max_dt: Option<i64>,
}

/// The longest span of days a run may cover.
pub const MAX_SEED_DAYS: u32 = 3660;

/// The message a run's settings are refused with, if any: days outside 1 to
/// 3660, a bulk run without events or contents, or no rows per file.
pub open spec fn config_problem(c: DebugSeedConfig) -> Option<Seq<char>> {
    if c.days == 0 || c.days > 3660 {
        Some("days must be between 1 and 3660"@)
    } else if c.preset == DebugSeedPreset::Bulk && c.count == 0 {
        Some("count must be greater than 0"@)
    } else if c.preset == DebugSeedPreset::Bulk && c.contents == 0 {
        Some("contents must be greater than 0"@)
    } else if c.rows_per_file == 0 {
        Some("rows_per_file must be greater than 0"@)
    } else {
        None
    }
}

/// Checks a run's settings, refusing them with `Parquet` and the problem.
pub fn validate_config(config: &DebugSeedConfig) -> (r: Result<(), IngestError>)
    ensures
        match config_problem(*config) {
            None => r is Ok,
            Some(m) => r matches Err(IngestError::Parquet(e)) && e@ == m,
        },
{
    if config.days == 0 || config.days > MAX_SEED_DAYS {
        return Err(IngestError::Parquet(copy_str("days must be between 1 and 3660")));
    }
    if config.preset == DebugSeedPreset::Bulk && config.count == 0 {
        return Err(IngestError::Parquet(copy_str("count must be greater than 0")));
    }
    if config.preset == DebugSeedPreset::Bulk && config.contents == 0 {
        return Err(IngestError::Parquet(copy_str("contents must be greater than 0")));
    }
    if config.rows_per_file == 0 {
        return Err(IngestError::Parquet(copy_str("rows_per_file must be greater than 0")));
    }
    Ok(())
}

/// The preset a name selects.
pub open spec fn preset_named(value: Seq<char>) -> Option<DebugSeedPreset> {
    if value == "smoke"@ {
        Some(DebugSeedPreset::Smoke)
    } else if value == "bulk"@ {
        Some(DebugSeedPreset::Bulk)
    } else {
        None
    }
}

/// Reads a preset name: `smoke` or `bulk`, anything else refused.
pub fn parse_preset(value: String) -> (r: Result<DebugSeedPreset, IngestError>)
    ensures
        match preset_named(value@) {
            Some(p) => r == Ok::<DebugSeedPreset, IngestError>(p),
            None => r matches Err(IngestError::Parquet(e)) && e@ == "preset must be smoke or bulk"@,
        },
{
    if str_equal(value.as_str(), "smoke") {
        Ok(DebugSeedPreset::Smoke)
    } else if str_equal(value.as_str(), "bulk") {
        Ok(DebugSeedPreset::Bulk)
    } else {
        Err(IngestError::Parquet(copy_str("preset must be smoke or bulk")))
    }
}

/// Returns the argument at `index`, the value of option `flag`, or refuses
/// with `missing value for {flag}` when the arguments end before it.
pub fn require_value(args: &[String], index: usize, flag: &str) -> (r: Result<String, IngestError>)
    ensures
        index < args@.len() ==> (r matches Ok(v) && v@ == args@[index as int]@),
        index >= args@.len() ==> (r matches Err(IngestError::Parquet(e)) && e@ == "missing value for "@ + flag@),
{
    if index < args.len() {
        Ok(args[index].clone())
    } else {
        let mut m = copy_str("missing value for ");
        push_str(&mut m, flag);
        Err(IngestError::Parquet(m))
    }
}

/// The settings a command line has gathered so far.
pub struct SeedSettings {
    pub preset: DebugSeedPreset,
    pub output_dir: Seq<char>,
    pub count: u32,
    pub days: u32,
    pub contents: u32,
    pub rows_per_file: u32,
    pub seed: u64,
}

/// The settings of a run without options: the smoke preset into
/// `.debug/parquet`, 10000 events over 365 days and 200 contents, 500 rows
/// per file, seed 42.
pub open spec fn default_seed_settings() -> SeedSettings {
    SeedSettings {
        preset: DebugSeedPreset::Smoke,
        output_dir: ".debug/parquet"@,
        count: 10_000,
        days: 365,
        contents: 200,
        rows_per_file: 500,
        seed: 42,
    }
}

/// What a command line asks for.
pub enum ArgsOutcome {
    Help,
    Run(SeedSettings),
    Fail(Seq<char>),
}

/// The value of an option that takes a 32-bit count.
pub open spec fn count_value(v: Seq<char>) -> Option<u32> {
    match decimal_value(v) {
        Some(n) => if n <= u32::MAX { Some(n as u32) } else { None },
        None => None,
    }
}

/// The value of an option that takes a 64-bit number.
pub open spec fn seed_value(v: Seq<char>) -> Option<u64> {
    match decimal_value(v) {
        Some(n) => if n <= u64::MAX { Some(n as u64) } else { None },
        None => None,
    }
}

/// What the arguments from `i` on ask for, given the settings `st`
/// gathered before them. Options are read left to right; each but
/// `--help`/`-h` takes the next argument as its value; the first problem,
/// or `--help`, ends the reading.
pub open spec fn args_outcome(args: Seq<Seq<char>>, i: int, st: SeedSettings) -> ArgsOutcome
    decreases args.len() - i,
{
    if i < 0 || i >= args.len() {
        ArgsOutcome::Run(st)
    } else {
        let a = args[i];
        if a == "--help"@ || a == "-h"@ {
            ArgsOutcome::Help
        } else if a == "--preset"@ || a == "--output-dir"@ || a == "--count"@ || a == "--days"@
            || a == "--contents"@ || a == "--rows-per-file"@ || a == "--seed"@ {
            if i + 1 >= args.len() {
                ArgsOutcome::Fail("missing value for "@ + a)
            } else {
                let v = args[i + 1];
                if a == "--preset"@ {
                    match preset_named(v) {
                        Some(p) => args_outcome(args, i + 2, SeedSettings { preset: p, ..st }),
                        None => ArgsOutcome::Fail("preset must be smoke or bulk"@),
                    }
                } else if a == "--output-dir"@ {
                    args_outcome(args, i + 2, SeedSettings { output_dir: v, ..st })
                } else if a == "--seed"@ {
                    match seed_value(v) {
                        Some(n) => args_outcome(args, i + 2, SeedSettings { seed: n, ..st }),
                        None => ArgsOutcome::Fail("invalid --seed"@),
                    }
                } else {
                    match count_value(v) {
                        Some(n) => args_outcome(args, i + 2, if a == "--count"@ {
                            SeedSettings { count: n, ..st }
                        } else if a == "--days"@ {
                            SeedSettings { days: n, ..st }
                        } else if a == "--contents"@ {
                            SeedSettings { contents: n, ..st }
                        } else {
                            SeedSettings { rows_per_file: n, ..st }
                        }),
                        None => ArgsOutcome::Fail("invalid "@ + a),
                    }
                }
            }
        } else {
            ArgsOutcome::Fail("unknown argument: "@ + a)
        }
    }
}

/// Reading from a position past some leading arguments does not depend on
/// them.
proof fn lemma_args_outcome_shift(p: Seq<Seq<char>>, q: Seq<Seq<char>>, j: int, st: SeedSettings)
    requires
        0 <= j,
    ensures
        args_outcome(p + q, p.len() + j, st) == args_outcome(q, j, st),
    decreases q.len() - j,
{
    let args = p + q;
    let i = p.len() + j;
    if j < q.len() {
        assert(args[i] == q[j]);
        if j + 1 < q.len() {
            assert(args[i + 1] == q[j + 1]);
            let v = q[j + 1];
            lemma_args_outcome_shift(p, q, j + 2, SeedSettings { preset: DebugSeedPreset::Smoke, ..st });
            lemma_args_outcome_shift(p, q, j + 2, SeedSettings { preset: DebugSeedPreset::Bulk, ..st });
            lemma_args_outcome_shift(p, q, j + 2, SeedSettings { output_dir: v, ..st });
            if let Some(n) = seed_value(v) {
                lemma_args_outcome_shift(p, q, j + 2, SeedSettings { seed: n, ..st });
            }
            if let Some(n) = count_value(v) {
                lemma_args_outcome_shift(p, q, j + 2, SeedSettings { count: n, ..st });
                lemma_args_outcome_shift(p, q, j + 2, SeedSettings { days: n, ..st });
                lemma_args_outcome_shift(p, q, j + 2, SeedSettings { contents: n, ..st });
                lemma_args_outcome_shift(p, q, j + 2, SeedSettings { rows_per_file: n, ..st });
            }
        }
    }
}

/// Options are read one after another: when the first arguments read to
/// their end as options, giving the settings `st`, the arguments after
/// them are read as a command line of their own starting from `st`. So a
/// value option left without its value, or an argument that is no option,
/// fails the same way wherever it stands after well-formed options.
pub proof fn lemma_args_read_in_sequence(p: Seq<Seq<char>>, q: Seq<Seq<char>>, st: SeedSettings)
    requires
        args_outcome(p, 0, default_seed_settings()) == ArgsOutcome::Run(st),
    ensures
        args_outcome(p + q, 0, default_seed_settings()) == args_outcome(q, 0, st),
{
    lemma_args_prefix_run(p, q, 0, default_seed_settings(), st);
}

proof fn lemma_args_prefix_run(p: Seq<Seq<char>>, q: Seq<Seq<char>>, i: int, s: SeedSettings, st: SeedSettings)
    requires
        0 <= i <= p.len(),
        args_outcome(p, i, s) == ArgsOutcome::Run(st),
    ensures
        args_outcome(p + q, i, s) == args_outcome(q, 0, st),
    decreases p.len() - i,
{
    let args = p + q;
    if i == p.len() {
        lemma_args_outcome_shift(p, q, 0, s);
    } else {
        assert(args[i] == p[i]);
        if i + 1 < p.len() {
            assert(args[i + 1] == p[i + 1]);
            let a = p[i];
            let v = p[i + 1];
            let next = if a == "--preset"@ {
                match preset_named(v) { Some(x) => SeedSettings { preset: x, ..s }, None => s }
            } else if a == "--output-dir"@ {
                SeedSettings { output_dir: v, ..s }
            } else if a == "--seed"@ {
                match seed_value(v) { Some(n) => SeedSettings { seed: n, ..s }, None => s }
            } else {
                match count_value(v) {
                    Some(n) => if a == "--count"@ {
                        SeedSettings { count: n, ..s }
                    } else if a == "--days"@ {
                        SeedSettings { days: n, ..s }
                    } else if a == "--contents"@ {
                        SeedSettings { contents: n, ..s }
                    } else {
                        SeedSettings { rows_per_file: n, ..s }
                    },
                    None => s,
                }
            };
            if args_outcome(p, i + 2, next) == ArgsOutcome::Run(st) {
                lemma_args_prefix_run(p, q, i + 2, next, st);
            }
        }
    }
}

/// What a command line asks for: help, or a run with these settings.
pub enum SeedCommand {
    Help,
    Generate(DebugSeedConfig),
}

/// The run settings match the gathered settings.
pub open spec fn config_of(c: DebugSeedConfig, st: SeedSettings) -> bool {
    &&& c.preset == st.preset
    &&& c.output_dir@ == st.output_dir
    &&& c.count == st.count
    &&& c.days == st.days
    &&& c.contents == st.contents
    &&& c.rows_per_file == st.rows_per_file
    &&& c.seed == st.seed
}

/// The views of a slice of strings.
pub open spec fn arg_texts(args: Seq<String>) -> Seq<Seq<char>> {
    args.map_values(|s: String| s@)
}

fn config_from(st_preset: DebugSeedPreset, output_dir: &String, count: u32, days: u32, contents: u32, rows_per_file: u32, seed: u64) -> (c: DebugSeedConfig)
    ensures
        c.preset == st_preset,
        c.output_dir@ == output_dir@,
        c.count == count,
        c.days == days,
        c.contents == contents,
        c.rows_per_file == rows_per_file,
        c.seed == seed,
{
    DebugSeedConfig { output_dir: output_dir.clone(), preset: st_preset, count, days, contents, rows_per_file, seed }
}

/// Reads the command line of the debug data tool (the arguments after the
/// program name).
pub fn parse_seed_args(args: &[String]) -> (r: Result<SeedCommand, IngestError>)
    ensures
        match args_outcome(arg_texts(args@), 0, default_seed_settings()) {
            ArgsOutcome::Help => r matches Ok(SeedCommand::Help),
            ArgsOutcome::Run(st) => r matches Ok(SeedCommand::Generate(c)) && config_of(c, st),
            ArgsOutcome::Fail(m) => r matches Err(IngestError::Parquet(e)) && e@ == m,
        },
{
    let ghost texts = arg_texts(args@);
    let mut preset = DebugSeedPreset::Smoke;
    let mut output_dir = copy_str(".debug/parquet");
    let mut count: u32 = 10_000;
    let mut days: u32 = 365;
    let mut contents: u32 = 200;
    let mut rows_per_file: u32 = 500;
    let mut seed: u64 = 42;
    let mut i: usize = 0;
    while i < args.len()
        invariant
            texts == arg_texts(args@),
            i <= args.len() + 1,
            args_outcome(texts, 0, default_seed_settings()) == args_outcome(texts, i as int, SeedSettings {
                preset, output_dir: output_dir@, count, days, contents, rows_per_file, seed,
            }),
        decreases args.len() + 1 - i,
    {
        let ghost st = SeedSettings { preset, output_dir: output_dir@, count, days, contents, rows_per_file, seed };
        let a = args[i].as_str();
        assert(texts[i as int] == a@);
        if str_equal(a, "--help") || str_equal(a, "-h") {
            return Ok(SeedCommand::Help);
        }
        let is_preset = str_equal(a, "--preset");
        let is_output = str_equal(a, "--output-dir");
        let is_count = str_equal(a, "--count");
        let is_days = str_equal(a, "--days");
        let is_contents = str_equal(a, "--contents");
        let is_rows = str_equal(a, "--rows-per-file");
        let is_seed = str_equal(a, "--seed");
        if !(is_preset || is_output || is_count || is_days || is_contents || is_rows || is_seed) {
            let mut m = copy_str("unknown argument: ");
            push_str(&mut m, a);
            return Err(IngestError::Parquet(m));
        }
        let v = match require_value(args, i + 1, a) {
            Ok(v) => v,
            Err(e) => { return Err(e); },
        };
        assert(texts[i + 1] == v@);
        if is_preset {
            match parse_preset(v) {
                Ok(p) => { preset = p; },
                Err(e) => { return Err(e); },
            }
        } else if is_output {
            output_dir = v;
        } else if is_seed {
            match parse_u64(v.as_str()) {
                Some(n) => { seed = n; },
                None => { return Err(IngestError::Parquet(copy_str("invalid --seed"))); },
            }
        } else {
            match parse_u32(v.as_str()) {
                Some(n) => {
                    if is_count {
                        count = n;
                    } else if is_days {
                        days = n;
                    } else if is_contents {
                        contents = n;
                    } else {
                        rows_per_file = n;
                    }
                },
                None => {
                    let mut m = copy_str("invalid ");
                    push_str(&mut m, a);
                    return Err(IngestError::Parquet(m));
                },
            }
        }
        i = i + 2;
    }
    Ok(SeedCommand::Generate(config_from(preset, &output_dir, count, days, contents, rows_per_file, seed)))
}

} // verus!
