//! Renders structured log records, one JSON object per line, as text for
//! the console.
use vstd::prelude::*;

pub mod condition_filter;
pub mod date_deserializer;
pub mod divider_writer;
pub mod errors;
pub mod extras;
pub mod inspect_logger;
pub mod json;
pub mod level;
pub mod long_format_logger;
pub mod one_line;
pub mod record;
pub mod sections;
pub mod style;
pub mod text;
pub mod validate;

pub use crate::date_deserializer::{parse_timestamp, Timestamp};
pub use crate::divider_writer::DividerWriter;
pub use crate::errors::{
    BunyanLogParseError, Error, Kind, LogLevelParseError, ParseIntFromJsonError,
};
pub use crate::json::{JsonNumber, JsonValue};
pub use crate::level::LogLevel;
pub use crate::long_format_logger::{Logger, LoggerOutputConfig};
pub use crate::record::BunyanLine;
use crate::date_deserializer::{in_plain_years, is_offset, utc_text, zoned_text};
use crate::json::{json_parse, parse_json};
use crate::long_format_logger::{rendered, time_failure_message};
use crate::record::{decoded, field_key, key_of, DecodeFault, Record};
use crate::text::{decimal, find, first_occurrence, is_blank, push_decimal};
use crate::validate::{first_violation, is_valid, violation_message};

verus! {

/// The formats in which a record can be shown.
#[derive(Debug, Clone, Copy, PartialEq, Eq, Structural)]
pub enum LogFormat {
    Long,
}

pub trait LogWriter {
    /// The record in this format, or why it cannot be shown.
    fn write_log(&self, log: BunyanLine, output_config: &LoggerOutputConfig) -> Result<
        String,
        BunyanLogParseError,
    >;
}

impl LogWriter for LogFormat {
    /// The record in the long format, as `Logger::write_long_format`
    /// gives it.
    fn write_log(&self, log: BunyanLine, output_config: &LoggerOutputConfig) -> (written: Result<
        String,
        BunyanLogParseError,
    >)
        ensures
            !is_valid(log@.other) ==> written is Err && written->Err_0@ == violation_message(
                first_violation(log@.other)->0,
            ),
            is_valid(log@.other) && !output_config.display_local_time ==> match utc_text(
                log.time.seconds,
                log.time.nanos,
            ) {
                Some(time_text) => written is Ok && written->Ok_0@ == rendered(
                    log@,
                    time_text,
                    output_config.colorize,
                ),
                None => written is Err && written->Err_0@ == time_failure_message(),
            },
            is_valid(log@.other) && output_config.display_local_time ==> match written {
                Ok(text) => exists|offset: i32|
                    is_offset(offset) && (#[trigger] zoned_text(log.time, offset)) is Some && text@
                        == rendered(
                        log@,
                        zoned_text(log.time, offset)->0,
                        output_config.colorize,
                    ),
                Err(e) => e@ == time_failure_message(),
            },
            is_valid(log@.other) && output_config.display_local_time && !in_plain_years(
                log.time.seconds,
            ) ==> written is Err,
    {
        log.write_long_format(output_config)
    }
}

/// What an outside condition said of a record.
#[derive(Debug, Clone, Copy, PartialEq, Eq, Structural)]
pub enum Verdict {
    /// The record is to be shown; also where no condition is set.
    Keep,
    /// The record is to be left out.
    Drop,
    /// The condition could not be evaluated.
    Unknown,
}

/// What an evaluation of the condition gives as a verdict.
pub open spec fn verdict_of(evaluated: Option<bool>) -> Verdict {
    match evaluated {
        Some(true) => Verdict::Keep,
        Some(false) => Verdict::Drop,
        None => Verdict::Unknown,
    }
}

impl Verdict {
    /// The verdict that an evaluation of the condition gives: to keep the
    /// record where it came out true, to drop it where it came out false,
    /// and unknown where it did not come out at all.
    pub fn from_evaluation(evaluated: Option<bool>) -> (verdict: Verdict)
        ensures
            verdict == verdict_of(evaluated),
    {
        match evaluated {
            Some(true) => Verdict::Keep,
            Some(false) => Verdict::Drop,
            None => Verdict::Unknown,
        }
    }
}

/// What processing one line gives: the text for the output, and the line
/// for the diagnostics where there is one.
#[derive(Debug, Clone)]
pub struct LineOutcome {
    pub output: String,
    pub diagnostic: Option<String>,
}

/// What a `LineOutcome` holds, its texts as sequences of characters.
pub struct Outcome {
    pub output: Seq<char>,
    pub diagnostic: Option<Seq<char>>,
}

impl View for LineOutcome {
    type V = Outcome;

    open spec fn view(&self) -> Outcome {
        Outcome {
            output: self.output@,
            diagnostic: match self.diagnostic {
                Some(text) => Some(text@),
                None => None,
            },
        }
    }
}

/// Whether a record at `level` clears the threshold: a record is shown
/// where its level is the threshold or above, and always where no
/// threshold is set.
pub open spec fn clears(level: u16, threshold: Option<u16>) -> bool {
    match threshold {
        Some(least) => level >= least,
        None => true,
    }
}

/// Whether a record at `level` clears the threshold.
pub fn passes_level(level: u16, threshold: Option<u16>) -> (shown: bool)
    ensures
        shown == clears(level, threshold),
{
    match threshold {
        Some(least) => level >= least,
        None => true,
    }
}

/// What is said of a JSON value that is no log line.
pub open spec fn fault_message(fault: DecodeFault) -> Seq<char> {
    match fault {
        DecodeFault::NotAnObject => "expected a JSON object"@,
        DecodeFault::Missing(field) => "missing field "@ + field_key(field),
        DecodeFault::Invalid(field) => "invalid type for field "@ + field_key(field),
        DecodeFault::Timestamp => "unable to parse timestamp"@,
    }
}

/// What is said of a record whose condition could not be evaluated.
pub open spec fn condition_failure_message() -> Seq<char> {
    "condition could not be evaluated"@
}

/// The part of a message that the diagnostics show: what stands before
/// its first ` line `, and all of it where it has none.
pub open spec fn message_head(message: Seq<char>) -> Seq<char> {
    match first_occurrence(message, " line "@, 0) {
        Some(at) => message.subrange(0, at),
        None => message,
    }
}

/// The line for the diagnostics: the message, the number of the line, and
/// the column where one is known.
pub open spec fn diagnostic_text(message: Seq<char>, line_no: usize, column: Option<usize>)
    -> Seq<char> {
    message_head(message) + " on line "@ + decimal(line_no as nat) + (match column {
        Some(c) => " column: "@ + decimal(c as nat),
        None => Seq::empty(),
    })
}

/// A line as it is handed on: the line as it was read and a line feed,
/// and nothing in strict mode.
pub open spec fn passed_on(line: Seq<char>, is_strict: bool) -> Seq<char> {
    if is_strict {
        Seq::empty()
    } else {
        line + "\n"@
    }
}

/// What a failed line gives. Unless the mode is strict the line is handed
/// on as it was read; in debug mode its failure goes to the diagnostics.
pub open spec fn failure_outcome(
    line: Seq<char>,
    line_no: usize,
    message: Seq<char>,
    column: Option<usize>,
    is_strict: bool,
    is_debug: bool,
) -> Outcome {
    Outcome {
        output: passed_on(line, is_strict),
        diagnostic: if is_debug {
            Some(diagnostic_text(message, line_no, column))
        } else {
            None
        },
    }
}

/// What a line gives that shows nothing.
pub open spec fn silent_outcome() -> Outcome {
    Outcome { output: Seq::empty(), diagnostic: None }
}

} // verus!

verus! {

/// What reading a line gives, before anything is rendered.
pub enum Reading {
    /// No record: the message and, from the JSON reader, the column.
    Failed(Seq<char>, Option<usize>),
    /// A record below the threshold.
    Hidden,
    /// A record at the threshold or above.
    Shown(Record),
}

/// Reads a line: a line that is no JSON, a blank line among them, or whose
/// JSON is no log line, has failed; a record is hidden where its level is
/// below the threshold, and shown otherwise.
pub open spec fn reading(line: Seq<char>, threshold: Option<u16>) -> Reading {
    match json_parse(line) {
        Err(failure) => Reading::Failed(failure.message@, Some(failure.column)),
        Ok(tree) => match decoded(tree) {
            Err(fault) => Reading::Failed(fault_message(fault), None),
            Ok(record) => if clears(record.level, threshold) {
                Reading::Shown(record)
            } else {
                Reading::Hidden
            },
        },
    }
}

/// What a record gives that is to be shown, with `time_text` as the text
/// of its time, or nothing where the time cannot be printed.
pub open spec fn shown_outcome(
    record: Record,
    time_text: Option<Seq<char>>,
    line: Seq<char>,
    line_no: usize,
    config: LoggerOutputConfig,
) -> Outcome {
    if !is_valid(record.other) {
        failure_outcome(
            line,
            line_no,
            violation_message(first_violation(record.other)->0),
            None,
            config.is_strict,
            config.is_debug,
        )
    } else {
        match time_text {
            Some(text) => Outcome {
                output: rendered(record, text, config.colorize),
                diagnostic: None,
            },
            None => failure_outcome(
                line,
                line_no,
                time_failure_message(),
                None,
                config.is_strict,
                config.is_debug,
            ),
        }
    }
}

/// What a line gives, for every verdict of the condition and every text
/// of the time.
pub open spec fn line_outcome(
    line: Seq<char>,
    line_no: usize,
    config: LoggerOutputConfig,
    verdict: Verdict,
    time_text: Option<Seq<char>>,
) -> Outcome {
    match reading(line, config.level) {
        Reading::Failed(message, column) => failure_outcome(
            line,
            line_no,
            message,
            column,
            config.is_strict,
            config.is_debug,
        ),
        Reading::Hidden => silent_outcome(),
        Reading::Shown(record) => match verdict {
            Verdict::Keep => shown_outcome(record, time_text, line, line_no, config),
            Verdict::Drop => silent_outcome(),
            Verdict::Unknown => failure_outcome(
                line,
                line_no,
                condition_failure_message(),
                None,
                config.is_strict,
                config.is_debug,
            ),
        },
    }
}

/// The text of the time of the record on a line, in UTC.
pub open spec fn utc_time_of(line: Seq<char>, threshold: Option<u16>) -> Option<Seq<char>> {
    match reading(line, threshold) {
        Reading::Shown(record) => utc_text(record.time.seconds, record.time.nanos),
        _ => None,
    }
}

/// The text of the time of the record on a line, in a time zone that is
/// `offset` seconds ahead of UTC.
pub open spec fn zoned_time_of(line: Seq<char>, threshold: Option<u16>, offset: i32) -> Option<
    Seq<char>,
> {
    match reading(line, threshold) {
        Reading::Shown(record) => zoned_text(record.time, offset),
        _ => None,
    }
}

/// What is said of a JSON value that is no log line.
pub fn message_of_fault(fault: DecodeFault) -> (message: String)
    ensures
        message@ == fault_message(fault),
{
    match fault {
        DecodeFault::NotAnObject => String::from_str("expected a JSON object"),
        DecodeFault::Missing(field) => {
            let mut message = String::from_str("missing field ");
            message.append(key_of(field));
            message
        },
        DecodeFault::Invalid(field) => {
            let mut message = String::from_str("invalid type for field ");
            message.append(key_of(field));
            message
        },
        DecodeFault::Timestamp => String::from_str("unable to parse timestamp"),
    }
}

/// What a failed line gives.
pub fn handle_error(error: &Error, output_config: &LoggerOutputConfig) -> (outcome: LineOutcome)
    ensures
        outcome@ == failure_outcome(
            error.spec_line(),
            error.spec_line_no(),
            error.spec_message(),
            error.spec_column(),
            output_config.is_strict,
            output_config.is_debug,
        ),
{
    let mut output = String::new();
    if !output_config.is_strict {
        output.append(error.line().as_str());
        output.append("\n");
    }
    assert(output@ =~= failure_outcome(
        error.spec_line(),
        error.spec_line_no(),
        error.spec_message(),
        error.spec_column(),
        output_config.is_strict,
        output_config.is_debug,
    ).output);
    let diagnostic = if output_config.is_debug {
        let message = error.message();
        let mut text = String::new();
        match find(message, " line ") {
            Some(at) => {
                text.append(message.substring_char(0, at));
            },
            None => {
                text.append(message);
            },
        }
        assert(text@ =~= message_head(error.spec_message()));
        text.append(" on line ");
        push_decimal(&mut text, error.line_no() as u64);
        match error.column() {
            Some(column) => {
                text.append(" column: ");
                push_decimal(&mut text, column as u64);
            },
            None => {},
        }
        assert(text@ =~= diagnostic_text(
            error.spec_message(),
            error.spec_line_no(),
            error.spec_column(),
        ));
        Some(text)
    } else {
        None
    };
    LineOutcome { output, diagnostic }
}

} // verus!

verus! {

/// Whether `outcome` is what a line gives with the time of its record
/// shown in local time: with the text of that time at some offset of less
/// than a day, or with no text for it.
pub open spec fn is_local_line_outcome(
    outcome: Outcome,
    line: Seq<char>,
    line_no: usize,
    config: LoggerOutputConfig,
    verdict: Verdict,
) -> bool {
    outcome == line_outcome(line, line_no, config, verdict, None) || exists|offset: i32|
        is_offset(offset) && outcome == line_outcome(
            line,
            line_no,
            config,
            verdict,
            #[trigger] zoned_time_of(line, config.level, offset),
        )
}

/// Processes one line: reads it, and renders the record on it where there
/// is one to show. `verdict` is what the condition said of the line; it
/// counts only for a record that is read and clears the threshold.
///
/// With the time shown in UTC the outcome is `line_outcome` with the UTC
/// text of the record's time. Shown in local time, it is `line_outcome`
/// with the text of the record's time at the offset that the machine's
/// time zone gives, or with no text where that time has none. A blank
/// line is no JSON: it is handed on as it was read, and told in debug
/// mode.
pub fn render_line(
    line: &str,
    line_no: usize,
    format: &LogFormat,
    output_config: &LoggerOutputConfig,
    verdict: Verdict,
) -> (outcome: LineOutcome)
    ensures
        !output_config.display_local_time ==> outcome@ == line_outcome(
            line@,
            line_no,
            *output_config,
            verdict,
            utc_time_of(line@, output_config.level),
        ),
        output_config.display_local_time ==> is_local_line_outcome(
            outcome@,
            line@,
            line_no,
            *output_config,
            verdict,
        ),
        is_blank(line@) ==> outcome@.output == passed_on(line@, output_config.is_strict) && (
        outcome@.diagnostic is Some) == output_config.is_debug,
{
    let ghost none: Option<Seq<char>> = None;
    let tree = match parse_json(line) {
        Ok(tree) => tree,
        Err(failure) => {
            let column = failure.column;
            let error = Error::new(Kind::from(failure), line.to_owned(), line_no, Some(column));
            let outcome = handle_error(&error, output_config);
            assert(outcome@ == line_outcome(line@, line_no, *output_config, verdict, none));
            return outcome;
        },
    };
    let log = match BunyanLine::decode(tree) {
        Ok(log) => log,
        Err(fault) => {
            let cause = BunyanLogParseError::new(message_of_fault(fault).as_str());
            let error = Error::new(Kind::from(cause), line.to_owned(), line_no, None);
            let outcome = handle_error(&error, output_config);
            assert(outcome@ == line_outcome(line@, line_no, *output_config, verdict, none));
            return outcome;
        },
    };
    assert(decoded(json_parse(line@)->Ok_0) == Ok::<Record, DecodeFault>(log@));
    if !passes_level(log.level, output_config.level) {
        let outcome = LineOutcome { output: String::new(), diagnostic: None };
        assert(outcome@ == line_outcome(line@, line_no, *output_config, verdict, none));
        return outcome;
    }
    assert(reading(line@, output_config.level) == Reading::Shown(log@));
    match verdict {
        Verdict::Drop => {
            let outcome = LineOutcome { output: String::new(), diagnostic: None };
            assert(outcome@ == line_outcome(line@, line_no, *output_config, verdict, none));
            outcome
        },
        Verdict::Unknown => {
            let cause = BunyanLogParseError::new("condition could not be evaluated");
            let error = Error::new(Kind::from(cause), line.to_owned(), line_no, None);
            let outcome = handle_error(&error, output_config);
            assert(outcome@ == line_outcome(line@, line_no, *output_config, verdict, none));
            outcome
        },
        Verdict::Keep => {
            let ghost record = log@;
            let ghost utc = utc_text(log.time.seconds, log.time.nanos);
            match format.write_log(log, output_config) {
                Ok(text) => {
                    let outcome = LineOutcome { output: text, diagnostic: None };
                    proof {
                        if !output_config.display_local_time {
                            assert(outcome@ == line_outcome(
                                line@,
                                line_no,
                                *output_config,
                                verdict,
                                utc,
                            ));
                        } else {
                            let offset = choose|offset: i32|
                                is_offset(offset) && (#[trigger] zoned_text(
                                    record.time,
                                    offset,
                                )) is Some && text@ == rendered(
                                    record,
                                    zoned_text(record.time, offset)->0,
                                    output_config.colorize,
                                );
                            assert(outcome@ == line_outcome(
                                line@,
                                line_no,
                                *output_config,
                                verdict,
                                zoned_time_of(line@, output_config.level, offset),
                            ));
                        }
                    }
                    outcome
                },
                Err(cause) => {
                    let error = Error::new(Kind::from(cause), line.to_owned(), line_no, None);
                    let outcome = handle_error(&error, output_config);
                    proof {
                        if !output_config.display_local_time && is_valid(record.other) {
                            assert(utc is None);
                        }
                        assert(outcome@ == line_outcome(
                            line@,
                            line_no,
                            *output_config,
                            verdict,
                            none,
                        ));
                    }
                    outcome
                },
            }
        },
    }
}

/// Processes the lines in their order. The number of a line is its
/// position, counted from one; every record is shown that clears the
/// threshold, as by `render_line` with the verdict `Keep`.
pub fn write_bunyan_output(
    lines: &Vec<String>,
    format: &LogFormat,
    output_config: &LoggerOutputConfig,
) -> (outcomes: Vec<LineOutcome>)
    ensures
        outcomes@.len() == lines@.len(),
        !output_config.display_local_time ==> forall|i: int|
            0 <= i < lines@.len() ==> (#[trigger] outcomes@[i])@ == line_outcome(
                lines@[i]@,
                (i + 1) as usize,
                *output_config,
                Verdict::Keep,
                utc_time_of(lines@[i]@, output_config.level),
            ),
        output_config.display_local_time ==> forall|i: int|
            0 <= i < lines@.len() ==> is_local_line_outcome(
                (#[trigger] outcomes@[i])@,
                lines@[i]@,
                (i + 1) as usize,
                *output_config,
                Verdict::Keep,
            ),
        forall|i: int|
            0 <= i < lines@.len() && is_blank(lines@[i]@) ==> (#[trigger] outcomes@[i])@.output
                == passed_on(lines@[i]@, output_config.is_strict) && (
            outcomes@[i]@.diagnostic is Some) == output_config.is_debug,
{
    let mut outcomes: Vec<LineOutcome> = Vec::new();
    let mut i: usize = 0;
    while i < lines.len()
        invariant
            i <= lines.len(),
            outcomes@.len() == i,
            !output_config.display_local_time ==> forall|k: int|
                0 <= k < i ==> (#[trigger] outcomes@[k])@ == line_outcome(
                    lines@[k]@,
                    (k + 1) as usize,
                    *output_config,
                    Verdict::Keep,
                    utc_time_of(lines@[k]@, output_config.level),
                ),
            output_config.display_local_time ==> forall|k: int|
                0 <= k < i ==> is_local_line_outcome(
                    (#[trigger] outcomes@[k])@,
                    lines@[k]@,
                    (k + 1) as usize,
                    *output_config,
                    Verdict::Keep,
                ),
            forall|k: int|
                0 <= k < i && is_blank(lines@[k]@) ==> (#[trigger] outcomes@[k])@.output
                    == passed_on(lines@[k]@, output_config.is_strict) && (
                outcomes@[k]@.diagnostic is Some) == output_config.is_debug,
        decreases lines.len() - i,
    {
        let outcome = render_line(lines[i].as_str(), i + 1, format, output_config, Verdict::Keep);
        outcomes.push(outcome);
        i += 1;
    }
    outcomes
}

} // verus!

verus! {

/// The threshold decides: a record on a line is shown where its level is
/// the threshold or above, the threshold itself included, and hidden
/// where it is below.
pub proof fn lemma_threshold_decides(line: Seq<char>, threshold: u16, record: Record)
    requires
        json_parse(line) is Ok,
        decoded(json_parse(line)->Ok_0) == Ok::<Record, DecodeFault>(record),
    ensures
        record.level >= threshold ==> reading(line, Some(threshold)) == Reading::Shown(
            record,
        ),
        record.level < threshold ==> reading(line, Some(threshold)) == Reading::Hidden,
        reading(line, None) == Reading::Shown(record),
{
}

/// A hidden record gives no output and no diagnostics, whatever the
/// condition said.
pub proof fn lemma_hidden_record_is_silent(
    line: Seq<char>,
    line_no: usize,
    config: LoggerOutputConfig,
    verdict: Verdict,
    time_text: Option<Seq<char>>,
)
    requires
        reading(line, config.level) is Hidden,
    ensures
        line_outcome(line, line_no, config, verdict, time_text) == silent_outcome(),
{
}

/// Rendering a record again gives the same text: what `render` returns
/// depends on what the record holds, and on nothing else.
pub proof fn lemma_rendering_repeats(
    first: BunyanLine,
    second: BunyanLine,
    time_text: Seq<char>,
    colorize: bool,
)
    requires
        first@ == second@,
    ensures
        rendered(first@, time_text, colorize) == rendered(second@, time_text, colorize),
{
}

} // verus!
