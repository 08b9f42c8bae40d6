//! `PipeWire` sample rate control.

use crate::audio::error::AudioError;
use crate::command::{push_arg, push_owned_arg, CommandLine, CommandLineView};
use crate::strings::{
    chars_of, contains_text, decimal, decimal_text, find_char, find_from, first_char, first_from,
    joined, lemma_char_occurs, lemma_decimal_reads_back, lemma_first_from, lemma_line_len,
    lemma_parse_decimal, line_len, lossy, lossy_text, occurs, occurs_at, parse_number, parsed_number, slice_text, texts,
};
use vstd::prelude::*;

verus! {

// ---------------------------------------------------------------------------
// What pw-metadata prints.
// ---------------------------------------------------------------------------

/// The rate that one line of `pw-metadata` output gives, if it gives one: the
/// line speaks of `clock.force-rate` and quotes a number behind `value:`.
pub open spec fn line_rate(line: Seq<char>) -> Option<nat> {
    if !occurs(line, "clock.force-rate"@) || !occurs(line, "value:"@) {
        None
    } else {
        match first_from(line, "value:'"@, 0) {
            None => None,
            Some(at) => {
                let rest = line.skip(at + 7);
                match first_char(rest, '\'') {
                    None => None,
                    Some(end) => parsed_number(rest.take(end), u32::MAX as nat),
                }
            },
        }
    }
}

/// The rate that the first line giving one gives; 0 where none does.
pub open spec fn force_rate(text: Seq<char>) -> nat
    decreases text.len(),
{
    let n = line_len(text);
    match line_rate(text.take(n as int)) {
        Some(rate) => rate,
        None => if n < text.len() {
            force_rate(text.skip(n as int + 1))
        } else {
            0
        },
    }
}

fn rate_of_line(line: &str) -> (r: Option<u32>)
    ensures
        match r {
            Some(rate) => line_rate(line@) == Some(rate as nat),
            None => line_rate(line@) is None,
        },
{
    if !contains_text(line, "clock.force-rate") || !contains_text(line, "value:") {
        return None;
    }
    let chars = chars_of(line);
    let marker = chars_of("value:'");
    proof {
        reveal_strlit("value:'");
    }
    let found = find_from(&chars, &marker, 0);
    proof {
        let f: Option<int> = match found {
            Some(at) => Some(at as int),
            None => None,
        };
        lemma_first_from(line@, "value:'"@, 0, f);
    }
    match found {
        None => None,
        Some(at) => {
            assert(at + 7 <= chars.len());
            let start: usize = at + 7;
            let end = find_char(&chars, '\'', start);
            proof {
                let rest = line@.skip(start as int);
                let f: Option<int> = match end {
                    Some(e) => Some(e - start),
                    None => None,
                };
                assert forall|k: int| 0 <= k < rest.len() implies rest[k] == line@[start + k] by {}
                assert forall|k: int| 0 <= k implies (occurs_at(rest, seq!['\''], k) <==> 0 <= k
                    < rest.len() && line@[start + k] == '\'') by {
                    lemma_char_occurs(rest, '\'', k);
                }
                lemma_first_from(rest, seq!['\''], 0, f);
            }
            match end {
                None => None,
                Some(e) => {
                    proof {
                        let rest = line@.skip(start as int);
                        assert(rest.take(e - start) =~= line@.subrange(start as int, e as int));
                    }
                    parse_number(&chars, start, e, u32::MAX)
                },
            }
        },
    }
}

/// Parses `value:'<rate>'` from pw-metadata output. Returns 0 if absent.
///
/// Every line is scanned for both `clock.force-rate` and `value:'<digits>'`;
/// any malformed or missing match yields `0` so callers degrade gracefully
/// when pw-metadata is unavailable.
#[must_use]
pub fn parse_force_rate_from_output(stdout: &str) -> (r: u32)
    ensures
        r as nat == force_rate(stdout@),
{
    let chars = chars_of(stdout);
    let mut from: usize = 0;
    proof {
        assert(chars@.skip(0) =~= stdout@);
    }
    loop
        invariant
            chars@ == stdout@,
            from <= chars@.len(),
            force_rate(stdout@) == force_rate(chars@.skip(from as int)),
        decreases chars@.len() - from,
    {
        let end: usize = match find_char(&chars, '\n', from) {
            Some(at) => at,
            None => chars.len(),
        };
        let line = slice_text(&chars, from, end);
        proof {
            let rest = chars@.skip(from as int);
            assert forall|k: int| 0 <= k < rest.len() implies rest[k] == chars@[from + k] by {}
            lemma_line_len(rest, (end - from) as nat);
            assert(rest.take(end - from) =~= line@);
        }
        if let Some(rate) = rate_of_line(line.as_str()) {
            return rate;
        }
        if end >= chars.len() {
            return 0;
        }
        proof {
            assert(chars@.skip(from as int).skip(end - from + 1) =~= chars@.skip(end + 1));
        }
        from = end + 1;
    }
}

/// A line that gives no rate changes nothing, whatever follows it.
pub proof fn law_other_lines_are_skipped(line: Seq<char>, rest: Seq<char>)
    requires
        !line.contains('\n'),
        line_rate(line) is None,
    ensures
        force_rate(line.push('\n') + rest) == force_rate(rest),
{
    let text = line.push('\n') + rest;
    assert forall|k: int| 0 <= k < line.len() implies text[k] != '\n' by {
        assert(line.contains(line[k]));
    }
    lemma_line_len(text, line.len());
    assert(text.take(line.len() as int) =~= line);
    assert(text.skip(line.len() as int + 1) =~= rest);
}

/// A line that names the setting before it quotes a rate gives that rate back.
pub proof fn law_quoted_rate_is_read_back(before: Seq<char>, rate: u32, after: Seq<char>)
    requires
        occurs(before, "clock.force-rate"@),
        !occurs(before, "value:'"@),
        !before.contains('\n'),
    ensures
        force_rate(before + "value:'"@ + decimal(rate as nat) + seq!['\''] + after) == rate,
{
    reveal_strlit("value:'");
    reveal_strlit("value:");
    let number = decimal(rate as nat);
    let text = before + "value:'"@ + number + seq!['\''] + after;
    let n = line_len(text);
    let b = before.len() as int;
    lemma_decimal_reads_back(rate as nat);
    lemma_parse_decimal(rate as nat, u32::MAX as nat);
    let close = b + 7 + number.len();
    assert forall|k: int| 0 <= k <= close implies text[k] != '\n' by {
        if k < b {
            assert(before.contains(before[k]));
        } else if k < b + 7 {
            assert(text[k] == "value:'"@[k - b]);
        } else if k < close {
            assert(is_digit_at(number, k - b - 7));
        }
    }
    crate::strings::lemma_line_holds_no_feed(text);
    lemma_line_reaches(text, close + 1);
    let line = text.take(n as int);
    // The setting is named on the line.
    let at = choose|at: int| occurs_at(before, "clock.force-rate"@, at);
    assert(line.subrange(at, at + "clock.force-rate"@.len()) =~= before.subrange(
        at,
        at + "clock.force-rate"@.len(),
    ));
    assert(occurs_at(line, "clock.force-rate"@, at));
    assert(line.subrange(b, b + 6) =~= "value:"@);
    assert(occurs_at(line, "value:"@, b));
    // The marker stands behind `before` and nowhere earlier.
    assert(line.subrange(b, b + 7) =~= "value:'"@);
    assert(occurs_at(line, "value:'"@, b));
    assert forall|k: int| 0 <= k < b implies !occurs_at(line, "value:'"@, k) by {
        if occurs_at(line, "value:'"@, k) {
            if k + 7 <= b {
                assert(before.subrange(k, k + 7) =~= line.subrange(k, k + 7));
                assert(occurs_at(before, "value:'"@, k));
            } else {
                // The marker does not overlap itself.
                assert(line.subrange(k, k + 7)[b - k] == "value:'"@[b - k]);
                assert(line[b] == "value:'"@[0]);
            }
        }
    }
    lemma_first_from(line, "value:'"@, 0, Some(b));
    let rest = line.skip(b + 7);
    assert forall|k: int| 0 <= k implies (occurs_at(rest, seq!['\''], k) <==> k < rest.len()
        && rest[k] == '\'') by {
        lemma_char_occurs(rest, '\'', k);
    }
    assert forall|k: int| 0 <= k < number.len() implies rest[k] != '\'' by {
        assert(rest[k] == number[k]);
        assert(is_digit_at(number, k));
    }
    assert(rest[number.len() as int] == '\'');
    lemma_first_from(rest, seq!['\''], 0, Some(number.len() as int));
    assert(rest.take(number.len() as int) =~= number);
}

/// On a line that names the setting the first quoted value decides: it is the
/// rate where it is a number that fits, and what is no number gives none.
pub proof fn law_first_quoted_value_decides(before: Seq<char>, quoted: Seq<char>, after: Seq<char>)
    requires
        occurs(before + "value:'"@ + quoted + seq!['\''] + after, "clock.force-rate"@),
        !occurs(before, "value:'"@),
        !quoted.contains('\''),
    ensures
        line_rate(before + "value:'"@ + quoted + seq!['\''] + after) == parsed_number(
            quoted,
            u32::MAX as nat,
        ),
{
    reveal_strlit("value:'");
    reveal_strlit("value:");
    let line = before + "value:'"@ + quoted + seq!['\''] + after;
    let b = before.len() as int;
    let n = quoted.len() as int;
    assert(line.subrange(b, b + 6) =~= "value:"@);
    assert(occurs_at(line, "value:"@, b));
    assert(line.subrange(b, b + 7) =~= "value:'"@);
    assert(occurs_at(line, "value:'"@, b));
    assert forall|k: int| 0 <= k < b implies !occurs_at(line, "value:'"@, k) by {
        if occurs_at(line, "value:'"@, k) {
            if k + 7 <= b {
                assert(before.subrange(k, k + 7) =~= line.subrange(k, k + 7));
                assert(occurs_at(before, "value:'"@, k));
            } else {
                assert(line.subrange(k, k + 7)[b - k] == "value:'"@[b - k]);
                assert(line[b] == "value:'"@[0]);
            }
        }
    }
    lemma_first_from(line, "value:'"@, 0, Some(b));
    let rest = line.skip(b + 7);
    assert forall|k: int| 0 <= k implies (occurs_at(rest, seq!['\''], k) <==> k < rest.len()
        && rest[k] == '\'') by {
        lemma_char_occurs(rest, '\'', k);
    }
    assert forall|k: int| 0 <= k < n implies rest[k] != '\'' by {
        assert(rest[k] == quoted[k]);
        assert(quoted.contains(quoted[k]));
    }
    assert(rest[n] == '\'');
    lemma_first_from(rest, seq!['\''], 0, Some(n));
    assert(rest.take(n) =~= quoted);
}

spec fn is_digit_at(s: Seq<char>, k: int) -> bool {
    crate::strings::is_digit(s[k])
}

proof fn lemma_line_reaches(text: Seq<char>, n: int)
    requires
        0 <= n <= text.len(),
        forall|k: int| 0 <= k < n ==> text[k] != '\n',
    ensures
        n <= line_len(text) <= text.len(),
    decreases text.len(),
{
    if text.len() > 0 && text[0] != '\n' {
        if n > 0 {
            assert forall|k: int| 0 <= k < n - 1 implies text.skip(1)[k] != '\n' by {
                assert(text.skip(1)[k] == text[k + 1]);
            }
            lemma_line_reaches(text.skip(1), n - 1);
        } else {
            lemma_line_reaches(text.skip(1), 0);
        }
    }
}

// ---------------------------------------------------------------------------
// Running pw-metadata.
// ---------------------------------------------------------------------------

/// The production runner, which shells out to `pw-metadata`.
#[derive(Debug, Clone, Copy, PartialEq, Eq, Structural)]
pub struct PwMetadataCommand;

impl PwMetadataCommand {
    /// The command line that runs `pw-metadata` with `args`.
    #[must_use]
    pub fn command(&self, args: Vec<String>) -> (r: CommandLine)
        ensures
            r@ == (CommandLineView { program: "pw-metadata"@, args: texts(args@) }),
    {
        CommandLine { program: "pw-metadata".to_owned(), args }
    }
}

/// The arguments that read the forced rate.
pub open spec fn probe_args() -> Seq<Seq<char>> {
    seq!["-n"@, "settings"@, "0"@, "clock.force-rate"@]
}

/// The arguments that force `rate`; 0 releases the clock.
pub open spec fn force_args(rate: nat) -> Seq<Seq<char>> {
    probe_args().push(decimal(rate))
}

/// The arguments in `args`, as characters.
pub open spec fn args_of(args: Option<Vec<String>>) -> Option<Seq<Seq<char>>> {
    match args {
        Some(v) => Some(texts(v@)),
        None => None,
    }
}

/// The arguments that read the forced rate.
#[must_use]
pub fn probe_arguments() -> (r: Vec<String>)
    ensures
        texts(r@) == probe_args(),
{
    let mut args: Vec<String> = Vec::new();
    push_arg(&mut args, "-n");
    push_arg(&mut args, "settings");
    push_arg(&mut args, "0");
    push_arg(&mut args, "clock.force-rate");
    proof {
        assert(texts(args@) =~= probe_args());
    }
    args
}

fn force_arguments(rate: u32) -> (r: Vec<String>)
    ensures
        texts(r@) == force_args(rate as nat),
{
    let mut args = probe_arguments();
    push_owned_arg(&mut args, decimal_text(rate as u64));
    args
}

/// How a run of `pw-metadata` went.
pub enum RunOutcome {
    /// The program could not be run.
    Failed(AudioError),
    /// The program ran to its end.
    Exited { success: bool, stderr: Vec<u8> },
}

/// Manages the `PipeWire` `clock.force-rate` setting via `pw-metadata`.
pub struct PipeWireController {
    original_rate: Option<u32>,
    current_rate: Option<u32>,
    /// Set from the construction probe. When `pw-metadata` cannot be executed
    /// at all, the controller degrades to a silent no-op instead of warning on
    /// every track.
    available: bool,
}

/// A controller as mathematical values.
pub struct PipeWireView {
    /// The rate that was forced before, restored at the end.
    pub original: Option<u32>,
    /// The rate that the controller forces now.
    pub current: Option<u32>,
    /// Whether `pw-metadata` can be run.
    pub available: bool,
}

impl View for PipeWireController {
    type V = PipeWireView;

    closed spec fn view(&self) -> PipeWireView {
        PipeWireView {
            original: self.original_rate,
            current: self.current_rate,
            available: self.available,
        }
    }
}

/// The outcome of a change of the forced rate.
pub open spec fn run_result(outcome: RunOutcome, r: Result<(), AudioError>) -> bool {
    match outcome {
        RunOutcome::Failed(e) => r == Err::<(), AudioError>(e),
        RunOutcome::Exited { success, stderr } => if success {
            r is Ok
        } else {
            r matches Err(AudioError::PipeWire(m)) && m@ == "pw-metadata failed: "@ + lossy_text(
                stderr@,
            )
        },
    }
}

/// The run went to its end with success.
pub open spec fn run_succeeded(outcome: RunOutcome) -> bool {
    outcome matches RunOutcome::Exited { success: true, .. }
}

/// The controller once the run that forces `rate` came to `outcome`.
pub open spec fn after_set(v: PipeWireView, rate: u32, outcome: RunOutcome) -> PipeWireView {
    PipeWireView {
        current: if run_succeeded(outcome) {
            Some(rate)
        } else {
            v.current
        },
        ..v
    }
}

/// The controller once the run that releases the rate came to `outcome`.
pub open spec fn after_clear(v: PipeWireView, outcome: RunOutcome) -> PipeWireView {
    PipeWireView {
        current: if run_succeeded(outcome) {
            None
        } else {
            v.current
        },
        ..v
    }
}

/// The arguments that put the rate back that was forced before; none where it
/// is not known.
pub open spec fn restoring_args(v: PipeWireView) -> Option<Seq<Seq<char>>> {
    match v.original {
        Some(rate) => Some(force_args(rate as nat)),
        None => None,
    }
}

/// A change of the forced rate and what its run came to.
pub enum RateChange {
    Force { rate: u32, outcome: RunOutcome },
    Release { outcome: RunOutcome },
}

/// The controller after `changes`, one by one.
pub open spec fn after_changes(v: PipeWireView, changes: Seq<RateChange>) -> PipeWireView
    decreases changes.len(),
{
    if changes.len() == 0 {
        v
    } else {
        let before = after_changes(v, changes.drop_last());
        match changes.last() {
            RateChange::Force { rate, outcome } => after_set(before, rate, outcome),
            RateChange::Release { outcome } => after_clear(before, outcome),
        }
    }
}

/// Whatever is forced and released in between, and however those runs go, the
/// rate that was found at the start is the one that is put back at the end.
pub proof fn law_original_rate_is_restored(v: PipeWireView, changes: Seq<RateChange>)
    ensures
        after_changes(v, changes).original == v.original,
        after_changes(v, changes).available == v.available,
        restoring_args(after_changes(v, changes)) == restoring_args(v),
    decreases changes.len(),
{
    if changes.len() > 0 {
        law_original_rate_is_restored(v, changes.drop_last());
    }
}

fn judge_run(outcome: RunOutcome) -> (r: Result<(), AudioError>)
    ensures
        run_result(outcome, r),
        r is Ok <==> run_succeeded(outcome),
{
    match outcome {
        RunOutcome::Failed(e) => Err(e),
        RunOutcome::Exited { success, stderr } => {
            if success {
                Ok(())
            } else {
                let complaint = lossy(stderr.as_slice());
                Err(AudioError::PipeWire(joined("pw-metadata failed: ", complaint.as_str())))
            }
        },
    }
}

impl PipeWireController {
    /// Construct from what the runner answered to the probe of
    /// `clock.force-rate`: its standard output, or nothing where it could not
    /// be run. A failing probe marks the controller unavailable.
    #[must_use]
    pub fn with_runner(probed: Option<&[u8]>) -> (r: Self)
        ensures
            r@.current is None,
            match probed {
                Some(stdout) => r@.available && (r@.original matches Some(rate) && rate as nat
                    == force_rate(lossy_text(stdout@))),
                None => !r@.available && r@.original is None,
            },
    {
        match probed {
            Some(stdout) => {
                let text = lossy(stdout);
                PipeWireController {
                    original_rate: Some(parse_force_rate_from_output(text.as_str())),
                    current_rate: None,
                    available: true,
                }
            },
            None => PipeWireController { original_rate: None, current_rate: None, available: false },
        }
    }

    /// Whether `pw-metadata` could be executed during construction.
    #[must_use]
    pub fn is_available(&self) -> (r: bool)
        ensures
            r == self@.available,
    {
        self.available
    }

    /// Rate this controller last set, if any.
    #[must_use]
    pub fn get_current_rate(&self) -> (r: Option<u32>)
        ensures
            r == self@.current,
    {
        self.current_rate
    }

    /// Force-rate value probed at construction, restored on drop.
    #[must_use]
    pub fn get_original_rate(&self) -> (r: Option<u32>)
        ensures
            r == self@.original,
    {
        self.original_rate
    }

    /// The arguments to run `pw-metadata` with to pin the graph to `rate` Hz;
    /// none where the program is unavailable. The run is always made: an
    /// outside change of the setting would make any remembered rate stale.
    pub fn set_rate(&self, rate: u32) -> (r: Option<Vec<String>>)
        ensures
            args_of(r) == (if self@.available {
                Some(force_args(rate as nat))
            } else {
                None
            }),
    {
        if !self.available {
            return None;
        }
        Some(force_arguments(rate))
    }

    /// Takes over the outcome of the run that [`set_rate`](Self::set_rate)
    /// asked for.
    ///
    /// # Errors
    /// The runner's own error, or `PipeWire` for an exit without success.
    pub fn finish_set_rate(&mut self, rate: u32, outcome: RunOutcome) -> (r: Result<(), AudioError>)
        ensures
            run_result(outcome, r),
            final(self)@ == after_set(old(self)@, rate, outcome),
    {
        let r = judge_run(outcome);
        if r.is_ok() {
            self.current_rate = Some(rate);
        }
        r
    }

    /// The arguments to run `pw-metadata` with to release the rate pin; none
    /// where the program is unavailable.
    pub fn clear_forced_rate(&self) -> (r: Option<Vec<String>>)
        ensures
            args_of(r) == (if self@.available {
                Some(force_args(0))
            } else {
                None
            }),
    {
        if !self.available {
            return None;
        }
        Some(force_arguments(0))
    }

    /// Takes over the outcome of the run that
    /// [`clear_forced_rate`](Self::clear_forced_rate) asked for.
    ///
    /// # Errors
    /// The runner's own error, or `PipeWire` for an exit without success.
    pub fn finish_clear_forced_rate(&mut self, outcome: RunOutcome) -> (r: Result<(), AudioError>)
        ensures
            run_result(outcome, r),
            final(self)@ == after_clear(old(self)@, outcome),
    {
        let r = judge_run(outcome);
        if r.is_ok() {
            self.current_rate = None;
        }
        r
    }

    /// The arguments to run `pw-metadata` with when the controller goes away:
    /// the rate that was forced before is put back.
    #[must_use]
    pub fn restore_original(&self) -> (r: Option<Vec<String>>)
        ensures
            args_of(r) == restoring_args(self@),
    {
        match self.original_rate {
            Some(rate) => Some(force_arguments(rate)),
            None => None,
        }
    }
}

} // verus!
