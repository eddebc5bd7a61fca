//! Progress extraction: from lines of tool output to progress events inside
//! a stage's share of the scale.

use vstd::prelude::*;
use vstd::string::StringExecFns;
use crate::pattern::{capture_groups, regex_captures};
use crate::stage::{stage_label, stage_range, PipelineStage, StageRange, UNITS_PER_PERCENT};
use crate::text::chars_of;

verus! {

/// Where the tool declares the total duration: the word, then hours,
/// minutes and seconds of two digits each.
pub const DURATION_PATTERN: &'static str = "Duration: (\\d{2}):(\\d{2}):(\\d{2})";

/// Where the tool reports the position it has reached, in the same form.
pub const TIME_PATTERN: &'static str = "time=(\\d{2}):(\\d{2}):(\\d{2})";

/// A progress event: the label of the stage under way and the progress of the
/// whole run, in millionths of a percent (0 to 100 000 000).
#[derive(Clone, Debug, PartialEq, Eq)]
pub struct ProcessProgress {
    pub stage: String,
    pub progress: u32,
}

/// Mathematical content of a [`ProcessProgress`].
pub struct ProcessProgressView {
    pub stage: Seq<char>,
    pub progress: int,
}

impl View for ProcessProgress {
    type V = ProcessProgressView;

    open spec fn view(&self) -> ProcessProgressView {
        ProcessProgressView { stage: self.stage@, progress: self.progress as int }
    }
}

impl DeepView for ProcessProgress {
    type V = ProcessProgressView;

    open spec fn deep_view(&self) -> ProcessProgressView {
        self@
    }
}

/// The value of a decimal digit `0` to `9`; `None` for any other character.
pub open spec fn digit_value(c: char) -> Option<int> {
    if '0' as int <= c as int && c as int <= '9' as int {
        Some(c as int - '0' as int)
    } else {
        None
    }
}

/// The number written by exactly two decimal digits `0` to `9`.
pub open spec fn two_digit_value(text: Seq<char>) -> Option<int> {
    if text.len() == 2 && digit_value(text[0]) is Some && digit_value(text[1]) is Some {
        Some(10 * digit_value(text[0])->0 + digit_value(text[1])->0)
    } else {
        None
    }
}

/// The field written in capture group `i`, if the group is there, took part
/// in the match and holds two digits.
pub open spec fn clock_field(groups: Seq<Option<Seq<char>>>, i: int) -> Option<int> {
    if 0 <= i < groups.len() && groups[i] is Some {
        two_digit_value(groups[i]->0)
    } else {
        None
    }
}

/// The seconds that the capture groups of a clock pattern stand for: group 1
/// holds hours, group 2 minutes, group 3 seconds. A match whose fields are
/// not all two digits `0` to `9` counts as no clock at all.
pub open spec fn clock_of_groups(groups: Seq<Option<Seq<char>>>) -> Option<int> {
    if groups.len() == 4 && clock_field(groups, 1) is Some && clock_field(groups, 2) is Some
        && clock_field(groups, 3) is Some {
        Some(
            3600 * clock_field(groups, 1)->0 + 60 * clock_field(groups, 2)->0 + clock_field(
                groups,
                3,
            )->0,
        )
    } else {
        None
    }
}

/// The clock that `pattern` finds in `line`, in seconds.
pub open spec fn clock_in(pattern: Seq<char>, line: Seq<char>) -> Option<int> {
    match regex_captures(pattern, line) {
        Some(groups) => clock_of_groups(groups),
        None => None,
    }
}

/// What one line tells the extractor.
pub struct Observation {
    /// The total duration that the line declares, in seconds.
    pub duration: Option<int>,
    /// The position that the line reports, in seconds.
    pub elapsed: Option<int>,
}

impl Observation {
    /// Clocks are never negative.
    pub open spec fn well_formed(self) -> bool {
        &&& self.duration matches Some(d) ==> 0 <= d
        &&& self.elapsed matches Some(e) ==> 0 <= e
    }
}

/// What a line of tool output tells the extractor.
pub open spec fn observation_of(line: Seq<char>) -> Observation {
    Observation {
        duration: clock_in(DURATION_PATTERN@, line),
        elapsed: clock_in(TIME_PATTERN@, line),
    }
}

/// An optional machine number as an optional integer.
pub open spec fn as_int(value: Option<u32>) -> Option<int> {
    match value {
        Some(v) => Some(v as int),
        None => None,
    }
}

/// The progress of a run that has reached `elapsed` of `total` seconds of a
/// stage with the given range: the range's lower end plus the reached share
/// of its width, rounded down to a whole unit. A position past the total
/// counts as the total.
pub open spec fn scaled_progress(range: StageRange, elapsed: int, total: int) -> int {
    let reached = if elapsed < total {
        elapsed
    } else {
        total
    };
    range.lo * UNITS_PER_PERCENT + ((range.hi - range.lo) * UNITS_PER_PERCENT * reached) / total
}

/// Session state of the extractor for one stage.
pub struct ExtractorState {
    /// The label carried by the events.
    pub label: Seq<char>,
    /// The stage's share of the scale.
    pub range: StageRange,
    /// Total duration in seconds; 0 while unknown.
    pub total: int,
    /// The progress most recently reported.
    pub last: int,
}

impl ExtractorState {
    /// The range is in order and the last progress lies in it.
    pub open spec fn well_formed(self) -> bool {
        &&& self.range.well_formed()
        &&& self.range.lo * UNITS_PER_PERCENT <= self.last <= self.range.hi * UNITS_PER_PERCENT
        &&& 0 <= self.total
    }

    /// The state at the start of a stage: total unknown, progress at the
    /// lower end of the range.
    pub open spec fn initial(label: Seq<char>, range: StageRange) -> ExtractorState {
        ExtractorState { label, range, total: 0, last: range.lo * UNITS_PER_PERCENT }
    }

    /// The total once the line is taken in: a declared duration replaces it.
    pub open spec fn total_after(self, seen: Observation) -> int {
        match seen.duration {
            Some(d) => d,
            None => self.total,
        }
    }

    /// The progress that the line computes to: none without a reported
    /// position, and none while the total is unknown.
    pub open spec fn candidate(self, seen: Observation) -> Option<int> {
        match seen.elapsed {
            Some(e) => if self.total_after(seen) > 0 {
                Some(scaled_progress(self.range, e, self.total_after(seen)))
            } else {
                None
            },
            None => None,
        }
    }

    /// The progress that the line makes the extractor report: the candidate,
    /// where it exceeds what was reported last.
    pub open spec fn emitted(self, seen: Observation) -> Option<int> {
        match self.candidate(seen) {
            Some(p) => if p > self.last {
                Some(p)
            } else {
                None
            },
            None => None,
        }
    }

    /// The state once the line is taken in.
    pub open spec fn after(self, seen: Observation) -> ExtractorState {
        ExtractorState {
            label: self.label,
            range: self.range,
            total: self.total_after(seen),
            last: match self.emitted(seen) {
                Some(p) => p,
                None => self.last,
            },
        }
    }

    /// The event that the line makes the extractor report.
    pub open spec fn event(self, seen: Observation) -> Option<ProcessProgressView> {
        match self.emitted(seen) {
            Some(p) => Some(ProcessProgressView { stage: self.label, progress: p }),
            None => None,
        }
    }

    /// The values reported over a sequence of lines, in order.
    pub open spec fn emissions(self, lines: Seq<Observation>) -> Seq<int>
        decreases lines.len(),
    {
        if lines.len() == 0 {
            Seq::empty()
        } else {
            let rest = self.after(lines[0]).emissions(lines.drop_first());
            match self.emitted(lines[0]) {
                Some(p) => seq![p] + rest,
                None => rest,
            }
        }
    }
}

/// A scaled progress lies in the stage's range.
pub proof fn lemma_scaled_progress_in_range(range: StageRange, elapsed: int, total: int)
    requires
        range.well_formed(),
        0 <= elapsed,
        0 < total,
    ensures
        range.lo * UNITS_PER_PERCENT <= scaled_progress(range, elapsed, total) <= range.hi
            * UNITS_PER_PERCENT,
{
    let reached = if elapsed < total {
        elapsed
    } else {
        total
    };
    let width = (range.hi - range.lo) * UNITS_PER_PERCENT;
    assert(0 <= (width * reached) / total <= width) by (nonlinear_arith)
        requires
            0 <= width,
            0 <= reached <= total,
            0 < total,
    ;
}

/// Against one total, a later position never scales to less.
pub proof fn lemma_scaled_progress_monotonic(
    range: StageRange,
    earlier: int,
    later: int,
    total: int,
)
    requires
        range.well_formed(),
        0 <= earlier <= later,
        0 < total,
    ensures
        scaled_progress(range, earlier, total) <= scaled_progress(range, later, total),
{
    let a = if earlier < total {
        earlier
    } else {
        total
    };
    let b = if later < total {
        later
    } else {
        total
    };
    let width = (range.hi - range.lo) * UNITS_PER_PERCENT;
    assert((width * a) / total <= (width * b) / total) by (nonlinear_arith)
        requires
            0 <= width,
            0 <= a <= b,
            0 < total,
    ;
}

/// Reads one decimal digit.
pub fn digit(c: char) -> (value: Option<u32>)
    ensures
        as_int(value) == digit_value(c),
        value matches Some(v) ==> v <= 9,
{
    let code: u32 = c as u32;
    let zero: u32 = '0' as u32;
    let nine: u32 = '9' as u32;
    if zero <= code && code <= nine {
        Some(code - zero)
    } else {
        None
    }
}

/// Reads a text of exactly two decimal digits.
pub fn two_digits(text: &str) -> (value: Option<u32>)
    ensures
        as_int(value) == two_digit_value(text@),
        value matches Some(v) ==> v <= 99,
{
    let chars = chars_of(text);
    if chars.len() != 2 {
        return None;
    }
    match (digit(chars[0]), digit(chars[1])) {
        (Some(tens), Some(ones)) => Some(10 * tens + ones),
        _ => None,
    }
}

/// Reads the field in capture group `i`.
fn read_field(groups: &Vec<Option<String>>, i: usize) -> (value: Option<u32>)
    ensures
        as_int(value) == clock_field(groups.deep_view(), i as int),
        value matches Some(v) ==> v <= 99,
{
    if i >= groups.len() {
        return None;
    }
    assert(groups.deep_view()[i as int] == groups@[i as int].deep_view());
    match &groups[i] {
        Some(text) => two_digits(text.as_str()),
        None => None,
    }
}

/// Turns the capture groups of a clock pattern into seconds: hours, minutes
/// and seconds from groups 1, 2 and 3. Anything but four groups with three
/// two-digit fields gives `None`.
pub fn clock_from_groups(groups: &Vec<Option<String>>) -> (seconds: Option<u32>)
    ensures
        as_int(seconds) == clock_of_groups(groups.deep_view()),
{
    if groups.len() != 4 {
        return None;
    }
    let hours = read_field(groups, 1);
    let minutes = read_field(groups, 2);
    let secs = read_field(groups, 3);
    match (hours, minutes, secs) {
        (Some(h), Some(m), Some(s)) => Some(3600 * h + 60 * m + s),
        _ => None,
    }
}

/// Searches `line` for a clock written as `pattern` describes, and gives it
/// in seconds.
pub fn find_clock(pattern: &str, line: &str) -> (seconds: Option<u32>)
    ensures
        as_int(seconds) == clock_in(pattern@, line@),
{
    match capture_groups(pattern, line) {
        Some(groups) => clock_from_groups(&groups),
        None => None,
    }
}

/// Computes [`scaled_progress`].
fn scale(range: StageRange, elapsed: u32, total: u32) -> (progress: u32)
    requires
        range.well_formed(),
        total > 0,
    ensures
        progress == scaled_progress(range, elapsed as int, total as int),
        range.lo * UNITS_PER_PERCENT <= progress <= range.hi * UNITS_PER_PERCENT,
{
    let reached: u64 = if elapsed < total {
        elapsed as u64
    } else {
        total as u64
    };
    let span: u64 = (range.hi - range.lo) as u64;
    let base: u64 = range.lo as u64;
    let unit: u64 = UNITS_PER_PERCENT as u64;
    assert(span * unit <= 100_000_000 && base * unit <= 100_000_000) by (nonlinear_arith)
        requires
            span <= 100,
            base <= 100,
            unit == 1_000_000,
    ;
    let width: u64 = span * unit;
    proof {
        lemma_scaled_progress_in_range(range, elapsed as int, total as int);
        assert(width * reached <= 100_000_000 * 0xFFFF_FFFF) by (nonlinear_arith)
            requires
                0 <= width <= 100_000_000,
                0 <= reached <= 0xFFFF_FFFF,
        ;
    }
    let share: u64 = (width * reached) / (total as u64);
    let progress: u64 = base * unit + share;
    progress as u32
}

/// The progress extractor of one stage: it remembers the total duration and
/// the progress it reported last, and turns lines into events.
#[derive(Debug)]
pub struct ProgressExtractor {
    label: String,
    range: StageRange,
    total_seconds: u32,
    last_progress: u32,
}

impl View for ProgressExtractor {
    type V = ExtractorState;

    closed spec fn view(&self) -> ExtractorState {
        ExtractorState {
            label: self.label@,
            range: self.range,
            total: self.total_seconds as int,
            last: self.last_progress as int,
        }
    }
}

impl ProgressExtractor {
    /// Holds of every extractor: its state is well formed.
    #[verifier::type_invariant]
    spec fn always_well_formed(self) -> bool {
        self@.well_formed()
    }

    /// An extractor at the start of a stage with the given label and range.
    /// `None` where the range is out of order or off the scale.
    pub fn new(label: &str, range: StageRange) -> (made: Option<ProgressExtractor>)
        ensures
            made is Some <==> range.well_formed(),
            made matches Some(extractor) ==> extractor@ == ExtractorState::initial(label@, range)
                && extractor@.well_formed(),
    {
        if range.lo <= range.hi && range.hi <= 100 {
            let lo: u32 = range.lo as u32;
            Some(
                ProgressExtractor {
                    label: String::from_str(label),
                    range,
                    total_seconds: 0,
                    last_progress: lo * UNITS_PER_PERCENT,
                },
            )
        } else {
            None
        }
    }

    /// An extractor at the start of `stage`, with the stage's label and range.
    pub fn for_stage(stage: PipelineStage) -> (extractor: ProgressExtractor)
        ensures
            extractor@ == ExtractorState::initial(stage_label(stage), stage_range(stage)),
            extractor@.well_formed(),
    {
        let range = stage.range();
        let lo: u32 = range.lo as u32;
        ProgressExtractor {
            label: String::from_str(stage.label()),
            range,
            total_seconds: 0,
            last_progress: lo * UNITS_PER_PERCENT,
        }
    }

    /// The label carried by the events.
    pub fn label(&self) -> (label: &str)
        ensures
            label@ == self@.label,
    {
        self.label.as_str()
    }

    /// The total duration in seconds; 0 while unknown.
    pub fn total_seconds(&self) -> (total: u32)
        ensures
            total == self@.total,
    {
        self.total_seconds
    }

    /// The progress reported last, in progress units.
    pub fn last_progress(&self) -> (last: u32)
        ensures
            last == self@.last,
    {
        self.last_progress
    }

    /// The stage's share of the scale.
    pub fn range(&self) -> (range: StageRange)
        ensures
            range == self@.range,
    {
        self.range
    }

    /// Takes in what a line holds: a declared duration replaces the total,
    /// and a reported position is scaled into the stage's range against the
    /// total. The result is an event exactly when that progress exceeds the
    /// one reported last; it then becomes the last.
    pub fn apply(&mut self, duration: Option<u32>, elapsed: Option<u32>) -> (event: Option<
        ProcessProgress,
    >)
        ensures
            old(self)@.well_formed(),
            final(self)@.well_formed(),
            final(self)@ == old(self)@.after(
                Observation { duration: as_int(duration), elapsed: as_int(elapsed) },
            ),
            event.deep_view() == old(self)@.event(
                Observation { duration: as_int(duration), elapsed: as_int(elapsed) },
            ),
    {
        proof {
            use_type_invariant(&*self);
        }
        if let Some(total) = duration {
            self.total_seconds = total;
        }
        match elapsed {
            Some(position) => {
                if self.total_seconds > 0 {
                    let progress = scale(self.range, position, self.total_seconds);
                    if progress > self.last_progress {
                        self.last_progress = progress;
                        Some(ProcessProgress { stage: self.label.clone(), progress })
                    } else {
                        None
                    }
                } else {
                    None
                }
            },
            None => None,
        }
    }

    /// Takes in one line of tool output. See [`ProgressExtractor::apply`] for
    /// what is done with the clocks found in it.
    pub fn observe(&mut self, line: &str) -> (event: Option<ProcessProgress>)
        ensures
            old(self)@.well_formed(),
            final(self)@.well_formed(),
            final(self)@ == old(self)@.after(observation_of(line@)),
            event.deep_view() == old(self)@.event(observation_of(line@)),
    {
        let duration = find_clock(DURATION_PATTERN, line);
        let elapsed = find_clock(TIME_PATTERN, line);
        self.apply(duration, elapsed)
    }
}

/// What a line holds is never negative, whatever the search finds.
pub proof fn lemma_observation_well_formed(line: Seq<char>)
    ensures
        observation_of(line).well_formed(),
{
}

/// Taking in a line keeps the state well formed, and what is reported lies
/// in the stage's range, above what was reported before.
pub proof fn lemma_step_stays_in_range(state: ExtractorState, seen: Observation)
    requires
        state.well_formed(),
        seen.well_formed(),
    ensures
        state.after(seen).well_formed(),
        state.last <= state.after(seen).last,
        state.emitted(seen) matches Some(p) ==> state.last < p <= state.range.hi
            * UNITS_PER_PERCENT && state.after(seen).last == p,
        state.emitted(seen) is None ==> state.after(seen).last == state.last,
{
    if seen.elapsed is Some && state.total_after(seen) > 0 {
        lemma_scaled_progress_in_range(state.range, seen.elapsed->0, state.total_after(seen));
    }
}

/// A reported position makes no event while the total duration is unknown:
/// a line that comes before any declaration of the duration is passed over.
pub proof fn lemma_no_event_before_duration(state: ExtractorState, seen: Observation)
    requires
        state.total == 0,
        seen.duration is None,
    ensures
        state.emitted(seen) is None,
        state.event(seen) is None,
        state.after(seen) == state,
{
}

/// Where two lines in a row compute to the same progress, the second makes
/// no event: at most one event carries that value.
pub proof fn lemma_equal_progress_reported_once(
    state: ExtractorState,
    first: Observation,
    second: Observation,
)
    requires
        state.candidate(first) is Some,
        state.after(first).candidate(second) == state.candidate(first),
    ensures
        state.after(first).emitted(second) is None,
        state.after(first).event(second) is None,
{
}

/// Over any sequence of lines, the reported values rise strictly and stay in
/// the stage's range, above what was reported before the first line. In
/// particular they never decrease, whatever order the positions come in.
pub proof fn lemma_emissions_rise_within_range(state: ExtractorState, lines: Seq<Observation>)
    requires
        state.well_formed(),
        forall|i: int| 0 <= i < lines.len() ==> (#[trigger] lines[i]).well_formed(),
    ensures
        forall|i: int|
            0 <= i < state.emissions(lines).len() ==> state.last < #[trigger] state.emissions(
                lines,
            )[i] <= state.range.hi * UNITS_PER_PERCENT,
        forall|i: int|
            0 <= i < state.emissions(lines).len() ==> state.range.lo * UNITS_PER_PERCENT
                <= #[trigger] state.emissions(lines)[i],
        forall|i: int, j: int|
            0 <= i < j < state.emissions(lines).len() ==> state.emissions(lines)[i]
                < state.emissions(lines)[j],
    decreases lines.len(),
{
    if lines.len() > 0 {
        let next = state.after(lines[0]);
        let rest = next.emissions(lines.drop_first());
        lemma_step_stays_in_range(state, lines[0]);
        assert forall|i: int| 0 <= i < lines.drop_first().len() implies (
        #[trigger] lines.drop_first()[i]).well_formed() by {
            assert(lines.drop_first()[i] == lines[i + 1]);
        }
        lemma_emissions_rise_within_range(next, lines.drop_first());
        match state.emitted(lines[0]) {
            Some(p) => {
                let out = state.emissions(lines);
                assert(out == seq![p] + rest);
                assert forall|i: int| 0 <= i < out.len() implies state.last < #[trigger] out[i]
                    <= state.range.hi * UNITS_PER_PERCENT by {
                    if i > 0 {
                        assert(out[i] == rest[i - 1]);
                    }
                }
                assert forall|i: int, j: int| 0 <= i < j < out.len() implies out[i] < out[j] by {
                    assert(out[j] == rest[j - 1]);
                    if i > 0 {
                        assert(out[i] == rest[i - 1]);
                    }
                }
            },
            None => {
                assert(state.emissions(lines) == rest);
            },
        }
    }
}

} // verus!
