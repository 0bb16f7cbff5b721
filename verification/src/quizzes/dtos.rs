use vstd::prelude::*;
use vstd::string::*;

use crate::banks::entity::QuestionBankId;
use crate::courses::entity::CourseId;
use crate::quizzes::entity::{CertaintyScore, CertaintyTable, QuizKind};
use crate::support::{now_micros, parse_rfc3339_micros, spec_rfc3339_micros, valid_instant, Timestamp};

verus! {

/// The request to create a quiz.
#[derive(Clone, Debug)]
pub struct CreateQuizDto {
    pub course_id: CourseId,
    pub title: String,
    pub kind: QuizKind,
    pub starts_at: String,
    pub attempt_duration_minutes: i16,
    pub question_count: i16,
    pub bank_ids: Vec<QuestionBankId>,
    pub certainty_config: Option<CertaintyTableDto>,
}

/// The certainty table of a quiz, as requested.
#[derive(Clone, Copy, Debug, PartialEq, Eq, Structural)]
pub struct CertaintyTableDto {
    pub low: CertaintyScoreDto,
    pub medium: CertaintyScoreDto,
    pub high: CertaintyScoreDto,
}

/// One row of a requested certainty table.
#[derive(Clone, Copy, Debug, PartialEq, Eq, Structural)]
pub struct CertaintyScoreDto {
    pub correct: i16,
    pub incorrect: i16,
}

/// A rule broken by a certainty row.
#[derive(Clone, Copy, Debug, PartialEq, Eq, Structural)]
pub enum CertaintyScoreFailure {
    /// The reward for a correct answer is outside 0..=100.
    Correct,
    /// The penalty for an incorrect answer is outside -100..=0.
    Incorrect,
}

/// Which row of a certainty table.
#[derive(Clone, Copy, Debug, PartialEq, Eq, Structural)]
pub enum CertaintyRow {
    Low,
    Medium,
    High,
}

/// A rule broken by a request to create a quiz.
#[derive(Clone, Copy, Debug, PartialEq, Eq, Structural)]
pub enum CreateQuizFailure {
    /// The title does not have 1 to 100 characters.
    Title,
    /// The duration is outside 1..=240 minutes.
    AttemptDurationMinutes,
    /// The number of questions is outside 1..=100.
    QuestionCount,
    /// No bank is named.
    BankIds,
    /// A row of the certainty table breaks a rule.
    CertaintyConfig(CertaintyRow, CertaintyScoreFailure),
    /// The start time is before now.
    StartTimeInPast,
    /// The start time is not an RFC 3339 date and time.
    InvalidStartTimeFormat,
    /// A certainty quiz lacks its table.
    CertaintyConfigRequired,
    /// A traditional quiz has a table.
    CertaintyConfigNotAllowed,
}

/// Why the start time of a quiz is refused.
#[derive(Clone, Copy, Debug, PartialEq, Eq, Structural)]
pub enum StartTimeFailure {
    InPast,
    InvalidFormat,
}

/// Why the kind of a quiz does not fit its certainty table.
#[derive(Clone, Copy, Debug, PartialEq, Eq, Structural)]
pub enum QuizModeFailure {
    CertaintyConfigRequired,
    CertaintyConfigNotAllowed,
}

/// The rules a certainty row breaks.
pub open spec fn score_failures(s: CertaintyScoreDto) -> Seq<CertaintyScoreFailure> {
    let a = if 0 <= s.correct <= 100 {
        Seq::empty()
    } else {
        seq![CertaintyScoreFailure::Correct]
    };
    if -100 <= s.incorrect <= 0 {
        a
    } else {
        a.push(CertaintyScoreFailure::Incorrect)
    }
}

/// The rules a certainty table breaks, row by row.
pub open spec fn table_failures(t: CertaintyTableDto) -> Seq<(CertaintyRow, CertaintyScoreFailure)> {
    score_failures(t.low).map_values(|f| (CertaintyRow::Low, f)) + score_failures(t.medium).map_values(
        |f| (CertaintyRow::Medium, f),
    ) + score_failures(t.high).map_values(|f| (CertaintyRow::High, f))
}

/// The outcome of checking a start time at instant `now`.
pub open spec fn start_time_check(starts_at: Seq<char>, now: Timestamp) -> Result<(), StartTimeFailure> {
    match spec_rfc3339_micros(starts_at) {
        Some(t) => if t < now {
            Err(StartTimeFailure::InPast)
        } else {
            Ok(())
        },
        None => Err(StartTimeFailure::InvalidFormat),
    }
}

/// The outcome of checking that a quiz has a certainty table exactly when
/// it is a certainty quiz.
pub open spec fn mode_check(kind: QuizKind, has_config: bool) -> Result<(), QuizModeFailure> {
    match kind {
        QuizKind::Certainty => if has_config {
            Ok(())
        } else {
            Err(QuizModeFailure::CertaintyConfigRequired)
        },
        QuizKind::Traditional => if has_config {
            Err(QuizModeFailure::CertaintyConfigNotAllowed)
        } else {
            Ok(())
        },
    }
}

/// A quiz passes the mode check exactly when it has a certainty table if
/// and only if it is a certainty quiz.
pub proof fn lemma_mode_check_ok_iff(kind: QuizKind, has_config: bool)
    ensures
        mode_check(kind, has_config) is Ok <==> (kind == QuizKind::Certainty <==> has_config),
{
}

/// The outcome of the whole-request check: the start time first, then the
/// kind against the table.
pub open spec fn schema_check(dto: CreateQuizDto, now: Timestamp) -> Option<CreateQuizFailure> {
    match start_time_check(dto.starts_at@, now) {
        Err(StartTimeFailure::InPast) => Some(CreateQuizFailure::StartTimeInPast),
        Err(StartTimeFailure::InvalidFormat) => Some(CreateQuizFailure::InvalidStartTimeFormat),
        Ok(()) => match mode_check(dto.kind, dto.certainty_config is Some) {
            Err(QuizModeFailure::CertaintyConfigRequired) => Some(
                CreateQuizFailure::CertaintyConfigRequired,
            ),
            Err(QuizModeFailure::CertaintyConfigNotAllowed) => Some(
                CreateQuizFailure::CertaintyConfigNotAllowed,
            ),
            Ok(()) => None,
        },
    }
}

/// The field rules a request to create a quiz breaks, apart from its
/// certainty table.
pub open spec fn basic_failures(dto: CreateQuizDto) -> Seq<CreateQuizFailure> {
    let f0: Seq<CreateQuizFailure> = if 1 <= dto.title@.len() <= 100 {
        Seq::empty()
    } else {
        seq![CreateQuizFailure::Title]
    };
    let f1 = if 1 <= dto.attempt_duration_minutes <= 240 {
        f0
    } else {
        f0.push(CreateQuizFailure::AttemptDurationMinutes)
    };
    let f2 = if 1 <= dto.question_count <= 100 {
        f1
    } else {
        f1.push(CreateQuizFailure::QuestionCount)
    };
    if dto.bank_ids@.len() >= 1 {
        f2
    } else {
        f2.push(CreateQuizFailure::BankIds)
    }
}

/// The rules a requested certainty table breaks, if there is one.
pub open spec fn config_failures(config: Option<CertaintyTableDto>) -> Seq<CreateQuizFailure> {
    match config {
        Some(t) => table_failures(t).map_values(
            |p: (CertaintyRow, CertaintyScoreFailure)| CreateQuizFailure::CertaintyConfig(p.0, p.1),
        ),
        None => Seq::empty(),
    }
}

/// Every rule a request to create a quiz breaks at instant `now`, field by
/// field, then the whole-request rule.
pub open spec fn create_quiz_failures(dto: CreateQuizDto, now: Timestamp) -> Seq<CreateQuizFailure> {
    let f = basic_failures(dto) + config_failures(dto.certainty_config);
    match schema_check(dto, now) {
        Some(x) => f.push(x),
        None => f,
    }
}

impl CertaintyScoreDto {
    /// Checks the row: a reward in 0..=100 and a penalty in -100..=0.
    pub fn validate(&self) -> (r: Result<(), Vec<CertaintyScoreFailure>>)
        ensures
            r is Ok <==> score_failures(*self).len() == 0,
            r matches Err(v) ==> v@ == score_failures(*self),
    {
        let mut v: Vec<CertaintyScoreFailure> = Vec::new();
        if !(0 <= self.correct && self.correct <= 100) {
            v.push(CertaintyScoreFailure::Correct);
        }
        if !(-100 <= self.incorrect && self.incorrect <= 0) {
            v.push(CertaintyScoreFailure::Incorrect);
        }
        if v.len() == 0 {
            Ok(())
        } else {
            Err(v)
        }
    }
}

/// Appends the rules a row breaks, tagged with the row.
fn push_row_failures(v: &mut Vec<(CertaintyRow, CertaintyScoreFailure)>, row: CertaintyRow, s: &CertaintyScoreDto)
    ensures
        final(v)@ == old(v)@ + score_failures(*s).map_values(|f| (row, f)),
{
    let ghost start = v@;
    match s.validate() {
        Ok(()) => {
            assert(score_failures(*s).map_values(|f| (row, f)) =~= Seq::empty());
            assert(start + Seq::<(CertaintyRow, CertaintyScoreFailure)>::empty() =~= start);
        },
        Err(fs) => {
            let mut i: usize = 0;
            while i < fs.len()
                invariant
                    i <= fs@.len(),
                    fs@ == score_failures(*s),
                    v@ == start + fs@.take(i as int).map_values(|f| (row, f)),
                decreases fs@.len() - i,
            {
                v.push((row, fs[i]));
                proof {
                    assert(fs@.take(i as int + 1).map_values(|f| (row, f)) =~= fs@.take(
                        i as int,
                    ).map_values(|f| (row, f)).push((row, fs@[i as int])));
                }
                i = i + 1;
            }
            proof {
                assert(fs@.take(fs@.len() as int) == fs@);
            }
        },
    }
}

impl CertaintyTableDto {
    /// Checks each row of the table.
    pub fn validate(&self) -> (r: Result<(), Vec<(CertaintyRow, CertaintyScoreFailure)>>)
        ensures
            r is Ok <==> table_failures(*self).len() == 0,
            r matches Err(v) ==> v@ == table_failures(*self),
    {
        let mut v: Vec<(CertaintyRow, CertaintyScoreFailure)> = Vec::new();
        push_row_failures(&mut v, CertaintyRow::Low, &self.low);
        push_row_failures(&mut v, CertaintyRow::Medium, &self.medium);
        push_row_failures(&mut v, CertaintyRow::High, &self.high);
        assert(v@ =~= table_failures(*self));
        if v.len() == 0 {
            Ok(())
        } else {
            Err(v)
        }
    }
}

/// Checks a start time at instant `now`: it must be RFC 3339 and not
/// before `now`.
pub fn validate_start_time_at(start_time_utc: &str, now: Timestamp) -> (r: Result<(), StartTimeFailure>)
    ensures
        r == start_time_check(start_time_utc@, now),
{
    match parse_rfc3339_micros(start_time_utc) {
        Some(start_time) => {
            if start_time < now {
                return Err(StartTimeFailure::InPast);
            }
            Ok(())
        },
        None => Err(StartTimeFailure::InvalidFormat),
    }
}

/// Checks a start time at the current instant.
pub fn validate_start_time(start_time_utc: &str) -> (r: Result<(), StartTimeFailure>)
    ensures
        exists|now: Timestamp| valid_instant(now as int) && r == #[trigger] start_time_check(start_time_utc@, now),
        spec_rfc3339_micros(start_time_utc@) is None ==> r == Err::<(), StartTimeFailure>(
            StartTimeFailure::InvalidFormat,
        ),
{
    let now = now_micros();
    validate_start_time_at(start_time_utc, now)
}

/// Checks that a quiz has a certainty table exactly when it is a certainty
/// quiz.
pub fn validate_quiz_mode(dto: &CreateQuizDto) -> (r: Result<(), QuizModeFailure>)
    ensures
        r == mode_check(dto.kind, dto.certainty_config is Some),
{
    let has_certainty_config = dto.certainty_config.is_some();
    match dto.kind {
        QuizKind::Certainty => if has_certainty_config {
            Ok(())
        } else {
            Err(QuizModeFailure::CertaintyConfigRequired)
        },
        QuizKind::Traditional => if has_certainty_config {
            Err(QuizModeFailure::CertaintyConfigNotAllowed)
        } else {
            Ok(())
        },
    }
}

/// The whole-request check at instant `now`: the start time, then the kind
/// against the table.
pub fn validate_create_schema_at(dto: &CreateQuizDto, now: Timestamp) -> (r: Option<CreateQuizFailure>)
    ensures
        r == schema_check(*dto, now),
{
    match validate_start_time_at(dto.starts_at.as_str(), now) {
        Err(StartTimeFailure::InPast) => {
            return Some(CreateQuizFailure::StartTimeInPast);
        },
        Err(StartTimeFailure::InvalidFormat) => {
            return Some(CreateQuizFailure::InvalidStartTimeFormat);
        },
        Ok(()) => {},
    }
    match validate_quiz_mode(dto) {
        Err(QuizModeFailure::CertaintyConfigRequired) => Some(
            CreateQuizFailure::CertaintyConfigRequired,
        ),
        Err(QuizModeFailure::CertaintyConfigNotAllowed) => Some(
            CreateQuizFailure::CertaintyConfigNotAllowed,
        ),
        Ok(()) => None,
    }
}

/// The whole-request check at the current instant.
pub fn validate_create_schema(dto: &CreateQuizDto) -> (r: Option<CreateQuizFailure>)
    ensures
        exists|now: Timestamp| valid_instant(now as int) && r == #[trigger] schema_check(*dto, now),
{
    let now = now_micros();
    validate_create_schema_at(dto, now)
}

impl CreateQuizDto {
    /// Every rule the request breaks at instant `now`.
    pub fn validate_at(&self, now: Timestamp) -> (r: Result<(), Vec<CreateQuizFailure>>)
        ensures
            r is Ok <==> create_quiz_failures(*self, now).len() == 0,
            r matches Err(v) ==> v@ == create_quiz_failures(*self, now),
    {
        let mut v = basic_checks(self);
        push_config_failures(&mut v, &self.certainty_config);
        match validate_create_schema_at(self, now) {
            Some(f) => {
                v.push(f);
            },
            None => {},
        }
        if v.len() == 0 {
            Ok(())
        } else {
            Err(v)
        }
    }

    /// Every rule the request breaks at the current instant.
    pub fn validate(&self) -> (r: Result<(), Vec<CreateQuizFailure>>)
        ensures
            exists|now: Timestamp|
                valid_instant(now as int) && {
                    &&& (r is Ok <==> create_quiz_failures(*self, now).len() == 0)
                    &&& (r matches Err(v) ==> v@ == create_quiz_failures(*self, now))
                },
    {
        let now = now_micros();
        self.validate_at(now)
    }
}

/// The field rules a request breaks, apart from its certainty table.
fn basic_checks(dto: &CreateQuizDto) -> (v: Vec<CreateQuizFailure>)
    ensures
        v@ == basic_failures(*dto),
{
    let mut v: Vec<CreateQuizFailure> = Vec::new();
    let title_len = dto.title.as_str().unicode_len();
    if !(1 <= title_len && title_len <= 100) {
        v.push(CreateQuizFailure::Title);
    }
    if !(1 <= dto.attempt_duration_minutes && dto.attempt_duration_minutes <= 240) {
        v.push(CreateQuizFailure::AttemptDurationMinutes);
    }
    if !(1 <= dto.question_count && dto.question_count <= 100) {
        v.push(CreateQuizFailure::QuestionCount);
    }
    if dto.bank_ids.len() < 1 {
        v.push(CreateQuizFailure::BankIds);
    }
    assert(v@ =~= basic_failures(*dto));
    v
}

/// Appends the rules a requested certainty table breaks.
fn push_config_failures(v: &mut Vec<CreateQuizFailure>, config: &Option<CertaintyTableDto>)
    ensures
        final(v)@ == old(v)@ + config_failures(*config),
{
    let ghost start = v@;
    match config {
        None => {
            assert(start + Seq::<CreateQuizFailure>::empty() =~= start);
        },
        Some(t) => match t.validate() {
            Ok(()) => {
                assert(config_failures(*config) =~= Seq::empty());
                assert(start + Seq::<CreateQuizFailure>::empty() =~= start);
            },
            Err(fs) => {
                let mut i: usize = 0;
                while i < fs.len()
                    invariant
                        i <= fs@.len(),
                        v@ == start + fs@.take(i as int).map_values(
                            |p: (CertaintyRow, CertaintyScoreFailure)|
                                CreateQuizFailure::CertaintyConfig(p.0, p.1),
                        ),
                    decreases fs@.len() - i,
                {
                    let (row, f) = fs[i];
                    v.push(CreateQuizFailure::CertaintyConfig(row, f));
                    proof {
                        assert(fs@.take(i as int + 1).map_values(
                            |p: (CertaintyRow, CertaintyScoreFailure)|
                                CreateQuizFailure::CertaintyConfig(p.0, p.1),
                        ) =~= fs@.take(i as int).map_values(
                            |p: (CertaintyRow, CertaintyScoreFailure)|
                                CreateQuizFailure::CertaintyConfig(p.0, p.1),
                        ).push(CreateQuizFailure::CertaintyConfig(row, f)));
                    }
                    i = i + 1;
                }
                proof {
                    assert(fs@.take(fs@.len() as int) == fs@);
                }
            },
        },
    }
}

/// The table of a quiz made from a requested one, row by row.
pub open spec fn table_from_dto(value: CertaintyTableDto) -> CertaintyTable {
    CertaintyTable {
        low: CertaintyScore::from_dto_spec(value.low),
        medium: CertaintyScore::from_dto_spec(value.medium),
        high: CertaintyScore::from_dto_spec(value.high),
    }
}

/// Whether a row rewards a correct answer with 0 to 100 points and
/// penalises an incorrect one with 0 to 100 points.
pub open spec fn row_in_range(s: CertaintyScore) -> bool {
    0 <= s.correct <= 100 && -100 <= s.incorrect <= 0
}

/// Whether every row of a table is in range.
pub open spec fn table_in_range(t: CertaintyTable) -> bool {
    row_in_range(t.low) && row_in_range(t.medium) && row_in_range(t.high)
}

/// A requested table that breaks no rule gives a table whose rows are all
/// in range.
pub proof fn lemma_validated_table_in_range(dto: CertaintyTableDto)
    requires
        table_failures(dto).len() == 0,
    ensures
        table_in_range(table_from_dto(dto)),
{
    assert(score_failures(dto.low).len() == 0);
    assert(score_failures(dto.medium).len() == 0);
    assert(score_failures(dto.high).len() == 0);
}

impl CertaintyTable {
    /// The table of a quiz, from the requested one.
    pub fn from(value: CertaintyTableDto) -> (r: CertaintyTable)
        ensures
            r == table_from_dto(value),
    {
        CertaintyTable {
            low: CertaintyScore::from(value.low),
            medium: CertaintyScore::from(value.medium),
            high: CertaintyScore::from(value.high),
        }
    }
}

impl CertaintyScore {
    /// The row of a quiz's table, from a requested row.
    pub open spec fn from_dto_spec(value: CertaintyScoreDto) -> CertaintyScore {
        CertaintyScore { correct: value.correct, incorrect: value.incorrect }
    }

    /// The row of a quiz's table, from a requested row.
    pub fn from(value: CertaintyScoreDto) -> (r: CertaintyScore)
        ensures
            r == Self::from_dto_spec(value),
    {
        CertaintyScore { correct: value.correct, incorrect: value.incorrect }
    }
}

} // verus!
