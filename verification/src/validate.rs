//! The content rules of a manifest.

use vstd::prelude::*;
use vstd::string::*;
use crate::sequence::{first_where, lemma_first_where, lemma_first_where_bounds};
use crate::manifest::{QuestConfig, QuestConfigView, StageView};
use crate::text::{append_decimal, blank, decimal, is_blank};

verus! {

/// The rule that a manifest breaks. Stages are counted from 1.
#[derive(Debug, Clone, Copy, PartialEq, Eq, Structural)]
pub enum ValidationError {
    EmptyTitle,
    EmptyAuthor,
    EmptyRepo,
    NoStages,
    EmptyStageLabel { stage: usize },
    EmptyStageDescription { stage: usize },
}

/// The line that reports a manifest without fault.
pub open spec fn passed_message() -> Seq<char> {
    "Validation passed."@
}

impl ValidationError {
    /// The line that reports this error.
    pub open spec fn message_spec(self) -> Seq<char> {
        match self {
            ValidationError::EmptyTitle => "Validation Error: title cannot be empty."@,
            ValidationError::EmptyAuthor => "Validation Error: author cannot be empty."@,
            ValidationError::EmptyRepo => "Validation Error: repo cannot be empty."@,
            ValidationError::NoStages => "Validation Error: at least one stage must be defined."@,
            ValidationError::EmptyStageLabel { stage } => "Validation Error: stage "@ + decimal(
                stage as nat,
            ) + " label cannot be empty."@,
            ValidationError::EmptyStageDescription { stage } => "Validation Error: stage "@
                + decimal(stage as nat) + " description cannot be empty."@,
        }
    }

    /// Renders the line that reports this error.
    pub fn message(&self) -> (r: String)
        ensures
            r@ == self.message_spec(),
    {
        match self {
            ValidationError::EmptyTitle => String::from_str(
                "Validation Error: title cannot be empty.",
            ),
            ValidationError::EmptyAuthor => String::from_str(
                "Validation Error: author cannot be empty.",
            ),
            ValidationError::EmptyRepo => String::from_str(
                "Validation Error: repo cannot be empty.",
            ),
            ValidationError::NoStages => String::from_str(
                "Validation Error: at least one stage must be defined.",
            ),
            ValidationError::EmptyStageLabel { stage } => {
                let mut r = String::from_str("Validation Error: stage ");
                append_decimal(&mut r, *stage);
                r.append(" label cannot be empty.");
                r
            },
            ValidationError::EmptyStageDescription { stage } => {
                let mut r = String::from_str("Validation Error: stage ");
                append_decimal(&mut r, *stage);
                r.append(" description cannot be empty.");
                r
            },
        }
    }
}

/// A stage is sound when neither its label nor its description is blank.
pub open spec fn stage_sound(s: StageView) -> bool {
    !blank(s.label) && !blank(s.description)
}

/// The index of the first stage that is not sound, or the number of stages
/// where all are.
pub open spec fn first_flawed_stage(stages: Seq<StageView>) -> int {
    first_where(stages, |s: StageView| !stage_sound(s))
}

/// The content rules: title, author and repo are not blank, there is a
/// stage, and every stage is sound.
pub open spec fn well_formed(m: QuestConfigView) -> bool {
    &&& !blank(m.title)
    &&& !blank(m.author)
    &&& !blank(m.repo)
    &&& m.stages.len() >= 1
    &&& forall|i: int| 0 <= i < m.stages.len() ==> stage_sound(#[trigger] m.stages[i])
}

/// The verdict on a manifest: the first rule that it breaks, in the order
/// title, author, repo, the presence of a stage, then stage by stage the
/// label and the description.
pub open spec fn verdict(m: QuestConfigView) -> Result<(), ValidationError> {
    if blank(m.title) {
        Err(ValidationError::EmptyTitle)
    } else if blank(m.author) {
        Err(ValidationError::EmptyAuthor)
    } else if blank(m.repo) {
        Err(ValidationError::EmptyRepo)
    } else if m.stages.len() == 0 {
        Err(ValidationError::NoStages)
    } else {
        let k = first_flawed_stage(m.stages);
        if k >= m.stages.len() {
            Ok(())
        } else if blank(m.stages[k].label) {
            Err(ValidationError::EmptyStageLabel { stage: (k + 1) as usize })
        } else {
            Err(ValidationError::EmptyStageDescription { stage: (k + 1) as usize })
        }
    }
}

/// Checks the content rules of a manifest and returns the first that it
/// breaks. The keys `read-only` and `final` are not looked at.
pub fn validate_quest_config(config: &QuestConfig) -> (r: Result<(), ValidationError>)
    ensures
        r == verdict(config@),
        r is Ok <==> well_formed(config@),
{
    proof {
        lemma_verdict_ok_iff_well_formed(config@);
    }
    if is_blank(config.title.as_str()) {
        return Err(ValidationError::EmptyTitle);
    }
    if is_blank(config.author.as_str()) {
        return Err(ValidationError::EmptyAuthor);
    }
    if is_blank(config.repo.as_str()) {
        return Err(ValidationError::EmptyRepo);
    }
    if config.stages.len() == 0 {
        return Err(ValidationError::NoStages);
    }
    let ghost stages = config@.stages;
    let ghost flawed = |s: StageView| !stage_sound(s);
    let n: usize = config.stages.len();
    let mut i: usize = 0;
    while i < n
        invariant
            n == config.stages.len(),
            stages == config@.stages,
            stages.len() == n,
            flawed == (|s: StageView| !stage_sound(s)),
            i <= n,
            forall|j: int| 0 <= j < i ==> !flawed(#[trigger] stages[j]),
            verdict(config@) is Ok <==> well_formed(config@),
            !blank(config@.title),
            !blank(config@.author),
            !blank(config@.repo),
        decreases n - i,
    {
        let stage = &config.stages[i];
        assert(stages[i as int] == stage@);
        if is_blank(stage.label.as_str()) {
            proof {
                lemma_first_where(stages, flawed, i as int);
            }
            return Err(ValidationError::EmptyStageLabel { stage: i + 1 });
        }
        if is_blank(stage.description.as_str()) {
            proof {
                lemma_first_where(stages, flawed, i as int);
            }
            return Err(ValidationError::EmptyStageDescription { stage: i + 1 });
        }
        i += 1;
    }
    proof {
        lemma_first_where(stages, flawed, n as int);
    }
    Ok(())
}

/// A manifest passes exactly when it meets the content rules.
pub proof fn lemma_verdict_ok_iff_well_formed(m: QuestConfigView)
    ensures
        verdict(m) is Ok <==> well_formed(m),
{
    let flawed = |s: StageView| !stage_sound(s);
    lemma_first_where_bounds(m.stages, flawed);
    let k = first_flawed_stage(m.stages);
    if k < m.stages.len() {
        assert(flawed(m.stages[k]));
    }
}

/// The number of checks that a manifest is held to: four of the document,
/// two of each stage.
pub open spec fn check_count(m: QuestConfigView) -> int {
    4 + 2 * (m.stages.len() as int)
}

/// Whether `m` passes the check of number `k`, counted from 0 in the order
/// in which the checks are made.
pub open spec fn check_holds(m: QuestConfigView, k: int) -> bool {
    if k == 0 {
        !blank(m.title)
    } else if k == 1 {
        !blank(m.author)
    } else if k == 2 {
        !blank(m.repo)
    } else if k == 3 {
        m.stages.len() > 0
    } else if (k - 4) % 2 == 0 {
        !blank(m.stages[(k - 4) / 2].label)
    } else {
        !blank(m.stages[(k - 4) / 2].description)
    }
}

/// The error that reports a failure of the check of number `k`.
pub open spec fn check_error(k: int) -> ValidationError {
    if k == 0 {
        ValidationError::EmptyTitle
    } else if k == 1 {
        ValidationError::EmptyAuthor
    } else if k == 2 {
        ValidationError::EmptyRepo
    } else if k == 3 {
        ValidationError::NoStages
    } else if (k - 4) % 2 == 0 {
        ValidationError::EmptyStageLabel { stage: ((k - 4) / 2 + 1) as usize }
    } else {
        ValidationError::EmptyStageDescription { stage: ((k - 4) / 2 + 1) as usize }
    }
}

/// A manifest that fails a check is reported with the error of the first
/// check that it fails.
pub proof fn lemma_first_failed_check_is_reported(m: QuestConfigView, k: int)
    requires
        0 <= k < check_count(m),
        !check_holds(m, k),
        forall|j: int| 0 <= j < k ==> check_holds(m, j),
    ensures
        verdict(m) == Err::<(), ValidationError>(check_error(k)),
{
    if k >= 4 {
        assert(check_holds(m, 0) && check_holds(m, 1) && check_holds(m, 2) && check_holds(m, 3));
        let i = (k - 4) / 2;
        let flawed = |s: StageView| !stage_sound(s);
        assert forall|j: int| 0 <= j < i implies !flawed(#[trigger] m.stages[j]) by {
            assert(check_holds(m, 4 + 2 * j));
            assert(check_holds(m, 5 + 2 * j));
        }
        if (k - 4) % 2 == 1 {
            assert(check_holds(m, k - 1));
        }
        lemma_first_where(m.stages, flawed, i);
    } else if k == 3 {
        assert(check_holds(m, 0) && check_holds(m, 1) && check_holds(m, 2));
    } else if k == 2 {
        assert(check_holds(m, 0) && check_holds(m, 1));
    } else if k == 1 {
        assert(check_holds(m, 0));
    }
}

/// A manifest passes exactly when it passes every check.
pub proof fn lemma_passes_iff_every_check_holds(m: QuestConfigView)
    ensures
        verdict(m) is Ok <==> (forall|k: int| 0 <= k < check_count(m) ==> check_holds(m, k)),
{
    lemma_verdict_ok_iff_well_formed(m);
    if forall|k: int| 0 <= k < check_count(m) ==> check_holds(m, k) {
        assert(check_holds(m, 0) && check_holds(m, 1) && check_holds(m, 2) && check_holds(m, 3));
        assert forall|i: int| 0 <= i < m.stages.len() implies stage_sound(
            #[trigger] m.stages[i],
        ) by {
            assert(check_holds(m, 4 + 2 * i));
            assert(check_holds(m, 5 + 2 * i));
        }
    }
    if well_formed(m) {
        assert forall|k: int| 0 <= k < check_count(m) implies check_holds(m, k) by {
            if k >= 4 {
                assert(stage_sound(m.stages[(k - 4) / 2]));
            }
        }
    }
}

/// The verdict depends on the title, the author, the repo and the stages
/// alone: whatever the keys `read-only` and `final` hold, and whether they
/// are there, it is the same.
pub proof fn lemma_verdict_ignores_optional_keys(a: QuestConfigView, b: QuestConfigView)
    requires
        a.title == b.title,
        a.author == b.author,
        a.repo == b.repo,
        a.stages == b.stages,
    ensures
        verdict(a) == verdict(b),
{
}

} // verus!
