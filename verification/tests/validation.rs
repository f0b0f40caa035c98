use rq_validator::manifest::{QuestConfig, Stage};
use rq_validator::text::{char_is_white_space, is_blank};
use rq_validator::validate::{validate_quest_config, ValidationError};

fn stage(label: &str, description: &str) -> Stage {
    Stage { label: label.to_string(), description: description.to_string() }
}

fn manifest(title: &str, author: &str, repo: &str, stages: Vec<Stage>) -> QuestConfig {
    QuestConfig {
        title: title.to_string(),
        author: author.to_string(),
        repo: repo.to_string(),
        stages,
        read_only: None,
        final_section: None,
    }
}

#[test]
fn sound_manifest_passes() {
    let m = manifest("T", "A", "r", vec![stage("s1", "d1"), stage(" s2 ", "d2")]);
    assert_eq!(validate_quest_config(&m), Ok(()));
}

#[test]
fn first_broken_rule_is_reported() {
    let m = manifest("", "", "", vec![]);
    assert_eq!(validate_quest_config(&m), Err(ValidationError::EmptyTitle));
    let m = manifest("T", " ", "", vec![]);
    assert_eq!(validate_quest_config(&m), Err(ValidationError::EmptyAuthor));
    let m = manifest("T", "A", "\n", vec![]);
    assert_eq!(validate_quest_config(&m), Err(ValidationError::EmptyRepo));
    let m = manifest("T", "A", "r", vec![]);
    assert_eq!(validate_quest_config(&m), Err(ValidationError::NoStages));
    let m = manifest("T", "A", "r", vec![stage("a", "b"), stage("", ""), stage("", "x")]);
    assert_eq!(validate_quest_config(&m), Err(ValidationError::EmptyStageLabel { stage: 2 }));
    let m = manifest("T", "A", "r", vec![stage("a", "\t"), stage("", "x")]);
    assert_eq!(
        validate_quest_config(&m),
        Err(ValidationError::EmptyStageDescription { stage: 1 })
    );
}

#[test]
fn messages_are_exact() {
    assert_eq!(ValidationError::EmptyTitle.message(), "Validation Error: title cannot be empty.");
    assert_eq!(
        ValidationError::EmptyAuthor.message(),
        "Validation Error: author cannot be empty."
    );
    assert_eq!(ValidationError::EmptyRepo.message(), "Validation Error: repo cannot be empty.");
    assert_eq!(
        ValidationError::NoStages.message(),
        "Validation Error: at least one stage must be defined."
    );
    assert_eq!(
        ValidationError::EmptyStageLabel { stage: 1 }.message(),
        "Validation Error: stage 1 label cannot be empty."
    );
    assert_eq!(
        ValidationError::EmptyStageDescription { stage: 10 }.message(),
        "Validation Error: stage 10 description cannot be empty."
    );
    assert_eq!(
        ValidationError::EmptyStageLabel { stage: 1234567890 }.message(),
        "Validation Error: stage 1234567890 label cannot be empty."
    );
    assert_eq!(
        ValidationError::EmptyStageLabel { stage: usize::MAX }.message(),
        format!("Validation Error: stage {} label cannot be empty.", usize::MAX)
    );
}

#[test]
fn twelfth_stage_is_named_by_its_number() {
    let mut stages = Vec::new();
    for i in 0..11 {
        stages.push(stage(&format!("s{}", i), "d"));
    }
    stages.push(stage("   ", "d"));
    let m = manifest("T", "A", "r", stages);
    let e = validate_quest_config(&m).unwrap_err();
    assert_eq!(e, ValidationError::EmptyStageLabel { stage: 12 });
    assert_eq!(e.message(), "Validation Error: stage 12 label cannot be empty.");
}

#[test]
fn optional_keys_are_not_looked_at() {
    let mut m = manifest("T", "A", "r", vec![stage("a", "b")]);
    m.read_only = Some(vec![String::new(), "  ".to_string()]);
    assert_eq!(validate_quest_config(&m), Ok(()));
    let mut m = manifest("T", "A", "r", vec![stage("a", " ")]);
    m.read_only = Some(vec![]);
    assert_eq!(
        validate_quest_config(&m),
        Err(ValidationError::EmptyStageDescription { stage: 1 })
    );
}

#[test]
fn blank_strings() {
    assert!(is_blank(""));
    assert!(is_blank(" "));
    assert!(is_blank(" \t\r\n\u{000B}\u{000C}\u{0085}\u{00A0}\u{1680}\u{2003}\u{3000}"));
    assert!(!is_blank("a"));
    assert!(!is_blank("  a  "));
    assert!(!is_blank("\u{200B}"));
    assert!(!is_blank("\u{180E}"));
}

#[test]
fn blank_is_empty_after_trimming_for_every_character() {
    for n in 0..=0x10FFFFu32 {
        if let Some(c) = char::from_u32(n) {
            assert_eq!(char_is_white_space(c), c.is_whitespace(), "U+{:04X}", n);
            if n < 0x3100 {
                let s = format!(" {} ", c);
                assert_eq!(is_blank(&s), s.trim().is_empty(), "U+{:04X}", n);
            }
        }
    }
}

#[test]
fn decimal_numerals() {
    for (n, expected) in [(0usize, "n=0"), (7, "n=7"), (9, "n=9"), (10, "n=10"), (99, "n=99"), (100, "n=100"), (4096, "n=4096")] {
        let mut out = "n=".to_string();
        rq_validator::text::append_decimal(&mut out, n);
        assert_eq!(out, expected);
    }
}
