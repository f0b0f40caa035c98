use rq_validator::load::{read_quest_config, LoadError};
use rq_validator::report::{check_quest_file, report, Failure, Stream};
use rq_validator::shape::{Key, ShapeError};
use rq_validator::validate::{validate_quest_config, ValidationError};

const PATH: &str = "rqst.toml";

fn run(text: &str) -> (u8, Stream, String) {
    let outcome = check_quest_file(PATH, Ok(text.to_string()));
    let r = report(&outcome);
    (r.exit_code, r.stream, r.line)
}

const HAPPY: &str = "title = \"T\"\nauthor = \"A\"\nrepo = \"r\"\n\n[[stages]]\nlabel = \"s1\"\ndescription = \"d1\"\n";

#[test]
fn happy_path_passes() {
    assert_eq!(run(HAPPY), (0, Stream::StandardOutput, "Validation passed.".to_string()));
}

#[test]
fn missing_file_is_reported_under_the_loading_context() {
    let outcome = check_quest_file(PATH, Err("No such file or directory (os error 2)".to_string()));
    assert!(matches!(outcome, Err(Failure::Load(LoadError::FileUnavailable { .. }))));
    let r = report(&outcome);
    assert_ne!(r.exit_code, 0);
    assert_eq!(r.stream, Stream::StandardError);
    assert_eq!(
        r.line,
        "Error loading quest config: Failed to read rqst.toml: No such file or directory (os error 2)"
    );
    let context = r.line.find("Error loading quest config").unwrap();
    let cause = r.line.find("Failed to read").unwrap();
    assert!(context < cause);
}

#[test]
fn whitespace_title_is_empty() {
    let text = "title = \"   \"\nauthor = \"A\"\nrepo = \"r\"\n[[stages]]\nlabel = \"x\"\ndescription = \"y\"\n";
    assert_eq!(
        run(text),
        (1, Stream::StandardError, "Validation Error: title cannot be empty.".to_string())
    );
}

#[test]
fn no_stages_is_reported() {
    let text = "title = \"T\"\nauthor = \"A\"\nrepo = \"r\"\nstages = []\n";
    assert_eq!(
        run(text),
        (
            1,
            Stream::StandardError,
            "Validation Error: at least one stage must be defined.".to_string()
        )
    );
}

#[test]
fn second_stage_with_empty_description() {
    let text = "title = \"T\"\nauthor = \"A\"\nrepo = \"r\"\n[[stages]]\nlabel = \"a\"\ndescription = \"ok\"\n[[stages]]\nlabel = \"b\"\ndescription = \"\"\n";
    assert_eq!(
        run(text),
        (
            1,
            Stream::StandardError,
            "Validation Error: stage 2 description cannot be empty.".to_string()
        )
    );
}

#[test]
fn optional_fields_present_and_valid() {
    let text = "title = \"T\"\nauthor = \"A\"\nrepo = \"r\"\nread-only = [\"README.md\", \"src/lib.rs\"]\n\n[[stages]]\nlabel = \"s1\"\ndescription = \"d1\"\n\n[final]\nscore = 3\nratio = 0.5\nwhen = 1979-05-27T07:32:00Z\n[final.nested]\nitems = [1, [true, \"x\"]]\n";
    assert_eq!(run(text), (0, Stream::StandardOutput, "Validation passed.".to_string()));
    let config = read_quest_config(PATH, Ok(text.to_string())).unwrap();
    assert_eq!(
        config.read_only,
        Some(vec!["README.md".to_string(), "src/lib.rs".to_string()])
    );
    assert!(config.final_section.is_some());
}

#[test]
fn optional_fields_do_not_change_the_verdict() {
    let bare = "title = \"T\"\nauthor = \" \"\nrepo = \"r\"\n[[stages]]\nlabel = \"a\"\ndescription = \"b\"\n";
    let full = "title = \"T\"\nauthor = \" \"\nrepo = \"r\"\nread-only = [\"\", \" \"]\nfinal = [[], 1]\n[[stages]]\nlabel = \"a\"\ndescription = \"b\"\n";
    let a = validate_quest_config(&read_quest_config(PATH, Ok(bare.to_string())).unwrap());
    let b = validate_quest_config(&read_quest_config(PATH, Ok(full.to_string())).unwrap());
    assert_eq!(a, Err(ValidationError::EmptyAuthor));
    assert_eq!(a, b);
}

#[test]
fn empty_file_lacks_the_title() {
    let outcome = check_quest_file(PATH, Ok(String::new()));
    assert!(matches!(
        outcome,
        Err(Failure::Load(LoadError::ShapeInvalid {
            fault: ShapeError::MissingKey { key: Key::Title },
            ..
        }))
    ));
    let r = report(&outcome);
    assert_eq!(r.exit_code, 1);
    assert_eq!(r.line, "Error loading quest config: missing field `title`");
}

#[test]
fn text_outside_the_grammar_is_a_syntax_error() {
    let outcome = check_quest_file(PATH, Ok("title = \n".to_string()));
    match &outcome {
        Err(Failure::Load(LoadError::SyntaxInvalid { path, cause })) => {
            assert_eq!(path, PATH);
            assert!(!cause.is_empty());
        }
        other => panic!("{:?}", other),
    }
    let r = report(&outcome);
    assert_eq!(r.exit_code, 1);
    assert_eq!(r.stream, Stream::StandardError);
    assert!(r.line.starts_with("Error loading quest config: Failed to parse rqst.toml: "));
}

#[test]
fn stage_without_label_is_a_shape_error() {
    let text = "title = \"T\"\nauthor = \"A\"\nrepo = \"r\"\n[[stages]]\nlabel = \"a\"\ndescription = \"b\"\n[[stages]]\ndescription = \"d\"\n";
    let outcome = check_quest_file(PATH, Ok(text.to_string()));
    assert!(matches!(
        outcome,
        Err(Failure::Load(LoadError::ShapeInvalid {
            fault: ShapeError::StageMissingKey { stage: 2, key: Key::Label },
            ..
        }))
    ));
    assert_eq!(
        report(&outcome).line,
        "Error loading quest config: stage 2: missing field `label`"
    );
}

#[test]
fn stage_without_description_is_a_shape_error() {
    let text = "title = \"T\"\nauthor = \"A\"\nrepo = \"r\"\n[[stages]]\nlabel = \"a\"\n";
    let outcome = check_quest_file(PATH, Ok(text.to_string()));
    assert!(matches!(
        outcome,
        Err(Failure::Load(LoadError::ShapeInvalid {
            fault: ShapeError::StageMissingKey { stage: 1, key: Key::Description },
            ..
        }))
    ));
}

#[test]
fn loading_comes_before_validation() {
    let text = "title = \"\"\nauthor = \"A\"\nrepo = \"r\"\n";
    let outcome = check_quest_file(PATH, Ok(text.to_string()));
    assert!(matches!(
        outcome,
        Err(Failure::Load(LoadError::ShapeInvalid {
            fault: ShapeError::MissingKey { key: Key::Stages },
            ..
        }))
    ));
}

#[test]
fn the_same_text_gives_the_same_report() {
    let text = "title = \"T\"\nauthor = \"A\"\nrepo = \"\\t\"\n[[stages]]\nlabel = \"a\"\ndescription = \"b\"\n";
    assert_eq!(run(text), run(text));
    assert_eq!(run(text).2, "Validation Error: repo cannot be empty.");
}
