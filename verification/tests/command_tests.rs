use postloop::command::command_result;
use postloop::command::plan_command;
use postloop::command::tokenize;
use postloop::command::RunOutcome;
use postloop::errors::PipelineError;

#[test]
fn tokenize_splits_on_whitespace() {
    assert_eq!(tokenize("echo test"), vec!["echo", "test"]);
    assert_eq!(tokenize("cargo build --release"), vec!["cargo", "build", "--release"]);
    assert_eq!(tokenize("  spaced \t out \n lines "), vec!["spaced", "out", "lines"]);
    assert_eq!(tokenize("single"), vec!["single"]);
    assert_eq!(tokenize(""), Vec::<String>::new());
    assert_eq!(tokenize(" \t \r\n "), Vec::<String>::new());
}

#[test]
fn tokenize_handles_multibyte_characters() {
    assert_eq!(tokenize("écho tëst"), vec!["écho", "tëst"]);
}

#[test]
fn tokenize_splits_on_unicode_whitespace() {
    // The separator set is Unicode White_Space, as str::split_whitespace
    // has it: vertical tab, form feed, next line, no-break space, em
    // space, ideographic space and the rest all separate tokens.
    assert_eq!(tokenize("a\u{000B}b\u{000C}c"), vec!["a", "b", "c"]);
    assert_eq!(tokenize("a\u{0085}b\u{00A0}c\u{2003}d"), vec!["a", "b", "c", "d"]);
    assert_eq!(tokenize("\u{2028}x\u{2029}"), vec!["x"]);
    assert_eq!(tokenize("\u{1680}\u{202F}\u{205F}\u{3000}"), Vec::<String>::new());
}

#[test]
fn plan_command_rejects_unicode_whitespace_lines() {
    assert_eq!(plan_command("\u{000B}"), Err(PipelineError::EmptyCommand));
    assert_eq!(
        plan_command("\u{000C}\u{0085}\u{00A0}\u{2000}\u{200A}\u{3000}"),
        Err(PipelineError::EmptyCommand)
    );
}

#[test]
fn plan_command_rejects_blank_lines() {
    assert_eq!(plan_command(""), Err(PipelineError::EmptyCommand));
    assert_eq!(plan_command("   \t "), Err(PipelineError::EmptyCommand));
    assert_eq!(plan_command("echo deployed"), Ok(vec!["echo".to_string(), "deployed".to_string()]));
}

#[test]
fn command_result_reads_the_outcome() {
    let ok = RunOutcome::Exited {
        success: true,
        stdout: "done\n".to_string(),
        stderr: String::new(),
    };
    assert_eq!(command_result(ok), Ok("done\n".to_string()));

    let failed = RunOutcome::Exited {
        success: false,
        stdout: String::new(),
        stderr: "boom".to_string(),
    };
    assert_eq!(command_result(failed), Err(PipelineError::NonZeroExit("boom".to_string())));

    let spawn = RunOutcome::SpawnFailed { message: "not found".to_string() };
    assert_eq!(command_result(spawn), Err(PipelineError::SpawnError("not found".to_string())));
}
