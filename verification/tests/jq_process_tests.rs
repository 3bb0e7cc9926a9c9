use rq::cli_args::JqCliArgs;
use rq::jq_process::{jq_output_from_process, JqError, JqOutput, JqProcessBuilder};

fn builder(cli_flags: &str, filter: &str, started_at: u64) -> JqProcessBuilder {
    JqProcessBuilder {
        cli_flags: String::from(cli_flags),
        filter: String::from(filter),
        started_at,
    }
}

#[test]
fn build_tokenizes_flags_and_appends_the_filter() {
    let cmd = builder("--raw-output --arg name 'a b'", ".name", 9)
        .build()
        .expect("flags tokenize");
    assert_eq!(cmd.program, "jq");
    assert_eq!(cmd.started_at, 9);
    assert_eq!(cmd.args, vec!["--raw-output", "--arg", "name", "a b", ".name"]);
}

#[test]
fn an_empty_filter_defaults_to_identity() {
    let cmd = builder("", "", 1).build().expect("empty flags tokenize");
    assert_eq!(cmd.args, vec!["."]);
}

#[test]
fn an_unclosed_quote_is_rejected() {
    let err = builder("--arg x 'oops", ".", 2).build().unwrap_err();
    assert_eq!(err, JqError::InvalidFlags);
    assert_eq!(err.message(), "unable to split cli-flags for the shell");
}

#[test]
fn successful_runs_become_timestamped_output() {
    let out = jq_output_from_process(42, true, b"{}\n[1]".to_vec(), Vec::new())
        .expect("success with UTF-8 output");
    assert_eq!(out.instant(), 42);
    assert_eq!(out.scroll_view.content(), "{}\r\n[1]\r\n");
}

#[test]
fn failed_runs_keep_their_diagnostic() {
    let err = jq_output_from_process(1, false, Vec::new(), b"jq: error".to_vec()).unwrap_err();
    assert_eq!(err, JqError::Failed { stderr: String::from("jq: error") });
    assert_eq!(err.message(), "jq failed: jq: error");
}

#[test]
fn non_utf8_streams_are_a_distinct_failure() {
    let bad = vec![0xff, 0xfe, 0x00];
    let err = jq_output_from_process(1, true, bad.clone(), Vec::new()).unwrap_err();
    assert_eq!(err, JqError::NonUtf8);
    let err = jq_output_from_process(1, false, Vec::new(), bad).unwrap_err();
    assert_eq!(err, JqError::NonUtf8);
}

#[test]
fn empty_output_means_an_empty_pane() {
    let out = jq_output_from_process(3, true, Vec::new(), Vec::new()).unwrap();
    assert_eq!(out.scroll_view.content(), "");
    let empty = JqOutput::empty();
    assert_eq!(empty.instant(), 0);
    assert_eq!(empty.scroll_view.content(), "");
}

#[test]
fn chosen_flags_render_into_the_editable_string() {
    let none = JqCliArgs {
        compact_output: false,
        null_input: false,
        raw_input: false,
        raw_output: false,
        slurp: false,
    };
    assert_eq!(none.to_flags_string(), "");
    let some = JqCliArgs { compact_output: true, slurp: true, ..none };
    assert_eq!(some.to_flags_string(), "--compact-output --slurp ");
    let all = JqCliArgs {
        compact_output: true,
        null_input: true,
        raw_input: true,
        raw_output: true,
        slurp: true,
    };
    assert_eq!(
        all.to_flags_string(),
        "--compact-output --null-input --raw-input --raw-output --slurp "
    );
}

#[test]
fn every_error_renders_a_diagnostic() {
    let spawn = JqError::Spawn { message: String::from("no such program") };
    assert_eq!(spawn.message(), "unable to spawn jq: no such program");
    assert_eq!(
        JqError::NonUtf8.message(),
        "jq produced output that is not valid UTF-8"
    );
}

#[test]
fn the_rendered_flag_string_tokenizes_back_into_the_flags() {
    let args = JqCliArgs {
        compact_output: true,
        null_input: false,
        raw_input: false,
        raw_output: false,
        slurp: true,
    };
    let cmd = JqProcessBuilder {
        cli_flags: args.to_flags_string(),
        filter: String::new(),
        started_at: 4,
    }
    .build()
    .expect("rendered flags tokenize");
    assert_eq!(cmd.args, vec!["--compact-output", "--slurp", "."]);
}
