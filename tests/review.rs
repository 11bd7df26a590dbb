use pr_review_bot::analysis::{
    commit_analysis_from_response, commit_analysis_of, commit_prompt, completion_content, parse_commit_analysis,
    review_from_response, review_prompt, review_text,
};
use pr_review_bot::event::{classify, is_review_action_exec, WebhookEvent};
use pr_review_bot::files::{files_to_review, parse_changed_files, ChangedFile};
use pr_review_bot::pipeline::{Review, Stage, Step};
use pr_review_bot::publish::{comment_body, comments_url, files_url, PublishOutcome, UpstreamError};
use pr_review_bot::text::{decimal, decimal_u64, same_text};

fn event(action: Option<&str>, number: Option<i64>, repo: Option<&str>) -> WebhookEvent {
    WebhookEvent {
        action: action.map(|s| s.to_string()),
        pr_number: number,
        repo: repo.map(|s| s.to_string()),
    }
}

fn changed(name: Option<&str>, patch: Option<&str>) -> ChangedFile {
    ChangedFile { filename: name.map(|s| s.to_string()), patch: patch.map(|s| s.to_string()) }
}

fn upstream() -> UpstreamError {
    UpstreamError { message: "connection refused".to_string() }
}

#[test]
fn opened_and_synchronize_are_classified() {
    let t = classify(&event(Some("opened"), Some(42), Some("acme/widgets"))).unwrap();
    assert_eq!(t.repo, "acme/widgets");
    assert_eq!(t.pr_number, 42);
    let t = classify(&event(Some("synchronize"), Some(7), Some("o/r"))).unwrap();
    assert_eq!(t.pr_number, 7);
    assert!(is_review_action_exec("opened"));
    assert!(!is_review_action_exec("open"));
}

#[test]
fn other_actions_are_ignored() {
    for a in ["closed", "edited", "reopened", "", "Opened"] {
        let e = event(Some(a), Some(1), Some("o/r"));
        assert!(classify(&e).is_none());
        let (review, step) = Review::begin(&e);
        assert!(review.is_none());
        assert!(matches!(step, Step::Done));
    }
    assert!(classify(&event(None, Some(1), Some("o/r"))).is_none());
}

#[test]
fn incomplete_deliveries_are_ignored() {
    let (review, step) = Review::begin(&event(Some("opened"), None, Some("o/r")));
    assert!(review.is_none());
    assert!(matches!(step, Step::Done));
    let (review, step) = Review::begin(&event(Some("opened"), Some(3), None));
    assert!(review.is_none());
    assert!(matches!(step, Step::Done));
}

#[test]
fn delivery_fields_are_read_from_json() {
    let e = WebhookEvent::parse(
        r#"{"action":"opened","pull_request":{"number":42},"repository":{"full_name":"acme/widgets"}}"#,
    );
    assert_eq!(e.action.as_deref(), Some("opened"));
    assert_eq!(e.pr_number, Some(42));
    assert_eq!(e.repo.as_deref(), Some("acme/widgets"));
    let e = WebhookEvent::parse(r#"{"action":3,"pull_request":{"number":"42"}}"#);
    assert!(e.action.is_none() && e.pr_number.is_none() && e.repo.is_none());
    let e = WebhookEvent::parse("not json");
    assert!(e.action.is_none() && e.pr_number.is_none() && e.repo.is_none());
}

#[test]
fn only_files_with_a_patch_are_reviewed() {
    let files = vec![
        changed(Some("a.rs"), Some("@@ -1 +1 @@")),
        changed(Some("logo.png"), None),
        changed(Some("b.rs"), Some("")),
        changed(None, Some("@@")),
        changed(Some("c.rs"), Some("+x")),
    ];
    let r = files_to_review(&files);
    assert_eq!(r.len(), 2);
    assert_eq!(r[0].filename, "a.rs");
    assert_eq!(r[0].patch, "@@ -1 +1 @@");
    assert_eq!(r[1].filename, "c.rs");
    assert_eq!(files_to_review(&vec![]).len(), 0);
}

#[test]
fn listing_is_read_leniently() {
    let files = parse_changed_files(r#"[{"filename":"a.rs","patch":"diff..."},{"filename":"b.bin"}]"#);
    assert_eq!(files.len(), 2);
    assert_eq!(files[0].filename.as_deref(), Some("a.rs"));
    assert_eq!(files[0].patch.as_deref(), Some("diff..."));
    assert!(files[1].patch.is_none());
    assert_eq!(parse_changed_files(r#"{"message":"Not Found"}"#).len(), 0);
    assert_eq!(parse_changed_files("oops").len(), 0);
}

#[test]
fn commit_analysis_splits_on_blank_lines() {
    let c = parse_commit_analysis("msg\n\ndoc\n\ntest");
    assert_eq!(c.commit_message, "msg");
    assert_eq!(c.docstrings, vec!["doc".to_string()]);
    assert_eq!(c.test_cases, vec!["test".to_string()]);
}

#[test]
fn commit_analysis_without_separator_is_all_message() {
    let c = parse_commit_analysis("just one line\nand another");
    assert_eq!(c.commit_message, "just one line\nand another");
    assert!(c.docstrings.is_empty());
    assert!(c.test_cases.is_empty());
    let c = parse_commit_analysis("");
    assert_eq!(c.commit_message, "");
}

#[test]
fn commit_analysis_edge_segments() {
    let c = parse_commit_analysis("a\n\nb");
    assert_eq!(c.commit_message, "a");
    assert_eq!(c.docstrings, vec!["b".to_string()]);
    assert!(c.test_cases.is_empty());
    let c = parse_commit_analysis("a\n\n\nb");
    assert_eq!(c.commit_message, "a");
    assert_eq!(c.docstrings, vec!["\nb".to_string()]);
    let c = parse_commit_analysis("m\n\n");
    assert_eq!(c.docstrings, vec!["".to_string()]);
    let c = parse_commit_analysis("m\n\nd\n\nt\n\nextra");
    assert_eq!(c.test_cases, vec!["t".to_string()]);
}

#[test]
fn commit_analysis_from_completion_body() {
    let c = commit_analysis_from_response(
        r#"{"choices":[{"message":{"content":"Fix parser\n\nDocs\n\nTests"}}]}"#,
    );
    assert_eq!(c.commit_message, "Fix parser");
    assert_eq!(c.docstrings, vec!["Docs".to_string()]);
    assert_eq!(c.test_cases, vec!["Tests".to_string()]);
    let c = commit_analysis_from_response("{}");
    assert_eq!(c.commit_message, "No AI feedback available.");
    assert!(c.docstrings.is_empty());
}

#[test]
fn review_without_content_is_placeholder() {
    assert_eq!(review_from_response("{}"), "No suggestions found.");
    assert_eq!(review_from_response(r#"{"choices":[]}"#), "No suggestions found.");
    assert_eq!(review_text(None), "No suggestions found.");
    assert_eq!(
        review_from_response(r#"{"choices":[{"message":{"content":"Looks fine"}}]}"#),
        "Looks fine"
    );
    assert_eq!(completion_content("nope"), None);
}

#[test]
fn prompts_are_built() {
    assert_eq!(
        review_prompt("a.rs", "+x"),
        "Review the following diff of `a.rs` for bugs, security issues and departures from best practices:\n\n+x"
    );
    let files = vec!["a.rs".to_string(), "b.rs".to_string()];
    assert_eq!(
        commit_prompt(&files),
        "Analyze the following changed files:\n\na.rs\nb.rs\n\n1. Generate a meaningful Git commit message.\n2. Generate missing docstrings.\n3. Suggest relevant test cases."
    );
}

#[test]
fn addresses_and_comment_text() {
    assert_eq!(files_url("acme/widgets", 42), "https://api.github.com/repos/acme/widgets/pulls/42/files");
    assert_eq!(comments_url("acme/widgets", 42), "https://api.github.com/repos/acme/widgets/issues/42/comments");
    assert_eq!(comments_url("o/r", -5), "https://api.github.com/repos/o/r/issues/-5/comments");
    assert_eq!(files_url("o/r", 0), "https://api.github.com/repos/o/r/pulls/0/files");
    assert_eq!(comment_body("a.rs", "ok"), "\u{1F50D} AI Code Review for `a.rs`:\nok");
    assert!(PublishOutcome { status: 201, body: String::new() }.is_created());
    assert!(!PublishOutcome { status: 404, body: String::new() }.is_created());
    assert!(same_text("ab", "ab"));
    assert!(!same_text("ab", "abc"));
}

fn start(listing: &str) -> (Review, Step) {
    let (review, step) = Review::begin(&event(Some("opened"), Some(42), Some("acme/widgets")));
    let mut review = review.unwrap();
    match step {
        Step::FetchFiles { url } => {
            assert_eq!(url, "https://api.github.com/repos/acme/widgets/pulls/42/files")
        }
        _ => panic!("expected a fetch"),
    }
    let step = review.on_listing_response(Ok(listing.to_string()));
    (review, step)
}

#[test]
fn end_to_end_single_file() {
    let e = WebhookEvent::parse(
        r#"{"action":"opened","pull_request":{"number":42},"repository":{"full_name":"acme/widgets"}}"#,
    );
    let (review, step) = Review::begin(&e);
    let mut review = review.unwrap();
    assert!(matches!(step, Step::FetchFiles { .. }));
    let step = review.on_listing_response(Ok(r#"[{"filename":"a.rs","patch":"diff..."}]"#.to_string()));
    match step {
        Step::Analyze { filename, prompt } => {
            assert_eq!(filename, "a.rs");
            assert_eq!(prompt, review_prompt("a.rs", "diff..."));
        }
        _ => panic!("expected an analysis"),
    }
    let step = review.on_completion_response(Ok(
        r#"{"choices":[{"message":{"content":"Check bounds."}}]}"#.to_string(),
    ));
    match step {
        Step::Publish { url, body } => {
            assert_eq!(url, "https://api.github.com/repos/acme/widgets/issues/42/comments");
            assert!(body.contains("a.rs"));
            assert!(body.contains("Check bounds."));
        }
        _ => panic!("expected a post"),
    }
    let step = review.on_published(Ok(PublishOutcome { status: 201, body: "{}".to_string() }));
    assert!(matches!(step, Step::Done));
    assert!(review.stage == Stage::Finished);
}

#[test]
fn one_analysis_and_post_per_patched_file() {
    let (mut review, mut step) = start(
        r#"[{"filename":"a.rs","patch":"1"},{"filename":"b.png"},{"filename":"c.rs","patch":"2"},{"filename":"d.rs","patch":""}]"#,
    );
    let mut analysed = Vec::new();
    let mut posted = 0;
    loop {
        step = match step {
            Step::Analyze { filename, .. } => {
                analysed.push(filename);
                review.on_review(Ok("fine".to_string()))
            }
            Step::Publish { .. } => {
                posted += 1;
                review.on_published(Ok(PublishOutcome { status: 201, body: String::new() }))
            }
            Step::Done => break,
            Step::FetchFiles { .. } => panic!("fetched twice"),
        };
    }
    assert_eq!(analysed, vec!["a.rs".to_string(), "c.rs".to_string()]);
    assert_eq!(posted, 2);
}

#[test]
fn non_array_listing_makes_no_calls() {
    let (review, step) = start(r#"{"message":"Bad credentials"}"#);
    assert!(matches!(step, Step::Done));
    assert!(review.stage == Stage::Finished);
    let (mut review, _) = Review::begin(&event(Some("opened"), Some(1), Some("o/r")));
    let step = review.as_mut().unwrap().on_listing_response(Err(upstream()));
    assert!(matches!(step, Step::Done));
}

#[test]
fn failed_post_does_not_stop_next_file() {
    let (mut review, step) = start(r#"[{"filename":"a.rs","patch":"1"},{"filename":"b.rs","patch":"2"}]"#);
    assert!(matches!(step, Step::Analyze { .. }));
    let step = review.on_review(Ok("x".to_string()));
    assert!(matches!(step, Step::Publish { .. }));
    let step = review.on_published(Err(upstream()));
    match step {
        Step::Analyze { filename, .. } => assert_eq!(filename, "b.rs"),
        _ => panic!("expected the next analysis"),
    }
    let step = review.on_review(Ok("y".to_string()));
    match step {
        Step::Publish { body, .. } => assert_eq!(body, "\u{1F50D} AI Code Review for `b.rs`:\ny"),
        _ => panic!("expected the next post"),
    }
}

#[test]
fn failed_analysis_skips_to_next_file() {
    let (mut review, _) = start(r#"[{"filename":"a.rs","patch":"1"},{"filename":"b.rs","patch":"2"}]"#);
    let step = review.on_completion_response(Err(upstream()));
    match step {
        Step::Analyze { filename, .. } => assert_eq!(filename, "b.rs"),
        _ => panic!("expected the next analysis"),
    }
    let step = review.on_completion_response(Err(upstream()));
    assert!(matches!(step, Step::Done));
}

#[test]
fn comment_keeps_template_prefix() {
    assert_eq!(comment_body("a.rs", "Looks fine"), "\u{1F50D} AI Code Review for `a.rs`:\nLooks fine");
    assert_eq!(
        comment_body("f.rs", &review_from_response("{}")),
        "\u{1F50D} AI Code Review for `f.rs`:\nNo suggestions found."
    );
}

#[test]
fn missing_content_post_uses_placeholder() {
    let (mut review, _) = start(r#"[{"filename":"f.rs","patch":"p"}]"#);
    match review.on_completion_response(Ok(r#"{"error":{}}"#.to_string())) {
        Step::Publish { body, .. } => {
            assert_eq!(body, "\u{1F50D} AI Code Review for `f.rs`:\nNo suggestions found.")
        }
        _ => panic!("expected a post"),
    }
}

#[test]
fn commit_analysis_of_missing_content_is_placeholder() {
    let c = commit_analysis_of(None);
    assert_eq!(c.commit_message, "No AI feedback available.");
    assert!(c.docstrings.is_empty() && c.test_cases.is_empty());
    let c = commit_analysis_of(Some("m\n\nd".to_string()));
    assert_eq!(c.commit_message, "m");
    assert_eq!(c.docstrings, vec!["d".to_string()]);
    let c = commit_analysis_from_response("not json at all");
    assert_eq!(c.commit_message, "No AI feedback available.");
    let c = commit_analysis_from_response(r#"{"choices":[]}"#);
    assert_eq!(c.commit_message, "No AI feedback available.");
}

#[test]
fn decimal_rendering() {
    assert_eq!(decimal(0), "0");
    assert_eq!(decimal(42), "42");
    assert_eq!(decimal(-7), "-7");
    assert_eq!(decimal(i64::MIN), "-9223372036854775808");
    assert_eq!(decimal(i64::MAX), "9223372036854775807");
    assert_eq!(decimal_u64(u64::MAX), "18446744073709551615");
    assert_eq!(decimal_u64(1000), "1000");
}

#[test]
fn long_listing_reads_every_entry() {
    let mut body = String::from("[");
    for i in 0..12 {
        if i > 0 {
            body.push(',');
        }
        body.push_str(&format!(r#"{{"filename":"f{}.rs","patch":"p{}"}}"#, i, i));
    }
    body.push(']');
    let files = parse_changed_files(&body);
    assert_eq!(files.len(), 12);
    assert_eq!(files[11].filename.as_deref(), Some("f11.rs"));
    assert_eq!(files[10].patch.as_deref(), Some("p10"));
    assert_eq!(files_to_review(&files).len(), 12);
}

#[test]
fn failed_posts_still_post_every_file() {
    let (mut review, mut step) = start(
        r#"[{"filename":"a.rs","patch":"1"},{"filename":"b.rs","patch":"2"},{"filename":"c.rs","patch":"3"}]"#,
    );
    let mut posts = 0;
    loop {
        step = match step {
            Step::Analyze { .. } => review.on_review(Ok("r".to_string())),
            Step::Publish { .. } => {
                posts += 1;
                review.on_published(Err(upstream()))
            }
            Step::Done => break,
            Step::FetchFiles { .. } => panic!("fetched twice"),
        };
    }
    assert_eq!(posts, 3);
}
