use tver_downloader::error::CoreError;
use tver_downloader::resolver::{after_exit, after_parse, resolver_args, spawn_failed, Episode, ResolveStep};

#[test]
fn failed_resolver_reports_stderr_verbatim() {
    match after_exit(false, "rate limited".to_string()) {
        ResolveStep::Fail(e) => {
            assert!(matches!(e, CoreError::ResolverProcessFailed(_)));
            assert_eq!(e.message(), "rate limited");
        }
        _ => panic!("expected a failure"),
    }
}

#[test]
fn successful_resolver_output_is_parsed() {
    assert!(matches!(after_exit(true, String::new()), ResolveStep::ParseOutput));
    let eps = vec![Episode { url: "u".to_string(), title: "t".to_string(), id: "1".to_string() }];
    let r = after_parse(Ok(eps)).ok().unwrap();
    assert_eq!(r.len(), 1);
    assert_eq!(r[0].id, "1");
}

#[test]
fn malformed_resolver_output_is_not_an_empty_list() {
    let e = after_parse(Err("expected value".to_string())).err().unwrap();
    assert!(matches!(e, CoreError::ResolverOutputMalformed(_)));
    assert_eq!(e.message(), "Failed to parse episodes: expected value");
}

#[test]
fn resolver_spawn_failure_message() {
    let e = spawn_failed("not found".to_string());
    assert_eq!(e.message(), "Failed to execute Python script: not found");
}

#[test]
fn resolver_arguments() {
    assert_eq!(resolver_args("s.py", "https://x/y"), vec!["s.py", "--fetch-episodes", "https://x/y"]);
}
