use buildsys::retry::{is_transient_failure, retry_decision, RetryDecision, DOCKER_BUILD_MAX_ATTEMPTS};

const FRONTEND: &str = "failed to solve with frontend dockerfile.v0: \
    failed to solve with frontend gateway.v0: frontend grpc server closed unexpectedly";

#[test]
fn transient_signatures_detected() {
    let frontend = "failed to solve with frontend dockerfile.v0: failed to solve with frontend gateway.v0: frontend grpc server closed unexpectedly";
    assert!(is_transient_failure(frontend));

    let dead_record = "failed to solve with frontend dockerfile.v0: failed to solve with frontend gateway.v0: rpc error: code = Unknown desc = failed to build LLB: failed to get dead record";
    assert!(is_transient_failure(dead_record));

    assert!(is_transient_failure("some output\nunexpected EOF\nmore output"));
    assert!(is_transient_failure("some output\nunexpected EOF"));

    let createrepo = "C_CREATEREPOLIB: Warning: read_header: rpmReadPackageFile() error";
    assert!(is_transient_failure(createrepo));
}

#[test]
fn non_transient_output_not_detected() {
    assert!(!is_transient_failure("error: compilation failed"));
    assert!(!is_transient_failure(""));
    // The connection-drop signature counts only at the end of a line.
    assert!(!is_transient_failure("unexpected EOF while reading header"));
}

#[test]
fn retry_on_transient() {
    // A mock builder whose first nine invocations exit nonzero with the
    // frontend crash on stdout and whose tenth succeeds: the driver must
    // invoke it exactly ten times and succeed overall.
    let output = format!("step 1/9\n{FRONTEND}\n");
    let mut invocations: u16 = 0;
    let mut attempt: u16 = 1;
    let outcome = loop {
        invocations += 1;
        let success = invocations == 10;
        let captured = if success { String::new() } else { output.clone() };
        match retry_decision(success, &captured, attempt, DOCKER_BUILD_MAX_ATTEMPTS) {
            RetryDecision::Retry => attempt += 1,
            other => break other,
        }
    };
    assert_eq!(outcome, RetryDecision::Succeeded);
    assert_eq!(invocations, 10);
}

#[test]
fn no_retry_after_last_attempt() {
    let output = format!("{FRONTEND}\n");
    assert_eq!(
        retry_decision(false, &output, DOCKER_BUILD_MAX_ATTEMPTS, DOCKER_BUILD_MAX_ATTEMPTS),
        RetryDecision::Failed
    );
}

#[test]
fn no_retry_on_other_failures() {
    assert_eq!(
        retry_decision(false, "error: recipe failed", 1, DOCKER_BUILD_MAX_ATTEMPTS),
        RetryDecision::Failed
    );
}

#[test]
fn success_ends_loop_without_scanning() {
    // The exit status is authoritative: a transient signature in the
    // output of a successful invocation does not matter.
    let output = format!("{FRONTEND}\n");
    assert_eq!(
        retry_decision(true, &output, 1, DOCKER_BUILD_MAX_ATTEMPTS),
        RetryDecision::Succeeded
    );
}
