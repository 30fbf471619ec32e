use git_eq::Config;
use git_eq::Error;
use git_eq::LockWaitingRunner;
use git_eq::ScriptedClock;
use git_eq::ScriptedRunner;
use git_eq::any_uncommited_changes;
use git_eq::earthquake_procedure;
use git_eq::remote;
use git_eq::user_email;
use git_eq::wait_git_lock_released;

fn args(v: &[&str]) -> Vec<String> {
    v.iter().map(|s| s.to_string()).collect()
}

fn script(v: &[Result<&str, Error>]) -> Vec<Result<String, Error>> {
    v.iter().map(|r| r.map(|s| s.to_string())).collect()
}

#[test]
fn scenario_no_uncommitted_changes() {
    let mut runner = ScriptedRunner::new(script(&[
        Ok("main"),
        Ok("origin"),
        Ok("bob@x.com"),
        Ok(""),
    ]));
    let mut clock = ScriptedClock::new(Ok(1652438295));
    let r = earthquake_procedure(
        Config::new("Earthquake!!! This is an emergency commit".to_string()),
        &mut runner,
        &mut clock,
    );
    assert_eq!(r, Ok(()));
    assert_eq!(runner.recorded.len(), 6);
    assert!(runner.recorded[0].capture);
    assert_eq!(runner.recorded[0].args, args(&["branch", "--show-current"]));
    assert!(runner.recorded[1].capture);
    assert_eq!(
        runner.recorded[1].args,
        args(&["config", "--get", "branch.main.remote"])
    );
    assert!(runner.recorded[2].capture);
    assert_eq!(runner.recorded[2].args, args(&["config", "--get", "user.email"]));
    assert!(!runner.recorded[3].capture);
    assert_eq!(
        runner.recorded[3].args,
        args(&["checkout", "-b", "earthquake/main-bob@x.com-1652438295"])
    );
    assert!(runner.recorded[4].capture);
    assert_eq!(runner.recorded[4].args, args(&["status", "--porcelain"]));
    assert!(!runner.recorded[5].capture);
    assert_eq!(
        runner.recorded[5].args,
        args(&["push", "-u", "origin", "earthquake/main-bob@x.com-1652438295"])
    );
}

#[test]
fn scenario_with_uncommitted_changes() {
    let mut runner = ScriptedRunner::new(script(&[
        Ok("main"),
        Ok("origin"),
        Ok("bob@x.com"),
        Ok(" M src/lib.rs"),
    ]));
    let mut clock = ScriptedClock::new(Ok(1652438295));
    let r = earthquake_procedure(
        Config::new("Earthquake!!! This is an emergency commit".to_string()),
        &mut runner,
        &mut clock,
    );
    assert_eq!(r, Ok(()));
    assert_eq!(runner.recorded.len(), 8);
    assert!(!runner.recorded[5].capture);
    assert_eq!(runner.recorded[5].args, args(&["add", "--all"]));
    assert!(!runner.recorded[6].capture);
    assert_eq!(
        runner.recorded[6].args,
        args(&[
            "commit",
            "--no-gpg-sign",
            "--no-verify",
            "-m",
            "Earthquake!!! This is an emergency commit",
        ])
    );
    assert!(!runner.recorded[7].capture);
    assert_eq!(
        runner.recorded[7].args,
        args(&["push", "-u", "origin", "earthquake/main-bob@x.com-1652438295"])
    );
}

#[test]
fn scenario_custom_message_is_used() {
    let mut runner = ScriptedRunner::new(script(&[
        Ok("main"),
        Ok("origin"),
        Ok("bob@x.com"),
        Ok("?? notes.txt"),
    ]));
    let mut clock = ScriptedClock::new(Ok(7));
    let r = earthquake_procedure(Config::new("my own words".to_string()), &mut runner, &mut clock);
    assert_eq!(r, Ok(()));
    assert_eq!(
        runner.recorded[6].args,
        args(&["commit", "--no-gpg-sign", "--no-verify", "-m", "my own words"])
    );
}

#[test]
fn scenario_detached_state_embeds_empty_branch() {
    let mut runner = ScriptedRunner::new(script(&[
        Ok(""),
        Ok("origin"),
        Ok("bob@x.com"),
        Ok(""),
    ]));
    let mut clock = ScriptedClock::new(Ok(1652438295));
    let r = earthquake_procedure(Config::new("m".to_string()), &mut runner, &mut clock);
    assert_eq!(r, Ok(()));
    assert_eq!(
        runner.recorded[1].args,
        args(&["config", "--get", "branch..remote"])
    );
    assert_eq!(
        runner.recorded[3].args,
        args(&["checkout", "-b", "earthquake/-bob@x.com-1652438295"])
    );
}

#[test]
fn scenario_empty_identity_aborts_before_any_mutation() {
    let mut runner = ScriptedRunner::new(script(&[Ok("main"), Ok("origin"), Ok("")]));
    let mut clock = ScriptedClock::new(Ok(1652438295));
    let r = earthquake_procedure(Config::new("m".to_string()), &mut runner, &mut clock);
    assert_eq!(r, Err(Error::NoIdentityConfigured));
    assert_eq!(runner.recorded.len(), 3);
    assert!(runner.recorded.iter().all(|c| c.capture));
}

#[test]
fn scenario_empty_remote_aborts_before_any_mutation() {
    let mut runner = ScriptedRunner::new(script(&[Ok("main"), Ok("")]));
    let mut clock = ScriptedClock::new(Ok(1652438295));
    let r = earthquake_procedure(Config::new("m".to_string()), &mut runner, &mut clock);
    assert_eq!(r, Err(Error::NoRemoteConfigured));
    assert_eq!(runner.recorded.len(), 2);
    assert!(runner.recorded.iter().all(|c| c.capture));
}

#[test]
fn scenario_branch_query_failure_aborts_at_once() {
    let mut runner = ScriptedRunner::new(script(&[Err(Error::Process)]));
    let mut clock = ScriptedClock::new(Ok(1652438295));
    let r = earthquake_procedure(Config::new("m".to_string()), &mut runner, &mut clock);
    assert_eq!(r, Err(Error::Process));
    assert_eq!(runner.recorded.len(), 1);
}

#[test]
fn scenario_clock_error_aborts_before_any_mutation() {
    let mut runner = ScriptedRunner::new(script(&[Ok("main"), Ok("origin"), Ok("bob@x.com")]));
    let mut clock = ScriptedClock::new(Err(Error::Clock));
    let r = earthquake_procedure(Config::new("m".to_string()), &mut runner, &mut clock);
    assert_eq!(r, Err(Error::Clock));
    assert_eq!(runner.recorded.len(), 3);
    assert!(runner.recorded.iter().all(|c| c.capture));
}

#[test]
fn remote_query_maps_empty_output_to_error() {
    let mut runner = ScriptedRunner::new(script(&[Ok("")]));
    assert_eq!(
        remote(&mut runner, &"main".to_string()),
        Err(Error::NoRemoteConfigured)
    );
    let mut runner = ScriptedRunner::new(script(&[Ok("origin")]));
    assert_eq!(remote(&mut runner, &"main".to_string()), Ok("origin".to_string()));
}

#[test]
fn identity_query_maps_empty_output_to_error() {
    let mut runner = ScriptedRunner::new(script(&[Ok("")]));
    assert_eq!(user_email(&mut runner), Err(Error::NoIdentityConfigured));
    let mut runner = ScriptedRunner::new(script(&[Ok("bob@x.com")]));
    assert_eq!(user_email(&mut runner), Ok("bob@x.com".to_string()));
}

#[test]
fn status_query_reports_changes_exactly_on_nonempty_output() {
    let mut runner = ScriptedRunner::new(script(&[Ok("")]));
    assert_eq!(any_uncommited_changes(&mut runner), Ok(false));
    let mut runner = ScriptedRunner::new(script(&[Ok(" M a.txt")]));
    assert_eq!(any_uncommited_changes(&mut runner), Ok(true));
}

#[test]
fn exhausted_script_is_a_process_error() {
    let mut runner = ScriptedRunner::new(Vec::new());
    assert_eq!(user_email(&mut runner), Err(Error::Process));
}

#[test]
fn lock_wait_propagates_only_the_query_error() {
    let mut runner = ScriptedRunner::new(script(&[Err(Error::Process)]));
    assert_eq!(wait_git_lock_released(&mut runner).0, Err(Error::Process));
    assert_eq!(runner.recorded.len(), 1);
    assert!(runner.recorded[0].capture);
    assert_eq!(runner.recorded[0].args, args(&["rev-parse", "--show-toplevel"]));
}

#[test]
fn lock_wait_precedes_each_mutating_command() {
    let mut runner = LockWaitingRunner::new(ScriptedRunner::new(script(&[
        Ok("/nonexistent-earthquake-root"),
    ])));
    let r = git_eq::checkout(&mut runner, &"b".to_string());
    assert_eq!(r, Ok(()));
    assert_eq!(runner.inner.recorded.len(), 2);
    assert!(runner.inner.recorded[0].capture);
    assert_eq!(
        runner.inner.recorded[0].args,
        args(&["rev-parse", "--show-toplevel"])
    );
    assert!(!runner.inner.recorded[1].capture);
    assert_eq!(runner.inner.recorded[1].args, args(&["checkout", "-b", "b"]));
}

#[test]
fn failed_lock_wait_query_aborts_the_mutating_command() {
    let mut runner = LockWaitingRunner::new(ScriptedRunner::new(Vec::new()));
    let r = git_eq::procedure::add(&mut runner);
    assert_eq!(r, Err(Error::Process));
    assert_eq!(runner.inner.recorded.len(), 1);
    assert!(runner.inner.recorded[0].capture);
    assert_eq!(
        runner.inner.recorded[0].args,
        args(&["rev-parse", "--show-toplevel"])
    );
}

#[test]
fn config_keeps_its_message() {
    let c = Config::new("hold this".to_string());
    assert_eq!(c.commit_message, "hold this");
}

#[test]
fn lock_wait_succeeds_when_lock_file_is_absent() {
    let mut runner = ScriptedRunner::new(script(&[Ok("/nonexistent-earthquake-root")]));
    assert_eq!(wait_git_lock_released(&mut runner).0, Ok(()));
    assert_eq!(runner.recorded[0].args, args(&["rev-parse", "--show-toplevel"]));
}
