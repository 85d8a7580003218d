use ament_registration::registrar::cleanup_step_outcome;
use ament_registration::registrar::copy_step_verdict;
use ament_registration::registrar::marker_step_outcome;
use ament_registration::registrar::plan_registration;
use ament_registration::registrar::CopyVerdict;
use ament_registration::registrar::RegistrationError;
use ament_registration::registrar::RegistrationPlan;

#[test]
fn it_works() {}

fn planned() -> RegistrationPlan {
    plan_registration(Some("/ws"), Some("install"), "foo", "/pkgs/foo").unwrap()
}

#[test]
fn unset_env_is_a_noop() {
    assert!(plan_registration(None, None, "foo", "/pkgs/foo").is_none());
    assert!(plan_registration(None, Some("install"), "foo", "/pkgs/foo").is_none());
    assert!(plan_registration(Some("/ws"), None, "foo", "/pkgs/foo").is_none());
}

#[test]
fn empty_env_is_a_noop() {
    assert!(plan_registration(Some(""), Some("install"), "foo", "/pkgs/foo").is_none());
    assert!(plan_registration(Some("/ws"), Some(""), "foo", "/pkgs/foo").is_none());
    assert!(plan_registration(Some(""), Some(""), "foo", "/pkgs/foo").is_none());
}

#[test]
fn configured_env_plans_every_path() {
    let plan = planned();
    assert_eq!(plan.marker_dir, "/ws/install/share/ament_index/resource_index");
    assert_eq!(
        plan.marker_path,
        "/ws/install/share/ament_index/resource_index/foo"
    );
    assert_eq!(plan.manifest_src, "/pkgs/foo/package.xml");
    assert_eq!(plan.manifest_dest_dir, "/ws/install/foo");
    assert_eq!(plan.manifest_dest, "/ws/install/foo/package.xml");
}

#[test]
fn successful_run_completes() {
    let plan = planned();
    assert!(marker_step_outcome(&plan, Ok(())).is_ok());
    assert!(matches!(copy_step_verdict(Ok(())), CopyVerdict::Complete));
}

#[test]
fn marker_failure_aborts_with_the_marker_path() {
    let plan = planned();
    let outcome = marker_step_outcome(&plan, Err("permission denied".to_string()));
    match outcome {
        Err(RegistrationError::MarkerCreationFailed { path, cause }) => {
            assert_eq!(path, "/ws/install/share/ament_index/resource_index/foo");
            assert_eq!(cause, "permission denied");
        }
        other => panic!("expected a marker-creation failure, got {:?}", other),
    }
}

#[test]
fn copy_failure_demands_marker_removal() {
    let verdict = copy_step_verdict(Err("no such file".to_string()));
    match verdict {
        CopyVerdict::RemoveMarker { cause } => assert_eq!(cause, "no such file"),
        CopyVerdict::Complete => panic!("a failed copy must not complete the run"),
    }
}

#[test]
fn rolled_back_run_reports_the_copy_failure() {
    let plan = planned();
    let error = cleanup_step_outcome(&plan, "no such file".to_string(), Ok(()));
    match error {
        RegistrationError::ManifestCopyFailed { src, dest, cause } => {
            assert_eq!(src, "/pkgs/foo/package.xml");
            assert_eq!(dest, "/ws/install/foo/package.xml");
            assert_eq!(cause, "no such file");
        }
        other => panic!("expected a manifest-copy failure, got {:?}", other),
    }
}

#[test]
fn failed_cleanup_reports_the_inconsistent_state() {
    let plan = planned();
    let error = cleanup_step_outcome(
        &plan,
        "no such file".to_string(),
        Err("permission denied".to_string()),
    );
    match error {
        RegistrationError::CleanupFailed { path, cause } => {
            assert_eq!(path, "/ws/install/share/ament_index/resource_index/foo");
            assert_eq!(cause, "permission denied");
        }
        other => panic!("expected a cleanup failure, got {:?}", other),
    }
}

#[test]
fn plans_are_deterministic() {
    let first = planned();
    let second = planned();
    assert_eq!(first.marker_path, second.marker_path);
    assert_eq!(first.manifest_dest, second.manifest_dest);
    assert_eq!(first.manifest_src, second.manifest_src);
}

#[test]
fn marker_creation_message_names_path_and_cause() {
    let error = RegistrationError::MarkerCreationFailed {
        path: "/ws/install/share/ament_index/resource_index/foo".to_string(),
        cause: "permission denied".to_string(),
    };
    assert_eq!(
        error.message(),
        "could not create marker file at /ws/install/share/ament_index/resource_index/foo: \
         permission denied"
    );
}

#[test]
fn manifest_copy_message_names_both_paths_and_cause() {
    let error = RegistrationError::ManifestCopyFailed {
        src: "/pkgs/foo/package.xml".to_string(),
        dest: "/ws/install/foo/package.xml".to_string(),
        cause: "no such file".to_string(),
    };
    assert_eq!(
        error.message(),
        "could not copy manifest /pkgs/foo/package.xml to /ws/install/foo/package.xml: \
         no such file"
    );
}

#[test]
fn cleanup_message_names_the_marker_path_and_cause() {
    let error = RegistrationError::CleanupFailed {
        path: "/ws/install/share/ament_index/resource_index/foo".to_string(),
        cause: "permission denied".to_string(),
    };
    assert_eq!(
        error.message(),
        "could not remove marker file at /ws/install/share/ament_index/resource_index/foo \
         after a failed manifest copy: permission denied"
    );
}
