use sandbox::ChildSandboxMethods;
use sandbox::Command;
use sandbox::ModelChildSandbox;
use sandbox::ModelProfile;
use sandbox::ModelSandbox;
use sandbox::SandboxError;
use sandbox::SandboxMethods;

#[test]
fn builder_accumulates_exactly() {
    let c = Command::new(b"/bin/true".to_vec()).unwrap();
    let c = c.arg(b"--flag".to_vec()).unwrap();
    let c = c.env(b"FOO".to_vec(), b"bar".to_vec()).unwrap();
    let req = c.spawn();
    assert_eq!(req.program_path, b"/bin/true".to_vec());
    assert_eq!(req.args, vec![b"--flag".to_vec()]);
    assert_eq!(req.env, vec![(b"FOO".to_vec(), b"bar".to_vec())]);
}

#[test]
fn builder_appends_arguments_in_call_order() {
    let c = Command::new(b"/bin/echo".to_vec()).unwrap();
    let c = c.arg(b"one".to_vec()).unwrap();
    let c = c.args(vec![b"two".to_vec(), b"three".to_vec()]).unwrap();
    let c = c.arg(b"four".to_vec()).unwrap();
    let req = c.spawn();
    assert_eq!(
        req.args,
        vec![
            b"one".to_vec(),
            b"two".to_vec(),
            b"three".to_vec(),
            b"four".to_vec(),
        ]
    );
}

#[test]
fn embedded_nul_in_path_rejected() {
    let r = Command::new(b"/bin/\0true".to_vec());
    assert!(matches!(r, Err(SandboxError::InvalidArgument)));
}

#[test]
fn embedded_nul_in_argument_rejected() {
    let c = Command::new(b"/bin/true".to_vec()).unwrap();
    let r = c.arg(b"--f\0lag".to_vec());
    assert!(matches!(r, Err(SandboxError::InvalidArgument)));
}

#[test]
fn embedded_nul_in_argument_list_rejected() {
    let c = Command::new(b"/bin/true".to_vec()).unwrap();
    let r = c.args(vec![b"ok".to_vec(), b"b\0ad".to_vec()]);
    assert!(matches!(r, Err(SandboxError::InvalidArgument)));
}

#[test]
fn embedded_nul_in_env_key_rejected() {
    let c = Command::new(b"/bin/true".to_vec()).unwrap();
    let r = c.env(b"K\0EY".to_vec(), b"v".to_vec());
    assert!(matches!(r, Err(SandboxError::InvalidArgument)));
}

#[test]
fn embedded_nul_in_env_value_rejected() {
    let c = Command::new(b"/bin/true".to_vec()).unwrap();
    let r = c.env(b"KEY".to_vec(), b"v\0".to_vec());
    assert!(matches!(r, Err(SandboxError::InvalidArgument)));
}

#[test]
fn env_last_write_wins() {
    let c = Command::new(b"/bin/true".to_vec()).unwrap();
    let c = c.env(b"K".to_vec(), b"a".to_vec()).unwrap();
    let c = c.env(b"K".to_vec(), b"b".to_vec()).unwrap();
    let req = c.spawn();
    assert_eq!(req.env, vec![(b"K".to_vec(), b"b".to_vec())]);
}

#[test]
fn env_keeps_distinct_keys_in_insertion_order() {
    let c = Command::new(b"/bin/true".to_vec()).unwrap();
    let c = c.env(b"A".to_vec(), b"1".to_vec()).unwrap();
    let c = c.env(b"B".to_vec(), b"2".to_vec()).unwrap();
    let c = c.env(b"A".to_vec(), b"3".to_vec()).unwrap();
    let req = c.spawn();
    assert_eq!(
        req.env,
        vec![
            (b"A".to_vec(), b"3".to_vec()),
            (b"B".to_vec(), b"2".to_vec()),
        ]
    );
}

#[test]
fn empty_byte_strings_are_valid() {
    let c = Command::new(b"/bin/true".to_vec()).unwrap();
    let c = c.arg(b"".to_vec()).unwrap();
    let c = c.args(Vec::new()).unwrap();
    let c = c.env(b"EMPTY".to_vec(), b"".to_vec()).unwrap();
    let req = c.spawn();
    assert_eq!(req.args, vec![b"".to_vec()]);
    assert_eq!(req.env, vec![(b"EMPTY".to_vec(), b"".to_vec())]);
}

#[test]
fn me_reports_failed_lookup() {
    let r = Command::me(None);
    assert!(matches!(r, Err(SandboxError::EnvironmentLookupFailed)));
}

#[test]
fn me_wraps_resolved_path() {
    let c = Command::me(Some(b"/proc/self/exe".to_vec())).unwrap();
    let req = c.spawn();
    assert_eq!(req.program_path, b"/proc/self/exe".to_vec());
    assert!(req.args.is_empty());
    assert!(req.env.is_empty());
}

#[test]
fn me_rejects_embedded_nul() {
    let r = Command::me(Some(b"/bad\0path".to_vec()));
    assert!(matches!(r, Err(SandboxError::InvalidArgument)));
}

#[test]
fn start_passes_command_through_exactly() {
    // An empty policy restricts nothing, so start succeeds and the spawned
    // request carries exactly FOO=bar and --flag: nothing inherited.
    let profile = ModelProfile::new(Vec::new());
    let sb = ModelSandbox::new(profile, 100);
    let c = Command::new(b"/bin/true".to_vec()).unwrap();
    let c = c.arg(b"--flag".to_vec()).unwrap();
    let c = c.env(b"FOO".to_vec(), b"bar".to_vec()).unwrap();
    let req = sb.start(c).unwrap();
    assert_eq!(req.program_path, b"/bin/true".to_vec());
    assert_eq!(req.args, vec![b"--flag".to_vec()]);
    assert_eq!(req.env, vec![(b"FOO".to_vec(), b"bar".to_vec())]);
    assert!(sb.profile().denied_operations().is_empty());
}

#[test]
fn independent_spawns_give_independent_handles() {
    let c1 = Command::new(b"/bin/true".to_vec())
        .unwrap()
        .env(b"FOO".to_vec(), b"bar".to_vec())
        .unwrap();
    let c2 = Command::new(b"/bin/true".to_vec())
        .unwrap()
        .env(b"FOO".to_vec(), b"bar".to_vec())
        .unwrap();
    let sb1 = ModelSandbox::new(ModelProfile::new(Vec::new()), 100);
    let sb2 = ModelSandbox::new(ModelProfile::new(Vec::new()), 100);
    let r1 = sb1.start(c1).unwrap();
    let r2 = sb2.start(c2).unwrap();
    assert_eq!(r1.program_path, r2.program_path);
    // Disposing of one handle leaves the other untouched.
    drop(r1);
    assert_eq!(r2.env, vec![(b"FOO".to_vec(), b"bar".to_vec())]);
}

#[test]
fn inexpressible_profile_refused_by_parent() {
    // Operation 200 is at or above the platform bound 100, so the parent
    // must refuse rather than spawn an unconfined process.
    let profile = ModelProfile::new(vec![200]);
    let sb = ModelSandbox::new(profile, 100);
    let c = Command::new(b"/bin/true".to_vec()).unwrap();
    let r = sb.start(c);
    match r {
        Err(SandboxError::RestrictionSetupFailed(m)) => assert!(!m.is_empty()),
        _ => panic!("expected RestrictionSetupFailed"),
    }
}

#[test]
fn inexpressible_profile_refused_by_child() {
    let profile = ModelProfile::new(vec![200]);
    let mut child = ModelChildSandbox::new(profile, 100);
    let r = child.activate();
    match r {
        Err(SandboxError::ActivationFailed(m)) => assert!(!m.is_empty()),
        _ => panic!("expected ActivationFailed"),
    }
    // The restrictions are not in effect after a failed activation: the
    // embedding must treat confinement as absent.
    assert!(child.check_operation(200));
}

#[test]
fn activation_denies_forbidden_operations() {
    let profile = ModelProfile::new(vec![7]);
    let mut child = ModelChildSandbox::new(profile, 100);
    // Before activation the forbidden operation still succeeds.
    assert!(child.check_operation(7));
    child.activate().unwrap();
    // From activation on it is denied, while others stay permitted.
    assert!(!child.check_operation(7));
    assert!(child.check_operation(8));
    // A second look later observes the same denial: nothing re-permits it,
    // and another activation cannot lift what is already in effect.
    assert!(!child.check_operation(7));
    child.activate().unwrap();
    assert!(!child.check_operation(7));
}

#[test]
fn error_messages_surface_diagnostics() {
    let e = SandboxError::SpawnFailed("no such file or directory".to_string());
    assert!(matches!(e, SandboxError::SpawnFailed(_)));
    assert_eq!(e.message(), "no such file or directory");
    assert_eq!(SandboxError::InvalidArgument.message(), "");
    assert_eq!(SandboxError::EnvironmentLookupFailed.message(), "");
}
