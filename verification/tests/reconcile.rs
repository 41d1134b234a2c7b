use scoop_manifest::manifest::{build, BuildArtifact, CargoToml, Manifest, PresentationOptions};
use scoop_manifest::paths::manifest_file_name;
use scoop_manifest::reconcile::{
    decide, plan, Action, Persisted, ReconcileError, Report, Status,
};

fn tool(version: &str, digest: &str) -> Manifest {
    let metadata = CargoToml {
        version: version.to_string(),
        name: "tool".to_string(),
        license: "MIT".to_string(),
    };
    let artifact = BuildArtifact::new("C:\\work\\target\\release\\tool.exe", digest);
    let options = PresentationOptions::new(
        "tool".to_string(),
        None,
        "tool.exe".to_string(),
        false,
    );
    build(&metadata, &artifact, &options)
}

#[test]
fn first_run_creates_the_manifest() {
    let fresh = tool("1.0.0", "abc123");
    assert_eq!(decide(&fresh, None), Action::Create);
    assert_eq!(manifest_file_name("tool"), "tool.json");
    assert_eq!(fresh.hash, "abc123");
    assert_eq!(fresh.license, "MIT");
    assert_eq!(Action::Create.exit_code(), 0);

    let mut status = Status::new();
    assert_eq!(status.check(&fresh, &Persisted::Missing), Ok(()));
    assert_eq!(status, Status { update: false, create: true });
    assert!(status.should_write(false));
    assert_eq!(status.report(false), Report::Created);
}

#[test]
fn second_run_on_the_same_artifact_writes_nothing() {
    let first = tool("1.0.0", "abc123");
    assert_eq!(decide(&first, None), Action::Create);
    let second = tool("1.0.0", "abc123");
    assert_eq!(decide(&second, Some(&first)), Action::NoOp);
    assert!(!Action::NoOp.writes());
    assert_eq!(Action::NoOp.exit_code(), 0);

    let mut status = Status::new();
    assert_eq!(status.check(&second, &Persisted::Found(first)), Ok(()));
    assert_eq!(status, Status { update: false, create: false });
    assert!(!status.should_write(false));
    assert_eq!(status.report(false), Report::Undetermined);
}

#[test]
fn new_version_with_new_digest_updates() {
    let persisted = tool("1.0.0", "abc123");
    let fresh = tool("1.0.1", "def456");
    assert_eq!(decide(&fresh, Some(&persisted)), Action::Update);
    assert!(Action::Update.writes());
    assert_eq!(Action::Update.exit_code(), 0);
    assert_eq!(fresh.hash, "def456");
    assert_eq!(fresh.version, "1.0.1");

    let mut status = Status::new();
    assert_eq!(status.check(&fresh, &Persisted::Found(persisted)), Ok(()));
    assert_eq!(status, Status { update: true, create: false });
    assert!(status.should_write(false));
    assert_eq!(status.report(false), Report::Updated);
}

#[test]
fn new_digest_under_the_old_version_conflicts() {
    let persisted = tool("1.0.0", "abc123");
    let fresh = tool("1.0.0", "def456");
    assert_eq!(decide(&fresh, Some(&persisted)), Action::Conflict);
    assert!(!Action::Conflict.writes());
    assert_ne!(Action::Conflict.exit_code(), 0);

    let mut status = Status::new();
    assert_eq!(
        status.check(&fresh, &Persisted::Found(persisted)),
        Err(ReconcileError::VersionNotBumped)
    );
    assert_eq!(status, Status { update: false, create: false });
    assert!(!status.should_write(false));
}

#[test]
fn equal_digest_is_no_op_whatever_else_differs() {
    let persisted = tool("1.0.0", "abc123");
    let metadata = CargoToml {
        version: "2.0.0".to_string(),
        name: "tool".to_string(),
        license: "Apache-2.0".to_string(),
    };
    let artifact = BuildArtifact::new("D:\\elsewhere\\tool.exe", "abc123");
    let options = PresentationOptions::new(
        "Tool".to_string(),
        Some("Tool.exe".to_string()),
        "tool.exe".to_string(),
        true,
    );
    let fresh = build(&metadata, &artifact, &options);
    assert_ne!(fresh, persisted);
    assert_eq!(decide(&fresh, Some(&persisted)), Action::NoOp);
}

#[test]
fn version_alone_does_not_call_for_a_write() {
    let persisted = tool("1.0.0", "abc123");
    let fresh = tool("1.0.1", "abc123");
    assert_eq!(decide(&fresh, Some(&persisted)), Action::NoOp);
}

#[test]
fn debugging_run_creates_whatever_is_persisted() {
    let persisted = tool("1.0.0", "abc123");
    let same = tool("1.0.0", "abc123");
    let conflicting = tool("1.0.0", "def456");
    assert_eq!(plan(&same, Some(&persisted), true), Action::Create);
    assert_eq!(plan(&conflicting, Some(&persisted), true), Action::Create);
    assert_eq!(plan(&same, None, true), Action::Create);
    assert_eq!(plan(&same, Some(&persisted), false), Action::NoOp);
    assert_eq!(plan(&conflicting, Some(&persisted), false), Action::Conflict);
    assert_eq!(plan(&same, None, false), Action::Create);
}

#[test]
fn new_status_has_no_flag_raised() {
    let status = Status::new();
    assert!(!status.update);
    assert!(!status.create);
}

#[test]
fn raised_flags_stay_raised() {
    let persisted = Persisted::Found(tool("1.0.0", "abc123"));
    let same = tool("1.0.0", "abc123");
    let newer = tool("1.0.1", "def456");
    let conflicting = tool("1.0.0", "def456");

    let mut status = Status { update: true, create: true };
    assert_eq!(status.check(&same, &persisted), Ok(()));
    assert_eq!(status, Status { update: true, create: true });

    let mut status = Status { update: false, create: true };
    assert_eq!(status.check(&newer, &persisted), Ok(()));
    assert_eq!(status, Status { update: true, create: true });

    let mut status = Status { update: true, create: false };
    assert_eq!(status.check(&same, &Persisted::Corrupt), Ok(()));
    assert_eq!(status, Status { update: true, create: true });

    let mut status = Status { update: true, create: false };
    assert_eq!(
        status.check(&conflicting, &persisted),
        Err(ReconcileError::VersionNotBumped)
    );
    assert_eq!(status, Status { update: true, create: false });
}

#[test]
fn file_that_is_no_manifest_is_written_anew() {
    let fresh = tool("1.0.0", "abc123");
    for persisted in [Persisted::Missing, Persisted::Unreadable, Persisted::Corrupt] {
        assert_eq!(persisted.manifest(), None);
        assert_eq!(decide(&fresh, persisted.manifest()), Action::Create);
        let mut status = Status::new();
        assert_eq!(status.check(&fresh, &persisted), Ok(()));
        assert_eq!(status, Status { update: false, create: true });
    }
}

#[test]
fn found_manifest_is_the_one_compared() {
    let persisted = Persisted::Found(tool("1.0.0", "abc123"));
    assert_eq!(persisted.manifest(), Some(&tool("1.0.0", "abc123")));
    assert_eq!(decide(&tool("1.0.1", "def456"), persisted.manifest()), Action::Update);
}

#[test]
fn report_names_update_before_create() {
    assert_eq!(Status { update: true, create: true }.report(false), Report::Updated);
    assert_eq!(Status { update: true, create: false }.report(true), Report::Updated);
    assert_eq!(Status { update: false, create: true }.report(true), Report::Created);
    assert_eq!(
        Status { update: false, create: false }.report(true),
        Report::CreatedForDebugging
    );
    assert_eq!(
        Status { update: false, create: false }.report(false),
        Report::Undetermined
    );
    assert!(Status { update: false, create: false }.should_write(true));
}

#[test]
fn conflict_message_asks_for_a_new_version() {
    assert_eq!(
        ReconcileError::VersionNotBumped.message(),
        "Unable to update manifest. Hashes don't match, yet, app's version wasn't changed. \
         \nPlease, update your app's version."
    );
}
