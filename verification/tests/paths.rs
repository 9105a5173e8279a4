//! Where files stand, and how the control socket is bound.

use sotf_daemon::output_profiles::{
    profiles_file_is_readable, refuse_profiles_file, MAX_PROFILES_FILE_BYTES,
};
use sotf_daemon::ownership::{
    bind_next, ownership_lock_paths, BindAction, BindPhase, BindReply, ClaimAction, ClaimFault,
    LockReply, OwnershipClaim, RuntimeResource,
};
use std::collections::BTreeSet;
use sotf_daemon::paths::{
    get_hal_key_path, get_key_path, get_secure_socket_path, get_socket_path, join_path,
    output_profiles_path, path_comes_before, systemwide_state_path, LEGACY_SOCKET_PATH,
};

fn some(text: &str) -> Option<String> {
    Some(text.to_string())
}

#[test]
fn test_socket_path_is_user_specific() {
    assert!(get_secure_socket_path(None, None, 501).contains("sotf"));
}

#[test]
fn test_socket_path_deterministic() {
    let path1 = get_secure_socket_path(None, None, 501);
    let path2 = get_secure_socket_path(None, None, 501);
    assert_eq!(path1, path2);
    assert_eq!(path1, "/tmp/sotf-501/daemon.sock");
}

#[test]
fn test_socket_path_under_tmpdir_or_contains_uid() {
    assert!(get_secure_socket_path(None, None, 42).contains("sotf-42"));
}

#[test]
fn test_socket_path_supports_lab_overrides() {
    assert_eq!(
        get_secure_socket_path(some("/tmp/sotf-lab/daemon.sock"), some("/tmp/ignored"), 42),
        "/tmp/sotf-lab/daemon.sock"
    );
    assert_eq!(
        get_secure_socket_path(None, some("/tmp/sotf-lab"), 42),
        "/tmp/sotf-lab/daemon.sock"
    );
}

#[test]
fn test_socket_path_explicit_override_is_absolute() {
    let explicit = get_secure_socket_path(some("/tmp/sotf-lab-override/daemon.sock"), None, 42);
    assert_eq!(explicit, "/tmp/sotf-lab-override/daemon.sock");
    assert!(explicit.starts_with('/'));
}

#[test]
fn test_hal_key_path_is_under_uid_tmpdir() {
    let path = get_hal_key_path(None, None, 501);
    assert!(path.contains("/tmp/sotf-501"));
    assert!(path.ends_with("/session.key"));
}

#[test]
fn test_session_key_paths_support_lab_runtime_overrides() {
    assert_eq!(
        get_key_path(None, some("/tmp/sotf-key-path-test"), some("/Users/example")).as_deref(),
        Some("/tmp/sotf-key-path-test/daemon-session.key")
    );
    assert_eq!(
        get_key_path(some("/tmp/private.key"), some("/tmp/ignored"), None).as_deref(),
        Some("/tmp/private.key")
    );
    assert_eq!(
        get_key_path(None, None, some("/Users/test")).as_deref(),
        Some("/Users/test/.config/sotf/session.key")
    );
    assert_eq!(get_key_path(None, None, None), None);
    assert_eq!(
        get_hal_key_path(None, some("/tmp/sotf-key-path-test"), 501),
        "/tmp/sotf-key-path-test/session.key"
    );
    assert_eq!(
        get_hal_key_path(some("/tmp/hal.key"), some("/tmp/ignored"), 501),
        "/tmp/hal.key"
    );
}

#[test]
fn legacy_socket_needs_an_explicit_request_alone() {
    assert_eq!(get_socket_path(None, None, true, 1), LEGACY_SOCKET_PATH);
    assert_eq!(get_socket_path(some(""), some(""), true, 1), "/tmp/autoeq_audio.sock");
    assert_eq!(get_socket_path(some("/s"), None, true, 1), "/s");
    assert_eq!(get_socket_path(None, some("/r"), true, 1), "/r/daemon.sock");
    assert_eq!(get_socket_path(None, None, false, 1), "/tmp/sotf-1/daemon.sock");
}

#[test]
fn state_files_stand_in_the_users_directory() {
    assert_eq!(
        systemwide_state_path(some("/x/state.json"), some("/y"), some("/z"), false).as_deref(),
        Some("/x/state.json")
    );
    assert_eq!(
        systemwide_state_path(some(""), some("/y"), some("/z"), false).as_deref(),
        Some("/y/sotf/systemwide-state.json")
    );
    assert_eq!(
        systemwide_state_path(None, None, some("/home/u"), false).as_deref(),
        Some("/home/u/.local/state/sotf/systemwide-state.json")
    );
    assert_eq!(
        systemwide_state_path(None, some("/y"), some("/Users/u"), true).as_deref(),
        Some("/Users/u/Library/Application Support/org.spinorama.sotf/systemwide-state.json")
    );
    assert_eq!(systemwide_state_path(None, None, None, false), None);
    assert_eq!(systemwide_state_path(None, some("/y"), None, true), None);
    assert_eq!(output_profiles_path("/y/sotf"), "/y/sotf/output-profiles.json");
}

#[test]
fn paths_join_and_sort_as_the_standard_library_does() {
    for (parent, name) in [("/a", "b"), ("/a/", "b"), ("", "b"), ("/", "b/c")] {
        assert_eq!(
            join_path(parent, name),
            std::path::Path::new(parent).join(name).to_str().unwrap()
        );
    }
    let paths = ["/a", "/a/b", "/a-b/c", "/a/b/c", "/ab", "/b", "/a-b"];
    for a in paths {
        for b in paths {
            assert_eq!(
                path_comes_before(a, b),
                std::path::Path::new(a) < std::path::Path::new(b),
                "{a} {b}"
            );
        }
    }
}

#[test]
fn locks_are_taken_in_path_order() {
    let resource = |parent: &str| RuntimeResource {
        parent: parent.to_string(),
        file_name: "daemon.sock".to_string(),
    };
    let locks = ownership_lock_paths(&vec![resource("/a-b"), resource("/a"), resource("/a-b")]);
    assert_eq!(
        locks.unwrap(),
        vec!["/a/daemon.sock.owner.lock", "/a-b/daemon.sock.owner.lock"]
    );
    assert_eq!(
        ownership_lock_paths(&vec![]).unwrap_err(),
        "daemon ownership requires at least one runtime resource"
    );
}

#[test]
fn profiles_reject_oversized_or_corrupt_files() {
    assert!(profiles_file_is_readable(true, MAX_PROFILES_FILE_BYTES));
    assert!(!profiles_file_is_readable(true, MAX_PROFILES_FILE_BYTES + 1));
    assert!(!profiles_file_is_readable(false, 10));
    assert!(refuse_profiles_file(MAX_PROFILES_FILE_BYTES).is_none());
    assert_eq!(
        refuse_profiles_file(MAX_PROFILES_FILE_BYTES + 1).as_deref(),
        Some("output profiles exceed the on-disk size limit")
    );
}

#[derive(Clone, Copy, PartialEq, Debug)]
enum Entry {
    Nothing,
    LiveSocket,
    StaleSocket,
    RegularFile,
    Symlink,
}

/// Binds a socket at a path where an entry stands; gives back the entry that is left, and why
/// binding failed.
fn bind(mut entry: Entry) -> (Entry, Result<(), String>) {
    let mut phase = BindPhase::Binding;
    let mut action = BindAction::Bind;
    loop {
        let reply = match action {
            BindAction::Bind if entry == Entry::Nothing => {
                entry = Entry::LiveSocket;
                BindReply::Yes
            }
            BindAction::Bind => BindReply::AddrInUse,
            BindAction::Probe if entry == Entry::LiveSocket => BindReply::Yes,
            BindAction::Probe => BindReply::No,
            BindAction::Inspect => match entry {
                Entry::LiveSocket | Entry::StaleSocket => BindReply::Yes,
                _ => BindReply::No,
            },
            BindAction::Remove => {
                entry = Entry::Nothing;
                BindReply::Yes
            }
            BindAction::Bound => return (entry, Ok(())),
            BindAction::InUse(why) => return (entry, Err(why)),
            BindAction::Fail => return (entry, Err("binding failed".to_string())),
        };
        (phase, action) = bind_next(phase, reply, "/run/daemon.sock");
    }
}

#[test]
fn bind_unix_socket_accepts_a_fresh_path_and_reports_socket_type() {
    assert_eq!(bind(Entry::Nothing), (Entry::LiveSocket, Ok(())));
}

#[test]
fn bind_unix_socket_rejects_a_live_daemon_without_unlinking_it() {
    let (left, outcome) = bind(Entry::LiveSocket);
    assert_eq!(left, Entry::LiveSocket);
    assert!(outcome.unwrap_err().contains("already running"));
}

#[test]
fn bind_unix_socket_rejects_regular_files_without_removing_them() {
    let (left, outcome) = bind(Entry::RegularFile);
    assert_eq!(left, Entry::RegularFile);
    assert!(outcome.unwrap_err().contains("not a Unix socket"));
}

#[test]
fn bind_unix_socket_rejects_symlinks_without_following_or_removing_them() {
    let (left, outcome) = bind(Entry::Symlink);
    assert_eq!(left, Entry::Symlink);
    assert!(outcome.unwrap_err().contains("not a Unix socket"));
}

#[test]
fn bind_unix_socket_reclaims_a_stale_socket_only() {
    assert_eq!(bind(Entry::StaleSocket), (Entry::LiveSocket, Ok(())));
}

/// Claims the resources of some paths, where others hold some locks. Gives back the locks that are
/// held afterwards.
fn claim(paths: &[&str], others: &BTreeSet<String>) -> Result<BTreeSet<String>, ClaimFault> {
    let resources: Vec<RuntimeResource> = paths
        .iter()
        .map(|path| {
            let (parent, name) = path.rsplit_once('/').expect("an absolute path");
            RuntimeResource {
                parent: parent.to_string(),
                file_name: name.to_string(),
            }
        })
        .collect();
    let (mut claim, mut action) = OwnershipClaim::begin(&resources).expect("some resources");
    let mut held = BTreeSet::new();
    loop {
        let reply = match action {
            ClaimAction::Take(path) if others.contains(&path) => {
                LockReply::Held("would block".to_string())
            }
            ClaimAction::Take(path) if path.contains("link") => {
                LockReply::NotOpened("too many symbolic links".to_string())
            }
            ClaimAction::Take(path) => {
                assert!(held.insert(path), "no lock is taken twice");
                LockReply::Taken
            }
            ClaimAction::Own => return Ok(held),
            ClaimAction::Refuse(fault, _) => {
                assert_eq!(claim.taken, 0);
                return Err(fault);
            }
        };
        action = claim.step(reply);
    }
}

#[test]
fn daemon_ownership_lock_rejects_overlapping_runtime_resources() {
    let none = BTreeSet::new();
    let first = claim(&["/r/a.sock", "/r/audio.shm", "/r/a.sock"], &none).expect("free resources");
    assert_eq!(first.len(), 2);
    assert_eq!(claim(&["/r/b.sock", "/r/audio.shm"], &first), Err(ClaimFault::InUse));
    assert!(claim(&["/r/b.sock", "/r/other.shm"], &first).is_ok());
    assert!(claim(&["/r/b.sock", "/r/audio.shm"], &none).is_ok());
    assert_eq!(
        OwnershipClaim::begin(&vec![]).err().as_deref(),
        Some("daemon ownership requires at least one runtime resource")
    );
}

#[test]
fn daemon_ownership_lock_rejects_a_symlink_lock_file() {
    assert_eq!(claim(&["/r/link.sock"], &BTreeSet::new()), Err(ClaimFault::Unusable));
}

#[test]
fn refused_claims_say_why() {
    let begin = || {
        let resource = RuntimeResource {
            parent: "/r".to_string(),
            file_name: "d".to_string(),
        };
        OwnershipClaim::begin(&vec![resource]).expect("a claim").0
    };
    let said = |reply: LockReply| match begin().step(reply) {
        ClaimAction::Refuse(fault, text) => (fault, text),
        other => panic!("unexpected {other:?}"),
    };
    assert_eq!(
        said(LockReply::NotOpened("no".to_string())),
        (ClaimFault::Unusable, "failed to open ownership lock /r/d.owner.lock: no".to_string())
    );
    assert_eq!(
        said(LockReply::NotRegular),
        (ClaimFault::Denied, "ownership lock /r/d.owner.lock is not a regular file".to_string())
    );
    assert_eq!(
        said(LockReply::Held("busy".to_string())),
        (
            ClaimFault::InUse,
            "another sotf-daemon instance owns runtime resource lock /r/d.owner.lock: busy".to_string()
        )
    );
    assert_eq!(
        said(LockReply::Failed("io".to_string())),
        (ClaimFault::Unusable, "io".to_string())
    );
}
