//! Authorization, the session key, ownership of runtime resources and trust in files.

use sotf_daemon::json::JsonValue;
use sotf_daemon::ownership::{
    audio_file_is_loadable, bind_next, coreaudiod_acl_targets, ownership_lock_paths,
    published_key_is_sound, refuse_key_file, refuse_runtime_directory, BindAction, BindPhase,
    BindReply, EntryFacts, RuntimeResource, MAX_USER_AUDIO_FILE_BYTES,
};
use sotf_daemon::security::{
    admit_peer, classify_peer, compare_transport, encryption_set_response,
    encryption_status_response, peer_allows_command, rotation_response, set_encryption,
    unsupported_rotation, KeyFingerprint, KeyManager, PeerClass, RotationError, TransportReport,
    TransportSync,
};

fn json(text: &str) -> JsonValue {
    JsonValue::parse(text).expect("valid JSON")
}

fn key(byte: u8, hex: &str) -> KeyFingerprint {
    KeyFingerprint {
        bytes: [byte; 8],
        hex: hex.to_string(),
    }
}

#[test]
fn test_classify_peer_owner_uid() {
    assert_eq!(classify_peer(1000, 1000), PeerClass::Owner);
}

#[test]
fn test_classify_peer_root_is_owner() {
    assert_eq!(classify_peer(0, 1000), PeerClass::Owner);
}

#[test]
fn test_classify_peer_coreaudiod_is_restricted() {
    assert_eq!(classify_peer(202, 1000), PeerClass::CoreAudioD);
}

#[test]
fn test_peer_allows_command_owner_everything() {
    for cmd in [
        "status",
        "load_plugins",
        "shutdown",
        "rotate_encryption_key",
        "set_device",
        "completely_unknown_command",
    ] {
        assert!(
            peer_allows_command(PeerClass::Owner, cmd),
            "Owner should be allowed to run '{}'",
            cmd
        );
    }
}

#[test]
fn test_peer_allows_command_coreaudiod_restricted() {
    for cmd in [
        "driver_status",
        "hal_status",
        "get_driver_config",
        "get_hal_config",
        "encryption_status",
        "get_snapshot",
        "snapshot",
        "status",
    ] {
        assert!(
            peer_allows_command(PeerClass::CoreAudioD, cmd),
            "CoreAudioD should be allowed to run '{}'",
            cmd
        );
    }
    for cmd in [
        "load_plugins",
        "shutdown",
        "rotate_encryption_key",
        "set_device",
        "set_sample_rate",
        "set_buffer_frames",
        "set_encryption",
        "get_output_profiles",
        "set_output_profile",
        "delete_output_profile",
        "assign_output_profile",
        "set_output_route",
        "unknown_command",
    ] {
        assert!(
            !peer_allows_command(PeerClass::CoreAudioD, cmd),
            "CoreAudioD should NOT be allowed to run '{}'",
            cmd
        );
    }
}

#[test]
fn test_classify_peer_unknown_uid_is_restricted() {
    assert_eq!(classify_peer(9999, 1000), PeerClass::CoreAudioD);
}

#[test]
fn test_key_manager_creation() {
    let manager = KeyManager::default();
    assert!(!manager.is_enabled());
    assert_eq!(manager.fingerprint().len(), 8);
    assert!(!manager.fingerprint_hex().is_empty());
}

#[test]
fn test_encryption_status() {
    let manager = KeyManager::default();
    let status = manager.status("/tmp/sotf-501/session.key");
    assert!(!status.enabled);
    assert_eq!(status.fingerprint, "0000000000000000");
    assert_eq!(status.key_path, "/tmp/sotf-501/session.key");
}

#[test]
fn test_key_manager_enable_disable() {
    let mut manager = KeyManager::default();
    assert!(!manager.is_enabled());

    manager.set_enabled(true);
    assert!(!manager.is_enabled());

    manager.set_enabled(false);
    assert!(!manager.is_enabled());
}

#[test]
fn key_manager_with_a_cipher_can_be_enabled() {
    let mut manager = KeyManager::with_key(key(7, "0707070707070707"));
    assert!(!manager.is_enabled());
    manager.set_enabled(true);
    assert!(manager.is_enabled());
}

#[test]
fn test_key_manager_stub_does_not_pretend_to_rotate() {
    let mut manager = KeyManager::default();
    let before = manager.fingerprint_hex();
    assert!(!manager.is_enabled());

    let error = manager
        .force_rotate(unsupported_rotation())
        .expect_err("stub rotation must fail");
    assert!(matches!(error, RotationError::Unsupported));
    assert_eq!(
        error.text(),
        "encryption key rotation requires the macOS HAL-enabled daemon build"
    );
    assert!(!manager.is_enabled());
    assert_eq!(manager.fingerprint_hex(), before);
    assert_eq!(before, "0000000000000000");
}

#[test]
fn rotation_takes_the_published_key_into_use() {
    let mut manager = KeyManager::with_key(key(1, "0101010101010101"));
    manager.force_rotate(Ok(key(2, "0202020202020202"))).unwrap();
    assert_eq!(manager.fingerprint_hex(), "0202020202020202");
    assert_eq!(manager.fingerprint(), &[2u8; 8]);
    let response = rotation_response(&manager, Ok(()), &TransportSync::Pending("later".to_string()));
    assert!(response.data.unwrap().matches(&json(
        r#"{"fingerprint":"0202020202020202","transport_state":"pending","transport_error":"later"}"#
    )));
    let failed = rotation_response(
        &manager,
        Err(RotationError::Failed("disk".to_string())),
        &TransportSync::Synced,
    );
    assert_eq!(failed.error.unwrap(), "Failed to rotate key: disk");
}

#[test]
fn handle_set_encryption_reports_build_capability() {
    let mut manager = KeyManager::default();
    let resp = set_encryption(&mut manager, true).expect("enabling is refused");
    assert!(!resp.success);
    assert!(resp
        .error
        .as_deref()
        .is_some_and(|error| error.contains("Encrypted realtime transport is unavailable")));

    assert!(set_encryption(&mut manager, false).is_none());
    let response = encryption_set_response(&manager, &TransportSync::NotApplicable);
    assert!(response.data.unwrap().matches(&json(
        r#"{"enabled":false,"fingerprint":"0000000000000000","transport_state":"not_applicable","transport_error":null}"#
    )));
}

#[test]
fn handle_encryption_status_reports_transport_state() {
    let manager = KeyManager::default();
    let status = manager.status("/tmp/key");
    let response = encryption_status_response(&status, &TransportSync::NotApplicable);
    assert!(response.success, "{response:?}");
    let data = response.data.expect("encryption status data");
    assert_eq!(
        data.member("transport_state").unwrap().as_text(),
        Some("not_applicable")
    );
    assert!(data
        .member("transport_error")
        .unwrap()
        .matches(&JsonValue::Null));
}

#[test]
fn transport_comparison_ignores_the_fingerprint_while_encryption_is_off() {
    let mut manager = KeyManager::with_key(key(3, "0303030303030303"));
    let other = || {
        Ok(TransportReport {
            encrypted: false,
            fingerprint: [9; 8],
        })
    };
    assert!(matches!(
        compare_transport(&manager, other()),
        TransportSync::Synced
    ));
    manager.set_enabled(true);
    assert!(matches!(
        compare_transport(&manager, other()),
        TransportSync::Mismatch
    ));
    let own = Ok(TransportReport {
        encrypted: true,
        fingerprint: [3; 8],
    });
    assert!(matches!(
        compare_transport(&manager, own),
        TransportSync::Synced
    ));
    assert!(matches!(
        compare_transport(&manager, Err("closed".to_string())),
        TransportSync::Unavailable(e) if e == "closed"
    ));
    let shown = encryption_status_response(&manager.status("k"), &TransportSync::Mismatch);
    assert_eq!(
        shown
            .data
            .unwrap()
            .member("transport_error")
            .unwrap()
            .as_text(),
        Some("shared-memory encryption state differs from daemon state")
    );
}

#[test]
fn test_coreaudiod_acl_targets_cover_key_and_parent_dir() {
    let key_path = "/Users/test/.config/sotf/session.key";
    let targets =
        coreaudiod_acl_targets(&Some("/Users/test/.config/sotf".to_string()), key_path);

    assert_eq!(targets.len(), 2);
    assert_eq!(targets[0].path, "/Users/test/.config/sotf");
    assert_eq!(targets[0].acl, "_coreaudiod allow search,readattr");
    assert_eq!(targets[1].path, key_path);
    assert_eq!(targets[1].acl, "_coreaudiod allow read,readattr");
    assert_eq!(coreaudiod_acl_targets(&None, key_path).len(), 1);
}

fn resource(parent: &str, file_name: &str) -> RuntimeResource {
    RuntimeResource {
        parent: parent.to_string(),
        file_name: file_name.to_string(),
    }
}

#[test]
fn ownership_locks_are_ordered_and_unique() {
    let paths = ownership_lock_paths(&vec![
        resource("/run/user", "session.key"),
        resource("/run/user", "audio.shm"),
        resource("/run/user", "session.key"),
        resource("/", "root.sock"),
    ])
    .unwrap();
    assert_eq!(
        paths,
        vec![
            "/root.sock.owner.lock",
            "/run/user/audio.shm.owner.lock",
            "/run/user/session.key.owner.lock",
        ]
    );
    assert_eq!(
        ownership_lock_paths(&vec![]).unwrap_err(),
        "daemon ownership requires at least one runtime resource"
    );
}

#[test]
fn shared_ownership_locks_keep_one_order() {
    let mine = ownership_lock_paths(&vec![resource("/b", "x"), resource("/a", "y")]).unwrap();
    let yours = ownership_lock_paths(&vec![
        resource("/a", "y"),
        resource("/c", "z"),
        resource("/b", "x"),
    ])
    .unwrap();
    assert_eq!(mine, vec!["/a/y.owner.lock", "/b/x.owner.lock"]);
    let place = |path: &str| yours.iter().position(|p| p == path).unwrap();
    assert!(place(&mine[0]) < place(&mine[1]));
}

#[test]
fn binding_removes_only_a_stale_socket() {
    let (phase, action) = bind_next(BindPhase::Binding, BindReply::AddrInUse, "/s");
    assert!(matches!(action, BindAction::Probe));
    let (_, live) = bind_next(phase, BindReply::Yes, "/s");
    assert!(
        matches!(live, BindAction::InUse(why) if why == "Another daemon instance is already running")
    );

    let (phase, action) = bind_next(phase, BindReply::No, "/s");
    assert!(matches!(action, BindAction::Inspect));
    let (_, foreign) = bind_next(phase, BindReply::No, "/s");
    assert!(
        matches!(foreign, BindAction::InUse(why) if why == "/s exists and is not a Unix socket; refusing to remove")
    );

    let (phase, action) = bind_next(phase, BindReply::Yes, "/s");
    assert!(matches!(action, BindAction::Remove));
    let (phase, action) = bind_next(phase, BindReply::Yes, "/s");
    assert!(matches!(action, BindAction::Bind));
    let (phase, action) = bind_next(phase, BindReply::AddrInUse, "/s");
    assert!(matches!(action, BindAction::Fail));
    assert_eq!(phase, BindPhase::Finished);

    assert!(matches!(
        bind_next(BindPhase::Binding, BindReply::Yes, "/s").1,
        BindAction::Bound
    ));
    assert!(matches!(
        bind_next(BindPhase::Binding, BindReply::Error, "/s").1,
        BindAction::Fail
    ));
}

#[test]
fn foreign_or_linked_files_are_not_trusted() {
    let sound = EntryFacts {
        is_symlink: false,
        is_dir: false,
        is_file: true,
        uid: 501,
        mode: 0o100600,
    };
    assert!(published_key_is_sound(&sound, 501));
    assert!(!published_key_is_sound(
        &EntryFacts {
            mode: 0o100644,
            ..sound
        },
        501
    ));
    assert!(!published_key_is_sound(&sound, 502));
    assert!(refuse_key_file(&sound, 501, "/k").is_none());
    assert_eq!(
        refuse_key_file(
            &EntryFacts {
                is_symlink: true,
                ..sound
            },
            501,
            "/k"
        )
        .unwrap(),
        "encryption key /k is not owned by this user"
    );

    let directory = EntryFacts {
        is_symlink: false,
        is_dir: true,
        is_file: false,
        uid: 501,
        mode: 0o40755,
    };
    assert!(refuse_runtime_directory(&directory, 501, "/r").is_none());
    assert_eq!(
        refuse_runtime_directory(&directory, 502, "/r").unwrap(),
        "runtime directory /r is owned by another user"
    );
    assert_eq!(
        refuse_runtime_directory(&sound, 501, "/r").unwrap(),
        "runtime path /r is not a directory"
    );
}

#[test]
fn test_user_load_path_enforces_local_regular_file_policy() {
    let own = EntryFacts {
        is_symlink: false,
        is_dir: false,
        is_file: true,
        uid: 501,
        mode: 0o100644,
    };
    assert!(audio_file_is_loadable(true, &own, 501, 7));
    assert!(!audio_file_is_loadable(false, &own, 501, 7));
    assert!(!audio_file_is_loadable(true, &own, 501, 0));
    assert!(audio_file_is_loadable(true, &own, 501, MAX_USER_AUDIO_FILE_BYTES));
    assert!(!audio_file_is_loadable(true, &own, 501, MAX_USER_AUDIO_FILE_BYTES + 1));
    assert!(!audio_file_is_loadable(true, &own, 502, 7));
    let link = EntryFacts { is_symlink: true, is_file: false, ..own };
    assert!(!audio_file_is_loadable(true, &link, 501, 7));
    let dir = EntryFacts { is_dir: true, is_file: false, ..own };
    assert!(!audio_file_is_loadable(true, &dir, 501, 7));
}

#[test]
fn only_the_user_root_and_the_audio_server_are_admitted() {
    assert_eq!(admit_peer(1000, 1000, false), Some(PeerClass::Owner));
    assert_eq!(admit_peer(0, 1000, false), Some(PeerClass::Owner));
    assert_eq!(admit_peer(202, 1000, false), None);
    assert_eq!(admit_peer(202, 1000, true), Some(PeerClass::CoreAudioD));
    assert_eq!(admit_peer(1001, 1000, true), None);
}
