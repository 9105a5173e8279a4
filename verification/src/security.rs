//! Who may do what, and the state of the transport encryption.

use crate::json::{json_member, Json, JsonObject};
use crate::output_device::opt_text;
use crate::pipeline::{device_json, device_value};
use crate::response::{err_response, ok_response, Response};
use crate::text::{join2, same_text};
use vstd::prelude::*;

verus! {

/// Per-UID command authorization classes.
///
/// Most callers run as the daemon's own UID. The audio server process only needs status,
/// configuration and encryption visibility: it must not load plugin chains, change devices or shut
/// the daemon down. Root has the access of the owner.
#[derive(Debug, Clone, Copy, PartialEq, Eq, Structural)]
pub enum PeerClass {
    /// The daemon's own UID, or root: every command is allowed.
    Owner,
    /// The audio server: only commands of the driver protocol.
    CoreAudioD,
}

/// The class of a peer.
pub open spec fn peer_class(peer_uid: u32, daemon_uid: u32) -> PeerClass {
    if peer_uid == daemon_uid || peer_uid == 0 {
        PeerClass::Owner
    } else {
        PeerClass::CoreAudioD
    }
}

/// The class of an authenticated peer. Every UID but the daemon's own and root gets the most
/// restricted class.
pub fn classify_peer(peer_uid: u32, daemon_uid: u32) -> (r: PeerClass)
    ensures
        r == peer_class(peer_uid, daemon_uid),
{
    if peer_uid == daemon_uid || peer_uid == 0 {
        PeerClass::Owner
    } else {
        PeerClass::CoreAudioD
    }
}

/// The UID under which the audio server runs, where a system has one.
pub const AUDIO_SERVER_UID: u32 = 202;

/// Whether a peer may connect: the daemon's own user, root and, where the system has one, the audio
/// server.
pub open spec fn may_connect(peer_uid: u32, daemon_uid: u32, has_audio_server: bool) -> bool {
    ||| peer_uid == daemon_uid
    ||| peer_uid == 0
    ||| has_audio_server && peer_uid == AUDIO_SERVER_UID
}

/// The class with which a peer is admitted, where it may connect.
pub fn admit_peer(peer_uid: u32, daemon_uid: u32, has_audio_server: bool) -> (r: Option<PeerClass>)
    ensures
        r == if may_connect(peer_uid, daemon_uid, has_audio_server) {
            Some(peer_class(peer_uid, daemon_uid))
        } else {
            None
        },
{
    if peer_uid == daemon_uid || peer_uid == 0 || (has_audio_server && peer_uid == AUDIO_SERVER_UID) {
        Some(classify_peer(peer_uid, daemon_uid))
    } else {
        None
    }
}

/// Only the daemon's own user and root can connect, and the audio server of a system that has one,
/// which may then invoke the driver protocol and nothing more.
pub proof fn only_owners_and_the_audio_server_connect(
    peer_uid: u32,
    daemon_uid: u32,
    has_audio_server: bool,
    command: Seq<char>,
)
    requires
        may_connect(peer_uid, daemon_uid, has_audio_server),
    ensures
        !has_audio_server ==> peer_uid == daemon_uid || peer_uid == 0,
        peer_class(peer_uid, daemon_uid) == PeerClass::Owner <==> peer_uid == daemon_uid || peer_uid
            == 0,
        peer_class(peer_uid, daemon_uid) == PeerClass::CoreAudioD ==> peer_uid == AUDIO_SERVER_UID && (
        allows(peer_class(peer_uid, daemon_uid), command) ==> is_driver_protocol(command)),
{
}

/// Whether a command belongs to the driver protocol.
pub open spec fn is_driver_protocol(command: Seq<char>) -> bool {
    ||| command == "driver_status"@
    ||| command == "hal_status"@
    ||| command == "get_driver_config"@
    ||| command == "get_hal_config"@
    ||| command == "encryption_status"@
    ||| command == "get_snapshot"@
    ||| command == "snapshot"@
    ||| command == "status"@
}

/// Whether a peer of a class may invoke a command.
pub open spec fn allows(class: PeerClass, command: Seq<char>) -> bool {
    class == PeerClass::Owner || is_driver_protocol(command)
}

/// Whether a peer of a class may invoke a command. Where the class does not allow a command by
/// name, it is denied.
pub fn peer_allows_command(class: PeerClass, command_name: &str) -> (r: bool)
    ensures
        r == allows(class, command_name@),
{
    match class {
        PeerClass::Owner => true,
        PeerClass::CoreAudioD => same_text(command_name, "driver_status") || same_text(
            command_name,
            "hal_status",
        ) || same_text(command_name, "get_driver_config") || same_text(
            command_name,
            "get_hal_config",
        ) || same_text(command_name, "encryption_status") || same_text(command_name, "get_snapshot")
            || same_text(command_name, "snapshot") || same_text(command_name, "status"),
    }
}

/// Encryption status information.
#[derive(Debug)]
pub struct EncryptionStatus {
    /// Whether encryption is currently enabled.
    pub enabled: bool,
    /// Key fingerprint as hex string.
    pub fingerprint: String,
    /// Path to the key file.
    pub key_path: String,
}

impl Clone for EncryptionStatus {
    fn clone(&self) -> (r: EncryptionStatus)
        ensures
            r == *self,
    {
        EncryptionStatus {
            enabled: self.enabled,
            fingerprint: self.fingerprint.clone(),
            key_path: self.key_path.clone(),
        }
    }
}

/// The fingerprint of a session key, as bytes and as hex text.
#[derive(Debug)]
pub struct KeyFingerprint {
    pub bytes: [u8; 8],
    pub hex: String,
}

/// Why there is no new key.
#[derive(Debug)]
pub enum RotationError {
    /// The build has no key storage.
    Unsupported,
    /// The key could not be created or published.
    Failed(String),
}

/// What a rotation error says.
pub open spec fn rotation_complaint(error: RotationError) -> Seq<char> {
    match error {
        RotationError::Unsupported => "encryption key rotation requires the macOS HAL-enabled daemon build"@,
        RotationError::Failed(text) => text@,
    }
}

impl RotationError {
    /// What the error says.
    pub fn text(&self) -> (r: String)
        ensures
            r@ == rotation_complaint(*self),
    {
        match self {
            RotationError::Unsupported => {
                "encryption key rotation requires the macOS HAL-enabled daemon build".to_owned()
            },
            RotationError::Failed(text) => text.clone(),
        }
    }
}

/// The session key as far as the control plane sees it: its fingerprint, whether there is a cipher
/// for it, and whether encryption is on. Without a cipher encryption is never on.
#[derive(Debug)]
pub struct KeyManager {
    pub fingerprint: [u8; 8],
    pub hex: String,
    pub cipher: bool,
    pub enabled: bool,
}

/// What a `KeyManager` stands for.
#[verifier::ext_equal]
pub struct KeyModel {
    pub fingerprint: Seq<u8>,
    pub hex: Seq<char>,
    pub cipher: bool,
    pub enabled: bool,
}

impl View for KeyManager {
    type V = KeyModel;

    open spec fn view(&self) -> KeyModel {
        KeyModel {
            fingerprint: self.fingerprint@,
            hex: self.hex@,
            cipher: self.cipher,
            enabled: self.enabled,
        }
    }
}

impl KeyManager {
    /// Whether encryption is off where there is no cipher.
    pub open spec fn wf(&self) -> bool {
        self.enabled ==> self.cipher
    }

    /// A manager without a key.
    pub fn new() -> (r: KeyManager)
        ensures
            r.wf(),
            !r@.cipher && !r@.enabled,
            r@.hex == "0000000000000000"@,
            forall|i: int| 0 <= i < 8 ==> r@.fingerprint[i] == 0,
    {
        KeyManager {
            fingerprint: [0u8; 8],
            hex: "0000000000000000".to_owned(),
            cipher: false,
            enabled: false,
        }
    }

    /// A manager for a key that was loaded or created. Encryption starts out off.
    pub fn with_key(key: KeyFingerprint) -> (r: KeyManager)
        ensures
            r.wf(),
            r@ == (KeyModel {
                fingerprint: key.bytes@,
                hex: key.hex@,
                cipher: true,
                enabled: false,
            }),
    {
        KeyManager { fingerprint: key.bytes, hex: key.hex, cipher: true, enabled: false }
    }

    /// Takes a freshly published key into use, or keeps the old one where publishing failed.
    pub fn force_rotate(&mut self, published: Result<KeyFingerprint, RotationError>) -> (r: Result<
        (),
        RotationError,
    >)
        requires
            old(self).wf(),
        ensures
            final(self).wf(),
            match published {
                Ok(key) => r is Ok && final(self)@ == (KeyModel {
                    fingerprint: key.bytes@,
                    hex: key.hex@,
                    cipher: true,
                    enabled: old(self)@.enabled,
                }),
                Err(e) => r matches Err(error) && error == e && final(self)@ == old(self)@,
            },
    {
        match published {
            Ok(key) => {
                self.fingerprint = key.bytes;
                self.hex = key.hex;
                self.cipher = true;
                Ok(())
            },
            Err(error) => Err(error),
        }
    }

    /// The fingerprint of the key.
    pub fn fingerprint(&self) -> (r: &[u8; 8])
        ensures
            r@ == self@.fingerprint,
    {
        &self.fingerprint
    }

    /// The fingerprint of the key as hex text.
    pub fn fingerprint_hex(&self) -> (r: String)
        ensures
            r@ == self@.hex,
    {
        self.hex.clone()
    }

    /// Whether encryption is on.
    pub fn is_enabled(&self) -> (r: bool)
        ensures
            r == self@.enabled,
    {
        self.enabled
    }

    /// Turns encryption on or off. Without a cipher it stays off.
    pub fn set_enabled(&mut self, enabled: bool)
        requires
            old(self).wf(),
        ensures
            final(self).wf(),
            final(self)@ == (KeyModel { enabled: enabled && old(self)@.cipher, ..old(self)@ }),
    {
        self.enabled = enabled && self.cipher;
    }

    /// The status, with the path of the key copy that the driver reads.
    pub fn status(&self, hal_key_path: &str) -> (r: EncryptionStatus)
        ensures
            r.enabled == self@.enabled,
            r.fingerprint@ == self@.hex,
            r.key_path@ == hal_key_path@,
    {
        EncryptionStatus {
            enabled: self.enabled,
            fingerprint: self.hex.clone(),
            key_path: hal_key_path.to_owned(),
        }
    }
}

/// What a build without key storage gives for a new key.
pub fn unsupported_rotation() -> (r: Result<KeyFingerprint, RotationError>)
    ensures
        r matches Err(e) && e is Unsupported,
{
    Err(RotationError::Unsupported)
}

impl Default for KeyManager {
    fn default() -> (r: KeyManager)
        ensures
            r.wf(),
            !r@.cipher && !r@.enabled,
            r@.hex == "0000000000000000"@,
            forall|i: int| 0 <= i < 8 ==> r@.fingerprint[i] == 0,
    {
        KeyManager::new()
    }
}

/// How the transport relates to the encryption state of the daemon.
#[derive(Debug)]
pub enum TransportSync {
    /// The platform has no encrypted transport.
    NotApplicable,
    /// The transport has the state of the daemon.
    Synced,
    /// The transport gets the state when it is next available.
    Pending(String),
    /// The transport has another state.
    Mismatch,
    /// The transport cannot be looked at.
    Unavailable(String),
}

/// The name of a transport state.
pub open spec fn sync_state(sync: TransportSync) -> Seq<char> {
    match sync {
        TransportSync::NotApplicable => "not_applicable"@,
        TransportSync::Synced => "synced"@,
        TransportSync::Pending(_) => "pending"@,
        TransportSync::Mismatch => "mismatch"@,
        TransportSync::Unavailable(_) => "unavailable"@,
    }
}

/// What is wrong with a transport, if anything is.
pub open spec fn sync_error(sync: TransportSync) -> Option<Seq<char>> {
    match sync {
        TransportSync::Pending(e) => Some(e@),
        TransportSync::Mismatch => Some(
            "shared-memory encryption state differs from daemon state"@,
        ),
        TransportSync::Unavailable(e) => Some(e@),
        _ => None,
    }
}

impl TransportSync {
    fn state(&self) -> (r: &'static str)
        ensures
            r@ == sync_state(*self),
    {
        match self {
            TransportSync::NotApplicable => "not_applicable",
            TransportSync::Synced => "synced",
            TransportSync::Pending(_) => "pending",
            TransportSync::Mismatch => "mismatch",
            TransportSync::Unavailable(_) => "unavailable",
        }
    }

    fn error(&self) -> (r: Option<String>)
        ensures
            opt_text(r) == sync_error(*self),
    {
        match self {
            TransportSync::Pending(error) => Some(error.clone()),
            TransportSync::Mismatch => Some(
                "shared-memory encryption state differs from daemon state".to_owned(),
            ),
            TransportSync::Unavailable(error) => Some(error.clone()),
            _ => None,
        }
    }
}

/// What the transport says of its encryption.
#[derive(Debug)]
pub struct TransportReport {
    pub encrypted: bool,
    pub fingerprint: [u8; 8],
}

fn same_fingerprint(a: &[u8; 8], b: &[u8; 8]) -> (r: bool)
    ensures
        r == (a@ == b@),
{
    let mut i: usize = 0;
    while i < 8
        invariant
            i <= 8,
            forall|k: int| 0 <= k < i ==> a@[k] == b@[k],
        decreases 8 - i,
    {
        if a[i] != b[i] {
            proof {
                assert(a@[i as int] != b@[i as int]);
            }
            return false;
        }
        i = i + 1;
    }
    proof {
        assert(a@ =~= b@);
    }
    true
}

/// Whether a transport has the encryption state of the daemon. The fingerprint counts only while
/// encryption is on.
pub open spec fn transport_agrees(key: KeyModel, encrypted: bool, fingerprint: Seq<u8>) -> bool {
    encrypted == key.enabled && (key.enabled ==> fingerprint == key.fingerprint)
}

/// How the transport relates to the encryption state of the daemon, from what it reports.
pub fn compare_transport(manager: &KeyManager, report: Result<TransportReport, String>) -> (r: TransportSync)
    ensures
        match report {
            Err(e) => r matches TransportSync::Unavailable(text) && text@ == e@,
            Ok(t) => r == if transport_agrees(manager@, t.encrypted, t.fingerprint@) {
                TransportSync::Synced
            } else {
                TransportSync::Mismatch
            },
        },
{
    match report {
        Err(error) => TransportSync::Unavailable(error),
        Ok(transport) => {
            let fits = !manager.enabled || same_fingerprint(
                &transport.fingerprint,
                &manager.fingerprint,
            );
            if transport.encrypted == manager.enabled && fits {
                TransportSync::Synced
            } else {
                TransportSync::Mismatch
            }
        },
    }
}

/// The answer to a request to turn encryption on.
pub open spec fn encryption_refusal() -> Seq<char> {
    "Encrypted realtime transport is unavailable: the Swift HAL CryptoKit path allocates; encryption remains disabled until a caller-buffer AEAD implementation is available"@
}

/// Turns encryption off, or says why it cannot be turned on: the realtime transport must not
/// allocate.
pub fn set_encryption(manager: &mut KeyManager, enabled: bool) -> (r: Option<Response>)
    requires
        old(manager).wf(),
    ensures
        final(manager).wf(),
        enabled ==> final(manager)@ == old(manager)@ && r is Some && r->0@ == err_response(
            encryption_refusal(),
        ),
        !enabled ==> r is None && final(manager)@ == (KeyModel { enabled: false, ..old(manager)@ }),
{
    if enabled {
        return Some(
            Response::err(
                "Encrypted realtime transport is unavailable: the Swift HAL CryptoKit path allocates; encryption remains disabled until a caller-buffer AEAD implementation is available".to_owned(),
            ),
        );
    }
    manager.set_enabled(false);
    None
}

/// The answer after encryption was set.
pub open spec fn encryption_set_json(key: KeyModel, sync: TransportSync) -> Json {
    Json::Object(
        map![
            "enabled"@ => Json::Bool(key.enabled),
            "fingerprint"@ => Json::Text(key.hex),
            "transport_state"@ => Json::Text(sync_state(sync)),
            "transport_error"@ => device_json(sync_error(sync)),
        ],
    )
}

/// The answer after encryption was set.
pub fn encryption_set_response(manager: &KeyManager, sync: &TransportSync) -> (r: Response)
    ensures
        r@ == ok_response(encryption_set_json(manager@, *sync)),
{
    let mut out = JsonObject::new();
    out.put_bool("enabled", manager.enabled);
    out.put_text("fingerprint", manager.hex.as_str());
    out.put_text("transport_state", sync.state());
    out.put("transport_error", device_value(&sync.error()));
    Response::ok(out.finish())
}

/// The answer to a question for the encryption status.
pub open spec fn encryption_status_json(status: EncryptionStatus, sync: TransportSync) -> Json {
    Json::Object(
        map![
            "enabled"@ => Json::Bool(status.enabled),
            "fingerprint"@ => Json::Text(status.fingerprint@),
            "key_path"@ => Json::Text(status.key_path@),
            "transport_state"@ => Json::Text(sync_state(sync)),
            "transport_error"@ => device_json(sync_error(sync)),
        ],
    )
}

/// The answer to a question for the encryption status.
pub fn encryption_status_response(status: &EncryptionStatus, sync: &TransportSync) -> (r: Response)
    ensures
        r@ == ok_response(encryption_status_json(*status, *sync)),
{
    let mut out = JsonObject::new();
    out.put_bool("enabled", status.enabled);
    out.put_text("fingerprint", status.fingerprint.as_str());
    out.put_text("key_path", status.key_path.as_str());
    out.put_text("transport_state", sync.state());
    out.put("transport_error", device_value(&sync.error()));
    Response::ok(out.finish())
}

/// The answer to a request for another key.
pub open spec fn rotation_json(key: KeyModel, sync: TransportSync) -> Json {
    Json::Object(
        map![
            "fingerprint"@ => Json::Text(key.hex),
            "transport_state"@ => Json::Text(sync_state(sync)),
            "transport_error"@ => device_json(sync_error(sync)),
        ],
    )
}

/// The answer to a request for another key, from how the rotation came out.
pub fn rotation_response(
    manager: &KeyManager,
    rotated: Result<(), RotationError>,
    sync: &TransportSync,
) -> (r: Response)
    ensures
        match rotated {
            Ok(_) => r@ == ok_response(rotation_json(manager@, *sync)),
            Err(e) => r@ == err_response("Failed to rotate key: "@ + rotation_complaint(e)),
        },
{
    match rotated {
        Err(error) => Response::err(join2("Failed to rotate key: ", error.text().as_str())),
        Ok(_) => {
            let mut out = JsonObject::new();
            out.put_text("fingerprint", manager.hex.as_str());
            out.put_text("transport_state", sync.state());
            out.put("transport_error", device_value(&sync.error()));
            Response::ok(out.finish())
        },
    }
}

/// A peer that is neither the daemon's user nor root can read status and nothing more: every
/// command that it may invoke belongs to the driver protocol.
pub proof fn strangers_only_read_status(peer_uid: u32, daemon_uid: u32, command: Seq<char>)
    requires
        peer_uid != daemon_uid,
        peer_uid != 0,
    ensures
        allows(peer_class(peer_uid, daemon_uid), command) <==> is_driver_protocol(command),
        !is_driver_protocol("shutdown"@),
        !is_driver_protocol("load_plugins"@),
        !is_driver_protocol("set_device"@),
        !is_driver_protocol("set_encryption"@),
        !is_driver_protocol("rotate_encryption_key"@),
{
    reveal_strlit("driver_status");
    reveal_strlit("hal_status");
    reveal_strlit("get_driver_config");
    reveal_strlit("get_hal_config");
    reveal_strlit("encryption_status");
    reveal_strlit("get_snapshot");
    reveal_strlit("snapshot");
    reveal_strlit("status");
    reveal_strlit("shutdown");
    reveal_strlit("load_plugins");
    reveal_strlit("set_device");
    reveal_strlit("set_encryption");
    reveal_strlit("rotate_encryption_key");
    assert("shutdown"@[1] == 'h' && "snapshot"@[1] == 'n');
    assert("load_plugins"@[0] == 'l' && "get_snapshot"@[0] == 'g');
    assert("set_device"@[0] == 's' && "hal_status"@[0] == 'h');
    assert("rotate_encryption_key"@[0] == 'r');
    assert("set_device"@[1] == 'e' && "set_encryption"@[1] == 'e');
    assert("snapshot"@[1] == 'n' && "status"@[1] == 't');
    assert("set_encryption"@[0] == 's' && "driver_status"@[0] == 'd' && "encryption_status"@[0] == 'e');
    assert("get_driver_config"@[0] == 'g' && "get_hal_config"@[0] == 'g');
}

/// A transport agrees with the daemon where both have encryption on with the same key, or both have it
/// off. What is said of it names the state, and an error exactly where something is wrong.
pub proof fn transports_agree_on_state_and_key(key: KeyModel, encrypted: bool, fingerprint: Seq<u8>, sync: TransportSync)
    ensures
        encrypted != key.enabled ==> !transport_agrees(key, encrypted, fingerprint),
        !encrypted && !key.enabled ==> transport_agrees(key, encrypted, fingerprint),
        encrypted && key.enabled ==> (transport_agrees(key, encrypted, fingerprint) <==> fingerprint
            == key.fingerprint),
        sync_error(sync) is None <==> sync is NotApplicable || sync is Synced,
        sync is Synced ==> sync_state(sync) == "synced"@,
        sync is NotApplicable ==> sync_state(sync) == "not_applicable"@,
        sync matches TransportSync::Pending(e) ==> sync_state(sync) == "pending"@ && sync_error(sync)
            == Some(e@),
        sync matches TransportSync::Unavailable(e) ==> sync_state(sync) == "unavailable"@ && sync_error(
            sync,
        ) == Some(e@),
        sync is Mismatch ==> sync_state(sync) == "mismatch"@,
{
}

/// Reports on encryption show the key's own fingerprint, whether encryption is on, and the state of the
/// transport.
pub proof fn encryption_reports_show_the_key(key: KeyModel, status: EncryptionStatus, sync: TransportSync)
    ensures
        ({
            let set = encryption_set_json(key, sync);
            let read = encryption_status_json(status, sync);
            let turned = rotation_json(key, sync);
            let state = Some(Json::Text(sync_state(sync)));
            let error = Some(
                match sync_error(sync) {
                    Some(e) => Json::Text(e),
                    None => Json::Null,
                },
            );
            &&& json_member(set, "enabled"@) == Some(Json::Bool(key.enabled))
            &&& json_member(set, "fingerprint"@) == Some(Json::Text(key.hex))
            &&& json_member(set, "transport_state"@) == state && json_member(set, "transport_error"@)
                == error
            &&& json_member(read, "enabled"@) == Some(Json::Bool(status.enabled))
            &&& json_member(read, "fingerprint"@) == Some(Json::Text(status.fingerprint@))
            &&& json_member(read, "key_path"@) == Some(Json::Text(status.key_path@))
            &&& json_member(read, "transport_state"@) == state && json_member(read, "transport_error"@)
                == error
            &&& json_member(turned, "fingerprint"@) == Some(Json::Text(key.hex))
            &&& json_member(turned, "transport_state"@) == state && json_member(
                turned,
                "transport_error"@,
            ) == error
        }),
{
    reveal_strlit("enabled");
    assert("enabled"@.len() == 7);
    reveal_strlit("key_path");
    assert("key_path"@.len() == 8);
    reveal_strlit("fingerprint");
    assert("fingerprint"@.len() == 11);
    reveal_strlit("transport_state");
    assert("transport_state"@.len() == 15);
    assert("transport_state"@[10] == 's');
    reveal_strlit("transport_error");
    assert("transport_error"@.len() == 15);
    assert("transport_error"@[10] == 'e');
}

/// The daemon's own user, root and the audio server of a system that has one are admitted, and nobody
/// else.
pub proof fn owners_are_admitted(peer_uid: u32, daemon_uid: u32, has_audio_server: bool)
    ensures
        may_connect(daemon_uid, daemon_uid, has_audio_server),
        may_connect(0, daemon_uid, has_audio_server),
        may_connect(202, daemon_uid, true),
        peer_uid != daemon_uid && peer_uid != 0 && peer_uid != 202 ==> !may_connect(
            peer_uid,
            daemon_uid,
            has_audio_server,
        ),
        peer_class(daemon_uid, daemon_uid) == PeerClass::Owner,
        allows(PeerClass::Owner, "shutdown"@),
        allows(PeerClass::CoreAudioD, "status"@) && allows(PeerClass::CoreAudioD, "get_snapshot"@),
        allows(PeerClass::CoreAudioD, "driver_status"@) && allows(
            PeerClass::CoreAudioD,
            "get_driver_config"@,
        ) && allows(PeerClass::CoreAudioD, "encryption_status"@),
{
}

/// A peer is an owner exactly where it is the daemon's own user or root. Anyone else may only ask for
/// what the driver protocol holds.
pub proof fn only_owners_change_anything(peer_uid: u32, daemon_uid: u32, command: Seq<char>)
    ensures
        peer_class(peer_uid, daemon_uid) == PeerClass::Owner <==> peer_uid == daemon_uid || peer_uid == 0,
        allows(PeerClass::Owner, command),
        allows(PeerClass::CoreAudioD, command) ==> command == "driver_status"@ || command
            == "hal_status"@ || command == "get_driver_config"@ || command == "get_hal_config"@
            || command == "encryption_status"@ || command == "get_snapshot"@ || command == "snapshot"@
            || command == "status"@,
{
}

/// A peer is admitted exactly where it may connect, and as what it is.
pub proof fn peers_are_admitted_as_what_they_are(
    peer_uid: u32,
    daemon_uid: u32,
    has_audio_server: bool,
    admitted: Option<PeerClass>,
)
    requires
        call_ensures(admit_peer, (peer_uid, daemon_uid, has_audio_server), admitted),
    ensures
        peer_uid == daemon_uid || peer_uid == 0 ==> admitted == Some(PeerClass::Owner),
        peer_uid != daemon_uid && peer_uid != 0 && peer_uid == 202 && has_audio_server ==> admitted == Some(
            PeerClass::CoreAudioD,
        ),
        peer_uid != daemon_uid && peer_uid != 0 && !(peer_uid == 202 && has_audio_server) ==> admitted
            is None,
{
}

/// A transport that cannot be read is unavailable for that reason; else it is in step exactly where it
/// agrees with the daemon.
pub proof fn transports_are_compared_with_the_key(
    manager: KeyManager,
    report: Result<TransportReport, String>,
    sync: TransportSync,
)
    requires
        call_ensures(compare_transport, (&manager, report), sync),
    ensures
        report matches Err(e) ==> (sync matches TransportSync::Unavailable(text) && text@ == e@),
        report matches Ok(t) ==> (sync is Synced || sync is Mismatch) && (sync is Synced <==> t.encrypted
            == manager@.enabled && (manager@.enabled ==> t.fingerprint@ == manager@.fingerprint)),
{
}

/// A rotation that worked shows the new key; one that failed says why.
pub proof fn rotations_show_the_key_or_say_why(
    manager: KeyManager,
    rotated: Result<(), RotationError>,
    sync: TransportSync,
    response: Response,
)
    requires
        call_ensures(rotation_response, (&manager, rotated, &sync), response),
    ensures
        response@.success <==> rotated is Ok,
        rotated is Ok ==> response@.data is Some && json_member(response@.data->0, "fingerprint"@) == Some(
            Json::Text(manager@.hex),
        ),
        rotated matches Err(RotationError::Failed(text)) ==> response@.error == Some(
            "Failed to rotate key: "@ + text@,
        ),
        rotated matches Err(RotationError::Unsupported) ==> response@.error == Some(
            "Failed to rotate key: "@
                + "encryption key rotation requires the macOS HAL-enabled daemon build"@,
        ),
{
    reveal_strlit("fingerprint");
    assert("fingerprint"@.len() == 11);
    reveal_strlit("transport_state");
    assert("transport_state"@.len() == 15);
    assert("transport_state"@[10] == 's');
    reveal_strlit("transport_error");
    assert("transport_error"@.len() == 15);
    assert("transport_error"@[10] == 'e');
}

/// The status of a key manager is that of its own key.
pub proof fn managers_tell_their_own_key(manager: KeyManager, path: &str, status: EncryptionStatus)
    requires
        call_ensures(KeyManager::status, (&manager, path), status),
    ensures
        status.enabled == manager@.enabled,
        status.fingerprint@ == manager@.hex,
        status.key_path@ == path@,
{
}

/// A rotation that worked brings the published key and keeps the switch; one that failed changes
/// nothing and hands on the reason.
pub proof fn rotation_brings_the_published_key(
    manager: &mut KeyManager,
    published: Result<KeyFingerprint, RotationError>,
    out: Result<(), RotationError>,
)
    requires
        call_ensures(KeyManager::force_rotate, (manager, published), out),
    ensures
        final(manager)@.enabled == old(manager)@.enabled,
        out is Ok <==> published is Ok,
        published matches Ok(key) ==> final(manager)@.fingerprint == key.bytes@ && final(manager)@.hex
            == key.hex@ && final(manager)@.cipher,
        published is Err ==> final(manager)@ == old(manager)@ && out->Err_0 == published->Err_0,
{
}

/// Encryption can be turned off and not on: a request to turn it on is refused and changes nothing.
pub proof fn encryption_is_only_turned_off(manager: &mut KeyManager, enabled: bool, refusal: Option<Response>)
    requires
        call_ensures(set_encryption, (manager, enabled), refusal),
    ensures
        refusal is Some <==> enabled,
        refusal matches Some(response) ==> !response@.success && response@.error is Some,
        enabled ==> final(manager)@ == old(manager)@,
        !enabled ==> !final(manager)@.enabled && final(manager)@.fingerprint == old(manager)@.fingerprint
            && final(manager)@.hex == old(manager)@.hex && final(manager)@.cipher == old(manager)@.cipher,
{
}

} // verus!
