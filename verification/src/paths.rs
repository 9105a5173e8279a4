//! Where the daemon keeps its files, and how paths are ordered.

use crate::output_device::opt_text;
use crate::text::{decimal, decimal_text, join2, join3, text_chars};
use vstd::prelude::*;

verus! {

/// The path of a file in a directory.
pub open spec fn path_in(parent: Seq<char>, name: Seq<char>) -> Seq<char> {
    if parent.len() == 0 {
        name
    } else if parent.last() == '/' {
        parent + name
    } else {
        parent + "/"@ + name
    }
}

/// The path of a file in a directory. The name is relative.
pub fn join_path(parent: &str, name: &str) -> (r: String)
    ensures
        r@ == path_in(parent@, name@),
{
    let chars = text_chars(parent);
    if chars.len() == 0 {
        name.to_owned()
    } else if chars[chars.len() - 1] == '/' {
        join2(parent, name)
    } else {
        join3(parent, "/", name)
    }
}

/// Whether a character comes before another one in paths: a separator comes before all others.
pub open spec fn path_char_before(a: char, b: char) -> bool {
    b != '/' && (a == '/' || a < b)
}

/// Whether a normalized path comes before another when they are compared component by component.
pub open spec fn path_before(a: Seq<char>, b: Seq<char>) -> bool
    decreases a.len(),
{
    if b.len() == 0 {
        false
    } else if a.len() == 0 {
        true
    } else if a[0] == b[0] {
        path_before(a.drop_first(), b.drop_first())
    } else {
        path_char_before(a[0], b[0])
    }
}

/// Whether a normalized path comes before another when they are compared component by component.
pub fn path_comes_before(a: &str, b: &str) -> (r: bool)
    ensures
        r == path_before(a@, b@),
{
    let x = text_chars(a);
    let y = text_chars(b);
    let mut i: usize = 0;
    proof {
        assert(x@.subrange(0, x@.len() as int) =~= x@);
        assert(y@.subrange(0, y@.len() as int) =~= y@);
    }
    while i < x.len() && i < y.len()
        invariant
            x@ == a@,
            y@ == b@,
            i <= x@.len(),
            i <= y@.len(),
            path_before(x@, y@) == path_before(
                x@.subrange(i as int, x@.len() as int),
                y@.subrange(i as int, y@.len() as int),
            ),
        decreases x@.len() - i,
    {
        if x[i] != y[i] {
            return y[i] != '/' && (x[i] == '/' || x[i] < y[i]);
        }
        proof {
            let p = x@.subrange(i as int, x@.len() as int);
            let q = y@.subrange(i as int, y@.len() as int);
            assert(p.drop_first() =~= x@.subrange(i + 1, x@.len() as int));
            assert(q.drop_first() =~= y@.subrange(i + 1, y@.len() as int));
        }
        i = i + 1;
    }
    i < y.len()
}

/// The order of paths relates no path to itself.
pub proof fn path_before_irreflexive(a: Seq<char>)
    ensures
        !path_before(a, a),
    decreases a.len(),
{
    if a.len() > 0 {
        path_before_irreflexive(a.drop_first());
    }
}

/// The order of paths is transitive.
pub proof fn path_before_transitive(a: Seq<char>, b: Seq<char>, c: Seq<char>)
    requires
        path_before(a, b),
        path_before(b, c),
    ensures
        path_before(a, c),
    decreases a.len(),
{
    if a.len() > 0 && a[0] == b[0] && b[0] == c[0] {
        path_before_transitive(a.drop_first(), b.drop_first(), c.drop_first());
    }
}

/// Of two different paths one comes before the other.
pub proof fn path_before_total(a: Seq<char>, b: Seq<char>)
    requires
        a != b,
    ensures
        path_before(a, b) || path_before(b, a),
    decreases a.len(),
{
    if a.len() > 0 && b.len() > 0 && a[0] == b[0] {
        if a.drop_first() == b.drop_first() {
            assert(a =~= seq![a[0]] + a.drop_first());
            assert(b =~= seq![b[0]] + b.drop_first());
        }
        path_before_total(a.drop_first(), b.drop_first());
    } else if a.len() == 0 && b.len() == 0 {
        assert(a =~= b);
    }
}

/// A directory comes before everything in it, and what is in it comes before what comes after the
/// directory and is not in it.
pub proof fn directories_stay_together(dir: Seq<char>, name: Seq<char>, other: Seq<char>)
    requires
        dir.len() > 0,
        dir.last() != '/',
        path_before(dir, other),
        other.len() <= dir.len() || other.take(dir.len() as int) != dir || other[dir.len() as int] != '/',
    ensures
        path_before(dir, path_in(dir, name)),
        path_before(path_in(dir, name), other),
    decreases dir.len(),
{
    reveal_strlit("/");
    let whole = path_in(dir, name);
    assert(whole =~= dir + (seq!['/'] + name));
    lemma_separator_first(dir, seq!['/'] + name, other);
}

proof fn lemma_separator_first(dir: Seq<char>, rest: Seq<char>, other: Seq<char>)
    requires
        rest.len() > 0,
        rest[0] == '/',
        path_before(dir, other),
        other.len() <= dir.len() || other.take(dir.len() as int) != dir || other[dir.len() as int] != '/',
    ensures
        path_before(dir, dir + rest),
        path_before(dir + rest, other),
    decreases dir.len(),
{
    let whole = dir + rest;
    if dir.len() == 0 {
        assert(whole =~= rest);
        assert(other.take(0) =~= dir);
    } else {
        assert(whole.drop_first() =~= dir.drop_first() + rest);
        path_before_irreflexive(dir);
        if dir[0] == other[0] {
            let tail = other.drop_first();
            let n = dir.len() as int;
            if other.len() > n && other[n] == '/' {
                assert(tail.take(n - 1) =~= other.take(n).drop_first());
                if tail.take(n - 1) == dir.drop_first() {
                    assert(other.take(n) =~= seq![other[0]] + other.take(n).drop_first());
                    assert(dir =~= seq![dir[0]] + dir.drop_first());
                }
            }
            lemma_separator_first(dir.drop_first(), rest, tail);
        } else {
            lemma_own_directory(dir, rest);
        }
    }
}

proof fn lemma_own_directory(dir: Seq<char>, rest: Seq<char>)
    requires
        rest.len() > 0,
    ensures
        path_before(dir, dir + rest),
    decreases dir.len(),
{
    if dir.len() > 0 {
        assert((dir + rest).drop_first() =~= dir.drop_first() + rest);
        lemma_own_directory(dir.drop_first(), rest);
    }
}

/// A setting that is there and not empty.
pub open spec fn given(value: Option<Seq<char>>) -> bool {
    value is Some && value->0.len() > 0
}

fn is_given(value: &Option<String>) -> (r: bool)
    ensures
        r == given(opt_text(*value)),
{
    match value {
        Some(text) => text.as_str().unicode_len() > 0,
        None => false,
    }
}

/// A runtime file: at its own path where one is given, else in the runtime directory where one is
/// given, else in the user's directory under `/tmp`.
pub open spec fn runtime_file(
    explicit: Option<Seq<char>>,
    runtime_dir: Option<Seq<char>>,
    uid: u32,
    name: Seq<char>,
) -> Seq<char> {
    if given(explicit) {
        explicit->0
    } else if given(runtime_dir) {
        path_in(runtime_dir->0, name)
    } else {
        "/tmp/sotf-"@ + decimal(uid as nat) + ("/"@ + name)
    }
}

fn runtime_path(explicit: Option<String>, runtime_dir: Option<String>, uid: u32, name: &str) -> (r: String)
    ensures
        r@ == runtime_file(opt_text(explicit), opt_text(runtime_dir), uid, name@),
{
    if is_given(&explicit) {
        if let Some(path) = explicit {
            return path;
        }
    }
    if is_given(&runtime_dir) {
        if let Some(dir) = &runtime_dir {
            return join_path(dir.as_str(), name);
        }
    }
    let user = decimal_text(uid as u64);
    let file = join2("/", name);
    join3("/tmp/sotf-", user.as_str(), file.as_str())
}

/// The path of the control socket that only its user can reach.
pub fn get_secure_socket_path(explicit: Option<String>, runtime_dir: Option<String>, uid: u32) -> (r: String)
    ensures
        r@ == runtime_file(opt_text(explicit), opt_text(runtime_dir), uid, "daemon.sock"@),
{
    runtime_path(explicit, runtime_dir, uid, "daemon.sock")
}

/// The path of the control socket that clients of old know.
pub const LEGACY_SOCKET_PATH: &'static str = "/tmp/autoeq_audio.sock";

/// The path of the control socket. The one that clients of old know is used where it is asked for
/// and no other place is given.
pub fn get_socket_path(
    explicit: Option<String>,
    runtime_dir: Option<String>,
    legacy_requested: bool,
    uid: u32,
) -> (r: String)
    ensures
        r@ == if legacy_requested && !given(opt_text(explicit)) && !given(opt_text(runtime_dir)) {
            LEGACY_SOCKET_PATH@
        } else {
            runtime_file(opt_text(explicit), opt_text(runtime_dir), uid, "daemon.sock"@)
        },
{
    if legacy_requested && !is_given(&explicit) && !is_given(&runtime_dir) {
        LEGACY_SOCKET_PATH.to_owned()
    } else {
        get_secure_socket_path(explicit, runtime_dir, uid)
    }
}

/// The path of the key copy that the driver reads.
pub fn get_hal_key_path(explicit: Option<String>, runtime_dir: Option<String>, uid: u32) -> (r: String)
    ensures
        r@ == runtime_file(opt_text(explicit), opt_text(runtime_dir), uid, "session.key"@),
{
    runtime_path(explicit, runtime_dir, uid, "session.key")
}

/// The path of the key that only the daemon reads.
pub open spec fn daemon_key_file(
    explicit: Option<Seq<char>>,
    runtime_dir: Option<Seq<char>>,
    home: Option<Seq<char>>,
) -> Option<Seq<char>> {
    if given(explicit) {
        explicit
    } else if given(runtime_dir) {
        Some(path_in(runtime_dir->0, "daemon-session.key"@))
    } else {
        match home {
            Some(dir) => Some(path_in(dir, ".config/sotf/session.key"@)),
            None => None,
        }
    }
}

/// The path of the key that only the daemon reads, if there is a place for it.
pub fn get_key_path(explicit: Option<String>, runtime_dir: Option<String>, home: Option<String>) -> (r: Option<
    String,
>)
    ensures
        opt_text(r) == daemon_key_file(opt_text(explicit), opt_text(runtime_dir), opt_text(home)),
{
    if is_given(&explicit) {
        return explicit;
    }
    if is_given(&runtime_dir) {
        if let Some(dir) = &runtime_dir {
            return Some(join_path(dir.as_str(), "daemon-session.key"));
        }
    }
    match &home {
        Some(dir) => Some(join_path(dir.as_str(), ".config/sotf/session.key")),
        None => None,
    }
}

/// The path of the file that remembers the output device.
pub open spec fn state_file(
    explicit: Option<Seq<char>>,
    state_home: Option<Seq<char>>,
    home: Option<Seq<char>>,
    macos: bool,
) -> Option<Seq<char>> {
    if given(explicit) {
        explicit
    } else if macos {
        match home {
            Some(dir) => Some(
                path_in(
                    path_in(dir, "Library/Application Support/org.spinorama.sotf"@),
                    "systemwide-state.json"@,
                ),
            ),
            None => None,
        }
    } else {
        match (state_home, home) {
            (Some(dir), _) => Some(path_in(dir, "sotf/systemwide-state.json"@)),
            (None, Some(dir)) => Some(
                path_in(path_in(dir, ".local/state"@), "sotf/systemwide-state.json"@),
            ),
            (None, None) => None,
        }
    }
}

/// The path of the file that remembers the output device, if there is a place for it.
pub fn systemwide_state_path(
    explicit: Option<String>,
    state_home: Option<String>,
    home: Option<String>,
    macos: bool,
) -> (r: Option<String>)
    ensures
        opt_text(r) == state_file(opt_text(explicit), opt_text(state_home), opt_text(home), macos),
{
    if is_given(&explicit) {
        return explicit;
    }
    if macos {
        return match &home {
            Some(dir) => {
                let support = join_path(dir.as_str(), "Library/Application Support/org.spinorama.sotf");
                Some(join_path(support.as_str(), "systemwide-state.json"))
            },
            None => None,
        };
    }
    match &state_home {
        Some(dir) => Some(join_path(dir.as_str(), "sotf/systemwide-state.json")),
        None => match &home {
            Some(dir) => {
                let root = join_path(dir.as_str(), ".local/state");
                Some(join_path(root.as_str(), "sotf/systemwide-state.json"))
            },
            None => None,
        },
    }
}

/// The path of the file that holds the output profiles, in the directory of the state file.
pub fn output_profiles_path(state_dir: &str) -> (r: String)
    ensures
        r@ == path_in(state_dir@, "output-profiles.json"@),
{
    join_path(state_dir, "output-profiles.json")
}

/// A path in a directory is the directory, one slash, and the name; a name without a directory stays
/// alone.
pub proof fn names_stand_in_their_directory(parent: Seq<char>, name: Seq<char>)
    ensures
        parent.len() == 0 ==> path_in(parent, name) == name,
        parent.len() > 0 && parent.last() == '/' ==> path_in(parent, name) == parent + name,
        parent.len() > 0 && parent.last() != '/' ==> path_in(parent, name) == parent.push('/') + name,
{
    reveal_strlit("/");
    assert("/"@ =~= seq!['/']);
    assert(parent + "/"@ =~= parent.push('/'));
}

/// A path that is given is used as it is. Else a runtime file stands in the runtime directory, and
/// without one in a directory of the user under `/tmp`.
pub proof fn runtime_files_stand_where_they_are_told(
    explicit: Option<Seq<char>>,
    dir: Option<Seq<char>>,
    home: Option<Seq<char>>,
    uid: u32,
    name: Seq<char>,
)
    ensures
        explicit is Some && explicit->0.len() > 0 ==> runtime_file(explicit, dir, uid, name) == explicit->0
            && daemon_key_file(explicit, dir, home) == explicit,
        explicit is None && dir is Some && dir->0.len() > 0 ==> runtime_file(explicit, dir, uid, name)
            == path_in(dir->0, name) && daemon_key_file(explicit, dir, home) == Some(
            path_in(dir->0, "daemon-session.key"@),
        ),
        explicit is None && dir is None ==> runtime_file(explicit, dir, uid, name) == "/tmp/sotf-"@
            + decimal(uid as nat) + "/"@ + name,
        explicit is None && dir is None ==> (home matches Some(h) ==> daemon_key_file(explicit, dir, home)
            == Some(path_in(h, ".config/sotf/session.key"@))),
        explicit is None && dir is None && home is None ==> daemon_key_file(explicit, dir, home) is None,
        explicit == Some(Seq::<char>::empty()) ==> runtime_file(explicit, dir, uid, name) == runtime_file(
            None,
            dir,
            uid,
            name,
        ) && daemon_key_file(explicit, dir, home) == daemon_key_file(None, dir, home),
        dir == Some(Seq::<char>::empty()) ==> runtime_file(explicit, dir, uid, name) == runtime_file(
            explicit,
            None,
            uid,
            name,
        ) && daemon_key_file(explicit, dir, home) == daemon_key_file(explicit, None, home),
{
    assert("/tmp/sotf-"@ + decimal(uid as nat) + ("/"@ + name) =~= "/tmp/sotf-"@ + decimal(uid as nat)
        + "/"@ + name);
}

/// The state is kept where it is told to be, else where the platform keeps such files.
pub proof fn states_are_kept_where_the_platform_keeps_them(
    explicit: Option<Seq<char>>,
    state_home: Option<Seq<char>>,
    home: Option<Seq<char>>,
    macos: bool,
)
    ensures
        explicit is Some && explicit->0.len() > 0 ==> state_file(explicit, state_home, home, macos)
            == explicit,
        !(explicit is Some && explicit->0.len() > 0) ==> {
            let file = state_file(explicit, state_home, home, macos);
            &&& macos && home is None ==> file is None
            &&& macos && home is Some ==> file == Some(
                path_in(
                    path_in(home->0, "Library/Application Support/org.spinorama.sotf"@),
                    "systemwide-state.json"@,
                ),
            )
            &&& !macos && state_home is Some ==> file == Some(
                path_in(state_home->0, "sotf/systemwide-state.json"@),
            )
            &&& !macos && state_home is None && home is Some ==> file == Some(
                path_in(path_in(home->0, ".local/state"@), "sotf/systemwide-state.json"@),
            )
            &&& !macos && state_home is None && home is None ==> file is None
        },
{
}

/// The daemon listens where it is told to, else in the runtime directory, else on the older path where
/// that is asked for.
pub proof fn sockets_stand_where_they_are_told(
    explicit: Option<String>,
    dir: Option<String>,
    legacy: bool,
    uid: u32,
    path: String,
)
    requires
        call_ensures(get_socket_path, (explicit, dir, legacy, uid), path),
    ensures
        explicit is Some && explicit->0@.len() > 0 ==> path@ == explicit->0@,
        explicit is None && dir is Some && dir->0@.len() > 0 ==> path@ == path_in(dir->0@, "daemon.sock"@),
        explicit is None && dir is None && legacy ==> path@ == "/tmp/autoeq_audio.sock"@,
        explicit is None && dir is None && !legacy ==> path@ == "/tmp/sotf-"@ + decimal(uid as nat)
            + "/daemon.sock"@,
{
    reveal_strlit("/");
    reveal_strlit("daemon.sock");
    reveal_strlit("/daemon.sock");
    assert("/"@ + "daemon.sock"@ =~= "/daemon.sock"@);
}

} // verus!
