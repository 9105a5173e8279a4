//! Per-output DSP profiles: one plugin chain per audio interface.
//!
//! Headphones and speakers need very different processing, so the daemon keeps a named chain, a
//! profile, per output device. A device is keyed by its persistent UID (`uid:<uid>`) where one is
//! known, else by its name (`name:<name>`). The `default` profile backs unknown devices and is
//! adopted from the live chain on first use.

use crate::output_device::{copy_opt_text, opt_str, opt_text};
use crate::plugins::{
    copy_plugins, opt_graph, plugin_models, GraphModel, PluginConfig, PluginGraphConfig,
    PluginModel,
};
use crate::text::{
    comes_before, decimal, decimal_text, is_blank, join2, join3, same_text, text_before,
    text_before_irreflexive, text_before_total, text_before_transitive, trim_text, trimmed,
};
use crate::text_map::{
    keys_distinct, lemma_pairs_lookup, lemma_pairs_push, lemma_pairs_remove, lemma_pairs_update,
    pairs_map, without_value, TextMap,
};
use vstd::prelude::*;
use vstd::utf8::encode_utf8;

verus! {

/// A named DSP chain bound to one or more outputs.
#[derive(Debug)]
pub struct OutputProfile {
    pub id: String,
    pub name: String,
    /// Either `rack` or `graph`.
    pub topology: String,
    pub plugins: Vec<PluginConfig>,
    pub graph: Option<PluginGraphConfig>,
    pub input_channels: usize,
    pub output_channels: usize,
    pub updated_at_unix_ms: u64,
}

/// What an `OutputProfile` stands for.
#[verifier::ext_equal]
pub struct ProfileModel {
    pub id: Seq<char>,
    pub name: Seq<char>,
    pub topology: Seq<char>,
    pub plugins: Seq<PluginModel>,
    pub graph: Option<GraphModel>,
    pub input_channels: usize,
    pub output_channels: usize,
    pub updated_at_unix_ms: u64,
}

impl View for OutputProfile {
    type V = ProfileModel;

    open spec fn view(&self) -> ProfileModel {
        ProfileModel {
            id: self.id@,
            name: self.name@,
            topology: self.topology@,
            plugins: plugin_models(self.plugins@),
            graph: opt_graph(self.graph),
            input_channels: self.input_channels,
            output_channels: self.output_channels,
            updated_at_unix_ms: self.updated_at_unix_ms,
        }
    }
}

impl Clone for OutputProfile {
    fn clone(&self) -> (r: OutputProfile)
        ensures
            r@ == self@,
    {
        OutputProfile {
            id: self.id.clone(),
            name: self.name.clone(),
            topology: self.topology.clone(),
            plugins: copy_plugins(&self.plugins),
            graph: match &self.graph {
                Some(graph) => Some(graph.clone()),
                None => None,
            },
            input_channels: self.input_channels,
            output_channels: self.output_channels,
            updated_at_unix_ms: self.updated_at_unix_ms,
        }
    }
}

/// Why a profile is not valid, or that it is.
pub open spec fn profile_verdict(p: ProfileModel) -> Result<(), Seq<char>> {
    if trimmed(p.id).len() == 0 {
        Err("output profile id must not be empty"@)
    } else if encode_utf8(p.id).len() > 64 {
        Err("output profile id must not exceed 64 characters"@)
    } else if trimmed(p.name).len() == 0 {
        Err("output profile name must not be empty"@)
    } else if encode_utf8(p.name).len() > 80 {
        Err("output profile name must not exceed 80 characters"@)
    } else if p.topology == "rack"@ {
        Ok(())
    } else if p.topology == "graph"@ {
        if p.graph is Some {
            Ok(())
        } else {
            Err("graph profiles must carry a graph"@)
        }
    } else {
        Err(
            "output profile topology must be \"rack\" or \"graph\", got \""@ + p.topology + "\""@,
        )
    }
}

/// The view of a result without a value.
pub open spec fn unit_outcome(r: Result<(), String>) -> Result<(), Seq<char>> {
    match r {
        Ok(_) => Ok(()),
        Err(e) => Err(e@),
    }
}

/// The view of a result with a text.
pub open spec fn text_outcome(r: Result<String, String>) -> Result<Seq<char>, Seq<char>> {
    match r {
        Ok(text) => Ok(text@),
        Err(e) => Err(e@),
    }
}

impl OutputProfile {
    /// Whether the chain is a graph.
    pub fn is_graph(&self) -> (r: bool)
        ensures
            r == (self@.topology == "graph"@),
    {
        same_text(self.topology.as_str(), "graph")
    }

    /// Whether the profile is valid, or why not. Lengths are counted in bytes.
    pub fn validate(&self) -> (r: Result<(), String>)
        ensures
            unit_outcome(r) == profile_verdict(self@),
    {
        if is_blank(self.id.as_str()) {
            return Err("output profile id must not be empty".to_owned());
        }
        if self.id.as_str().as_bytes().len() > 64 {
            return Err("output profile id must not exceed 64 characters".to_owned());
        }
        if is_blank(self.name.as_str()) {
            return Err("output profile name must not be empty".to_owned());
        }
        if self.name.as_str().as_bytes().len() > 80 {
            return Err("output profile name must not exceed 80 characters".to_owned());
        }
        if same_text(self.topology.as_str(), "rack") {
            return Ok(());
        }
        if same_text(self.topology.as_str(), "graph") {
            if self.graph.is_some() {
                return Ok(());
            }
            return Err("graph profiles must carry a graph".to_owned());
        }
        Err(
            join3(
                "output profile topology must be \"rack\" or \"graph\", got \"",
                self.topology.as_str(),
                "\"",
            ),
        )
    }
}

/// The version of the profile file that this daemon reads and writes.
pub const PROFILES_VERSION: u32 = 1;

/// The largest profile file that is read or written.
pub const MAX_PROFILES_FILE_BYTES: u64 = 262144;

/// Whether a profile file may be read: a regular file within the size limit.
pub fn profiles_file_is_readable(is_file: bool, len: u64) -> (r: bool)
    ensures
        r == (is_file && len <= MAX_PROFILES_FILE_BYTES),
{
    is_file && len <= MAX_PROFILES_FILE_BYTES
}

/// Why encoded profiles of this length are not written, if they are not: they could not be read
/// back.
pub fn refuse_profiles_file(len: u64) -> (r: Option<String>)
    ensures
        opt_text(r) == if len > MAX_PROFILES_FILE_BYTES {
            Some("output profiles exceed the on-disk size limit"@)
        } else {
            None
        },
{
    if len > MAX_PROFILES_FILE_BYTES {
        Some("output profiles exceed the on-disk size limit".to_owned())
    } else {
        None
    }
}

/// What the profile file holds.
#[derive(Debug)]
pub struct PersistedOutputProfiles {
    pub version: u32,
    pub profiles: Vec<OutputProfile>,
    pub assignments: TextMap,
    pub current_device_uid: Option<String>,
    pub current_device_name: Option<String>,
    pub current_profile_id: Option<String>,
    pub next_id: u64,
}

/// The chain selected for cold start.
#[derive(Debug)]
pub enum StartupChain {
    Rack(Vec<PluginConfig>),
    Graph(PluginGraphConfig),
}

/// The profiles with their ids as keys.
pub open spec fn profile_pairs(profiles: Seq<OutputProfile>) -> Seq<(Seq<char>, ProfileModel)> {
    profiles.map_values(|p: OutputProfile| (p.id@, p@))
}

/// The store of per-output DSP profiles.
#[derive(Debug)]
pub struct OutputProfileStore {
    pub profiles: Vec<OutputProfile>,
    /// Device key to profile id: explicit assignments and, as last-used memory, route switches.
    pub assignments: TextMap,
    pub current_device_uid: Option<String>,
    pub current_device_name: Option<String>,
    pub current_profile_id: Option<String>,
    pub next_id: u64,
}

/// What an `OutputProfileStore` stands for.
#[verifier::ext_equal]
pub struct StoreModel {
    pub profiles: Map<Seq<char>, ProfileModel>,
    pub assignments: Map<Seq<char>, Seq<char>>,
    pub current_device_uid: Option<Seq<char>>,
    pub current_device_name: Option<Seq<char>>,
    pub current_profile_id: Option<Seq<char>>,
    pub next_id: u64,
}

impl View for OutputProfileStore {
    type V = StoreModel;

    open spec fn view(&self) -> StoreModel {
        StoreModel {
            profiles: pairs_map(profile_pairs(self.profiles@)),
            assignments: self.assignments@,
            current_device_uid: opt_text(self.current_device_uid),
            current_device_name: opt_text(self.current_device_name),
            current_profile_id: opt_text(self.current_profile_id),
            next_id: self.next_id,
        }
    }
}

/// The device's UID where it has one.
pub open spec fn known_uid(device_uid: Option<Seq<char>>) -> Option<Seq<char>> {
    match device_uid {
        Some(uid) => if trimmed(uid).len() > 0 {
            Some(trimmed(uid))
        } else {
            None
        },
        None => None,
    }
}

/// The key under a device's name.
pub open spec fn name_key(device_name: Seq<char>) -> Seq<char> {
    "name:"@ + trimmed(device_name)
}

/// The key under a device's UID.
pub open spec fn uid_key(uid: Seq<char>) -> Seq<char> {
    "uid:"@ + uid
}

/// The key of a device: by UID where it has one, else by name.
pub open spec fn device_key_of(device_uid: Option<Seq<char>>, device_name: Seq<char>) -> Seq<char> {
    match known_uid(device_uid) {
        Some(uid) => uid_key(uid),
        None => name_key(device_name),
    }
}

/// Assignments after a device was given a profile. A device with a UID is known by its name too, so
/// that lookups by name find the same profile.
pub open spec fn assigned(
    assignments: Map<Seq<char>, Seq<char>>,
    device_uid: Option<Seq<char>>,
    device_name: Seq<char>,
    profile_id: Seq<char>,
) -> Map<Seq<char>, Seq<char>> {
    let keyed = assignments.insert(device_key_of(device_uid, device_name), profile_id);
    if known_uid(device_uid) is Some {
        keyed.insert(name_key(device_name), profile_id)
    } else {
        keyed
    }
}

/// The profile that a key is assigned to, where that profile exists.
pub open spec fn live_assignment(s: StoreModel, key: Seq<char>) -> Option<Seq<char>> {
    if s.assignments.contains_key(key) && s.profiles.contains_key(s.assignments[key]) {
        Some(s.assignments[key])
    } else {
        None
    }
}

/// The profile of a device: by UID, else by name, else the default one.
pub open spec fn resolved(s: StoreModel, device_uid: Option<Seq<char>>, device_name: Seq<char>) -> Option<
    Seq<char>,
> {
    let by_uid = match known_uid(device_uid) {
        Some(uid) => live_assignment(s, uid_key(uid)),
        None => None,
    };
    let by_name = live_assignment(s, name_key(device_name));
    if by_uid is Some {
        by_uid
    } else if by_name is Some {
        by_name
    } else if s.profiles.contains_key("default"@) {
        Some("default"@)
    } else {
        None
    }
}

/// A number of channels, at least one.
pub open spec fn at_least_one(channels: usize) -> usize {
    if channels > 1 {
        channels
    } else {
        1
    }
}

/// The profile that a live chain makes.
pub open spec fn live_profile(
    id: Seq<char>,
    name: Seq<char>,
    plugins: Seq<PluginModel>,
    graph: Option<GraphModel>,
    input_channels: usize,
    output_channels: usize,
    now: u64,
) -> ProfileModel {
    ProfileModel {
        id,
        name,
        topology: if graph is Some { "graph"@ } else { "rack"@ },
        plugins,
        graph,
        input_channels: at_least_one(input_channels),
        output_channels: at_least_one(output_channels),
        updated_at_unix_ms: now,
    }
}

/// The store after the live chain was adopted as the default profile. A store that has profiles is
/// left alone.
pub open spec fn with_default(
    s: StoreModel,
    plugins: Seq<PluginModel>,
    graph: Option<GraphModel>,
    input_channels: usize,
    output_channels: usize,
    now: u64,
) -> StoreModel {
    if s.profiles.dom().len() > 0 {
        s
    } else {
        StoreModel {
            profiles: s.profiles.insert(
                "default"@,
                live_profile(
                    "default"@,
                    "Default"@,
                    plugins,
                    graph,
                    input_channels,
                    output_channels,
                    now,
                ),
            ),
            ..s
        }
    }
}

/// The profile that edits of the live chain go to.
pub open spec fn current_id(s: StoreModel) -> Seq<char> {
    match s.current_profile_id {
        Some(id) => id,
        None => "default"@,
    }
}

/// The name that the current profile keeps or gets.
pub open spec fn current_name(s: StoreModel) -> Seq<char> {
    let id = current_id(s);
    if s.profiles.contains_key(id) {
        s.profiles[id].name
    } else if id == "default"@ {
        "Default"@
    } else {
        id
    }
}

/// The store after the live chain was written to the current profile.
pub open spec fn with_live_chain(
    s: StoreModel,
    plugins: Seq<PluginModel>,
    graph: Option<GraphModel>,
    input_channels: usize,
    output_channels: usize,
    now: u64,
) -> StoreModel {
    StoreModel {
        profiles: s.profiles.insert(
            current_id(s),
            live_profile(
                current_id(s),
                current_name(s),
                plugins,
                graph,
                input_channels,
                output_channels,
                now,
            ),
        ),
        ..s
    }
}

/// A profile as it is stored: with an id where it came without one, and the time of its change.
pub open spec fn stamped(s: StoreModel, p: ProfileModel, now: u64) -> ProfileModel {
    ProfileModel {
        id: if trimmed(p.id).len() == 0 { "profile-"@ + decimal(s.next_id as nat) } else { p.id },
        updated_at_unix_ms: now,
        ..p
    }
}

/// The store after an id was handed out for a profile that came without one.
pub open spec fn numbered(s: StoreModel, p: ProfileModel) -> StoreModel {
    if trimmed(p.id).len() == 0 {
        StoreModel {
            next_id: if s.next_id == u64::MAX { s.next_id } else { (s.next_id + 1) as u64 },
            ..s
        }
    } else {
        s
    }
}

/// The complaint about a profile that does not exist.
pub open spec fn unknown_profile_text(profile_id: Seq<char>) -> Seq<char> {
    "unknown output profile \""@ + profile_id + "\""@
}

/// The complaint about a profile that does not exist.
pub fn unknown_profile_message(profile_id: &str) -> (r: String)
    ensures
        r@ == unknown_profile_text(profile_id@),
{
    join3("unknown output profile \"", profile_id, "\"")
}

/// Why a profile cannot be removed, or that it can.
pub open spec fn removal_verdict(s: StoreModel, profile_id: Seq<char>) -> Result<(), Seq<char>> {
    if profile_id == "default"@ {
        Err("the Default profile cannot be deleted"@)
    } else if !s.profiles.contains_key(profile_id) {
        Err(unknown_profile_text(profile_id))
    } else {
        Ok(())
    }
}

/// The store after a profile was removed.
pub open spec fn without_profile(s: StoreModel, profile_id: Seq<char>) -> StoreModel {
    StoreModel {
        profiles: s.profiles.remove(profile_id),
        assignments: without_value(s.assignments, profile_id),
        current_profile_id: if s.current_profile_id == Some(profile_id) {
            Some("default"@)
        } else {
            s.current_profile_id
        },
        ..s
    }
}

/// Why a device cannot be given a profile, or that it can.
pub open spec fn assignment_verdict(s: StoreModel, device_name: Seq<char>, profile_id: Seq<char>) -> Result<
    (),
    Seq<char>,
> {
    if !s.profiles.contains_key(profile_id) {
        Err(unknown_profile_text(profile_id))
    } else if trimmed(device_name).len() == 0 {
        Err("device name must not be empty"@)
    } else {
        Ok(())
    }
}

/// The store after a route was taken into use.
pub open spec fn with_route(
    s: StoreModel,
    device_uid: Option<Seq<char>>,
    device_name: Seq<char>,
    profile_id: Seq<char>,
) -> StoreModel {
    StoreModel {
        current_device_uid: known_uid(device_uid),
        current_device_name: Some(device_name),
        current_profile_id: Some(profile_id),
        assignments: assigned(s.assignments, device_uid, device_name, profile_id),
        ..s
    }
}

/// The device's UID without surrounding white space, where anything is left.
fn uid_of(device_uid: Option<&str>) -> (r: Option<String>)
    ensures
        opt_text(r) == known_uid(opt_str(device_uid)),
{
    match device_uid {
        Some(uid) => {
            let text = trim_text(uid);
            if text.as_str().unicode_len() > 0 {
                Some(text)
            } else {
                None
            }
        },
        None => None,
    }
}

fn key_for_name(device_name: &str) -> (r: String)
    ensures
        r@ == name_key(device_name@),
{
    let text = trim_text(device_name);
    join2("name:", text.as_str())
}

fn live_topology(
    id: String,
    name: String,
    plugins: Vec<PluginConfig>,
    graph: Option<PluginGraphConfig>,
    input_channels: usize,
    output_channels: usize,
    now_unix_ms: u64,
) -> (r: OutputProfile)
    ensures
        r@ == live_profile(
            id@,
            name@,
            plugin_models(plugins@),
            opt_graph(graph),
            input_channels,
            output_channels,
            now_unix_ms,
        ),
{
    let topology = if graph.is_some() {
        "graph".to_owned()
    } else {
        "rack".to_owned()
    };
    OutputProfile {
        id,
        name,
        topology,
        plugins,
        graph,
        input_channels: if input_channels > 1 { input_channels } else { 1 },
        output_channels: if output_channels > 1 { output_channels } else { 1 },
        updated_at_unix_ms: now_unix_ms,
    }
}

impl Default for OutputProfileStore {
    fn default() -> (r: OutputProfileStore)
        ensures
            r.wf(),
            r@ == empty_store(),
    {
        let profiles: Vec<OutputProfile> = Vec::new();
        proof {
            assert(profile_pairs(profiles@) =~= Seq::empty());
        }
        OutputProfileStore {
            profiles,
            assignments: TextMap::new(),
            current_device_uid: None,
            current_device_name: None,
            current_profile_id: None,
            next_id: 1,
        }
    }
}

/// A store without profiles.
pub open spec fn empty_store() -> StoreModel {
    StoreModel {
        profiles: Map::empty(),
        assignments: Map::empty(),
        current_device_uid: None,
        current_device_name: None,
        current_profile_id: None,
        next_id: 1,
    }
}

impl OutputProfileStore {
    /// Whether ids and device keys are unique.
    pub open spec fn wf(&self) -> bool {
        keys_distinct(profile_pairs(self.profiles@)) && self.assignments.wf()
    }

    fn find(&self, profile_id: &str) -> (r: Option<usize>)
        requires
            self.wf(),
        ensures
            match r {
                Some(i) => i < self.profiles@.len() && self.profiles@[i as int].id@ == profile_id@
                    && self@.profiles.contains_key(profile_id@) && self@.profiles[profile_id@]
                    == self.profiles@[i as int]@,
                None => !self@.profiles.contains_key(profile_id@) && forall|i: int|
                    0 <= i < self.profiles@.len() ==> (#[trigger] self.profiles@[i]).id@ != profile_id@,
            },
    {
        let ghost pairs = profile_pairs(self.profiles@);
        proof {
            lemma_pairs_lookup(pairs);
        }
        let mut i: usize = 0;
        while i < self.profiles.len()
            invariant
                i <= self.profiles.len(),
                pairs == profile_pairs(self.profiles@),
                keys_distinct(pairs),
                forall|k: int| 0 <= k < i ==> (#[trigger] self.profiles@[k]).id@ != profile_id@,
            decreases self.profiles.len() - i,
        {
            if same_text(self.profiles[i].id.as_str(), profile_id) {
                proof {
                    lemma_pairs_lookup(pairs);
                    assert(pairs[i as int] == (profile_id@, self.profiles@[i as int]@));
                }
                return Some(i);
            }
            i = i + 1;
        }
        proof {
            if pairs_map(pairs).dom().contains(profile_id@) {
                let j = choose|j: int| 0 <= j < pairs.len() && (#[trigger] pairs[j]).0 == profile_id@;
                assert(self.profiles@[j].id@ == profile_id@);
            }
        }
        None
    }

    fn put(&mut self, profile: OutputProfile)
        requires
            old(self).wf(),
        ensures
            final(self).wf(),
            final(self)@ == (StoreModel {
                profiles: old(self)@.profiles.insert(profile@.id, profile@),
                ..old(self)@
            }),
    {
        let ghost pairs = profile_pairs(self.profiles@);
        let ghost model = profile@;
        match self.find(profile.id.as_str()) {
            Some(i) => {
                proof {
                    lemma_pairs_update(pairs, i as int, model);
                }
                self.profiles.set(i, profile);
                proof {
                    assert(profile_pairs(self.profiles@) =~= pairs.update(i as int, (model.id, model)));
                }
            },
            None => {
                proof {
                    assert forall|i: int| 0 <= i < pairs.len() implies (#[trigger] pairs[i]).0 != model.id by {
                        assert(self.profiles@[i].id@ != model.id);
                    }
                    lemma_pairs_push(pairs, model.id, model);
                }
                self.profiles.push(profile);
                proof {
                    assert(profile_pairs(self.profiles@) =~= pairs.push((model.id, model)));
                }
            },
        }
    }

    /// The key of a device. UIDs survive replugs and tell same-model interfaces apart; names are the
    /// portable fallback.
    pub fn device_key(device_uid: Option<&str>, device_name: &str) -> (r: String)
        ensures
            r@ == device_key_of(opt_str(device_uid), device_name@),
    {
        match uid_of(device_uid) {
            Some(uid) => join2("uid:", uid.as_str()),
            None => key_for_name(device_name),
        }
    }

    /// Adopts the live chain as the default profile where the store is empty. Returns whether it
    /// did, in which case the store is to be saved.
    pub fn ensure_default(
        &mut self,
        plugins: Vec<PluginConfig>,
        graph: Option<PluginGraphConfig>,
        input_channels: usize,
        output_channels: usize,
        now_unix_ms: u64,
    ) -> (r: bool)
        requires
            old(self).wf(),
        ensures
            final(self).wf(),
            r == (old(self)@.profiles.dom().len() == 0),
            final(self)@ == with_default(
                old(self)@,
                plugin_models(plugins@),
                opt_graph(graph),
                input_channels,
                output_channels,
                now_unix_ms,
            ),
    {
        proof {
            lemma_pairs_lookup(profile_pairs(self.profiles@));
        }
        if self.profiles.len() > 0 {
            return false;
        }
        self.put(
            live_topology(
                "default".to_owned(),
                "Default".to_owned(),
                plugins,
                graph,
                input_channels,
                output_channels,
                now_unix_ms,
            ),
        );
        true
    }

    /// The profile with an id.
    pub fn get(&self, profile_id: &str) -> (r: Option<&OutputProfile>)
        requires
            self.wf(),
        ensures
            match r {
                Some(p) => self@.profiles.contains_key(profile_id@) && p@
                    == self@.profiles[profile_id@] && p.id@ == profile_id@,
                None => !self@.profiles.contains_key(profile_id@),
            },
    {
        match self.find(profile_id) {
            Some(i) => Some(&self.profiles[i]),
            None => None,
        }
    }

    /// The current profile, device UID and device name.
    pub fn current(&self) -> (r: (Option<String>, Option<String>, Option<String>))
        ensures
            opt_text(r.0) == self@.current_profile_id,
            opt_text(r.1) == self@.current_device_uid,
            opt_text(r.2) == self@.current_device_name,
    {
        (
            copy_opt_text(&self.current_profile_id),
            copy_opt_text(&self.current_device_uid),
            copy_opt_text(&self.current_device_name),
        )
    }

    fn live(&self, key: &str) -> (r: Option<String>)
        requires
            self.wf(),
        ensures
            opt_text(r) == live_assignment(self@, key@),
    {
        match self.assignments.get(key) {
            Some(id) => if self.find(id).is_some() {
                Some(id.to_owned())
            } else {
                None
            },
            None => None,
        }
    }

    /// The profile of a device: the one assigned to its UID, else the one assigned to its name, else
    /// the default one.
    pub fn resolve_profile_id(&self, device_uid: Option<&str>, device_name: &str) -> (r: Option<String>)
        requires
            self.wf(),
        ensures
            opt_text(r) == resolved(self@, opt_str(device_uid), device_name@),
    {
        if let Some(uid) = uid_of(device_uid) {
            let key = join2("uid:", uid.as_str());
            if let Some(id) = self.live(key.as_str()) {
                return Some(id);
            }
        }
        let key = key_for_name(device_name);
        if let Some(id) = self.live(key.as_str()) {
            return Some(id);
        }
        if self.find("default").is_some() {
            Some("default".to_owned())
        } else {
            None
        }
    }

    /// Inserts or replaces a profile. One without an id gets the next number.
    pub fn upsert(&mut self, profile: OutputProfile, now_unix_ms: u64) -> (r: Result<String, String>)
        requires
            old(self).wf(),
        ensures
            final(self).wf(),
            ({
                let kept = stamped(old(self)@, profile@, now_unix_ms);
                let base = numbered(old(self)@, profile@);
                match profile_verdict(kept) {
                    Err(e) => text_outcome(r) == Err::<Seq<char>, Seq<char>>(e) && final(self)@ == base,
                    Ok(_) => text_outcome(r) == Ok::<Seq<char>, Seq<char>>(kept.id) && final(self)@
                        == (StoreModel { profiles: base.profiles.insert(kept.id, kept), ..base }),
                }
            }),
    {
        let mut profile = profile;
        if is_blank(profile.id.as_str()) {
            let number = decimal_text(self.next_id);
            profile.id = join2("profile-", number.as_str());
            self.next_id = self.next_id.saturating_add(1);
        }
        profile.updated_at_unix_ms = now_unix_ms;
        if let Err(error) = profile.validate() {
            return Err(error);
        }
        let id = profile.id.clone();
        self.put(profile);
        Ok(id)
    }

    /// Removes a profile with its assignments. The default profile stays.
    pub fn remove(&mut self, profile_id: &str) -> (r: Result<(), String>)
        requires
            old(self).wf(),
        ensures
            final(self).wf(),
            unit_outcome(r) == removal_verdict(old(self)@, profile_id@),
            r is Ok ==> final(self)@ == without_profile(old(self)@, profile_id@),
            r is Err ==> final(self)@ == old(self)@,
    {
        if same_text(profile_id, "default") {
            return Err("the Default profile cannot be deleted".to_owned());
        }
        let at: usize = match self.find(profile_id) {
            Some(at) => at,
            None => {
                return Err(unknown_profile_message(profile_id));
            },
        };
        let ghost pairs = profile_pairs(self.profiles@);
        proof {
            lemma_pairs_remove(pairs, at as int);
        }
        self.profiles.remove(at);
        proof {
            assert(profile_pairs(self.profiles@) =~= pairs.remove(at as int));
        }
        self.assignments.remove_value(profile_id);
        let was_current = match &self.current_profile_id {
            Some(id) => same_text(id.as_str(), profile_id),
            None => false,
        };
        if was_current {
            self.current_profile_id = Some("default".to_owned());
        }
        Ok(())
    }

    fn assign_keys(&mut self, device_uid: Option<&str>, device_name: &str, profile_id: &str)
        requires
            old(self).wf(),
        ensures
            final(self).wf(),
            final(self)@ == (StoreModel {
                assignments: assigned(
                    old(self)@.assignments,
                    opt_str(device_uid),
                    device_name@,
                    profile_id@,
                ),
                ..old(self)@
            }),
    {
        let key = OutputProfileStore::device_key(device_uid, device_name);
        self.assignments.insert(key.as_str(), profile_id);
        if uid_of(device_uid).is_some() {
            let by_name = key_for_name(device_name);
            self.assignments.insert(by_name.as_str(), profile_id);
        }
    }

    /// Gives a device a profile.
    pub fn assign(&mut self, device_uid: Option<&str>, device_name: &str, profile_id: &str) -> (r: Result<
        (),
        String,
    >)
        requires
            old(self).wf(),
        ensures
            final(self).wf(),
            unit_outcome(r) == assignment_verdict(old(self)@, device_name@, profile_id@),
            r is Ok ==> final(self)@ == (StoreModel {
                assignments: assigned(
                    old(self)@.assignments,
                    opt_str(device_uid),
                    device_name@,
                    profile_id@,
                ),
                ..old(self)@
            }),
            r is Err ==> final(self)@ == old(self)@,
    {
        if self.find(profile_id).is_none() {
            return Err(unknown_profile_message(profile_id));
        }
        if is_blank(device_name) {
            return Err("device name must not be empty".to_owned());
        }
        self.assign_keys(device_uid, device_name, profile_id);
        Ok(())
    }

    /// Sets the current route without saving.
    pub fn set_current_in_memory(
        &mut self,
        device_uid: Option<String>,
        device_name: Option<String>,
        profile_id: Option<String>,
    )
        requires
            old(self).wf(),
        ensures
            final(self).wf(),
            final(self)@ == (StoreModel {
                current_device_uid: opt_text(device_uid),
                current_device_name: opt_text(device_name),
                current_profile_id: opt_text(profile_id),
                ..old(self)@
            }),
    {
        self.current_device_uid = device_uid;
        self.current_device_name = device_name;
        self.current_profile_id = profile_id;
    }

    /// Records a route that was applied: it is current, and remembered for the device.
    pub fn record_route(&mut self, device_uid: Option<&str>, device_name: &str, profile_id: &str)
        requires
            old(self).wf(),
        ensures
            final(self).wf(),
            final(self)@ == with_route(old(self)@, opt_str(device_uid), device_name@, profile_id@),
    {
        self.current_device_uid = uid_of(device_uid);
        self.current_device_name = Some(device_name.to_owned());
        self.current_profile_id = Some(profile_id.to_owned());
        self.assign_keys(device_uid, device_name, profile_id);
    }

    /// Writes the live chain to the current profile, so edits are kept when the output is switched
    /// and switched back.
    pub fn sync_live_chain(
        &mut self,
        plugins: Vec<PluginConfig>,
        graph: Option<PluginGraphConfig>,
        input_channels: usize,
        output_channels: usize,
        now_unix_ms: u64,
    )
        requires
            old(self).wf(),
        ensures
            final(self).wf(),
            final(self)@ == with_live_chain(
                old(self)@,
                plugin_models(plugins@),
                opt_graph(graph),
                input_channels,
                output_channels,
                now_unix_ms,
            ),
    {
        let id = match &self.current_profile_id {
            Some(id) => id.clone(),
            None => "default".to_owned(),
        };
        let name = match self.find(id.as_str()) {
            Some(i) => self.profiles[i].name.clone(),
            None => if same_text(id.as_str(), "default") {
                "Default".to_owned()
            } else {
                id.clone()
            },
        };
        self.put(
            live_topology(
                id,
                name,
                plugins,
                graph,
                input_channels,
                output_channels,
                now_unix_ms,
            ),
        );
    }
}

/// Whether one profile is listed before another: by id, or by name first.
pub open spec fn listed_before(by_name: bool, a: ProfileModel, b: ProfileModel) -> bool {
    if by_name && a.name != b.name {
        text_before(a.name, b.name)
    } else {
        text_before(a.id, b.id)
    }
}

proof fn lemma_listed_transitive(by_name: bool, a: ProfileModel, b: ProfileModel, c: ProfileModel)
    requires
        listed_before(by_name, a, b),
        listed_before(by_name, b, c),
    ensures
        listed_before(by_name, a, c),
{
    if by_name && a.name != b.name && b.name != c.name {
        text_before_transitive(a.name, b.name, c.name);
        if a.name == c.name {
            text_before_irreflexive(a.name);
        }
    } else if !by_name || (a.name == b.name && b.name == c.name) {
        text_before_transitive(a.id, b.id, c.id);
    }
}

proof fn lemma_listed_total(by_name: bool, a: ProfileModel, b: ProfileModel)
    requires
        a.id != b.id,
        !listed_before(by_name, a, b),
    ensures
        listed_before(by_name, b, a),
{
    if by_name && a.name != b.name {
        text_before_total(a.name, b.name);
    } else {
        text_before_total(a.id, b.id);
    }
}

/// What a sequence of profiles stands for.
pub open spec fn profile_models(profiles: Seq<OutputProfile>) -> Seq<ProfileModel> {
    profiles.map_values(|p: OutputProfile| p@)
}

/// Whether profiles stand in listing order.
pub open spec fn in_listing_order(by_name: bool, list: Seq<ProfileModel>) -> bool {
    forall|i: int, j: int|
        0 <= i < j < list.len() ==> listed_before(by_name, #[trigger] list[i], #[trigger] list[j])
}

/// Whether a list holds exactly the profiles of a store, each once.
pub open spec fn lists_all(list: Seq<ProfileModel>, profiles: Map<Seq<char>, ProfileModel>) -> bool {
    &&& list.len() == profiles.dom().len()
    &&& forall|i: int|
        0 <= i < list.len() ==> profiles.dom().contains((#[trigger] list[i]).id)
            && profiles[list[i].id] == list[i]
    &&& forall|k: Seq<char>| #[trigger]
        profiles.dom().contains(k) ==> exists|i: int| 0 <= i < list.len() && (#[trigger] list[i]).id == k
}

fn goes_before(by_name: bool, a: &OutputProfile, b: &OutputProfile) -> (r: bool)
    ensures
        r == listed_before(by_name, a@, b@),
{
    if by_name && !same_text(a.name.as_str(), b.name.as_str()) {
        comes_before(a.name.as_str(), b.name.as_str())
    } else {
        comes_before(a.id.as_str(), b.id.as_str())
    }
}

fn place_profile(list: &mut Vec<OutputProfile>, profile: OutputProfile, by_name: bool)
    requires
        in_listing_order(by_name, profile_models(old(list)@)),
        forall|k: int| 0 <= k < old(list)@.len() ==> (#[trigger] old(list)@[k])@.id != profile@.id,
    ensures
        in_listing_order(by_name, profile_models(final(list)@)),
        exists|at: int|
            0 <= at <= old(list)@.len() && final(list)@ == #[trigger] old(list)@.insert(at, profile),
{
    let ghost before = list@;
    let mut at: usize = 0;
    while at < list.len() && goes_before(by_name, &list[at], &profile)
        invariant
            at <= list@.len(),
            list@ == before,
            forall|k: int| 0 <= k < at ==> listed_before(by_name, (#[trigger] before[k])@, profile@),
        decreases list@.len() - at,
    {
        at = at + 1;
    }
    let ghost p = at as int;
    let ghost model = profile@;
    proof {
        let models = profile_models(before);
        assert forall|k: int| p <= k < before.len() implies listed_before(
            by_name,
            model,
            (#[trigger] before[k])@,
        ) by {
            lemma_listed_total(by_name, before[p]@, model);
            if k > p {
                assert(listed_before(by_name, models[p], models[k]));
                lemma_listed_transitive(by_name, model, before[p]@, before[k]@);
            }
        }
        let after = profile_models(before.insert(p, profile));
        assert forall|i: int, j: int| 0 <= i < j < after.len() implies listed_before(
            by_name,
            #[trigger] after[i],
            #[trigger] after[j],
        ) by {
            let pi = if i < p { i } else { i - 1 };
            let pj = if j < p { j } else { j - 1 };
            if i != p {
                assert(after[i] == models[pi] && after[i] == before[pi]@);
            }
            if j != p {
                assert(after[j] == models[pj] && after[j] == before[pj]@);
            }
        }
    }
    list.insert(at, profile);
}

impl OutputProfileStore {
    fn listing(&self, by_name: bool) -> (r: Vec<OutputProfile>)
        requires
            self.wf(),
        ensures
            in_listing_order(by_name, profile_models(r@)),
            lists_all(profile_models(r@), self@.profiles),
    {
        let ghost pairs = profile_pairs(self.profiles@);
        let mut out: Vec<OutputProfile> = Vec::new();
        let mut i: usize = 0;
        while i < self.profiles.len()
            invariant
                i <= self.profiles.len(),
                self.wf(),
                pairs == profile_pairs(self.profiles@),
                out@.len() == i,
                in_listing_order(by_name, profile_models(out@)),
                forall|j: int|
                    0 <= j < out@.len() ==> exists|k: int|
                        0 <= k < i && (#[trigger] out@[j])@ == (#[trigger] self.profiles@[k])@,
                forall|k: int|
                    0 <= k < i ==> exists|j: int|
                        0 <= j < out@.len() && (#[trigger] out@[j])@ == (#[trigger] self.profiles@[k])@,
            decreases self.profiles.len() - i,
        {
            let copy = self.profiles[i].clone();
            let ghost before = out@;
            proof {
                assert forall|k: int| 0 <= k < out@.len() implies (#[trigger] out@[k])@.id != copy@.id by {
                    let m = choose|m: int|
                        0 <= m < i && out@[k]@ == (#[trigger] self.profiles@[m])@;
                    assert(pairs[m].0 != pairs[i as int].0);
                }
            }
            place_profile(&mut out, copy, by_name);
            proof {
                let at = choose|at: int|
                    0 <= at <= before.len() && out@ == #[trigger] before.insert(at, copy);
                assert forall|j: int| 0 <= j < out@.len() implies exists|k: int|
                    0 <= k < i + 1 && (#[trigger] out@[j])@ == (#[trigger] self.profiles@[k])@ by {
                    if j == at {
                        assert(out@[j]@ == self.profiles@[i as int]@);
                    } else {
                        let pj = if j < at { j } else { j - 1 };
                        assert(out@[j] == before[pj]);
                        let k = choose|k: int|
                            0 <= k < i && before[pj]@ == (#[trigger] self.profiles@[k])@;
                        assert(out@[j]@ == self.profiles@[k]@);
                    }
                }
                assert forall|k: int| 0 <= k < i + 1 implies exists|j: int|
                    0 <= j < out@.len() && (#[trigger] out@[j])@ == (#[trigger] self.profiles@[k])@ by {
                    if k == i {
                        assert(out@[at]@ == self.profiles@[k]@);
                    } else {
                        let j = choose|j: int|
                            0 <= j < before.len() && (#[trigger] before[j])@ == self.profiles@[k]@;
                        let nj = if j < at { j } else { j + 1 };
                        assert(out@[nj] == before[j]);
                        assert(out@[nj]@ == self.profiles@[k]@);
                    }
                }
            }
            i = i + 1;
        }
        proof {
            lemma_pairs_lookup(pairs);
            let models = profile_models(out@);
            assert forall|j: int| 0 <= j < models.len() implies self@.profiles.dom().contains(
                (#[trigger] models[j]).id,
            ) && self@.profiles[models[j].id] == models[j] by {
                let k = choose|k: int|
                    0 <= k < i && out@[j]@ == (#[trigger] self.profiles@[k])@;
                assert(pairs[k] == (models[j].id, models[j]));
            }
            assert forall|key: Seq<char>| #[trigger] self@.profiles.dom().contains(key) implies exists|j: int|
                0 <= j < models.len() && (#[trigger] models[j]).id == key by {
                let k = choose|k: int| 0 <= k < pairs.len() && (#[trigger] pairs[k]).0 == key;
                let j = choose|j: int|
                    0 <= j < out@.len() && (#[trigger] out@[j])@ == self.profiles@[k]@;
                assert(models[j].id == key);
            }
        }
        out
    }

    /// The profiles by name, and by id where names are the same.
    pub fn profiles_sorted(&self) -> (r: Vec<OutputProfile>)
        requires
            self.wf(),
        ensures
            in_listing_order(true, profile_models(r@)),
            lists_all(profile_models(r@), self@.profiles),
    {
        self.listing(true)
    }

    /// What to write to the profile file: the profiles by id, and everything else as it is.
    pub fn snapshot(&self) -> (r: PersistedOutputProfiles)
        requires
            self.wf(),
        ensures
            r.version == PROFILES_VERSION,
            in_listing_order(false, profile_models(r.profiles@)),
            lists_all(profile_models(r.profiles@), self@.profiles),
            r.assignments.wf(),
            r.assignments@ == self@.assignments,
            opt_text(r.current_device_uid) == self@.current_device_uid,
            opt_text(r.current_device_name) == self@.current_device_name,
            opt_text(r.current_profile_id) == self@.current_profile_id,
            r.next_id == self@.next_id,
    {
        PersistedOutputProfiles {
            version: PROFILES_VERSION,
            profiles: self.listing(false),
            assignments: self.assignments.clone(),
            current_device_uid: copy_opt_text(&self.current_device_uid),
            current_device_name: copy_opt_text(&self.current_device_name),
            current_profile_id: copy_opt_text(&self.current_profile_id),
            next_id: self.next_id,
        }
    }

    /// The store that a decoded profile file holds. A file of another version, or with a profile
    /// that is not valid, counts as no file.
    pub fn restore(persisted: Option<PersistedOutputProfiles>) -> (r: OutputProfileStore)
        requires
            persisted matches Some(p) ==> p.assignments.wf(),
        ensures
            r.wf(),
            r@ == restored(persisted),
    {
        let file = match persisted {
            Some(file) => file,
            None => {
                return OutputProfileStore::default();
            },
        };
        if file.version != PROFILES_VERSION {
            return OutputProfileStore::default();
        }
        let ghost models = profile_models(file.profiles@);
        let mut store = OutputProfileStore::default();
        let mut i: usize = 0;
        proof {
            assert(profile_pairs(file.profiles@).take(0) =~= Seq::empty());
        }
        while i < file.profiles.len()
            invariant
                i <= file.profiles.len(),
                models == profile_models(file.profiles@),
                persisted == Some(file),
                store.wf(),
                store@.profiles == pairs_map(profile_pairs(file.profiles@).take(i as int)),
                forall|k: int| 0 <= k < i ==> profile_verdict(#[trigger] models[k]) is Ok,
            decreases file.profiles.len() - i,
        {
            if file.profiles[i].validate().is_err() {
                proof {
                    assert(profile_verdict(models[i as int]) is Err);
                }
                return OutputProfileStore::default();
            }
            proof {
                let pairs = profile_pairs(file.profiles@);
                assert(pairs.take(i + 1).drop_last() =~= pairs.take(i as int));
            }
            store.put(file.profiles[i].clone());
            i = i + 1;
        }
        proof {
            assert(profile_pairs(file.profiles@).take(i as int) =~= profile_pairs(file.profiles@));
        }
        OutputProfileStore {
            profiles: store.profiles,
            assignments: file.assignments,
            current_device_uid: file.current_device_uid,
            current_device_name: file.current_device_name,
            current_profile_id: file.current_profile_id,
            next_id: if file.next_id > 1 { file.next_id } else { 1 },
        }
    }
}

/// What a decoded profile file stands for.
pub open spec fn restored(persisted: Option<PersistedOutputProfiles>) -> StoreModel {
    match persisted {
        None => empty_store(),
        Some(file) => if file.version != PROFILES_VERSION || exists|i: int|
            0 <= i < file.profiles@.len() && profile_verdict(
                #[trigger] profile_models(file.profiles@)[i],
            ) is Err {
            empty_store()
        } else {
            StoreModel {
                profiles: pairs_map(profile_pairs(file.profiles@)),
                assignments: file.assignments@,
                current_device_uid: opt_text(file.current_device_uid),
                current_device_name: opt_text(file.current_device_name),
                current_profile_id: opt_text(file.current_profile_id),
                next_id: if file.next_id > 1 { file.next_id } else { 1 },
            }
        },
    }
}

/// A saved store comes back as it was, provided its profiles are valid and its numbering has begun.
pub proof fn saved_stores_come_back(s: StoreModel, file: PersistedOutputProfiles)
    requires
        file.version == PROFILES_VERSION,
        in_listing_order(false, profile_models(file.profiles@)),
        lists_all(profile_models(file.profiles@), s.profiles),
        file.assignments@ == s.assignments,
        opt_text(file.current_device_uid) == s.current_device_uid,
        opt_text(file.current_device_name) == s.current_device_name,
        opt_text(file.current_profile_id) == s.current_profile_id,
        file.next_id == s.next_id,
        forall|k: Seq<char>| #[trigger] s.profiles.dom().contains(k) ==> profile_verdict(s.profiles[k]) is Ok,
        s.next_id >= 1,
    ensures
        restored(Some(file)) == s,
{
    let models = profile_models(file.profiles@);
    let pairs = profile_pairs(file.profiles@);
    assert forall|i: int, j: int| 0 <= i < j < pairs.len() implies (#[trigger] pairs[i]).0 != (
    #[trigger] pairs[j]).0 by {
        assert(listed_before(false, models[i], models[j]));
        text_before_irreflexive(models[i].id);
    }
    lemma_pairs_lookup(pairs);
    assert forall|k: Seq<char>| #[trigger] pairs_map(pairs).dom().contains(k) == s.profiles.dom().contains(k)
        && (s.profiles.dom().contains(k) ==> pairs_map(pairs)[k] == s.profiles[k]) by {
        if pairs_map(pairs).dom().contains(k) {
            let i = choose|i: int| 0 <= i < pairs.len() && (#[trigger] pairs[i]).0 == k;
            assert(s.profiles.dom().contains(models[i].id));
        }
        if s.profiles.dom().contains(k) {
            let i = choose|i: int| 0 <= i < models.len() && (#[trigger] models[i]).id == k;
            assert(pairs[i] == (k, models[i]));
        }
    }
    assert(pairs_map(pairs) =~= s.profiles);
    assert forall|i: int| 0 <= i < file.profiles@.len() implies profile_verdict(
        #[trigger] profile_models(file.profiles@)[i],
    ) is Ok by {
        assert(s.profiles.dom().contains(models[i].id));
    }
}

/// A key by UID is never a key by name.
pub proof fn uid_and_name_keys_differ(uid: Seq<char>, name: Seq<char>)
    ensures
        uid_key(uid) != name_key(name),
{
    reveal_strlit("uid:");
    reveal_strlit("name:");
    assert(uid_key(uid)[0] == 'u');
    assert(name_key(name)[0] == 'n');
}

/// A device that was given a profile, by assignment or by use, gets that profile back, whether it
/// is looked up by UID or by name alone.
pub proof fn assigned_profiles_are_recalled(
    s: StoreModel,
    device_uid: Option<Seq<char>>,
    device_name: Seq<char>,
    profile_id: Seq<char>,
)
    requires
        s.profiles.contains_key(profile_id),
    ensures
        ({
            let routed = with_route(s, device_uid, device_name, profile_id);
            let given = StoreModel {
                assignments: assigned(s.assignments, device_uid, device_name, profile_id),
                ..s
            };
            &&& resolved(routed, device_uid, device_name) == Some(profile_id)
            &&& resolved(routed, None, device_name) == Some(profile_id)
            &&& resolved(given, device_uid, device_name) == Some(profile_id)
            &&& resolved(given, None, device_name) == Some(profile_id)
        }),
{
    if let Some(uid) = known_uid(device_uid) {
        uid_and_name_keys_differ(uid, device_name);
    }
}

/// Two devices of the same name that differ in UID keep profiles of their own.
pub proof fn uids_tell_devices_apart(
    s: StoreModel,
    first_uid: Seq<char>,
    second_uid: Seq<char>,
    device_name: Seq<char>,
    first_id: Seq<char>,
    second_id: Seq<char>,
)
    requires
        s.profiles.contains_key(first_id),
        s.profiles.contains_key(second_id),
        trimmed(first_uid).len() > 0,
        trimmed(second_uid).len() > 0,
        trimmed(first_uid) != trimmed(second_uid),
    ensures
        ({
            let first = with_route(s, Some(first_uid), device_name, first_id);
            let both = with_route(first, Some(second_uid), device_name, second_id);
            &&& resolved(both, Some(first_uid), device_name) == Some(first_id)
            &&& resolved(both, Some(second_uid), device_name) == Some(second_id)
        }),
{
    let a = trimmed(first_uid);
    let b = trimmed(second_uid);
    uid_and_name_keys_differ(a, device_name);
    uid_and_name_keys_differ(b, device_name);
    if uid_key(a) == uid_key(b) {
        reveal_strlit("uid:");
        assert(a =~= uid_key(a).skip(4));
        assert(b =~= uid_key(b).skip(4));
    }
}

/// A removed profile is not assigned to any device, not current, and never resolved to.
pub proof fn removed_profiles_are_forgotten(
    s: StoreModel,
    profile_id: Seq<char>,
    device_uid: Option<Seq<char>>,
    device_name: Seq<char>,
)
    requires
        removal_verdict(s, profile_id) is Ok,
    ensures
        ({
            let after = without_profile(s, profile_id);
            &&& !after.profiles.contains_key(profile_id)
            &&& forall|k: Seq<char>| #[trigger]
                after.assignments.contains_key(k) ==> after.assignments[k] != profile_id
            &&& after.current_profile_id != Some(profile_id)
            &&& resolved(after, device_uid, device_name) != Some(profile_id)
            &&& s.profiles.contains_key("default"@) ==> after.profiles.contains_key("default"@)
        }),
{
}

/// Editing the live chain changes only the current profile, so switching outputs loses no chain:
/// the profiles of other outputs, and after a switch the one left behind, are unchanged.
pub proof fn switching_outputs_keeps_chains(
    s: StoreModel,
    plugins: Seq<PluginModel>,
    graph: Option<GraphModel>,
    input_channels: usize,
    output_channels: usize,
    now: u64,
    other_uid: Option<Seq<char>>,
    other_name: Seq<char>,
    other_id: Seq<char>,
)
    ensures
        ({
            let edited = with_live_chain(s, plugins, graph, input_channels, output_channels, now);
            let switched = with_route(edited, other_uid, other_name, other_id);
            &&& switched.profiles == edited.profiles
            &&& switched.profiles[current_id(s)].plugins == plugins
            &&& switched.profiles[current_id(s)].graph == graph
            &&& switched.profiles[current_id(s)].name == current_name(s)
            &&& forall|k: Seq<char>|
                k != current_id(s) ==> (#[trigger] edited.profiles.contains_key(k)
                    == s.profiles.contains_key(k) && edited.profiles[k] == s.profiles[k])
        }),
{
}

/// Once the live chain was adopted, every device has a profile.
pub proof fn adopted_stores_resolve_every_device(
    s: StoreModel,
    plugins: Seq<PluginModel>,
    graph: Option<GraphModel>,
    input_channels: usize,
    output_channels: usize,
    now: u64,
    device_uid: Option<Seq<char>>,
    device_name: Seq<char>,
)
    requires
        s.profiles.dom().len() == 0,
    ensures
        ({
            let after = with_default(s, plugins, graph, input_channels, output_channels, now);
            &&& resolved(after, device_uid, device_name) is Some
            &&& after.profiles["default"@].plugins == plugins
            &&& profile_verdict(after.profiles["default"@]) is Ok
        }),
{
    reveal_strlit("default");
    reveal_strlit("Default");
    reveal_strlit("rack");
    reveal_strlit("graph");
    assert(!crate::text::is_white_space('d') && !crate::text::is_white_space('t')
        && !crate::text::is_white_space('D'));
    assert(trimmed("default"@) == "default"@);
    assert(trimmed("Default"@) == "Default"@);
    assert(vstd::utf8::is_ascii_chars("default"@));
    assert(vstd::utf8::is_ascii_chars("Default"@));
    vstd::utf8::is_ascii_chars_encode_utf8("default"@);
    vstd::utf8::is_ascii_chars_encode_utf8("Default"@);
}

/// A profile is valid exactly if its id and its name are there and not too long, and it is a rack, or a
/// graph that it carries.
pub proof fn valid_profiles_are_complete(p: ProfileModel)
    ensures
        profile_verdict(p) is Ok <==> {
            &&& trimmed(p.id).len() > 0 && encode_utf8(p.id).len() <= 64
            &&& trimmed(p.name).len() > 0 && encode_utf8(p.name).len() <= 80
            &&& p.topology == "rack"@ || (p.topology == "graph"@ && p.graph is Some)
        },
{
    reveal_strlit("rack");
    reveal_strlit("graph");
    assert("rack"@.len() == 4 && "graph"@.len() == 5);
}

/// The profile of a device is that of its UID, else that of its name, else the default one, and always
/// one that exists. A device without a UID of its own is known by its name, and white space around
/// either makes no difference.
pub proof fn devices_have_the_nearest_profile(s: StoreModel, uid: Option<Seq<char>>, name: Seq<char>)
    ensures
        ({
            let r = resolved(s, uid, name);
            let of_uid = "uid:"@ + trimmed(uid->0);
            let of_name = "name:"@ + trimmed(name);
            let has_uid = uid is Some && trimmed(uid->0).len() > 0;
            let by_uid = has_uid && s.assignments.contains_key(of_uid) && s.profiles.contains_key(
                s.assignments[of_uid],
            );
            let by_name = s.assignments.contains_key(of_name) && s.profiles.contains_key(
                s.assignments[of_name],
            );
            &&& r matches Some(id) ==> s.profiles.contains_key(id)
            &&& by_uid ==> r == Some(s.assignments[of_uid])
            &&& !by_uid && by_name ==> r == Some(s.assignments[of_name])
            &&& !by_uid && !by_name && s.profiles.contains_key("default"@) ==> r == Some("default"@)
            &&& !by_uid && !by_name && !s.profiles.contains_key("default"@) ==> r is None
            &&& !has_uid ==> r == resolved(s, None, name)
            &&& device_key_of(uid, name) == if has_uid {
                of_uid
            } else {
                of_name
            }
        }),
{
}

/// Assigning a profile changes what is remembered of that device and of no other: keys other than the
/// device's own keep what they had, and no profile changes.
pub proof fn assignments_touch_one_device(
    s: StoreModel,
    uid: Option<Seq<char>>,
    name: Seq<char>,
    id: Seq<char>,
    key: Seq<char>,
)
    ensures
        ({
            let after = with_route(s, uid, name, id);
            &&& after.profiles == s.profiles && after.next_id == s.next_id
            &&& after.current_profile_id == Some(id) && after.current_device_name == Some(name)
            &&& after.current_device_uid == if uid is Some && trimmed(uid->0).len() > 0 {
                Some(trimmed(uid->0))
            } else {
                None
            }
            &&& key != "name:"@ + trimmed(name) && !(uid is Some && key == "uid:"@ + trimmed(uid->0))
                ==> after.assignments.contains_key(key) == s.assignments.contains_key(key)
                && after.assignments[key] == s.assignments[key]
        }),
{
}

/// Writing the live chain fills the current profile with that chain and its channels, at least one of
/// each, as a graph where there is one and as a rack where there is none, keeps its name, and leaves
/// everything else as it is.
pub proof fn live_chains_fill_the_current_profile(
    s: StoreModel,
    plugins: Seq<PluginModel>,
    graph: Option<GraphModel>,
    input_channels: usize,
    output_channels: usize,
    now: u64,
)
    requires
        input_channels >= 1,
        output_channels >= 1,
    ensures
        ({
            let after = with_live_chain(s, plugins, graph, input_channels, output_channels, now);
            let id = match s.current_profile_id {
                Some(id) => id,
                None => "default"@,
            };
            let p = after.profiles[id];
            &&& after.profiles.contains_key(id)
            &&& p.id == id && p.plugins == plugins && p.graph == graph
            &&& p.input_channels == input_channels && p.output_channels == output_channels
            &&& p.updated_at_unix_ms == now
            &&& p.topology == if graph is Some { "graph"@ } else { "rack"@ }
            &&& s.profiles.contains_key(id) ==> p.name == s.profiles[id].name
            &&& after.assignments == s.assignments && after.next_id == s.next_id
            &&& after.current_profile_id == s.current_profile_id
            &&& after.current_device_uid == s.current_device_uid
            &&& after.current_device_name == s.current_device_name
        }),
{
}

/// Adopting the live chain makes it the default profile of an empty store, with its channels, and
/// leaves a store that has profiles alone.
pub proof fn adoption_keeps_the_live_chain(
    s: StoreModel,
    plugins: Seq<PluginModel>,
    graph: Option<GraphModel>,
    input_channels: usize,
    output_channels: usize,
    now: u64,
)
    requires
        input_channels >= 1,
        output_channels >= 1,
    ensures
        ({
            let after = with_default(s, plugins, graph, input_channels, output_channels, now);
            let p = after.profiles["default"@];
            &&& s.profiles.dom().len() > 0 ==> after == s
            &&& s.profiles.dom().len() == 0 ==> {
                &&& after.profiles.contains_key("default"@)
                &&& p.id == "default"@ && p.name == "Default"@ && p.plugins == plugins && p.graph == graph
                &&& p.input_channels == input_channels && p.output_channels == output_channels
                &&& p.updated_at_unix_ms == now
                &&& p.topology == if graph is Some { "graph"@ } else { "rack"@ }
                &&& after.assignments == s.assignments && after.current_profile_id
                    == s.current_profile_id && after.next_id == s.next_id
            }
        }),
{
}

/// A profile is stored as it was given, with the time of its change, under its own id or under a fresh
/// number where it came without one. Numbers are handed out once.
pub proof fn stored_profiles_keep_their_content(s: StoreModel, p: ProfileModel, now: u64)
    requires
        s.next_id < u64::MAX,
    ensures
        ({
            let kept = stamped(s, p, now);
            let after = numbered(s, p);
            let fresh = trimmed(p.id).len() == 0;
            &&& kept.name == p.name && kept.topology == p.topology && kept.plugins == p.plugins
            &&& kept.graph == p.graph && kept.input_channels == p.input_channels
            &&& kept.output_channels == p.output_channels && kept.updated_at_unix_ms == now
            &&& !fresh ==> kept.id == p.id && after == s
            &&& fresh ==> kept.id == "profile-"@ + decimal(s.next_id as nat) && after.next_id
                == s.next_id + 1
            &&& after.profiles == s.profiles && after.assignments == s.assignments
                && after.current_profile_id == s.current_profile_id
        }),
{
}

/// The default profile cannot be removed, nor one that is not there, and every other one can. Removing
/// one leaves the others and what is assigned to them as they are.
pub proof fn removal_touches_one_profile(s: StoreModel, id: Seq<char>, other: Seq<char>, key: Seq<char>)
    requires
        other != id,
    ensures
        removal_verdict(s, id) is Ok <==> id != "default"@ && s.profiles.contains_key(id),
        ({
            let after = without_profile(s, id);
            &&& after.profiles.contains_key(other) == s.profiles.contains_key(other)
            &&& s.profiles.contains_key(other) ==> after.profiles[other] == s.profiles[other]
            &&& s.assignments.contains_key(key) && s.assignments[key] == other
                ==> after.assignments.contains_key(key) && after.assignments[key] == other
            &&& after.assignments.contains_key(key) ==> s.assignments.contains_key(key)
            &&& s.current_profile_id == Some(other) ==> after.current_profile_id == Some(other)
            &&& s.current_profile_id == Some(id) ==> after.current_profile_id == Some("default"@)
            &&& after.current_device_uid == s.current_device_uid && after.current_device_name
                == s.current_device_name && after.next_id == s.next_id
        }),
        assignment_verdict(s, key, other) is Ok <==> s.profiles.contains_key(other) && trimmed(key).len()
            > 0,
{
}

/// A profile that was stored can be read back under its id, with what was stored and the time of
/// storing.
pub proof fn stored_profiles_can_be_read(
    store: &mut OutputProfileStore,
    profile: OutputProfile,
    now: u64,
    out: Result<String, String>,
    id: &str,
    found: Option<&OutputProfile>,
)
    requires
        call_ensures(OutputProfileStore::upsert, (store, profile, now), out),
        call_ensures(OutputProfileStore::get, (final(store), id), found),
        out matches Ok(written) && written@ == id@,
    ensures
        found matches Some(p) && p@.id == id@ && p@.name == profile@.name && p@.topology
            == profile@.topology && p@.plugins == profile@.plugins && p@.graph == profile@.graph
            && p@.input_channels == profile@.input_channels && p@.output_channels
            == profile@.output_channels && p@.updated_at_unix_ms == now,
        trimmed(profile@.id).len() > 0 ==> id@ == profile@.id,
{
}

/// A profile that was removed cannot be read any more.
pub proof fn removed_profiles_cannot_be_read(
    store: &mut OutputProfileStore,
    id: &str,
    out: Result<(), String>,
    found: Option<&OutputProfile>,
)
    requires
        call_ensures(OutputProfileStore::remove, (store, id), out),
        call_ensures(OutputProfileStore::get, (final(store), id), found),
    ensures
        out is Ok ==> found is None,
        out is Ok <==> id@ != "default"@ && old(store)@.profiles.contains_key(id@),
        out is Err ==> final(store)@ == old(store)@,
{
}

/// What is in use is what was last said to be.
pub proof fn current_routes_are_remembered(
    store: &mut OutputProfileStore,
    uid: Option<String>,
    name: Option<String>,
    id: Option<String>,
    told: (Option<String>, Option<String>, Option<String>),
)
    requires
        call_ensures(OutputProfileStore::set_current_in_memory, (store, uid, name, id), ()),
        call_ensures(OutputProfileStore::current, (final(store),), told),
    ensures
        opt_text(told.0) == opt_text(id),
        opt_text(told.1) == opt_text(uid),
        opt_text(told.2) == opt_text(name),
        final(store)@.profiles == old(store)@.profiles,
        final(store)@.assignments == old(store)@.assignments,
        final(store)@.next_id == old(store)@.next_id,
{
}

/// A file of profiles is read up to 256 KiB.
pub proof fn large_profile_files_are_refused(len: u64, refusal: Option<String>)
    requires
        call_ensures(refuse_profiles_file, (len,), refusal),
    ensures
        refusal is Some <==> len > 262_144,
        refusal matches Some(text) ==> text@ == "output profiles exceed the on-disk size limit"@,
{
}

} // verus!
