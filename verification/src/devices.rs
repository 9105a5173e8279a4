//! The daemon's view of output devices: what clients are shown, what is cached and for how long,
//! and waiting for a device to appear.

use crate::json::{
    add_entry, json_member, json_of, json_text, list_of, Json, JsonNum, JsonObject, JsonValue,
};
use crate::pipeline::count_json;
use crate::text::{join3, same_text};
use vstd::prelude::*;

verus! {

/// How long an observation of the devices counts, in nanoseconds.
pub const DEVICE_CACHE_TTL: u64 = 2_000_000_000;

/// An observation and when it was made, in nanoseconds on a clock that does not run backwards.
#[derive(Debug)]
pub struct Cached<T> {
    pub observed_at: u64,
    pub value: T,
}

/// Whether an observation still counts.
pub open spec fn is_recent(observed_at: u64, now: u64) -> bool {
    now <= observed_at || now - observed_at <= DEVICE_CACHE_TTL
}

impl<T> Cached<T> {
    /// Whether the observation still counts.
    pub fn is_fresh(&self, now: u64) -> (r: bool)
        ensures
            r == is_recent(self.observed_at, now),
    {
        now <= self.observed_at || now - self.observed_at <= DEVICE_CACHE_TTL
    }
}

/// An output device as the system reports it.
#[derive(Debug)]
pub struct OutputDeviceInfo {
    pub name: String,
    /// The channels and the sample rate of its default format.
    pub format: Option<(u16, u32)>,
}

/// What an `OutputDeviceInfo` stands for.
#[verifier::ext_equal]
pub struct DeviceModel {
    pub name: Seq<char>,
    pub format: Option<(u16, u32)>,
}

impl View for OutputDeviceInfo {
    type V = DeviceModel;

    open spec fn view(&self) -> DeviceModel {
        DeviceModel { name: self.name@, format: self.format }
    }
}

/// The entry of the default device.
pub open spec fn default_entry(name: Seq<char>) -> Json {
    Json::Object(map!["name"@ => Json::Text(name), "is_default"@ => Json::Bool(true)])
}

/// The entry of another device.
pub open spec fn device_entry(device: DeviceModel) -> Json {
    let plain = map!["name"@ => Json::Text(device.name), "is_default"@ => Json::Bool(false)];
    Json::Object(
        match device.format {
            Some(format) => plain.insert("channels"@, count_json(format.0 as int)).insert(
                "sample_rate"@,
                count_json(format.1 as int),
            ),
            None => plain,
        },
    )
}

/// The entry of an ASIO device.
pub open spec fn asio_entry(name: Seq<char>) -> Json {
    Json::Object(
        map![
            "name"@ => Json::Text(name),
            "is_default"@ => Json::Bool(false),
            "backend"@ => Json::Text("ASIO"@),
        ],
    )
}

/// The entries of the devices but the default one, which is listed already.
pub open spec fn other_entries(default_name: Option<Seq<char>>, devices: Seq<DeviceModel>) -> Seq<Json> {
    devices.filter(|d: DeviceModel| default_name != Some(d.name)).map_values(
        |d: DeviceModel| device_entry(d),
    )
}

/// The device list: the default device first, then the others, then ASIO devices.
pub open spec fn device_list(
    default_name: Option<Seq<char>>,
    devices: Seq<DeviceModel>,
    asio: Seq<Seq<char>>,
) -> Seq<Json> {
    (match default_name {
        Some(name) => seq![default_entry(name)],
        None => Seq::<Json>::empty(),
    }) + other_entries(default_name, devices) + asio.map_values(|name: Seq<char>| asio_entry(name))
}

/// What a sequence of devices stands for.
pub open spec fn device_models(devices: Seq<OutputDeviceInfo>) -> Seq<DeviceModel> {
    devices.map_values(|d: OutputDeviceInfo| d@)
}

/// The view of a device list or an error.
pub open spec fn listing_outcome(r: Result<Vec<JsonValue>, String>) -> Result<Seq<Json>, Seq<char>> {
    match r {
        Ok(list) => Ok(list_of(list@)),
        Err(e) => Err(e@),
    }
}

fn entry_for(device: &OutputDeviceInfo) -> (r: JsonValue)
    ensures
        r@ == device_entry(device@),
{
    let mut out = JsonObject::new();
    out.put_text("name", device.name.as_str());
    out.put_bool("is_default", false);
    if let Some((channels, sample_rate)) = device.format {
        out.put_unsigned("channels", channels as u64);
        out.put_unsigned("sample_rate", sample_rate as u64);
    }
    out.finish()
}

/// What clients are shown: the default device first, then the others, then ASIO devices.
pub fn list_audio_devices(
    default_name: &Option<String>,
    devices: &Vec<OutputDeviceInfo>,
    asio: &Vec<String>,
) -> (r: Result<Vec<JsonValue>, String>)
    ensures
        ({
            let list = device_list(
                crate::output_device::opt_text(*default_name),
                device_models(devices@),
                crate::state::text_models(asio@),
            );
            listing_outcome(r) == if list.len() == 0 {
                Err::<Seq<Json>, Seq<char>>("No audio devices found"@)
            } else {
                Ok(list)
            }
        }),
{
    let ghost known = crate::output_device::opt_text(*default_name);
    let ghost models = device_models(devices@);
    let ghost keep = |d: DeviceModel| known != Some(d.name);
    let ghost show = |d: DeviceModel| device_entry(d);
    let ghost asio_models = crate::state::text_models(asio@);
    let ghost show_asio = |name: Seq<char>| asio_entry(name);
    let mut out: Vec<JsonValue> = Vec::new();
    proof {
        assert(list_of(out@) =~= Seq::<Json>::empty());
    }
    if let Some(name) = default_name {
        let mut entry = JsonObject::new();
        entry.put_text("name", name.as_str());
        entry.put_bool("is_default", true);
        add_entry(&mut out, entry.finish());
    }
    let ghost head = list_of(out@);
    proof {
        assert(head =~= match known {
            Some(name) => seq![default_entry(name)],
            None => Seq::<Json>::empty(),
        });
        reveal(Seq::filter);
        assert(models.take(0).filter(keep).map_values(show) =~= Seq::<Json>::empty());
    }
    let mut i: usize = 0;
    while i < devices.len()
        invariant
            i <= devices.len(),
            models == device_models(devices@),
            known == crate::output_device::opt_text(*default_name),
            keep == (|d: DeviceModel| known != Some(d.name)),
            show == (|d: DeviceModel| device_entry(d)),
            list_of(out@) == head + models.take(i as int).filter(keep).map_values(show),
        decreases devices.len() - i,
    {
        let listed = match default_name {
            Some(name) => same_text(name.as_str(), devices[i].name.as_str()),
            None => false,
        };
        proof {
            reveal(Seq::filter);
            assert(models.take(i + 1).drop_last() =~= models.take(i as int));
            assert(models.take(i + 1).last() == models[i as int]);
        }
        let ghost so_far = models.take(i as int).filter(keep);
        if !listed {
            add_entry(&mut out, entry_for(&devices[i]));
            proof {
                assert(so_far.push(models[i as int]).map_values(show) =~= so_far.map_values(show).push(
                    device_entry(models[i as int]),
                ));
                assert(list_of(out@) =~= head + so_far.push(models[i as int]).map_values(show));
            }
        }
        i = i + 1;
    }
    let ghost front = list_of(out@);
    proof {
        assert(models.take(i as int) =~= models);
        assert(asio_models.take(0).map_values(show_asio) =~= Seq::<Json>::empty());
        assert(front + Seq::<Json>::empty() =~= front);
    }
    let mut j: usize = 0;
    while j < asio.len()
        invariant
            j <= asio.len(),
            asio_models == crate::state::text_models(asio@),
            show_asio == (|name: Seq<char>| asio_entry(name)),
            list_of(out@) == front + asio_models.take(j as int).map_values(show_asio),
        decreases asio.len() - j,
    {
        let mut entry = JsonObject::new();
        entry.put_text("name", asio[j].as_str());
        entry.put_bool("is_default", false);
        entry.put_text("backend", "ASIO");
        add_entry(&mut out, entry.finish());
        proof {
            assert(asio_models.take(j + 1) =~= asio_models.take(j as int).push(asio_models[j as int]));
            assert(list_of(out@) =~= front + asio_models.take(j + 1).map_values(show_asio));
        }
        j = j + 1;
    }
    proof {
        assert(asio_models.take(j as int) =~= asio_models);
        assert(list_of(out@).len() == out@.len());
    }
    if out.len() == 0 {
        Err("No audio devices found".to_owned())
    } else {
        Ok(out)
    }
}

/// An output format that a device supports.
#[derive(Debug, Clone, Copy, PartialEq, Eq, Structural)]
pub struct OutputFormat {
    pub min_sample_rate: u32,
    pub max_sample_rate: u32,
    pub channels: u16,
}

/// Whether a format covers a rate.
pub open spec fn covers(format: OutputFormat, rate: u32) -> bool {
    format.min_sample_rate <= rate <= format.max_sample_rate
}

/// The most channels of the formats that cover a rate, where one does.
pub open spec fn most_channels(formats: Seq<OutputFormat>, rate: u32) -> Option<u16>
    decreases formats.len(),
{
    if formats.len() == 0 {
        None
    } else {
        let front = most_channels(formats.drop_last(), rate);
        let last = formats.last();
        if !covers(last, rate) || (front is Some && front->0 >= last.channels) {
            front
        } else {
            Some(last.channels)
        }
    }
}

/// How many channels a device plays at a rate: the most of a format that covers the rate, else
/// those of its default format.
pub open spec fn usable_channels(
    device_name: Seq<char>,
    formats: Seq<OutputFormat>,
    rate: u32,
    default_channels: Option<u16>,
) -> Result<usize, Seq<char>> {
    let most = most_channels(formats, rate);
    if most is Some {
        Ok(most->0 as usize)
    } else if default_channels is Some {
        Ok(default_channels->0 as usize)
    } else {
        Err("Output device '"@ + device_name + "' does not report a usable channel layout"@)
    }
}

/// The view of a channel count or an error.
pub open spec fn count_outcome(r: Result<usize, String>) -> Result<usize, Seq<char>> {
    match r {
        Ok(n) => Ok(n),
        Err(e) => Err(e@),
    }
}

/// How many channels a device plays at a rate.
pub fn max_channels_for_rate(
    device_name: &str,
    formats: &Vec<OutputFormat>,
    sample_rate: u32,
    default_channels: Option<u16>,
) -> (r: Result<usize, String>)
    ensures
        count_outcome(r) == usable_channels(device_name@, formats@, sample_rate, default_channels),
{
    let mut best: Option<u16> = None;
    let mut i: usize = 0;
    while i < formats.len()
        invariant
            i <= formats.len(),
            best == most_channels(formats@.take(i as int), sample_rate),
        decreases formats.len() - i,
    {
        let format = formats[i];
        proof {
            assert(formats@.take(i + 1).drop_last() =~= formats@.take(i as int));
        }
        if format.min_sample_rate <= sample_rate && sample_rate <= format.max_sample_rate {
            let better = match best {
                Some(channels) => format.channels > channels,
                None => true,
            };
            if better {
                best = Some(format.channels);
            }
        }
        i = i + 1;
    }
    proof {
        assert(formats@.take(i as int) =~= formats@);
    }
    match (best, default_channels) {
        (Some(channels), _) => Ok(channels as usize),
        (None, Some(channels)) => Ok(channels as usize),
        (None, None) => Err(
            join3(
                "Output device '",
                device_name,
                "' does not report a usable channel layout",
            ),
        ),
    }
}

/// A cached channel count of a device at a rate.
#[derive(Debug)]
pub struct ChannelEntry {
    pub device: String,
    pub sample_rate: u32,
    pub cached: Cached<usize>,
}

/// The cached view of the devices. A short time to live makes changes visible soon.
#[derive(Debug)]
pub struct DeviceRegistry {
    pub generation: u64,
    pub devices: Option<Cached<Vec<JsonValue>>>,
    pub max_output_channels: Vec<ChannelEntry>,
}

/// What a cached channel count says.
#[verifier::ext_equal]
pub struct ChannelFact {
    pub observed_at: u64,
    pub channels: usize,
}

/// What the cached channel counts say, the latest of each device and rate.
pub open spec fn channel_facts(entries: Seq<ChannelEntry>) -> Map<(Seq<char>, u32), ChannelFact>
    decreases entries.len(),
{
    if entries.len() == 0 {
        Map::empty()
    } else {
        let last = entries.last();
        channel_facts(entries.drop_last()).insert(
            (last.device@, last.sample_rate),
            ChannelFact { observed_at: last.cached.observed_at, channels: last.cached.value },
        )
    }
}

/// What a `DeviceRegistry` stands for.
#[verifier::ext_equal]
pub struct RegistryModel {
    pub generation: u64,
    pub devices: Option<(u64, Seq<Json>)>,
    pub channels: Map<(Seq<char>, u32), ChannelFact>,
}

impl View for DeviceRegistry {
    type V = RegistryModel;

    open spec fn view(&self) -> RegistryModel {
        RegistryModel {
            generation: self.generation,
            devices: match self.devices {
                Some(cached) => Some((cached.observed_at, list_of(cached.value@))),
                None => None,
            },
            channels: channel_facts(self.max_output_channels@),
        }
    }
}

/// The generation after a change of the list.
pub open spec fn next_list(generation: u64) -> u64 {
    if generation == u64::MAX {
        generation
    } else {
        (generation + 1) as u64
    }
}

fn copy_list(list: &Vec<JsonValue>) -> (r: Vec<JsonValue>)
    ensures
        list_of(r@) == list_of(list@),
{
    let mut out: Vec<JsonValue> = Vec::new();
    let mut i: usize = 0;
    while i < list.len()
        invariant
            i <= list.len(),
            out.len() == i,
            forall|k: int| 0 <= k < i ==> json_of(#[trigger] out@[k]) == json_of(list@[k]),
        decreases list.len() - i,
    {
        out.push(list[i].clone());
        i = i + 1;
    }
    proof {
        assert(list_of(out@) =~= list_of(list@));
    }
    out
}

impl Default for DeviceRegistry {
    fn default() -> (r: DeviceRegistry)
        ensures
            r@ == (RegistryModel { generation: 0, devices: None, channels: Map::empty() }),
    {
        DeviceRegistry { generation: 0, devices: None, max_output_channels: Vec::new() }
    }
}

impl DeviceRegistry {
    /// The cached list, where it still counts.
    pub fn cached_devices(&self, now: u64) -> (r: Option<(u64, Vec<JsonValue>)>)
        ensures
            match r {
                Some(found) => self@.devices is Some && is_recent((self@.devices->0).0, now) && found.0
                    == self@.generation && list_of(found.1@) == (self@.devices->0).1,
                None => self@.devices is None || !is_recent((self@.devices->0).0, now),
            },
    {
        match &self.devices {
            Some(cached) => if cached.is_fresh(now) {
                Some((self.generation, copy_list(&cached.value)))
            } else {
                None
            },
            None => None,
        }
    }

    /// Caches a list that was just read. Returns its generation.
    pub fn store_devices(&mut self, now: u64, devices: &Vec<JsonValue>) -> (r: u64)
        ensures
            r == next_list(old(self)@.generation),
            final(self)@ == (RegistryModel {
                generation: r,
                devices: Some((now, list_of(devices@))),
                channels: old(self)@.channels,
            }),
    {
        self.generation = self.generation.saturating_add(1);
        self.devices = Some(Cached { observed_at: now, value: copy_list(devices) });
        self.generation
    }

    /// The cached channel count of a device at a rate, where it still counts.
    pub fn cached_max_output_channels(&self, selected_device: &str, sample_rate: u32, now: u64) -> (r: Option<
        usize,
    >)
        ensures
            ({
                let key = (selected_device@, sample_rate);
                r == if self@.channels.dom().contains(key) && is_recent(
                    self@.channels[key].observed_at,
                    now,
                ) {
                    Some(self@.channels[key].channels)
                } else {
                    None
                }
            }),
    {
        let ghost key = (selected_device@, sample_rate);
        let mut n: usize = self.max_output_channels.len();
        proof {
            assert(self.max_output_channels@.take(n as int) =~= self.max_output_channels@);
        }
        while n > 0
            invariant
                n <= self.max_output_channels@.len(),
                key == (selected_device@, sample_rate),
                channel_facts(self.max_output_channels@.take(n as int)).dom().contains(key)
                    == self@.channels.dom().contains(key),
                self@.channels.dom().contains(key) ==> channel_facts(
                    self.max_output_channels@.take(n as int),
                )[key] == self@.channels[key],
            decreases n,
        {
            let entry = &self.max_output_channels[n - 1];
            proof {
                assert(self.max_output_channels@.take(n as int).drop_last()
                    =~= self.max_output_channels@.take(n - 1));
            }
            if entry.sample_rate == sample_rate && same_text(entry.device.as_str(), selected_device) {
                return if entry.cached.is_fresh(now) {
                    Some(entry.cached.value)
                } else {
                    None
                };
            }
            n = n - 1;
        }
        None
    }

    /// Caches a channel count that was just read.
    pub fn store_max_output_channels(
        &mut self,
        selected_device: &str,
        sample_rate: u32,
        channels: usize,
        now: u64,
    )
        ensures
            final(self)@ == (RegistryModel {
                channels: old(self)@.channels.insert(
                    (selected_device@, sample_rate),
                    ChannelFact { observed_at: now, channels },
                ),
                ..old(self)@
            }),
    {
        let ghost key = (selected_device@, sample_rate);
        let ghost fact = ChannelFact { observed_at: now, channels };
        let mut i: usize = 0;
        while i < self.max_output_channels.len()
            invariant
                i <= self.max_output_channels@.len(),
                key == (selected_device@, sample_rate),
                self.generation == old(self).generation,
                self.devices == old(self).devices,
                channel_facts(self.max_output_channels@).insert(key, fact) == old(self)@.channels.insert(
                    key,
                    fact,
                ),
            decreases self.max_output_channels@.len() - i,
        {
            if self.max_output_channels[i].sample_rate == sample_rate && same_text(
                self.max_output_channels[i].device.as_str(),
                selected_device,
            ) {
                proof {
                    lemma_drop_entry(self.max_output_channels@, i as int, key, fact);
                }
                self.max_output_channels.remove(i);
            } else {
                i = i + 1;
            }
        }
        let entry = ChannelEntry {
            device: selected_device.to_owned(),
            sample_rate,
            cached: Cached { observed_at: now, value: channels },
        };
        proof {
            assert(self.max_output_channels@.push(entry).drop_last() =~= self.max_output_channels@);
        }
        self.max_output_channels.push(entry);
    }

    /// Forgets everything that was cached.
    pub fn invalidate(&mut self)
        ensures
            final(self)@ == (RegistryModel {
                generation: next_list(old(self)@.generation),
                devices: None,
                channels: Map::empty(),
            }),
    {
        self.generation = self.generation.saturating_add(1);
        self.devices = None;
        self.max_output_channels.clear();
    }
}

proof fn lemma_drop_entry(entries: Seq<ChannelEntry>, at: int, key: (Seq<char>, u32), fact: ChannelFact)
    requires
        0 <= at < entries.len(),
        (entries[at].device@, entries[at].sample_rate) == key,
    ensures
        channel_facts(entries.remove(at)).insert(key, fact) == channel_facts(entries).insert(key, fact),
    decreases entries.len(),
{
    let last = entries.last();
    let front = entries.drop_last();
    if at == entries.len() - 1 {
        assert(entries.remove(at) =~= front);
        assert(channel_facts(front).insert(key, fact) =~= channel_facts(entries).insert(key, fact));
    } else {
        lemma_drop_entry(front, at, key, fact);
        assert(entries.remove(at).drop_last() =~= front.remove(at));
        assert(entries.remove(at).last() == last);
        let k = (last.device@, last.sample_rate);
        let v = ChannelFact { observed_at: last.cached.observed_at, channels: last.cached.value };
        let a = channel_facts(front.remove(at));
        let b = channel_facts(front);
        assert(a.insert(k, v).insert(key, fact) =~= a.insert(key, fact).insert(k, v).insert(key, fact));
        assert(b.insert(k, v).insert(key, fact) =~= b.insert(key, fact).insert(k, v).insert(key, fact));
    }
}

/// What to do while waiting for a device.
#[derive(Debug, Clone, Copy, PartialEq, Eq, Structural)]
pub enum DeviceWait {
    /// The device was seen.
    Found,
    /// The wait is over without it.
    GiveUp,
    /// Look again after so many nanoseconds.
    Sleep(u64),
}

/// The longest pause between two looks, in nanoseconds.
pub const DEVICE_WAIT_POLL: u64 = 500_000_000;

/// Whether an entry is of a device with the name `name`.
pub open spec fn has_name(entry: Json, name: Seq<char>) -> bool {
    match json_member(entry, "name"@) {
        Some(value) => json_text(value) == Some(name),
        None => false,
    }
}

/// Whether a list shows a device.
pub open spec fn shows_device(list: Seq<Json>, name: Seq<char>) -> bool {
    exists|i: int| 0 <= i < list.len() && has_name(#[trigger] list[i], name)
}

fn list_shows(list: &Vec<JsonValue>, name: &str) -> (r: bool)
    ensures
        r == shows_device(list_of(list@), name@),
{
    let mut i: usize = 0;
    while i < list.len()
        invariant
            i <= list.len(),
            forall|k: int| 0 <= k < i ==> !has_name(#[trigger] list_of(list@)[k], name@),
        decreases list.len() - i,
    {
        let here = match list[i].member("name") {
            Some(value) => match value.as_text() {
                Some(text) => same_text(text, name),
                None => false,
            },
            None => false,
        };
        if here {
            proof {
                assert(has_name(list_of(list@)[i as int], name@));
            }
            return true;
        }
        i = i + 1;
    }
    false
}

/// One look while waiting for a device. A list that could not be read counts as one without the
/// device. A shutdown ends the wait before anything else.
pub fn device_wait_step(
    name: &str,
    listed: &Result<Vec<JsonValue>, String>,
    keep_going: bool,
    now: u64,
    deadline: u64,
) -> (r: DeviceWait)
    ensures
        r == if !keep_going {
            DeviceWait::GiveUp
        } else if listing_outcome(*listed) is Ok && shows_device(listing_outcome(*listed)->Ok_0, name@) {
            DeviceWait::Found
        } else if now >= deadline {
            DeviceWait::GiveUp
        } else if deadline - now < DEVICE_WAIT_POLL {
            DeviceWait::Sleep((deadline - now) as u64)
        } else {
            DeviceWait::Sleep(DEVICE_WAIT_POLL)
        },
{
    if !keep_going {
        return DeviceWait::GiveUp;
    }
    if let Ok(list) = listed {
        if list_shows(list, name) {
            return DeviceWait::Found;
        }
    }
    if now >= deadline {
        return DeviceWait::GiveUp;
    }
    if deadline - now < DEVICE_WAIT_POLL {
        DeviceWait::Sleep(deadline - now)
    } else {
        DeviceWait::Sleep(DEVICE_WAIT_POLL)
    }
}

/// What was observed counts for two seconds and no longer.
pub proof fn observations_age(observed_at: u64, now: u64)
    requires
        observed_at <= now,
    ensures
        is_recent(observed_at, now) <==> now - observed_at <= 2_000_000_000,
{
}

/// The channels of a device are the most that any of its formats has at the rate. Where no format
/// covers the rate they are those of its default format, and without one the device is refused by name.
pub proof fn devices_offer_their_widest_format(
    name: Seq<char>,
    formats: Seq<OutputFormat>,
    rate: u32,
    default_channels: Option<u16>,
)
    ensures
        ({
            let usable = usable_channels(name, formats, rate, default_channels);
            let some_cover = exists|i: int|
                0 <= i < formats.len() && #[trigger] formats[i].min_sample_rate <= rate
                    && rate <= formats[i].max_sample_rate;
            &&& usable is Err <==> !some_cover && default_channels is None
            &&& usable matches Ok(n) ==> forall|i: int|
                0 <= i < formats.len() && #[trigger] formats[i].min_sample_rate <= rate && rate
                    <= formats[i].max_sample_rate ==> formats[i].channels <= n
            &&& some_cover ==> exists|i: int|
                0 <= i < formats.len() && #[trigger] formats[i].min_sample_rate <= rate && rate
                    <= formats[i].max_sample_rate && usable == Ok::<usize, Seq<char>>(
                    formats[i].channels as usize,
                )
            &&& !some_cover && default_channels is Some ==> usable == Ok::<usize, Seq<char>>(
                default_channels->0 as usize,
            )
            &&& usable matches Err(e) ==> e == "Output device '"@ + name
                + "' does not report a usable channel layout"@
        }),
{
    lemma_most_channels(formats, rate);
}

proof fn lemma_most_channels(formats: Seq<OutputFormat>, rate: u32)
    ensures
        ({
            let most = most_channels(formats, rate);
            &&& most is None ==> forall|i: int|
                0 <= i < formats.len() ==> !(#[trigger] formats[i].min_sample_rate <= rate && rate
                    <= formats[i].max_sample_rate)
            &&& most matches Some(n) ==> {
                &&& forall|i: int|
                    0 <= i < formats.len() && #[trigger] formats[i].min_sample_rate <= rate && rate
                        <= formats[i].max_sample_rate ==> formats[i].channels <= n
                &&& exists|i: int|
                    0 <= i < formats.len() && #[trigger] formats[i].min_sample_rate <= rate && rate
                        <= formats[i].max_sample_rate && formats[i].channels == n
            }
        }),
    decreases formats.len(),
{
    if formats.len() > 0 {
        let front = formats.drop_last();
        lemma_most_channels(front, rate);
        let last = formats.len() - 1;
        assert forall|i: int| 0 <= i < last implies front[i] == #[trigger] formats[i] by {}
        let most = most_channels(formats, rate);
        if most is Some {
            if most == most_channels(front, rate) {
                let i = choose|i: int|
                    0 <= i < front.len() && #[trigger] front[i].min_sample_rate <= rate && rate
                        <= front[i].max_sample_rate && front[i].channels == most->0;
                assert(formats[i].min_sample_rate <= rate && rate <= formats[i].max_sample_rate
                    && formats[i].channels == most->0);
            } else {
                assert(formats[last].min_sample_rate <= rate && rate <= formats[last].max_sample_rate
                    && formats[last].channels == most->0);
            }
        }
        assert forall|i: int|
            0 <= i < formats.len() && #[trigger] formats[i].min_sample_rate <= rate && rate
                <= formats[i].max_sample_rate implies most is Some && formats[i].channels
            <= most->0 by {
            if i < last {
                assert(front[i].min_sample_rate <= rate && rate <= front[i].max_sample_rate);
            }
        }
    }
}

/// The entry of a device says its name and its own format, and that it is not the default; the default
/// says its name and that it is.
pub proof fn entries_describe_their_device(device: DeviceModel, name: Seq<char>)
    ensures
        ({
            let shown = device_entry(device);
            let chosen = default_entry(name);
            let asio = asio_entry(name);
            &&& json_member(shown, "name"@) == Some(Json::Text(device.name))
            &&& json_member(shown, "is_default"@) == Some(Json::Bool(false))
            &&& device.format matches Some(format) ==> {
                &&& json_member(shown, "channels"@) == Some(
                    Json::Number(JsonNum::Unsigned(format.0 as u64)),
                )
                &&& json_member(shown, "sample_rate"@) == Some(
                    Json::Number(JsonNum::Unsigned(format.1 as u64)),
                )
            }
            &&& device.format is None ==> json_member(shown, "channels"@) is None && json_member(
                shown,
                "sample_rate"@,
            ) is None
            &&& json_member(chosen, "name"@) == Some(Json::Text(name))
            &&& json_member(chosen, "is_default"@) == Some(Json::Bool(true))
            &&& json_member(asio, "name"@) == Some(Json::Text(name))
            &&& json_member(asio, "is_default"@) == Some(Json::Bool(false))
            &&& json_member(asio, "backend"@) == Some(Json::Text("ASIO"@))
            &&& has_name(shown, device.name) && has_name(chosen, name) && has_name(asio, name)
        }),
{
    reveal_strlit("name");
    assert("name"@.len() == 4);
    reveal_strlit("backend");
    assert("backend"@.len() == 7);
    reveal_strlit("channels");
    assert("channels"@.len() == 8);
    reveal_strlit("is_default");
    assert("is_default"@.len() == 10);
    reveal_strlit("sample_rate");
    assert("sample_rate"@.len() == 11);
}

/// The list begins with the default device, and every device is in it.
pub proof fn lists_show_every_device(
    default_name: Option<Seq<char>>,
    devices: Seq<DeviceModel>,
    asio: Seq<Seq<char>>,
)
    ensures
        ({
            let list = device_list(default_name, devices, asio);
            &&& default_name matches Some(name) ==> list.len() > 0 && json_member(list[0], "name"@)
                == Some(Json::Text(name)) && json_member(list[0], "is_default"@) == Some(Json::Bool(true))
            &&& forall|i: int|
                0 <= i < list.len() && (i > 0 || default_name is None) ==> json_member(
                    #[trigger] list[i],
                    "is_default"@,
                ) == Some(Json::Bool(false))
            &&& forall|i: int| 0 <= i < devices.len() ==> shows_device(list, #[trigger] devices[i].name)
            &&& forall|i: int| 0 <= i < asio.len() ==> shows_device(list, #[trigger] asio[i])
        }),
{
    let list = device_list(default_name, devices, asio);
    let head = match default_name {
        Some(name) => seq![default_entry(name)],
        None => Seq::<Json>::empty(),
    };
    let keep = |d: DeviceModel| default_name != Some(d.name);
    let kept = devices.filter(keep);
    let others = other_entries(default_name, devices);
    let tail = asio.map_values(|name: Seq<char>| asio_entry(name));
    devices.lemma_filter_len_push(keep, DeviceModel { name: Seq::empty(), format: None });
    if default_name is Some {
        entries_describe_their_device(DeviceModel { name: Seq::empty(), format: None }, default_name->0);
        assert(list[0] == default_entry(default_name->0));
    }
    assert forall|i: int| 0 <= i < list.len() && (i > 0 || default_name is None) implies json_member(
        #[trigger] list[i],
        "is_default"@,
    ) == Some(Json::Bool(false)) by {
        let j = i - head.len();
        if j < others.len() {
            assert(list[i] == device_entry(kept[j]));
            entries_describe_their_device(kept[j], Seq::empty());
        } else {
            assert(list[i] == asio_entry(asio[j - others.len()]));
            entries_describe_their_device(
                DeviceModel { name: Seq::empty(), format: None },
                asio[j - others.len()],
            );
        }
    }
    assert forall|i: int| 0 <= i < devices.len() implies shows_device(list, #[trigger] devices[i].name) by {
        if default_name == Some(devices[i].name) {
            entries_describe_their_device(devices[i], devices[i].name);
            assert(has_name(list[0], devices[i].name));
        } else {
            broadcast use vstd::seq_lib::group_filter_ensures;
            assert(kept.contains(devices[i]));
            let j = choose|j: int| 0 <= j < kept.len() && kept[j] == devices[i];
            assert(list[head.len() + j] == device_entry(kept[j]));
            entries_describe_their_device(devices[i], Seq::empty());
            assert(has_name(list[head.len() + j], devices[i].name));
        }
    }
    assert forall|i: int| 0 <= i < asio.len() implies shows_device(list, #[trigger] asio[i]) by {
        let j = head.len() + others.len() + i;
        assert(list[j] == asio_entry(asio[i]));
        entries_describe_their_device(DeviceModel { name: Seq::empty(), format: None }, asio[i]);
        assert(has_name(list[j], asio[i]));
    }
}

/// A list without a device is refused.
pub proof fn empty_lists_are_refused(
    default_name: Option<String>,
    devices: Vec<OutputDeviceInfo>,
    asio: Vec<String>,
    out: Result<Vec<JsonValue>, String>,
)
    requires
        call_ensures(list_audio_devices, (&default_name, &devices, &asio), out),
    ensures
        out is Err <==> default_name is None && devices@.len() == 0 && asio@.len() == 0,
        out matches Err(e) ==> e@ == "No audio devices found"@,
        out matches Ok(list) ==> forall|i: int|
            0 <= i < devices@.len() ==> shows_device(list_of(list@), (#[trigger] devices@[i]).name@),
{
    let name = crate::output_device::opt_text(default_name);
    let models = device_models(devices@);
    let names = crate::state::text_models(asio@);
    lists_show_every_device(name, models, names);
    let list = device_list(name, models, names);
    assert forall|i: int| 0 <= i < devices@.len() implies shows_device(
        list,
        (#[trigger] devices@[i]).name@,
    ) by {
        assert(models[i].name == devices@[i].name@);
    }
    if devices@.len() > 0 {
        assert(shows_device(list, devices@[0].name@));
    }
    if asio@.len() > 0 {
        assert(names[0] == asio@[0]@);
        assert(shows_device(list, names[0]));
    }
    if default_name is None && devices@.len() == 0 {
        assert(models =~= Seq::<DeviceModel>::empty());
        reveal(Seq::filter);
        assert(other_entries(name, models).len() == 0);
    }
}

/// A wait ends well only where the device is there, goes on only while there is time, and never sleeps
/// beyond its deadline or longer than half a second.
pub proof fn waits_end_when_the_device_is_there(
    name: &str,
    listed: Result<Vec<JsonValue>, String>,
    keep_going: bool,
    now: u64,
    deadline: u64,
    out: DeviceWait,
)
    requires
        call_ensures(device_wait_step, (name, &listed, keep_going, now, deadline), out),
    ensures
        ({
            let there = listed is Ok && shows_device(list_of(listed->Ok_0@), name@);
            &&& out is Found <==> keep_going && there
            &&& !keep_going ==> out is GiveUp
            &&& keep_going && !there && now >= deadline ==> out is GiveUp
            &&& keep_going && !there && now < deadline ==> (out matches DeviceWait::Sleep(nanos) && nanos > 0
                && now + nanos <= deadline && nanos <= 500_000_000 && (nanos == 500_000_000 || now + nanos
                == deadline))
        }),
{
}

/// A device is found by the name of its entry.
pub proof fn devices_are_found_by_name(entry: Json, name: Seq<char>)
    ensures
        has_name(entry, name) <==> json_member(entry, "name"@) == Some(Json::Text(name)),
{
}

/// A list that was stored comes back with its generation for two seconds, and a new list gets a new
/// generation.
pub proof fn stored_lists_come_back(
    registry: &mut DeviceRegistry,
    now: u64,
    devices: Vec<JsonValue>,
    generation: u64,
    later: u64,
    found: Option<(u64, Vec<JsonValue>)>,
)
    requires
        call_ensures(DeviceRegistry::store_devices, (registry, now, &devices), generation),
        call_ensures(DeviceRegistry::cached_devices, (final(registry), later), found),
        now <= later,
    ensures
        old(registry)@.generation < u64::MAX ==> generation == old(registry)@.generation + 1,
        final(registry)@.generation == generation,
        final(registry)@.channels == old(registry)@.channels,
        found is Some <==> later - now <= 2_000_000_000,
        found matches Some(list) ==> list.0 == generation && list_of(list.1@) == list_of(devices@),
{
}

/// The channels that were stored for a device and a rate come back for two seconds, and those of every
/// other device and rate are left as they were.
pub proof fn stored_channels_come_back(
    registry: &mut DeviceRegistry,
    device: &str,
    rate: u32,
    channels: usize,
    now: u64,
    later: u64,
    found: Option<usize>,
    other: &str,
    other_rate: u32,
)
    requires
        call_ensures(
            DeviceRegistry::store_max_output_channels,
            (registry, device, rate, channels, now),
            (),
        ),
        call_ensures(
            DeviceRegistry::cached_max_output_channels,
            (final(registry), device, rate, later),
            found,
        ),
        now <= later,
    ensures
        found is Some <==> later - now <= 2_000_000_000,
        found matches Some(n) ==> n == channels,
        other@ != device@ || other_rate != rate ==> (final(registry)@.channels.contains_key(
            (other@, other_rate),
        ) <==> old(registry)@.channels.contains_key((other@, other_rate))) && final(registry)@.channels[(other@, other_rate)] == old(registry)@.channels[(other@, other_rate)],
        final(registry)@.devices == old(registry)@.devices,
        final(registry)@.generation == old(registry)@.generation,
{
}

/// Nothing comes back after everything was declared outdated, and the next list has another generation.
pub proof fn outdated_facts_do_not_come_back(
    registry: &mut DeviceRegistry,
    now: u64,
    found: Option<(u64, Vec<JsonValue>)>,
    device: &str,
    rate: u32,
    channels: Option<usize>,
)
    requires
        call_ensures(DeviceRegistry::invalidate, (registry,), ()),
        call_ensures(DeviceRegistry::cached_devices, (final(registry), now), found),
        call_ensures(
            DeviceRegistry::cached_max_output_channels,
            (final(registry), device, rate, now),
            channels,
        ),
    ensures
        found is None,
        channels is None,
        old(registry)@.generation < u64::MAX ==> final(registry)@.generation == old(registry)@.generation + 1,
{
}

} // verus!
