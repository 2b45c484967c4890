//! Listing of capture devices for the client: PulseAudio sources where a
//! PulseAudio server answers, PipeWire devices otherwise.
use crate::text::{after_first, ends_with, str_after_first, strip_suffix};
use vstd::prelude::*;

verus! {

/// A capture device as the client sees it.
#[derive(Debug, Clone)]
pub struct DeviceInfo {
    /// The name capture selects the device by.
    pub inner_name: String,
    /// The name shown to the user.
    pub display_name: String,
    /// The device records what a sink plays.
    pub is_monitor: bool,
}

/// The content of a device entry.
pub struct DeviceInfoView {
    pub inner_name: Seq<char>,
    pub display_name: Seq<char>,
    pub is_monitor: bool,
}

impl View for DeviceInfo {
    type V = DeviceInfoView;

    open spec fn view(&self) -> DeviceInfoView {
        DeviceInfoView {
            inner_name: self.inner_name@,
            display_name: self.display_name@,
            is_monitor: self.is_monitor,
        }
    }
}

/// The contents of a list of device entries.
pub open spec fn infos_view(v: Seq<DeviceInfo>) -> Seq<DeviceInfoView> {
    v.map_values(|d: DeviceInfo| d@)
}

/// A source as a PulseAudio server lists it.
#[derive(Debug, Clone)]
pub struct PulseSource {
    pub name: Option<String>,
    pub description: Option<String>,
    /// The source monitors a sink.
    pub is_monitor: bool,
}

/// The suffix PulseAudio gives the names of monitor sources.
pub open spec fn monitor_suffix() -> Seq<char> {
    ".monitor"@
}

/// `s` without the suffix `suf` where it ends with it.
pub open spec fn without_suffix(s: Seq<char>, suf: Seq<char>) -> Seq<char> {
    if ends_with(s, suf) {
        s.take(s.len() - suf.len())
    } else {
        s
    }
}

/// The entry of a named PulseAudio source: a monitor is selected by the bare
/// name of the node it monitors, and a source without description is shown
/// by its name.
pub open spec fn pulse_device(s: PulseSource) -> DeviceInfoView {
    let name = s.name->0@;
    DeviceInfoView {
        inner_name: if s.is_monitor {
            without_suffix(name, monitor_suffix())
        } else {
            name
        },
        display_name: match s.description {
            Some(d) => d@,
            None => name,
        },
        is_monitor: s.is_monitor,
    }
}

/// The entries of the sources among `srcs` that are monitors (or are not),
/// in order.
pub open spec fn pulse_group(srcs: Seq<PulseSource>, monitors: bool) -> Seq<DeviceInfoView>
    decreases srcs.len(),
{
    if srcs.len() == 0 {
        Seq::empty()
    } else {
        let rest = pulse_group(srcs.drop_last(), monitors);
        if srcs.last().is_monitor == monitors {
            rest.push(pulse_device(srcs.last()))
        } else {
            rest
        }
    }
}

/// The device list made of PulseAudio sources: none at all where a source has
/// no name; otherwise the other sources, then the monitors, each in order.
pub open spec fn pulse_listing(srcs: Seq<PulseSource>) -> Option<Seq<DeviceInfoView>> {
    if exists|i: int| 0 <= i < srcs.len() && (#[trigger] srcs[i]).name is None {
        None
    } else {
        Some(pulse_group(srcs, false) + pulse_group(srcs, true))
    }
}

/// The entry of one PulseAudio source that has a name.
fn pulse_entry(s: &PulseSource, name: &String) -> (d: DeviceInfo)
    requires
        s.name == Some(*name),
    ensures
        d@ == pulse_device(*s),
{
    let inner_name = if s.is_monitor {
        match strip_suffix(name.as_str(), ".monitor") {
            Some(bare) => bare,
            None => name.clone(),
        }
    } else {
        name.clone()
    };
    let display_name = match &s.description {
        Some(d) => d.clone(),
        None => name.clone(),
    };
    DeviceInfo { inner_name, display_name, is_monitor: s.is_monitor }
}

/// The device list made of the sources a PulseAudio server listed, or
/// `None` where a source has no name.
pub fn order_pulse_sources(sources: &Vec<PulseSource>) -> (r: Option<Vec<DeviceInfo>>)
    ensures
        match (r, pulse_listing(sources@)) {
            (Some(v), Some(w)) => infos_view(v@) == w,
            (None, None) => true,
            _ => false,
        },
{
    let mut result: Vec<DeviceInfo> = Vec::new();
    let mut monitors: Vec<DeviceInfo> = Vec::new();
    let mut i: usize = 0;
    while i < sources.len()
        invariant
            i <= sources.len(),
            forall|j: int| 0 <= j < i ==> (#[trigger] sources@[j]).name is Some,
            infos_view(result@) == pulse_group(sources@.take(i as int), false),
            infos_view(monitors@) == pulse_group(sources@.take(i as int), true),
        decreases sources.len() - i,
    {
        let s = &sources[i];
        assert(sources@.take(i + 1).drop_last() =~= sources@.take(i as int));
        assert(sources@.take(i + 1).last() == sources@[i as int]);
        match &s.name {
            None => {
                assert(sources@[i as int].name is None);
                return None;
            },
            Some(name) => {
                let info = pulse_entry(s, name);
                if s.is_monitor {
                    let ghost before = monitors@;
                    monitors.push(info);
                    assert(infos_view(monitors@) =~= infos_view(before).push(info@));
                } else {
                    let ghost before = result@;
                    result.push(info);
                    assert(infos_view(result@) =~= infos_view(before).push(info@));
                }
            },
        }
        i = i + 1;
    }
    assert(sources@.take(sources@.len() as int) =~= sources@);
    let ghost r0 = result@;
    result.append(&mut monitors);
    assert(infos_view(result@) =~= infos_view(r0) + pulse_group(sources@, true));
    Some(result)
}

/// How a PipeWire device describes itself.
#[derive(Debug, Clone)]
pub struct CpalDescription {
    /// The device's name.
    pub name: String,
    /// The first line of the device's extended description, if any.
    pub extended_first: Option<String>,
    /// The device both plays and captures.
    pub duplex: bool,
    /// The device can capture.
    pub supports_input: bool,
}

/// A device as the PipeWire host lists it; either part is `None` where it
/// could not be read.
#[derive(Debug, Clone)]
pub struct CpalDeviceEntry {
    pub id: Option<String>,
    pub description: Option<CpalDescription>,
}

/// The entry of a device whose identifier and description could be read: it
/// is selected by its identifier without the `host:` prefix, shown by the
/// first extended description line or else its name, and counts as a
/// monitor where it is duplex and captures.
pub open spec fn cpal_device(e: CpalDeviceEntry) -> DeviceInfoView {
    let d = e.description->0;
    DeviceInfoView {
        inner_name: after_first(e.id->0@, ':'),
        display_name: match d.extended_first {
            Some(x) => x@,
            None => d.name@,
        },
        is_monitor: d.duplex && d.supports_input,
    }
}

/// The entry is readable and is the default input device (`default` is the
/// default device's identifier without its `host:` prefix).
pub open spec fn is_default_entry(e: CpalDeviceEntry, default: Option<Seq<char>>) -> bool {
    e.id is Some && e.description is Some && default == Some(after_first(e.id->0@, ':'))
}

/// The entries of the readable devices among `es`, split into the front part
/// (the default device first, each later default before the earlier ones,
/// then the other non-monitors in order) and the monitors, in order.
pub open spec fn cpal_split(es: Seq<CpalDeviceEntry>, default: Option<Seq<char>>) -> (
    Seq<DeviceInfoView>,
    Seq<DeviceInfoView>,
)
    decreases es.len(),
{
    if es.len() == 0 {
        (Seq::empty(), Seq::empty())
    } else {
        let (front, mons) = cpal_split(es.drop_last(), default);
        let e = es.last();
        if e.id is None || e.description is None {
            (front, mons)
        } else if is_default_entry(e, default) {
            (seq![cpal_device(e)] + front, mons)
        } else if cpal_device(e).is_monitor {
            (front, mons.push(cpal_device(e)))
        } else {
            (front.push(cpal_device(e)), mons)
        }
    }
}

/// The device list made of PipeWire devices: the default input first, then
/// the other devices, monitors last; unreadable devices are left out.
pub open spec fn cpal_listing(es: Seq<CpalDeviceEntry>, default: Option<Seq<char>>) -> Seq<
    DeviceInfoView,
> {
    cpal_split(es, default).0 + cpal_split(es, default).1
}

/// The identifier of the default input without its `host:` prefix.
pub open spec fn default_bare(default_id: Option<String>) -> Option<Seq<char>> {
    match default_id {
        Some(id) => Some(after_first(id@, ':')),
        None => None,
    }
}

/// The device list made of the devices the PipeWire host listed, given the
/// identifier of its default input device (`None` where there is none or it
/// could not be read).
pub fn order_cpal_devices(default_id: Option<String>, entries: &Vec<CpalDeviceEntry>) -> (r: Vec<
    DeviceInfo,
>)
    ensures
        infos_view(r@) == cpal_listing(entries@, default_bare(default_id)),
{
    let default_name: Option<String> = match &default_id {
        Some(id) => Some(str_after_first(id.as_str(), ':')),
        None => None,
    };
    let ghost dflt = default_bare(default_id);
    let mut result: Vec<DeviceInfo> = Vec::new();
    let mut monitors: Vec<DeviceInfo> = Vec::new();
    let mut i: usize = 0;
    while i < entries.len()
        invariant
            i <= entries.len(),
            crate::text::opt_string(default_name) == dflt,
            infos_view(result@) == cpal_split(entries@.take(i as int), dflt).0,
            infos_view(monitors@) == cpal_split(entries@.take(i as int), dflt).1,
        decreases entries.len() - i,
    {
        let e = &entries[i];
        assert(entries@.take(i + 1).drop_last() =~= entries@.take(i as int));
        assert(entries@.take(i + 1).last() == entries@[i as int]);
        match (&e.id, &e.description) {
            (Some(id), Some(desc)) => {
                let bare = str_after_first(id.as_str(), ':');
                let display_name = match &desc.extended_first {
                    Some(x) => x.clone(),
                    None => desc.name.clone(),
                };
                let is_monitor = desc.duplex && desc.supports_input;
                let is_default = match &default_name {
                    Some(d) => crate::text::str_eq(d.as_str(), bare.as_str()),
                    None => false,
                };
                let info = DeviceInfo { inner_name: bare, display_name, is_monitor };
                assert(info@ == cpal_device(*e));
                if is_default {
                    let ghost before = result@;
                    result.insert(0, info);
                    assert(infos_view(result@) =~= seq![info@] + infos_view(before));
                } else if is_monitor {
                    let ghost before = monitors@;
                    monitors.push(info);
                    assert(infos_view(monitors@) =~= infos_view(before).push(info@));
                } else {
                    let ghost before = result@;
                    result.push(info);
                    assert(infos_view(result@) =~= infos_view(before).push(info@));
                }
            },
            _ => {},
        }
        i = i + 1;
    }
    assert(entries@.take(entries@.len() as int) =~= entries@);
    let ghost r0 = result@;
    result.append(&mut monitors);
    assert(infos_view(result@) =~= infos_view(r0) + cpal_split(entries@, dflt).1);
    result
}

/// The entries of a group of PulseAudio sources all have that group's
/// monitor flag, and the two groups together hold one entry per source.
pub proof fn lemma_pulse_groups(srcs: Seq<PulseSource>)
    ensures
        forall|i: int|
            0 <= i < pulse_group(srcs, false).len() ==> !(#[trigger] pulse_group(srcs, false)[i]).is_monitor,
        forall|i: int|
            0 <= i < pulse_group(srcs, true).len() ==> (#[trigger] pulse_group(srcs, true)[i]).is_monitor,
        pulse_group(srcs, false).len() + pulse_group(srcs, true).len() == srcs.len(),
    decreases srcs.len(),
{
    if srcs.len() > 0 {
        lemma_pulse_groups(srcs.drop_last());
    }
}

/// A PulseAudio device list holds one entry per source, the sources that
/// are not monitors first and the monitors after them.
pub proof fn lemma_pulse_monitors_last(srcs: Seq<PulseSource>)
    requires
        pulse_listing(srcs) is Some,
    ensures
        ({
            let v = pulse_listing(srcs)->0;
            let k: nat = pulse_group(srcs, false).len();
            &&& v.len() == srcs.len()
            &&& forall|i: int| 0 <= i < k ==> !(#[trigger] v[i]).is_monitor
            &&& forall|i: int| k <= i < v.len() ==> (#[trigger] v[i]).is_monitor
        }),
{
    lemma_pulse_groups(srcs);
    let v = pulse_listing(srcs)->0;
    let k: int = pulse_group(srcs, false).len() as int;
    assert forall|i: int| k <= i < v.len() implies (#[trigger] v[i]).is_monitor by {
        assert(v[i] == pulse_group(srcs, true)[i - k]);
    }
    assert forall|i: int| 0 <= i < k implies !(#[trigger] v[i]).is_monitor by {
        assert(v[i] == pulse_group(srcs, false)[i]);
    }
}

/// The entries of one group of PulseAudio sources follow the sources that
/// `keep` picks out (those whose monitor flag is `monitors`), one for one.
proof fn lemma_group_follows_sources(
    srcs: Seq<PulseSource>,
    monitors: bool,
    keep: spec_fn(PulseSource) -> bool,
)
    requires
        forall|s: PulseSource| #[trigger] keep(s) == (s.is_monitor == monitors),
    ensures
        pulse_group(srcs, monitors).len() == srcs.filter(keep).len(),
        forall|i: int|
            0 <= i < srcs.filter(keep).len() ==> #[trigger] pulse_group(srcs, monitors)[i]
                == pulse_device(srcs.filter(keep)[i]),
    decreases srcs.len(),
{
    reveal(Seq::filter);
    if srcs.len() > 0 {
        lemma_group_follows_sources(srcs.drop_last(), monitors, keep);
        let prev = srcs.drop_last().filter(keep);
        assert(keep(srcs.last()) == (srcs.last().is_monitor == monitors));
        if keep(srcs.last()) {
            assert(srcs.filter(keep) == prev.push(srcs.last()));
        } else {
            assert(srcs.filter(keep) == prev);
        }
    }
}

/// Every entry of a PulseAudio device list shows its source's description,
/// or the source's name where it has none, and carries its source's
/// monitor flag: the sources that are not monitors come first, one entry
/// each in their order, each selected by its name; the monitors follow in
/// their order.
pub proof fn lemma_pulse_entries_follow_sources(srcs: Seq<PulseSource>)
    requires
        pulse_listing(srcs) is Some,
    ensures
        ({
            let v = pulse_listing(srcs)->0;
            let others = srcs.filter(|s: PulseSource| !s.is_monitor);
            let mons = srcs.filter(|s: PulseSource| s.is_monitor);
            &&& v.len() == others.len() + mons.len()
            &&& forall|i: int|
                0 <= i < others.len() ==> {
                    &&& v[i].display_name == (match (#[trigger] others[i]).description {
                        Some(d) => d@,
                        None => others[i].name->0@,
                    })
                    &&& v[i].inner_name == others[i].name->0@
                    &&& !v[i].is_monitor
                }
            &&& forall|i: int|
                0 <= i < mons.len() ==> {
                    &&& v[others.len() + i].display_name == (match (#[trigger] mons[i]).description {
                        Some(d) => d@,
                        None => mons[i].name->0@,
                    })
                    &&& ends_with(mons[i].name->0@, ".monitor"@) ==> v[others.len()
                        + i].inner_name + ".monitor"@ == mons[i].name->0@
                    &&& !ends_with(mons[i].name->0@, ".monitor"@) ==> v[others.len()
                        + i].inner_name == mons[i].name->0@
                    &&& v[others.len() + i].is_monitor
                }
        }),
{
    let v = pulse_listing(srcs)->0;
    let others = srcs.filter(|s: PulseSource| !s.is_monitor);
    let mons = srcs.filter(|s: PulseSource| s.is_monitor);
    lemma_group_follows_sources(srcs, false, |s: PulseSource| !s.is_monitor);
    lemma_group_follows_sources(srcs, true, |s: PulseSource| s.is_monitor);
    let k: int = others.len() as int;
    assert forall|i: int| 0 <= i < others.len() implies v[i] == pulse_device(
        #[trigger] others[i],
    ) by {
        assert(v[i] == pulse_group(srcs, false)[i]);
    }
    assert forall|i: int| 0 <= i < mons.len() implies v[k + i] == pulse_device(
        #[trigger] mons[i],
    ) by {
        assert(v[k + i] == pulse_group(srcs, true)[i]);
        let n = mons[i].name->0@;
        if ends_with(n, ".monitor"@) {
            assert(n.take(n.len() - ".monitor"@.len()) + ".monitor"@ =~= n);
        }
    }
}

/// The entry `v` shows the readable PipeWire device `e`: selected by its
/// identifier without the `host:` prefix, shown by the first line of its
/// extended description or else its name, a monitor where it is duplex and
/// captures.
pub open spec fn shows_device(v: DeviceInfoView, e: CpalDeviceEntry) -> bool {
    &&& e.id matches Some(id) && v.inner_name == after_first(id@, ':')
    &&& e.description matches Some(d) && v.display_name == (match d.extended_first {
        Some(x) => x@,
        None => d.name@,
    }) && v.is_monitor == (d.duplex && d.supports_input)
}

/// `v` shows one of the devices `es`.
pub open spec fn shows_one_of(v: DeviceInfoView, es: Seq<CpalDeviceEntry>) -> bool {
    exists|j: int| 0 <= j < es.len() && #[trigger] shows_device(v, es[j])
}

/// Every entry of either part of a PipeWire device list shows one of the
/// devices.
proof fn lemma_cpal_split_shows(es: Seq<CpalDeviceEntry>, default: Option<Seq<char>>)
    ensures
        forall|i: int|
            0 <= i < cpal_split(es, default).0.len() ==> shows_one_of(
                #[trigger] cpal_split(es, default).0[i],
                es,
            ),
        forall|i: int|
            0 <= i < cpal_split(es, default).1.len() ==> shows_one_of(
                #[trigger] cpal_split(es, default).1[i],
                es,
            ),
    decreases es.len(),
{
    if es.len() > 0 {
        let rest = es.drop_last();
        lemma_cpal_split_shows(rest, default);
        let prev = cpal_split(rest, default);
        let cur = cpal_split(es, default);
        let e = es.last();
        assert forall|x: DeviceInfoView| shows_one_of(x, rest) implies shows_one_of(x, es) by {
            let j: int = choose|j: int| 0 <= j < rest.len() && #[trigger] shows_device(x, rest[j]);
            assert(rest[j] == es[j]);
        }
        if e.id is Some && e.description is Some {
            assert(shows_device(cpal_device(e), es[es.len() - 1]));
        }
        assert forall|i: int| 0 <= i < cur.0.len() implies shows_one_of(#[trigger] cur.0[i], es) by {
            if e.id is None || e.description is None {
                assert(shows_one_of(prev.0[i], rest));
            } else if is_default_entry(e, default) {
                if i > 0 {
                    assert(cur.0[i] == prev.0[i - 1]);
                    assert(shows_one_of(prev.0[i - 1], rest));
                }
            } else if cpal_device(e).is_monitor {
                assert(shows_one_of(prev.0[i], rest));
            } else if i < prev.0.len() {
                assert(cur.0[i] == prev.0[i]);
                assert(shows_one_of(prev.0[i], rest));
            }
        }
        assert forall|i: int| 0 <= i < cur.1.len() implies shows_one_of(#[trigger] cur.1[i], es) by {
            if i < prev.1.len() {
                assert(cur.1[i] == prev.1[i]);
                assert(shows_one_of(prev.1[i], rest));
            }
        }
    }
}

/// Every entry of a PipeWire device list shows one of the listed devices
/// whose identifier and description could be read: by its identifier
/// without the `host:` prefix, by the first extended description line or
/// else the device's name, and as a monitor exactly where the device is
/// duplex and captures.
pub proof fn lemma_cpal_entries_follow_devices(es: Seq<CpalDeviceEntry>, default: Option<Seq<char>>)
    ensures
        forall|i: int|
            0 <= i < cpal_listing(es, default).len() ==> shows_one_of(
                #[trigger] cpal_listing(es, default)[i],
                es,
            ),
{
    lemma_cpal_split_shows(es, default);
    let parts = cpal_split(es, default);
    let v = cpal_listing(es, default);
    assert forall|i: int| 0 <= i < v.len() implies shows_one_of(#[trigger] v[i], es) by {
        if i < parts.0.len() {
            assert(v[i] == parts.0[i]);
        } else {
            assert(v[i] == parts.1[i - parts.0.len()]);
        }
    }
}

/// The monitors part of a PipeWire device list holds only monitors.
pub proof fn lemma_cpal_monitor_part(es: Seq<CpalDeviceEntry>, default: Option<Seq<char>>)
    ensures
        forall|i: int|
            0 <= i < cpal_split(es, default).1.len() ==> (#[trigger] cpal_split(es, default).1[i]).is_monitor,
    decreases es.len(),
{
    if es.len() > 0 {
        lemma_cpal_monitor_part(es.drop_last(), default);
        let prev = cpal_split(es.drop_last(), default);
        let cur = cpal_split(es, default);
        assert forall|i: int| 0 <= i < cur.1.len() implies (#[trigger] cur.1[i]).is_monitor by {
            if i < prev.1.len() {
                assert(cur.1[i] == prev.1[i]);
            }
        }
    }
}

/// Where a readable device is the default input, a PipeWire device list
/// starts with the default input.
pub proof fn lemma_cpal_default_first(es: Seq<CpalDeviceEntry>, default: Option<Seq<char>>, d: int)
    requires
        0 <= d < es.len(),
        is_default_entry(es[d], default),
    ensures
        cpal_split(es, default).0.len() > 0,
        Some(cpal_split(es, default).0[0].inner_name) == default,
        cpal_listing(es, default).len() > 0,
        Some(cpal_listing(es, default)[0].inner_name) == default,
    decreases es.len(),
{
    let front = cpal_split(es, default).0;
    if d < es.len() - 1 {
        assert(es.drop_last()[d] == es[d]);
        lemma_cpal_default_first(es.drop_last(), default, d);
        let prev = cpal_split(es.drop_last(), default).0;
        assert(front.len() > 0 && Some(front[0].inner_name) == default) by {
            let e = es.last();
            if e.id is None || e.description is None {
            } else if is_default_entry(e, default) {
            } else if cpal_device(e).is_monitor {
            } else {
                assert(front[0] == prev[0]);
            }
        }
    } else {
        assert(es.last() == es[d]);
        assert(front[0] == cpal_device(es[d]));
    }
    assert(cpal_listing(es, default)[0] == front[0]);
}

/// The device list from a PulseAudio listing, where one is given and usable.
pub open spec fn pulse_result(pulse: Option<Vec<PulseSource>>) -> Option<Seq<DeviceInfoView>> {
    match pulse {
        Some(srcs) => pulse_listing(srcs@),
        None => None,
    }
}

/// The capture devices to offer from the PulseAudio listing `pulse`: a list
/// where the server answered (`Some`) and every source has a name; `None`
/// otherwise, and only then does the caller enumerate PipeWire devices
/// instead.
pub fn enumerate_devices(pulse: Option<Vec<PulseSource>>) -> (r: Option<Vec<DeviceInfo>>)
    ensures
        match (r, pulse_result(pulse)) {
            (Some(v), Some(w)) => infos_view(v@) == w,
            (None, None) => true,
            _ => false,
        },
{
    match &pulse {
        Some(srcs) => order_pulse_sources(srcs),
        None => None,
    }
}

} // verus!
