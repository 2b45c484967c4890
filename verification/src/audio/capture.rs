//! What a capture stream's errors mean, which device a capture opens, and
//! how captured frames are reduced to one channel.
use crate::config::AudioBackend;
use crate::text::{after_first, concat3, contains, eq_ignore_ascii_case, str_after_first,
    str_contains, str_eq, str_eq_ignore_ascii_case};
use vstd::prelude::*;

verus! {

/// What an error of a running capture stream means for the pipeline.
#[derive(Debug, Clone)]
pub enum AudioStreamError {
    /// The device went away; capture cannot go on.
    DeviceLost,
    /// Samples were dropped or repeated; capture goes on.
    Xrun,
    /// Real-time scheduling was refused; capture goes on.
    RealtimeDenied,
    /// Anything else, with its description.
    Other(String),
}

/// The kind of an audio stream error, as the audio library classifies it.
#[derive(Debug, Clone, Copy, PartialEq, Eq, Structural)]
pub enum StreamErrorKind {
    DeviceNotAvailable,
    DeviceChanged,
    DeviceBusy,
    RealtimeDenied,
    /// Any other kind.
    Other,
}

/// What a stream error of kind `kind`, described as `desc`, means: a device
/// that is gone, changed or busy is lost; a refused real-time promotion is
/// reported as such; otherwise the description decides.
pub open spec fn stream_error_meaning(kind: StreamErrorKind, desc: Seq<char>) -> AudioStreamErrorView {
    match kind {
        StreamErrorKind::DeviceNotAvailable | StreamErrorKind::DeviceChanged
        | StreamErrorKind::DeviceBusy => AudioStreamErrorView::DeviceLost,
        StreamErrorKind::RealtimeDenied => AudioStreamErrorView::RealtimeDenied,
        StreamErrorKind::Other => if contains(desc, "xrun"@) || contains(desc, "underrun"@)
            || contains(desc, "overrun"@) {
            AudioStreamErrorView::Xrun
        } else if contains(desc, "no target node available"@) {
            AudioStreamErrorView::DeviceLost
        } else {
            AudioStreamErrorView::Other(desc)
        },
    }
}

/// The content of an audio stream error.
pub enum AudioStreamErrorView {
    DeviceLost,
    Xrun,
    RealtimeDenied,
    Other(Seq<char>),
}

impl View for AudioStreamError {
    type V = AudioStreamErrorView;

    open spec fn view(&self) -> AudioStreamErrorView {
        match self {
            AudioStreamError::DeviceLost => AudioStreamErrorView::DeviceLost,
            AudioStreamError::Xrun => AudioStreamErrorView::Xrun,
            AudioStreamError::RealtimeDenied => AudioStreamErrorView::RealtimeDenied,
            AudioStreamError::Other(d) => AudioStreamErrorView::Other(d@),
        }
    }
}

/// What a stream error of kind `kind`, described as `desc`, means for the pipeline.
pub fn map_stream_error(kind: StreamErrorKind, desc: String) -> (e: AudioStreamError)
    ensures
        e@ == stream_error_meaning(kind, desc@),
{
    match kind {
        StreamErrorKind::DeviceNotAvailable | StreamErrorKind::DeviceChanged
        | StreamErrorKind::DeviceBusy => AudioStreamError::DeviceLost,
        StreamErrorKind::RealtimeDenied => AudioStreamError::RealtimeDenied,
        StreamErrorKind::Other => {
            if str_contains(desc.as_str(), "xrun") || str_contains(desc.as_str(), "underrun")
                || str_contains(desc.as_str(), "overrun") {
                AudioStreamError::Xrun
            } else if str_contains(desc.as_str(), "no target node available") {
                AudioStreamError::DeviceLost
            } else {
                AudioStreamError::Other(desc)
            }
        },
    }
}

/// The sample rate the recognizers work at.
pub open spec fn recognizer_rate() -> u32 {
    16000
}

/// The sample format a capture device delivers.
#[derive(Debug, Clone, Copy, PartialEq, Eq, Structural)]
pub enum SampleFormatKind {
    F32,
    I16,
    U16,
    /// A format capture does not support.
    Other,
}

/// How captured audio is prepared for recognition.
#[derive(Debug, Clone, Copy)]
pub struct CapturePlan {
    /// The rate the device delivers.
    pub device_rate: u32,
    /// The rate the audio is resampled to, which is also the rate reported to
    /// the pipeline before any audio.
    pub target_rate: u32,
    /// Number of interleaved channels the device delivers.
    pub channels: usize,
    /// The device's sample format.
    pub format: SampleFormatKind,
    /// Capture can read this format; where it cannot, capture fails after
    /// the rate has been reported.
    pub supported: bool,
}

/// How audio from a device delivering `channels` channels of `format` at
/// `sample_rate` is prepared: whatever the device, the rate reported and
/// resampled to is the recognizers' rate; only the F32, I16 and U16 formats
/// can be read.
pub fn plan_capture(sample_rate: u32, channels: u16, format: SampleFormatKind) -> (p: CapturePlan)
    ensures
        p.device_rate == sample_rate,
        p.target_rate == recognizer_rate(),
        p.channels == channels,
        p.format == format,
        p.supported <==> format != SampleFormatKind::Other,
{
    let target_rate: u32 = if sample_rate != 16000 {
        16000
    } else {
        sample_rate
    };
    CapturePlan {
        device_rate: sample_rate,
        target_rate,
        channels: channels as usize,
        format,
        supported: format != SampleFormatKind::Other,
    }
}

/// The first sample of each frame of `channels` interleaved samples (a final
/// partial frame counts as a frame).
pub fn first_channel<T: Copy>(data: &[T], channels: usize) -> (mono: Vec<T>)
    requires
        channels > 0,
    ensures
        mono.len() == (data.len() + channels - 1) / channels as int,
        forall|i: int| 0 <= i < mono.len() ==> #[trigger] mono@[i] == data@[i * channels],
{
    let mut mono: Vec<T> = Vec::new();
    let mut pos: usize = 0;
    assert(mono.len() * channels == 0) by (nonlinear_arith)
        requires
            mono.len() == 0,
    ;
    while pos < data.len()
        invariant
            channels > 0,
            pos == mono.len() * channels,
            mono.len() > 0 ==> pos < data.len(),
            forall|i: int| 0 <= i < mono.len() ==> #[trigger] mono@[i] == data@[i * channels],
        decreases data.len() - pos,
    {
        let ghost k: nat = mono.len() as nat;
        mono.push(data[pos]);
        proof {
            assert(pos + channels == (k + 1) * channels) by (nonlinear_arith)
                requires
                    pos == k * channels,
            ;
        }
        if data.len() - pos <= channels {
            pos = data.len();
            proof {
                let n: int = data.len() as int;
                let c: int = channels as int;
                assert((n + c - 1) / c == (k + 1) as int) by (nonlinear_arith)
                    requires
                        k * c < n,
                        n <= k * c + c,
                        c > 0,
                        k >= 0,
                ;
            }
            return mono;
        }
        pos = pos + channels;
    }
    proof {
        let n: int = data.len() as int;
        let c: int = channels as int;
        let k: int = mono.len() as int;
        assert(k == 0 && n == 0);
        assert((n + c - 1) / c == 0) by (nonlinear_arith)
            requires
                n == 0,
                c > 0,
        ;
    }
    mono
}

/// A capture device as selection sees it.
#[derive(Debug, Clone)]
pub struct DeviceCandidate {
    /// The device's identifier, `None` where it could not be read.
    pub id: Option<String>,
    /// The device can capture.
    pub supports_input: bool,
    /// The device is a duplex device that captures (a sink monitor).
    pub is_monitor: bool,
}

/// The device a capture opens.
#[derive(Debug, Clone, Copy, PartialEq, Eq, Structural)]
pub enum DeviceChoice {
    /// The listed device at this index.
    Listed(usize),
    /// The host's default input device.
    DefaultInput,
}

/// Why no device could be selected.
#[derive(Debug, Clone)]
pub enum SelectError {
    /// The identifier of the listed device at this index could not be read.
    IdUnreadable(usize),
    /// No listed device has the requested name and can capture.
    NotFound(String),
}

/// The report of a device that was asked for and not found.
pub open spec fn not_found_message(name: Seq<char>) -> Seq<char> {
    "device '"@ + name + "' not found or doesn't support input"@
}

impl SelectError {
    /// The message that reports this error, where it is the selection's own.
    pub fn message(&self) -> (m: Option<String>)
        ensures
            self matches SelectError::NotFound(n) ==> m matches Some(t) && t@ == not_found_message(
                n@,
            ),
            self is IdUnreadable ==> m is None,
    {
        match self {
            SelectError::IdUnreadable(_) => None,
            SelectError::NotFound(n) => Some(
                concat3("device '", n.as_str(), "' not found or doesn't support input"),
            ),
        }
    }
}

/// The device identifier `id` names the device the user asked for as `name`:
/// either may carry a `host:` prefix, which is ignored.
pub open spec fn names_device(id: Seq<char>, name: Seq<char>) -> bool {
    let part = after_first(id, ':');
    let clean = after_first(name, ':');
    id == name || id == clean || part == name || part == clean
}

/// A device that can be used for capture on `backend`; on PipeWire only sink
/// monitors qualify.
pub open spec fn usable(d: DeviceCandidate, backend: AudioBackend) -> bool {
    d.supports_input && !(backend == AudioBackend::PipeWire && !d.is_monitor)
}

/// The search for `name` ends at device `i`: its identifier is unreadable,
/// or it is the named device and usable.
pub open spec fn search_ends_at(
    devs: Seq<DeviceCandidate>,
    backend: AudioBackend,
    name: Seq<char>,
    i: int,
) -> bool {
    0 <= i < devs.len() && match devs[i].id {
        None => true,
        Some(id) => names_device(id@, name) && usable(devs[i], backend),
    }
}

/// `i` is where the search for `name` ends first.
pub open spec fn first_end(devs: Seq<DeviceCandidate>, backend: AudioBackend, name: Seq<char>, i: int) -> bool {
    search_ends_at(devs, backend, name, i) && forall|j: int|
        0 <= j < i ==> !search_ends_at(devs, backend, name, j)
}

/// `i` is the first sink monitor that can capture.
pub open spec fn first_monitor(devs: Seq<DeviceCandidate>, i: int) -> bool {
    0 <= i < devs.len() && devs[i].is_monitor && forall|j: int|
        0 <= j < i ==> !devs[j].is_monitor
}

/// The device a capture on `backend` opens, given the listed devices and
/// the name asked for, if any.
pub open spec fn selection(
    devs: Seq<DeviceCandidate>,
    backend: AudioBackend,
    name: Option<Seq<char>>,
) -> Result<DeviceChoice, Option<Seq<char>>> {
    match name {
        Some(n) => if exists|i: int| first_end(devs, backend, n, i) {
            let i: int = choose|i: int| first_end(devs, backend, n, i);
            if devs[i].id is None {
                Err(None)
            } else {
                Ok(DeviceChoice::Listed(i as usize))
            }
        } else {
            Err(Some(n))
        },
        None => if backend == AudioBackend::PipeWire && exists|i: int| first_monitor(devs, i) {
            Ok(DeviceChoice::Listed((choose|i: int| first_monitor(devs, i)) as usize))
        } else {
            Ok(DeviceChoice::DefaultInput)
        },
    }
}

/// `r` is what `selection` decides, with unreadable identifiers located at `at`.
pub open spec fn selected(
    devs: Seq<DeviceCandidate>,
    backend: AudioBackend,
    name: Option<Seq<char>>,
    r: Result<DeviceChoice, SelectError>,
) -> bool {
    match (r, selection(devs, backend, name)) {
        (Ok(c), Ok(d)) => c == d,
        (Err(SelectError::NotFound(n)), Err(Some(m))) => n@ == m,
        (Err(SelectError::IdUnreadable(i)), Err(None)) => name matches Some(n) && first_end(
            devs,
            backend,
            n,
            i as int,
        ),
        _ => false,
    }
}

/// Chooses the capture device.  With a name, the first listed device that
/// bears it (see `names_device`) and is usable is taken; a device whose
/// identifier cannot be read before that ends the search with an error.
/// Without a name, PipeWire takes the first sink monitor and otherwise the
/// default input, as every other backend does.
pub fn select_device(devices: &Vec<DeviceCandidate>, backend: AudioBackend, device_name: Option<&str>)
    -> (r: Result<DeviceChoice, SelectError>)
    ensures
        selected(devices@, backend, crate::text::opt_str(device_name), r),
{
    match device_name {
        Some(name) => {
            let name_clean = str_after_first(name, ':');
            let mut i: usize = 0;
            while i < devices.len()
                invariant
                    i <= devices.len(),
                    crate::text::opt_str(device_name) == Some(name@),
                    name_clean@ == after_first(name@, ':'),
                    forall|j: int| 0 <= j < i ==> !search_ends_at(devices@, backend, name@, j),
                decreases devices.len() - i,
            {
                let d = &devices[i];
                match &d.id {
                    None => {
                        proof {
                            assert(search_ends_at(devices@, backend, name@, i as int));
                            assert(first_end(devices@, backend, name@, i as int));
                            let k: int = choose|k: int| first_end(devices@, backend, name@, k);
                            if k < i {
                                assert(!search_ends_at(devices@, backend, name@, k));
                            } else if i < k {
                                assert(!search_ends_at(devices@, backend, name@, i as int));
                            }
                            assert(k == i);
                        }
                        return Err(SelectError::IdUnreadable(i));
                    },
                    Some(id) => {
                        let part = str_after_first(id.as_str(), ':');
                        let matches = str_eq(id.as_str(), name) || str_eq(
                            id.as_str(),
                            name_clean.as_str(),
                        ) || str_eq(part.as_str(), name) || str_eq(
                            part.as_str(),
                            name_clean.as_str(),
                        );
                        if matches && d.supports_input && !(backend == AudioBackend::PipeWire
                            && !d.is_monitor) {
                            proof {
                                assert(search_ends_at(devices@, backend, name@, i as int));
                                assert(first_end(devices@, backend, name@, i as int));
                                let k: int = choose|k: int| first_end(devices@, backend, name@, k);
                                if k < i {
                                    assert(!search_ends_at(devices@, backend, name@, k));
                                } else if i < k {
                                    assert(!search_ends_at(devices@, backend, name@, i as int));
                                }
                                assert(k == i);
                            }
                            return Ok(DeviceChoice::Listed(i));
                        }
                    },
                }
                i = i + 1;
            }
            Err(SelectError::NotFound(crate::text::owned(name)))
        },
        None => {
            if backend == AudioBackend::PipeWire {
                let mut i: usize = 0;
                while i < devices.len()
                    invariant
                        i <= devices.len(),
                        device_name is None,
                        backend == AudioBackend::PipeWire,
                        forall|j: int| 0 <= j < i ==> !devices@[j].is_monitor,
                    decreases devices.len() - i,
                {
                    if devices[i].is_monitor {
                        proof {
                            assert(first_monitor(devices@, i as int));
                            let k: int = choose|k: int| first_monitor(devices@, k);
                            if k < i {
                                assert(!devices@[k].is_monitor);
                            } else if i < k {
                                assert(!devices@[i as int].is_monitor);
                            }
                            assert(k == i);
                        }
                        return Ok(DeviceChoice::Listed(i));
                    }
                    i = i + 1;
                }
            }
            Ok(DeviceChoice::DefaultInput)
        },
    }
}

/// A device chosen by name bears that name and is usable on the backend; a
/// device chosen without a name on PipeWire is a sink monitor; with a name,
/// the default input is never chosen.
pub proof fn lemma_selection_fits(
    devs: Seq<DeviceCandidate>,
    backend: AudioBackend,
    name: Option<Seq<char>>,
)
    requires
        devs.len() <= usize::MAX,
    ensures
        selection(devs, backend, name) matches Ok(DeviceChoice::Listed(i)) ==> 0 <= i < devs.len()
            && (match name {
            Some(n) => devs[i as int].id matches Some(id) && names_device(id@, n) && usable(
                devs[i as int],
                backend,
            ),
            None => backend == AudioBackend::PipeWire && devs[i as int].is_monitor,
        }),
        name is Some ==> !(selection(devs, backend, name) matches Ok(DeviceChoice::DefaultInput)),
{
    match name {
        Some(n) => {
            if exists|i: int| first_end(devs, backend, n, i) {
                let i: int = choose|i: int| first_end(devs, backend, n, i);
                assert(search_ends_at(devs, backend, n, i));
                if devs[i].id is Some {
                    assert(selection(devs, backend, name) == Ok::<DeviceChoice, Option<Seq<char>>>(
                        DeviceChoice::Listed(i as usize),
                    ));
                    assert((i as usize) as int == i);
                }
            }
        },
        None => {
            if backend == AudioBackend::PipeWire && exists|i: int| first_monitor(devs, i) {
                let i: int = choose|i: int| first_monitor(devs, i);
                assert(first_monitor(devs, i));
            }
        },
    }
}

/// On any backend but PipeWire, a device asked for by name is the first
/// listed device whose identifier names it and that can capture, be it a
/// sink monitor or not (provided no unreadable identifier comes before it).
pub proof fn lemma_named_choice_off_pipewire(
    devs: Seq<DeviceCandidate>,
    backend: AudioBackend,
    name: Seq<char>,
    i: int,
)
    requires
        devs.len() <= usize::MAX,
        backend != AudioBackend::PipeWire,
        0 <= i < devs.len(),
        devs[i].id matches Some(id) && names_device(id@, name),
        devs[i].supports_input,
        forall|j: int|
            0 <= j < i ==> ((#[trigger] devs[j].id) matches Some(id) && !(names_device(id@, name)
                && devs[j].supports_input)),
    ensures
        selection(devs, backend, Some(name)) == Ok::<DeviceChoice, Option<Seq<char>>>(
            DeviceChoice::Listed(i as usize),
        ),
{
    assert(search_ends_at(devs, backend, name, i));
    assert forall|j: int| 0 <= j < i implies !search_ends_at(devs, backend, name, j) by {
        assert(devs[j].id is Some);
    }
    lemma_first_end_unique(devs, backend, name, i);
}

/// On PipeWire, a device asked for by name is the first listed sink monitor
/// whose identifier names it and that can capture (provided no unreadable
/// identifier comes before it); other devices of that name are passed over.
pub proof fn lemma_named_choice_on_pipewire(devs: Seq<DeviceCandidate>, name: Seq<char>, i: int)
    requires
        devs.len() <= usize::MAX,
        0 <= i < devs.len(),
        devs[i].id matches Some(id) && names_device(id@, name),
        devs[i].supports_input,
        devs[i].is_monitor,
        forall|j: int|
            0 <= j < i ==> ((#[trigger] devs[j].id) matches Some(id) && !(names_device(id@, name)
                && devs[j].supports_input && devs[j].is_monitor)),
    ensures
        selection(devs, AudioBackend::PipeWire, Some(name)) == Ok::<
            DeviceChoice,
            Option<Seq<char>>,
        >(DeviceChoice::Listed(i as usize)),
{
    let backend = AudioBackend::PipeWire;
    assert(search_ends_at(devs, backend, name, i));
    assert forall|j: int| 0 <= j < i implies !search_ends_at(devs, backend, name, j) by {
        assert(devs[j].id is Some);
    }
    lemma_first_end_unique(devs, backend, name, i);
}

/// Without a name, PipeWire takes the first sink monitor listed, or the
/// default input where none is listed; every other backend takes the
/// default input.
pub proof fn lemma_unnamed_choice(devs: Seq<DeviceCandidate>, backend: AudioBackend)
    requires
        devs.len() <= usize::MAX,
    ensures
        backend != AudioBackend::PipeWire ==> selection(devs, backend, None) == Ok::<
            DeviceChoice,
            Option<Seq<char>>,
        >(DeviceChoice::DefaultInput),
        backend == AudioBackend::PipeWire ==> forall|i: int|
            0 <= i < devs.len() && (#[trigger] devs[i]).is_monitor && (forall|j: int|
                0 <= j < i ==> !devs[j].is_monitor) ==> selection(devs, backend, None) == Ok::<
                DeviceChoice,
                Option<Seq<char>>,
            >(DeviceChoice::Listed(i as usize)),
        backend == AudioBackend::PipeWire && (forall|j: int|
            0 <= j < devs.len() ==> !(#[trigger] devs[j]).is_monitor) ==> selection(
            devs,
            backend,
            None,
        ) == Ok::<DeviceChoice, Option<Seq<char>>>(DeviceChoice::DefaultInput),
{
    if backend == AudioBackend::PipeWire {
        assert forall|i: int|
            0 <= i < devs.len() && (#[trigger] devs[i]).is_monitor && (forall|j: int|
                0 <= j < i ==> !devs[j].is_monitor) implies selection(devs, backend, None)
            == Ok::<DeviceChoice, Option<Seq<char>>>(DeviceChoice::Listed(i as usize)) by {
            assert(first_monitor(devs, i));
            let k: int = choose|k: int| first_monitor(devs, k);
            assert(first_monitor(devs, k));
            if k < i {
                assert(!devs[k].is_monitor);
            } else if i < k {
                assert(!devs[i].is_monitor);
            }
            assert(k == i);
        }
        if forall|j: int| 0 <= j < devs.len() ==> !(#[trigger] devs[j]).is_monitor {
            assert(!exists|i: int| first_monitor(devs, i));
        }
    }
}

/// A name that no listed device bears while it can capture (and, on
/// PipeWire, is a sink monitor) is reported as not found, where every
/// identifier could be read.
pub proof fn lemma_named_not_found(devs: Seq<DeviceCandidate>, backend: AudioBackend, name: Seq<char>)
    requires
        forall|j: int|
            0 <= j < devs.len() ==> ((#[trigger] devs[j].id) matches Some(id) && !(names_device(
                id@,
                name,
            ) && devs[j].supports_input && (backend == AudioBackend::PipeWire
                ==> devs[j].is_monitor))),
    ensures
        selection(devs, backend, Some(name)) == Err::<DeviceChoice, Option<Seq<char>>>(Some(name)),
{
    assert forall|i: int| !first_end(devs, backend, name, i) by {
        if 0 <= i < devs.len() {
            assert(devs[i].id is Some);
        }
    }
}

/// Where the search for `name` ends first at `i`, the selection is device `i`.
proof fn lemma_first_end_unique(
    devs: Seq<DeviceCandidate>,
    backend: AudioBackend,
    name: Seq<char>,
    i: int,
)
    requires
        devs.len() <= usize::MAX,
        first_end(devs, backend, name, i),
        devs[i].id is Some,
    ensures
        selection(devs, backend, Some(name)) == Ok::<DeviceChoice, Option<Seq<char>>>(
            DeviceChoice::Listed(i as usize),
        ),
{
    let k: int = choose|k: int| first_end(devs, backend, name, k);
    assert(first_end(devs, backend, name, k));
    if k < i {
        assert(!search_ends_at(devs, backend, name, k));
    } else if i < k {
        assert(!search_ends_at(devs, backend, name, i));
    }
    assert(k == i);
}

/// The first of `names` that equals `wanted` up to ASCII case.
pub open spec fn first_host(names: Seq<String>, wanted: Seq<char>, i: int) -> bool {
    0 <= i < names.len() && eq_ignore_ascii_case(names[i]@, wanted) && forall|j: int|
        0 <= j < i ==> !eq_ignore_ascii_case(names[j]@, wanted)
}

/// The index of the first host whose name equals `wanted` up to ASCII case.
pub fn find_host(names: &Vec<String>, wanted: &str) -> (r: Option<usize>)
    ensures
        r matches Some(i) ==> first_host(names@, wanted@, i as int),
        r is None ==> forall|j: int|
            0 <= j < names.len() ==> !eq_ignore_ascii_case(#[trigger] names@[j]@, wanted@),
{
    let mut i: usize = 0;
    while i < names.len()
        invariant
            i <= names.len(),
            forall|j: int| 0 <= j < i ==> !eq_ignore_ascii_case(#[trigger] names@[j]@, wanted@),
        decreases names.len() - i,
    {
        if str_eq_ignore_ascii_case(names[i].as_str(), wanted) {
            return Some(i);
        }
        i = i + 1;
    }
    None
}

/// A device description marks a sink monitor: a duplex device that captures.
pub fn is_monitor(duplex: bool, supports_input: bool) -> (r: bool)
    ensures
        r == (duplex && supports_input),
{
    duplex && supports_input
}

} // verus!
