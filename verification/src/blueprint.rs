//! The topology of the studio pipeline, as an ordered list of construction
//! steps: the safety path (camera, tee, output selector, virtual camera) that
//! every pipeline has, and the processing path (background selector,
//! segmentation branch, compositor, freeze valve) that the AI pipeline adds.

use vstd::prelude::*;
use crate::text::same_text;

verus! {

/// The GStreamer element factories the pipeline uses.
#[derive(Clone, Copy, Debug, PartialEq, Eq, Structural)]
pub enum Factory {
    V4l2Src,
    CapsFilter,
    Tee,
    InputSelector,
    V4l2Sink,
    FakeSink,
    Queue,
    Compositor,
    VideoTestSrc,
    VideoScale,
    NvVideoConvert,
    VaapiPostProc,
    Identity,
    Valve,
}

/// The hardware that scales the video, as the `gpu_backend` setting chooses it.
#[derive(Clone, Copy, Debug, PartialEq, Eq, Structural)]
pub enum GpuBackend {
    /// Nvidia's converter.
    Nvidia,
    /// Intel's VA-API post-processor.
    Intel,
    /// The generic software scaler.
    Cpu,
    /// Not chosen: the generic software scaler.
    Auto,
}

/// The parts of the pipeline, one element each.
#[derive(Clone, Copy, Debug, PartialEq, Eq, Structural)]
pub enum Part {
    /// The camera.
    Source,
    /// Fixes the camera's frame rate.
    SourceCaps,
    /// Splits the camera stream between the paths.
    Tee,
    /// Chooses what reaches the virtual camera: safety path or processed path.
    OutputSelector,
    /// The virtual camera.
    Sink,
    /// The safety path's queue.
    SafetyQueue,
    /// Lays the segmentation output over the background.
    Compositor,
    /// Chooses the background: live camera or image.
    BackgroundSelector,
    /// The live camera as background.
    CameraBackgroundQueue,
    /// The replacement image.
    ImageSource,
    ImageScale,
    ImageCaps,
    /// The segmentation branch: scaled down, through the model, scaled up.
    ModelQueue,
    ScaleDown,
    ModelInputCaps,
    ModelFilter,
    ScaleUp,
    ModelOutputCaps,
    /// Freezes the processed picture when closed.
    Valve,
}

/// The names that some elements are given, to be found again by name.
#[derive(Clone, Copy, Debug, PartialEq, Eq, Structural)]
pub enum ElementName {
    Tee,
    BackgroundSelector,
    ModelFilter,
}

/// The device an element opens.
#[derive(Clone, Copy, Debug, PartialEq, Eq, Structural)]
pub enum DeviceRef {
    /// The camera the pipeline is built on.
    Camera,
    /// The virtual camera that applications read.
    VirtualOutput,
}

/// A frame rate, in frames per `denominator` seconds.
#[derive(Clone, Copy, Debug, PartialEq, Eq, Structural)]
pub struct FrameRate {
    pub numerator: i32,
    pub denominator: i32,
}

/// A frame size in pixels.
#[derive(Clone, Copy, Debug, PartialEq, Eq, Structural)]
pub struct FrameSize {
    pub width: i32,
    pub height: i32,
}

/// Raw video capabilities: a frame rate and a frame size, each when fixed.
#[derive(Clone, Copy, Debug, PartialEq, Eq, Structural)]
pub struct VideoCaps {
    pub framerate: Option<FrameRate>,
    pub size: Option<FrameSize>,
}

/// The one property an element is made with.
#[derive(Clone, Copy, Debug, PartialEq, Eq, Structural)]
pub enum Property {
    /// `device`
    Device(DeviceRef),
    /// `caps`, of media type raw video
    Caps(VideoCaps),
    /// `pattern`
    Pattern(i32),
    /// `drop`
    Drop(bool),
}

/// How an element is made: its factory, its name, its property, and the
/// factory to fall back to (without the property) when the first is missing.
#[derive(Clone, Copy, Debug, PartialEq, Eq, Structural)]
pub struct ElementSpec {
    pub factory: Factory,
    pub name: Option<ElementName>,
    pub property: Option<Property>,
    pub fallback: Option<Factory>,
}

/// One construction step.
#[derive(Clone, Copy, Debug, PartialEq, Eq, Structural)]
pub enum Step {
    /// Make the part's element as described and add it to the pipeline.
    Add(Part, ElementSpec),
    /// Link the first part to the second.
    Link(Part, Part),
    /// Request the next sink pad of the second part and link the first part's
    /// source pad to it; the pads are numbered from 0 in order of request.
    LinkToNewSinkPad(Part, Part),
    /// Make the sink pad with this number the active pad of a selector.
    SelectSinkPad(Part, u32),
}

/// What the pipeline is running.
#[derive(Clone, Copy, Debug, PartialEq, Eq, Structural)]
pub enum PipelineMode {
    /// The processing path, with the blur strength as the bit pattern of a
    /// single-precision float.
    Ai(u32),
    /// The pass-through safety path.
    Safety,
}

/// The ways the output can be sabotaged.
#[derive(Clone, Copy, Debug, PartialEq, Eq, Structural)]
pub enum SabotageMode {
    /// No sabotage.
    Off,
    Freeze,
    Glitch,
}

/// The bit pattern of the single-precision float one half, the blur strength a
/// new processing pipeline starts with.
pub const DEFAULT_BLUR_BITS: u32 = 0x3f00_0000;

/// The factory's name in GStreamer's registry.
pub open spec fn factory_text(f: Factory) -> Seq<char> {
    match f {
        Factory::V4l2Src => "v4l2src"@,
        Factory::CapsFilter => "capsfilter"@,
        Factory::Tee => "tee"@,
        Factory::InputSelector => "input-selector"@,
        Factory::V4l2Sink => "v4l2sink"@,
        Factory::FakeSink => "fakesink"@,
        Factory::Queue => "queue"@,
        Factory::Compositor => "compositor"@,
        Factory::VideoTestSrc => "videotestsrc"@,
        Factory::VideoScale => "videoscale"@,
        Factory::NvVideoConvert => "nvvideoconvert"@,
        Factory::VaapiPostProc => "vaapipostproc"@,
        Factory::Identity => "identity"@,
        Factory::Valve => "valve"@,
    }
}

/// The element's name in the pipeline.
pub open spec fn element_name_text(n: ElementName) -> Seq<char> {
    match n {
        ElementName::Tee => "t"@,
        ElementName::BackgroundSelector => "bg-selector"@,
        ElementName::ModelFilter => "ort-filter"@,
    }
}

/// The path of the virtual camera device.
pub open spec fn virtual_output_path() -> Seq<char> {
    "/dev/video1"@
}

/// An element made from a factory with nothing else.
pub open spec fn plain(f: Factory) -> ElementSpec {
    ElementSpec { factory: f, name: None, property: None, fallback: None }
}

/// Caps of a frame size only.
pub open spec fn sized(width: i32, height: i32) -> Property {
    Property::Caps(VideoCaps { framerate: None, size: Some(FrameSize { width, height }) })
}

/// The backend that a `gpu_backend` setting names: "nvidia", "intel" and
/// "cpu" name theirs, and any other setting leaves the choice open.
pub open spec fn gpu_backend_of(setting: Seq<char>) -> GpuBackend {
    if setting == "nvidia"@ {
        GpuBackend::Nvidia
    } else if setting == "intel"@ {
        GpuBackend::Intel
    } else if setting == "cpu"@ {
        GpuBackend::Cpu
    } else {
        GpuBackend::Auto
    }
}

/// The factory of every scaling element: `nvvideoconvert` on Nvidia,
/// `vaapipostproc` on Intel, `videoscale` otherwise.
pub open spec fn scaler_factory(backend: GpuBackend) -> Factory {
    match backend {
        GpuBackend::Nvidia => Factory::NvVideoConvert,
        GpuBackend::Intel => Factory::VaapiPostProc,
        _ => Factory::VideoScale,
    }
}

/// The parts that scale the video.
pub open spec fn is_scaler(p: Part) -> bool {
    p == Part::ImageScale || p == Part::ScaleDown || p == Part::ScaleUp
}

/// How each part's element is made on the given backend.
pub open spec fn element_spec(p: Part, backend: GpuBackend) -> ElementSpec {
    match p {
        Part::Source => ElementSpec {
            property: Some(Property::Device(DeviceRef::Camera)),
            ..plain(Factory::V4l2Src)
        },
        Part::SourceCaps => ElementSpec {
            property: Some(
                Property::Caps(VideoCaps { framerate: Some(FrameRate { numerator: 30, denominator: 1 }), size: None }),
            ),
            ..plain(Factory::CapsFilter)
        },
        Part::Tee => ElementSpec { name: Some(ElementName::Tee), ..plain(Factory::Tee) },
        Part::OutputSelector => plain(Factory::InputSelector),
        Part::Sink => ElementSpec {
            property: Some(Property::Device(DeviceRef::VirtualOutput)),
            fallback: Some(Factory::FakeSink),
            ..plain(Factory::V4l2Sink)
        },
        Part::SafetyQueue => plain(Factory::Queue),
        Part::Compositor => plain(Factory::Compositor),
        Part::BackgroundSelector => ElementSpec {
            name: Some(ElementName::BackgroundSelector),
            ..plain(Factory::InputSelector)
        },
        Part::CameraBackgroundQueue => plain(Factory::Queue),
        Part::ImageSource => ElementSpec {
            property: Some(Property::Pattern(2)),
            ..plain(Factory::VideoTestSrc)
        },
        Part::ImageScale => plain(scaler_factory(backend)),
        Part::ImageCaps => ElementSpec {
            property: Some(sized(1920, 1080)),
            ..plain(Factory::CapsFilter)
        },
        Part::ModelQueue => plain(Factory::Queue),
        Part::ScaleDown => plain(scaler_factory(backend)),
        Part::ModelInputCaps => ElementSpec {
            property: Some(sized(256, 256)),
            ..plain(Factory::CapsFilter)
        },
        Part::ModelFilter => ElementSpec {
            name: Some(ElementName::ModelFilter),
            ..plain(Factory::Identity)
        },
        Part::ScaleUp => plain(scaler_factory(backend)),
        Part::ModelOutputCaps => ElementSpec {
            property: Some(sized(1920, 1080)),
            ..plain(Factory::CapsFilter)
        },
        Part::Valve => ElementSpec {
            property: Some(Property::Drop(false)),
            ..plain(Factory::Valve)
        },
    }
}

/// The step that adds a part, made as on the given backend.
pub open spec fn adding(p: Part, backend: GpuBackend) -> Step {
    Step::Add(p, element_spec(p, backend))
}

/// The safety path: camera, frame-rate caps and tee; output selector and
/// virtual camera; the tee's first branch through a queue into the output
/// selector's first sink pad.
pub open spec fn safety_steps(backend: GpuBackend) -> Seq<Step> {
    seq![
        adding(Part::Source, backend),
        adding(Part::SourceCaps, backend),
        adding(Part::Tee, backend),
        adding(Part::OutputSelector, backend),
        adding(Part::Sink, backend),
        Step::Link(Part::Source, Part::SourceCaps),
        Step::Link(Part::SourceCaps, Part::Tee),
        Step::Link(Part::OutputSelector, Part::Sink),
        adding(Part::SafetyQueue, backend),
        Step::Link(Part::Tee, Part::SafetyQueue),
        Step::LinkToNewSinkPad(Part::SafetyQueue, Part::OutputSelector),
    ]
}

/// The processing path: the background selector fed by the live camera and
/// by the image, into the compositor's first sink pad; the segmentation branch
/// into its second; the compositor through the valve into the output
/// selector's second sink pad.
pub open spec fn processing_steps(backend: GpuBackend) -> Seq<Step> {
    seq![
        adding(Part::Compositor, backend),
        adding(Part::BackgroundSelector, backend),
        adding(Part::CameraBackgroundQueue, backend),
        Step::Link(Part::Tee, Part::CameraBackgroundQueue),
        Step::LinkToNewSinkPad(Part::CameraBackgroundQueue, Part::BackgroundSelector),
        adding(Part::ImageSource, backend),
        adding(Part::ImageScale, backend),
        adding(Part::ImageCaps, backend),
        Step::Link(Part::ImageSource, Part::ImageScale),
        Step::Link(Part::ImageScale, Part::ImageCaps),
        Step::LinkToNewSinkPad(Part::ImageCaps, Part::BackgroundSelector),
        Step::LinkToNewSinkPad(Part::BackgroundSelector, Part::Compositor),
        adding(Part::ModelQueue, backend),
        adding(Part::ScaleDown, backend),
        adding(Part::ModelInputCaps, backend),
        adding(Part::ModelFilter, backend),
        adding(Part::ScaleUp, backend),
        adding(Part::ModelOutputCaps, backend),
        Step::Link(Part::Tee, Part::ModelQueue),
        Step::Link(Part::ModelQueue, Part::ScaleDown),
        Step::Link(Part::ScaleDown, Part::ModelInputCaps),
        Step::Link(Part::ModelInputCaps, Part::ModelFilter),
        Step::Link(Part::ModelFilter, Part::ScaleUp),
        Step::Link(Part::ScaleUp, Part::ModelOutputCaps),
        Step::LinkToNewSinkPad(Part::ModelOutputCaps, Part::Compositor),
        adding(Part::Valve, backend),
        Step::Link(Part::Compositor, Part::Valve),
        Step::LinkToNewSinkPad(Part::Valve, Part::OutputSelector),
    ]
}

/// The construction steps of the AI pipeline (`with_processing`) or of the
/// safety pipeline: the safety path, then the processing path if any, then
/// the output selector set to the processed path or to the safety path.
pub open spec fn blueprint_steps(with_processing: bool, backend: GpuBackend) -> Seq<Step> {
    if with_processing {
        safety_steps(backend) + processing_steps(backend) + seq![
            Step::SelectSinkPad(Part::OutputSelector, 1),
        ]
    } else {
        safety_steps(backend) + seq![Step::SelectSinkPad(Part::OutputSelector, 0)]
    }
}

/// The parts that the steps add.
pub open spec fn added_parts(steps: Seq<Step>) -> Set<Part>
    decreases steps.len(),
{
    if steps.len() == 0 {
        Set::empty()
    } else {
        let before = added_parts(steps.drop_last());
        match steps.last() {
            Step::Add(p, _) => before.insert(p),
            _ => before,
        }
    }
}

/// The step adds the part.
pub open spec fn adds_part(s: Step, p: Part) -> bool {
    match s {
        Step::Add(q, _) => q == p,
        _ => false,
    }
}

/// A part is among those the steps add exactly when one of the steps adds it.
pub proof fn added_parts_are_those_added(steps: Seq<Step>, p: Part)
    ensures
        added_parts(steps).contains(p) <==> exists|i: int|
            0 <= i < steps.len() && #[trigger] adds_part(steps[i], p),
    decreases steps.len(),
{
    if steps.len() > 0 {
        let front = steps.drop_last();
        added_parts_are_those_added(front, p);
        if exists|i: int| 0 <= i < front.len() && #[trigger] adds_part(front[i], p) {
            let i = choose|i: int| 0 <= i < front.len() && #[trigger] adds_part(front[i], p);
            assert(adds_part(steps[i], p));
        }
        let n = steps.len() - 1;
        if adds_part(steps[n], p) {
            assert(added_parts(steps).contains(p));
        }
        if exists|i: int| 0 <= i < steps.len() && #[trigger] adds_part(steps[i], p) {
            let i = choose|i: int| 0 <= i < steps.len() && #[trigger] adds_part(steps[i], p);
            if i < n {
                assert(adds_part(front[i], p));
            }
        }
        if !adds_part(steps[n], p) {
            assert(added_parts(steps).contains(p) == added_parts(front).contains(p));
        }
    }
}

/// The name the pipeline is given.
pub open spec fn pipeline_name_text() -> Seq<char> {
    "studio-pipeline"@
}

/// The step can follow steps that added the parts `before`: a part is added
/// once, and links and selections name parts already added, two distinct ones
/// for a link.
pub open spec fn step_fits(before: Set<Part>, s: Step) -> bool {
    match s {
        Step::Add(p, _) => !before.contains(p),
        Step::Link(a, b) => before.contains(a) && before.contains(b) && a != b,
        Step::LinkToNewSinkPad(a, b) => before.contains(a) && before.contains(b) && a != b,
        Step::SelectSinkPad(p, _) => before.contains(p),
    }
}

/// Every step fits the steps before it.
pub open spec fn well_formed(steps: Seq<Step>) -> bool
    decreases steps.len(),
{
    steps.len() == 0 || (well_formed(steps.drop_last()) && step_fits(
        added_parts(steps.drop_last()),
        steps.last(),
    ))
}

/// The parts whose source pads feed the sink pads that are requested of
/// `target`, in order: the part at position `k` feeds sink pad `k`.
pub open spec fn sink_pad_feeds(steps: Seq<Step>, target: Part) -> Seq<Part>
    decreases steps.len(),
{
    if steps.len() == 0 {
        Seq::empty()
    } else {
        let before = sink_pad_feeds(steps.drop_last(), target);
        match steps.last() {
            Step::LinkToNewSinkPad(a, b) => if b == target {
                before.push(a)
            } else {
                before
            },
            _ => before,
        }
    }
}

/// How the element of a part is made on the given backend.
pub fn describe(p: Part, backend: GpuBackend) -> (r: ElementSpec)
    ensures
        r == element_spec(p, backend),
{
    let none = ElementSpec { factory: Factory::Queue, name: None, property: None, fallback: None };
    match p {
        Part::Source => ElementSpec {
            factory: Factory::V4l2Src,
            property: Some(Property::Device(DeviceRef::Camera)),
            ..none
        },
        Part::SourceCaps => ElementSpec {
            factory: Factory::CapsFilter,
            property: Some(
                Property::Caps(VideoCaps { framerate: Some(FrameRate { numerator: 30, denominator: 1 }), size: None }),
            ),
            ..none
        },
        Part::Tee => ElementSpec { factory: Factory::Tee, name: Some(ElementName::Tee), ..none },
        Part::OutputSelector => ElementSpec { factory: Factory::InputSelector, ..none },
        Part::Sink => ElementSpec {
            factory: Factory::V4l2Sink,
            property: Some(Property::Device(DeviceRef::VirtualOutput)),
            fallback: Some(Factory::FakeSink),
            ..none
        },
        Part::SafetyQueue => none,
        Part::Compositor => ElementSpec { factory: Factory::Compositor, ..none },
        Part::BackgroundSelector => ElementSpec {
            factory: Factory::InputSelector,
            name: Some(ElementName::BackgroundSelector),
            ..none
        },
        Part::CameraBackgroundQueue => none,
        Part::ImageSource => ElementSpec {
            factory: Factory::VideoTestSrc,
            property: Some(Property::Pattern(2)),
            ..none
        },
        Part::ImageScale => ElementSpec { factory: scaler(backend), ..none },
        Part::ImageCaps => ElementSpec {
            factory: Factory::CapsFilter,
            property: Some(
                Property::Caps(VideoCaps { framerate: None, size: Some(FrameSize { width: 1920, height: 1080 }) }),
            ),
            ..none
        },
        Part::ModelQueue => none,
        Part::ScaleDown => ElementSpec { factory: scaler(backend), ..none },
        Part::ModelInputCaps => ElementSpec {
            factory: Factory::CapsFilter,
            property: Some(Property::Caps(VideoCaps { framerate: None, size: Some(FrameSize { width: 256, height: 256 }) })),
            ..none
        },
        Part::ModelFilter => ElementSpec {
            factory: Factory::Identity,
            name: Some(ElementName::ModelFilter),
            ..none
        },
        Part::ScaleUp => ElementSpec { factory: scaler(backend), ..none },
        Part::ModelOutputCaps => ElementSpec {
            factory: Factory::CapsFilter,
            property: Some(
                Property::Caps(VideoCaps { framerate: None, size: Some(FrameSize { width: 1920, height: 1080 }) }),
            ),
            ..none
        },
        Part::Valve => ElementSpec {
            factory: Factory::Valve,
            property: Some(Property::Drop(false)),
            ..none
        },
    }
}

/// Reads the `gpu_backend` setting.
pub fn parse_gpu_backend(setting: &str) -> (r: GpuBackend)
    ensures
        r == gpu_backend_of(setting@),
{
    if same_text(setting, "nvidia") {
        GpuBackend::Nvidia
    } else if same_text(setting, "intel") {
        GpuBackend::Intel
    } else if same_text(setting, "cpu") {
        GpuBackend::Cpu
    } else {
        GpuBackend::Auto
    }
}

/// The factory of the scaling elements on the given backend.
pub fn scaler(backend: GpuBackend) -> (r: Factory)
    ensures
        r == scaler_factory(backend),
{
    match backend {
        GpuBackend::Nvidia => Factory::NvVideoConvert,
        GpuBackend::Intel => Factory::VaapiPostProc,
        _ => Factory::VideoScale,
    }
}

/// The factory's name in GStreamer's registry.
pub fn factory_name(f: Factory) -> (r: &'static str)
    ensures
        r@ == factory_text(f),
{
    match f {
        Factory::V4l2Src => "v4l2src",
        Factory::CapsFilter => "capsfilter",
        Factory::Tee => "tee",
        Factory::InputSelector => "input-selector",
        Factory::V4l2Sink => "v4l2sink",
        Factory::FakeSink => "fakesink",
        Factory::Queue => "queue",
        Factory::Compositor => "compositor",
        Factory::VideoTestSrc => "videotestsrc",
        Factory::VideoScale => "videoscale",
        Factory::NvVideoConvert => "nvvideoconvert",
        Factory::VaapiPostProc => "vaapipostproc",
        Factory::Identity => "identity",
        Factory::Valve => "valve",
    }
}

/// The element's name in the pipeline.
pub fn element_name(n: ElementName) -> (r: &'static str)
    ensures
        r@ == element_name_text(n),
{
    match n {
        ElementName::Tee => "t",
        ElementName::BackgroundSelector => "bg-selector",
        ElementName::ModelFilter => "ort-filter",
    }
}

/// The path of the virtual camera device that the pipeline writes and whose
/// users the daemon watches.
pub fn virtual_output_device() -> (r: &'static str)
    ensures
        r@ == virtual_output_path(),
{
    "/dev/video1"
}

/// The name the pipeline is given.
pub fn pipeline_name() -> (r: &'static str)
    ensures
        r@ == pipeline_name_text(),
{
    "studio-pipeline"
}

/// The sabotage a new pipeline starts with: none.
pub fn initial_sabotage() -> (r: SabotageMode)
    ensures
        r == SabotageMode::Off,
{
    SabotageMode::Off
}

/// The mode a pipeline starts in: processing at the default blur strength, or
/// the safety path.
pub fn initial_mode(with_processing: bool) -> (r: PipelineMode)
    ensures
        r == if with_processing {
            PipelineMode::Ai(DEFAULT_BLUR_BITS)
        } else {
            PipelineMode::Safety
        },
{
    if with_processing {
        PipelineMode::Ai(DEFAULT_BLUR_BITS)
    } else {
        PipelineMode::Safety
    }
}

/// Appends a step that fits the ones before it.
fn append(steps: &mut Vec<Step>, s: Step)
    requires
        well_formed(old(steps)@),
        step_fits(added_parts(old(steps)@), s),
    ensures
        final(steps)@ == old(steps)@.push(s),
        well_formed(final(steps)@),
        added_parts(final(steps)@) == match s {
            Step::Add(p, _) => added_parts(old(steps)@).insert(p),
            _ => added_parts(old(steps)@),
        },
        forall|t: Part|
            #![trigger sink_pad_feeds(final(steps)@, t)]
            sink_pad_feeds(final(steps)@, t) == match s {
                Step::LinkToNewSinkPad(a, b) => if b == t {
                    sink_pad_feeds(old(steps)@, t).push(a)
                } else {
                    sink_pad_feeds(old(steps)@, t)
                },
                _ => sink_pad_feeds(old(steps)@, t),
            },
{
    proof {
        assert(old(steps)@.push(s).drop_last() =~= old(steps)@);
    }
    steps.push(s);
}

/// The construction steps of the AI pipeline (`with_processing`) or of the
/// safety pipeline. Every step fits the ones before it; the output selector's
/// sink pads are fed by the safety queue and, in the AI pipeline, by the valve;
/// the background selector's by the live camera and the image; the
/// compositor's by the background selector and the segmentation branch.
#[verifier::rlimit(50)]
pub fn blueprint(with_processing: bool, backend: GpuBackend) -> (r: Vec<Step>)
    ensures
        r@ == blueprint_steps(with_processing, backend),
        well_formed(r@),
        sink_pad_feeds(r@, Part::OutputSelector) == if with_processing {
            seq![Part::SafetyQueue, Part::Valve]
        } else {
            seq![Part::SafetyQueue]
        },
        sink_pad_feeds(r@, Part::BackgroundSelector) == if with_processing {
            seq![Part::CameraBackgroundQueue, Part::ImageCaps]
        } else {
            Seq::<Part>::empty()
        },
        sink_pad_feeds(r@, Part::Compositor) == if with_processing {
            seq![Part::BackgroundSelector, Part::ModelOutputCaps]
        } else {
            Seq::<Part>::empty()
        },
{
    let mut steps: Vec<Step> = Vec::new();
    proof {
        assert(sink_pad_feeds(steps@, Part::OutputSelector) =~= Seq::<Part>::empty());
        assert(sink_pad_feeds(steps@, Part::BackgroundSelector) =~= Seq::<Part>::empty());
        assert(sink_pad_feeds(steps@, Part::Compositor) =~= Seq::<Part>::empty());
    }
    append(&mut steps, Step::Add(Part::Source, describe(Part::Source, backend)));
    append(&mut steps, Step::Add(Part::SourceCaps, describe(Part::SourceCaps, backend)));
    append(&mut steps, Step::Add(Part::Tee, describe(Part::Tee, backend)));
    append(&mut steps, Step::Add(Part::OutputSelector, describe(Part::OutputSelector, backend)));
    append(&mut steps, Step::Add(Part::Sink, describe(Part::Sink, backend)));
    append(&mut steps, Step::Link(Part::Source, Part::SourceCaps));
    append(&mut steps, Step::Link(Part::SourceCaps, Part::Tee));
    append(&mut steps, Step::Link(Part::OutputSelector, Part::Sink));
    append(&mut steps, Step::Add(Part::SafetyQueue, describe(Part::SafetyQueue, backend)));
    append(&mut steps, Step::Link(Part::Tee, Part::SafetyQueue));
    append(&mut steps, Step::LinkToNewSinkPad(Part::SafetyQueue, Part::OutputSelector));
    if with_processing {
        append(&mut steps, Step::Add(Part::Compositor, describe(Part::Compositor, backend)));
        append(&mut steps, Step::Add(Part::BackgroundSelector, describe(Part::BackgroundSelector, backend)));
        append(&mut steps, Step::Add(Part::CameraBackgroundQueue, describe(Part::CameraBackgroundQueue, backend)));
        append(&mut steps, Step::Link(Part::Tee, Part::CameraBackgroundQueue));
        append(&mut steps, Step::LinkToNewSinkPad(Part::CameraBackgroundQueue, Part::BackgroundSelector));
        append(&mut steps, Step::Add(Part::ImageSource, describe(Part::ImageSource, backend)));
        append(&mut steps, Step::Add(Part::ImageScale, describe(Part::ImageScale, backend)));
        append(&mut steps, Step::Add(Part::ImageCaps, describe(Part::ImageCaps, backend)));
        append(&mut steps, Step::Link(Part::ImageSource, Part::ImageScale));
        append(&mut steps, Step::Link(Part::ImageScale, Part::ImageCaps));
        append(&mut steps, Step::LinkToNewSinkPad(Part::ImageCaps, Part::BackgroundSelector));
        append(&mut steps, Step::LinkToNewSinkPad(Part::BackgroundSelector, Part::Compositor));
        append(&mut steps, Step::Add(Part::ModelQueue, describe(Part::ModelQueue, backend)));
        append(&mut steps, Step::Add(Part::ScaleDown, describe(Part::ScaleDown, backend)));
        append(&mut steps, Step::Add(Part::ModelInputCaps, describe(Part::ModelInputCaps, backend)));
        append(&mut steps, Step::Add(Part::ModelFilter, describe(Part::ModelFilter, backend)));
        append(&mut steps, Step::Add(Part::ScaleUp, describe(Part::ScaleUp, backend)));
        append(&mut steps, Step::Add(Part::ModelOutputCaps, describe(Part::ModelOutputCaps, backend)));
        append(&mut steps, Step::Link(Part::Tee, Part::ModelQueue));
        append(&mut steps, Step::Link(Part::ModelQueue, Part::ScaleDown));
        append(&mut steps, Step::Link(Part::ScaleDown, Part::ModelInputCaps));
        append(&mut steps, Step::Link(Part::ModelInputCaps, Part::ModelFilter));
        append(&mut steps, Step::Link(Part::ModelFilter, Part::ScaleUp));
        append(&mut steps, Step::Link(Part::ScaleUp, Part::ModelOutputCaps));
        append(&mut steps, Step::LinkToNewSinkPad(Part::ModelOutputCaps, Part::Compositor));
        append(&mut steps, Step::Add(Part::Valve, describe(Part::Valve, backend)));
        append(&mut steps, Step::Link(Part::Compositor, Part::Valve));
        append(&mut steps, Step::LinkToNewSinkPad(Part::Valve, Part::OutputSelector));
        append(&mut steps, Step::SelectSinkPad(Part::OutputSelector, 1));
    } else {
        append(&mut steps, Step::SelectSinkPad(Part::OutputSelector, 0));
    }
    proof {
        assert(steps@ =~= blueprint_steps(with_processing, backend));
    }
    steps
}

/// Every pipeline carries the safety path: both blueprints begin with it.
pub proof fn safety_path_always_built(with_processing: bool, backend: GpuBackend)
    ensures
        blueprint_steps(with_processing, backend).take(safety_steps(backend).len() as int)
            == safety_steps(backend),
{
    assert(blueprint_steps(with_processing, backend).take(safety_steps(backend).len() as int)
        =~= safety_steps(backend));
}

/// The factories that only the processing path uses.
pub open spec fn processing_only_factory(f: Factory) -> bool {
    f == Factory::Compositor || f == Factory::VideoTestSrc || f == Factory::VideoScale || f
        == Factory::NvVideoConvert || f == Factory::VaapiPostProc || f == Factory::Identity || f
        == Factory::Valve
}

/// The fallback to the safety pipeline does not depend on any factory of the
/// processing path: no element of the safety pipeline is made from one, on
/// any backend.
pub proof fn safety_pipeline_needs_no_processing_plugin(backend: GpuBackend)
    ensures
        forall|i: int|
            0 <= i < blueprint_steps(false, backend).len() ==> match #[trigger] blueprint_steps(
                false,
                backend,
            )[i] {
                Step::Add(_, e) => !processing_only_factory(e.factory) && !(e.fallback matches Some(
                    f,
                ) && processing_only_factory(f)),
                _ => true,
            },
{
    let s = blueprint_steps(false, backend);
    assert(s =~= seq![
        adding(Part::Source, backend),
        adding(Part::SourceCaps, backend),
        adding(Part::Tee, backend),
        adding(Part::OutputSelector, backend),
        adding(Part::Sink, backend),
        Step::Link(Part::Source, Part::SourceCaps),
        Step::Link(Part::SourceCaps, Part::Tee),
        Step::Link(Part::OutputSelector, Part::Sink),
        adding(Part::SafetyQueue, backend),
        Step::Link(Part::Tee, Part::SafetyQueue),
        Step::LinkToNewSinkPad(Part::SafetyQueue, Part::OutputSelector),
        Step::SelectSinkPad(Part::OutputSelector, 0),
    ]);
}

/// Every element that a blueprint adds is made as its part is made on the
/// blueprint's backend; in particular every scaling element is made from the
/// backend's scaler: `nvvideoconvert` on Nvidia, `vaapipostproc` on Intel,
/// `videoscale` on the CPU or when the backend is left open.
pub proof fn elements_follow_backend(with_processing: bool, backend: GpuBackend)
    ensures
        forall|i: int|
            0 <= i < blueprint_steps(with_processing, backend).len() ==> match #[trigger] blueprint_steps(
                with_processing,
                backend,
            )[i] {
                Step::Add(p, e) => e == element_spec(p, backend) && (is_scaler(p) ==> e.factory
                    == scaler_factory(backend)),
                _ => true,
            },
{
}

/// The backend settings of the configuration file choose the scaler:
/// "nvidia" `nvvideoconvert`, "intel" `vaapipostproc`, "cpu" and "auto"
/// `videoscale`.
pub proof fn gpu_setting_chooses_scaler()
    ensures
        scaler_factory(gpu_backend_of("nvidia"@)) == Factory::NvVideoConvert,
        scaler_factory(gpu_backend_of("intel"@)) == Factory::VaapiPostProc,
        scaler_factory(gpu_backend_of("cpu"@)) == Factory::VideoScale,
        scaler_factory(gpu_backend_of("auto"@)) == Factory::VideoScale,
{
    reveal_strlit("nvidia");
    reveal_strlit("intel");
    reveal_strlit("cpu");
    reveal_strlit("auto");
    // The four settings differ in length.
    assert("nvidia"@.len() == 6 && "intel"@.len() == 5 && "cpu"@.len() == 3 && "auto"@.len() == 4);
}

/// A pipeline starts by showing the processed path when it has one, and the
/// safety path otherwise.
pub proof fn pipeline_starts_on_its_best_path(with_processing: bool, backend: GpuBackend)
    ensures
        blueprint_steps(with_processing, backend).last() == Step::SelectSinkPad(
            Part::OutputSelector,
            if with_processing {
                1u32
            } else {
                0u32
            },
        ),
{
}

/// The step joins `from` to `to`, by a plain link or through a requested sink pad.
pub open spec fn connects(s: Step, from: Part, to: Part) -> bool {
    s == Step::Link(from, to) || s == Step::LinkToNewSinkPad(from, to)
}

/// The segmentation branch of the AI pipeline is one chain: tee, queue, scale
/// down, 256 × 256 caps, model, scale up, 1920 × 1080 caps, into the
/// compositor. The model's only input is the 256 × 256 caps and its only
/// output the up-scaler; the down-scaler is fed by the queue alone.
pub proof fn segmentation_branch_is_a_chain(backend: GpuBackend)
    ensures
        blueprint_steps(true, backend).contains(Step::Link(Part::Tee, Part::ModelQueue)),
        blueprint_steps(true, backend).contains(Step::Link(Part::ModelQueue, Part::ScaleDown)),
        blueprint_steps(true, backend).contains(Step::Link(Part::ScaleDown, Part::ModelInputCaps)),
        blueprint_steps(true, backend).contains(Step::Link(Part::ModelInputCaps, Part::ModelFilter)),
        blueprint_steps(true, backend).contains(Step::Link(Part::ModelFilter, Part::ScaleUp)),
        blueprint_steps(true, backend).contains(Step::Link(Part::ScaleUp, Part::ModelOutputCaps)),
        blueprint_steps(true, backend).contains(
            Step::LinkToNewSinkPad(Part::ModelOutputCaps, Part::Compositor),
        ),
        forall|i: int, a: Part|
            0 <= i < blueprint_steps(true, backend).len() && #[trigger] connects(
                blueprint_steps(true, backend)[i],
                a,
                Part::ModelFilter,
            ) ==> a == Part::ModelInputCaps,
        forall|i: int, b: Part|
            0 <= i < blueprint_steps(true, backend).len() && #[trigger] connects(
                blueprint_steps(true, backend)[i],
                Part::ModelFilter,
                b,
            ) ==> b == Part::ScaleUp,
        forall|i: int, a: Part|
            0 <= i < blueprint_steps(true, backend).len() && #[trigger] connects(
                blueprint_steps(true, backend)[i],
                a,
                Part::ScaleDown,
            ) ==> a == Part::ModelQueue,
        element_spec(Part::ModelInputCaps, backend).property == Some(
            Property::Caps(
                VideoCaps { framerate: None, size: Some(FrameSize { width: 256, height: 256 }) },
            ),
        ),
        element_spec(Part::ModelOutputCaps, backend).property == Some(
            Property::Caps(
                VideoCaps { framerate: None, size: Some(FrameSize { width: 1920, height: 1080 }) },
            ),
        ),
        element_spec(Part::ModelFilter, backend).factory == Factory::Identity,
{
    let s = blueprint_steps(true, backend);
    assert(s[29] == Step::Link(Part::Tee, Part::ModelQueue));
    assert(s[30] == Step::Link(Part::ModelQueue, Part::ScaleDown));
    assert(s[31] == Step::Link(Part::ScaleDown, Part::ModelInputCaps));
    assert(s[32] == Step::Link(Part::ModelInputCaps, Part::ModelFilter));
    assert(s[33] == Step::Link(Part::ModelFilter, Part::ScaleUp));
    assert(s[34] == Step::Link(Part::ScaleUp, Part::ModelOutputCaps));
    assert(s[35] == Step::LinkToNewSinkPad(Part::ModelOutputCaps, Part::Compositor));
}

/// In the steps, `p` is fed by `a` and by nothing else.
pub open spec fn fed_only_by(steps: Seq<Step>, p: Part, a: Part) -> bool {
    &&& exists|i: int| 0 <= i < steps.len() && #[trigger] connects(steps[i], a, p)
    &&& forall|i: int, x: Part|
        0 <= i < steps.len() && #[trigger] connects(steps[i], x, p) ==> x == a
}

/// Every element with a single input is fed by the element before it on its
/// path: on both pipelines the camera runs through its caps into the tee, the
/// tee feeds the safety queue, and the output selector feeds the virtual
/// camera; on the AI pipeline the tee also feeds the camera-background queue
/// and the segmentation queue, the image runs through its scaler and caps,
/// the segmentation branch runs queue, down-scaler, 256 × 256 caps, model,
/// up-scaler, 1920 × 1080 caps, and the compositor feeds the valve.
pub proof fn every_element_has_its_input(with_processing: bool, backend: GpuBackend)
    ensures
        fed_only_by(blueprint_steps(with_processing, backend), Part::SourceCaps, Part::Source),
        fed_only_by(blueprint_steps(with_processing, backend), Part::Tee, Part::SourceCaps),
        fed_only_by(blueprint_steps(with_processing, backend), Part::SafetyQueue, Part::Tee),
        fed_only_by(blueprint_steps(with_processing, backend), Part::Sink, Part::OutputSelector),
        with_processing ==> fed_only_by(
            blueprint_steps(with_processing, backend),
            Part::CameraBackgroundQueue,
            Part::Tee,
        ),
        with_processing ==> fed_only_by(
            blueprint_steps(with_processing, backend),
            Part::ImageScale,
            Part::ImageSource,
        ),
        with_processing ==> fed_only_by(
            blueprint_steps(with_processing, backend),
            Part::ImageCaps,
            Part::ImageScale,
        ),
        with_processing ==> fed_only_by(
            blueprint_steps(with_processing, backend),
            Part::ModelQueue,
            Part::Tee,
        ),
        with_processing ==> fed_only_by(
            blueprint_steps(with_processing, backend),
            Part::ScaleDown,
            Part::ModelQueue,
        ),
        with_processing ==> fed_only_by(
            blueprint_steps(with_processing, backend),
            Part::ModelInputCaps,
            Part::ScaleDown,
        ),
        with_processing ==> fed_only_by(
            blueprint_steps(with_processing, backend),
            Part::ModelFilter,
            Part::ModelInputCaps,
        ),
        with_processing ==> fed_only_by(
            blueprint_steps(with_processing, backend),
            Part::ScaleUp,
            Part::ModelFilter,
        ),
        with_processing ==> fed_only_by(
            blueprint_steps(with_processing, backend),
            Part::ModelOutputCaps,
            Part::ScaleUp,
        ),
        with_processing ==> fed_only_by(
            blueprint_steps(with_processing, backend),
            Part::Valve,
            Part::Compositor,
        ),
{
    let s = blueprint_steps(with_processing, backend);
    assert(connects(s[5], Part::Source, Part::SourceCaps));
    assert(connects(s[6], Part::SourceCaps, Part::Tee));
    assert(connects(s[9], Part::Tee, Part::SafetyQueue));
    assert(connects(s[7], Part::OutputSelector, Part::Sink));
    if with_processing {
        assert(connects(s[14], Part::Tee, Part::CameraBackgroundQueue));
        assert(connects(s[19], Part::ImageSource, Part::ImageScale));
        assert(connects(s[20], Part::ImageScale, Part::ImageCaps));
        assert(connects(s[29], Part::Tee, Part::ModelQueue));
        assert(connects(s[30], Part::ModelQueue, Part::ScaleDown));
        assert(connects(s[31], Part::ScaleDown, Part::ModelInputCaps));
        assert(connects(s[32], Part::ModelInputCaps, Part::ModelFilter));
        assert(connects(s[33], Part::ModelFilter, Part::ScaleUp));
        assert(connects(s[34], Part::ScaleUp, Part::ModelOutputCaps));
        assert(connects(s[37], Part::Compositor, Part::Valve));
    }
}

/// How the elements start: the camera source opens the camera at 30 frames a
/// second, the virtual camera is written (or, without its plugin, a fake sink
/// takes its place), the image and the model's output are 1920 × 1080, the
/// model's input 256 × 256, and the valve starts open so frames flow.
pub proof fn elements_start_as_documented(backend: GpuBackend)
    ensures
        element_spec(Part::Source, backend).property == Some(Property::Device(DeviceRef::Camera)),
        element_spec(Part::SourceCaps, backend).property == Some(
            Property::Caps(
                VideoCaps {
                    framerate: Some(FrameRate { numerator: 30, denominator: 1 }),
                    size: None,
                },
            ),
        ),
        element_spec(Part::Sink, backend).property == Some(
            Property::Device(DeviceRef::VirtualOutput),
        ),
        element_spec(Part::Sink, backend).factory == Factory::V4l2Sink,
        element_spec(Part::Sink, backend).fallback == Some(Factory::FakeSink),
        element_spec(Part::ImageCaps, backend).property == Some(
            Property::Caps(
                VideoCaps { framerate: None, size: Some(FrameSize { width: 1920, height: 1080 }) },
            ),
        ),
        element_spec(Part::Valve, backend).property == Some(Property::Drop(false)),
        forall|p: Part| p != Part::Sink ==> (#[trigger] element_spec(p, backend)).fallback is None,
{
}

/// Any backend setting other than "nvidia" and "intel" scales with
/// `videoscale`.
pub proof fn other_settings_scale_in_software(setting: Seq<char>)
    requires
        setting != "nvidia"@,
        setting != "intel"@,
    ensures
        scaler_factory(gpu_backend_of(setting)) == Factory::VideoScale,
{
}

} // verus!
