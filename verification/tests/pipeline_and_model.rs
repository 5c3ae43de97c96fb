use studio_effects::blueprint::{
    blueprint, describe, element_name, factory_name, initial_mode, initial_sabotage,
    parse_gpu_backend, pipeline_name, scaler, virtual_output_device, DeviceRef, ElementName,
    Factory, GpuBackend, Part, PipelineMode, Property, SabotageMode, Step, DEFAULT_BLUR_BITS,
};
use studio_effects::effects::{pipeline_parts, PipelineParts};
use studio_effects::segmentation::{
    planar_rgb, providers_for_backend, segmentation_mask, ExecutionProvider, Frame, Platform,
    ScoreMap,
};
use studio_effects::settings::{
    default_camera_priority, default_effect_mode, default_gpu_backend, PanelSettings, Settings,
};

fn feeds(steps: &[Step], target: Part) -> Vec<Part> {
    steps
        .iter()
        .filter_map(|s| match s {
            Step::LinkToNewSinkPad(a, b) if *b == target => Some(*a),
            _ => None,
        })
        .collect()
}

#[test]
fn safety_blueprint_is_a_prefix_of_ai_blueprint() {
    let safety = blueprint(false, GpuBackend::Auto);
    let ai = blueprint(true, GpuBackend::Auto);
    assert_eq!(safety.len(), 12);
    assert_eq!(ai.len(), 40);
    assert_eq!(&safety[..11], &ai[..11]);
    assert_eq!(*safety.last().unwrap(), Step::SelectSinkPad(Part::OutputSelector, 0));
    assert_eq!(*ai.last().unwrap(), Step::SelectSinkPad(Part::OutputSelector, 1));
}

#[test]
fn blueprint_adds_each_part_once_before_use() {
    for with_processing in [false, true] {
        let steps = blueprint(with_processing, GpuBackend::Nvidia);
        let mut added: Vec<Part> = Vec::new();
        for s in &steps {
            match *s {
                Step::Add(p, _) => {
                    assert!(!added.contains(&p));
                    added.push(p);
                }
                Step::Link(a, b) | Step::LinkToNewSinkPad(a, b) => {
                    assert!(added.contains(&a) && added.contains(&b) && a != b);
                }
                Step::SelectSinkPad(p, _) => assert!(added.contains(&p)),
            }
        }
    }
}

#[test]
fn selector_pads_are_fed_in_order() {
    let ai = blueprint(true, GpuBackend::Auto);
    assert_eq!(feeds(&ai, Part::OutputSelector), vec![Part::SafetyQueue, Part::Valve]);
    assert_eq!(feeds(&ai, Part::BackgroundSelector), vec![Part::CameraBackgroundQueue, Part::ImageCaps]);
    assert_eq!(feeds(&ai, Part::Compositor), vec![Part::BackgroundSelector, Part::ModelOutputCaps]);
    let safety = blueprint(false, GpuBackend::Auto);
    assert_eq!(feeds(&safety, Part::OutputSelector), vec![Part::SafetyQueue]);
    assert!(feeds(&safety, Part::Compositor).is_empty());
}

#[test]
fn element_descriptions() {
    let src = describe(Part::Source, GpuBackend::Cpu);
    assert_eq!(src.factory, Factory::V4l2Src);
    assert_eq!(src.property, Some(Property::Device(DeviceRef::Camera)));
    let sink = describe(Part::Sink, GpuBackend::Cpu);
    assert_eq!(sink.factory, Factory::V4l2Sink);
    assert_eq!(sink.fallback, Some(Factory::FakeSink));
    assert_eq!(describe(Part::Valve, GpuBackend::Cpu).property, Some(Property::Drop(false)));
    assert_eq!(describe(Part::ImageSource, GpuBackend::Cpu).property, Some(Property::Pattern(2)));
    match describe(Part::ModelInputCaps, GpuBackend::Cpu).property {
        Some(Property::Caps(c)) => {
            let size = c.size.unwrap();
            assert_eq!((size.width, size.height), (256, 256));
            assert!(c.framerate.is_none());
        }
        other => panic!("unexpected {:?}", other),
    }
    match describe(Part::SourceCaps, GpuBackend::Cpu).property {
        Some(Property::Caps(c)) => {
            let rate = c.framerate.unwrap();
            assert_eq!((rate.numerator, rate.denominator), (30, 1));
        }
        other => panic!("unexpected {:?}", other),
    }
    assert_eq!(describe(Part::BackgroundSelector, GpuBackend::Cpu).name, Some(ElementName::BackgroundSelector));
}

#[test]
fn names_and_devices() {
    assert_eq!(factory_name(Factory::InputSelector), "input-selector");
    assert_eq!(factory_name(Factory::V4l2Src), "v4l2src");
    assert_eq!(element_name(ElementName::Tee), "t");
    assert_eq!(element_name(ElementName::BackgroundSelector), "bg-selector");
    assert_eq!(element_name(ElementName::ModelFilter), "ort-filter");
    assert_eq!(virtual_output_device(), "/dev/video1");
}

#[test]
fn initial_modes() {
    assert_eq!(initial_mode(true), PipelineMode::Ai(DEFAULT_BLUR_BITS));
    assert_eq!(f32::from_bits(DEFAULT_BLUR_BITS), 0.5f32);
    assert_eq!(initial_mode(false), PipelineMode::Safety);
    assert_ne!(SabotageMode::Off, SabotageMode::Freeze);
}

#[test]
fn providers_per_backend() {
    assert_eq!(providers_for_backend("nvidia", Platform::Linux), vec![ExecutionProvider::TensorRt, ExecutionProvider::Cuda]);
    assert_eq!(providers_for_backend("intel", Platform::Linux), vec![ExecutionProvider::OpenVino]);
    assert_eq!(providers_for_backend("npu", Platform::MacOs), vec![ExecutionProvider::CoreMl]);
    assert_eq!(providers_for_backend("amd", Platform::MacOs), vec![ExecutionProvider::CoreMl]);
    assert!(providers_for_backend("amd", Platform::Linux).is_empty());
    assert!(providers_for_backend("cpu", Platform::Linux).is_empty());
    assert!(providers_for_backend("auto", Platform::MacOs).is_empty());
    assert!(providers_for_backend("NVIDIA", Platform::Linux).is_empty());
}

#[test]
fn planar_rgb_reorders_channels() {
    // 1 row, 2 pixels, 4 channels (the fourth is ignored).
    let frame = Frame { height: 1, width: 2, channels: 4, pixels: vec![1, 2, 3, 9, 4, 5, 6, 9] };
    assert_eq!(planar_rgb(&frame), vec![1, 4, 2, 5, 3, 6]);
    let square = Frame { height: 2, width: 2, channels: 3, pixels: (0..12).collect() };
    assert_eq!(planar_rgb(&square), vec![0, 3, 6, 9, 1, 4, 7, 10, 2, 5, 8, 11]);
    let empty = Frame { height: 0, width: 5, channels: 3, pixels: Vec::new() };
    assert!(planar_rgb(&empty).is_empty());
}

#[test]
fn mask_from_scores() {
    let scores = ScoreMap { shape: vec![1, 1, 2, 2], foreground: vec![true, false, false, true] };
    assert_eq!(segmentation_mask(2, 2, &scores), vec![255, 0, 0, 255]);
    // Pixels outside the output are background.
    assert_eq!(segmentation_mask(2, 3, &scores), vec![255, 0, 0, 0, 255, 0]);
    // Only the first class counts.
    let two = ScoreMap { shape: vec![1, 2, 1, 2], foreground: vec![false, true, true, true] };
    assert_eq!(segmentation_mask(1, 2, &two), vec![0, 255]);
    // Output of another rank gives an empty mask.
    let flat = ScoreMap { shape: vec![4], foreground: vec![true; 4] };
    assert_eq!(segmentation_mask(2, 2, &flat), vec![0; 4]);
    let none = ScoreMap { shape: vec![0, 1, 2, 2], foreground: vec![] };
    assert_eq!(segmentation_mask(1, 1, &none), vec![0]);
}

#[test]
fn daemon_defaults() {
    let s = Settings::default();
    assert!(s.active);
    assert_eq!(s.camera_priority, vec!["/dev/video0".to_string(), "/dev/video2".to_string()]);
    assert_eq!(f32::from_bits(s.blur_strength_bits), 0.5);
    assert_eq!(s.sabotage, "none");
    assert!(!s.lighting_boost);
    assert_eq!(s.effect_mode, "blur");
    assert_eq!(s.background_image, "");
    assert_eq!(s.gpu_backend, "auto");
    assert_eq!(default_effect_mode(), "blur");
    assert_eq!(default_gpu_backend(), "auto");
    assert_eq!(default_camera_priority().len(), 2);
}

#[test]
fn panel_defaults() {
    let p = PanelSettings::default();
    assert!(p.active);
    assert_eq!(p.camera_priority, vec!["/dev/video0".to_string()]);
    assert_eq!(p.sabotage, "none");
    assert!(!p.lighting_boost);
    assert_eq!(f32::from_bits(p.blur_strength_bits), 0.5);
}

#[test]
fn safety_pipeline_uses_no_processing_factory() {
    let processing = [Factory::Compositor, Factory::VideoTestSrc, Factory::VideoScale, Factory::NvVideoConvert, Factory::VaapiPostProc, Factory::Identity, Factory::Valve];
    for step in blueprint(false, GpuBackend::Auto) {
        if let Step::Add(part, spec) = step {
            assert_eq!(spec, describe(part, GpuBackend::Auto));
            assert!(!processing.contains(&spec.factory), "{:?}", part);
            if let Some(f) = spec.fallback {
                assert!(!processing.contains(&f));
            }
        }
    }
    let ai_factories: Vec<Factory> = blueprint(true, GpuBackend::Auto)
        .iter()
        .filter_map(|s| if let Step::Add(_, e) = s { Some(e.factory) } else { None })
        .collect();
    assert!(ai_factories.contains(&Factory::Compositor));
    assert!(ai_factories.contains(&Factory::Valve));
}

#[test]
fn gpu_backend_setting_is_read() {
    assert_eq!(parse_gpu_backend("nvidia"), GpuBackend::Nvidia);
    assert_eq!(parse_gpu_backend("intel"), GpuBackend::Intel);
    assert_eq!(parse_gpu_backend("cpu"), GpuBackend::Cpu);
    assert_eq!(parse_gpu_backend("auto"), GpuBackend::Auto);
    assert_eq!(parse_gpu_backend("amd"), GpuBackend::Auto);
    assert_eq!(parse_gpu_backend("Nvidia"), GpuBackend::Auto);
}

#[test]
fn backend_chooses_the_scaler() {
    assert_eq!(factory_name(scaler(parse_gpu_backend("nvidia"))), "nvvideoconvert");
    assert_eq!(factory_name(scaler(parse_gpu_backend("intel"))), "vaapipostproc");
    assert_eq!(factory_name(scaler(parse_gpu_backend("cpu"))), "videoscale");
    assert_eq!(factory_name(scaler(parse_gpu_backend("auto"))), "videoscale");
    for (backend, expected) in [
        (GpuBackend::Nvidia, Factory::NvVideoConvert),
        (GpuBackend::Intel, Factory::VaapiPostProc),
        (GpuBackend::Cpu, Factory::VideoScale),
        (GpuBackend::Auto, Factory::VideoScale),
    ] {
        let scalers: Vec<Factory> = blueprint(true, backend)
            .iter()
            .filter_map(|s| match s {
                Step::Add(Part::ImageScale | Part::ScaleDown | Part::ScaleUp, e) => Some(e.factory),
                _ => None,
            })
            .collect();
        assert_eq!(scalers, vec![expected; 3]);
        for step in blueprint(true, backend) {
            if let Step::Add(p, e) = step {
                assert_eq!(e, describe(p, backend));
            }
        }
    }
}

#[test]
fn blueprint_parts_match_pipeline_parts() {
    for with_processing in [false, true] {
        let added: Vec<Part> = blueprint(with_processing, GpuBackend::Intel)
            .iter()
            .filter_map(|s| if let Step::Add(p, _) = s { Some(*p) } else { None })
            .collect();
        let parts = pipeline_parts(with_processing);
        assert_eq!(
            parts,
            PipelineParts {
                output_selector: added.contains(&Part::OutputSelector),
                compositor: added.contains(&Part::Compositor),
                background_selector: added.contains(&Part::BackgroundSelector),
                valve: added.contains(&Part::Valve),
            }
        );
    }
    assert_eq!(
        pipeline_parts(true),
        PipelineParts { output_selector: true, compositor: true, background_selector: true, valve: true }
    );
    assert_eq!(
        pipeline_parts(false),
        PipelineParts { output_selector: true, compositor: false, background_selector: false, valve: false }
    );
}

#[test]
fn pipeline_name_and_initial_sabotage() {
    assert_eq!(pipeline_name(), "studio-pipeline");
    assert_eq!(initial_sabotage(), SabotageMode::Off);
}

#[test]
fn planar_rgb_of_empty_frame_without_channels() {
    let frame = Frame { height: 0, width: 4, channels: 0, pixels: Vec::new() };
    assert!(planar_rgb(&frame).is_empty());
    let frame = Frame { height: 3, width: 0, channels: 1, pixels: Vec::new() };
    assert!(planar_rgb(&frame).is_empty());
}
