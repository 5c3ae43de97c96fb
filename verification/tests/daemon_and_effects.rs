use studio_effects::daemon::{bus_requires_rebuild, sink_in_use, BusEvent, LifecycleAction, Supervisor};
use studio_effects::effects::{pipeline_parts, plan_effects, EffectPlan, PipelineParts};

fn all_parts() -> PipelineParts {
    PipelineParts { output_selector: true, compositor: true, background_selector: true, valve: true }
}

#[test]
fn new_supervisor_has_no_pipeline() {
    let s = Supervisor::new();
    assert!(!s.is_running());
}

#[test]
fn wanted_pipeline_is_built_on_best_camera() {
    let s = Supervisor::new();
    assert_eq!(s.lifecycle(true, true, Some(1)), LifecycleAction::Build(1));
    assert_eq!(s.lifecycle(true, true, None), LifecycleAction::AwaitCamera);
}

#[test]
fn idle_or_disabled_destroys_pipeline() {
    let mut s = Supervisor::new();
    s.pipeline_built("/dev/video0".to_string());
    assert!(s.is_running());
    assert_eq!(s.lifecycle(true, false, Some(0)), LifecycleAction::Destroy);
    assert_eq!(s.lifecycle(false, true, Some(0)), LifecycleAction::Destroy);
    s.pipeline_destroyed();
    assert!(!s.is_running());
    assert_eq!(s.lifecycle(false, false, Some(0)), LifecycleAction::Keep);
}

#[test]
fn running_pipeline_is_kept() {
    let mut s = Supervisor::new();
    s.pipeline_built("/dev/video0".to_string());
    assert_eq!(s.lifecycle(true, true, Some(0)), LifecycleAction::Keep);
}

#[test]
fn destroyed_pipeline_keeps_camera_for_upgrade_check() {
    let mut s = Supervisor::new();
    s.pipeline_built("/dev/video2".to_string());
    s.pipeline_destroyed();
    let priority = vec!["/dev/video0".to_string(), "/dev/video2".to_string()];
    assert!(s.upgrade_wanted(&priority, &vec![true, true]));
}

#[test]
fn rebuild_forgets_camera_and_builds_again() {
    let mut s = Supervisor::new();
    s.pipeline_built("/dev/video2".to_string());
    let priority = vec!["/dev/video0".to_string(), "/dev/video2".to_string()];
    assert!(s.upgrade_wanted(&priority, &vec![true, true]));
    assert!(!s.upgrade_wanted(&priority, &vec![false, true]));
    s.rebuild();
    assert!(!s.is_running());
    assert!(!s.upgrade_wanted(&priority, &vec![true, true]));
    assert_eq!(s.lifecycle(true, true, Some(0)), LifecycleAction::Build(0));
}

#[test]
fn bus_errors_and_end_of_stream_force_rebuild() {
    assert!(bus_requires_rebuild(BusEvent::Error));
    assert!(bus_requires_rebuild(BusEvent::EndOfStream));
    assert!(!bus_requires_rebuild(BusEvent::Other));
    assert!(!bus_requires_rebuild(BusEvent::Quiet));
}

#[test]
fn sink_use_from_listing() {
    assert!(sink_in_use(&Some(b"COMMAND PID\nzoom 42\n".to_vec())));
    assert!(!sink_in_use(&Some(Vec::new())));
    assert!(sink_in_use(&None));
}

#[test]
fn inactive_selects_safety_path_only() {
    let plan = plan_effects(all_parts(), false, "freeze", "replace");
    assert_eq!(plan, EffectPlan { output_pad: Some(0), background_pad: None, valve_drop: None });
    let bare = PipelineParts { output_selector: false, compositor: false, background_selector: false, valve: false };
    assert_eq!(
        plan_effects(bare, false, "none", "blur"),
        EffectPlan { output_pad: None, background_pad: None, valve_drop: None }
    );
}

#[test]
fn active_blur_uses_camera_background() {
    let plan = plan_effects(all_parts(), true, "none", "blur");
    assert_eq!(plan, EffectPlan { output_pad: Some(1), background_pad: Some(0), valve_drop: Some(false) });
}

#[test]
fn replace_modes_use_image_background() {
    assert_eq!(plan_effects(all_parts(), true, "none", "replace").background_pad, Some(1));
    assert_eq!(plan_effects(all_parts(), true, "none", "replace_and_blur").background_pad, Some(1));
}

#[test]
fn freeze_closes_valve_and_glitch_does_not() {
    assert_eq!(plan_effects(all_parts(), true, "freeze", "blur").valve_drop, Some(true));
    assert_eq!(plan_effects(all_parts(), true, "glitch", "blur").valve_drop, Some(false));
    assert_eq!(plan_effects(all_parts(), true, "Freeze", "blur").valve_drop, Some(false));
}

#[test]
fn safety_pipeline_changes_nothing_but_valve_when_active() {
    let safety = PipelineParts { output_selector: true, compositor: false, background_selector: false, valve: false };
    assert_eq!(
        plan_effects(safety, true, "freeze", "replace"),
        EffectPlan { output_pad: None, background_pad: None, valve_drop: None }
    );
    let valve_only = PipelineParts { output_selector: false, compositor: false, background_selector: false, valve: true };
    assert_eq!(plan_effects(valve_only, true, "freeze", "blur").valve_drop, Some(true));
}

#[test]
fn missing_background_selector_leaves_background() {
    let parts = PipelineParts { background_selector: false, ..all_parts() };
    assert_eq!(plan_effects(parts, true, "none", "replace").background_pad, None);
}

#[test]
fn ai_pipeline_switches_depend_only_on_settings() {
    let ai = pipeline_parts(true);
    // The same settings give the same switches whatever was applied before.
    let _ = plan_effects(ai, true, "freeze", "replace");
    let _ = plan_effects(ai, false, "none", "blur");
    assert_eq!(
        plan_effects(ai, true, "glitch", "replace_and_blur"),
        EffectPlan { output_pad: Some(1), background_pad: Some(1), valve_drop: Some(false) }
    );
    let safety = pipeline_parts(false);
    assert_eq!(
        plan_effects(safety, true, "freeze", "replace"),
        EffectPlan { output_pad: None, background_pad: None, valve_drop: None }
    );
    assert_eq!(
        plan_effects(safety, false, "freeze", "replace"),
        EffectPlan { output_pad: Some(0), background_pad: None, valve_drop: None }
    );
}
