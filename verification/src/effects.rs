//! What applying the settings to a built pipeline switches: the output
//! selector between the safety path and the processed path, the background
//! selector between the live camera and the replacement image, and the valve
//! that freezes the picture.

use vstd::prelude::*;
use crate::blueprint::{added_parts, added_parts_are_those_added, adds_part, adding, blueprint_steps, GpuBackend, Part, Step};
use crate::text::{contains, contains_text, same_text};

verus! {

/// The switchable parts that a built pipeline holds.
#[derive(Clone, Copy, Debug, PartialEq, Eq, Structural)]
pub struct PipelineParts {
    /// The output selector (safety path on its first sink, processed path on its second).
    pub output_selector: bool,
    /// The compositor of the processed path.
    pub compositor: bool,
    /// The background selector (live camera on its first sink, image on its second).
    pub background_selector: bool,
    /// The valve behind the compositor.
    pub valve: bool,
}

/// The switches that applying the settings makes. `None` leaves that part as it is.
#[derive(Clone, Copy, Debug, PartialEq, Eq, Structural)]
pub struct EffectPlan {
    /// The sink pad of the output selector to make active.
    pub output_pad: Option<u32>,
    /// The sink pad of the background selector to make active.
    pub background_pad: Option<u32>,
    /// Whether the valve drops buffers.
    pub valve_drop: Option<bool>,
}

/// The switchable parts that the steps add.
pub open spec fn parts_of(steps: Seq<Step>) -> PipelineParts {
    PipelineParts {
        output_selector: added_parts(steps).contains(Part::OutputSelector),
        compositor: added_parts(steps).contains(Part::Compositor),
        background_selector: added_parts(steps).contains(Part::BackgroundSelector),
        valve: added_parts(steps).contains(Part::Valve),
    }
}

/// The switchable parts of the AI pipeline (all four) or of the safety
/// pipeline (the output selector alone).
pub open spec fn blueprint_parts(with_processing: bool) -> PipelineParts {
    PipelineParts {
        output_selector: true,
        compositor: with_processing,
        background_selector: with_processing,
        valve: with_processing,
    }
}

/// The switchable parts of the AI pipeline (`with_processing`) or of the
/// safety pipeline. A pipeline keeps them for its whole life.
pub fn pipeline_parts(with_processing: bool) -> (r: PipelineParts)
    ensures
        r == blueprint_parts(with_processing),
{
    PipelineParts {
        output_selector: true,
        compositor: with_processing,
        background_selector: with_processing,
        valve: with_processing,
    }
}

/// The parts that a blueprint builds are the parts `pipeline_parts` gives for
/// it: the AI pipeline has all four, the safety pipeline the output selector
/// alone.
pub proof fn blueprints_have_their_parts(with_processing: bool, backend: GpuBackend)
    ensures
        parts_of(blueprint_steps(with_processing, backend)) == blueprint_parts(with_processing),
{
    let s = blueprint_steps(with_processing, backend);
    added_parts_are_those_added(s, Part::OutputSelector);
    added_parts_are_those_added(s, Part::Compositor);
    added_parts_are_those_added(s, Part::BackgroundSelector);
    added_parts_are_those_added(s, Part::Valve);
    assert(adds_part(s[3], Part::OutputSelector));
    if with_processing {
        assert(adds_part(s[11], Part::Compositor));
        assert(adds_part(s[12], Part::BackgroundSelector));
        assert(adds_part(s[36], Part::Valve));
    } else {
        assert(s =~= seq![
            adding(Part::Source, backend),
            adding(Part::SourceCaps, backend),
            adding(Part::Tee, backend),
            adding(Part::OutputSelector, backend),
            adding(Part::Sink, backend),
            Step::Link(Part::Source, Part::SourceCaps),
            Step::Link(Part::SourceCaps, Part::Tee),
            Step::Link(Part::OutputSelector, Part::Sink),
            adding(Part::SafetyQueue, backend),
            Step::Link(Part::Tee, Part::SafetyQueue),
            Step::LinkToNewSinkPad(Part::SafetyQueue, Part::OutputSelector),
            Step::SelectSinkPad(Part::OutputSelector, 0),
        ]);
        assert(forall|i: int| 0 <= i < s.len() ==> !#[trigger] adds_part(s[i], Part::Compositor));
        assert(forall|i: int|
            0 <= i < s.len() ==> !#[trigger] adds_part(s[i], Part::BackgroundSelector));
        assert(forall|i: int| 0 <= i < s.len() ==> !#[trigger] adds_part(s[i], Part::Valve));
    }
}

/// The first sink pad: the safety path on the output selector, the live
/// camera on the background selector.
pub open spec fn first_sink() -> u32 {
    0
}

/// The second sink pad: the processed path on the output selector, the image
/// on the background selector.
pub open spec fn second_sink() -> u32 {
    1
}

/// The switches for the given settings on a pipeline with the given parts.
pub open spec fn effect_plan(
    parts: PipelineParts,
    active: bool,
    sabotage: Seq<char>,
    effect_mode: Seq<char>,
) -> EffectPlan {
    if !active {
        EffectPlan {
            output_pad: if parts.output_selector {
                Some(first_sink())
            } else {
                None
            },
            background_pad: None,
            valve_drop: None,
        }
    } else {
        let processed = parts.output_selector && parts.compositor;
        EffectPlan {
            output_pad: if processed {
                Some(second_sink())
            } else {
                None
            },
            background_pad: if processed && parts.background_selector {
                Some(
                    if contains_text(effect_mode, "replace"@) {
                        second_sink()
                    } else {
                        first_sink()
                    },
                )
            } else {
                None
            },
            valve_drop: if parts.valve {
                Some(sabotage == "freeze"@)
            } else {
                None
            },
        }
    }
}

/// Decides the switches that applying the settings makes: when the effects
/// are off, the output shows the safety path and nothing else changes; when
/// they are on, the output shows the processed path (where there is one), the
/// background is the image for an effect mode that mentions "replace" and the
/// live camera otherwise, and the valve drops buffers exactly under the
/// "freeze" sabotage.
pub fn plan_effects(parts: PipelineParts, active: bool, sabotage: &str, effect_mode: &str) -> (r:
    EffectPlan)
    ensures
        r == effect_plan(parts, active, sabotage@, effect_mode@),
{
    if !active {
        return EffectPlan {
            output_pad: if parts.output_selector {
                Some(0)
            } else {
                None
            },
            background_pad: None,
            valve_drop: None,
        };
    }
    let mut plan = EffectPlan { output_pad: None, background_pad: None, valve_drop: None };
    if parts.output_selector && parts.compositor {
        plan.output_pad = Some(1);
        if parts.background_selector {
            let use_image = contains(effect_mode, "replace");
            plan.background_pad = Some(
                if use_image {
                    1
                } else {
                    0
                },
            );
        }
    }
    if parts.valve {
        plan.valve_drop = Some(same_text(sabotage, "freeze"));
    }
    plan
}

/// Fail-safe: with the effects switched off, the output shows the safety path,
/// and neither the background nor the valve is touched.
pub proof fn inactive_shows_safety_path(
    parts: PipelineParts,
    sabotage: Seq<char>,
    effect_mode: Seq<char>,
)
    requires
        parts.output_selector,
    ensures
        effect_plan(parts, false, sabotage, effect_mode) == (EffectPlan {
            output_pad: Some(first_sink()),
            background_pad: None,
            valve_drop: None,
        }),
{
}

/// On an AI pipeline, switching the effects on shows the processed path, and
/// the background and the valve follow from the sabotage and the effect mode
/// alone, whatever was applied before.
pub proof fn active_switches_on_ai_pipeline(sabotage: Seq<char>, effect_mode: Seq<char>)
    ensures
        effect_plan(blueprint_parts(true), true, sabotage, effect_mode) == (EffectPlan {
            output_pad: Some(second_sink()),
            background_pad: Some(
                if contains_text(effect_mode, "replace"@) {
                    second_sink()
                } else {
                    first_sink()
                },
            ),
            valve_drop: Some(sabotage == "freeze"@),
        }),
{
}

/// On the safety pipeline, switching the effects on changes nothing, and
/// switching them off shows the safety path.
pub proof fn safety_pipeline_switches(sabotage: Seq<char>, effect_mode: Seq<char>)
    ensures
        effect_plan(blueprint_parts(false), true, sabotage, effect_mode) == (EffectPlan {
            output_pad: None,
            background_pad: None,
            valve_drop: None,
        }),
        effect_plan(blueprint_parts(false), false, sabotage, effect_mode) == (EffectPlan {
            output_pad: Some(first_sink()),
            background_pad: None,
            valve_drop: None,
        }),
{
}

/// With the effects on, the picture freezes under the "freeze" sabotage and
/// flows under any other.
pub proof fn freeze_sabotage_stops_frames(
    parts: PipelineParts,
    sabotage: Seq<char>,
    effect_mode: Seq<char>,
)
    requires
        parts.valve,
    ensures
        effect_plan(parts, true, sabotage, effect_mode).valve_drop == Some(sabotage == "freeze"@),
{
}

/// The effect modes that replace the background show the image; blurring
/// alone shows the live camera.
pub proof fn effect_modes_choose_background(parts: PipelineParts, sabotage: Seq<char>)
    requires
        parts.output_selector,
        parts.compositor,
        parts.background_selector,
    ensures
        effect_plan(parts, true, sabotage, "replace"@).background_pad == Some(second_sink()),
        effect_plan(parts, true, sabotage, "replace_and_blur"@).background_pad == Some(
            second_sink(),
        ),
        effect_plan(parts, true, sabotage, "blur"@).background_pad == Some(first_sink()),
        effect_plan(parts, true, sabotage, "blur"@).output_pad == Some(second_sink()),
{
    reveal_strlit("replace");
    reveal_strlit("replace_and_blur");
    reveal_strlit("blur");
    let pat = "replace"@;
    assert("replace"@.subrange(0, pat.len() as int) =~= pat);
    assert(crate::text::occurs_at("replace"@, pat, 0));
    assert("replace_and_blur"@.subrange(0, pat.len() as int) =~= pat);
    assert(crate::text::occurs_at("replace_and_blur"@, pat, 0));
    assert forall|i: int| !#[trigger] crate::text::occurs_at("blur"@, pat, i) by {}
}

/// With the effects on and a background selector, the image is the background
/// exactly when the effect mode holds "replace" somewhere in it, and the live
/// camera otherwise.
pub proof fn image_background_iff_mode_mentions_replace(
    parts: PipelineParts,
    sabotage: Seq<char>,
    effect_mode: Seq<char>,
)
    requires
        parts.output_selector,
        parts.compositor,
        parts.background_selector,
    ensures
        effect_plan(parts, true, sabotage, effect_mode).background_pad == Some(second_sink()) <==> (
        exists|a: Seq<char>, b: Seq<char>| effect_mode == a + "replace"@ + b),
        effect_plan(parts, true, sabotage, effect_mode).background_pad == Some(first_sink()) <==> !(
        exists|a: Seq<char>, b: Seq<char>| effect_mode == a + "replace"@ + b),
{
    crate::text::contains_means_infix(effect_mode, "replace"@);
}

} // verus!
