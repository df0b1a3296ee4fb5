//! The driver of the render loop and the pause that guards a mutation of
//! the scene.
//!
//! The loop is idle until it is started; from then on a frame is always
//! scheduled or running. A running frame draws the scene, unless the
//! loop is paused: then it draws nothing, and the next frame is scheduled
//! all the same. Whoever loads an asset pauses the loop before the bytes
//! are fetched and resumes it when the scene has been changed, so that no
//! frame sees the scene halfway.

use vstd::prelude::*;
use crate::draw::{draws_whole_entity, lemma_frame_draws_whole, FrameStep};
use crate::error::{ConfigurationError, FatalLoadError, LookupError};
use crate::heightmap::LandscapeData;
use crate::landscape::{Landscape, LandscapeTextureKinds};
use crate::loader::loaded_model;
use crate::scene::{find_landscape, is_attached, is_terrain_of, LayerUpdate, RendererState};
use crate::texture::Texture;

verus! {

/// Where the render loop stands.
#[derive(Clone, Copy, Debug, PartialEq, Eq, Structural)]
pub enum LoopState {
    /// The loop has not been started.
    Idle,
    /// The next frame has been asked for.
    Scheduled,
    /// A frame is being drawn.
    Running,
}

/// What a frame that has begun is to do.
#[derive(Clone, Debug, PartialEq, Eq)]
pub enum FramePlan {
    /// No frame was scheduled: nothing has begun.
    NotScheduled,
    /// The loop is paused: the frame draws nothing.
    Skip,
    /// The frame performs these steps, in this order.
    Draw(Vec<FrameStep>),
}

/// The mathematical content of a [`FramePlan`].
pub enum FramePlanView {
    NotScheduled,
    Skip,
    Draw(Seq<FrameStep>),
}

impl View for FramePlan {
    type V = FramePlanView;

    open spec fn view(&self) -> FramePlanView {
        match self {
            FramePlan::NotScheduled => FramePlanView::NotScheduled,
            FramePlan::Skip => FramePlanView::Skip,
            FramePlan::Draw(draws) => FramePlanView::Draw(draws@),
        }
    }
}

/// The driver of the render loop.
#[derive(Clone, Copy, Debug, PartialEq, Eq, Structural)]
pub struct RenderLoop {
    pub state: LoopState,
    pub paused: bool,
}

/// What a frame that begins in the given state of the loop is to do over
/// the given scene.
pub open spec fn frame_plan(state: LoopState, paused: bool, scene: RendererState) -> FramePlanView {
    if state != LoopState::Scheduled {
        FramePlanView::NotScheduled
    } else if paused {
        FramePlanView::Skip
    } else {
        FramePlanView::Draw(scene.steps())
    }
}

/// The texture kind of the given name and the kind of its mask. The
/// names are `Primary`, `Rockmap` and `Soil`.
pub open spec fn kinds_named(name: Seq<char>) -> Option<
    (LandscapeTextureKinds, LandscapeTextureKinds),
> {
    if name == "Primary"@ {
        Some((LandscapeTextureKinds::Primary, LandscapeTextureKinds::PrimaryMask))
    } else if name == "Rockmap"@ {
        Some((LandscapeTextureKinds::Rockmap, LandscapeTextureKinds::RockmapMask))
    } else if name == "Soil"@ {
        Some((LandscapeTextureKinds::Soil, LandscapeTextureKinds::SoilMask))
    } else {
        None
    }
}

/// Why a texture was not attached.
#[derive(Clone, Copy, Debug, PartialEq, Eq, Structural)]
pub enum AttachError {
    Configuration(ConfigurationError),
    Lookup(LookupError),
}

/// The texture kind of the given name and the kind of its mask.
pub fn texture_kinds(name: &String) -> (result: Result<
    (LandscapeTextureKinds, LandscapeTextureKinds),
    ConfigurationError,
>)
    ensures
        match kinds_named(name@) {
            Some(kinds) => result == Ok::<
                (LandscapeTextureKinds, LandscapeTextureKinds),
                ConfigurationError,
            >(kinds),
            None => result == Err::<
                (LandscapeTextureKinds, LandscapeTextureKinds),
                ConfigurationError,
            >(ConfigurationError::UnknownTextureKind),
        },
{
    let primary = "Primary".to_owned();
    let rockmap = "Rockmap".to_owned();
    let soil = "Soil".to_owned();
    if *name == primary {
        Ok((LandscapeTextureKinds::Primary, LandscapeTextureKinds::PrimaryMask))
    } else if *name == rockmap {
        Ok((LandscapeTextureKinds::Rockmap, LandscapeTextureKinds::RockmapMask))
    } else if *name == soil {
        Ok((LandscapeTextureKinds::Soil, LandscapeTextureKinds::SoilMask))
    } else {
        Err(ConfigurationError::UnknownTextureKind)
    }
}

impl RenderLoop {
    /// A loop that has not been started and is not paused.
    pub fn new() -> (render_loop: Self)
        ensures
            render_loop == (RenderLoop { state: LoopState::Idle, paused: false }),
    {
        RenderLoop { state: LoopState::Idle, paused: false }
    }

    /// Starts the loop: an idle loop has its first frame scheduled.
    /// Returns whether a frame is to be asked for; a loop that was started
    /// before stays as it is.
    pub fn start_render_loop(&mut self) -> (schedule: bool)
        ensures
            schedule == (old(self).state == LoopState::Idle),
            final(self).paused == old(self).paused,
            final(self).state == (if old(self).state == LoopState::Idle {
                LoopState::Scheduled
            } else {
                old(self).state
            }),
    {
        match self.state {
            LoopState::Idle => {
                self.state = LoopState::Scheduled;
                true
            },
            _ => false,
        }
    }

    /// Begins the frame that was scheduled and says what it is to do:
    /// nothing while the loop is paused, and else the draw calls of the
    /// scene. Where no frame was scheduled nothing begins.
    pub fn begin_frame(&mut self, scene: &RendererState) -> (plan: FramePlan)
        ensures
            plan@ == frame_plan(old(self).state, old(self).paused, *scene),
            final(self).paused == old(self).paused,
            final(self).state == (if old(self).state == LoopState::Scheduled {
                LoopState::Running
            } else {
                old(self).state
            }),
            plan matches FramePlan::Draw(steps) ==> forall|k: int|
                0 <= k < steps@.len() ==> (#[trigger] steps@[k] matches FrameStep::Draw(draw)
                    ==> draws_whole_entity(draw, scene.grids@, scene.models@, scene.landscapes@)),
    {
        match self.state {
            LoopState::Scheduled => {
                self.state = LoopState::Running;
                if self.paused {
                    FramePlan::Skip
                } else {
                    FramePlan::Draw(scene.render_frame())
                }
            },
            _ => FramePlan::NotScheduled,
        }
    }

    /// Ends the running frame and schedules the next, paused or not.
    /// Returns whether a frame is to be asked for; where no frame was
    /// running nothing changes.
    pub fn end_frame(&mut self) -> (schedule: bool)
        ensures
            schedule == (old(self).state == LoopState::Running),
            final(self).paused == old(self).paused,
            final(self).state == (if old(self).state == LoopState::Running {
                LoopState::Scheduled
            } else {
                old(self).state
            }),
    {
        match self.state {
            LoopState::Running => {
                self.state = LoopState::Scheduled;
                true
            },
            _ => false,
        }
    }

    /// Pauses the loop: frames draw nothing until it is resumed.
    pub fn pause_rendering(&mut self)
        ensures
            final(self).paused,
            final(self).state == old(self).state,
    {
        self.paused = true;
    }

    /// Resumes the loop.
    pub fn resume_rendering(&mut self)
        ensures
            !final(self).paused,
            final(self).state == old(self).state,
    {
        self.paused = false;
    }

    /// Whether the loop is paused.
    pub fn is_rendering_paused(&self) -> (paused: bool)
        ensures
            paused == self.paused,
    {
        self.paused
    }
}

/// Completes the load of a model, once its bytes have been fetched under
/// a paused loop: the model is loaded and registered, and the loop is
/// resumed, whether or not the load succeeded.
pub fn handle_add_model(
    render_loop: &mut RenderLoop,
    state: &mut RendererState,
    bytes: &Vec<u8>,
) -> (result: Result<(), FatalLoadError>)
    requires
        old(state).well_formed(),
    ensures
        !final(render_loop).paused,
        final(render_loop).state == old(render_loop).state,
        final(state).well_formed(),
        final(state).grids == old(state).grids,
        final(state).landscapes == old(state).landscapes,
        match loaded_model(bytes@) {
            Ok(model) => {
                &&& result is Ok
                &&& final(state).models@.len() == old(state).models@.len() + 1
                &&& final(state).models@.drop_last() == old(state).models@
                &&& final(state).models@.last()@ == model
            },
            Err(error) => {
                &&& result == Err::<(), FatalLoadError>(error)
                &&& *final(state) == *old(state)
            },
        },
{
    let result = state.add_model(bytes);
    render_loop.resume_rendering();
    result
}

/// Completes the load of a landscape, once its heightmap has been
/// fetched under a paused loop: the landscape is built and registered
/// under the given id, and the loop is resumed, whether or not the
/// heightmap was accepted.
pub fn handle_add_landscape(
    render_loop: &mut RenderLoop,
    state: &mut RendererState,
    landscape_component_id: &String,
    data: &LandscapeData,
) -> (result: Result<(), FatalLoadError>)
    requires
        old(state).well_formed(),
    ensures
        !final(render_loop).paused,
        final(render_loop).state == old(render_loop).state,
        final(state).well_formed(),
        final(state).grids == old(state).grids,
        final(state).models == old(state).models,
        Landscape::can_build(data) ==> {
            &&& result is Ok
            &&& final(state).landscapes@.len() == old(state).landscapes@.len() + 1
            &&& final(state).landscapes@.drop_last() == old(state).landscapes@
            &&& is_terrain_of(final(state).landscapes@.last(), landscape_component_id@, *data)
        },
        !Landscape::can_build(data) ==> {
            &&& result == Err::<(), FatalLoadError>(FatalLoadError::MalformedHeightmap)
            &&& *final(state) == *old(state)
        },
{
    let result = state.add_landscape(landscape_component_id, data);
    render_loop.resume_rendering();
    result
}

/// Completes the attaching of a texture layer, once the texture and its
/// mask have been fetched under a paused loop: the texture is attached as
/// the layer of the named kind and the mask as the layer of that kind's
/// mask, to the first landscape with the given id. An unknown kind or an
/// unknown id leaves the scene as it is. The loop is resumed in every
/// case.
pub fn handle_add_landscape_texture(
    render_loop: &mut RenderLoop,
    state: &mut RendererState,
    landscape_component_id: String,
    texture_kind: &String,
    texture: Texture,
    mask: Texture,
) -> (result: Result<LayerUpdate, AttachError>)
    requires
        old(state).well_formed(),
    ensures
        !final(render_loop).paused,
        final(render_loop).state == old(render_loop).state,
        final(state).well_formed(),
        final(state).grids == old(state).grids,
        final(state).models == old(state).models,
        final(state).landscapes@.len() == old(state).landscapes@.len(),
        match kinds_named(texture_kind@) {
            None => {
                &&& result == Err::<LayerUpdate, AttachError>(
                    AttachError::Configuration(ConfigurationError::UnknownTextureKind),
                )
                &&& *final(state) == *old(state)
            },
            Some((kind, mask_kind)) => match find_landscape(
                old(state).landscapes@,
                landscape_component_id@,
            ) {
                None => {
                    &&& result == Err::<LayerUpdate, AttachError>(
                        AttachError::Lookup(LookupError::UnknownLandscape),
                    )
                    &&& *final(state) == *old(state)
                },
                Some(i) => {
                    &&& result == Ok::<LayerUpdate, AttachError>(
                        LayerUpdate {
                            landscape: i as usize,
                            allocated: old(state).landscapes@[i].texture_array is None,
                        },
                    )
                    &&& is_attached(
                        old(state).landscapes@[i],
                        final(state).landscapes@[i],
                        kind,
                        texture,
                        mask_kind,
                        mask,
                    )
                    &&& forall|j: int|
                        0 <= j < old(state).landscapes@.len() && j != i
                            ==> #[trigger] final(state).landscapes@[j] == old(state).landscapes@[j]
                },
            },
        },
{
    let result = match texture_kinds(texture_kind) {
        Err(error) => Err(AttachError::Configuration(error)),
        Ok((kind, mask_kind)) => {
            match state.update_landscape_texture(
                landscape_component_id,
                kind,
                texture,
                mask_kind,
                mask,
            ) {
                Ok(update) => Ok(update),
                Err(error) => Err(AttachError::Lookup(error)),
            }
        },
    };
    render_loop.resume_rendering();
    result
}

/// A mutation of the scene under a pause is seen whole or not at all: a
/// frame that begins before the pause draws the scene as it was, a frame
/// that begins between the pause and the resume draws nothing, whatever
/// the scene is like at that time, and a frame that begins after the
/// resume draws the scene as it has become. Whatever a frame draws is an
/// entity of the scene it was given, and a landscape among them has its
/// texture bind group.
pub proof fn lemma_paused_mutation_is_unseen(
    before: RendererState,
    during: RendererState,
    after: RendererState,
)
    ensures
        frame_plan(LoopState::Scheduled, false, before) == FramePlanView::Draw(before.steps()),
        frame_plan(LoopState::Scheduled, true, during) == FramePlanView::Skip,
        frame_plan(LoopState::Scheduled, false, after) == FramePlanView::Draw(after.steps()),
        forall|k: int|
            0 <= k < before.draws().len() ==> draws_whole_entity(
                #[trigger] before.draws()[k],
                before.grids@,
                before.models@,
                before.landscapes@,
            ),
        forall|k: int|
            0 <= k < after.draws().len() ==> draws_whole_entity(
                #[trigger] after.draws()[k],
                after.grids@,
                after.models@,
                after.landscapes@,
            ),
{
    assert(before.grids@.len() == before.grids.len());
    assert(before.models@.len() == before.models.len());
    assert(before.landscapes@.len() == before.landscapes.len());
    assert(after.grids@.len() == after.grids.len());
    assert(after.models@.len() == after.models.len());
    assert(after.landscapes@.len() == after.landscapes.len());
    lemma_frame_draws_whole(before.grids@, before.models@, before.landscapes@);
    lemma_frame_draws_whole(after.grids@, after.models@, after.landscapes@);
}

} // verus!
