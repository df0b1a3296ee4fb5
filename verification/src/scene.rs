//! The scene: the registry of everything that is drawn.
//!
//! The scene is owned by whoever drives the renderer and is handed to each
//! operation by reference, so that it has one mutator at a time.

use vstd::prelude::*;
use crate::binding::TextureBindGroup;
use crate::draw::{
    draws_whole_entity, frame_draws, frame_steps, grid_draws, landscape_draws,
    lemma_frame_draws_whole, mesh_draws, model_draws, DrawCall, Drawable, FrameStep, IndexFormat,
};
use crate::error::{FatalLoadError, LookupError};
use crate::grid::{grid_line_indices, grid_vertices, Grid, GridLines};
use crate::heightmap::LandscapeData;
use crate::landscape::{extent_with, layers_of, Landscape, LandscapeTextureKinds, LAYER_COUNT};
use crate::loader::loaded_model;
use crate::model::Model;
use crate::terrain::{as_ints, terrain_indices, terrain_vertices};
use crate::texture::{Extent3d, Texture};
use crate::transform::{Transform, MINUS_HUNDRED};
use crate::vertex::{ONE, ZERO};

verus! {

/// Everything that is drawn: the reference grids, the imported models and
/// the landscapes, each in the order in which it was registered.
#[derive(Clone, Debug, PartialEq, Eq)]
pub struct RendererState {
    pub grids: Vec<Grid>,
    pub models: Vec<Model>,
    pub landscapes: Vec<Landscape>,
}

/// What attaching a texture and its mask did.
#[derive(Clone, Copy, Debug, PartialEq, Eq, Structural)]
pub struct LayerUpdate {
    /// The place of the landscape among the landscapes of the scene.
    pub landscape: usize,
    /// Whether the landscape's texture array was allocated by this update.
    pub allocated: bool,
}

/// The place of the first landscape with the given id, if there is one.
pub open spec fn find_landscape(landscapes: Seq<Landscape>, id: Seq<char>) -> Option<int> {
    if exists|i: int| 0 <= i < landscapes.len() && (#[trigger] landscapes[i]).id@ == id {
        Some(
            choose|i: int|
                0 <= i < landscapes.len() && (#[trigger] landscapes[i]).id@ == id && forall|j: int|
                    0 <= j < i ==> (#[trigger] landscapes[j]).id@ != id,
        )
    } else {
        None
    }
}

/// `i` is the place of the first landscape with the given id.
pub open spec fn is_first_with_id(landscapes: Seq<Landscape>, id: Seq<char>, i: int) -> bool {
    &&& 0 <= i < landscapes.len()
    &&& landscapes[i].id@ == id
    &&& forall|j: int| 0 <= j < i ==> (#[trigger] landscapes[j]).id@ != id
}

/// The first landscape with a given id is found where it stands, and
/// nothing is found where no landscape has the id.
pub proof fn lemma_find_landscape(landscapes: Seq<Landscape>, id: Seq<char>)
    ensures
        match find_landscape(landscapes, id) {
            Some(i) => is_first_with_id(landscapes, id, i),
            None => forall|j: int| 0 <= j < landscapes.len() ==> (#[trigger] landscapes[j]).id@ != id,
        },
        forall|i: int|
            is_first_with_id(landscapes, id, i) ==> find_landscape(landscapes, id) == Some(i),
{
    if exists|i: int| 0 <= i < landscapes.len() && (#[trigger] landscapes[i]).id@ == id {
        let w = choose|i: int| 0 <= i < landscapes.len() && (#[trigger] landscapes[i]).id@ == id;
        lemma_first_exists(landscapes, id, w);
        let f = find_landscape(landscapes, id)->Some_0;
        assert(is_first_with_id(landscapes, id, f));
        assert forall|i: int| is_first_with_id(landscapes, id, i) implies i == f by {
            if i < f {
                assert(landscapes[i].id@ != id);
            } else if f < i {
                assert(landscapes[f].id@ != id);
            }
        }
    }
}

/// Where a landscape at `upto` has the id, some landscape is the first
/// with it.
proof fn lemma_first_exists(landscapes: Seq<Landscape>, id: Seq<char>, upto: int)
    requires
        0 <= upto < landscapes.len(),
        landscapes[upto].id@ == id,
    ensures
        exists|i: int|
            0 <= i < landscapes.len() && (#[trigger] landscapes[i]).id@ == id && forall|j: int|
                0 <= j < i ==> (#[trigger] landscapes[j]).id@ != id,
    decreases upto,
{
    if exists|j: int| 0 <= j < upto && (#[trigger] landscapes[j]).id@ == id {
        let j = choose|j: int| 0 <= j < upto && (#[trigger] landscapes[j]).id@ == id;
        lemma_first_exists(landscapes, id, j);
    } else {
        assert(0 <= upto < landscapes.len() && landscapes[upto].id@ == id && forall|j: int|
            0 <= j < upto ==> (#[trigger] landscapes[j]).id@ != id);
    }
}

/// `landscape` is the landscape with the given id freshly built from
/// `data`: its vertices and indices are those of the terrain, it stands a
/// hundred units below the origin, and it has no texture yet.
pub open spec fn is_terrain_of(landscape: Landscape, id: Seq<char>, data: LandscapeData) -> bool {
    &&& landscape.id@ == id
    &&& landscape.transform == (Transform {
        position: [ZERO, MINUS_HUNDRED, ZERO],
        rotation: [ZERO, ZERO, ZERO],
        scale: [ONE, ONE, ONE],
    })
    &&& landscape.vertices@ == terrain_vertices(data)
    &&& as_ints(landscape.indices@) == terrain_indices(data.width as int, data.height as int)
    &&& landscape.index_count == landscape.indices@.len()
    &&& landscape.texture_array is None
    &&& landscape.texture_bind_group is None
    &&& landscape.well_formed()
}

/// `after` is `before` with `texture` attached as the layer of `kind` and
/// then `mask` as the layer of `mask_kind`: the array has the extent it
/// had, or that of `texture` if there was none; the two layers hold the
/// new bytes and every other layer holds what it held; the bind group
/// shows the array; nothing else has changed.
pub open spec fn is_attached(
    before: Landscape,
    after: Landscape,
    kind: LandscapeTextureKinds,
    texture: Texture,
    mask_kind: LandscapeTextureKinds,
    mask: Texture,
) -> bool {
    &&& after.well_formed()
    &&& after.texture_array matches Some(array)
    &&& array.size == extent_with(before.texture_array, texture)
    &&& array.layers_view() == layers_of(before.texture_array).update(
        kind.layer() as int,
        Some(texture.data@),
    ).update(mask_kind.layer() as int, Some(mask.data@))
    &&& after.id == before.id
    &&& after.transform == before.transform
    &&& after.vertices == before.vertices
    &&& after.indices == before.indices
    &&& after.index_count == before.index_count
}

/// Attaching the primary, the rockmap and the soil texture, each with its
/// mask, one after the other to one landscape allocates its texture array
/// once at most, with the first attach and in the size of the first
/// texture; in the end each of the six layers holds the bytes last
/// written to it and the bind group shows the array.
pub proof fn lemma_three_attaches(
    fresh: Landscape,
    first: Landscape,
    second: Landscape,
    third: Landscape,
    primary: Texture,
    primary_mask: Texture,
    rockmap: Texture,
    rockmap_mask: Texture,
    soil: Texture,
    soil_mask: Texture,
)
    requires
        fresh.well_formed(),
        is_attached(
            fresh,
            first,
            LandscapeTextureKinds::Primary,
            primary,
            LandscapeTextureKinds::PrimaryMask,
            primary_mask,
        ),
        is_attached(
            first,
            second,
            LandscapeTextureKinds::Rockmap,
            rockmap,
            LandscapeTextureKinds::RockmapMask,
            rockmap_mask,
        ),
        is_attached(
            second,
            third,
            LandscapeTextureKinds::Soil,
            soil,
            LandscapeTextureKinds::SoilMask,
            soil_mask,
        ),
    ensures
        first.texture_array is Some,
        second.texture_array is Some,
        third.texture_array matches Some(array) && {
            &&& array.size == extent_with(fresh.texture_array, primary)
            &&& array.layers_view() == seq![
                Some(primary.data@),
                Some(primary_mask.data@),
                Some(rockmap.data@),
                Some(rockmap_mask.data@),
                Some(soil.data@),
                Some(soil_mask.data@),
            ]
            &&& third.texture_bind_group == Some(
                TextureBindGroup::layered(array.size),
            )
        },
        fresh.texture_array is None ==> third.texture_array->Some_0.size == (
        Extent3d {
            width: primary.width,
            height: primary.height,
            depth_or_array_layers: LAYER_COUNT,
        }),
{
    let array = third.texture_array->Some_0;
    let start = layers_of(fresh.texture_array);
    assert(start.len() == 6);
    assert(array.layers_view() =~= seq![
        Some(primary.data@),
        Some(primary_mask.data@),
        Some(rockmap.data@),
        Some(rockmap_mask.data@),
        Some(soil.data@),
        Some(soil_mask.data@),
    ]);
}

impl RendererState {
    /// Every entity of the scene is whole.
    pub open spec fn well_formed(&self) -> bool {
        &&& forall|g: int| 0 <= g < self.grids@.len() ==> (#[trigger] self.grids@[g]).well_formed()
        &&& forall|m: int|
            0 <= m < self.models@.len() ==> (#[trigger] self.models@[m]).well_formed()
        &&& forall|l: int|
            0 <= l < self.landscapes@.len() ==> (#[trigger] self.landscapes@[l]).well_formed()
    }

    /// Whether every entity of the scene is whole.
    pub fn is_well_formed(&self) -> (ok: bool)
        ensures
            ok == self.well_formed(),
    {
        let mut g: usize = 0;
        while g < self.grids.len()
            invariant
                g <= self.grids@.len(),
                forall|k: int| 0 <= k < g ==> (#[trigger] self.grids@[k]).well_formed(),
            decreases self.grids@.len() - g,
        {
            if !self.grids[g].is_well_formed() {
                return false;
            }
            g = g + 1;
        }
        let mut m: usize = 0;
        while m < self.models.len()
            invariant
                m <= self.models@.len(),
                forall|k: int| 0 <= k < self.grids@.len() ==> (#[trigger] self.grids@[k]).well_formed(),
                forall|k: int| 0 <= k < m ==> (#[trigger] self.models@[k]).well_formed(),
            decreases self.models@.len() - m,
        {
            if !self.models[m].is_well_formed() {
                return false;
            }
            m = m + 1;
        }
        let mut l: usize = 0;
        while l < self.landscapes.len()
            invariant
                l <= self.landscapes@.len(),
                forall|k: int| 0 <= k < self.grids@.len() ==> (#[trigger] self.grids@[k]).well_formed(),
                forall|k: int|
                    0 <= k < self.models@.len() ==> (#[trigger] self.models@[k]).well_formed(),
                forall|k: int| 0 <= k < l ==> (#[trigger] self.landscapes@[k]).well_formed(),
            decreases self.landscapes@.len() - l,
        {
            if !self.landscapes[l].is_well_formed() {
                return false;
            }
            l = l + 1;
        }
        true
    }

    /// The draw calls of a frame over this scene.
    pub open spec fn draws(&self) -> Seq<DrawCall> {
        frame_draws(self.grids@, self.models@, self.landscapes@)
    }

    /// The scene at start-up: the reference grid over the given lines, no
    /// model and no landscape.
    pub fn new(grid_lines: &GridLines) -> (state: Self)
        requires
            Grid::can_build(grid_lines),
        ensures
            state.grids@.len() == 1,
            state.grids@[0].vertices@ == grid_vertices(*grid_lines),
            state.grids@[0].indices@ == grid_line_indices(
                grid_vertices(*grid_lines).len() as int,
            ),
            state.grids@[0].texture_bind_group == TextureBindGroup::flat(),
            state.models@.len() == 0,
            state.landscapes@.len() == 0,
            state.well_formed(),
    {
        let mut grids: Vec<Grid> = Vec::new();
        grids.push(Grid::new(grid_lines));
        RendererState { grids, models: Vec::new(), landscapes: Vec::new() }
    }

    /// Loads a model from a binary container and registers it after the
    /// models that the scene holds. A container from which no model can
    /// be loaded is turned down and the scene stays as it is.
    pub fn add_model(&mut self, bytes: &Vec<u8>) -> (result: Result<(), FatalLoadError>)
        requires
            old(self).well_formed(),
        ensures
            final(self).well_formed(),
            final(self).grids == old(self).grids,
            final(self).landscapes == old(self).landscapes,
            match loaded_model(bytes@) {
                Ok(model) => {
                    &&& result is Ok
                    &&& final(self).models@.len() == old(self).models@.len() + 1
                    &&& final(self).models@.drop_last() == old(self).models@
                    &&& final(self).models@.last()@ == model
                },
                Err(error) => {
                    &&& result == Err::<(), FatalLoadError>(error)
                    &&& *final(self) == *old(self)
                },
            },
    {
        let model = match Model::from_glb(bytes) {
            Ok(model) => model,
            Err(error) => {
                return Err(error);
            },
        };
        self.models.push(model);
        assert(self.models@.drop_last() =~= old(self).models@);
        Ok(())
    }

    /// Builds the landscape with the given id from `data` and registers it
    /// after the landscapes that the scene holds. A heightmap from which no
    /// landscape can be built is turned down and the scene stays as it is.
    pub fn add_landscape(&mut self, id: &String, data: &LandscapeData) -> (result: Result<
        (),
        FatalLoadError,
    >)
        requires
            old(self).well_formed(),
        ensures
            final(self).well_formed(),
            final(self).grids == old(self).grids,
            final(self).models == old(self).models,
            Landscape::can_build(data) ==> {
                &&& result is Ok
                &&& final(self).landscapes@.len() == old(self).landscapes@.len() + 1
                &&& final(self).landscapes@.drop_last() == old(self).landscapes@
                &&& is_terrain_of(final(self).landscapes@.last(), id@, *data)
            },
            !Landscape::can_build(data) ==> {
                &&& result == Err::<(), FatalLoadError>(FatalLoadError::MalformedHeightmap)
                &&& *final(self) == *old(self)
            },
    {
        if !Landscape::can_build(data) {
            return Err(FatalLoadError::MalformedHeightmap);
        }
        let landscape = Landscape::new(id, data);
        self.landscapes.push(landscape);
        assert(self.landscapes@.drop_last() =~= old(self).landscapes@);
        Ok(())
    }

    /// Attaches `texture` as the layer of `kind`, and `mask` as the layer
    /// of `mask_kind`, to the first landscape with the given id. Where no
    /// landscape has the id nothing changes.
    ///
    /// By contract with the caller, textures attached to a landscape that
    /// has an array have the array's width and height, and a mask has the
    /// width and height of its texture.
    pub fn update_landscape_texture(
        &mut self,
        landscape_id: String,
        kind: LandscapeTextureKinds,
        texture: Texture,
        mask_kind: LandscapeTextureKinds,
        mask: Texture,
    ) -> (result: Result<LayerUpdate, LookupError>)
        requires
            old(self).well_formed(),
        ensures
            final(self).well_formed(),
            final(self).grids == old(self).grids,
            final(self).models == old(self).models,
            final(self).landscapes@.len() == old(self).landscapes@.len(),
            match find_landscape(old(self).landscapes@, landscape_id@) {
                Some(i) => {
                    &&& result == Ok::<LayerUpdate, LookupError>(
                        LayerUpdate {
                            landscape: i as usize,
                            allocated: old(self).landscapes@[i].texture_array is None,
                        },
                    )
                    &&& is_attached(
                        old(self).landscapes@[i],
                        final(self).landscapes@[i],
                        kind,
                        texture,
                        mask_kind,
                        mask,
                    )
                    &&& forall|j: int|
                        0 <= j < old(self).landscapes@.len() && j != i
                            ==> #[trigger] final(self).landscapes@[j] == old(self).landscapes@[j]
                },
                None => {
                    &&& result == Err::<LayerUpdate, LookupError>(LookupError::UnknownLandscape)
                    &&& *final(self) == *old(self)
                },
            },
    {
        proof {
            lemma_find_landscape(self.landscapes@, landscape_id@);
        }
        let mut i: usize = 0;
        while i < self.landscapes.len()
            invariant
                i <= self.landscapes@.len(),
                *self == *old(self),
                self.well_formed(),
                forall|j: int| 0 <= j < i ==> (#[trigger] self.landscapes@[j]).id@ != landscape_id@,
            decreases self.landscapes@.len() - i,
        {
            if self.landscapes[i].id == landscape_id {
                assert(is_first_with_id(self.landscapes@, landscape_id@, i as int));
                let ghost before = self.landscapes@;
                let landscape = &mut self.landscapes[i];
                let allocated = landscape.update_texture(kind, &texture);
                let _ = landscape.update_texture(mask_kind, &mask);
                assert(self.landscapes@ == before.update(i as int, self.landscapes@[i as int]));
                assert forall|l: int| 0 <= l < self.landscapes@.len() implies (
                #[trigger] self.landscapes@[l]).well_formed() by {
                    if l != i {
                        assert(self.landscapes@[l] == before[l]);
                    }
                }
                return Ok(LayerUpdate { landscape: i, allocated });
            }
            i = i + 1;
        }
        Err(LookupError::UnknownLandscape)
    }

    /// The steps of a frame over this scene.
    pub open spec fn steps(&self) -> Seq<FrameStep> {
        frame_steps(self.draws())
    }

    /// The steps of a frame, in their fixed order: the camera is updated,
    /// the pass is opened, every draw call of the scene is made, and the
    /// frame is submitted and presented.
    pub fn render_frame(&self) -> (steps: Vec<FrameStep>)
        ensures
            steps@ == self.steps(),
            forall|k: int|
                0 <= k < steps@.len() ==> (#[trigger] steps@[k] matches FrameStep::Draw(draw)
                    ==> draws_whole_entity(draw, self.grids@, self.models@, self.landscapes@)),
    {
        let draws = self.draw_calls();
        let mut steps: Vec<FrameStep> = Vec::new();
        steps.push(FrameStep::UpdateCamera);
        steps.push(FrameStep::BeginPass);
        let ghost opening = steps@;
        let mut k: usize = 0;
        while k < draws.len()
            invariant
                k <= draws@.len(),
                opening == seq![FrameStep::UpdateCamera, FrameStep::BeginPass],
                steps@ == opening + Seq::new(k as nat, |j: int| FrameStep::Draw(draws@[j])),
            decreases draws@.len() - k,
        {
            steps.push(FrameStep::Draw(draws[k]));
            assert(steps@ =~= opening + Seq::new(
                (k + 1) as nat,
                |j: int| FrameStep::Draw(draws@[j]),
            ));
            k = k + 1;
        }
        steps.push(FrameStep::Submit);
        steps.push(FrameStep::Present);
        assert(steps@ =~= frame_steps(draws@));
        assert forall|k: int| 0 <= k < steps@.len() implies (#[trigger] steps@[k] matches FrameStep::Draw(
            draw,
        ) ==> draws_whole_entity(draw, self.grids@, self.models@, self.landscapes@)) by {
            if 2 <= k < 2 + draws@.len() {
                assert(steps@[k] == FrameStep::Draw(draws@[k - 2]));
            }
        }
        steps
    }

    /// The draw calls of a frame: the grids, then the meshes of the
    /// models, then the landscapes that have a texture bind group, each in
    /// the order of registration.
    pub fn draw_calls(&self) -> (draws: Vec<DrawCall>)
        ensures
            draws@ == self.draws(),
            forall|k: int|
                0 <= k < draws@.len() ==> draws_whole_entity(
                    #[trigger] draws@[k],
                    self.grids@,
                    self.models@,
                    self.landscapes@,
                ),
    {
        let mut draws: Vec<DrawCall> = Vec::new();
        let mut g: usize = 0;
        while g < self.grids.len()
            invariant
                g <= self.grids@.len(),
                draws@ == grid_draws(self.grids@, g as int),
            decreases self.grids@.len() - g,
        {
            let grid = &self.grids[g];
            draws.push(
                DrawCall {
                    target: Drawable::Grid { grid: g },
                    index_format: IndexFormat::Uint16,
                    index_count: grid.index_count,
                    texture_bind_group: grid.texture_bind_group,
                    uploads_transform: false,
                },
            );
            g = g + 1;
        }
        let ghost all_grids = draws@;
        let mut m: usize = 0;
        while m < self.models.len()
            invariant
                m <= self.models@.len(),
                draws@ == all_grids + model_draws(self.models@, m as int),
            decreases self.models@.len() - m,
        {
            let model = &self.models[m];
            let ghost earlier = draws@;
            let mut k: usize = 0;
            while k < model.meshes.len()
                invariant
                    k <= model.meshes@.len(),
                    m < self.models@.len(),
                    *model == self.models@[m as int],
                    draws@ == earlier + mesh_draws(self.models@, m as int, k as int),
                decreases model.meshes@.len() - k,
            {
                let mesh = &model.meshes[k];
                draws.push(
                    DrawCall {
                        target: Drawable::Mesh { model: m, mesh: k },
                        index_format: IndexFormat::Uint16,
                        index_count: mesh.index_count,
                        texture_bind_group: mesh.texture_bind_group,
                        uploads_transform: true,
                    },
                );
                assert(draws@ =~= earlier + mesh_draws(self.models@, m as int, k + 1));
                k = k + 1;
            }
            assert(draws@ =~= all_grids + model_draws(self.models@, m + 1));
            m = m + 1;
        }
        let ghost all_models = draws@;
        let mut l: usize = 0;
        while l < self.landscapes.len()
            invariant
                l <= self.landscapes@.len(),
                draws@ == all_models + landscape_draws(self.landscapes@, l as int),
            decreases self.landscapes@.len() - l,
        {
            let landscape = &self.landscapes[l];
            match landscape.texture_bind_group {
                Some(group) => {
                    draws.push(
                        DrawCall {
                            target: Drawable::Landscape { landscape: l },
                            index_format: IndexFormat::Uint32,
                            index_count: landscape.index_count,
                            texture_bind_group: group,
                            uploads_transform: true,
                        },
                    );
                },
                None => {},
            }
            assert(draws@ =~= all_models + landscape_draws(self.landscapes@, l + 1));
            l = l + 1;
        }
        proof {
            lemma_frame_draws_whole(self.grids@, self.models@, self.landscapes@);
            let all = frame_draws(self.grids@, self.models@, self.landscapes@);
            assert(draws@ == all);
            assert forall|k: int| 0 <= k < draws@.len() implies draws_whole_entity(
                #[trigger] draws@[k],
                self.grids@,
                self.models@,
                self.landscapes@,
            ) by {
                assert(draws@[k] == all[k]);
            }
        }
        draws
    }
}

} // verus!
