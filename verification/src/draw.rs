//! What a frame draws: one draw call for each drawable entity, in a fixed
//! order.
//!
//! The grids come first, then the meshes of the models, then the
//! landscapes that have a texture bind group; within each group the order
//! is that of registration. A landscape without a bind group is left out.
//! Around the draw calls a frame has its fixed steps: the camera is
//! updated and the pass opened before them, the frame is submitted and
//! presented after them.

use vstd::prelude::*;
use crate::binding::TextureBindGroup;
use crate::grid::Grid;
use crate::landscape::Landscape;
use crate::model::Model;

verus! {

/// The width of the indices of an index buffer.
#[derive(Clone, Copy, Debug, PartialEq, Eq, Structural)]
pub enum IndexFormat {
    Uint16,
    Uint32,
}

/// The entity that a draw call draws, by its place in the scene.
#[derive(Clone, Copy, Debug, PartialEq, Eq, Structural)]
pub enum Drawable {
    Grid { grid: usize },
    Mesh { model: usize, mesh: usize },
    Landscape { landscape: usize },
}

/// One indexed draw. `uploads_transform` says whether the entity's
/// transform is written to its uniform buffer before the draw.
#[derive(Clone, Copy, Debug, PartialEq, Eq, Structural)]
pub struct DrawCall {
    pub target: Drawable,
    pub index_format: IndexFormat,
    pub index_count: u32,
    pub texture_bind_group: TextureBindGroup,
    pub uploads_transform: bool,
}

/// One step of a frame.
#[derive(Clone, Copy, Debug, PartialEq, Eq, Structural)]
pub enum FrameStep {
    /// The camera's view-projection matrix is recomputed and uploaded.
    UpdateCamera,
    /// A render pass is opened that clears color and depth.
    BeginPass,
    /// One entity is drawn.
    Draw(DrawCall),
    /// The pass is closed and the commands are submitted.
    Submit,
    /// The frame is presented.
    Present,
}

/// The steps of a frame that performs the given draw calls: the camera is
/// updated, the pass is opened, the draw calls follow in their order, and
/// the frame is submitted and presented.
pub open spec fn frame_steps(draws: Seq<DrawCall>) -> Seq<FrameStep> {
    seq![FrameStep::UpdateCamera, FrameStep::BeginPass] + Seq::new(
        draws.len(),
        |k: int| FrameStep::Draw(draws[k]),
    ) + seq![FrameStep::Submit, FrameStep::Present]
}

/// The draw call of grid `g`.
pub open spec fn grid_draw(grids: Seq<Grid>, g: int) -> DrawCall {
    DrawCall {
        target: Drawable::Grid { grid: g as usize },
        index_format: IndexFormat::Uint16,
        index_count: grids[g].index_count,
        texture_bind_group: grids[g].texture_bind_group,
        uploads_transform: false,
    }
}

/// The draw calls of the first `n` grids.
pub open spec fn grid_draws(grids: Seq<Grid>, n: int) -> Seq<DrawCall>
    decreases n,
{
    if n <= 0 {
        Seq::empty()
    } else {
        grid_draws(grids, n - 1).push(grid_draw(grids, n - 1))
    }
}

/// The draw call of mesh `k` of model `m`.
pub open spec fn mesh_draw(models: Seq<Model>, m: int, k: int) -> DrawCall {
    DrawCall {
        target: Drawable::Mesh { model: m as usize, mesh: k as usize },
        index_format: IndexFormat::Uint16,
        index_count: models[m].meshes@[k].index_count,
        texture_bind_group: models[m].meshes@[k].texture_bind_group,
        uploads_transform: true,
    }
}

/// The draw calls of the first `n` meshes of model `m`.
pub open spec fn mesh_draws(models: Seq<Model>, m: int, n: int) -> Seq<DrawCall>
    decreases n,
{
    if n <= 0 {
        Seq::empty()
    } else {
        mesh_draws(models, m, n - 1).push(mesh_draw(models, m, n - 1))
    }
}

/// The draw calls of all meshes of the first `n` models.
pub open spec fn model_draws(models: Seq<Model>, n: int) -> Seq<DrawCall>
    decreases n,
{
    if n <= 0 {
        Seq::empty()
    } else {
        model_draws(models, n - 1) + mesh_draws(
            models,
            n - 1,
            models[n - 1].meshes@.len() as int,
        )
    }
}

/// The draw call of landscape `l` with the given bind group.
pub open spec fn landscape_draw(
    landscapes: Seq<Landscape>,
    l: int,
    group: TextureBindGroup,
) -> DrawCall {
    DrawCall {
        target: Drawable::Landscape { landscape: l as usize },
        index_format: IndexFormat::Uint32,
        index_count: landscapes[l].index_count,
        texture_bind_group: group,
        uploads_transform: true,
    }
}

/// The draw calls of those of the first `n` landscapes that have a
/// texture bind group.
pub open spec fn landscape_draws(landscapes: Seq<Landscape>, n: int) -> Seq<DrawCall>
    decreases n,
{
    if n <= 0 {
        Seq::empty()
    } else {
        match landscapes[n - 1].texture_bind_group {
            Some(group) => landscape_draws(landscapes, n - 1).push(
                landscape_draw(landscapes, n - 1, group),
            ),
            None => landscape_draws(landscapes, n - 1),
        }
    }
}

/// The draw calls of a frame over the given entities.
pub open spec fn frame_draws(
    grids: Seq<Grid>,
    models: Seq<Model>,
    landscapes: Seq<Landscape>,
) -> Seq<DrawCall> {
    grid_draws(grids, grids.len() as int) + model_draws(models, models.len() as int)
        + landscape_draws(landscapes, landscapes.len() as int)
}

/// Whether a draw call draws an entity that the scene holds and binds
/// what that entity has: a landscape is drawn only with the bind group it
/// has.
pub open spec fn draws_whole_entity(
    draw: DrawCall,
    grids: Seq<Grid>,
    models: Seq<Model>,
    landscapes: Seq<Landscape>,
) -> bool {
    match draw.target {
        Drawable::Grid { grid } => grid < grids.len() && draw == grid_draw(grids, grid as int),
        Drawable::Mesh { model, mesh } => {
            &&& model < models.len()
            &&& mesh < models[model as int].meshes@.len()
            &&& draw == mesh_draw(models, model as int, mesh as int)
        },
        Drawable::Landscape { landscape } => {
            &&& landscape < landscapes.len()
            &&& landscapes[landscape as int].texture_bind_group == Some(draw.texture_bind_group)
            &&& draw == landscape_draw(landscapes, landscape as int, draw.texture_bind_group)
        },
    }
}

/// Every draw call of the first `n` grids draws a grid of the scene.
pub proof fn lemma_grid_draws_whole(
    grids: Seq<Grid>,
    models: Seq<Model>,
    landscapes: Seq<Landscape>,
    n: int,
)
    requires
        n <= grids.len() <= usize::MAX,
    ensures
        n >= 0 ==> grid_draws(grids, n).len() == n,
        forall|k: int|
            0 <= k < grid_draws(grids, n).len() ==> draws_whole_entity(
                #[trigger] grid_draws(grids, n)[k],
                grids,
                models,
                landscapes,
            ),
    decreases n,
{
    if n > 0 {
        lemma_grid_draws_whole(grids, models, landscapes, n - 1);
    }
}

/// Every draw call of the first `n` meshes of model `m` draws a mesh of
/// the scene.
pub proof fn lemma_mesh_draws_whole(
    grids: Seq<Grid>,
    models: Seq<Model>,
    landscapes: Seq<Landscape>,
    m: int,
    n: int,
)
    requires
        0 <= m < models.len() <= usize::MAX,
        n <= models[m].meshes@.len(),
    ensures
        n >= 0 ==> mesh_draws(models, m, n).len() == n,
        forall|k: int|
            0 <= k < mesh_draws(models, m, n).len() ==> draws_whole_entity(
                #[trigger] mesh_draws(models, m, n)[k],
                grids,
                models,
                landscapes,
            ),
    decreases n,
{
    if n > 0 {
        lemma_mesh_draws_whole(grids, models, landscapes, m, n - 1);
        let meshes = models[m].meshes;
        assert(meshes@.len() == meshes.len());
        let all = mesh_draws(models, m, n);
        assert forall|k: int| 0 <= k < all.len() implies draws_whole_entity(
            #[trigger] all[k],
            grids,
            models,
            landscapes,
        ) by {
            if k < n - 1 {
                assert(all[k] == mesh_draws(models, m, n - 1)[k]);
            } else {
                assert(all[k] == mesh_draw(models, m, n - 1));
            }
        }
    }
}

/// Every draw call of the first `n` models draws a mesh of the scene.
pub proof fn lemma_model_draws_whole(
    grids: Seq<Grid>,
    models: Seq<Model>,
    landscapes: Seq<Landscape>,
    n: int,
)
    requires
        n <= models.len() <= usize::MAX,
    ensures
        forall|k: int|
            0 <= k < model_draws(models, n).len() ==> draws_whole_entity(
                #[trigger] model_draws(models, n)[k],
                grids,
                models,
                landscapes,
            ),
    decreases n,
{
    if n > 0 {
        lemma_model_draws_whole(grids, models, landscapes, n - 1);
        lemma_mesh_draws_whole(
            grids,
            models,
            landscapes,
            n - 1,
            models[n - 1].meshes@.len() as int,
        );
        let earlier = model_draws(models, n - 1);
        let last = mesh_draws(models, n - 1, models[n - 1].meshes@.len() as int);
        let all = model_draws(models, n);
        assert forall|k: int| 0 <= k < all.len() implies draws_whole_entity(
            #[trigger] all[k],
            grids,
            models,
            landscapes,
        ) by {
            if k < earlier.len() {
                assert(all[k] == earlier[k]);
            } else {
                assert(all[k] == last[k - earlier.len()]);
            }
        }
    }
}

/// Every draw call of the first `n` landscapes draws a landscape of the
/// scene with the bind group that it has.
pub proof fn lemma_landscape_draws_whole(
    grids: Seq<Grid>,
    models: Seq<Model>,
    landscapes: Seq<Landscape>,
    n: int,
)
    requires
        n <= landscapes.len() <= usize::MAX,
    ensures
        forall|k: int|
            0 <= k < landscape_draws(landscapes, n).len() ==> draws_whole_entity(
                #[trigger] landscape_draws(landscapes, n)[k],
                grids,
                models,
                landscapes,
            ),
    decreases n,
{
    if n > 0 {
        lemma_landscape_draws_whole(grids, models, landscapes, n - 1);
        let earlier = landscape_draws(landscapes, n - 1);
        let all = landscape_draws(landscapes, n);
        assert forall|k: int| 0 <= k < all.len() implies draws_whole_entity(
            #[trigger] all[k],
            grids,
            models,
            landscapes,
        ) by {
            if k < earlier.len() {
                assert(all[k] == earlier[k]);
            } else {
                let group = landscapes[n - 1].texture_bind_group->Some_0;
                assert(all[k] == landscape_draw(landscapes, n - 1, group));
            }
        }
    }
}

/// A frame draws whole entities only: every draw call names an entity of
/// the scene and binds what the entity has; no landscape is drawn without
/// its texture bind group.
pub proof fn lemma_frame_draws_whole(
    grids: Seq<Grid>,
    models: Seq<Model>,
    landscapes: Seq<Landscape>,
)
    requires
        grids.len() <= usize::MAX,
        models.len() <= usize::MAX,
        landscapes.len() <= usize::MAX,
    ensures
        forall|k: int|
            0 <= k < frame_draws(grids, models, landscapes).len() ==> draws_whole_entity(
                #[trigger] frame_draws(grids, models, landscapes)[k],
                grids,
                models,
                landscapes,
            ),
{
    lemma_grid_draws_whole(grids, models, landscapes, grids.len() as int);
    lemma_model_draws_whole(grids, models, landscapes, models.len() as int);
    lemma_landscape_draws_whole(grids, models, landscapes, landscapes.len() as int);
}

} // verus!
