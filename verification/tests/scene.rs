use midpoint_renderer::binding::TextureBindGroup;
use midpoint_renderer::draw::{DrawCall, Drawable, FrameStep, IndexFormat};
use midpoint_renderer::error::{ConfigurationError, FatalLoadError, LookupError};
use midpoint_renderer::gql;
use midpoint_renderer::grid::{Grid, GridLines, MAX_GRID_VERTICES};
use midpoint_renderer::heightmap::{LandscapeData, PixelData};
use midpoint_renderer::input::{handle_key_press, CameraMove, KeyAction};
use midpoint_renderer::landscape::LandscapeTextureKinds;
use midpoint_renderer::model::{Mesh, Model, PrimitiveData};
use midpoint_renderer::render_loop::{
    handle_add_landscape, handle_add_landscape_texture, handle_add_model, texture_kinds,
    AttachError, FramePlan, LoopState, RenderLoop,
};
use midpoint_renderer::scene::{LayerUpdate, RendererState};
use midpoint_renderer::texture::{Extent3d, Texture};
use midpoint_renderer::transform::Transform;
use midpoint_renderer::vertex::{
    vertex_words, Vertex, VertexAttribute, VertexFormat, VertexStepMode, ONE, VERTEX_WORDS, ZERO,
};

fn heightmap(width: usize, height: usize) -> LandscapeData {
    let row = vec![PixelData { height_value: 0, position: [0, 0, 0], tex_coords: [0, 0] }; width];
    LandscapeData { width, height, pixel_data: vec![row; height] }
}

fn lines(xs: &[f32], zs: &[f32]) -> GridLines {
    GridLines {
        xs: xs.iter().map(|x| x.to_bits()).collect(),
        zs: zs.iter().map(|z| z.to_bits()).collect(),
        min_x: (-50f32).to_bits(),
        max_x: 50f32.to_bits(),
        min_z: (-50f32).to_bits(),
        max_z: 50f32.to_bits(),
    }
}

fn texture(fill: u8) -> Texture {
    Texture::new(vec![fill; 16], 2, 2)
}

fn mesh(positions: usize, indices: usize, textures: usize) -> Mesh {
    let data = PrimitiveData {
        positions: vec![[0, 0, 0]; positions],
        normals: None,
        tex_coords: None,
        colors: None,
        indices: Some(vec![0; indices]),
        base_color_texture: None,
    };
    Mesh::from_primitive(&data, textures).unwrap()
}

fn busy_scene() -> RendererState {
    let mut state = RendererState::new(&lines(&[-1.0, 0.0, 1.0], &[0.0]));
    state.models.push(Model { meshes: vec![mesh(3, 3, 0), mesh(4, 6, 0)], textures: Vec::new() });
    state.models.push(Model { meshes: Vec::new(), textures: Vec::new() });
    state.models.push(Model { meshes: vec![mesh(5, 9, 1)], textures: vec![texture(0)] });
    for id in ["bare", "dressed", "bare too"] {
        state.add_landscape(&id.to_string(), &heightmap(2, 2)).unwrap();
    }
    state
        .update_landscape_texture(
            "dressed".to_string(),
            LandscapeTextureKinds::Primary,
            texture(1),
            LandscapeTextureKinds::PrimaryMask,
            texture(2),
        )
        .unwrap();
    state
}

#[test]
fn frame_draws_grids_then_meshes_then_textured_landscapes() {
    let state = busy_scene();
    let draws = state.draw_calls();
    let layered = TextureBindGroup::layered(Extent3d {
        width: 2,
        height: 2,
        depth_or_array_layers: 6,
    });
    assert_eq!(
        draws,
        vec![
            DrawCall {
                target: Drawable::Grid { grid: 0 },
                index_format: IndexFormat::Uint16,
                index_count: 8,
                texture_bind_group: TextureBindGroup::flat(),
                uploads_transform: false,
            },
            DrawCall {
                target: Drawable::Mesh { model: 0, mesh: 0 },
                index_format: IndexFormat::Uint16,
                index_count: 3,
                texture_bind_group: TextureBindGroup::flat(),
                uploads_transform: true,
            },
            DrawCall {
                target: Drawable::Mesh { model: 0, mesh: 1 },
                index_format: IndexFormat::Uint16,
                index_count: 6,
                texture_bind_group: TextureBindGroup::flat(),
                uploads_transform: true,
            },
            DrawCall {
                target: Drawable::Mesh { model: 2, mesh: 0 },
                index_format: IndexFormat::Uint16,
                index_count: 9,
                texture_bind_group: TextureBindGroup::textured(0),
                uploads_transform: true,
            },
            DrawCall {
                target: Drawable::Landscape { landscape: 1 },
                index_format: IndexFormat::Uint32,
                index_count: 6,
                texture_bind_group: layered,
                uploads_transform: true,
            },
        ]
    );
}

#[test]
fn landscape_without_texture_is_never_drawn() {
    let mut state = RendererState::new(&lines(&[], &[]));
    state.add_landscape(&"bare".to_string(), &heightmap(3, 3)).unwrap();
    let draws = state.draw_calls();
    assert_eq!(draws.len(), 1);
    assert!(draws.iter().all(|d| !matches!(d.target, Drawable::Landscape { .. })));
    assert_eq!(
        state.render_frame(),
        vec![
            FrameStep::UpdateCamera,
            FrameStep::BeginPass,
            FrameStep::Draw(draws[0]),
            FrameStep::Submit,
            FrameStep::Present,
        ]
    );
}

#[test]
fn loop_schedules_runs_and_reschedules() {
    let state = busy_scene();
    let mut render_loop = RenderLoop::new();
    assert_eq!(render_loop, RenderLoop { state: LoopState::Idle, paused: false });
    assert_eq!(render_loop.begin_frame(&state), FramePlan::NotScheduled);
    assert!(!render_loop.end_frame());
    assert_eq!(render_loop.state, LoopState::Idle);
    assert!(render_loop.start_render_loop());
    assert_eq!(render_loop.state, LoopState::Scheduled);
    assert!(!render_loop.start_render_loop());
    assert_eq!(render_loop.begin_frame(&state), FramePlan::Draw(state.render_frame()));
    assert_eq!(render_loop.state, LoopState::Running);
    assert_eq!(render_loop.begin_frame(&state), FramePlan::NotScheduled);
    assert!(render_loop.end_frame());
    assert_eq!(render_loop.state, LoopState::Scheduled);
}

#[test]
fn paused_loop_skips_the_frame_and_reschedules() {
    let mut state = busy_scene();
    let mut render_loop = RenderLoop::new();
    render_loop.start_render_loop();
    let before = state.render_frame();
    assert_eq!(render_loop.begin_frame(&state), FramePlan::Draw(before));
    assert!(render_loop.end_frame());

    render_loop.pause_rendering();
    assert!(render_loop.is_rendering_paused());
    assert_eq!(render_loop.begin_frame(&state), FramePlan::Skip);
    assert_eq!(render_loop.state, LoopState::Running);
    assert!(render_loop.end_frame());
    assert_eq!(render_loop.state, LoopState::Scheduled);

    let result = handle_add_landscape_texture(
        &mut render_loop,
        &mut state,
        "bare".to_string(),
        &"Soil".to_string(),
        texture(5),
        texture(6),
    );
    assert_eq!(result, Ok(LayerUpdate { landscape: 0, allocated: true }));
    assert!(!render_loop.is_rendering_paused());
    let after = state.render_frame();
    assert_eq!(after.len(), 4 + 6);
    assert_eq!(state.draw_calls().len(), 6);
    assert_eq!(render_loop.begin_frame(&state), FramePlan::Draw(after));
}

#[test]
fn texture_kind_names() {
    assert_eq!(
        texture_kinds(&"Primary".to_string()),
        Ok((LandscapeTextureKinds::Primary, LandscapeTextureKinds::PrimaryMask))
    );
    assert_eq!(
        texture_kinds(&"Rockmap".to_string()),
        Ok((LandscapeTextureKinds::Rockmap, LandscapeTextureKinds::RockmapMask))
    );
    assert_eq!(
        texture_kinds(&"Soil".to_string()),
        Ok((LandscapeTextureKinds::Soil, LandscapeTextureKinds::SoilMask))
    );
    for name in ["", "primary", "PrimaryMask", "Soil ", "Grass"] {
        assert_eq!(texture_kinds(&name.to_string()), Err(ConfigurationError::UnknownTextureKind));
    }
}

#[test]
fn unknown_kind_or_id_changes_nothing_and_resumes() {
    let mut state = busy_scene();
    let before = state.clone();
    let mut render_loop = RenderLoop::new();
    render_loop.pause_rendering();
    let result = handle_add_landscape_texture(
        &mut render_loop,
        &mut state,
        "dressed".to_string(),
        &"Lava".to_string(),
        texture(5),
        texture(6),
    );
    assert_eq!(result, Err(AttachError::Configuration(ConfigurationError::UnknownTextureKind)));
    assert_eq!(state, before);
    assert!(!render_loop.is_rendering_paused());

    render_loop.pause_rendering();
    let result = handle_add_landscape_texture(
        &mut render_loop,
        &mut state,
        "nowhere".to_string(),
        &"Soil".to_string(),
        texture(5),
        texture(6),
    );
    assert_eq!(result, Err(AttachError::Lookup(LookupError::UnknownLandscape)));
    assert_eq!(state, before);
    assert!(!render_loop.is_rendering_paused());
}

#[test]
fn completed_loads_resume_the_loop() {
    let mut state = RendererState::new(&lines(&[], &[]));
    let mut render_loop = RenderLoop::new();
    render_loop.start_render_loop();
    render_loop.pause_rendering();
    assert_eq!(
        handle_add_model(&mut render_loop, &mut state, &vec![1, 2, 3]),
        Err(FatalLoadError::MalformedContainer)
    );
    assert!(!render_loop.is_rendering_paused());
    assert!(state.models.is_empty());
    assert_eq!(render_loop.state, LoopState::Scheduled);

    render_loop.pause_rendering();
    assert_eq!(
        handle_add_landscape(&mut render_loop, &mut state, &"l".to_string(), &heightmap(2, 2)),
        Ok(())
    );
    assert!(!render_loop.is_rendering_paused());
    assert_eq!(state.landscapes.len(), 1);

    render_loop.pause_rendering();
    let mut ragged = heightmap(2, 2);
    ragged.pixel_data[0].pop();
    assert_eq!(
        handle_add_landscape(&mut render_loop, &mut state, &"m".to_string(), &ragged),
        Err(FatalLoadError::MalformedHeightmap)
    );
    assert!(!render_loop.is_rendering_paused());
    assert_eq!(state.landscapes.len(), 1);
}

#[test]
fn keys_move_the_camera_when_pressed() {
    let state = busy_scene();
    let press = |key: &str| handle_key_press(&key.to_string(), true, &state);
    assert_eq!(press("w"), KeyAction::MoveCamera(CameraMove::Forward));
    assert_eq!(press("s"), KeyAction::MoveCamera(CameraMove::Backward));
    assert_eq!(press("a"), KeyAction::MoveCamera(CameraMove::Left));
    assert_eq!(press("d"), KeyAction::MoveCamera(CameraMove::Right));
    assert_eq!(press("ArrowUp"), KeyAction::LiftMesh { model: 0, mesh: 0 });
    for key in ["ArrowDown", "ArrowLeft", "ArrowRight", "W", "", "x"] {
        assert_eq!(press(key), KeyAction::Nothing);
    }
    for key in ["w", "s", "a", "d", "ArrowUp"] {
        assert_eq!(handle_key_press(&key.to_string(), false, &state), KeyAction::Nothing);
    }
}

#[test]
fn up_arrow_needs_a_mesh_to_lift() {
    let mut state = RendererState::new(&lines(&[], &[]));
    assert_eq!(handle_key_press(&"ArrowUp".to_string(), true, &state), KeyAction::Nothing);
    state.models.push(Model { meshes: Vec::new(), textures: Vec::new() });
    state.models.push(Model { meshes: vec![mesh(1, 0, 0)], textures: Vec::new() });
    assert_eq!(handle_key_press(&"ArrowUp".to_string(), true, &state), KeyAction::Nothing);
}

#[test]
fn vertex_layout_packs_the_fields() {
    let layout = Vertex::desc();
    assert_eq!(layout.array_stride, 44);
    assert_eq!(layout.step_mode, VertexStepMode::Vertex);
    assert_eq!(
        layout.attributes,
        vec![
            VertexAttribute { format: VertexFormat::Float32x3, offset: 0, shader_location: 0 },
            VertexAttribute { format: VertexFormat::Float32x3, offset: 12, shader_location: 1 },
            VertexAttribute { format: VertexFormat::Float32x2, offset: 24, shader_location: 2 },
            VertexAttribute { format: VertexFormat::Float32x3, offset: 32, shader_location: 3 },
        ]
    );
    assert_eq!(VertexFormat::Float32x2.size(), 8);
    assert_eq!(VertexFormat::Float32x3.size(), 12);
    assert_eq!(layout.array_stride as usize, 4 * VERTEX_WORDS);
}

#[test]
fn vertex_words_follow_the_layout() {
    let vertices = vec![
        Vertex { position: [1, 2, 3], normal: [4, 5, 6], tex_coords: [7, 8], color: [9, 10, 11] },
        Vertex {
            position: [21, 22, 23],
            normal: [24, 25, 26],
            tex_coords: [27, 28],
            color: [29, 30, 31],
        },
    ];
    assert_eq!(
        vertex_words(&vertices),
        vec![1, 2, 3, 4, 5, 6, 7, 8, 9, 10, 11, 21, 22, 23, 24, 25, 26, 27, 28, 29, 30, 31]
    );
    assert!(vertex_words(&Vec::new()).is_empty());
}

#[test]
fn grid_has_two_vertices_for_each_line() {
    let grid = Grid::new(&lines(&[-1.0, 1.0], &[0.5]));
    let at = |x: f32, z: f32| Vertex {
        position: [x.to_bits(), ZERO, z.to_bits()],
        normal: [ZERO, ZERO, ZERO],
        tex_coords: [ZERO, ZERO],
        color: [ONE, ONE, ONE],
    };
    assert_eq!(
        grid.vertices,
        vec![
            at(-1.0, -50.0),
            at(-1.0, 50.0),
            at(1.0, -50.0),
            at(1.0, 50.0),
            at(-50.0, 0.5),
            at(50.0, 0.5),
        ]
    );
    assert_eq!(grid.indices, vec![0, 1, 2, 3, 4, 5]);
    assert_eq!(
        grid.transform,
        Transform::new([ZERO, (-1f32).to_bits(), ZERO], [ZERO, ZERO, ZERO], [ONE, ONE, ONE])
    );
    assert_eq!(grid.index_count, 6);
    assert_eq!(grid.texture_bind_group, TextureBindGroup::flat());
}

#[test]
fn grid_of_the_reference_size_fits_sixteen_bit_indices() {
    let coordinates: Vec<f32> = (0..=400).map(|i| -50.0 + i as f32 * 0.25).collect();
    let reference = lines(&coordinates, &coordinates);
    assert!(Grid::can_build(&reference));
    let grid = Grid::new(&reference);
    assert_eq!(grid.vertices.len(), 1604);
    assert_eq!(grid.index_count, 1604);
    assert_eq!(grid.indices[1603], 1603);
    assert_eq!(grid.vertices[802].position, [(-50f32).to_bits(), ZERO, (-50f32).to_bits()]);

    let many = vec![0.0; MAX_GRID_VERTICES / 4];
    assert!(Grid::can_build(&lines(&many, &many)));
    let mut more = many.clone();
    more.push(0.0);
    assert!(!Grid::can_build(&lines(&more, &many)));
    assert!(!Grid::can_build(&lines(&many, &more)));
}

#[test]
fn scene_starts_with_the_grid_alone() {
    let state = RendererState::new(&lines(&[0.0], &[0.0, 1.0]));
    assert_eq!(state.grids.len(), 1);
    assert_eq!(state.grids[0].index_count, 6);
    assert!(state.models.is_empty());
    assert!(state.landscapes.is_empty());
}

#[test]
fn request_variables_hold_what_they_are_given() {
    assert_eq!(gql::create_md_project::Vars::new(), gql::create_md_project::Vars {});
    assert_eq!(gql::get_md_projects::Vars::new(), gql::get_md_projects::Vars {});
    assert_eq!(gql::delete_md_project::Vars::new("p1".to_string()).projectId, "p1");
    assert_eq!(gql::get_md_project::Vars::new("p2".to_string()).projectId, "p2");
    assert_eq!(gql::generate_concept::Vars::new("a hill".to_string()).prompt, "a hill");
    assert_eq!(gql::generate_model::Vars::new("hill.png".to_string()).imagePath, "hill.png");
    let vars =
        gql::update_md_project::Vars::new("p3".to_string(), "t".to_string(), "{}".to_string());
    assert_eq!((vars.projectId.as_str(), vars.title.as_str(), vars.context.as_str()), ("p3", "t", "{}"));
}
