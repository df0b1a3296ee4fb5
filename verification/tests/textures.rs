use midpoint_renderer::binding::{
    AddressMode, FilterMode, RenderMode, Sampler, TextureBindGroup, TextureView,
};
use midpoint_renderer::error::{FatalLoadError, LookupError};
use midpoint_renderer::grid::GridLines;
use midpoint_renderer::heightmap::{LandscapeData, PixelData};
use midpoint_renderer::landscape::{Landscape, LandscapeTextureKinds, LAYER_COUNT};
use midpoint_renderer::scene::{LayerUpdate, RendererState};
use midpoint_renderer::texture::{write_layout, Extent3d, ImageDataLayout, Texture, TextureFormat};

fn heightmap(width: usize, height: usize) -> LandscapeData {
    let row = vec![PixelData { height_value: 0, position: [0, 0, 0], tex_coords: [0, 0] }; width];
    LandscapeData { width, height, pixel_data: vec![row; height] }
}

fn no_lines() -> GridLines {
    GridLines { xs: Vec::new(), zs: Vec::new(), min_x: 0, max_x: 0, min_z: 0, max_z: 0 }
}

fn texture(fill: u8, width: u32, height: u32) -> Texture {
    Texture::new(vec![fill; (4 * width * height) as usize], width, height)
}

fn scene_with_landscapes(ids: &[&str]) -> RendererState {
    let mut state = RendererState::new(&no_lines());
    for id in ids {
        assert_eq!(state.add_landscape(&id.to_string(), &heightmap(2, 2)), Ok(()));
    }
    state
}

#[test]
fn layers_are_numbered_in_pairs() {
    assert_eq!(LandscapeTextureKinds::Primary.layer(), 0);
    assert_eq!(LandscapeTextureKinds::PrimaryMask.layer(), 1);
    assert_eq!(LandscapeTextureKinds::Rockmap.layer(), 2);
    assert_eq!(LandscapeTextureKinds::RockmapMask.layer(), 3);
    assert_eq!(LandscapeTextureKinds::Soil.layer(), 4);
    assert_eq!(LandscapeTextureKinds::SoilMask.layer(), 5);
    assert_eq!(LAYER_COUNT, 6);
}

#[test]
fn texture_size_is_one_layer_deep() {
    let t = Texture::new(vec![0; 24], 3, 2);
    assert_eq!(t.format, TextureFormat::Rgba8UnormSrgb);
    assert_eq!(t.size(), Extent3d { width: 3, height: 2, depth_or_array_layers: 1 });
    assert!(t.is_complete());
    assert!(!Texture::new(vec![0; 23], 3, 2).is_complete());
    assert!(!Texture::new(vec![0; 25], 3, 2).is_complete());
    assert!(Texture::new(Vec::new(), 0, 7).is_complete());
}

#[test]
fn first_attach_allocates_six_layers_of_the_texture_size() {
    let mut landscape = Landscape::new(&"a".to_string(), &heightmap(2, 2));
    let allocated = landscape.update_texture(LandscapeTextureKinds::Rockmap, &texture(7, 4, 2));
    assert!(allocated);
    let array = landscape.texture_array.as_ref().unwrap();
    assert_eq!(array.size, Extent3d { width: 4, height: 2, depth_or_array_layers: 6 });
    assert_eq!(array.layers.len(), 6);
    for (i, layer) in array.layers.iter().enumerate() {
        if i == 2 {
            assert_eq!(layer.as_deref(), Some(&[7u8; 32][..]));
        } else {
            assert!(layer.is_none());
        }
    }
    assert_eq!(
        landscape.texture_bind_group,
        Some(TextureBindGroup {
            view: TextureView::LayerArray(Extent3d {
                width: 4,
                height: 2,
                depth_or_array_layers: 6
            }),
            sampler: Sampler {
                address_mode: AddressMode::ClampToEdge,
                mag_filter: FilterMode::Nearest,
                min_filter: FilterMode::Nearest,
                mipmap_filter: FilterMode::Nearest,
            },
            render_mode: RenderMode::Texture,
        })
    );
}

#[test]
fn later_attach_rewrites_its_layer_only() {
    let mut landscape = Landscape::new(&"a".to_string(), &heightmap(2, 2));
    assert!(landscape.update_texture(LandscapeTextureKinds::Primary, &texture(1, 2, 2)));
    assert!(!landscape.update_texture(LandscapeTextureKinds::Soil, &texture(2, 2, 2)));
    assert!(!landscape.update_texture(LandscapeTextureKinds::Primary, &texture(3, 2, 2)));
    let array = landscape.texture_array.as_ref().unwrap();
    assert_eq!(array.layers[0].as_deref(), Some(&[3u8; 16][..]));
    assert_eq!(array.layers[4].as_deref(), Some(&[2u8; 16][..]));
    assert!(array.layers[1].is_none());
    assert_eq!(landscape.vertices.len(), 4);
    assert_eq!(landscape.index_count, 6);
}

#[test]
fn three_attaches_allocate_once_and_fill_all_layers() {
    let mut state = scene_with_landscapes(&["other", "terrain"]);
    let first = state.update_landscape_texture(
        "terrain".to_string(),
        LandscapeTextureKinds::Primary,
        texture(10, 2, 3),
        LandscapeTextureKinds::PrimaryMask,
        texture(11, 2, 3),
    );
    let second = state.update_landscape_texture(
        "terrain".to_string(),
        LandscapeTextureKinds::Rockmap,
        texture(20, 2, 3),
        LandscapeTextureKinds::RockmapMask,
        texture(21, 2, 3),
    );
    let third = state.update_landscape_texture(
        "terrain".to_string(),
        LandscapeTextureKinds::Soil,
        texture(30, 2, 3),
        LandscapeTextureKinds::SoilMask,
        texture(31, 2, 3),
    );
    assert_eq!(first, Ok(LayerUpdate { landscape: 1, allocated: true }));
    assert_eq!(second, Ok(LayerUpdate { landscape: 1, allocated: false }));
    assert_eq!(third, Ok(LayerUpdate { landscape: 1, allocated: false }));
    let landscape = &state.landscapes[1];
    let array = landscape.texture_array.as_ref().unwrap();
    assert_eq!(array.size, Extent3d { width: 2, height: 3, depth_or_array_layers: 6 });
    let fills: Vec<u8> = array.layers.iter().map(|l| l.as_ref().unwrap()[0]).collect();
    assert_eq!(fills, vec![10, 11, 20, 21, 30, 31]);
    assert!(array.layers.iter().all(|l| l.as_ref().unwrap().len() == 24));
    assert_eq!(landscape.texture_bind_group, Some(TextureBindGroup::layered(array.size)));
    assert!(state.landscapes[0].texture_array.is_none());
    assert!(state.landscapes[0].texture_bind_group.is_none());
}

#[test]
fn unknown_landscape_leaves_the_scene_unchanged() {
    let mut state = scene_with_landscapes(&["a", "b"]);
    let _ = state.update_landscape_texture(
        "a".to_string(),
        LandscapeTextureKinds::Primary,
        texture(1, 2, 2),
        LandscapeTextureKinds::PrimaryMask,
        texture(2, 2, 2),
    );
    let before = state.clone();
    let result = state.update_landscape_texture(
        "c".to_string(),
        LandscapeTextureKinds::Primary,
        texture(9, 2, 2),
        LandscapeTextureKinds::PrimaryMask,
        texture(9, 2, 2),
    );
    assert_eq!(result, Err(LookupError::UnknownLandscape));
    assert_eq!(state, before);
    assert_eq!(state.landscapes.len(), 2);
    assert_eq!(state.landscapes[0].texture_bind_group, before.landscapes[0].texture_bind_group);
}

#[test]
fn first_landscape_with_the_id_is_updated() {
    let mut state = scene_with_landscapes(&["twin", "twin"]);
    let result = state.update_landscape_texture(
        "twin".to_string(),
        LandscapeTextureKinds::Soil,
        texture(1, 1, 1),
        LandscapeTextureKinds::SoilMask,
        texture(2, 1, 1),
    );
    assert_eq!(result, Ok(LayerUpdate { landscape: 0, allocated: true }));
    assert!(state.landscapes[0].texture_array.is_some());
    assert!(state.landscapes[1].texture_array.is_none());
}

#[test]
fn malformed_heightmap_is_turned_down() {
    let mut state = scene_with_landscapes(&["a"]);
    let before = state.clone();
    let mut data = heightmap(3, 3);
    data.pixel_data.pop();
    assert_eq!(
        state.add_landscape(&"b".to_string(), &data),
        Err(FatalLoadError::MalformedHeightmap)
    );
    assert_eq!(state, before);
}

#[test]
fn added_landscape_is_registered_last() {
    let mut state = scene_with_landscapes(&["a"]);
    assert_eq!(state.add_landscape(&"b".to_string(), &heightmap(3, 2)), Ok(()));
    assert_eq!(state.landscapes.len(), 2);
    assert_eq!(state.landscapes[0].id, "a");
    assert_eq!(state.landscapes[1].id, "b");
    assert_eq!(state.landscapes[1].vertices.len(), 6);
    assert_eq!(state.grids.len(), 1);
    assert!(state.models.is_empty());
}

#[test]
fn render_mode_flags() {
    assert_eq!(RenderMode::Color.flag(), 0);
    assert_eq!(RenderMode::Texture.flag(), 1);
    assert_eq!(TextureBindGroup::flat().render_mode, RenderMode::Color);
    assert_eq!(TextureBindGroup::flat().view, TextureView::Default);
    assert_eq!(TextureBindGroup::textured(3).view, TextureView::Image(3));
    assert_eq!(TextureBindGroup::textured(3).render_mode, RenderMode::Texture);
    assert_eq!(TextureBindGroup::textured(3).sampler, Sampler::linear());
    assert_eq!(Sampler::linear().mag_filter, FilterMode::Linear);
    assert_eq!(Sampler::linear().address_mode, AddressMode::ClampToEdge);
    assert_eq!(Sampler::linear().mipmap_filter, FilterMode::Nearest);
    assert_eq!(Sampler::nearest().min_filter, FilterMode::Nearest);
}

#[test]
fn write_layout_needs_exactly_the_texels() {
    assert_eq!(
        write_layout(24, 3, 2),
        Some(ImageDataLayout { offset: 0, bytes_per_row: 12, rows_per_image: 2 })
    );
    assert_eq!(write_layout(23, 3, 2), None);
    assert_eq!(write_layout(25, 3, 2), None);
    assert_eq!(
        write_layout(0, 0x3FFF_FFFF, 0),
        Some(ImageDataLayout { offset: 0, bytes_per_row: 0xFFFF_FFFC, rows_per_image: 0 })
    );
    assert_eq!(write_layout(0, 0x4000_0000, 0), None);
    assert_eq!(
        write_layout(0, 0, 9),
        Some(ImageDataLayout { offset: 0, bytes_per_row: 0, rows_per_image: 9 })
    );
}
