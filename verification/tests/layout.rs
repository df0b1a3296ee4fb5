use midpoint_renderer::error::FatalLoadError;
use midpoint_renderer::layout::{
    run_walkable, span_walkable, AccessorLayout, AccessorSpan, ComponentKind, Dimensions,
    ImageLayout, SparseLayout, ViewLayout,
};

fn view(offset: usize, length: usize, stride: Option<usize>) -> ViewLayout {
    ViewLayout { offset, length, stride }
}

fn accessor(component: ComponentKind, dimensions: Dimensions, count: usize) -> AccessorLayout {
    AccessorLayout {
        component,
        dimensions,
        span: AccessorSpan { count, offset: 0, view: Some(view(0, 4096, None)) },
        sparse: None,
    }
}

#[test]
fn component_sizes_and_multiplicities() {
    let sizes: Vec<usize> = [
        ComponentKind::I8,
        ComponentKind::U8,
        ComponentKind::I16,
        ComponentKind::U16,
        ComponentKind::U32,
        ComponentKind::F32,
    ]
    .iter()
    .map(|c| c.size())
    .collect();
    assert_eq!(sizes, vec![1, 1, 2, 2, 4, 4]);
    let counts: Vec<usize> = [
        Dimensions::Scalar,
        Dimensions::Vec2,
        Dimensions::Vec3,
        Dimensions::Vec4,
        Dimensions::Mat2,
        Dimensions::Mat3,
        Dimensions::Mat4,
    ]
    .iter()
    .map(|d| d.multiplicity())
    .collect();
    assert_eq!(counts, vec![1, 2, 3, 4, 4, 9, 16]);
}

#[test]
fn run_needs_an_item_and_a_stride_as_wide_as_the_item() {
    assert!(run_walkable(&view(0, 36, None), 0, 3, 12));
    assert!(run_walkable(&view(0, 36, Some(12)), 0, 3, 12));
    assert!(run_walkable(&view(0, 36, Some(16)), 8, 3, 12));
    assert!(!run_walkable(&view(0, 36, None), 0, 0, 12));
    assert!(!run_walkable(&view(0, 36, Some(11)), 0, 3, 12));
    assert!(!run_walkable(&view(0, 36, Some(4)), 0, 1, 12));
}

#[test]
fn run_must_end_within_a_machine_word() {
    let max = usize::MAX;
    assert!(run_walkable(&view(0, max, None), max - 12, 1, 12));
    assert!(!run_walkable(&view(0, max, None), max - 11, 1, 12));
    assert!(run_walkable(&view(0, 0, Some(max / 2)), 0, 2, 12));
    assert!(!run_walkable(&view(0, 0, Some(max / 2)), 0, 4, 12));
    assert!(!run_walkable(&view(0, 0, Some(max)), 0, max, 1));
    assert!(run_walkable(&view(max, 0, None), 0, 1, 1));
    assert!(!run_walkable(&view(max, 1, None), 0, 1, 1));
    assert!(!run_walkable(&view(max, max, None), 0, 1, 1));
}

#[test]
fn span_without_view_needs_no_items() {
    let bare = AccessorSpan { count: 0, offset: 0, view: None };
    assert!(span_walkable(&bare, &None, 12));
    let empty = AccessorSpan { count: 0, offset: 0, view: Some(view(0, 0, None)) };
    assert!(!span_walkable(&empty, &None, 12));
}

#[test]
fn sparse_list_must_be_walkable_too() {
    let span = AccessorSpan { count: 10, offset: 0, view: None };
    let list = SparseLayout {
        count: 2,
        index_size: 2,
        indices_view: view(0, 4, None),
        indices_offset: 0,
        values_view: view(4, 24, None),
        values_offset: 0,
    };
    assert!(span_walkable(&span, &Some(list), 12));
    assert!(!span_walkable(&span, &Some(SparseLayout { count: 0, ..list }), 12));
    assert!(!span_walkable(
        &span,
        &Some(SparseLayout { indices_view: view(0, 4, Some(1)), ..list }),
        12
    ));
    assert!(!span_walkable(
        &span,
        &Some(SparseLayout { values_view: view(4, 24, Some(8)), ..list }),
        12
    ));
    if usize::BITS > 32 {
        let many = AccessorSpan { count: u32::MAX as usize + 1, offset: 0, view: None };
        assert!(!span_walkable(&many, &Some(list), 12));
        assert!(span_walkable(&many, &None, 12));
        let most = AccessorSpan { count: u32::MAX as usize, offset: 0, view: None };
        assert!(span_walkable(&most, &Some(list), 12));
    }
}

#[test]
fn positions_are_twelve_byte_items() {
    assert!(accessor(ComponentKind::F32, Dimensions::Vec3, 3).can_read_as_vec3());
    assert!(accessor(ComponentKind::U32, Dimensions::Vec3, 3).can_read_as_vec3());
    assert!(!accessor(ComponentKind::F32, Dimensions::Vec2, 3).can_read_as_vec3());
    assert!(!accessor(ComponentKind::F32, Dimensions::Vec4, 3).can_read_as_vec3());
    assert!(!accessor(ComponentKind::U16, Dimensions::Vec3, 3).can_read_as_vec3());
    assert!(!accessor(ComponentKind::F32, Dimensions::Vec3, 0).can_read_as_vec3());
}

#[test]
fn colors_have_three_or_four_channels() {
    for component in [ComponentKind::U8, ComponentKind::U16, ComponentKind::F32] {
        assert!(accessor(component, Dimensions::Vec3, 1).can_read_as_colors());
        assert!(accessor(component, Dimensions::Vec4, 1).can_read_as_colors());
        assert!(!accessor(component, Dimensions::Mat2, 1).can_read_as_colors());
        assert!(!accessor(component, Dimensions::Vec2, 1).can_read_as_colors());
    }
    for component in [ComponentKind::I8, ComponentKind::I16, ComponentKind::U32] {
        assert!(!accessor(component, Dimensions::Vec3, 1).can_read_as_colors());
    }
    let mut narrow = accessor(ComponentKind::U8, Dimensions::Vec4, 2);
    narrow.span.view = Some(view(0, 8, Some(3)));
    assert!(!narrow.can_read_as_colors());
    narrow.span.view = Some(view(0, 8, Some(4)));
    assert!(narrow.can_read_as_colors());
}

#[test]
fn texture_coordinates_are_pairs() {
    for component in [ComponentKind::U8, ComponentKind::U16, ComponentKind::F32] {
        assert!(accessor(component, Dimensions::Vec2, 1).can_read_as_tex_coords());
        assert!(!accessor(component, Dimensions::Scalar, 1).can_read_as_tex_coords());
        assert!(!accessor(component, Dimensions::Vec3, 1).can_read_as_tex_coords());
    }
    assert!(!accessor(ComponentKind::I16, Dimensions::Vec2, 1).can_read_as_tex_coords());
    assert!(!accessor(ComponentKind::U32, Dimensions::Vec2, 1).can_read_as_tex_coords());
}

#[test]
fn indices_are_single_unsigned_numbers() {
    for component in [ComponentKind::U8, ComponentKind::U16, ComponentKind::U32] {
        assert!(accessor(component, Dimensions::Scalar, 1).can_read_as_indices());
        assert!(!accessor(component, Dimensions::Vec2, 1).can_read_as_indices());
    }
    for component in [ComponentKind::I8, ComponentKind::I16, ComponentKind::F32] {
        assert!(!accessor(component, Dimensions::Scalar, 1).can_read_as_indices());
    }
}

#[test]
fn image_bytes_must_lie_in_the_chunk() {
    let embedded = |offset, length| ImageLayout {
        view: Some(view(offset, length, None)),
        has_uri: false,
        has_mime_type: true,
    };
    assert_eq!(embedded(4, 6).byte_range(10), Ok((4, 10)));
    assert_eq!(embedded(0, 0).byte_range(0), Ok((0, 0)));
    assert_eq!(embedded(10, 0).byte_range(10), Ok((10, 10)));
    assert_eq!(embedded(4, 7).byte_range(10), Err(FatalLoadError::ImageOutOfBounds));
    assert_eq!(embedded(11, 0).byte_range(10), Err(FatalLoadError::ImageOutOfBounds));
    assert_eq!(
        embedded(usize::MAX, usize::MAX).byte_range(usize::MAX),
        Err(FatalLoadError::ImageOutOfBounds)
    );
}

#[test]
fn image_without_bytes_cannot_be_had() {
    let layout = |view, has_uri, has_mime_type| ImageLayout { view, has_uri, has_mime_type };
    assert_eq!(layout(None, true, false).byte_range(100), Err(FatalLoadError::ExternalImage));
    assert_eq!(layout(None, true, true).byte_range(100), Err(FatalLoadError::ExternalImage));
    assert_eq!(layout(None, false, true).byte_range(100), Err(FatalLoadError::InvalidScene));
    assert_eq!(
        layout(Some(view(0, 4, None)), false, false).byte_range(100),
        Err(FatalLoadError::InvalidScene)
    );
    assert_eq!(layout(Some(view(0, 4, None)), true, true).byte_range(100), Ok((0, 4)));
}
