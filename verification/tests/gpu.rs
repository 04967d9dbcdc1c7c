use rdp_client::gpu::{
    choose_format, choose_present_mode, PresentMode, SurfaceStatus, TextureDimension,
    TextureFormat, TextureUsages, TextureWrite, WgpuState,
};

fn state() -> WgpuState {
    WgpuState::new(&vec![false, true], &vec![PresentMode::Fifo], 1, 1920, 1080)
}

fn write(x: u32, y: u32, width: u32, height: u32) -> TextureWrite {
    TextureWrite {
        mip_level: 0,
        x,
        y,
        z: 0,
        offset: 0,
        bytes_per_row: width * 4,
        rows_per_image: height,
        width,
        height,
        depth_or_array_layers: 1,
    }
}

#[test]
fn the_first_srgb_format_is_taken() {
    assert_eq!(choose_format(&vec![false, true, true]), 1);
    assert_eq!(choose_format(&vec![true, true]), 0);
    assert_eq!(choose_format(&vec![false, false]), 0);
}

#[test]
fn mailbox_is_preferred_to_fifo() {
    let both = vec![PresentMode::Fifo, PresentMode::Mailbox];
    assert_eq!(choose_present_mode(&both), PresentMode::Mailbox);
    let neither = vec![PresentMode::Immediate, PresentMode::FifoRelaxed];
    assert_eq!(choose_present_mode(&neither), PresentMode::Fifo);
    assert_eq!(choose_present_mode(&vec![]), PresentMode::Fifo);
}

#[test]
fn the_surface_has_the_size_of_the_desktop() {
    let state = state();
    assert_eq!(state.surface.format, 1);
    assert_eq!((state.surface.width, state.surface.height), (1920, 1080));
    assert_eq!(state.surface.present_mode, PresentMode::Fifo);
    assert_eq!(state.surface.alpha_mode, 0);
    assert_eq!(state.surface.desired_maximum_frame_latency, 2);
    let texture = state.desktop_texture;
    assert_eq!((texture.width, texture.height), (1920, 1080));
    assert_eq!(texture.depth_or_array_layers, 1);
    assert_eq!((texture.mip_level_count, texture.sample_count), (1, 1));
}

#[test]
fn the_desktop_texture_takes_rgba_bytes() {
    let state = state();
    let none = TextureUsages {
        copy_src: false,
        copy_dst: false,
        texture_binding: false,
        storage_binding: false,
        render_attachment: false,
    };
    assert_eq!(state.surface.usage, TextureUsages { render_attachment: true, ..none });
    let texture = state.desktop_texture;
    assert_eq!(texture.format, TextureFormat::Rgba8UnormSrgb);
    assert_eq!(texture.usage, TextureUsages { copy_dst: true, texture_binding: true, ..none });
    assert_eq!(texture.dimension, TextureDimension::D2);
    assert!(state.surface.view_formats.is_empty());
    assert!(texture.view_formats.is_empty());
}

#[test]
fn a_surface_is_never_empty() {
    let state = WgpuState::new(&vec![false], &vec![], 2, 0, 0);
    assert_eq!((state.surface.width, state.surface.height), (1, 1));
    assert_eq!((state.desktop_texture.width, state.desktop_texture.height), (0, 0));
}

#[test]
fn a_region_is_written_row_by_row() {
    assert_eq!(state().write_region(3, 5, 7, 2), write(3, 5, 7, 2));
    assert_eq!(state().write_region(3, 5, 7, 2).bytes_per_row, 28);
}

#[test]
fn regions_are_written_in_order() {
    let regions = vec![(0, 0, 1, 1, vec![0; 4]), (8, 9, 2, 3, vec![0; 24])];
    assert_eq!(
        state().write_regions_batched(&regions),
        vec![write(0, 0, 1, 1), write(8, 9, 2, 3)]
    );
    assert!(state().write_regions_batched(&Vec::new()).is_empty());
}

#[test]
fn a_frame_is_painted_after_its_writes() {
    let regions = vec![(8, 9, 2, 3, vec![0; 24])];
    assert_eq!(state().render(Some(&regions)), vec![write(8, 9, 2, 3)]);
    assert!(state().render(None).is_empty());
}

#[test]
fn the_state_of_the_surface_is_told() {
    assert_eq!(SurfaceStatus::Success.acquired(), Ok(()));
    assert_eq!(SurfaceStatus::Suboptimal.acquired(), Ok(()));
    let failures = [
        (SurfaceStatus::Timeout, "Surface timeout"),
        (SurfaceStatus::Occluded, "Surface occluded"),
        (SurfaceStatus::Outdated, "Surface outdated – reconfigure needed"),
        (SurfaceStatus::Lost, "Surface lost"),
        (SurfaceStatus::Validation, "Surface validation error"),
    ];
    for (status, text) in failures {
        assert_eq!(status.acquired(), Err(String::from(text)));
    }
}
