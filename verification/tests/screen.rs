use rboy_desktop::screen::{
    blit_target, create_window_builder, interpolation_type, physical_size, texture_rect,
    BlitTarget, MagnifySamplerFilter, Rect, RenderOptions, Size,
};

const SCREEN: Size = Size { width: 160, height: 144 };

#[test]
fn window_at_the_start() {
    let attributes = create_window_builder("TETRIS", SCREEN);
    assert_eq!(attributes.title, "RBoy - TETRIS");
    assert_eq!(attributes.inner_size, SCREEN);
    assert_eq!(create_window_builder("", SCREEN).title, "RBoy - ");
}

#[test]
fn window_sizes() {
    assert_eq!(physical_size(SCREEN, 1), SCREEN);
    assert_eq!(physical_size(SCREEN, 2), Size { width: 320, height: 288 });
    assert_eq!(physical_size(SCREEN, 8), Size { width: 1280, height: 1152 });
}

#[test]
fn sizes_that_can_be_scaled() {
    assert!(SCREEN.scales_by(8));
    assert!(SCREEN.scales_by(u32::MAX / 160));
    assert!(!SCREEN.scales_by(u32::MAX / 160 + 1));
    assert!(!Size { width: 1, height: 2 }.scales_by(u32::MAX));
    assert!(Size { width: 1, height: 1 }.scales_by(u32::MAX));
}

#[test]
fn frame_fills_the_texture() {
    assert_eq!(
        texture_rect(SCREEN),
        Rect { left: 0, bottom: 0, width: 160, height: 144 }
    );
}

#[test]
fn frame_is_drawn_upside_down() {
    assert_eq!(
        blit_target(640, 480),
        BlitTarget { left: 0, bottom: 480, width: 640, height: -480 }
    );
    assert_eq!(
        blit_target(0, 0),
        BlitTarget { left: 0, bottom: 0, width: 0, height: 0 }
    );
}

#[test]
fn huge_windows_wrap_around() {
    assert_eq!(
        blit_target(0xffff_ffff, 0xffff_fffe),
        BlitTarget { left: 0, bottom: 0xffff_fffe, width: -1, height: 2 }
    );
    assert_eq!(blit_target(0x8000_0000, 1).width, i32::MIN);
}

#[test]
fn interpolation() {
    assert_eq!(
        interpolation_type(&RenderOptions::default()),
        MagnifySamplerFilter::Nearest
    );
    assert_eq!(
        interpolation_type(&RenderOptions { linear_interpolation: true }),
        MagnifySamplerFilter::Linear
    );
}
