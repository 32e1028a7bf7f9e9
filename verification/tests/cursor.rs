use window_capture::cursor::{
    draw_cursor, CopyRegion, CursorInfo, CursorPlan, CursorShape, CursorTexture,
};

fn arrow(position: (i32, i32), hotspot: (u32, u32)) -> CursorInfo {
    CursorInfo {
        position,
        hotspot,
        visible: true,
        shape: Some(CursorShape::Color { width: 32, height: 48 }),
    }
}

fn region(dest: (u32, u32), size: (u32, u32)) -> CopyRegion {
    CopyRegion {
        dest_x: dest.0,
        dest_y: dest.1,
        dest_z: 0,
        left: 0,
        top: 0,
        front: 0,
        right: size.0,
        bottom: size.1,
        back: 1,
    }
}

fn region_of(plan: CursorPlan) -> Option<CopyRegion> {
    match plan {
        CursorPlan::Draw { region, .. } => region,
        CursorPlan::Skip => panic!("nothing is drawn"),
    }
}

#[test]
fn whole_cursor_is_drawn_at_its_hotspot() {
    let plan = draw_cursor(&arrow((100, 200), (3, 5)), 1920, 1080);
    assert_eq!(
        plan,
        CursorPlan::Draw {
            texture: CursorTexture {
                width: 32,
                height: 48,
                mip_levels: 1,
                array_size: 1,
                format: windows::Win32::Graphics::Dxgi::Common::DXGI_FORMAT_B8G8R8A8_UNORM.0,
                sample_count: 1,
                sample_quality: 0,
                usage: windows::Win32::Graphics::Direct3D11::D3D11_USAGE_DEFAULT.0 as u32,
                bind_flags: windows::Win32::Graphics::Direct3D11::D3D11_BIND_SHADER_RESOURCE.0
                    as u32,
                cpu_access_flags: 0,
                misc_flags: 0,
                row_pitch: 128,
                slice_pitch: 0,
            },
            region: Some(region((97, 195), (32, 48))),
        }
    );
}

#[test]
fn texture_numbers_are_those_of_the_system() {
    match draw_cursor(&arrow((0, 0), (0, 0)), 100, 100) {
        CursorPlan::Draw { texture, .. } => {
            assert_eq!((texture.format, texture.usage, texture.bind_flags), (87, 0, 8));
        }
        CursorPlan::Skip => panic!("nothing is drawn"),
    }
}

#[test]
fn cursor_is_cut_off_at_the_far_edges() {
    let plan = draw_cursor(&arrow((1910, 1070), (0, 0)), 1920, 1080);
    assert_eq!(region_of(plan), Some(region((1910, 1070), (10, 10))));
}

#[test]
fn cursor_before_the_near_edges_moves_to_them() {
    let plan = draw_cursor(&arrow((-10, 2), (0, 5)), 1920, 1080);
    assert_eq!(region_of(plan), Some(region((0, 0), (32, 48))));
}

#[test]
fn cursor_past_the_frame_copies_nothing() {
    assert_eq!(region_of(draw_cursor(&arrow((1920, 10), (0, 0)), 1920, 1080)), None);
    assert_eq!(region_of(draw_cursor(&arrow((10, 5000), (0, 0)), 1920, 1080)), None);
    assert_eq!(region_of(draw_cursor(&arrow((0, 0), (0, 0)), 0, 0)), None);
}

#[test]
fn frame_too_long_for_a_coordinate_takes_nothing() {
    assert_eq!(region_of(draw_cursor(&arrow((10, 10), (0, 0)), 0x8000_0000, 1080)), None);
    assert_eq!(
        region_of(draw_cursor(&arrow((10, 10), (0, 0)), 0x7fff_ffff, 1080)),
        Some(region((10, 10), (32, 48)))
    );
}

#[test]
fn hotspot_bits_are_signed() {
    let plan = draw_cursor(&arrow((100, 100), (u32::MAX, 0)), 1920, 1080);
    assert_eq!(region_of(plan), Some(region((101, 100), (32, 48))));
}

#[test]
fn masked_color_is_drawn_like_color() {
    let color = arrow((7, 9), (1, 1));
    let masked = CursorInfo {
        shape: Some(CursorShape::MaskedColor { width: 32, height: 48 }),
        ..color
    };
    assert_eq!(draw_cursor(&masked, 640, 480), draw_cursor(&color, 640, 480));
}

#[test]
fn nothing_to_draw() {
    let hidden = CursorInfo { visible: false, ..arrow((7, 9), (1, 1)) };
    let shapeless = CursorInfo { shape: None, ..arrow((7, 9), (1, 1)) };
    let monochrome = CursorInfo {
        shape: Some(CursorShape::Monochrome { width: 32, height: 64 }),
        ..arrow((7, 9), (1, 1))
    };
    assert!(!hidden.is_drawable());
    assert!(!shapeless.is_drawable());
    assert!(monochrome.is_drawable());
    assert_eq!(draw_cursor(&hidden, 640, 480), CursorPlan::Skip);
    assert_eq!(draw_cursor(&shapeless, 640, 480), CursorPlan::Skip);
    assert_eq!(draw_cursor(&monochrome, 640, 480), CursorPlan::Skip);
}

#[test]
fn cursor_arithmetic_has_limits() {
    assert!(arrow((i32::MIN, 0), (0, 0)).can_place());
    assert!(!arrow((i32::MIN, 0), (1, 0)).can_place());
    assert!(!arrow((0, i32::MAX), (0, u32::MAX)).can_place());
    let wide = CursorInfo {
        shape: Some(CursorShape::Color { width: 0x4000_0000, height: 1 }),
        ..arrow((0, 0), (0, 0))
    };
    assert!(!wide.can_place());
    let hidden = CursorInfo { visible: false, ..wide };
    assert!(hidden.can_place());
    let narrower = CursorInfo {
        shape: Some(CursorShape::Color { width: 0x3fff_ffff, height: 1 }),
        ..wide
    };
    assert!(narrower.can_place());
}
