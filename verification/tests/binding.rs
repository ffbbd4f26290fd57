use io_surface::GlDriver;
use io_surface::SurfaceProperties;
use io_surface::SurfaceRegistry;
use io_surface::SurfaceSize;
use io_surface::BGRA;
use io_surface::NO_ERROR;
use io_surface::RGBA;
use io_surface::TEXTURE_RECTANGLE_ARB;
use io_surface::UNSIGNED_INT_8_8_8_8_REV;

fn props() -> SurfaceProperties {
    SurfaceProperties {
        width: 8,
        height: 8,
        bytes_per_row: 32,
        bytes_per_element: 4,
        is_global: true,
    }
}

#[test]
fn request_carries_the_fixed_texture_parameters() {
    let mut reg = SurfaceRegistry::new();
    let s = io_surface::new(&mut reg, &props());
    let req = s.tex_image_request(SurfaceSize { width: 8, height: 8 });
    assert_eq!(req.target, TEXTURE_RECTANGLE_ARB);
    assert_eq!(req.internal_format, RGBA);
    assert_eq!(req.format, BGRA);
    assert_eq!(req.pixel_type, UNSIGNED_INT_8_8_8_8_REV);
    assert_eq!(req.width, 8);
    assert_eq!(req.height, 8);
    assert_eq!(req.surface_id, s.get_id());
    assert_eq!(req.plane, 0);
    s.destroy(&mut reg);
}

#[test]
fn gl_constants_have_their_registered_values() {
    assert_eq!(TEXTURE_RECTANGLE_ARB, 0x84F5);
    assert_eq!(RGBA, 0x1908);
    assert_eq!(BGRA, 0x80E1);
    assert_eq!(UNSIGNED_INT_8_8_8_8_REV, 0x8367);
    assert_eq!(NO_ERROR, 0);
}

#[test]
fn successful_bind_mutates_the_context_binding() {
    let mut reg = SurfaceRegistry::new();
    let s = io_surface::new(&mut reg, &props());
    let mut driver = GlDriver::new();
    let size = SurfaceSize { width: 8, height: 8 };
    s.bind_to_gl_texture(size, &mut driver).expect("a succeeding driver must bind");
    s.destroy(&mut reg);
}

#[test]
fn failing_bind_surfaces_the_drivers_description() {
    let mut reg = SurfaceRegistry::new();
    let s = io_surface::new(&mut reg, &props());
    let mut driver = GlDriver::new();
    driver.set_next_status(10_002, String::from("invalid pixel format"));
    let err = s
        .bind_to_gl_texture(SurfaceSize { width: 8, height: 8 }, &mut driver)
        .expect_err("a failing driver must not bind");
    assert_eq!(err.status, 10_002);
    assert_eq!(err.description, "invalid pixel format");
    assert_eq!(driver.describe_error(), "invalid pixel format");
    s.destroy(&mut reg);
}

#[test]
fn bind_succeeds_again_once_the_driver_recovers() {
    let mut reg = SurfaceRegistry::new();
    let s = io_surface::new(&mut reg, &props());
    let mut driver = GlDriver::new();
    driver.set_next_status(1, String::from("transient"));
    assert!(s.bind_to_gl_texture(SurfaceSize { width: 8, height: 8 }, &mut driver).is_err());
    driver.set_next_status(NO_ERROR, String::new());
    assert!(s.bind_to_gl_texture(SurfaceSize { width: 8, height: 8 }, &mut driver).is_ok());
    s.destroy(&mut reg);
}
