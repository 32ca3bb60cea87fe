//! Tests of the verified framebuffer exporters.

use tracer::image_exporter::{ExporterError, PNGExporter, PPMExporter, to_color_byte};
use tracer::vector::Vec3;

fn v(x: i64, y: i64, z: i64) -> Vec3 {
    Vec3 { x, y, z }
}

// Channels are clamped into [0, 1] and scaled to 8 bits, rounding down.
#[test]
fn color_byte_conversion() {
    assert_eq!(to_color_byte(0), 0);
    assert_eq!(to_color_byte(1_000_000), 255);
    assert_eq!(to_color_byte(500_000), 127);
    assert_eq!(to_color_byte(-5), 0);
    assert_eq!(to_color_byte(2_000_000), 255);
}

// The PPM header is the P3 magic, the dimensions, and the color maximum.
#[test]
fn ppm_header_bytes() {
    let exporter = PPMExporter { width: 2, height: 3 };
    assert_eq!(exporter.header().unwrap(), b"P3\n2 3\n255\n".to_vec());
    let bad = PPMExporter { width: 0, height: 3 };
    assert_eq!(bad.header().unwrap_err(), ExporterError::InvalidDimensions);
}

// The PPM content is the header followed by one decimal RGB line per
// pixel.
#[test]
fn ppm_content_bytes() {
    let exporter = PPMExporter { width: 2, height: 1 };
    let buffer = vec![v(1_000_000, 0, 500_000), v(250_000, 750_000, 1_000_000)];
    let content = exporter.content(&buffer).unwrap();
    assert_eq!(content, b"P3\n2 1\n255\n255 0 127\n63 191 255\n".to_vec());
}

// The PNG path flattens the buffer into 8-bit RGB bytes, row major.
#[test]
fn rgb8_bytes() {
    let exporter = PNGExporter { width: 2, height: 1 };
    let buffer = vec![v(1_000_000, 0, 500_000), v(0, 0, 0)];
    assert_eq!(exporter.rgb8(&buffer).unwrap(), vec![255, 0, 127, 0, 0, 0]);
    let bad = PNGExporter { width: 2, height: 0 };
    assert_eq!(bad.rgb8(&buffer).unwrap_err(), ExporterError::InvalidDimensions);
}

// Validation flags any pixel outside [0, 1].
#[test]
fn pixel_validation() {
    let good = vec![v(0, 1_000_000, 500_000)];
    assert!(tracer::image_exporter::validate_pixels(&good).is_ok());
    let bad = vec![v(0, 1_000_001, 0)];
    assert_eq!(
        tracer::image_exporter::validate_pixels(&bad).unwrap_err(),
        ExporterError::InvalidPixelValues
    );
}
