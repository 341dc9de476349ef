use ft::args::Args;
use ft::display::pixel::DisplayPixel;
use ft::display::PixelLayout;
use ft::font::raster::raster_point;
use ft::color::Rgb;
use ft::spatial::dimension::Dimensions;
use ft::spatial::point::Point;
use ft::spatial::{CellsUnit, PixelsUnit};
use ft::terminal::{respond_to_event, EventResponse, EventSources, WriteFailure};

const SOURCES: EventSources = EventSources {
    shell_master: 5,
    shell_exit: 6,
    input: 0,
};

#[test]
fn event_responses() {
    assert_eq!(respond_to_event(5, true, SOURCES), EventResponse::CloseShell);
    assert_eq!(respond_to_event(5, false, SOURCES), EventResponse::HandleOutput);
    assert_eq!(respond_to_event(6, false, SOURCES), EventResponse::Finish);
    assert_eq!(respond_to_event(6, true, SOURCES), EventResponse::Finish);
    assert_eq!(respond_to_event(0, false, SOURCES), EventResponse::ForwardInput);
}

#[test]
fn write_failures() {
    assert!(!WriteFailure::BadDescriptor.is_fatal());
    assert!(WriteFailure::Other.is_fatal());
}

#[test]
fn pixel_layouts() {
    let layout = PixelLayout {
        bits_per_pixel: 32,
        red_offset: 16,
        green_offset: 8,
        blue_offset: 0,
        transparency_length: 0,
    };
    assert!(layout.is_supported());
    assert!(!PixelLayout { transparency_length: 8, ..layout }.is_supported());
    assert!(!PixelLayout { bits_per_pixel: 24, ..layout }.is_supported());
    assert!(!PixelLayout { red_offset: 0, blue_offset: 16, ..layout }.is_supported());
}

#[test]
fn pixel_stores_blue_green_red() {
    let mut pixel = DisplayPixel::from_frame_chunk([9, 9, 9, 7]);
    pixel.set_rgb(Rgb::new(1, 2, 3));
    assert_eq!(pixel.frame_chunk(), [3, 2, 1, 7]);
}

#[test]
fn dimensions_and_points() {
    let screen = Dimensions::<PixelsUnit>::new(1920, 1080);
    let cells = screen.fit_cells(Dimensions::new(9, 17));
    assert_eq!((cells.width(), cells.height()), (213, 63));
    assert_eq!(screen.vector_index(Point::new(3, 2)), 2 * 1920 + 3);
    assert!(screen.contains(Point::new(1919, 1079)));
    assert!(screen.contains(Point::new(0, 0)));
    assert!(!screen.contains(Point::new(1920, 1079)));
    assert!(!screen.contains(Point::new(0, 1080)));

    let cell = Point::<CellsUnit>::new(4, 5);
    let origin = cell.to_pixels(Dimensions::new(9, 17));
    assert_eq!((origin.horizontal_distance(), origin.vertical_distance()), (36, 85));
    let pixel = Point::<PixelsUnit>::new(2, 3).with_origin(origin);
    assert_eq!((pixel.horizontal_distance(), pixel.vertical_distance()), (38, 88));
    let moved = pixel.shifted(-38, 2);
    assert_eq!((moved.horizontal_distance(), moved.vertical_distance()), (0, 90));
}

#[test]
fn raster_points() {
    let point = raster_point(7, 3, 1, 4);
    assert_eq!((point.horizontal_distance(), point.vertical_distance()), (2, 6));
    let point = raster_point(0, 5, 0, 0);
    assert_eq!((point.horizontal_distance(), point.vertical_distance()), (0, 0));
}

#[test]
fn argument_defaults() {
    let args = Args::from_options(None, None, false, None, None);
    assert_eq!(args.font_path, "font.ttf");
    assert_eq!(args.font_size_px, 16);
    assert!(args.font_subpixel_antialiasing);
    assert_eq!(args.framebuffer_device_path, "/dev/fb0");
    assert_eq!(args.shell_path, "/usr/bin/bash");

    let args = Args::from_options(
        Some("mono.ttf".to_owned()),
        Some(20),
        true,
        Some("/dev/fb1".to_owned()),
        Some("/bin/sh".to_owned()),
    );
    assert_eq!(args.font_path, "mono.ttf");
    assert_eq!(args.font_size_px, 20);
    assert!(!args.font_subpixel_antialiasing);
    assert_eq!(args.framebuffer_device_path, "/dev/fb1");
    assert_eq!(args.shell_path, "/bin/sh");
}
