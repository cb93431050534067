use dauber::color::Color;
use dauber::device::{Device, Sink};
use dauber::geom::point::Point;
use dauber::image_info::ImageInfo;
use dauber::paint::{Paint, PaintStyle};
use dauber::path::math::AxisStops;
use dauber::path::Path;
use dauber::scalar::Scalar;
use dauber::surface::Surface;

fn s(v: f32) -> Scalar {
    Scalar::from_bits(v.to_bits())
}

fn pt(x: f32, y: f32) -> Point {
    Point::new(s(x), s(y))
}

fn all_at(v: f32) -> AxisStops {
    AxisStops { outer_low: s(v), inner_low: s(v), middle: s(v), inner_high: s(v), outer_high: s(v) }
}

#[test]
fn image_info_holds_width_and_height() {
    let info = ImageInfo::new_wh(1024, 512);
    assert_eq!(info.width, 1024);
    assert_eq!(info.height, 512);
}

#[test]
fn device_reports_the_info_it_was_made_with() {
    let sink = Sink::new(ImageInfo::new_wh(1024, 512));
    assert_eq!(*sink.image_info(), ImageInfo::new_wh(1024, 512));
    assert_eq!(sink.paths_drawn(), 0);
}

#[test]
fn sink_accepts_an_empty_target() {
    let mut sink = Sink::new(ImageInfo::new_wh(0, 0));
    assert_eq!(*sink.image_info(), ImageInfo::new_wh(0, 0));
    sink.draw_path(&Path::new(), &Paint::new());
    assert_eq!(sink.paths_drawn(), 1);
    assert_eq!(*sink.image_info(), ImageInfo::new_wh(0, 0));
}

#[test]
fn surface_reads_width_and_height_from_its_device() {
    let surface: Surface<Sink> = Surface::new(ImageInfo::new_wh(1024, 512));
    assert_eq!(surface.width(), 1024);
    assert_eq!(surface.height(), 512);
    assert_eq!(*surface.device().image_info(), ImageInfo::new_wh(1024, 512));
}

#[test]
fn canvas_forwards_each_call_to_the_device() {
    let mut surface: Surface<Sink> = Surface::new(ImageInfo::new_wh(64, 32));
    let mut path = Path::new();
    path.move_to(pt(0., 0.));
    path.line_to(pt(100., 50.));
    path.close();
    let mut paint = Paint::new();
    paint.set_style(PaintStyle::Fill);
    paint.set_color(Color::green());

    {
        let mut canvas = surface.canvas();
        assert_eq!(canvas.device().paths_drawn(), 0);
        canvas.draw_path(&path, &paint).draw_path(&path, &paint);
        assert_eq!(canvas.device().paths_drawn(), 2);
        canvas.draw_circle(all_at(5.), all_at(6.), &paint).draw_path(&path, &paint);
        assert_eq!(canvas.device().paths_drawn(), 4);
    }
    assert_eq!(surface.device().paths_drawn(), 4);
    assert_eq!(surface.width(), 64);
    assert_eq!(surface.height(), 32);

    surface.canvas().draw_path(&path, &paint);
    assert_eq!(surface.device().paths_drawn(), 5);
    assert_eq!(path.to_segments().len(), 3);
}

#[test]
fn picture_sizes_in_bytes() {
    let info = ImageInfo::new_wh(1024, 512);
    assert_eq!(info.row_bytes(), Some(4096));
    assert_eq!(info.buffer_bytes(), Some(2_097_152));
    assert_eq!(ImageInfo::new_wh(0, 0).row_bytes(), Some(0));
    assert_eq!(ImageInfo::new_wh(0, 0).buffer_bytes(), Some(0));
    assert_eq!(ImageInfo::new_wh(0x3fff_ffff, 1).row_bytes(), Some(0xffff_fffc));
    assert_eq!(ImageInfo::new_wh(0x3fff_ffff, 1).buffer_bytes(), Some(0xffff_fffc));
    assert_eq!(ImageInfo::new_wh(0x4000_0000, 1).row_bytes(), None);
    assert_eq!(ImageInfo::new_wh(0x4000_0000, 1).buffer_bytes(), None);
    assert_eq!(ImageInfo::new_wh(0x4000_0000, 0).buffer_bytes(), Some(0));
    assert_eq!(ImageInfo::new_wh(0x8000, 0x8000).buffer_bytes(), None);
    assert_eq!(ImageInfo::new_wh(0x8000, 0x7fff).buffer_bytes(), Some(0xfffe_0000));
}
