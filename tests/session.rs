use racy_web::{Axis, Dimension, MimeType, Model, Msg, Phase, Point, RenderOptions, Vector};

fn defaults() -> RenderOptions<f32> {
    RenderOptions {
        from: Point { x: 0.0, y: 0.0, z: 5.0 },
        to: Point { x: 0.0, y: 0.0, z: 0.0 },
        width_pixels: 640,
        height_pixels: 480,
    }
}

fn same(a: RenderOptions<f32>, b: RenderOptions<f32>) -> bool {
    a.from.x.to_bits() == b.from.x.to_bits()
        && a.from.y.to_bits() == b.from.y.to_bits()
        && a.from.z.to_bits() == b.from.z.to_bits()
        && a.to.x.to_bits() == b.to.x.to_bits()
        && a.to.y.to_bits() == b.to.y.to_bits()
        && a.to.z.to_bits() == b.to.z.to_bits()
        && a.width_pixels == b.width_pixels
        && a.height_pixels == b.height_pixels
}

/// A binary STL file holding one triangle.
fn one_triangle_stl() -> Vec<u8> {
    let mut bytes = vec![0u8; 80];
    bytes.extend_from_slice(&1u32.to_le_bytes());
    let values: [f32; 12] = [0.0, 0.0, 1.0, 0.0, 0.0, 0.0, 1.0, 0.0, 0.0, 0.0, 1.0, 0.0];
    for v in values.iter() {
        bytes.extend_from_slice(&v.to_le_bytes());
    }
    bytes.extend_from_slice(&[0u8, 0u8]);
    bytes
}

fn ok_renderer(_m: &nom_stl::Mesh, _o: &RenderOptions<f32>) -> Result<Vec<u8>, String> {
    Ok(vec![1, 2, 3])
}

fn failing_renderer(_m: &nom_stl::Mesh, _o: &RenderOptions<f32>) -> Result<Vec<u8>, String> {
    Err("camera is inside the mesh".to_string())
}

fn handle_of(bytes: &Vec<u8>, mime: MimeType) -> Result<String, String> {
    Ok(format!("blob:{}:{:?}", mime.to_string(), bytes))
}

fn refusing_handle(_b: &Vec<u8>, _t: MimeType) -> Result<String, String> {
    Err("out of memory".to_string())
}

fn no_render(_m: &nom_stl::Mesh, _o: &RenderOptions<f32>) -> Result<Vec<u8>, String> {
    panic!("the renderer must not be called")
}

fn no_handle(_b: &Vec<u8>, _t: MimeType) -> Result<String, String> {
    panic!("no handle may be made")
}

#[test]
fn fresh_session_is_idle_and_empty() {
    let m = Model::create(defaults());
    assert_eq!(m.phase(), Phase::Idle);
    assert!(m.buffer().is_none());
    assert!(m.error().is_empty());
    assert!(m.image_url().is_empty());
    assert_eq!(m.pending_loads(), 0);
    assert!(same(m.options(), defaults()));
}

#[test]
fn coordinate_edit_sets_only_that_field() {
    let mut m = Model::create(defaults());
    m.update_coord(Vector::To, Axis::Y, Ok(2.5));
    let o = m.options();
    assert_eq!(o.to.y, 2.5);
    let mut expected = defaults();
    expected.to.y = 2.5;
    assert!(same(o, expected));
    assert!(m.error().is_empty());
}

#[test]
fn coordinate_edit_failure_keeps_options() {
    let mut m = Model::create(defaults());
    m.update_coord(Vector::From, Axis::X, Ok(1.0));
    m.update_coord(Vector::From, Axis::X, Err("invalid float literal".to_string()));
    assert_eq!(m.error().as_str(), "invalid float literal");
    assert_eq!(m.options().from.x, 1.0);
    m.update_coord(Vector::From, Axis::Z, Err(String::new()));
    assert_eq!(m.error().as_str(), "not a number");
    assert_eq!(m.options().from.z, 5.0);
    m.update_coord(Vector::From, Axis::Z, Ok(-3.0));
    assert!(m.error().is_empty());
    assert_eq!(m.options().from.z, -3.0);
}

#[test]
fn dimension_edit_reads_whole_numbers() {
    let mut m = Model::create(defaults());
    m.update_dimension(Dimension::Width, "1024");
    assert_eq!(m.options().width_pixels, 1024);
    assert_eq!(m.options().height_pixels, 480);
    m.update_dimension(Dimension::Height, "+0768");
    assert_eq!(m.options().height_pixels, 768);
    assert!(m.error().is_empty());
}

#[test]
fn dimension_edit_rejects_bad_text_without_failing() {
    let mut m = Model::create(defaults());
    for text in ["", "abc", "-5", "12px", " 12", "+", "1.5", "99999999999999999999999999"].iter() {
        m.update_dimension(Dimension::Width, text);
        assert_eq!(m.error().as_str(), "width must be a whole number of pixels");
        assert!(same(m.options(), defaults()));
    }
    m.update_dimension(Dimension::Height, "x");
    assert_eq!(m.error().as_str(), "height must be a whole number of pixels");
    m.update_dimension(Dimension::Height, "0");
    assert_eq!(m.options().height_pixels, 0);
    assert!(m.error().is_empty());
}

#[test]
fn reset_returns_to_defaults_after_any_edits() {
    let mut m = Model::create(defaults());
    m.update_coord(Vector::From, Axis::Y, Ok(9.0));
    m.update_dimension(Dimension::Width, "33");
    m.update_coord(Vector::To, Axis::X, Err("bad".to_string()));
    m.reset();
    assert!(same(m.options(), defaults()));
    assert_eq!(m.error().as_str(), "bad");
    m.reset();
    assert!(same(m.options(), defaults()));
    assert!(same(m.defaults(), defaults()));
}

#[test]
fn last_finished_load_wins() {
    let mut m = Model::create(defaults());
    m.select_files(1);
    m.load_complete(vec![1, 1]);
    m.select_files(1);
    m.load_complete(vec![2, 2, 2]);
    assert_eq!(m.buffer(), Some(&vec![2, 2, 2]));
    m.select_files(2);
    assert_eq!(m.pending_loads(), 2);
    m.load_complete(vec![3]);
    m.load_complete(vec![4]);
    assert_eq!(m.buffer(), Some(&vec![4]));
    assert_eq!(m.pending_loads(), 0);
    assert_eq!(m.phase(), Phase::Ready);
}

#[test]
fn pending_loads_saturate() {
    let mut m = Model::create(defaults());
    m.select_files(usize::MAX);
    m.select_files(3);
    assert_eq!(m.pending_loads(), usize::MAX);
    m.load_complete(vec![]);
    assert_eq!(m.pending_loads(), usize::MAX - 1);
}

#[test]
fn render_without_file_changes_nothing() {
    let mut m = Model::create(defaults());
    assert!(!m.render(&no_render, &no_handle));
    assert_eq!(m.phase(), Phase::Idle);
    assert!(m.error().is_empty());
    assert!(m.image_url().is_empty());
    assert!(!m.update(Msg::Render, &no_render, &no_handle));
}

#[test]
fn render_success_shows_handle() {
    let mut m = Model::create(defaults());
    m.load_complete(one_triangle_stl());
    assert!(m.render(&ok_renderer, &handle_of));
    assert_eq!(m.image_url().as_str(), "blob:image/jpg:[1, 2, 3]");
    assert!(m.error().is_empty());
    assert_eq!(m.phase(), Phase::Rendered);
}

#[test]
fn render_failure_keeps_previous_image() {
    let mut m = Model::create(defaults());
    m.load_complete(one_triangle_stl());
    m.render(&ok_renderer, &handle_of);
    m.update_coord(Vector::From, Axis::X, Ok(4.0));
    let before = m.options();
    m.render(&failing_renderer, &no_handle);
    assert_eq!(m.error().as_str(), "camera is inside the mesh");
    assert_eq!(m.image_url().as_str(), "blob:image/jpg:[1, 2, 3]");
    assert_eq!(m.phase(), Phase::Failed);
    assert!(same(m.options(), before));
}

#[test]
fn render_of_malformed_file_sets_error_only() {
    let mut m = Model::create(defaults());
    m.load_complete(vec![1, 2, 3]);
    assert!(m.render(&no_render, &no_handle));
    assert_eq!(m.error().as_str(), "the file is not a readable STL mesh");
    assert_eq!(m.phase(), Phase::Ready);
    assert!(m.image_url().is_empty());
}

#[test]
fn render_parsed_without_mesh_sets_error() {
    let mut m = Model::create(defaults());
    m.load_complete(one_triangle_stl());
    m.render_parsed(None, &no_render, &no_handle);
    assert_eq!(m.error().as_str(), "the file is not a readable STL mesh");
    assert_eq!(m.phase(), Phase::Ready);
}

#[test]
fn render_parsed_hands_mesh_and_options_to_renderer() {
    let mut m = Model::create(defaults());
    m.load_complete(vec![7]);
    m.update_dimension(Dimension::Width, "10");
    let mesh = nom_stl::Mesh::new(vec![]);
    let check = |mesh: &nom_stl::Mesh, o: &RenderOptions<f32>| -> Result<Vec<u8>, String> {
        assert_eq!(mesh.triangles().len(), 0);
        assert_eq!(o.width_pixels, 10);
        Ok(vec![9])
    };
    m.render_parsed(Some(mesh), &check, &handle_of);
    assert_eq!(m.image_url().as_str(), "blob:image/jpg:[9]");
}

#[test]
fn mime_type_names() {
    assert_eq!(MimeType::PNG.to_string(), "image/png");
    assert_eq!(MimeType::JPEG.to_string(), "image/jpg");
}

#[test]
fn end_to_end_session() {
    let mut m = Model::create(defaults());
    assert!(m.buffer().is_none());
    assert!(m.image_url().is_empty());
    assert!(m.update(Msg::FileSelection(1), &no_render, &no_handle));
    assert!(m.update(Msg::FileLoaded(one_triangle_stl()), &no_render, &no_handle));
    assert!(!m.buffer().unwrap().is_empty());
    assert_eq!(m.phase(), Phase::Ready);
    assert!(m.update(Msg::UpdateWidth("1024".to_string()), &no_render, &no_handle));
    assert_eq!(m.options().width_pixels, 1024);
    assert!(m.error().is_empty());
    assert!(m.update(Msg::Render, &ok_renderer, &handle_of));
    assert_eq!(m.image_url().as_str(), handle_of(&vec![1, 2, 3], MimeType::JPEG).unwrap().as_str());
    assert_eq!(m.phase(), Phase::Rendered);
}

#[test]
fn update_dispatches_every_command() {
    let mut m = Model::create(defaults());
    m.update(Msg::UpdateHeight("5".to_string()), &no_render, &no_handle);
    assert_eq!(m.options().height_pixels, 5);
    m.update(Msg::UpdateCoord(Vector::To, Axis::Z, Ok(8.0)), &no_render, &no_handle);
    assert_eq!(m.options().to.z, 8.0);
    m.update(Msg::Reset, &no_render, &no_handle);
    assert!(same(m.options(), defaults()));
}

#[test]
fn failed_conversion_is_an_error_and_keeps_image() {
    let mut m = Model::create(defaults());
    m.load_complete(one_triangle_stl());
    m.render(&ok_renderer, &handle_of);
    m.render(&ok_renderer, &refusing_handle);
    assert_eq!(m.error().as_str(), "out of memory");
    assert_eq!(m.image_url().as_str(), "blob:image/jpg:[1, 2, 3]");
    assert_eq!(m.phase(), Phase::Failed);
}

#[test]
fn failed_read_start_sets_error_only() {
    let mut m = Model::create(defaults());
    m.load_complete(vec![5]);
    assert!(m.update(Msg::ReadFailed("permission denied".to_string()), &no_render, &no_handle));
    assert_eq!(m.error().as_str(), "permission denied");
    assert_eq!(m.buffer(), Some(&vec![5]));
    assert_eq!(m.phase(), Phase::Ready);
    m.read_failed(String::new());
    assert_eq!(m.error().as_str(), "the file could not be read");
    assert!(same(m.options(), defaults()));
}
