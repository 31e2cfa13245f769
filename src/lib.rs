//! Controller for an interactive mesh-render session: it holds the render
//! parameters, the most recently loaded model file, the last error and the last
//! rendered image handle, and decides how each user command changes them.

mod options;
mod render;
mod model;
mod laws;

pub use options::{dimension_of, Axis, Point, RenderOptions, Vector};
pub use laws::{
    coord_edit_is_exact, dimension_edit_is_exact, file_render_failure_keeps_image,
    file_render_success_shows_image, is_run, last_load_wins,
    render_failure_keeps_image, render_of_bad_mesh_only_sets_error, render_success_shows_image,
    render_without_file_is_noop, reset_ignores_history, step_keeps_buffer, step_keeps_defaults,
};
pub use model::{
    dimension_error, mesh_error, number_error, read_error, rendered_by, rendered_from_file, Dimension, Model, ModelView, Msg, Phase,
};
pub use render::{stl_accepts, MimeType};
