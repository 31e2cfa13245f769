use vstd::prelude::*;
use crate::model::{rendered_by, rendered_from_file, Dimension, ModelView, Msg, Phase};
use crate::options::{dimension_of, Axis, RenderOptions, Vector};
use crate::render::{stl_accepts, MimeType};

verus! {

/// `trace` is a run of the session through `msgs`: each state follows from the
/// one before it by the message between them.
pub open spec fn is_run<C: Copy>(trace: Seq<ModelView<C>>, msgs: Seq<Msg<C>>) -> bool {
    &&& trace.len() == msgs.len() + 1
    &&& forall|i: int| 0 <= i < msgs.len() ==> #[trigger] trace[i].steps_to(msgs[i], trace[i + 1])
}

/// No message changes the defaults that a reset returns to.
pub proof fn step_keeps_defaults<C: Copy>(s: ModelView<C>, msg: Msg<C>, t: ModelView<C>)
    requires
        s.steps_to(msg, t),
    ensures
        t.defaults == s.defaults,
{
    if msg is Render {
        if exists|h: Seq<char>| t == s.render_succeeded(h) {
            let h = choose|h: Seq<char>| t == s.render_succeeded(h);
        } else if exists|e: Seq<char>| t == s.render_failed(e) {
            let e = choose|e: Seq<char>| t == s.render_failed(e);
        }
    }
}

/// Only a finished read changes the loaded file.
pub proof fn step_keeps_buffer<C: Copy>(s: ModelView<C>, msg: Msg<C>, t: ModelView<C>)
    requires
        s.steps_to(msg, t),
        !(msg is FileLoaded),
    ensures
        t.buffer == s.buffer,
{
    if msg is Render {
        if exists|h: Seq<char>| t == s.render_succeeded(h) {
            let h = choose|h: Seq<char>| t == s.render_succeeded(h);
        } else if exists|e: Seq<char>| t == s.render_failed(e) {
            let e = choose|e: Seq<char>| t == s.render_failed(e);
        }
    }
}

proof fn run_keeps_defaults<C: Copy>(trace: Seq<ModelView<C>>, msgs: Seq<Msg<C>>, n: int)
    requires
        is_run(trace, msgs),
        0 <= n <= msgs.len(),
    ensures
        trace[n].defaults == trace[0].defaults,
    decreases n,
{
    if n > 0 {
        run_keeps_defaults(trace, msgs, n - 1);
        let i = n - 1;
        assert(trace[i].steps_to(msgs[i], trace[i + 1]));
        step_keeps_defaults(trace[i], msgs[i], trace[i + 1]);
    }
}

/// A reset yields the same options whatever came before it: the defaults the
/// session started with.
pub proof fn reset_ignores_history<C: Copy>(trace: Seq<ModelView<C>>, msgs: Seq<Msg<C>>)
    requires
        is_run(trace, msgs),
    ensures
        trace.last().reset().options == trace[0].defaults,
{
    run_keeps_defaults(trace, msgs, msgs.len() as int);
}

proof fn run_keeps_load<C: Copy>(trace: Seq<ModelView<C>>, msgs: Seq<Msg<C>>, j: int, n: int)
    requires
        is_run(trace, msgs),
        0 <= j < n <= msgs.len(),
        msgs[j] is FileLoaded,
        forall|k: int| j < k < msgs.len() ==> !(#[trigger] msgs[k] is FileLoaded),
    ensures
        trace[n].buffer == Some(msgs[j]->FileLoaded_0@),
    decreases n,
{
    if n > j + 1 {
        run_keeps_load(trace, msgs, j, n - 1);
        let i = n - 1;
        assert(trace[i].steps_to(msgs[i], trace[i + 1]));
        step_keeps_buffer(trace[i], msgs[i], trace[i + 1]);
    } else {
        assert(trace[j].steps_to(msgs[j], trace[j + 1]));
    }
}

/// The last read to finish decides the loaded file: once the read of some bytes
/// has finished, and no read finishes after it, those bytes are loaded, whatever
/// reads were started before or after it and whatever else happened.
pub proof fn last_load_wins<C: Copy>(trace: Seq<ModelView<C>>, msgs: Seq<Msg<C>>, j: int)
    requires
        is_run(trace, msgs),
        0 <= j < msgs.len(),
        msgs[j] is FileLoaded,
        forall|k: int| j < k < msgs.len() ==> !(#[trigger] msgs[k] is FileLoaded),
    ensures
        trace.last().buffer == Some(msgs[j]->FileLoaded_0@),
{
    run_keeps_load(trace, msgs, j, msgs.len() as int);
}

/// A coordinate edit that reads as a number writes exactly that coordinate and
/// clears the error; one that does not leaves every option as it was and sets a
/// non-empty error. Nothing else about the session changes either way.
pub proof fn coord_edit_is_exact<C: Copy>(
    s: ModelView<C>,
    vector: Vector,
    axis: Axis,
    parsed: Result<C, Seq<char>>,
)
    ensures
        ({
            let t = s.coord_edited(vector, axis, parsed);
            &&& t == (ModelView { options: t.options, error: t.error, ..s })
            &&& match parsed {
                Ok(v) => {
                    &&& t.options.point(vector).coord(axis) == v
                    &&& forall|w: Vector, a: Axis|
                        !(w == vector && a == axis) ==> #[trigger] t.options.point(w).coord(a)
                            == s.options.point(w).coord(a)
                    &&& t.options.width_pixels == s.options.width_pixels
                    &&& t.options.height_pixels == s.options.height_pixels
                    &&& t.error.len() == 0
                },
                Err(_) => t.options == s.options && t.error.len() > 0,
            }
        }),
{
    reveal_strlit("not a number");
}

/// A width or height edit never fails the session: text that reads as a whole
/// number that fits writes exactly that dimension and clears the error; any other
/// text leaves every option as it was and sets a non-empty error.
pub proof fn dimension_edit_is_exact<C: Copy>(s: ModelView<C>, d: Dimension, text: Seq<char>)
    ensures
        ({
            let t = s.dimension_edited(d, text);
            &&& t == (ModelView { options: t.options, error: t.error, ..s })
            &&& t.options.from == s.options.from
            &&& t.options.to == s.options.to
            &&& match dimension_of(text) {
                Some(n) if n <= usize::MAX => {
                    &&& t.options.width_pixels == (if d == Dimension::Width { n } else { s.options.width_pixels as nat })
                    &&& t.options.height_pixels == (if d == Dimension::Height { n } else { s.options.height_pixels as nat })
                    &&& t.error.len() == 0
                },
                _ => t.options == s.options && t.error.len() > 0,
            }
        }),
{
    reveal_strlit("width must be a whole number of pixels");
    reveal_strlit("height must be a whole number of pixels");
}

/// Asking for a render with no file loaded changes nothing: no error, no image.
pub proof fn render_without_file_is_noop<C: Copy, R, U>(
    s: ModelView<C>,
    mesh: Option<nom_stl::Mesh>,
    renderer: R,
    to_handle: U,
    t: ModelView<C>,
)
    where
        R: Fn(&nom_stl::Mesh, &RenderOptions<C>) -> Result<Vec<u8>, String>,
        U: Fn(&Vec<u8>, MimeType) -> Result<String, String>,
    requires
        rendered_by(s, mesh, renderer, to_handle, t),
        s.buffer is None,
    ensures
        t == s,
{
}

/// A file that is no mesh sets the error and changes nothing else.
pub proof fn render_of_bad_mesh_only_sets_error<C: Copy, R, U>(
    s: ModelView<C>,
    renderer: R,
    to_handle: U,
    t: ModelView<C>,
)
    where
        R: Fn(&nom_stl::Mesh, &RenderOptions<C>) -> Result<Vec<u8>, String>,
        U: Fn(&Vec<u8>, MimeType) -> Result<String, String>,
    requires
        rendered_by(s, None, renderer, to_handle, t),
        s.buffer is Some,
    ensures
        t == (ModelView { error: t.error, ..s }),
        t.error.len() > 0,
{
    reveal_strlit("the file is not a readable STL mesh");
}

/// With a mesh and a renderer that succeeds on it, and a converter that succeeds
/// with non-empty handles, a render shows a non-empty image handle with no error.
pub proof fn render_success_shows_image<C: Copy, R, U>(
    s: ModelView<C>,
    m: nom_stl::Mesh,
    renderer: R,
    to_handle: U,
    t: ModelView<C>,
)
    where
        R: Fn(&nom_stl::Mesh, &RenderOptions<C>) -> Result<Vec<u8>, String>,
        U: Fn(&Vec<u8>, MimeType) -> Result<String, String>,
    requires
        rendered_by(s, Some(m), renderer, to_handle, t),
        s.buffer is Some,
        forall|out: Result<Vec<u8>, String>| #[trigger] renderer.ensures((&m, &s.options), out) ==> out is Ok,
        forall|b: &Vec<u8>, h: Result<String, String>| #[trigger] to_handle.ensures((b, MimeType::JPEG), h)
            ==> h is Ok && h->Ok_0@.len() > 0,
    ensures
        t.artifact.len() > 0,
        t.error.len() == 0,
        t.phase == Phase::Rendered,
        t.options == s.options,
        t.buffer == s.buffer,
{
    let out = choose|out: Result<Vec<u8>, String>|
        #[trigger] renderer.ensures((&m, &s.options), out) && match out {
            Ok(bytes) => exists|h: Result<String, String>|
                #[trigger] to_handle.ensures((&bytes, MimeType::JPEG), h) && match h {
                    Ok(handle) => t == s.render_succeeded(handle@),
                    Err(e) => t == s.render_failed(e@),
                },
            Err(e) => t == s.render_failed(e@),
        };
    let bytes = out->Ok_0;
    let h = choose|h: Result<String, String>|
        #[trigger] to_handle.ensures((&bytes, MimeType::JPEG), h) && match h {
            Ok(handle) => t == s.render_succeeded(handle@),
            Err(e) => t == s.render_failed(e@),
        };
}

/// With a mesh and a renderer that fails on it with `message`, a render shows
/// exactly that message, and leaves the options and the previous image as they were.
pub proof fn render_failure_keeps_image<C: Copy, R, U>(
    s: ModelView<C>,
    m: nom_stl::Mesh,
    renderer: R,
    to_handle: U,
    t: ModelView<C>,
    message: Seq<char>,
)
    where
        R: Fn(&nom_stl::Mesh, &RenderOptions<C>) -> Result<Vec<u8>, String>,
        U: Fn(&Vec<u8>, MimeType) -> Result<String, String>,
    requires
        rendered_by(s, Some(m), renderer, to_handle, t),
        s.buffer is Some,
        forall|out: Result<Vec<u8>, String>| #[trigger] renderer.ensures((&m, &s.options), out)
            ==> out is Err && out->Err_0@ == message,
    ensures
        t.error == message,
        t.options == s.options,
        t.artifact == s.artifact,
        t.phase == Phase::Failed,
        t.buffer == s.buffer,
{
}

/// A render of a loaded file that `nom_stl` accepts, by a renderer that succeeds
/// on every mesh and a converter that succeeds with non-empty handles, shows a
/// non-empty image handle with no error, and keeps the options and the file.
pub proof fn file_render_success_shows_image<C: Copy, R, U>(
    s: ModelView<C>,
    renderer: R,
    to_handle: U,
    t: ModelView<C>,
)
    where
        R: Fn(&nom_stl::Mesh, &RenderOptions<C>) -> Result<Vec<u8>, String>,
        U: Fn(&Vec<u8>, MimeType) -> Result<String, String>,
    requires
        rendered_from_file(s, renderer, to_handle, t),
        s.buffer is Some,
        stl_accepts(s.buffer->Some_0),
        forall|m: &nom_stl::Mesh, out: Result<Vec<u8>, String>|
            #[trigger] renderer.ensures((m, &s.options), out) ==> out is Ok,
        forall|b: &Vec<u8>, h: Result<String, String>| #[trigger] to_handle.ensures((b, MimeType::JPEG), h)
            ==> h is Ok && h->Ok_0@.len() > 0,
    ensures
        t.artifact.len() > 0,
        t.error.len() == 0,
        t.phase == Phase::Rendered,
        t.options == s.options,
        t.buffer == s.buffer,
{
    let mesh = choose|mesh: Option<nom_stl::Mesh>|
        #[trigger] rendered_by(s, mesh, renderer, to_handle, t)
            && (s.buffer is Some ==> (mesh is Some) == stl_accepts(s.buffer->Some_0));
    let m = mesh->Some_0;
    assert forall|out: Result<Vec<u8>, String>| #[trigger] renderer.ensures((&m, &s.options), out) implies out is Ok by {}
    render_success_shows_image(s, m, renderer, to_handle, t);
}

/// A render of a loaded file that `nom_stl` accepts, by a renderer that fails on
/// every mesh with `message`, shows exactly that message and keeps the options,
/// the file and the previous image.
pub proof fn file_render_failure_keeps_image<C: Copy, R, U>(
    s: ModelView<C>,
    renderer: R,
    to_handle: U,
    t: ModelView<C>,
    message: Seq<char>,
)
    where
        R: Fn(&nom_stl::Mesh, &RenderOptions<C>) -> Result<Vec<u8>, String>,
        U: Fn(&Vec<u8>, MimeType) -> Result<String, String>,
    requires
        rendered_from_file(s, renderer, to_handle, t),
        s.buffer is Some,
        stl_accepts(s.buffer->Some_0),
        forall|m: &nom_stl::Mesh, out: Result<Vec<u8>, String>|
            #[trigger] renderer.ensures((m, &s.options), out) ==> out is Err && out->Err_0@ == message,
    ensures
        t.error == message,
        t.options == s.options,
        t.artifact == s.artifact,
        t.phase == Phase::Failed,
        t.buffer == s.buffer,
{
    let mesh = choose|mesh: Option<nom_stl::Mesh>|
        #[trigger] rendered_by(s, mesh, renderer, to_handle, t)
            && (s.buffer is Some ==> (mesh is Some) == stl_accepts(s.buffer->Some_0));
    let m = mesh->Some_0;
    render_failure_keeps_image(s, m, renderer, to_handle, t, message);
}

} // verus!
