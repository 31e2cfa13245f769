use vstd::prelude::*;
use crate::options::{dimension_of, parse_dimension, Axis, RenderOptions, Vector};
use crate::render::{parse_mesh, stl_accepts, MimeType};

verus! {

/// Where the session stands with respect to its model file and the last render.
#[derive(Clone, Copy, Debug, PartialEq, Eq, Structural)]
pub enum Phase {
    /// No file has been loaded yet.
    Idle,
    /// A file is loaded; it has not been rendered since it arrived.
    Ready,
    /// The latest render succeeded.
    Rendered,
    /// The latest render failed.
    Failed,
}

/// Which image dimension a command edits.
#[derive(Clone, Copy, Debug, PartialEq, Eq, Structural)]
pub enum Dimension {
    Width,
    Height,
}

/// The commands and events that drive a session.
pub enum Msg<C> {
    /// The user picked this many files; one read is started for each.
    FileSelection(usize),
    /// A read finished with these bytes.
    FileLoaded(Vec<u8>),
    /// A read could not be started, for this reason.
    ReadFailed(String),
    /// Render the loaded file with the current options.
    Render,
    /// New text in the width field.
    UpdateWidth(String),
    /// New text in the height field.
    UpdateHeight(String),
    /// New text in a coordinate field, already read as a number, or the reason
    /// it could not be.
    UpdateCoord(Vector, Axis, Result<C, String>),
    /// Go back to the default options.
    Reset,
}

/// What a session is, as the contracts see it.
pub struct ModelView<C> {
    pub defaults: RenderOptions<C>,
    pub options: RenderOptions<C>,
    pub pending_loads: nat,
    pub buffer: Option<Seq<u8>>,
    pub phase: Phase,
    pub artifact: Seq<char>,
    pub error: Seq<char>,
}

/// Error text for a coordinate whose reader gave no reason.
pub open spec fn number_error() -> Seq<char> {
    "not a number"@
}

pub open spec fn dimension_error(d: Dimension) -> Seq<char> {
    match d {
        Dimension::Width => "width must be a whole number of pixels"@,
        Dimension::Height => "height must be a whole number of pixels"@,
    }
}

/// Error text for a read that could not be started and gave no reason.
pub open spec fn read_error() -> Seq<char> {
    "the file could not be read"@
}

pub open spec fn mesh_error() -> Seq<char> {
    "the file is not a readable STL mesh"@
}

impl<C: Copy> ModelView<C> {
    /// The phase says "idle" exactly when no file is loaded.
    pub open spec fn inv(self) -> bool {
        (self.phase == Phase::Idle) == (self.buffer is None)
    }

    /// A coordinate edit: the number is written and the error cleared, or the
    /// options stay as they are and the reason is shown.
    pub open spec fn coord_edited(self, vector: Vector, axis: Axis, parsed: Result<C, Seq<char>>) -> Self {
        match parsed {
            Ok(v) => ModelView { options: self.options.with_coord(vector, axis, v), error: Seq::empty(), ..self },
            Err(e) => ModelView { error: if e.len() > 0 { e } else { number_error() }, ..self },
        }
    }

    /// The options with one dimension replaced.
    pub open spec fn with_dimension(self, d: Dimension, n: usize) -> RenderOptions<C> {
        match d {
            Dimension::Width => RenderOptions { width_pixels: n, ..self.options },
            Dimension::Height => RenderOptions { height_pixels: n, ..self.options },
        }
    }

    /// A width or height edit: a whole number that fits is written and the error
    /// cleared; any other text leaves the options as they are and sets the error.
    pub open spec fn dimension_edited(self, d: Dimension, text: Seq<char>) -> Self {
        match dimension_of(text) {
            Some(n) if n <= usize::MAX => ModelView {
                options: self.with_dimension(d, n as usize),
                error: Seq::empty(),
                ..self
            },
            _ => ModelView { error: dimension_error(d), ..self },
        }
    }

    pub open spec fn reset(self) -> Self {
        ModelView { options: self.defaults, ..self }
    }

    /// `count` more reads are outstanding (the count stops at `usize::MAX`).
    pub open spec fn files_selected(self, count: nat) -> Self {
        let n = self.pending_loads + count;
        ModelView { pending_loads: if n > usize::MAX { usize::MAX as nat } else { n }, ..self }
    }

    /// A read finished: its bytes replace whatever was loaded before.
    pub open spec fn loaded(self, bytes: Seq<u8>) -> Self {
        ModelView {
            pending_loads: if self.pending_loads > 0 { (self.pending_loads - 1) as nat } else { 0 },
            buffer: Some(bytes),
            phase: Phase::Ready,
            ..self
        }
    }

    /// A read could not be started: the reason is shown, nothing else changes.
    pub open spec fn read_failed(self, reason: Seq<char>) -> Self {
        ModelView { error: if reason.len() > 0 { reason } else { read_error() }, ..self }
    }

    /// The loaded file could not be read as a mesh.
    pub open spec fn mesh_rejected(self) -> Self {
        ModelView { error: mesh_error(), ..self }
    }

    /// The renderer produced an image, now shown through `handle`.
    pub open spec fn render_succeeded(self, handle: Seq<char>) -> Self {
        ModelView { artifact: handle, error: Seq::empty(), phase: Phase::Rendered, ..self }
    }

    /// The renderer failed with `message`; the previous image stays.
    pub open spec fn render_failed(self, message: Seq<char>) -> Self {
        ModelView { error: message, phase: Phase::Failed, ..self }
    }

    /// The outcomes a render may have, whatever the renderer does.
    pub open spec fn render_outcome(self, t: Self) -> bool {
        ||| t == self && self.buffer is None
        ||| t == self.mesh_rejected()
        ||| exists|h: Seq<char>| t == self.render_succeeded(h)
        ||| exists|e: Seq<char>| t == self.render_failed(e)
    }

    /// `t` is a state that `msg` may lead to from this one.
    pub open spec fn steps_to(self, msg: Msg<C>, t: Self) -> bool {
        match msg {
            Msg::FileSelection(n) => t == self.files_selected(n as nat),
            Msg::FileLoaded(b) => t == self.loaded(b@),
            Msg::ReadFailed(reason) => t == self.read_failed(reason@),
            Msg::Render => self.render_outcome(t),
            Msg::UpdateWidth(text) => t == self.dimension_edited(Dimension::Width, text@),
            Msg::UpdateHeight(text) => t == self.dimension_edited(Dimension::Height, text@),
            Msg::UpdateCoord(vector, axis, parsed) => t == self.coord_edited(
                vector,
                axis,
                match parsed {
                    Ok(v) => Ok(v),
                    Err(e) => Err(e@),
                },
            ),
            Msg::Reset => t == self.reset(),
        }
    }
}

/// The state after a render of `s` whose file was read as `mesh`: the renderer
/// is handed the mesh and the current options; on success its bytes go to the
/// handle converter as a JPEG image. A failure of either is shown as the error.
pub open spec fn rendered_by<C: Copy, R, U>(
    s: ModelView<C>,
    mesh: Option<nom_stl::Mesh>,
    renderer: R,
    to_handle: U,
    t: ModelView<C>,
) -> bool where
    R: Fn(&nom_stl::Mesh, &RenderOptions<C>) -> Result<Vec<u8>, String>,
    U: Fn(&Vec<u8>, MimeType) -> Result<String, String>,
 {
    if s.buffer is None {
        t == s
    } else {
        match mesh {
            None => t == s.mesh_rejected(),
            Some(m) => exists|out: Result<Vec<u8>, String>|
                #[trigger] renderer.ensures((&m, &s.options), out) && match out {
                    Ok(bytes) => exists|h: Result<String, String>|
                        #[trigger] to_handle.ensures((&bytes, MimeType::JPEG), h) && match h {
                            Ok(handle) => t == s.render_succeeded(handle@),
                            Err(e) => t == s.render_failed(e@),
                        },
                    Err(e) => t == s.render_failed(e@),
                },
        }
    }
}

/// The state after a render of `s` that read its loaded file itself: the file
/// reaches the renderer as a mesh exactly when `nom_stl` accepts it.
pub open spec fn rendered_from_file<C: Copy, R, U>(
    s: ModelView<C>,
    renderer: R,
    to_handle: U,
    t: ModelView<C>,
) -> bool where
    R: Fn(&nom_stl::Mesh, &RenderOptions<C>) -> Result<Vec<u8>, String>,
    U: Fn(&Vec<u8>, MimeType) -> Result<String, String>,
 {
    exists|mesh: Option<nom_stl::Mesh>|
        #[trigger] rendered_by(s, mesh, renderer, to_handle, t)
            && (s.buffer is Some ==> (mesh is Some) == stl_accepts(s.buffer->Some_0))
}

/// One render session: the parameters being edited, the loaded model file, and
/// what is shown to the user (the last error and the last rendered image).
pub struct Model<C> {
    defaults: RenderOptions<C>,
    options: RenderOptions<C>,
    pending_loads: usize,
    stl: Option<Vec<u8>>,
    phase: Phase,
    image_url: String,
    error: String,
}

impl<C: Copy> View for Model<C> {
    type V = ModelView<C>;

    closed spec fn view(&self) -> ModelView<C> {
        ModelView {
            defaults: self.defaults,
            options: self.options,
            pending_loads: self.pending_loads as nat,
            buffer: match self.stl {
                Some(b) => Some(b@),
                None => None,
            },
            phase: self.phase,
            artifact: self.image_url@,
            error: self.error@,
        }
    }
}

impl<C: Copy> Model<C> {
    /// A fresh session: no file, no image, no error, and the options at `defaults`,
    /// which `reset` will return to.
    pub fn create(defaults: RenderOptions<C>) -> (m: Self)
        ensures
            m@.defaults == defaults,
            m@.options == defaults,
            m@.pending_loads == 0,
            m@.buffer is None,
            m@.phase == Phase::Idle,
            m@.artifact.len() == 0,
            m@.error.len() == 0,
            m@.inv(),
    {
        Model {
            defaults,
            options: defaults,
            pending_loads: 0,
            stl: None,
            phase: Phase::Idle,
            image_url: String::new(),
            error: String::new(),
        }
    }

    /// Applies a coordinate edit whose text was read as `parsed`: on `Ok` exactly
    /// that coordinate changes and the error is cleared; on `Err` no option changes
    /// and the error holds the reason (never empty).
    pub fn update_coord(&mut self, vector: Vector, axis: Axis, parsed: Result<C, String>)
        requires
            old(self)@.inv(),
        ensures
            final(self)@ == old(self)@.coord_edited(
                vector,
                axis,
                match parsed {
                    Ok(v) => Ok(v),
                    Err(e) => Err(e@),
                },
            ),
            final(self)@.inv(),
    {
        match parsed {
            Ok(v) => {
                self.options.set_coord(vector, axis, v);
                self.error = String::new();
            },
            Err(e) => {
                if !e.as_str().is_empty() {
                    self.error = e;
                } else {
                    self.error = "not a number".to_owned();
                }
            },
        }
    }

    /// Applies an edit of the width or height field: text that reads as a whole
    /// number of pixels is written and the error cleared; any other text leaves the
    /// options unchanged and sets the error. Never fails the session.
    pub fn update_dimension(&mut self, d: Dimension, text: &str)
        requires
            old(self)@.inv(),
        ensures
            final(self)@ == old(self)@.dimension_edited(d, text@),
            final(self)@.inv(),
    {
        match parse_dimension(text) {
            Some(n) => {
                match d {
                    Dimension::Width => self.options.width_pixels = n,
                    Dimension::Height => self.options.height_pixels = n,
                }
                self.error = String::new();
            },
            None => {
                self.error = match d {
                    Dimension::Width => "width must be a whole number of pixels".to_owned(),
                    Dimension::Height => "height must be a whole number of pixels".to_owned(),
                };
            },
        }
    }

    /// Puts every option back to the session's defaults; nothing else changes.
    pub fn reset(&mut self)
        requires
            old(self)@.inv(),
        ensures
            final(self)@ == old(self)@.reset(),
            final(self)@.inv(),
    {
        self.options = self.defaults;
    }

    /// Records that one read was started for each of `count` selected files.
    pub fn select_files(&mut self, count: usize)
        requires
            old(self)@.inv(),
        ensures
            final(self)@ == old(self)@.files_selected(count as nat),
            final(self)@.inv(),
    {
        self.pending_loads = self.pending_loads.saturating_add(count);
    }

    /// A read finished: `bytes` replace the loaded file, whichever read was
    /// started first, and the session is ready to render.
    pub fn load_complete(&mut self, bytes: Vec<u8>)
        requires
            old(self)@.inv(),
        ensures
            final(self)@ == old(self)@.loaded(bytes@),
            final(self)@.inv(),
    {
        if self.pending_loads > 0 {
            self.pending_loads = self.pending_loads - 1;
        }
        self.stl = Some(bytes);
        self.phase = Phase::Ready;
    }

    /// Records that a read could not be started: `reason` (or, if it is empty, a
    /// fixed text) becomes the error; nothing else changes.
    pub fn read_failed(&mut self, reason: String)
        requires
            old(self)@.inv(),
        ensures
            final(self)@ == old(self)@.read_failed(reason@),
            final(self)@.inv(),
    {
        if !reason.as_str().is_empty() {
            self.error = reason;
        } else {
            self.error = "the file could not be read".to_owned();
        }
    }

    /// Renders the loaded file, already read as `mesh`, with the current options.
    /// Without a loaded file nothing changes. A file that is no mesh sets the error
    /// and nothing else. Otherwise the renderer is called once; its image goes to
    /// `to_handle` as a JPEG and the handle is shown with the error cleared. If the
    /// renderer or the converter fails, its message becomes the error and the
    /// previous image stays. The options never change.
    pub fn render_parsed<R, U>(&mut self, mesh: Option<nom_stl::Mesh>, renderer: &R, to_handle: &U)
        where
            R: Fn(&nom_stl::Mesh, &RenderOptions<C>) -> Result<Vec<u8>, String>,
            U: Fn(&Vec<u8>, MimeType) -> Result<String, String>,
        requires
            old(self)@.inv(),
            forall|m: &nom_stl::Mesh, o: &RenderOptions<C>| renderer.requires((m, o)),
            forall|b: &Vec<u8>, t: MimeType| to_handle.requires((b, t)),
        ensures
            rendered_by(old(self)@, mesh, *renderer, *to_handle, final(self)@),
            old(self)@.render_outcome(final(self)@),
            final(self)@.inv(),
    {
        if self.stl.is_none() {
            return;
        }
        match mesh {
            None => {
                self.error = "the file is not a readable STL mesh".to_owned();
            },
            Some(m) => {
                let out = renderer(&m, &self.options);
                match out {
                    Ok(bytes) => {
                        match to_handle(&bytes, MimeType::JPEG) {
                            Ok(handle) => {
                                self.image_url = handle;
                                self.error = String::new();
                                self.phase = Phase::Rendered;
                            },
                            Err(e) => {
                                self.error = e;
                                self.phase = Phase::Failed;
                            },
                        }
                    },
                    Err(e) => {
                        self.error = e;
                        self.phase = Phase::Failed;
                    },
                }
            },
        }
    }

    /// Renders the loaded file with the current options: the file is read as an
    /// STL mesh (which succeeds exactly when `nom_stl` accepts it) and the rest is
    /// as `render_parsed` says. Returns whether a file was
    /// loaded, that is whether anything may have changed.
    pub fn render<R, U>(&mut self, renderer: &R, to_handle: &U) -> (redraw: bool)
        where
            R: Fn(&nom_stl::Mesh, &RenderOptions<C>) -> Result<Vec<u8>, String>,
            U: Fn(&Vec<u8>, MimeType) -> Result<String, String>,
        requires
            old(self)@.inv(),
            forall|m: &nom_stl::Mesh, o: &RenderOptions<C>| renderer.requires((m, o)),
            forall|b: &Vec<u8>, t: MimeType| to_handle.requires((b, t)),
        ensures
            redraw == (old(self)@.buffer is Some),
            !redraw ==> final(self)@ == old(self)@,
            rendered_from_file(old(self)@, *renderer, *to_handle, final(self)@),
            old(self)@.render_outcome(final(self)@),
            final(self)@.inv(),
    {
        let mesh = match &self.stl {
            None => {
                assert(rendered_by(old(self)@, None, *renderer, *to_handle, self@));
                return false;
            },
            Some(bytes) => parse_mesh(bytes),
        };
        self.render_parsed(mesh, renderer, to_handle);
        true
    }
    /// Handles one command or event and returns whether the view needs to be
    /// drawn again (always, but for a render with no file loaded). Rendering
    /// uses `renderer` and `to_handle` as `render` does.
    pub fn update<R, U>(&mut self, msg: Msg<C>, renderer: &R, to_handle: &U) -> (redraw: bool)
        where
            R: Fn(&nom_stl::Mesh, &RenderOptions<C>) -> Result<Vec<u8>, String>,
            U: Fn(&Vec<u8>, MimeType) -> Result<String, String>,
        requires
            old(self)@.inv(),
            forall|m: &nom_stl::Mesh, o: &RenderOptions<C>| renderer.requires((m, o)),
            forall|b: &Vec<u8>, t: MimeType| to_handle.requires((b, t)),
        ensures
            old(self)@.steps_to(msg, final(self)@),
            msg is Render ==> rendered_from_file(old(self)@, *renderer, *to_handle, final(self)@),
            redraw == !(msg is Render && old(self)@.buffer is None),
            final(self)@.inv(),
    {
        match msg {
            Msg::FileSelection(count) => {
                self.select_files(count);
                true
            },
            Msg::FileLoaded(bytes) => {
                self.load_complete(bytes);
                true
            },
            Msg::ReadFailed(reason) => {
                self.read_failed(reason);
                true
            },
            Msg::Render => self.render(renderer, to_handle),
            Msg::UpdateWidth(text) => {
                self.update_dimension(Dimension::Width, text.as_str());
                true
            },
            Msg::UpdateHeight(text) => {
                self.update_dimension(Dimension::Height, text.as_str());
                true
            },
            Msg::UpdateCoord(vector, axis, parsed) => {
                self.update_coord(vector, axis, parsed);
                true
            },
            Msg::Reset => {
                self.reset();
                true
            },
        }
    }
    /// The options the next render will use.
    pub fn options(&self) -> (r: RenderOptions<C>)
        ensures
            r == self@.options,
    {
        self.options
    }

    /// The options that `reset` returns to.
    pub fn defaults(&self) -> (r: RenderOptions<C>)
        ensures
            r == self@.defaults,
    {
        self.defaults
    }

    /// The loaded file, if any.
    pub fn buffer(&self) -> (r: Option<&Vec<u8>>)
        ensures
            match r {
                Some(b) => self@.buffer == Some(b@),
                None => self@.buffer is None,
            },
    {
        match &self.stl {
            Some(b) => Some(b),
            None => None,
        }
    }

    /// The number of reads started and not yet finished.
    pub fn pending_loads(&self) -> (r: usize)
        ensures
            r == self@.pending_loads,
    {
        self.pending_loads
    }

    pub fn phase(&self) -> (r: Phase)
        ensures
            r == self@.phase,
    {
        self.phase
    }

    /// The last error, empty when the last edit or render succeeded.
    pub fn error(&self) -> (r: &String)
        ensures
            r@ == self@.error,
    {
        &self.error
    }

    /// The handle of the last rendered image, empty before the first success.
    pub fn image_url(&self) -> (r: &String)
        ensures
            r@ == self@.artifact,
    {
        &self.image_url
    }
}

} // verus!
