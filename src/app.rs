use vstd::prelude::*;
use crate::state::{FramePlan, KeyCode, Recovery, State, SurfaceError, is_recoverable};

verus! {

/// Inner width of the window the application opens.
pub const WINDOW_WIDTH: u32 = 800;

/// Inner height of the window the application opens.
pub const WINDOW_HEIGHT: u32 = 600;

/// The window events the application reacts to.
#[derive(Clone, Copy, Debug, PartialEq, Eq)]
pub enum WindowEvent {
    CloseRequested,
    Resized { width: u32, height: u32 },
    RedrawRequested,
    KeyboardInput { code: KeyCode, pressed: bool },
    Other,
}

/// What the event loop is to do after an event.
#[derive(Clone, Copy, Debug, PartialEq, Eq)]
pub enum Command {
    Nothing,
    /// Stop the event loop.
    Exit,
    /// Configure the surface with this size.
    ConfigureSurface { width: u32, height: u32 },
    /// Draw this frame and present it.
    Render(FramePlan),
    /// Report a frame that failed for this reason.
    Report(SurfaceError),
}

/// The command that an event on a running state yields.
pub open spec fn event_command(s: State, e: WindowEvent) -> Command {
    match e {
        WindowEvent::CloseRequested => Command::Exit,
        WindowEvent::Resized { width, height } => if width > 0 && height > 0 {
            Command::ConfigureSurface { width, height }
        } else {
            Command::Nothing
        },
        WindowEvent::RedrawRequested => match s.plan() {
            Some(p) => Command::Render(p),
            None => Command::Nothing,
        },
        WindowEvent::KeyboardInput { code, pressed } => if code == KeyCode::Escape && pressed {
            Command::Exit
        } else {
            Command::Nothing
        },
        WindowEvent::Other => Command::Nothing,
    }
}

/// The state that an event leaves behind: only a resize changes it.
pub open spec fn event_state(s: State, e: WindowEvent) -> State {
    match e {
        WindowEvent::Resized { width, height } => s.resized(width, height),
        _ => s,
    }
}

/// The command that a failed frame yields.
pub open spec fn failure_command(e: SurfaceError, width: u32, height: u32) -> Command {
    if is_recoverable(e) {
        if width > 0 && height > 0 {
            Command::ConfigureSurface { width, height }
        } else {
            Command::Nothing
        }
    } else {
        Command::Report(e)
    }
}

/// The application: a window title and, once the window exists, the rendering state.
pub struct App {
    pub state: Option<State>,
    pub title: Option<String>,
}

impl App {
    pub fn new(title: Option<String>) -> (r: App)
        ensures
            r.state is None,
            r.title == title,
    {
        App { state: None, title }
    }

    /// The title of the window: the one given, else "WGPU Application".
    pub fn window_title(&self) -> (r: String)
        ensures
            self.title matches Some(t) ==> r@ == t@,
            self.title is None ==> r@ == "WGPU Application"@,
    {
        match &self.title {
            Some(t) => t.clone(),
            None => "WGPU Application".to_owned(),
        }
    }

    /// The window now exists and measures `width` × `height`: the rendering state
    /// starts, with its surface not yet configured.
    pub fn resumed(&mut self, width: u32, height: u32)
        ensures
            final(self).state == Some(State::new_spec(width, height)),
            final(self).title == old(self).title,
    {
        self.state = Some(State::new(width, height));
    }

    /// Reacts to a window event. Before the window exists every event is ignored.
    pub fn window_event(&mut self, event: WindowEvent) -> (r: Command)
        ensures
            final(self).title == old(self).title,
            old(self).state is None ==> final(self).state is None && r == Command::Nothing,
            old(self).state matches Some(s) ==> final(self).state == Some(event_state(s, event))
                && r == event_command(s, event),
    {
        match &mut self.state {
            None => Command::Nothing,
            Some(state) => match event {
                WindowEvent::CloseRequested => Command::Exit,
                WindowEvent::Resized { width, height } => {
                    if state.resize(width, height) {
                        Command::ConfigureSurface { width, height }
                    } else {
                        Command::Nothing
                    }
                },
                WindowEvent::RedrawRequested => {
                    state.update();
                    match state.render() {
                        Some(p) => Command::Render(p),
                        None => Command::Nothing,
                    }
                },
                WindowEvent::KeyboardInput { code, pressed } => {
                    if state.handle_key(code, pressed) {
                        Command::Exit
                    } else {
                        Command::Nothing
                    }
                },
                WindowEvent::Other => Command::Nothing,
            },
        }
    }

    /// Reacts to a frame that failed with `e` while the window measured
    /// `width` × `height`; the frame itself is skipped.
    pub fn frame_failed(&mut self, e: SurfaceError, width: u32, height: u32) -> (r: Command)
        ensures
            final(self).title == old(self).title,
            old(self).state is None ==> final(self).state is None && r == Command::Nothing,
            old(self).state matches Some(s) ==> final(self).state == Some(
                s.after_failure(e, width, height),
            ) && r == failure_command(e, width, height),
    {
        match &mut self.state {
            None => Command::Nothing,
            Some(state) => match state.recover(e, width, height) {
                Recovery::Reconfigure { width, height } => Command::ConfigureSurface {
                    width,
                    height,
                },
                Recovery::Report(e) => Command::Report(e),
                Recovery::Skip => Command::Nothing,
            },
        }
    }
}

/// A press of Escape stops the event loop; any other key event, and a release of
/// Escape, leaves the state as it was and asks for nothing.
pub proof fn lemma_keys(s: State, code: KeyCode, pressed: bool)
    ensures
        event_state(s, WindowEvent::KeyboardInput { code, pressed }) == s,
        event_command(s, WindowEvent::KeyboardInput { code, pressed }) == if code
            == KeyCode::Escape && pressed {
            Command::Exit
        } else {
            Command::Nothing
        },
{
}

/// A lost or outdated surface on one frame is survived: the application asks for
/// the surface to be configured again with the window's size, and the next redraw
/// renders a frame over that size.
pub proof fn lemma_lost_frame_then_redraw(s: State, e: SurfaceError, width: u32, height: u32)
    requires
        s.is_surface_configured,
        is_recoverable(e),
        width > 0,
        height > 0,
    ensures
        failure_command(e, width, height) == (Command::ConfigureSurface { width, height }),
        event_command(s.after_failure(e, width, height), WindowEvent::RedrawRequested)
            matches Command::Render(p) && p.width == width && p.height == height,
{
}

} // verus!
