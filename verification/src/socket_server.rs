use vstd::prelude::*;

verus! {

use vstd::string::StringExecFns;
use vstd::string::StrSliceExecFns;
use crate::text::str_eq;
use crate::window::{apply_window_op, AppHandleModel, WindowModel, WindowOp};

/// A `POST /window` request body: the action to perform.
#[derive(Debug)]
pub struct WindowStateRequest {
    pub action: String,
}

/// A successful command's response body: a success flag and a
/// human-readable message.
#[derive(Debug)]
pub struct SocketResponse {
    pub success: bool,
    pub message: String,
}

/// The control server's shared view of the application: the shell's
/// handle once the shell has registered it. In the running application
/// this sits behind one exclusive lock, because window operations must
/// not be issued concurrently; a request is served against the state it
/// finds there.
#[derive(Debug)]
pub struct AppState {
    pub app_handle: Option<AppHandleModel>,
}

pub const STATUS_OK: u16 = 200;

pub const STATUS_BAD_REQUEST: u16 = 400;

pub const STATUS_INTERNAL_ERROR: u16 = 500;

pub const STATUS_SERVICE_UNAVAILABLE: u16 = 503;

/// A recognized window action of the control protocol. `restore` and
/// `unmaximize` name the same command.
#[derive(PartialEq, Eq, Structural, Debug, Clone, Copy)]
pub enum WindowCommand {
    Toggle,
    Maximize,
    Restore,
}

/// Which command, if any, an action string names.
pub open spec fn action_command(s: Seq<char>) -> Option<WindowCommand> {
    if s == "toggle"@ {
        Some(WindowCommand::Toggle)
    } else if s == "maximize"@ {
        Some(WindowCommand::Maximize)
    } else if s == "restore"@ || s == "unmaximize"@ {
        Some(WindowCommand::Restore)
    } else {
        None
    }
}

/// Reads an action string of the control protocol; anything unrecognized
/// is `None` and is answered 400.
pub fn parse_action(action: &str) -> (r: Option<WindowCommand>)
    ensures
        r == action_command(action@),
{
    if str_eq(action, "toggle") {
        Some(WindowCommand::Toggle)
    } else if str_eq(action, "maximize") {
        Some(WindowCommand::Maximize)
    } else if str_eq(action, "restore") || str_eq(action, "unmaximize") {
        Some(WindowCommand::Restore)
    } else {
        None
    }
}

/// The window operation a command performs on a window in the given
/// state: `toggle` maximizes a window that is not maximized and restores
/// one that is; the other commands force their operation.
pub open spec fn command_op_spec(cmd: WindowCommand, maximized: bool) -> WindowOp {
    match cmd {
        WindowCommand::Toggle => if maximized {
            WindowOp::Unmaximize
        } else {
            WindowOp::Maximize
        },
        WindowCommand::Maximize => WindowOp::Maximize,
        WindowCommand::Restore => WindowOp::Unmaximize,
    }
}

/// Decides the operation for a command against the reported window state.
pub fn command_op(cmd: WindowCommand, maximized: bool) -> (op: WindowOp)
    ensures
        op == command_op_spec(cmd, maximized),
{
    match cmd {
        WindowCommand::Toggle => if maximized {
            WindowOp::Unmaximize
        } else {
            WindowOp::Maximize
        },
        WindowCommand::Maximize => WindowOp::Maximize,
        WindowCommand::Restore => WindowOp::Unmaximize,
    }
}

/// The success message for a performed operation.
pub open spec fn op_message(op: WindowOp) -> Seq<char> {
    match op {
        WindowOp::Maximize => "Window maximized"@,
        WindowOp::Unmaximize => "Window restored"@,
    }
}

/// The response body for an operation that succeeded.
pub fn op_response(op: WindowOp) -> (r: SocketResponse)
    ensures
        r.success,
        r.message@ == op_message(op),
{
    match op {
        WindowOp::Maximize => SocketResponse {
            success: true,
            message: String::from_str("Window maximized"),
        },
        WindowOp::Unmaximize => SocketResponse {
            success: true,
            message: String::from_str("Window restored"),
        },
    }
}

/// The liveness probe's answer: `GET /health` is 200 with this body.
pub fn health_response() -> (r: String)
    ensures
        r@ == "OK"@,
{
    String::from_str("OK")
}

/// What serving one `POST /window` request does to the application
/// state, and what it answers: 503 while the shell has not yet registered
/// its handle, 500 when there is no main window, 400 for an unrecognized
/// action, and otherwise the decided window operation with a success body
/// naming what was done.
pub open spec fn window_request_transition(
    pre: AppState,
    post: AppState,
    action: Seq<char>,
    r: Result<SocketResponse, u16>,
) -> bool {
    match pre.app_handle {
        None => {
            &&& post.app_handle == pre.app_handle
            &&& r matches Err(c) && c == STATUS_SERVICE_UNAVAILABLE
        },
        Some(a) => match a.main_window {
            None => {
                &&& post.app_handle == pre.app_handle
                &&& r matches Err(c) && c == STATUS_INTERNAL_ERROR
            },
            Some(w) => match action_command(action) {
                None => {
                    &&& post.app_handle == pre.app_handle
                    &&& r matches Err(c) && c == STATUS_BAD_REQUEST
                },
                Some(cmd) => {
                    let op = command_op_spec(cmd, w.maximized);
                    &&& r matches Ok(resp) && resp.success && resp.message@ == op_message(op)
                    &&& post.app_handle == Some(
                        AppHandleModel {
                            main_window: Some(WindowModel { maximized: op is Maximize }),
                        },
                    )
                },
            },
        },
    }
}

/// Serves one `POST /window` request against the application state, as
/// `window_request_transition` gives it.
pub fn toggle_window_state(state: &mut AppState, req: &WindowStateRequest) -> (r: Result<
    SocketResponse,
    u16,
>)
    ensures
        window_request_transition(*old(state), *final(state), req.action@, r),
{
    match state.app_handle {
        None => Err(STATUS_SERVICE_UNAVAILABLE),
        Some(app) => match app.main_window {
            None => Err(STATUS_INTERNAL_ERROR),
            Some(w) => match parse_action(req.action.as_str()) {
                None => Err(STATUS_BAD_REQUEST),
                Some(cmd) => {
                    let op = command_op(cmd, w.maximized);
                    let mut window = w;
                    apply_window_op(&mut window, op);
                    state.app_handle = Some(AppHandleModel { main_window: Some(window) });
                    Ok(op_response(op))
                },
            },
        },
    }
}

/// The runtime directory for the control socket: the first of the
/// runtime-directory, TMP and TEMP environment values that is set, with
/// `/tmp` as the final fallback.
pub open spec fn chosen_runtime_dir(
    runtime_dir: Option<String>,
    tmp: Option<String>,
    temp: Option<String>,
) -> Seq<char> {
    match runtime_dir {
        Some(d) => d@,
        None => match tmp {
            Some(d) => d@,
            None => match temp {
                Some(d) => d@,
                None => "/tmp"@,
            },
        },
    }
}

/// The socket file's path under a directory: the fixed file name joined
/// to the directory, inserting a separator only where one is missing.
pub open spec fn socket_path_spec(dir: Seq<char>) -> Seq<char> {
    if dir.len() == 0 {
        "tauri-fastapi.sock"@
    } else if dir.last() == '/' {
        dir + "tauri-fastapi.sock"@
    } else {
        dir + "/"@ + "tauri-fastapi.sock"@
    }
}

/// The filesystem path the control socket is bound at, derived from the
/// runtime-directory environment values in their fallback order.
pub fn get_socket_path(runtime_dir: Option<String>, tmp: Option<String>, temp: Option<String>) -> (p:
    String)
    ensures
        p@ == socket_path_spec(chosen_runtime_dir(runtime_dir, tmp, temp)),
{
    let ghost dir_view = chosen_runtime_dir(runtime_dir, tmp, temp);
    let dir: String = match runtime_dir {
        Some(d) => d,
        None => match tmp {
            Some(d) => d,
            None => match temp {
                Some(d) => d,
                None => String::from_str("/tmp"),
            },
        },
    };
    let len = dir.as_str().unicode_len();
    if len == 0 {
        return String::from_str("tauri-fastapi.sock");
    }
    let last = dir.as_str().get_char(len - 1);
    let mut p = dir;
    if last != '/' {
        p.append("/");
    }
    p.append("tauri-fastapi.sock");
    proof {
        assert(p@ =~= socket_path_spec(dir_view));
    }
    p
}

/// Where the control server's lifecycle stands. The phases run one way:
/// any stale socket file is removed first, only then is the listener
/// bound; a shutdown signal drains in-flight requests; the socket file is
/// removed again before the lifecycle closes.
#[derive(PartialEq, Eq, Structural, Debug, Clone, Copy)]
pub enum ServerPhase {
    Fresh,
    StaleCleared,
    Bound,
    Draining,
    Closed,
}

/// The one outside step each phase calls for.
#[derive(PartialEq, Eq, Structural, Debug, Clone, Copy)]
pub enum ServerStep {
    /// Remove whatever file a prior unclean shutdown left at the socket
    /// path.
    RemoveStaleFile,
    /// Bind the listener at the socket path.
    BindListener,
    /// Accept and serve connections until a shutdown signal arrives,
    /// letting in-flight requests finish.
    ServeUntilShutdown,
    /// Remove the socket file.
    RemoveSocketFile,
    /// Nothing; the lifecycle is over.
    Idle,
}

/// The step a phase calls for.
pub open spec fn step_of(p: ServerPhase) -> ServerStep {
    match p {
        ServerPhase::Fresh => ServerStep::RemoveStaleFile,
        ServerPhase::StaleCleared => ServerStep::BindListener,
        ServerPhase::Bound => ServerStep::ServeUntilShutdown,
        ServerPhase::Draining => ServerStep::RemoveSocketFile,
        ServerPhase::Closed => ServerStep::Idle,
    }
}

/// The phase after a phase's step is done.
pub open spec fn next_phase(p: ServerPhase) -> ServerPhase {
    match p {
        ServerPhase::Fresh => ServerPhase::StaleCleared,
        ServerPhase::StaleCleared => ServerPhase::Bound,
        ServerPhase::Bound => ServerPhase::Draining,
        ServerPhase::Draining => ServerPhase::Closed,
        ServerPhase::Closed => ServerPhase::Closed,
    }
}

/// The control server's lifecycle, driven step by step: the machine names
/// the next outside step, the caller performs it and advances.
pub struct SocketLifecycle {
    pub phase: ServerPhase,
}

impl SocketLifecycle {
    pub fn new() -> (lc: SocketLifecycle)
        ensures
            lc.phase is Fresh,
    {
        SocketLifecycle { phase: ServerPhase::Fresh }
    }

    /// The next outside step the server must perform.
    pub fn next_action(&self) -> (a: ServerStep)
        ensures
            a == step_of(self.phase),
    {
        match self.phase {
            ServerPhase::Fresh => ServerStep::RemoveStaleFile,
            ServerPhase::StaleCleared => ServerStep::BindListener,
            ServerPhase::Bound => ServerStep::ServeUntilShutdown,
            ServerPhase::Draining => ServerStep::RemoveSocketFile,
            ServerPhase::Closed => ServerStep::Idle,
        }
    }

    /// Records that the named step was performed.
    pub fn advance(&mut self)
        ensures
            final(self).phase == next_phase(old(self).phase),
    {
        self.phase = match self.phase {
            ServerPhase::Fresh => ServerPhase::StaleCleared,
            ServerPhase::StaleCleared => ServerPhase::Bound,
            ServerPhase::Bound => ServerPhase::Draining,
            ServerPhase::Draining => ServerPhase::Closed,
            ServerPhase::Closed => ServerPhase::Closed,
        };
    }
}

/// The socket-file discipline of the lifecycle: the listener is bound
/// only from the phase that removing a stale socket file reaches, that
/// phase is reached only by removing the stale file, and a lifecycle
/// closes only right after the socket file was removed again — so a
/// pre-existing file is gone before bind, and the path is clear after a
/// clean shutdown.
pub proof fn lemma_socket_file_discipline(p: ServerPhase)
    ensures
        step_of(p) == ServerStep::BindListener ==> p == ServerPhase::StaleCleared,
        next_phase(p) == ServerPhase::StaleCleared ==> step_of(p) == ServerStep::RemoveStaleFile,
        (next_phase(p) == ServerPhase::Closed && p != ServerPhase::Closed) ==> step_of(p)
            == ServerStep::RemoveSocketFile,
{
}

} // verus!
