use vstd::prelude::*;

verus! {

use vstd::string::StringExecFns;

/// The observable state of the shell's main window, as the window
/// subsystem reports and changes it.
#[derive(PartialEq, Eq, Structural, Debug, Clone, Copy)]
pub struct WindowModel {
    pub maximized: bool,
}

/// The shell's application handle: a main window, when the shell has one.
#[derive(PartialEq, Eq, Structural, Debug, Clone, Copy)]
pub struct AppHandleModel {
    pub main_window: Option<WindowModel>,
}

/// An idempotent window operation of the control protocol.
#[derive(PartialEq, Eq, Structural, Debug, Clone, Copy)]
pub enum WindowOp {
    Maximize,
    Unmaximize,
}

/// Performs one window operation on the model window: after it, the
/// window is maximized exactly when the operation was `Maximize`.
pub fn apply_window_op(w: &mut WindowModel, op: WindowOp)
    ensures
        final(w).maximized == (op is Maximize),
{
    w.maximized = match op {
        WindowOp::Maximize => true,
        WindowOp::Unmaximize => false,
    };
}

/// The shell's own maximize-toggle command: maximizes the main window
/// when it is not maximized and restores it when it is; with no main
/// window it fails, changing nothing.
pub fn toggle_window_maximize(app: &mut AppHandleModel) -> (r: Result<(), String>)
    ensures
        old(app).main_window matches Some(w) ==> r is Ok && final(app).main_window == Some(
            WindowModel { maximized: !w.maximized },
        ),
        old(app).main_window is None ==> (r matches Err(m) && m@ == "Main window not found"@
            && *final(app) == *old(app)),
{
    match app.main_window {
        Some(w) => {
            let op = if w.maximized {
                WindowOp::Unmaximize
            } else {
                WindowOp::Maximize
            };
            let mut window = w;
            apply_window_op(&mut window, op);
            app.main_window = Some(window);
            Ok(())
        },
        None => Err(String::from_str("Main window not found")),
    }
}

} // verus!
