//! The windows: which are shown and hidden, and in which order.
use vstd::prelude::*;

verus! {

/// Whether the overlay is left out of what others see of the screen.
#[derive(Debug, Clone, Copy, PartialEq, Eq, Structural)]
pub struct OverlayCaptureStatus {
    pub excluded: bool,
}

/// The answer to the start of a session.
#[derive(Debug, Clone)]
pub struct BackendSessionResult {
    pub rejection: Option<String>,
}

/// Something that is done to a window.
#[derive(Debug, Clone, Copy, PartialEq, Eq, Structural)]
pub enum WindowAction {
    BuildOverlay,
    /// The overlay forgets its last session.
    ResetOverlay,
    /// The overlay is put in the middle, in its default size if it is new.
    CenterOverlay { default_size: bool },
    ShowOverlay,
    FocusOverlay,
    /// What others see of the screen shows the overlay.
    AllowCapture,
    HideOverlay,
    /// The overlay makes room for the widget; it does not matter if it cannot
    /// be hidden.
    YieldToWidget,
    ShowMain,
    FocusMain,
    HideMain,
    BuildWidget,
    DockWidget,
    ShowWidget,
    /// What others see of the screen shows the widget.
    AllowWidgetCapture,
    HideWidget,
    /// It is told that the overlay was closed.
    TellClosed,
    /// It is told that the overlay was opened with nothing else to be seen.
    TellAutoOpened,
}

/// What is done to show the overlay.
pub open spec fn showing(overlay_exists: bool, has_main: bool) -> Seq<WindowAction> {
    let shown = if overlay_exists {
        seq![
            WindowAction::ResetOverlay,
            WindowAction::CenterOverlay { default_size: false },
            WindowAction::ShowOverlay,
            WindowAction::FocusOverlay,
            WindowAction::AllowCapture,
        ]
    } else {
        seq![
            WindowAction::BuildOverlay,
            WindowAction::CenterOverlay { default_size: true },
            WindowAction::AllowCapture,
            WindowAction::ShowOverlay,
            WindowAction::FocusOverlay,
        ]
    };
    if has_main {
        shown.push(WindowAction::HideMain)
    } else {
        shown
    }
}

/// What is done to close the overlay.
pub open spec fn closing(overlay_exists: bool, has_main: bool) -> Seq<WindowAction> {
    (if overlay_exists {
        seq![WindowAction::HideOverlay]
    } else {
        Seq::empty()
    }) + (if has_main {
        seq![WindowAction::ShowMain, WindowAction::FocusMain]
    } else {
        Seq::empty()
    }) + seq![WindowAction::TellClosed]
}

/// Shows the overlay, which is built if there is none, and then hides the main
/// window.
pub fn show_overlay_window(overlay_exists: bool, has_main: bool) -> (r: (
    Vec<WindowAction>,
    OverlayCaptureStatus,
))
    ensures
        r.0@ == showing(overlay_exists, has_main),
        !r.1.excluded,
{
    let mut actions: Vec<WindowAction> = Vec::new();
    if overlay_exists {
        actions.push(WindowAction::ResetOverlay);
        actions.push(WindowAction::CenterOverlay { default_size: false });
        actions.push(WindowAction::ShowOverlay);
        actions.push(WindowAction::FocusOverlay);
        actions.push(WindowAction::AllowCapture);
    } else {
        actions.push(WindowAction::BuildOverlay);
        actions.push(WindowAction::CenterOverlay { default_size: true });
        actions.push(WindowAction::AllowCapture);
        actions.push(WindowAction::ShowOverlay);
        actions.push(WindowAction::FocusOverlay);
    }
    if has_main {
        actions.push(WindowAction::HideMain);
    }
    proof {
        assert(actions@ =~= showing(overlay_exists, has_main));
    }
    (actions, OverlayCaptureStatus { excluded: false })
}

/// Hides the overlay and brings the main window back.
pub fn close_overlay_window(overlay_exists: bool, has_main: bool) -> (r: Vec<WindowAction>)
    ensures
        r@ == closing(overlay_exists, has_main),
{
    let mut actions: Vec<WindowAction> = Vec::new();
    if overlay_exists {
        actions.push(WindowAction::HideOverlay);
    }
    if has_main {
        actions.push(WindowAction::ShowMain);
        actions.push(WindowAction::FocusMain);
    }
    actions.push(WindowAction::TellClosed);
    proof {
        assert(actions@ =~= closing(overlay_exists, has_main));
    }
    actions
}

/// Closes the overlay if it is to be seen, and else shows it. `overlay` says, if
/// there is one, whether it is to be seen.
pub fn toggle_overlay_window(overlay: Option<bool>, has_main: bool) -> (r: (
    Vec<WindowAction>,
    OverlayCaptureStatus,
))
    ensures
        if overlay == Some(true) {
            r.0@ == closing(true, has_main) && r.1.excluded
        } else {
            r.0@ == showing(overlay is Some, has_main) && !r.1.excluded
        },
{
    match overlay {
        Some(true) => (
            close_overlay_window(true, has_main),
            OverlayCaptureStatus { excluded: is_capture_excluded(true) },
        ),
        Some(false) => show_overlay_window(true, has_main),
        None => show_overlay_window(false, has_main),
    }
}

/// Whether the overlay is left out of what others see of the screen.
pub fn is_capture_excluded(overlay_exists: bool) -> (r: bool)
    ensures
        r == overlay_exists,
{
    overlay_exists
}

/// A window is not to be seen: there is none, or it is hidden.
pub open spec fn hidden(window: Option<bool>) -> bool {
    window != Some(true)
}

/// Whether neither the main window nor the overlay is to be seen. Each says, if
/// there is one, whether it is.
pub fn app_was_fully_hidden(main: Option<bool>, overlay: Option<bool>) -> (r: bool)
    ensures
        r == (hidden(main) && hidden(overlay)),
{
    let main_hidden: bool = match main {
        Some(visible) => !visible,
        None => true,
    };
    let overlay_hidden: bool = match overlay {
        Some(visible) => !visible,
        None => true,
    };
    main_hidden && overlay_hidden
}

/// Shows the overlay when the user calls for it. Where nothing was to be seen,
/// this is told.
pub fn wake_veronica(main: Option<bool>, overlay: Option<bool>) -> (r: Vec<WindowAction>)
    ensures
        r@ == (if hidden(main) && hidden(overlay) {
            showing(overlay is Some, main is Some).push(WindowAction::TellAutoOpened)
        } else {
            showing(overlay is Some, main is Some)
        }),
{
    let was_fully_hidden: bool = app_was_fully_hidden(main, overlay);
    let (actions, _status) = show_overlay_window(overlay.is_some(), main.is_some());
    let mut actions: Vec<WindowAction> = actions;
    if was_fully_hidden {
        actions.push(WindowAction::TellAutoOpened);
    }
    actions
}

/// Shows the widget, which is built if there is none, in the place of the
/// overlay.
pub fn show_widget(overlay_exists: bool, widget_exists: bool) -> (r: Vec<WindowAction>)
    ensures
        r@ == (if overlay_exists {
            seq![WindowAction::YieldToWidget]
        } else {
            Seq::empty()
        }) + (if widget_exists {
            seq![WindowAction::DockWidget, WindowAction::ShowWidget, WindowAction::AllowWidgetCapture]
        } else {
            seq![
                WindowAction::BuildWidget,
                WindowAction::DockWidget,
                WindowAction::AllowWidgetCapture,
                WindowAction::ShowWidget,
            ]
        }),
{
    let mut actions: Vec<WindowAction> = Vec::new();
    if overlay_exists {
        actions.push(WindowAction::YieldToWidget);
    }
    let ghost before = actions@;
    if widget_exists {
        actions.push(WindowAction::DockWidget);
        actions.push(WindowAction::ShowWidget);
        actions.push(WindowAction::AllowWidgetCapture);
        proof {
            assert(actions@ =~= before + seq![
                WindowAction::DockWidget,
                WindowAction::ShowWidget,
                WindowAction::AllowWidgetCapture,
            ]);
        }
    } else {
        actions.push(WindowAction::BuildWidget);
        actions.push(WindowAction::DockWidget);
        actions.push(WindowAction::AllowWidgetCapture);
        actions.push(WindowAction::ShowWidget);
        proof {
            assert(actions@ =~= before + seq![
                WindowAction::BuildWidget,
                WindowAction::DockWidget,
                WindowAction::AllowWidgetCapture,
                WindowAction::ShowWidget,
            ]);
        }
    }
    proof {
        assert(overlay_exists ==> before =~= seq![WindowAction::YieldToWidget]);
        assert(!overlay_exists ==> before =~= Seq::empty());
    }
    actions
}

/// Begins a session: nothing speaks against it.
pub fn start_backend_session() -> (r: BackendSessionResult)
    ensures
        r.rejection is None,
{
    BackendSessionResult { rejection: None }
}

/// The main window is hidden last, when the overlay can be seen: there is always
/// something to be seen.
pub proof fn the_main_window_is_hidden_last(overlay_exists: bool)
    ensures
        ({
            let actions = showing(overlay_exists, true);
            &&& actions.last() == WindowAction::HideMain
            &&& actions.drop_last().contains(WindowAction::ShowOverlay)
            &&& !actions.drop_last().contains(WindowAction::HideMain)
        }),
{
    let shown = showing(overlay_exists, true).drop_last();
    let at = if overlay_exists {
        2int
    } else {
        3int
    };
    assert(shown[at] == WindowAction::ShowOverlay);
}

/// Calling for the assistant only ever opens the overlay: it is not hidden, even
/// where it was to be seen.
pub proof fn a_call_never_hides_the_overlay(main: Option<bool>, overlay: Option<bool>)
    ensures
        !showing(overlay is Some, main is Some).push(WindowAction::TellAutoOpened).contains(
            WindowAction::HideOverlay,
        ),
        !showing(overlay is Some, main is Some).push(WindowAction::TellAutoOpened).contains(
            WindowAction::YieldToWidget,
        ),
        showing(overlay is Some, main is Some).contains(WindowAction::ShowOverlay),
{
    let actions = showing(overlay is Some, main is Some);
    let at = if overlay is Some {
        2int
    } else {
        3int
    };
    assert(actions[at] == WindowAction::ShowOverlay);
}

/// Closing the overlay hides it where it is and brings the main window back where
/// there is one, and it is always told; showing it never builds a second one.
pub proof fn closing_brings_the_main_window_back(overlay_exists: bool, has_main: bool)
    ensures
        closing(overlay_exists, has_main).last() == WindowAction::TellClosed,
        closing(overlay_exists, has_main).contains(WindowAction::HideOverlay) <==> overlay_exists,
        closing(overlay_exists, has_main).contains(WindowAction::ShowMain) <==> has_main,
        closing(overlay_exists, has_main).contains(WindowAction::FocusMain) <==> has_main,
        showing(overlay_exists, has_main).contains(WindowAction::BuildOverlay) <==> !overlay_exists,
        showing(overlay_exists, has_main).contains(WindowAction::ResetOverlay) <==> overlay_exists,
        showing(overlay_exists, has_main).contains(WindowAction::ShowOverlay),
        showing(overlay_exists, has_main).contains(WindowAction::FocusOverlay),
        showing(overlay_exists, has_main).contains(WindowAction::AllowCapture),
        showing(overlay_exists, has_main).contains(WindowAction::HideMain) <==> has_main,
{
    let c = closing(overlay_exists, has_main);
    let s = showing(overlay_exists, has_main);
    if overlay_exists {
        assert(c[0] == WindowAction::HideOverlay);
        assert(s[0] == WindowAction::ResetOverlay);
        assert(s[2] == WindowAction::ShowOverlay);
        assert(s[3] == WindowAction::FocusOverlay);
        assert(s[4] == WindowAction::AllowCapture);
    } else {
        assert(s[0] == WindowAction::BuildOverlay);
        assert(s[2] == WindowAction::AllowCapture);
        assert(s[3] == WindowAction::ShowOverlay);
        assert(s[4] == WindowAction::FocusOverlay);
    }
    if has_main {
        let at = if overlay_exists {
            1int
        } else {
            0int
        };
        assert(c[at] == WindowAction::ShowMain);
        assert(c[at + 1] == WindowAction::FocusMain);
        assert(s[5] == WindowAction::HideMain);
    }
}

} // verus!
