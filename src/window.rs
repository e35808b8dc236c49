//! Window operations as plain requests.
//!
//! Each function builds the [`Action`] that asks the windowing runtime to do
//! one thing to a window, or to report something about it. The runtime
//! performs the request; where it answers, it hands the answer back to the
//! caller that built the request.
use vstd::prelude::*;

verus! {

/// The identifier of a window.
#[derive(Debug, Clone, Copy, PartialEq, Eq, Structural)]
pub struct Id(pub u64);

/// An edge or corner of a window, for resizing by dragging.
#[derive(Debug, Clone, Copy, PartialEq, Eq, Structural)]
pub enum Direction {
    North,
    South,
    East,
    West,
    NorthEast,
    NorthWest,
    SouthEast,
    SouthWest,
}

/// How a window is shown.
#[derive(Debug, Clone, Copy, PartialEq, Eq, Structural)]
pub enum Mode {
    Windowed,
    Fullscreen,
    Hidden,
}

/// Where a window stacks among the others.
#[derive(Debug, Clone, Copy, PartialEq, Eq, Structural)]
pub enum Level {
    Normal,
    AlwaysOnBottom,
    AlwaysOnTop,
}

/// How urgently a window asks for attention.
#[derive(Debug, Clone, Copy, PartialEq, Eq, Structural)]
pub enum UserAttention {
    Critical,
    Informational,
}

/// Where the voice-mode orb is.
#[derive(Debug, Clone, Copy, PartialEq, Eq, Structural)]
pub enum OrbState {
    Hidden,
    Floating,
    Attached,
    Frozen,
    Transitioning,
}

/// A voice-mode event from the compositor.
#[derive(Debug, Clone, Copy, PartialEq, Eq, Structural)]
pub enum Event {
    Started { orb_state: OrbState },
    Stopped,
    Cancelled,
    OrbAttached { x: i32, y: i32, width: i32, height: i32 },
    OrbDetached,
    WillStop { serial: u32 },
}

/// A logical size; each dimension is the bit pattern of a single-precision
/// value.
#[derive(Debug, Clone, Copy, PartialEq, Eq, Structural)]
pub struct Size {
    pub width: u32,
    pub height: u32,
}

/// A logical position; each coordinate is the bit pattern of a
/// single-precision value.
#[derive(Debug, Clone, Copy, PartialEq, Eq, Structural)]
pub struct Point {
    pub x: u32,
    pub y: u32,
}

/// A request to the windowing runtime.
#[derive(Debug, Clone, PartialEq, Eq)]
pub enum Action {
    /// Resizes the window to a logical size.
    Resize(Id, Size),
    /// Sets the smallest size the window may take; `None` removes the bound.
    SetMinSize(Id, Option<Size>),
    /// Sets the largest size the window may take; `None` removes the bound.
    SetMaxSize(Id, Option<Size>),
    /// Makes the window resize in steps of the given size; `None` removes them.
    SetResizeIncrements(Id, Option<Size>),
    /// Moves the window to a logical position.
    Move(Id, Point),
    /// Closes the window.
    Close(Id),
    /// Asks for the [`Id`] of the oldest window.
    GetOldest,
    /// Asks for the [`Id`] of the latest window.
    GetLatest,
    /// Moves the window with the pressed left mouse button until it is released.
    Drag(Id),
    /// Resizes the window with the pressed left mouse button, from `direction`.
    DragResize(Id, Direction),
    /// Resizes the window to `width` by `height` over `duration_ms` milliseconds.
    AnimatedResize(Id, u32, u32, u32),
    /// Moves and resizes the window over `duration_ms` milliseconds; a maximized window keeps them for when it is restored.
    AnimatedResizeWithPosition(Id, i32, i32, u32, u32, u32),
    /// Embeds the toplevel of process `pid` into the window's surface; the answer is the embed's id, if the compositor supports it.
    EmbedToplevelByPid(Id, u32, String, i32, i32, i32, i32, bool),
    /// Moves and resizes an embedded surface.
    SetEmbedGeometry(Id, u64, i32, i32, i32, i32),
    /// Anchors an embedded surface; `anchor` is a bit set (1 top, 2 bottom, 4 left, 8 right).
    SetEmbedAnchor(Id, u64, u32, i32, i32, i32, i32, i32, i32),
    /// Rounds the corners of an embedded surface.
    SetEmbedCornerRadius(Id, u64, u32, u32, u32, u32),
    /// Sets whether an embedded surface takes input.
    SetEmbedInteractive(Id, u64, bool),
    /// Removes an embedded surface.
    RemoveEmbed(Id, u64),
    /// Sets whether the window can be resized.
    SetResizable(Id, bool),
    /// Asks for the window's logical size.
    GetSize(Id),
    /// Asks whether the window is maximized.
    GetMaximized(Id),
    /// Maximizes the window, or restores it.
    Maximize(Id, bool),
    /// Asks whether the window is minimized.
    GetMinimized(Id),
    /// Minimizes the window, or restores it.
    Minimize(Id, bool),
    /// Asks for the window's logical position.
    GetPosition(Id),
    /// Asks for the window's scale factor.
    GetScaleFactor(Id),
    /// Asks for the window's [`Mode`].
    GetMode(Id),
    /// Changes the window's [`Mode`].
    SetMode(Id, Mode),
    /// Maximizes the window, or restores it if it is maximized.
    ToggleMaximize(Id),
    /// Shows or hides the window's decorations.
    ToggleDecorations(Id),
    /// Requests the user's attention to the window; `None` withdraws the request.
    RequestUserAttention(Id, Option<UserAttention>),
    /// Brings the window to the front and gives it input focus.
    GainFocus(Id),
    /// Changes the window's [`Level`].
    SetLevel(Id, Level),
    /// Shows the system menu at the cursor.
    ShowSystemMenu(Id),
    /// Asks for the platform's identifier of the window.
    GetRawId(Id),
    /// Asks for a screenshot of the window's viewport.
    Screenshot(Id),
    /// Lets mouse events pass through the window to what lies beneath.
    EnableMousePassthrough(Id),
    /// Makes the window receive mouse events again.
    DisableMousePassthrough(Id),
    /// Asks for the size of the window's monitor.
    GetMonitorSize(Id),
    /// Sets whether windows may be grouped into tabs automatically.
    SetAllowAutomaticTabbing(bool),
    /// Sets whether the window takes input exclusively.
    SetExclusiveMode(Id, bool),
    /// Registers the window for voice-mode events.
    RegisterVoiceMode(Id, bool),
    /// Stops voice-mode events for the window.
    UnregisterVoiceMode(Id),
    /// Reports the current voice audio level.
    SetVoiceAudioLevel(u32),
    /// Acknowledges the stop request numbered `serial`.
    VoiceAckStop(Id, u32, bool),
    /// Dismisses voice mode for the window.
    VoiceDismiss(Id),
    /// Redraws every window.
    RedrawAll,
    /// Lays out every window again.
    RelayoutAll,
}

/// Closes the window.
pub fn close(id: Id) -> (r: Action)
    ensures
        r == Action::Close(id),
{
    Action::Close(id)
}

/// Asks for the [`Id`] of the oldest window.
pub fn oldest() -> (r: Action)
    ensures
        r == Action::GetOldest,
{
    Action::GetOldest
}

/// Asks for the [`Id`] of the latest window.
pub fn latest() -> (r: Action)
    ensures
        r == Action::GetLatest,
{
    Action::GetLatest
}

/// Moves the window with the pressed left mouse button until it is released.
pub fn drag(id: Id) -> (r: Action)
    ensures
        r == Action::Drag(id),
{
    Action::Drag(id)
}

/// Resizes the window with the pressed left mouse button, from `direction`.
pub fn drag_resize(id: Id, direction: Direction) -> (r: Action)
    ensures
        r == Action::DragResize(id, direction),
{
    Action::DragResize(id, direction)
}

/// Resizes the window to `width` by `height` over `duration_ms` milliseconds.
pub fn animated_resize(id: Id, width: u32, height: u32, duration_ms: u32) -> (r: Action)
    ensures
        r == Action::AnimatedResize(id, width, height, duration_ms),
{
    Action::AnimatedResize(id, width, height, duration_ms)
}

/// Moves and resizes the window over `duration_ms` milliseconds; a maximized window keeps them for when it is restored.
pub fn animated_resize_with_position(id: Id, x: i32, y: i32, width: u32, height: u32, duration_ms: u32) -> (r: Action)
    ensures
        r == Action::AnimatedResizeWithPosition(id, x, y, width, height, duration_ms),
{
    Action::AnimatedResizeWithPosition(id, x, y, width, height, duration_ms)
}

/// Embeds the toplevel of process `pid` into the window's surface; the answer is the embed's id, if the compositor supports it.
pub fn embed_toplevel_by_pid(id: Id, pid: u32, app_id: String, x: i32, y: i32, width: i32, height: i32, interactive: bool) -> (r: Action)
    ensures
        r == Action::EmbedToplevelByPid(id, pid, app_id, x, y, width, height, interactive),
{
    Action::EmbedToplevelByPid(id, pid, app_id, x, y, width, height, interactive)
}

/// Moves and resizes an embedded surface.
pub fn set_embed_geometry(id: Id, embed_id: u64, x: i32, y: i32, width: i32, height: i32) -> (r: Action)
    ensures
        r == Action::SetEmbedGeometry(id, embed_id, x, y, width, height),
{
    Action::SetEmbedGeometry(id, embed_id, x, y, width, height)
}

/// Anchors an embedded surface; `anchor` is a bit set (1 top, 2 bottom, 4 left, 8 right).
pub fn set_embed_anchor(id: Id, embed_id: u64, anchor: u32, margin_top: i32, margin_right: i32, margin_bottom: i32, margin_left: i32, width: i32, height: i32) -> (r: Action)
    ensures
        r == Action::SetEmbedAnchor(id, embed_id, anchor, margin_top, margin_right, margin_bottom, margin_left, width, height),
{
    Action::SetEmbedAnchor(id, embed_id, anchor, margin_top, margin_right, margin_bottom, margin_left, width, height)
}

/// Rounds the corners of an embedded surface.
pub fn set_embed_corner_radius(id: Id, embed_id: u64, top_left: u32, top_right: u32, bottom_right: u32, bottom_left: u32) -> (r: Action)
    ensures
        r == Action::SetEmbedCornerRadius(id, embed_id, top_left, top_right, bottom_right, bottom_left),
{
    Action::SetEmbedCornerRadius(id, embed_id, top_left, top_right, bottom_right, bottom_left)
}

/// Sets whether an embedded surface takes input.
pub fn set_embed_interactive(id: Id, embed_id: u64, interactive: bool) -> (r: Action)
    ensures
        r == Action::SetEmbedInteractive(id, embed_id, interactive),
{
    Action::SetEmbedInteractive(id, embed_id, interactive)
}

/// Removes an embedded surface.
pub fn remove_embed(id: Id, embed_id: u64) -> (r: Action)
    ensures
        r == Action::RemoveEmbed(id, embed_id),
{
    Action::RemoveEmbed(id, embed_id)
}

/// Sets whether the window can be resized.
pub fn set_resizable(id: Id, resizable: bool) -> (r: Action)
    ensures
        r == Action::SetResizable(id, resizable),
{
    Action::SetResizable(id, resizable)
}

/// Resizes the window to `new_size`.
pub fn resize(id: Id, new_size: Size) -> (r: Action)
    ensures
        r == Action::Resize(id, new_size),
{
    Action::Resize(id, new_size)
}

/// Sets the smallest size the window may take; `None` removes the bound.
pub fn set_min_size(id: Id, size: Option<Size>) -> (r: Action)
    ensures
        r == Action::SetMinSize(id, size),
{
    Action::SetMinSize(id, size)
}

/// Sets the largest size the window may take; `None` removes the bound.
pub fn set_max_size(id: Id, size: Option<Size>) -> (r: Action)
    ensures
        r == Action::SetMaxSize(id, size),
{
    Action::SetMaxSize(id, size)
}

/// Makes the window resize in steps of `increments`; `None` removes them.
pub fn set_resize_increments(id: Id, increments: Option<Size>) -> (r: Action)
    ensures
        r == Action::SetResizeIncrements(id, increments),
{
    Action::SetResizeIncrements(id, increments)
}

/// Moves the window to `position`; not every platform supports it.
pub fn move_to(id: Id, position: Point) -> (r: Action)
    ensures
        r == Action::Move(id, position),
{
    Action::Move(id, position)
}

/// Asks for the window's logical size.
pub fn size(id: Id) -> (r: Action)
    ensures
        r == Action::GetSize(id),
{
    Action::GetSize(id)
}

/// Asks whether the window is maximized.
pub fn is_maximized(id: Id) -> (r: Action)
    ensures
        r == Action::GetMaximized(id),
{
    Action::GetMaximized(id)
}

/// Maximizes the window, or restores it.
pub fn maximize(id: Id, maximized: bool) -> (r: Action)
    ensures
        r == Action::Maximize(id, maximized),
{
    Action::Maximize(id, maximized)
}

/// Asks whether the window is minimized.
pub fn is_minimized(id: Id) -> (r: Action)
    ensures
        r == Action::GetMinimized(id),
{
    Action::GetMinimized(id)
}

/// Minimizes the window, or restores it.
pub fn minimize(id: Id, minimized: bool) -> (r: Action)
    ensures
        r == Action::Minimize(id, minimized),
{
    Action::Minimize(id, minimized)
}

/// Asks for the window's logical position.
pub fn position(id: Id) -> (r: Action)
    ensures
        r == Action::GetPosition(id),
{
    Action::GetPosition(id)
}

/// Asks for the window's scale factor.
pub fn scale_factor(id: Id) -> (r: Action)
    ensures
        r == Action::GetScaleFactor(id),
{
    Action::GetScaleFactor(id)
}

/// Asks for the window's [`Mode`].
pub fn mode(id: Id) -> (r: Action)
    ensures
        r == Action::GetMode(id),
{
    Action::GetMode(id)
}

/// Changes the window's [`Mode`].
pub fn set_mode(id: Id, mode: Mode) -> (r: Action)
    ensures
        r == Action::SetMode(id, mode),
{
    Action::SetMode(id, mode)
}

/// Maximizes the window, or restores it if it is maximized.
pub fn toggle_maximize(id: Id) -> (r: Action)
    ensures
        r == Action::ToggleMaximize(id),
{
    Action::ToggleMaximize(id)
}

/// Shows or hides the window's decorations.
pub fn toggle_decorations(id: Id) -> (r: Action)
    ensures
        r == Action::ToggleDecorations(id),
{
    Action::ToggleDecorations(id)
}

/// Requests the user's attention to the window; `None` withdraws the request.
pub fn request_user_attention(id: Id, user_attention: Option<UserAttention>) -> (r: Action)
    ensures
        r == Action::RequestUserAttention(id, user_attention),
{
    Action::RequestUserAttention(id, user_attention)
}

/// Brings the window to the front and gives it input focus.
pub fn gain_focus(id: Id) -> (r: Action)
    ensures
        r == Action::GainFocus(id),
{
    Action::GainFocus(id)
}

/// Changes the window's [`Level`].
pub fn set_level(id: Id, level: Level) -> (r: Action)
    ensures
        r == Action::SetLevel(id, level),
{
    Action::SetLevel(id, level)
}

/// Shows the system menu at the cursor.
pub fn show_system_menu(id: Id) -> (r: Action)
    ensures
        r == Action::ShowSystemMenu(id),
{
    Action::ShowSystemMenu(id)
}

/// Asks for the platform's identifier of the window.
pub fn raw_id(id: Id) -> (r: Action)
    ensures
        r == Action::GetRawId(id),
{
    Action::GetRawId(id)
}

/// Asks for a screenshot of the window's viewport.
pub fn screenshot(id: Id) -> (r: Action)
    ensures
        r == Action::Screenshot(id),
{
    Action::Screenshot(id)
}

/// Lets mouse events pass through the window to what lies beneath.
pub fn enable_mouse_passthrough(id: Id) -> (r: Action)
    ensures
        r == Action::EnableMousePassthrough(id),
{
    Action::EnableMousePassthrough(id)
}

/// Makes the window receive mouse events again.
pub fn disable_mouse_passthrough(id: Id) -> (r: Action)
    ensures
        r == Action::DisableMousePassthrough(id),
{
    Action::DisableMousePassthrough(id)
}

/// Asks for the size of the window's monitor.
pub fn monitor_size(id: Id) -> (r: Action)
    ensures
        r == Action::GetMonitorSize(id),
{
    Action::GetMonitorSize(id)
}

/// Sets whether windows may be grouped into tabs automatically.
pub fn allow_automatic_tabbing(enabled: bool) -> (r: Action)
    ensures
        r == Action::SetAllowAutomaticTabbing(enabled),
{
    Action::SetAllowAutomaticTabbing(enabled)
}

/// Sets whether the window takes input exclusively.
pub fn set_exclusive_mode(id: Id, exclusive: bool) -> (r: Action)
    ensures
        r == Action::SetExclusiveMode(id, exclusive),
{
    Action::SetExclusiveMode(id, exclusive)
}

/// Registers the window for voice-mode events.
pub fn register_voice_mode(id: Id, is_default_receiver: bool) -> (r: Action)
    ensures
        r == Action::RegisterVoiceMode(id, is_default_receiver),
{
    Action::RegisterVoiceMode(id, is_default_receiver)
}

/// Stops voice-mode events for the window.
pub fn unregister_voice_mode(id: Id) -> (r: Action)
    ensures
        r == Action::UnregisterVoiceMode(id),
{
    Action::UnregisterVoiceMode(id)
}

/// Reports the current voice audio level.
pub fn set_voice_audio_level(level: u32) -> (r: Action)
    ensures
        r == Action::SetVoiceAudioLevel(level),
{
    Action::SetVoiceAudioLevel(level)
}

/// Acknowledges the stop request numbered `serial`.
pub fn voice_ack_stop(id: Id, serial: u32, freeze: bool) -> (r: Action)
    ensures
        r == Action::VoiceAckStop(id, serial, freeze),
{
    Action::VoiceAckStop(id, serial, freeze)
}

/// Dismisses voice mode for the window.
pub fn voice_dismiss(id: Id) -> (r: Action)
    ensures
        r == Action::VoiceDismiss(id),
{
    Action::VoiceDismiss(id)
}

} // verus!
