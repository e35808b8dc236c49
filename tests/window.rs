use compositor::window::{
    self, Action, Direction, Event, Id, Level, Mode, OrbState, Point, Size, UserAttention,
};

#[test]
fn requests_carry_their_arguments() {
    let id = Id(7);
    assert_eq!(window::close(id), Action::Close(Id(7)));
    assert_eq!(window::oldest(), Action::GetOldest);
    assert_eq!(window::latest(), Action::GetLatest);
    assert_eq!(window::drag(id), Action::Drag(id));
    assert_eq!(window::drag_resize(id, Direction::SouthEast), Action::DragResize(id, Direction::SouthEast));
    assert_eq!(window::animated_resize(id, 640, 480, 200), Action::AnimatedResize(id, 640, 480, 200));
    assert_eq!(
        window::animated_resize_with_position(id, -5, 10, 640, 480, 150),
        Action::AnimatedResizeWithPosition(id, -5, 10, 640, 480, 150)
    );
    assert_eq!(
        window::embed_toplevel_by_pid(id, 42, String::from("term"), 1, 2, 3, 4, true),
        Action::EmbedToplevelByPid(id, 42, String::from("term"), 1, 2, 3, 4, true)
    );
    assert_eq!(window::set_embed_geometry(id, 9, 1, 2, 3, 4), Action::SetEmbedGeometry(id, 9, 1, 2, 3, 4));
    assert_eq!(
        window::set_embed_anchor(id, 9, 1 | 4, 1, 2, 3, 4, 5, 6),
        Action::SetEmbedAnchor(id, 9, 5, 1, 2, 3, 4, 5, 6)
    );
    assert_eq!(window::set_embed_corner_radius(id, 9, 1, 2, 3, 4), Action::SetEmbedCornerRadius(id, 9, 1, 2, 3, 4));
    assert_eq!(window::set_embed_interactive(id, 9, false), Action::SetEmbedInteractive(id, 9, false));
    assert_eq!(window::remove_embed(id, 9), Action::RemoveEmbed(id, 9));
}

#[test]
fn queries_name_their_window() {
    let id = Id(3);
    assert_eq!(window::size(id), Action::GetSize(id));
    assert_eq!(window::is_maximized(id), Action::GetMaximized(id));
    assert_eq!(window::is_minimized(id), Action::GetMinimized(id));
    assert_eq!(window::position(id), Action::GetPosition(id));
    assert_eq!(window::scale_factor(id), Action::GetScaleFactor(id));
    assert_eq!(window::mode(id), Action::GetMode(id));
    assert_eq!(window::raw_id(id), Action::GetRawId(id));
    assert_eq!(window::screenshot(id), Action::Screenshot(id));
    assert_eq!(window::monitor_size(id), Action::GetMonitorSize(id));
    assert_ne!(window::size(id), window::size(Id(4)));
}

#[test]
fn state_changes() {
    let id = Id(1);
    assert_eq!(window::set_resizable(id, true), Action::SetResizable(id, true));
    assert_eq!(window::maximize(id, true), Action::Maximize(id, true));
    assert_eq!(window::minimize(id, false), Action::Minimize(id, false));
    assert_eq!(window::set_mode(id, Mode::Fullscreen), Action::SetMode(id, Mode::Fullscreen));
    assert_eq!(window::toggle_maximize(id), Action::ToggleMaximize(id));
    assert_eq!(window::toggle_decorations(id), Action::ToggleDecorations(id));
    assert_eq!(
        window::request_user_attention(id, Some(UserAttention::Critical)),
        Action::RequestUserAttention(id, Some(UserAttention::Critical))
    );
    assert_eq!(window::request_user_attention(id, None), Action::RequestUserAttention(id, None));
    assert_eq!(window::gain_focus(id), Action::GainFocus(id));
    assert_eq!(window::set_level(id, Level::AlwaysOnTop), Action::SetLevel(id, Level::AlwaysOnTop));
    assert_eq!(window::show_system_menu(id), Action::ShowSystemMenu(id));
    assert_eq!(window::enable_mouse_passthrough(id), Action::EnableMousePassthrough(id));
    assert_eq!(window::disable_mouse_passthrough(id), Action::DisableMousePassthrough(id));
    assert_eq!(window::allow_automatic_tabbing(false), Action::SetAllowAutomaticTabbing(false));
    assert_eq!(window::set_exclusive_mode(id, true), Action::SetExclusiveMode(id, true));
}

#[test]
fn voice_mode_requests() {
    let id = Id(2);
    assert_eq!(window::register_voice_mode(id, true), Action::RegisterVoiceMode(id, true));
    assert_eq!(window::unregister_voice_mode(id), Action::UnregisterVoiceMode(id));
    assert_eq!(window::set_voice_audio_level(80), Action::SetVoiceAudioLevel(80));
    assert_eq!(window::voice_ack_stop(id, 11, true), Action::VoiceAckStop(id, 11, true));
    assert_eq!(window::voice_dismiss(id), Action::VoiceDismiss(id));
    let e = Event::Started { orb_state: OrbState::Floating };
    assert_ne!(e, Event::Stopped);
}

#[test]
fn sizes_and_positions_travel_as_bits() {
    let id = Id(5);
    let size = Size { width: 640.0f32.to_bits(), height: 480.5f32.to_bits() };
    assert_eq!(window::resize(id, size), Action::Resize(id, size));
    assert_eq!(window::set_min_size(id, Some(size)), Action::SetMinSize(id, Some(size)));
    assert_eq!(window::set_max_size(id, None), Action::SetMaxSize(id, None));
    assert_eq!(window::set_resize_increments(id, Some(size)), Action::SetResizeIncrements(id, Some(size)));
    let at = Point { x: 10.0f32.to_bits(), y: (-3.0f32).to_bits() };
    assert_eq!(window::move_to(id, at), Action::Move(id, at));
    match window::resize(id, size) {
        Action::Resize(_, s) => assert_eq!(f32::from_bits(s.height), 480.5),
        other => panic!("unexpected {:?}", other),
    }
}
