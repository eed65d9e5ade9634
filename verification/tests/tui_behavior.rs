use shai_http::command::{
    list_command, parse_app_command, token_usage_message, tokenize, AppCommand, AppState,
    CommandEffect, Theme, ToolCallMethod,
};
use shai_http::perm::{
    KeyPress, MouseScroll, PermissionModalAction, PermissionResponse, PermissionWidget,
};

fn state() -> AppState {
    AppState {
        exit: false,
        theme: Theme::Dark,
        total_input_tokens: 120,
        total_output_tokens: 45,
    }
}

#[test]
fn command_table_lists_the_five_commands() {
    let cmds = list_command();
    assert_eq!(cmds.len(), 5);
    assert_eq!(cmds[0].command, "/exit");
    assert_eq!(cmds[2].command, "/tc");
    assert_eq!(cmds[2].args, vec!["method".to_string()]);
    assert_eq!(cmds[4].command, "/theme");
    assert_eq!(cmds[4].description, "set theme: [dark | light | toggle]");
}

#[test]
fn tokenizer_splits_on_whitespace() {
    assert_eq!(tokenize("  /tc   auto "), vec!["/tc".to_string(), "auto".to_string()]);
    assert_eq!(tokenize(""), Vec::<String>::new());
    assert_eq!(tokenize("   "), Vec::<String>::new());
    assert_eq!(tokenize("one"), vec!["one".to_string()]);
}

#[test]
fn tokenizer_splits_on_unicode_whitespace() {
    // The same alphabet as std's split_whitespace: no-break space, em
    // space and ideographic space all separate words.
    assert_eq!(
        tokenize("/theme\u{a0}dark"),
        vec!["/theme".to_string(), "dark".to_string()]
    );
    assert_eq!(
        tokenize("\u{2003}/tc\u{3000}so\u{2028}"),
        vec!["/tc".to_string(), "so".to_string()]
    );
    assert_eq!(
        parse_app_command("/theme\u{2009}toggle"),
        AppCommand::ToggleTheme
    );
}

#[test]
fn commands_parse_to_their_actions() {
    assert_eq!(parse_app_command("/exit"), AppCommand::Exit);
    assert_eq!(
        parse_app_command("/tc auto"),
        AppCommand::SetMethod { method: ToolCallMethod::Auto }
    );
    assert_eq!(
        parse_app_command("/tc fc"),
        AppCommand::SetMethod { method: ToolCallMethod::FunctionCall }
    );
    assert_eq!(
        parse_app_command("/tc fc2"),
        AppCommand::SetMethod { method: ToolCallMethod::FunctionCallRequired }
    );
    assert_eq!(
        parse_app_command("/tc so"),
        AppCommand::SetMethod { method: ToolCallMethod::StructuredOutput }
    );
    assert_eq!(parse_app_command("/tc bogus"), AppCommand::MethodNoop);
    assert_eq!(parse_app_command("/tc"), AppCommand::MethodNoop);
    assert_eq!(parse_app_command("/tokens"), AppCommand::ShowTokens);
    assert_eq!(
        parse_app_command("/theme dark"),
        AppCommand::SetTheme { theme: Theme::Dark }
    );
    assert_eq!(
        parse_app_command("/theme light"),
        AppCommand::SetTheme { theme: Theme::Light }
    );
    assert_eq!(parse_app_command("/theme toggle"), AppCommand::ToggleTheme);
    assert_eq!(parse_app_command("/theme loud"), AppCommand::ThemeUsage);
    assert_eq!(parse_app_command("/nope"), AppCommand::Unknown);
    assert_eq!(parse_app_command(""), AppCommand::Unknown);
}

#[test]
fn token_usage_message_is_exact() {
    assert_eq!(
        token_usage_message(120, 45),
        "Token Usage - Input: 120, Output: 45, Total: 165"
    );
}

#[test]
fn exit_command_sets_the_exit_flag() {
    let mut s = state();
    let effect = s.apply_command("/exit");
    assert!(s.exit);
    assert!(matches!(effect, CommandEffect::Quiet));
}

#[test]
fn tokens_command_alerts_with_the_usage_line() {
    let mut s = state();
    match s.apply_command("/tokens") {
        CommandEffect::Alert { message, seconds } => {
            assert_eq!(message, "Token Usage - Input: 120, Output: 45, Total: 165");
            assert_eq!(seconds, 5);
        }
        _ => panic!("expected an alert"),
    }
}

#[test]
fn theme_commands_change_and_announce_the_theme() {
    let mut s = state();
    match s.apply_command("/theme light") {
        CommandEffect::Alert { message, seconds } => {
            assert_eq!(message, "Theme set to light");
            assert_eq!(seconds, 2);
        }
        _ => panic!("expected an alert"),
    }
    assert_eq!(s.theme, Theme::Light);
    match s.apply_command("/theme toggle") {
        CommandEffect::Alert { message, .. } => assert_eq!(message, "Theme toggled to dark"),
        _ => panic!("expected an alert"),
    }
    assert_eq!(s.theme, Theme::Dark);
    match s.apply_command("/theme") {
        CommandEffect::Alert { message, seconds } => {
            assert_eq!(message, "Usage: /theme [dark|light|toggle]");
            assert_eq!(seconds, 3);
        }
        _ => panic!("expected an alert"),
    }
}

#[test]
fn method_change_is_requested_then_announced() {
    let mut s = state();
    match s.apply_command("/tc so") {
        CommandEffect::RequestMethodChange { method } => {
            assert_eq!(method, ToolCallMethod::StructuredOutput);
            match shai_http::command::method_changed(method) {
                CommandEffect::Alert { message, seconds } => {
                    assert_eq!(message, "llm will now use structured output for tool calls");
                    assert_eq!(seconds, 3);
                }
                _ => panic!("expected an alert"),
            }
        }
        _ => panic!("expected a method change request"),
    }
}

#[test]
fn unknown_commands_alert_briefly() {
    let mut s = state();
    match s.apply_command("/bogus") {
        CommandEffect::Alert { message, seconds } => {
            assert_eq!(message, "command unknown");
            assert_eq!(seconds, 1);
        }
        _ => panic!("expected an alert"),
    }
}

fn widget(lines: usize) -> PermissionWidget {
    PermissionWidget::new("perm-1".to_string(), 2, lines)
}

#[test]
fn selection_wraps_in_both_directions() {
    let mut w = widget(10);
    w.move_up();
    assert_eq!(w.selected_index, 2);
    w.move_down();
    assert_eq!(w.selected_index, 0);
    w.move_down();
    w.move_down();
    w.move_down();
    assert_eq!(w.selected_index, 0);
}

#[test]
fn selection_maps_to_permission_responses() {
    let mut w = widget(1);
    assert_eq!(w.get_selected(), PermissionResponse::Allow);
    w.move_down();
    assert_eq!(w.get_selected(), PermissionResponse::AllowAlways);
    w.move_down();
    assert_eq!(w.get_selected(), PermissionResponse::Deny);
}

#[test]
fn scrolling_is_clamped_to_the_preview() {
    let mut w = widget(3);
    w.scroll_up();
    assert_eq!(w.scroll_offset, 0);
    w.scroll_down();
    w.scroll_down();
    w.scroll_down();
    assert_eq!(w.scroll_offset, 2);
    let mut empty = widget(0);
    empty.scroll_down();
    assert_eq!(empty.scroll_offset, 0);
}

#[test]
fn page_keys_scroll_five_lines() {
    let mut w = widget(20);
    w.handle_key_event(KeyPress::PageDown);
    assert_eq!(w.scroll_offset, 5);
    w.handle_key_event(KeyPress::PageDown);
    w.handle_key_event(KeyPress::PageDown);
    w.handle_key_event(KeyPress::PageDown);
    assert_eq!(w.scroll_offset, 19);
    w.handle_key_event(KeyPress::PageUp);
    assert_eq!(w.scroll_offset, 14);
}

#[test]
fn enter_answers_with_the_selected_choice() {
    let mut w = widget(5);
    w.handle_key_event(KeyPress::Down);
    match w.handle_key_event(KeyPress::Enter) {
        PermissionModalAction::Response { request_id, choice } => {
            assert_eq!(request_id, "perm-1");
            assert_eq!(choice, PermissionResponse::AllowAlways);
        }
        PermissionModalAction::Nope => panic!("enter must answer"),
    }
}

#[test]
fn escape_always_denies() {
    let mut w = widget(5);
    match w.handle_key_event(KeyPress::Esc) {
        PermissionModalAction::Response { choice, .. } => {
            assert_eq!(choice, PermissionResponse::Deny);
        }
        PermissionModalAction::Nope => panic!("escape must answer"),
    }
    match w.handle_key_event(KeyPress::Other) {
        PermissionModalAction::Nope => {}
        _ => panic!("other keys must be ignored"),
    }
}

#[test]
fn mouse_wheel_scrolls_and_keeps_the_modal_open() {
    let mut w = widget(4);
    match w.handle_mouse_event(MouseScroll::ScrollDown) {
        PermissionModalAction::Nope => {}
        _ => panic!("scrolling must not answer"),
    }
    assert_eq!(w.scroll_offset, 1);
    w.handle_mouse_event(MouseScroll::ScrollUp);
    assert_eq!(w.scroll_offset, 0);
}

#[test]
fn modal_height_accounts_for_the_chrome() {
    let w = widget(6);
    assert_eq!(w.height(), 16);
}
