use tuilog::error::TUILogError;
use tuilog::session::{Session, SessionType};
use tuilog::state::config::{default_base_color, title_or_hostname};
use tuilog::state::{
    default_cache_dir, get_default_options, parse_base_color, resolve_path, set_default_options,
    BaseColor, Cache, DefaultOptions,
};
use tuilog::system_control::{reboot, reboot_call, shutdown, shutdown_call, PowerReply};
use tuilog::tui::content_box::{content_layout, session_position, shown_title};
use tuilog::tui::{
    draw_background_ascii_art, draw_button, draw_content_box, draw_input_field,
    get_accent_message_theme, get_base_theme, get_edit_view_theme, get_error_message_theme,
    get_hostname_art_theme, hostname_art, set_default_values, Color, ContentLayout,
};
use tuilog::utils::{
    get_current_tty, is_tty, longest_line_length, longest_width, split_lines, tty_from_name,
};

fn named(name: &str) -> Session {
    Session {
        name: String::from(name),
        command: String::from("run"),
        session_type: SessionType::GraphicalSession,
    }
}

#[test]
fn lines_of_a_text() {
    let none: Vec<String> = Vec::new();
    assert_eq!(split_lines(""), none);
    assert_eq!(split_lines("\n"), vec![String::new()]);
    assert_eq!(split_lines("a"), vec![String::from("a")]);
    assert_eq!(split_lines("a\nb"), vec![String::from("a"), String::from("b")]);
    assert_eq!(split_lines("a\nb\n"), vec![String::from("a"), String::from("b")]);
    assert_eq!(split_lines("a\r\nb\r\n"), vec![String::from("a"), String::from("b")]);
    assert_eq!(split_lines("a\n\nb"), vec![String::from("a"), String::new(), String::from("b")]);
    assert_eq!(split_lines("a\rb\r"), vec![String::from("a\rb\r")]);
    assert_eq!(split_lines("a\r\r\n"), vec![String::from("a\r")]);
    assert_eq!(split_lines("\r\n"), vec![String::new()]);
}

#[test]
fn lines_agree_with_the_standard_library() {
    for text in vec!["", "\n", "x\r\ny\rz\n\n", "\n\r\n\r", "één\ntwee\r\n", "\r", "a\n\r"] {
        let expected: Vec<String> = text.lines().map(String::from).collect();
        assert_eq!(split_lines(text), expected);
    }
}

#[test]
fn longest_line_counts_columns() {
    assert_eq!(longest_line_length(""), 0);
    assert_eq!(longest_line_length("abc"), 3);
    assert_eq!(longest_line_length("ab\nabcd\nabc\n"), 4);
    assert_eq!(longest_line_length("日本語\nabcde"), 6);
    assert_eq!(longest_line_length("e\u{301}\n"), 1);
}

#[test]
fn largest_width() {
    assert_eq!(longest_width(&Vec::new()), 0);
    assert_eq!(longest_width(&vec![3, 9, 2]), 9);
    assert_eq!(longest_width(&vec![usize::MAX, 1]), usize::MAX);
}

#[test]
fn terminal_names() {
    assert!(is_tty("tty1"));
    assert!(is_tty("tty63"));
    assert!(is_tty("tty"));
    assert!(!is_tty("ttyS0"));
    assert!(!is_tty("tty1a"));
    assert!(!is_tty("tt"));
    assert!(!is_tty("pts"));
    assert!(!is_tty("xtty1"));
    assert!(!is_tty("tty१"));
    assert!(!is_tty(""));
}

#[test]
fn current_terminal_from_the_link_of_standard_input() {
    assert_eq!(get_current_tty("/dev/tty2"), Some(String::from("tty2")));
    assert_eq!(get_current_tty("/dev/pts/0"), None);
    assert_eq!(get_current_tty("/dev/null"), None);
    assert_eq!(get_current_tty("pipe:[12345]"), None);
    assert_eq!(get_current_tty("/"), None);
    assert_eq!(get_current_tty("/dev/tty7/"), Some(String::from("tty7")));
    assert_eq!(tty_from_name(Some(String::from("tty3"))), Some(String::from("tty3")));
    assert_eq!(tty_from_name(Some(String::from("console"))), None);
    assert_eq!(tty_from_name(None), None);
}

#[test]
fn stored_defaults() {
    let cache = set_default_options(String::from("alice"), String::from("shell"));
    assert_eq!(
        cache,
        Cache {
            default: Some(DefaultOptions {
                username: Some(String::from("alice")),
                session_name: Some(String::from("shell")),
            }),
        }
    );
    assert_eq!(
        get_default_options(Some(cache)),
        DefaultOptions {
            username: Some(String::from("alice")),
            session_name: Some(String::from("shell")),
        }
    );
    let nothing = DefaultOptions { username: None, session_name: None };
    assert_eq!(get_default_options(None), nothing);
    assert_eq!(get_default_options(Some(Cache { default: None })), nothing);
}

#[test]
fn colours_of_the_configuration() {
    assert_eq!(parse_base_color("Black"), Some(BaseColor::Black));
    assert_eq!(parse_base_color("Red"), Some(BaseColor::Red));
    assert_eq!(parse_base_color("Green"), Some(BaseColor::Green));
    assert_eq!(parse_base_color("Yellow"), Some(BaseColor::Yellow));
    assert_eq!(parse_base_color("Blue"), Some(BaseColor::Blue));
    assert_eq!(parse_base_color("Magenta"), Some(BaseColor::Magenta));
    assert_eq!(parse_base_color("Cyan"), Some(BaseColor::Cyan));
    assert_eq!(parse_base_color("White"), Some(BaseColor::White));
    assert_eq!(parse_base_color("white"), None);
    assert_eq!(parse_base_color(""), None);
    assert_eq!(parse_base_color("Purple"), None);
    assert_eq!(default_base_color(), BaseColor::White);
}

#[test]
fn paths_of_the_configuration() {
    assert_eq!(default_cache_dir(), "/var/cache/tuilog");
    assert_eq!(resolve_path("/etc/tuilog", "art.txt"), "/etc/tuilog/art.txt");
    assert_eq!(resolve_path("/etc/tuilog/", "art.txt"), "/etc/tuilog/art.txt");
    assert_eq!(resolve_path("/etc/tuilog", "/usr/share/art.txt"), "/usr/share/art.txt");
    assert_eq!(resolve_path("", "art.txt"), "art.txt");
    assert_eq!(resolve_path("/etc/tuilog", ""), "/etc/tuilog/");
    assert_eq!(resolve_path("/var/cache/tuilog", "cache.toml"), "/var/cache/tuilog/cache.toml");
    assert_eq!(title_or_hostname(Some(String::from("login")), String::from("host")), "login");
    assert_eq!(title_or_hostname(None, String::from("host")), "host");
}

#[test]
fn paths_agree_with_the_standard_library() {
    for (base, path) in vec![("/etc/tuilog", "a/b"), ("/etc/", "x"), ("", "x"), ("rel", "/abs")] {
        let expected = std::path::Path::new(base).join(path).display().to_string();
        assert_eq!(resolve_path(base, path), expected);
    }
}

#[test]
fn power_actions() {
    assert_eq!(shutdown(PowerReply::Done), Ok(()));
    assert_eq!(shutdown(PowerReply::Refused), Err(TUILogError::ShutdownFailed));
    assert_eq!(shutdown(PowerReply::Unreachable), Err(TUILogError::RemoteServiceConnectionFailed));
    assert_eq!(reboot(PowerReply::Done), Ok(()));
    assert_eq!(reboot(PowerReply::Refused), Err(TUILogError::RebootFailed));
    assert_eq!(reboot(PowerReply::Unreachable), Err(TUILogError::RemoteServiceConnectionFailed));
    let off = shutdown_call();
    assert_eq!(off.destination, "org.freedesktop.login1");
    assert_eq!(off.path, "/org/freedesktop/login1");
    assert_eq!(off.interface, "org.freedesktop.login1.Manager");
    assert_eq!(off.method, "PowerOff");
    assert!(off.interactive);
    let again = reboot_call();
    assert_eq!(again.method, "Reboot");
    assert_eq!(again.destination, off.destination);
    assert!(again.interactive);
}

#[test]
fn layout_of_a_narrow_title() {
    assert_eq!(
        content_layout(10, 5),
        Some(ContentLayout {
            max_width: 36,
            input_left_padding: 0,
            session_select_left_padding: 13,
            session_select_right_padding: 14,
            buttons_left_padding: 1,
        })
    );
}

#[test]
fn layout_of_a_wide_title() {
    assert_eq!(
        content_layout(61, 17),
        Some(ContentLayout {
            max_width: 61,
            input_left_padding: 12,
            session_select_left_padding: 20,
            session_select_right_padding: 20,
            buttons_left_padding: 13,
        })
    );
}

#[test]
fn layout_needs_room_for_the_selector() {
    assert!(content_layout(0, 32).is_some());
    assert_eq!(content_layout(0, 33), None);
    assert_eq!(content_layout(40, 37), None);
    assert_eq!(content_layout(usize::MAX, usize::MAX), None);
    assert!(content_layout(usize::MAX, usize::MAX - 4).is_some());
}

#[test]
fn title_becomes_art() {
    let expected = text_to_ascii_art::to_art(String::from("ab"), "standard", 0, 1, 0);
    assert!(expected.is_ok());
    let art = hostname_art("ab");
    assert_eq!(Ok(art.clone()), expected);
    assert_ne!(art, "ab");
    assert!(split_lines(&art).len() > 1);
}

#[test]
fn title_without_art_is_shown_as_it_stands() {
    assert_eq!(hostname_art("höst"), "höst");
    assert_eq!(shown_title(None, "host"), "host");
    assert_eq!(shown_title(Some(String::from("ART")), "host"), "ART");
}

#[test]
fn content_box_of_a_title() {
    let sessions = vec![named("shell"), named("Plasma (Xsession)")];
    let content = draw_content_box("höst", &sessions);
    let made = match content {
        Some(made) => made,
        None => panic!("no box"),
    };
    assert_eq!(made.hostname_art, "höst");
    assert_eq!(
        made.layout,
        ContentLayout {
            max_width: 36,
            input_left_padding: 0,
            session_select_left_padding: 7,
            session_select_right_padding: 8,
            buttons_left_padding: 1,
        }
    );
    let wide = vec![named("a name that is much too long to fit the box")];
    assert_eq!(draw_content_box("höst", &wide), None);
}

#[test]
fn content_box_is_as_wide_as_the_art() {
    let art = hostname_art("tuilog");
    let width = longest_line_length(&art);
    assert!(width > 36);
    let made = match draw_content_box("tuilog", &vec![named("shell")]) {
        Some(made) => made,
        None => panic!("no box"),
    };
    assert_eq!(made.hostname_art, art);
    assert_eq!(made.layout.max_width, width);
    assert_eq!(made.layout.input_left_padding, (width - 36) / 2);
    assert_eq!(made.layout.session_select_left_padding, (width - 9) / 2);
}

#[test]
fn labels() {
    assert_eq!(draw_input_field("USERNAME"), "USERNAME: [");
    assert_eq!(draw_input_field("PASSWORD"), "PASSWORD: [");
    assert_eq!(draw_button("LOGIN"), "[LOGIN]");
    assert_eq!(draw_button(""), "[]");
}

#[test]
fn background_art_is_centred() {
    let placed = draw_background_ascii_art(Some("ab\nabcd\n"), 80, 24);
    let placement = match placed {
        Ok(placement) => placement,
        Err(error) => panic!("{}", error.message()),
    };
    assert_eq!(placement.lines, vec![String::from("ab"), String::from("abcd")]);
    assert_eq!(placement.start_x, 38);
    assert_eq!(placement.start_y, 11);
}

#[test]
fn background_art_larger_than_the_screen_starts_at_the_edge() {
    let placed = draw_background_ascii_art(Some("abcdef\nab\nab"), 4, 2);
    assert_eq!(placed.map(|placement| (placement.start_x, placement.start_y)), Ok((0, 0)));
    let wide = draw_background_ascii_art(Some("日本語"), 9, 1);
    assert_eq!(wide.map(|placement| (placement.start_x, placement.start_y)), Ok((3, 0)));
}

#[test]
fn unreadable_background_art_is_reported() {
    assert_eq!(draw_background_ascii_art(None, 80, 24), Err(TUILogError::BackgroundArtFailed));
}

#[test]
fn screen_starts_with_the_stored_defaults() {
    let sessions = vec![named("shell"), named("i3"), named("i3")];
    let stored = DefaultOptions {
        username: Some(String::from("alice")),
        session_name: Some(String::from("i3")),
    };
    let values = set_default_values(&stored, &sessions);
    assert_eq!(values.username, Some(String::from("alice")));
    assert!(values.focus_password);
    assert_eq!(values.session, Some(1));

    let gone = DefaultOptions { username: None, session_name: Some(String::from("sway")) };
    let values = set_default_values(&gone, &sessions);
    assert_eq!(values.username, None);
    assert!(!values.focus_password);
    assert_eq!(values.session, None);

    let nothing = DefaultOptions { username: None, session_name: None };
    assert_eq!(set_default_values(&nothing, &sessions).session, None);
    assert_eq!(session_position(&sessions, &String::from("shell")), Some(0));
    assert_eq!(session_position(&Vec::new(), &String::from("shell")), None);
}

#[test]
fn themes() {
    let base = get_base_theme();
    assert!(!base.shadow);
    assert_eq!(base.background, Color::Dark(BaseColor::Black));
    assert_eq!(base.primary, Color::Dark(BaseColor::White));
    assert_eq!(base.tertiary, Color::Light(BaseColor::White));
    assert_eq!(base.title_primary, Color::Dark(BaseColor::Yellow));
    assert_eq!(base.highlight_text, Color::Dark(BaseColor::Black));

    let accent = get_accent_message_theme();
    assert_eq!(accent.primary, Color::Dark(BaseColor::Cyan));
    assert_eq!(accent.background, base.background);

    let edit = get_edit_view_theme();
    assert_eq!(edit.secondary, Color::Dark(BaseColor::Black));
    assert_eq!(edit.background, Color::Dark(BaseColor::White));
    assert_eq!(edit.view, Color::Dark(BaseColor::White));
    assert_eq!(edit.primary, base.primary);

    assert_eq!(get_hostname_art_theme().primary, Color::Dark(BaseColor::Yellow));
    assert_eq!(get_error_message_theme().primary, Color::Dark(BaseColor::Red));
    assert_eq!(get_error_message_theme().secondary, base.secondary);
}
