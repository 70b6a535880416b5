use xdotool::command::options::{SearchOption, SetDesktopOption, SyncOption};
use xdotool::command::sub_commands::{Desktop, Keyboard, Window};
use xdotool::command::Command;
use xdotool::invocation::{EnvVar, Invocation};
use xdotool::optionvec::OptionVec;
use xdotool::XServer;

fn server(display: u32, auth: &str) -> XServer {
    XServer { display, auth: auth.to_string() }
}

fn var(name: &str, value: &str) -> EnvVar {
    EnvVar { name: name.to_string(), value: value.to_string() }
}

fn line(inv: &Invocation) -> &str {
    assert_eq!(inv.program, "sh");
    assert_eq!(inv.args.len(), 2);
    assert_eq!(inv.args[0], "-c");
    &inv.args[1]
}

#[test]
fn run_window_activate_line() {
    let command = Command::Desktop(Desktop::WindowActivate(OptionVec::new()));
    let inv = server(0, "/run/user/1000/xauth").run(command, "12345");
    assert_eq!(line(&inv), "xdotool windowactivate 12345");
}

#[test]
fn run_set_desktop_relative_line() {
    let command =
        Command::Desktop(Desktop::SetDesktop(OptionVec(vec![SetDesktopOption::Relative])));
    let inv = server(0, "/run/user/1000/xauth").run(command, "2");
    let text = line(&inv);
    assert_eq!(text, "xdotool set_desktop --relative 2");
    assert_eq!(text.matches("--relative").count(), 1);
    assert!(text.find("--relative").unwrap() < text.rfind('2').unwrap());
}

#[test]
fn run_builds_the_whole_invocation() {
    let command = Command::Window(Window::Search(OptionVec(vec![SearchOption::Name])));
    let inv = server(3, "/tmp/auth").run(command, "firefox");
    let expected = Invocation {
        program: "sh".to_string(),
        args: vec!["-c".to_string(), "xdotool search --name firefox".to_string()],
        env: vec![var("DISPLAY", ":3"), var("XAUTHORITY", "/tmp/auth")],
    };
    assert_eq!(inv, expected);
}

#[test]
fn run_with_empty_arguments_keeps_one_separator() {
    let inv = server(0, "").run(Command::Desktop(Desktop::GetActiveWindow), "");
    let text = line(&inv);
    assert_eq!(text, "xdotool getactivewindow ");
    assert!(!text.contains("  "));
}

#[test]
fn run_is_command_text_space_arguments() {
    let arguments = ["", "1", "0x1a00003", "10 20", "--window 7 ctrl+c"];
    for args in arguments {
        let command = Command::Keyboard(Keyboard::Key(OptionVec::new()));
        let rendered = command.render();
        let inv = server(1, "a").run(command, args);
        assert_eq!(line(&inv), format!("xdotool {} {}", rendered, args));
    }
}

#[test]
fn line_splits_into_tool_command_and_arguments() {
    let command = Command::Window(Window::Search(OptionVec(vec![
        SearchOption::OnlyVisible,
        SearchOption::Class,
    ])));
    let inv = server(0, "a").run(command, "xterm");
    let pieces: Vec<&str> = line(&inv).split(' ').collect();
    assert_eq!(pieces, vec!["xdotool", "search", "--onlyvisible", "--class", "xterm"]);
}

#[test]
fn run_hands_arguments_on_unchanged() {
    let command = Command::Keyboard(Keyboard::Type(OptionVec::new()));
    let inv = server(0, "a").run(command, "'it''s  $HOME; echo'");
    assert_eq!(line(&inv), "xdotool type 'it''s  $HOME; echo'");
}

#[test]
fn run_twice_builds_equal_invocations() {
    let session = server(5, "/tmp/auth");
    let command = || Command::Desktop(Desktop::WindowActivate(OptionVec(vec![SyncOption::Sync])));
    assert_eq!(session.run(command(), "42"), session.run(command(), "42"));
}

#[test]
fn screenshot_of_display_seven() {
    let inv = server(7, "/home/user/.Xauthority").screenshot();
    assert_eq!(inv.program, "xwd");
    assert_eq!(inv.args, vec!["-root".to_string()]);
    let displays: Vec<&EnvVar> = inv.env.iter().filter(|v| v.name == "DISPLAY").collect();
    assert_eq!(displays.len(), 1);
    assert_eq!(displays[0].value, ":7");
    assert_eq!(inv.env, vec![var("DISPLAY", ":7"), var("XAUTHORITY", "/home/user/.Xauthority")]);
}

#[test]
fn display_number_is_written_in_decimal() {
    assert_eq!(server(0, "").screenshot().env[0], var("DISPLAY", ":0"));
    assert_eq!(server(10, "").screenshot().env[0], var("DISPLAY", ":10"));
    assert_eq!(server(u32::MAX, "").screenshot().env[0], var("DISPLAY", ":4294967295"));
}

#[test]
fn authority_is_handed_on_unchanged() {
    let inv = server(0, "/path with spaces/.Xauthority").screenshot();
    assert_eq!(inv.env[1], var("XAUTHORITY", "/path with spaces/.Xauthority"));
    let inv = server(0, "").run(Command::Desktop(Desktop::GetDesktop), "");
    assert_eq!(inv.env[1], var("XAUTHORITY", ""));
}

#[test]
fn run_and_screenshot_share_the_environment() {
    let session = server(12, "/tmp/auth");
    let run = session.run(Command::Desktop(Desktop::GetDesktop), "");
    assert_eq!(run.env, session.screenshot().env);
    assert_eq!(run.env.len(), 2);
}
