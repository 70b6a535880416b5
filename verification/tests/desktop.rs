use xdotool::command::options::{SetDesktopOption, SyncOption};
use xdotool::invocation::{EnvVar, Invocation};
use xdotool::optionvec::OptionVec;
use xdotool::XServer;

fn session() -> XServer {
    XServer { display: 1, auth: "/tmp/auth".to_string() }
}

fn shell(line: &str) -> Invocation {
    Invocation {
        program: "sh".to_string(),
        args: vec!["-c".to_string(), line.to_string()],
        env: vec![
            EnvVar { name: "DISPLAY".to_string(), value: ":1".to_string() },
            EnvVar { name: "XAUTHORITY".to_string(), value: "/tmp/auth".to_string() },
        ],
    }
}

#[test]
fn activate_window_without_options() {
    let inv = session().activate_window("12345", OptionVec::new());
    assert_eq!(inv, shell("xdotool windowactivate 12345"));
}

#[test]
fn activate_window_with_sync() {
    let inv = session().activate_window("12345", OptionVec(vec![SyncOption::Sync]));
    assert_eq!(inv, shell("xdotool windowactivate --sync 12345"));
}

#[test]
fn get_active_window_line() {
    assert_eq!(session().get_active_window(), shell("xdotool getactivewindow "));
}

#[test]
fn set_num_desktops_line() {
    assert_eq!(session().set_num_desktops(4), shell("xdotool set_num_desktops 4"));
    assert_eq!(session().set_num_desktops(0), shell("xdotool set_num_desktops 0"));
    assert_eq!(session().set_num_desktops(255), shell("xdotool set_num_desktops 255"));
}

#[test]
fn get_num_desktops_line() {
    assert_eq!(session().get_num_desktops(), shell("xdotool get_num_desktops "));
}

#[test]
fn set_desktop_viewport_line() {
    assert_eq!(
        session().set_desktop_viewport(1920, 0),
        shell("xdotool set_desktop_viewport 1920 0")
    );
    assert_eq!(
        session().set_desktop_viewport(65535, 65535),
        shell("xdotool set_desktop_viewport 65535 65535")
    );
}

#[test]
fn get_desktop_viewport_line() {
    assert_eq!(session().get_desktop_viewport(), shell("xdotool get_desktop_viewport "));
}

#[test]
fn set_desktop_absolute() {
    assert_eq!(session().set_desktop(2, OptionVec::new()), shell("xdotool set_desktop 2"));
}

#[test]
fn set_desktop_relative_to_the_current_one() {
    let inv = session().set_desktop(2, OptionVec(vec![SetDesktopOption::Relative]));
    assert_eq!(inv, shell("xdotool set_desktop --relative 2"));
}

#[test]
fn get_desktop_line() {
    assert_eq!(session().get_desktop(), shell("xdotool get_desktop "));
}

#[test]
fn set_desktop_for_window_line() {
    assert_eq!(
        session().set_desktop_for_window("0x1a00003", 3),
        shell("xdotool set_desktop_for_window 0x1a00003 3")
    );
    assert_eq!(
        session().set_desktop_for_window("", 100),
        shell("xdotool set_desktop_for_window  100")
    );
}

#[test]
fn get_desktop_for_window_line() {
    assert_eq!(
        session().get_desktop_for_window("0x1a00003"),
        shell("xdotool get_desktop_for_window 0x1a00003")
    );
}
