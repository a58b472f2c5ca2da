use serial_tool::controller::{Command, Reply};
use serial_tool::controls::{controls, Controls};
use serial_tool::serial_port::{SessionError, SessionState};
use serial_tool::ui::SerialTool;

#[test]
fn buttons_start_for_idle() {
    let tool: SerialTool<u32> = SerialTool::new();
    assert_eq!(tool.session().state(), SessionState::Idle);
    assert_eq!(
        tool.buttons(),
        Controls { open: true, close: false, start_read: false, stop_read: false, write: false }
    );
}

#[test]
fn buttons_follow_every_command() {
    let mut tool: SerialTool<u32> = SerialTool::new();
    assert!(tool.command(Command::Open(Some(1))).is_ok());
    assert_eq!(tool.session().state(), SessionState::Connected);
    assert_eq!(
        tool.buttons(),
        Controls { open: false, close: true, start_read: true, stop_read: false, write: true }
    );
    assert!(matches!(tool.command(Command::StartRead(Some(2))), Ok(Reply::Reader(2))));
    assert_eq!(tool.session().state(), SessionState::Reading);
    assert_eq!(
        tool.buttons(),
        Controls { open: false, close: true, start_read: false, stop_read: true, write: true }
    );
    assert!(tool.command(Command::Write("ping".to_string())).is_ok());
    assert_eq!(tool.buttons(), controls(SessionState::Reading));
    assert!(tool.command(Command::StopRead).is_ok());
    assert_eq!(tool.buttons(), controls(SessionState::Connected));
    assert!(tool.command(Command::Close).is_ok());
    assert_eq!(tool.buttons(), controls(SessionState::Idle));
}

#[test]
fn buttons_after_a_rejected_command() {
    let mut tool: SerialTool<u32> = SerialTool::new();
    assert!(tool.command(Command::Open(Some(1))).is_ok());
    let select = Command::Select { port: None, baud: None };
    assert_eq!(tool.command(select).err(), Some(SessionError::SelectionMissing));
    assert_eq!(tool.session().state(), SessionState::Idle);
    assert_eq!(tool.buttons(), controls(SessionState::Idle));
    assert_eq!(tool.command(Command::StopRead).err(), Some(SessionError::NotConnected));
    assert_eq!(tool.buttons(), controls(SessionState::Idle));
}

#[test]
fn stop_is_prompt_for_the_reader() {
    let mut tool: SerialTool<u32> = SerialTool::new();
    assert!(tool.command(Command::Open(Some(1))).is_ok());
    assert!(tool.command(Command::StartRead(Some(2))).is_ok());
    assert!(tool.session().run_flag());
    assert!(tool.command(Command::StopRead).is_ok());
    assert!(!tool.session().run_flag());
}
