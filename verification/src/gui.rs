use vstd::prelude::*;

use crate::service_config::ServiceConfig;
use crate::service_utils::spec_service_status;
use crate::text::{concat, contains, contains_str, str_eq};

verus! {

// Decisions of the controller's window: which button does what, which
// buttons react in which service state, and what the labels say.

/// Control ID of the install button.
pub const ID_INSTALL: i32 = 101;

/// Control ID of the uninstall button.
pub const ID_UNINSTALL: i32 = 102;

/// Control ID of the start button.
pub const ID_START: i32 = 103;

/// Control ID of the stop button.
pub const ID_STOP: i32 = 104;

/// Control ID of the status line.
pub const ID_STATUS: i32 = 201;

/// A service operation that a button asks for.
#[derive(Debug, Clone, Copy, PartialEq, Eq, Structural)]
pub enum ServiceCommand {
    Install,
    Uninstall,
    Start,
    Stop,
}

/// Which of the four buttons react.
#[derive(Debug, Clone, Copy, PartialEq, Eq, Structural)]
pub struct ButtonStates {
    pub install: bool,
    pub uninstall: bool,
    pub start: bool,
    pub stop: bool,
}

/// The operation of the button with control ID `id`, if it is one of the four.
pub open spec fn spec_command_for_id(id: i32) -> Option<ServiceCommand> {
    if id == ID_INSTALL {
        Some(ServiceCommand::Install)
    } else if id == ID_UNINSTALL {
        Some(ServiceCommand::Uninstall)
    } else if id == ID_START {
        Some(ServiceCommand::Start)
    } else if id == ID_STOP {
        Some(ServiceCommand::Stop)
    } else {
        None
    }
}

/// The operation of a command from the window (the low word of `WPARAM`).
pub fn command_for_id(id: i32) -> (r: Option<ServiceCommand>)
    ensures
        r == spec_command_for_id(id),
{
    if id == ID_INSTALL {
        Some(ServiceCommand::Install)
    } else if id == ID_UNINSTALL {
        Some(ServiceCommand::Uninstall)
    } else if id == ID_START {
        Some(ServiceCommand::Start)
    } else if id == ID_STOP {
        Some(ServiceCommand::Stop)
    } else {
        None
    }
}

/// The buttons that react, from two status queries: the service counts as
/// installed when the first reads anything but `未安装`, and as running when
/// it is installed and the second holds `运行中`. Install reacts only when
/// not installed, uninstall only when installed, start only when installed
/// and not running, stop only when installed and running.
pub open spec fn spec_button_states(installed_query: Seq<char>, running_query: Seq<char>) -> ButtonStates {
    let installed = installed_query != "未安装"@;
    let running = installed && contains(running_query, "运行中"@);
    ButtonStates {
        install: !installed,
        uninstall: installed,
        start: installed && !running,
        stop: installed && running,
    }
}

/// The buttons that react after two status queries (see `spec_button_states`).
pub fn button_states(installed_query: &str, running_query: &str) -> (r: ButtonStates)
    ensures
        r == spec_button_states(installed_query@, running_query@),
{
    let installed: bool = !str_eq(installed_query, "未安装");
    let running: bool = installed && contains_str(running_query, "运行中");
    ButtonStates {
        install: !installed,
        uninstall: installed,
        start: installed && !running,
        stop: installed && running,
    }
}

/// The text of the status line: `状态: <status>`.
pub fn status_text(status: &str) -> (r: String)
    ensures
        r@ == "状态: "@ + status@,
{
    concat("状态: ", status)
}

/// The label that names the service: `服务: <service id>`.
pub fn service_label(cfg: &ServiceConfig) -> (r: String)
    ensures
        r@ == "服务: "@ + cfg.service_id@,
{
    concat("服务: ", cfg.service_id.as_str())
}

/// In every state of the service exactly one of install and uninstall
/// reacts, and start and stop never both react.
pub proof fn lemma_buttons_exclusive(installed_query: Seq<char>, running_query: Seq<char>)
    ensures
        spec_button_states(installed_query, running_query).install != spec_button_states(
            installed_query,
            running_query,
        ).uninstall,
        !(spec_button_states(installed_query, running_query).start && spec_button_states(
            installed_query,
            running_query,
        ).stop),
        spec_button_states(installed_query, running_query).start || spec_button_states(
            installed_query,
            running_query,
        ).stop ==> spec_button_states(installed_query, running_query).uninstall,
{
}

/// The buttons follow the state that the service manager reports: a
/// service that cannot be opened can only be installed; a running one can
/// be stopped or removed; one in any other state can be started or removed.
pub proof fn lemma_buttons_follow_state(state: Option<u32>)
    ensures
        spec_button_states(spec_service_status(state), spec_service_status(state)) == (match state {
            None => ButtonStates { install: true, uninstall: false, start: false, stop: false },
            Some(code) => if code == 4 {
                ButtonStates { install: false, uninstall: true, start: false, stop: true }
            } else {
                ButtonStates { install: false, uninstall: true, start: true, stop: false }
            },
        }),
{
    reveal_strlit("未安装");
    reveal_strlit("运行中");
    reveal_strlit("已停止");
    reveal_strlit("启动中");
    reveal_strlit("停止中");
    reveal_strlit("恢复中");
    reveal_strlit("暂停中");
    reveal_strlit("已暂停");
    reveal_strlit("未知");
    let label = spec_service_status(state);
    let running: Seq<char> = "运行中"@;
    match state {
        None => {},
        Some(code) => {
            let absent: Seq<char> = "未安装"@;
            if code == 1 || code == 2 || code == 3 || code == 4 || code == 5 || code == 6 || code
                == 7 {
                assert(label[0] != absent[0]);
            } else {
                assert(label.len() != absent.len());
            }
            assert(label != absent);
            if code == 4 {
                assert(label.subrange(0int, 0int + running.len()) =~= running);
            } else {
                assert forall|i: int|
                    0 <= i && i + running.len() <= label.len() implies #[trigger] label.subrange(
                    i,
                    i + running.len(),
                ) != running by {
                    assert(i == 0);
                    assert(label.subrange(i, i + running.len()) =~= label);
                    assert(label[1] != running[1] || label[0] != running[0] || label[2]
                        != running[2]);
                }
            }
        },
    }
}

} // verus!
