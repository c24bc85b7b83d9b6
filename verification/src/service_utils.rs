use vstd::prelude::*;

use crate::service_config::{opt_str, ServiceConfig};
use crate::text::{
    concat, copy_str, eq_ignore_ascii_case, eq_ignore_ascii_case_spec, to_wide_nul, utf16,
};

verus! {

// Service management through the service control manager of Windows.

/// How the service control manager starts the service.
#[derive(Debug, Clone, Copy, PartialEq, Eq, Structural)]
pub enum StartType {
    /// At system start (`SERVICE_AUTO_START`).
    AutoStart,
    /// On demand (`SERVICE_DEMAND_START`).
    DemandStart,
}

/// What `CreateServiceW` and `ChangeServiceConfig2W` receive to install a service.
pub struct ServiceInstallPlan {
    pub service_id: String,
    pub display_name: String,
    /// The command that the service manager runs: the controller in service mode.
    pub bin_path: String,
    pub start_type: StartType,
    /// The description to set after creation, if the configuration has one.
    pub description: Option<String>,
}

/// The start type for a start mode: at system start for `automatic` in any
/// ASCII case, else on demand.
pub open spec fn spec_start_type(start_mode: Seq<char>) -> StartType {
    if eq_ignore_ascii_case_spec(start_mode, "automatic"@) {
        StartType::AutoStart
    } else {
        StartType::DemandStart
    }
}

/// The start type of the service of `cfg`.
pub fn start_type(cfg: &ServiceConfig) -> (r: StartType)
    ensures
        r == spec_start_type(cfg.start_mode@),
{
    if eq_ignore_ascii_case(cfg.start_mode.as_str(), "automatic") {
        StartType::AutoStart
    } else {
        StartType::DemandStart
    }
}

/// What installs the service of `cfg` for the controller at `exe_path`:
/// its ID and name, the controller started with `-service`, the start type,
/// and the description if there is one.
pub fn install_service(cfg: &ServiceConfig, exe_path: &str) -> (r: ServiceInstallPlan)
    ensures
        r.service_id@ == cfg.service_id@,
        r.display_name@ == cfg.service_name@,
        r.bin_path@ == exe_path@ + " -service"@,
        r.start_type == spec_start_type(cfg.start_mode@),
        opt_str(r.description) == opt_str(cfg.description),
{
    ServiceInstallPlan {
        service_id: cfg.service_id.clone(),
        display_name: cfg.service_name.clone(),
        bin_path: concat(exe_path, " -service"),
        start_type: start_type(cfg),
        description: crate::service_config::clone_opt_str(&cfg.description),
    }
}

/// The label of a service state as `QueryServiceStatus` reports it
/// (`dwCurrentState`): stopped, starting, stopping, running, resuming,
/// pausing, paused; `未知` (unknown) for any other code.
pub open spec fn spec_state_label(code: u32) -> Seq<char> {
    if code == 1 {
        "已停止"@
    } else if code == 2 {
        "启动中"@
    } else if code == 3 {
        "停止中"@
    } else if code == 4 {
        "运行中"@
    } else if code == 5 {
        "恢复中"@
    } else if code == 6 {
        "暂停中"@
    } else if code == 7 {
        "已暂停"@
    } else {
        "未知"@
    }
}

/// The state of a service: `未安装` (not installed) where the service manager
/// or the service could not be opened, else the label of its state code.
pub open spec fn spec_service_status(state: Option<u32>) -> Seq<char> {
    match state {
        Some(code) => spec_state_label(code),
        None => "未安装"@,
    }
}

/// The state of a service from the state code that the service manager
/// reported, or from `None` where the service could not be opened.
pub fn query_service_status(state: Option<u32>) -> (r: String)
    ensures
        r@ == spec_service_status(state),
{
    match state {
        None => copy_str("未安装"),
        Some(code) => {
            if code == 1 {
                copy_str("已停止")
            } else if code == 2 {
                copy_str("启动中")
            } else if code == 3 {
                copy_str("停止中")
            } else if code == 4 {
                copy_str("运行中")
            } else if code == 5 {
                copy_str("恢复中")
            } else if code == 6 {
                copy_str("暂停中")
            } else if code == 7 {
                copy_str("已暂停")
            } else {
                copy_str("未知")
            }
        },
    }
}

/// A string as a zero-terminated UTF-16 string for the Windows API.
pub fn to_pcwstr(s: &str) -> (r: Vec<u16>)
    ensures
        r@ == utf16(s@).push(0),
{
    to_wide_nul(s)
}

} // verus!
