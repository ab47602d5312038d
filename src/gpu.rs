//! Data of the discrete-GPU power controller that ships beside the relay,
//! and the decisions it takes from values read off the system.
use vstd::prelude::*;
use vstd::string::StrSliceExecFns;

verus! {

/// What the controller wants the GPU to be.
#[derive(Clone, Copy, Debug, PartialEq, Eq, Structural)]
pub enum GpuState {
    /// Enabled because the user asked for it.
    Enabled,
    /// Disabled.
    Disabled,
    /// Enabled because an external display was plugged in; disabled again
    /// when it goes.
    AutoEnabled,
    /// Should be off, but processes hold it; retried periodically.
    PendingDisable,
}

impl Default for GpuState {
    fn default() -> (r: GpuState)
        ensures
            r == GpuState::Disabled,
    {
        GpuState::Disabled
    }
}

/// State the controller keeps between runs.
#[derive(Clone, Copy, Debug, PartialEq, Eq, Structural)]
pub struct DaemonState {
    pub gpu_state: GpuState,
    /// State before an automatic enable, restored when the display goes.
    pub previous_state: Option<GpuState>,
    /// Identifier of the pending-disable notification, if one is shown.
    pub pending_notification_id: Option<u32>,
}

impl Default for DaemonState {
    fn default() -> (r: DaemonState)
        ensures
            r == (DaemonState {
                gpu_state: GpuState::Disabled,
                previous_state: None,
                pending_notification_id: None,
            }),
    {
        DaemonState {
            gpu_state: GpuState::Disabled,
            previous_state: None,
            pending_notification_id: None,
        }
    }
}

/// A process that holds the GPU open.
#[derive(Clone, Debug)]
pub struct ProcessInfo {
    pub pid: u32,
    pub name: String,
}

/// Everything the controller reports about the GPU.
#[derive(Clone, Debug)]
pub struct GpuStatus {
    pub present: bool,
    pub modules_loaded: bool,
    pub power_state: Option<String>,
    pub soft_disabled_at_boot: bool,
    pub blocking_processes: Vec<ProcessInfo>,
    pub specialisation: String,
    pub can_control: bool,
}

/// Failures of a GPU operation.
#[derive(Clone, Debug)]
pub enum GpuError {
    OperationFailed(String),
    /// A system call failed; the text is the system's message.
    IoError(String),
    ProcessesBlocking(Vec<ProcessInfo>),
    NotOffloadMode,
}

/// Requests a client sends to the controller.
#[derive(Clone, Copy, Debug, PartialEq, Eq, Structural)]
pub enum Request {
    Status,
    Enable,
    Disable { kill: bool, force: bool },
    /// Keep the GPU on, chosen from a notification.
    KeepOn,
    /// Disable the GPU whatever holds it, chosen from a notification.
    ForceDisable,
}

/// Answers of the controller.
#[derive(Clone, Debug)]
pub enum Response {
    Status { status: GpuStatus, daemon_state: Option<GpuState> },
    Success { message: String },
    Error { message: String },
    ProcessesBlocking { processes: Vec<ProcessInfo> },
}

/// A display connector appeared or went away.
#[derive(Clone, Debug)]
pub enum HotplugEvent {
    DisplayConnected(String),
    DisplayDisconnected(String),
}

/// Whether the system specialisation lets the controller switch the GPU:
/// the default (offload) one, `prime-ready`, or none named.
pub open spec fn offload_specialisation(s: Seq<char>) -> bool {
    s == seq!['d', 'e', 'f', 'a', 'u', 'l', 't'] || s == seq![
        'p',
        'r',
        'i',
        'm',
        'e',
        '-',
        'r',
        'e',
        'a',
        'd',
        'y',
    ] || s.len() == 0
}

/// The connector of the integrated GPU's internal panel.
pub open spec fn internal_output() -> Seq<char> {
    seq!['e', 'D', 'P', '-', '1']
}

/// Whether two strings hold the same characters.
fn same_text(a: &str, b: &str) -> (r: bool)
    ensures
        r == (a@ == b@),
{
    let n = a.unicode_len();
    if n != b.unicode_len() {
        return false;
    }
    let mut i: usize = 0;
    while i < n
        invariant
            n == a@.len(),
            n == b@.len(),
            i <= n,
            forall|j: int| 0 <= j < i ==> a@[j] == b@[j],
        decreases n - i,
    {
        if a.get_char(i) != b.get_char(i) {
            return false;
        }
        i = i + 1;
    }
    assert(a@ =~= b@);
    true
}

/// Whether GPU control is allowed under the named system specialisation.
pub fn is_offload_mode(specialisation: &str) -> (r: bool)
    ensures
        r == offload_specialisation(specialisation@),
{
    proof {
        reveal_strlit("default");
        reveal_strlit("prime-ready");
    }
    let default_mode = same_text(specialisation, "default");
    let prime_ready = same_text(specialisation, "prime-ready");
    assert("default"@ =~= seq!['d', 'e', 'f', 'a', 'u', 'l', 't']);
    assert("prime-ready"@ =~= seq!['p', 'r', 'i', 'm', 'e', '-', 'r', 'e', 'a', 'd', 'y']);
    default_mode || prime_ready || specialisation.unicode_len() == 0
}

/// Whether a display connector belongs to the discrete GPU, that is, is not
/// the internal panel.
pub fn is_external_output(output: &str) -> (r: bool)
    ensures
        r == (output@ != internal_output()),
{
    proof {
        reveal_strlit("eDP-1");
    }
    let internal = same_text(output, "eDP-1");
    assert("eDP-1"@ =~= internal_output());
    !internal
}

/// Assembles the status report from the values read off the system; control
/// is offered exactly under an offload specialisation.
pub fn get_status(
    present: bool,
    modules_loaded: bool,
    power_state: Option<String>,
    soft_disabled_at_boot: bool,
    blocking_processes: Vec<ProcessInfo>,
    specialisation: String,
) -> (r: GpuStatus)
    ensures
        r.present == present,
        r.modules_loaded == modules_loaded,
        r.power_state == power_state,
        r.soft_disabled_at_boot == soft_disabled_at_boot,
        r.blocking_processes@ == blocking_processes@,
        r.specialisation@ == specialisation@,
        r.can_control == offload_specialisation(specialisation@),
{
    let can_control = is_offload_mode(specialisation.as_str());
    GpuStatus {
        present,
        modules_loaded,
        power_state,
        soft_disabled_at_boot,
        blocking_processes,
        specialisation,
        can_control,
    }
}

} // verus!
