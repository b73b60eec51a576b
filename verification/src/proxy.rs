use vstd::prelude::*;
use vstd::string::*;

use crate::config::{spec_find_by_name, spec_resolve, Config};
use crate::desktop::Desktop;
use crate::error::Error;
use crate::log_level::spec_log_level_code;
use crate::node::{spec_trojan_json, ServerNode};
use crate::pac::CommandSpec;
use crate::text::{dec_string, spec_dec, str_eq};
use crate::trojan::TrojanFileState;

verus! {

/// The operating-system flavor the supervisor runs on, with the data its
/// proxy-setting mechanism needs: the active network service name where the
/// network-configuration utility is used, and the desktop environment where
/// desktop configuration tools are used.
#[derive(Debug)]
pub enum Platform {
    MacOs { service: String },
    Windows,
    Linux { desktop: Desktop },
}

/// The file name of the managed proxy executable on this platform.
pub open spec fn spec_executable_file_name(p: Platform) -> Seq<char> {
    match p {
        Platform::Windows => "trojan-go.exe"@,
        _ => "trojan-go"@,
    }
}

impl Platform {
    pub fn executable_file_name(&self) -> (r: &'static str)
        ensures
            r@ == spec_executable_file_name(*self),
    {
        match self {
            Platform::Windows => "trojan-go.exe",
            _ => "trojan-go",
        }
    }
}

/// One entry of a process-table snapshot: a pid and the process's command
/// line, the program name first.
#[derive(Debug)]
pub struct ProcessInfo {
    pub pid: u32,
    pub cmd: Vec<String>,
}

/// The classification of a running instance of the managed executable.
/// `Daemon` carries the catalog node its configuration resolves to;
/// `Invalid` a process started by this program whose configuration no longer
/// resolves to any catalog node; `Other` a foreign process that merely shares
/// the executable name. "No process" is the absent case of the surrounding
/// `Option`.
#[derive(Debug)]
pub enum TrojanProcessState {
    Daemon(ServerNode),
    Invalid { pid: u32 },
    Other { pid: u32 },
}

/// What a node switch requires of the caller: kill `kill_pid` first when it
/// is non-zero, then persist `config_text` to the external configuration
/// path, then relaunch.
#[derive(Debug)]
pub struct SwitchPlan {
    pub kill_pid: u32,
    pub config_text: String,
}

/// The file-system effect that toggling autostart requires of the caller.
#[derive(Debug)]
pub enum AutostartAction {
    RemoveFile(String),
    WriteFile { path: String, content: String },
}

/// The supervisor of the managed proxy process: the platform strategy, the
/// paths it launches and inspects with, and its own bookkeeping — the pid of
/// the child it spawned or adopted (0 when none) and whether that child
/// should outlive this program.
#[derive(Debug)]
pub struct Proxy {
    pub platform: Platform,
    pub executable_file: String,
    pub auto_start_path: String,
    pub trojan_config_path: String,
    pub child_id: u32,
    pub daemon: bool,
}

/// The pid the classification looks at: the first process of the snapshot,
/// or 0 when the snapshot is empty.
pub open spec fn spec_first_pid(procs: Seq<ProcessInfo>) -> u32 {
    if procs.len() == 0 {
        0
    } else {
        procs[0].pid
    }
}

/// Whether the first process of the snapshot was invoked exactly as this
/// program invokes the managed executable: the program name followed by
/// `-config <expected path>` and nothing else. A command line with extra
/// trailing arguments is foreign.
pub open spec fn spec_args_match(procs: Seq<ProcessInfo>, expected: Seq<char>) -> bool {
    procs.len() > 0 && procs[0].cmd@.len() == 3 && procs[0].cmd@[1]@ == "-config"@
        && procs[0].cmd@[2]@ == expected
}

/// The catalog node the external configuration file points at, given what
/// reading that file yielded.
pub open spec fn spec_trojan_resolved(catalog: Config, trojan: TrojanFileState) -> Option<
    ServerNode,
> {
    match trojan {
        TrojanFileState::Parsed(t) => spec_resolve(catalog.nodes@, t),
        _ => None,
    }
}

/// The fields of the supervisor that no operation but construction changes.
pub open spec fn spec_same_identity(a: Proxy, b: Proxy) -> bool {
    a.platform == b.platform && a.executable_file == b.executable_file && a.auto_start_path
        == b.auto_start_path && a.trojan_config_path == b.trojan_config_path
}

/// Relies on sysinfo's `System::new_all` and `System::processes_by_exact_name`:
/// a snapshot of the processes whose executable name equals `name`, as pid and
/// command line. Which processes exist, and in what order they are listed,
/// depend on the machine at the moment of the call, so nothing is promised of
/// the result.
#[verifier::external_body]
fn processes_named(name: &str) -> (r: Vec<ProcessInfo>) {
    let sys = sysinfo::System::new_all();
    sys.processes_by_exact_name(name.as_ref()).map(
        |p|
            ProcessInfo {
                pid: p.pid().as_u32(),
                cmd: p.cmd().iter().map(|c| c.to_string_lossy().into_owned()).collect(),
            },
    ).collect()
}

/// Relies on std's `Path::exists`: whether a file-system entity exists at
/// `path` at the moment of the call. The answer depends on the disk, so
/// nothing is promised of it.
#[verifier::external_body]
fn path_exists(path: &str) -> bool {
    std::path::Path::new(path).exists()
}

impl Proxy {
    /// A fresh supervisor: no child is tracked and the daemon flag is off.
    pub fn new(
        platform: Platform,
        executable_file: String,
        auto_start_path: String,
        trojan_config_path: String,
    ) -> (r: Self)
        ensures
            r.platform == platform,
            r.executable_file == executable_file,
            r.auto_start_path == auto_start_path,
            r.trojan_config_path == trojan_config_path,
            r.child_id == 0,
            r.daemon == false,
    {
        Proxy { platform, executable_file, auto_start_path, trojan_config_path, child_id: 0, daemon: false }
    }

    pub fn child_id(&self) -> (r: u32)
        ensures
            r == self.child_id,
    {
        self.child_id
    }

    pub fn reset_child_id(&mut self)
        ensures
            final(self).child_id == 0,
            final(self).daemon == old(self).daemon,
            spec_same_identity(*final(self), *old(self)),
    {
        self.child_id = 0;
    }

    pub fn daemon(&self) -> (r: bool)
        ensures
            r == self.daemon,
    {
        self.daemon
    }

    /// Flips whether the child should be left running after this program
    /// exits; nothing else changes.
    pub fn switch_daemon(&mut self)
        ensures
            final(self).daemon == !old(self).daemon,
            final(self).child_id == old(self).child_id,
            spec_same_identity(*final(self), *old(self)),
    {
        self.daemon = !self.daemon;
    }

    /// Whether the managed executable is present at its expected path; the
    /// answer is a disk snapshot and can change at any time.
    pub fn check_executable_file(&self) -> bool {
        path_exists(self.executable_file.as_str())
    }

    /// Whether the platform startup artifact exists; a disk snapshot.
    pub fn auto_start_state(&self) -> bool {
        path_exists(self.auto_start_path.as_str())
    }

    /// Records a child spawned by the caller. New children default to
    /// surviving this program's exit until the flag is explicitly toggled.
    pub fn record_launch(&mut self, pid: u32)
        ensures
            final(self).child_id == pid,
            final(self).daemon == true,
            spec_same_identity(*final(self), *old(self)),
    {
        self.child_id = pid;
        self.daemon = true;
    }

    /// The command line that launches the managed executable against the
    /// external configuration path.
    pub fn launch_command(&self) -> (r: CommandSpec)
        ensures
            r.program@ == self.executable_file@,
            r.args@.len() == 2,
            r.args@[0]@ == "-config"@,
            r.args@[1]@ == self.trojan_config_path@,
    {
        let mut args: Vec<String> = Vec::new();
        args.push(String::from_str("-config"));
        args.push(self.trojan_config_path.clone());
        CommandSpec { program: self.executable_file.clone(), args }
    }

    /// Settles which pid the caller must signal. A given pid is passed
    /// through untouched, with supervisor state unchanged; an omitted pid
    /// yields the tracked child (0 when none — signalling pid 0 is the
    /// caller's no-op) and resets the bookkeeping: no child tracked, daemon
    /// flag off.
    pub fn terminate(&mut self, pid: Option<u32>) -> (to_kill: u32)
        ensures
            spec_same_identity(*final(self), *old(self)),
            pid matches Some(p) ==> to_kill == p && *final(self) == *old(self),
            pid is None ==> to_kill == old(self).child_id && final(self).child_id == 0
                && final(self).daemon == false,
    {
        match pid {
            Some(p) => p,
            None => {
                let c = self.child_id;
                self.child_id = 0;
                self.daemon = false;
                c
            },
        }
    }

    /// Plans a node switch: the pid of the currently tracked child (0 when
    /// none), which the caller must kill first, and the fresh external
    /// configuration text for the named node, which the caller must persist
    /// before relaunching. An absent name is the `Config` error, and nothing
    /// — neither supervisor state nor any file — changes on that path.
    pub fn plan_switch(&self, catalog: &Config, name: &str, log_file: &str) -> (r: Result<
        SwitchPlan,
        Error,
    >)
        ensures
            r is Ok <==> spec_find_by_name(catalog.nodes@, name@) is Some,
            r matches Ok(p) ==> p.kill_pid == self.child_id && p.config_text@ == spec_trojan_json(
                spec_log_level_code(catalog.log_level),
                log_file@,
                catalog.local_addr@,
                catalog.local_port,
                spec_find_by_name(catalog.nodes@, name@)->Some_0.addr@,
                spec_find_by_name(catalog.nodes@, name@)->Some_0.port,
                spec_find_by_name(catalog.nodes@, name@)->Some_0.password@,
            ),
            r matches Err(e) ==> (e matches Error::Config(m) && m@ == "server node not found: "@
                + name@),
    {
        match catalog.set_server_node(name, log_file) {
            Ok(text) => Ok(SwitchPlan { kill_pid: self.child_id, config_text: text }),
            Err(e) => Err(e),
        }
    }

    /// Classifies the first process of a process-table snapshot taken by
    /// name, against the expected invocation pattern and what the external
    /// configuration file held. When the process is ours and its
    /// configuration resolves to a catalog node, that pid is adopted as this
    /// supervisor's child with the daemon flag set — a matching process found
    /// already running is treated as ours, left running intentionally. In
    /// every other case supervisor state is untouched.
    pub fn get_trojan_process_state(
        &mut self,
        procs: &Vec<ProcessInfo>,
        catalog: &Config,
        trojan: &TrojanFileState,
    ) -> (r: Result<Option<TrojanProcessState>, Error>)
        requires
            trojan matches TrojanFileState::Parsed(t) ==> t.password@.len() > 0,
        ensures
            spec_same_identity(*final(self), *old(self)),
            spec_first_pid(procs@) == 0 ==> (r matches Ok(s) && s is None && *final(self) == *old(self)),
            spec_first_pid(procs@) != 0 && !spec_args_match(
                procs@,
                old(self).trojan_config_path@,
            ) ==> (r matches Ok(s) && s matches Some(st) && st matches TrojanProcessState::Other {
                pid,
            } && pid == spec_first_pid(procs@) && *final(self) == *old(self)),
            spec_first_pid(procs@) != 0 && spec_args_match(procs@, old(self).trojan_config_path@)
                && trojan is Malformed ==> (r matches Err(e) && e is Deserialize && *final(self)
                == *old(self)),
            spec_first_pid(procs@) != 0 && spec_args_match(procs@, old(self).trojan_config_path@)
                && !(trojan is Malformed) && spec_trojan_resolved(*catalog, *trojan) is None ==> (
            r matches Ok(s) && s matches Some(st) && st matches TrojanProcessState::Invalid { pid }
                && pid == spec_first_pid(procs@) && *final(self) == *old(self)),
            (spec_first_pid(procs@) != 0 && spec_args_match(procs@, old(self).trojan_config_path@)
                && spec_trojan_resolved(*catalog, *trojan) is Some) ==> (r matches Ok(s)
                && s matches Some(st) && st matches TrojanProcessState::Daemon(n) && n
                == spec_trojan_resolved(*catalog, *trojan)->Some_0 && final(self).child_id
                == spec_first_pid(procs@) && final(self).daemon == true),
    {
        if procs.len() == 0 {
            return Ok(None);
        }
        let first = &procs[0];
        let pid = first.pid;
        if pid == 0 {
            return Ok(None);
        }
        let args_ok = first.cmd.len() == 3 && str_eq(first.cmd[1].as_str(), "-config") && str_eq(
            first.cmd[2].as_str(),
            self.trojan_config_path.as_str(),
        );
        if !args_ok {
            return Ok(Some(TrojanProcessState::Other { pid }));
        }
        match trojan {
            TrojanFileState::Malformed => Err(
                Error::Deserialize(String::from_str("invalid external proxy configuration")),
            ),
            TrojanFileState::Missing => Ok(Some(TrojanProcessState::Invalid { pid })),
            TrojanFileState::Parsed(t) => {
                match catalog.get_using_server_node(Some(t)) {
                    None => Ok(Some(TrojanProcessState::Invalid { pid })),
                    Some(n) => {
                        self.child_id = pid;
                        self.daemon = true;
                        Ok(Some(TrojanProcessState::Daemon(n)))
                    },
                }
            },
        }
    }

    /// Takes a fresh process-table snapshot for the managed executable's
    /// name and classifies it. The snapshot depends on the machine at the
    /// moment of the call, so the contract states what holds of each
    /// outcome, whatever came back.
    pub fn inspect_system(&mut self, catalog: &Config, trojan: &TrojanFileState) -> (r: Result<
        Option<TrojanProcessState>,
        Error,
    >)
        requires
            trojan matches TrojanFileState::Parsed(t) ==> t.password@.len() > 0,
        ensures
            spec_same_identity(*final(self), *old(self)),
            match r {
                Err(e) => trojan is Malformed && e is Deserialize && *final(self) == *old(self),
                Ok(None) => *final(self) == *old(self),
                Ok(Some(TrojanProcessState::Other { .. })) => *final(self) == *old(self),
                Ok(Some(TrojanProcessState::Invalid { pid })) => pid != 0 && spec_trojan_resolved(
                    *catalog,
                    *trojan,
                ) is None && *final(self) == *old(self),
                Ok(Some(TrojanProcessState::Daemon(n))) => spec_trojan_resolved(*catalog, *trojan)
                    == Some(n) && final(self).daemon == true && final(self).child_id != 0,
            },
    {
        let name = self.platform.executable_file_name();
        let procs = processes_named(name);
        self.get_trojan_process_state(&procs, catalog, trojan)
    }

    /// The file-system effect that toggling autostart from `current_state`
    /// requires: enabled becomes disabled by removing the startup artifact;
    /// disabled becomes enabled by writing the platform's launcher artifact,
    /// fully overwriting any prior content.
    pub fn switch_auto_start(&self, current_state: bool) -> (r: AutostartAction)
        ensures
            current_state ==> (r matches AutostartAction::RemoveFile(p) && p@
                == self.auto_start_path@),
            !current_state ==> (r matches AutostartAction::WriteFile { path, content } && path@
                == self.auto_start_path@ && content@ == spec_autostart_content(
                self.platform,
                self.executable_file@,
                self.trojan_config_path@,
            )),
    {
        if current_state {
            return AutostartAction::RemoveFile(self.auto_start_path.clone());
        }
        let content = autostart_content(
            &self.platform,
            self.executable_file.as_str(),
            self.trojan_config_path.as_str(),
        );
        AutostartAction::WriteFile { path: self.auto_start_path.clone(), content }
    }
}

/// The command that force-kills process `id` on this platform, or nothing
/// when `id` is 0: killing pid 0 is always a no-op success, never an error.
pub fn kill_command(platform: &Platform, id: u32) -> (r: Option<CommandSpec>)
    ensures
        id == 0 <==> r is None,
        id != 0 && platform is Windows ==> (r matches Some(c) && c.program@ == "taskkill"@
            && c.args@.len() == 3 && c.args@[0]@ == "/F"@ && c.args@[1]@ == "/PID"@ && c.args@[2]@
            == spec_dec(id as int)),
        id != 0 && !(platform is Windows) ==> (r matches Some(c) && c.program@ == "kill"@
            && c.args@.len() == 2 && c.args@[0]@ == "-9"@ && c.args@[1]@ == spec_dec(id as int)),
{
    if id == 0 {
        return None;
    }
    let id_text = dec_string(id as u64);
    match platform {
        Platform::Windows => {
            let mut args: Vec<String> = Vec::new();
            args.push(String::from_str("/F"));
            args.push(String::from_str("/PID"));
            args.push(id_text);
            Some(CommandSpec { program: String::from_str("taskkill"), args })
        },
        _ => {
            let mut args: Vec<String> = Vec::new();
            args.push(String::from_str("-9"));
            args.push(id_text);
            Some(CommandSpec { program: String::from_str("kill"), args })
        },
    }
}

/// The text of the platform's startup artifact: a launcher that re-invokes
/// the managed executable with `-config <external configuration path>`.
pub open spec fn spec_autostart_content(p: Platform, exe: Seq<char>, cfg: Seq<char>) -> Seq<
    char,
> {
    match p {
        Platform::MacOs { .. } =>
            "<?xml version=\"1.0\" encoding=\"UTF-8\"?>\n<!DOCTYPE plist PUBLIC \"-//Apple Computer//DTD PLIST 1.0//EN\" \"http://www.apple.com/DTDs/PropertyList-1.0.dtd\">\n<plist version=\"1.0\">\n<dict>\n   <key>Label</key>\n   <string>com.hunter.trojan-go</string>\n   <key>ProgramArguments</key>\n   <array>\n     <string>"@
                + exe + "</string>\n     <string>-config</string>\n     <string>"@ + cfg
                + "</string>\n    </array>\n   <key>RunAtLoad</key>\n   <true/>\n</dict>\n</plist>\n"@,
        Platform::Windows => "set ws=WScript.CreateObject(\"WScript.Shell\")\nws.Run \""@ + exe
            + " -config "@ + cfg + "\",0"@,
        Platform::Linux { .. } => "[Desktop Entry]\nExec="@ + exe + " -config "@ + cfg
            + "\nIcon=dialog-scripts\nName=trojan-go\nPath=\nType=Application\nX-KDE-AutostartScript=true\n"@,
    }
}

fn autostart_content(platform: &Platform, exe: &str, cfg: &str) -> (r: String)
    ensures
        r@ == spec_autostart_content(*platform, exe@, cfg@),
{
    match platform {
        Platform::MacOs { .. } => {
            let mut s = String::from_str(
                "<?xml version=\"1.0\" encoding=\"UTF-8\"?>\n<!DOCTYPE plist PUBLIC \"-//Apple Computer//DTD PLIST 1.0//EN\" \"http://www.apple.com/DTDs/PropertyList-1.0.dtd\">\n<plist version=\"1.0\">\n<dict>\n   <key>Label</key>\n   <string>com.hunter.trojan-go</string>\n   <key>ProgramArguments</key>\n   <array>\n     <string>",
            );
            s.append(exe);
            s.append("</string>\n     <string>-config</string>\n     <string>");
            s.append(cfg);
            s.append(
                "</string>\n    </array>\n   <key>RunAtLoad</key>\n   <true/>\n</dict>\n</plist>\n",
            );
            proof {
                assert(s@ =~= spec_autostart_content(*platform, exe@, cfg@));
            }
            s
        },
        Platform::Windows => {
            let mut s = String::from_str("set ws=WScript.CreateObject(\"WScript.Shell\")\nws.Run \"");
            s.append(exe);
            s.append(" -config ");
            s.append(cfg);
            s.append("\",0");
            proof {
                assert(s@ =~= spec_autostart_content(*platform, exe@, cfg@));
            }
            s
        },
        Platform::Linux { .. } => {
            let mut s = String::from_str("[Desktop Entry]\nExec=");
            s.append(exe);
            s.append(" -config ");
            s.append(cfg);
            s.append(
                "\nIcon=dialog-scripts\nName=trojan-go\nPath=\nType=Application\nX-KDE-AutostartScript=true\n",
            );
            proof {
                assert(s@ =~= spec_autostart_content(*platform, exe@, cfg@));
            }
            s
        },
    }
}

} // verus!
