use vstd::prelude::*;
use vstd::string::*;

use crate::desktop::Desktop;
use crate::proxy::{Platform, Proxy};
use crate::text::{find_line_capture, spec_first_line_capture, str_eq};

verus! {

/// An external command for the caller to run: a program name and its
/// arguments.
#[derive(Debug)]
pub struct CommandSpec {
    pub program: String,
    pub args: Vec<String>,
}

/// The views of a command's arguments, in order.
pub open spec fn spec_args(c: CommandSpec) -> Seq<Seq<char>> {
    c.args@.map_values(|a: String| a@)
}

/// Whether `c` is exactly the command `program` with arguments `args`.
pub open spec fn spec_cmd(c: CommandSpec, program: Seq<char>, args: Seq<Seq<char>>) -> bool {
    c.program@ == program && spec_args(c) == args
}

/// The operating-system effect the caller must perform to change the PAC
/// setting: run the listed commands in order, or write the named registry
/// value under the current user's Internet Settings key.
#[derive(Debug)]
pub enum PacAction {
    RunCommands(Vec<CommandSpec>),
    SetRegistryValue(String),
}

/// Whether the status text the network-configuration utility printed reports
/// the automatic proxy as enabled: the capture after `"\nEnabled: "` exists
/// and is not `"No"`.
pub open spec fn spec_networksetup_enabled(s: Seq<char>) -> bool {
    match spec_first_line_capture(s, "\nEnabled: "@, 0, None) {
        None => false,
        Some(c) => c != "No"@,
    }
}

/// Whether a registry value for the automatic-configuration URL means
/// "active": any non-empty string; the empty string means disabled.
pub open spec fn spec_registry_pac_active(v: Seq<char>) -> bool {
    v.len() > 0
}

/// Whether the desktop proxy-type value means "automatic script": exactly
/// `"2"`.
pub open spec fn spec_kde_pac_active(v: Seq<char>) -> bool {
    v == "2"@
}

/// Whether the desktop proxy mode means "automatic script": exactly
/// `"auto"`.
pub open spec fn spec_gnome_pac_active(v: Seq<char>) -> bool {
    v == "auto"@
}

fn make_cmd(program: &str, args: Vec<String>) -> (r: CommandSpec)
    ensures
        r.program@ == program@,
        r.args == args,
{
    CommandSpec { program: String::from_str(program), args }
}

impl Proxy {
    /// The effect that sets the operating system's automatic
    /// proxy-configuration URL to `pac` and marks automatic proxy as active,
    /// on this supervisor's platform. Performing it twice with the same URL
    /// is harmless: each command and registry write simply overwrites the
    /// same value.
    pub fn enable_auto_proxy_url(&self, pac: &str) -> (r: PacAction)
        ensures
            self.platform matches Platform::MacOs { service } ==> (r
                matches PacAction::RunCommands(cs) && cs@.len() == 1 && spec_cmd(
                cs@[0],
                "networksetup"@,
                seq!["-setautoproxyurl"@, service@, pac@],
            )),
            self.platform is Windows ==> (r matches PacAction::SetRegistryValue(v) && v@ == pac@),
            self.platform matches Platform::Linux { desktop } && desktop == Desktop::KDE ==> (r
                matches PacAction::RunCommands(cs) && cs@.len() == 2 && spec_cmd(
                cs@[0],
                "kwriteconfig5"@,
                seq![
                    "--file"@,
                    "kioslaverc"@,
                    "--group"@,
                    "Proxy Settings"@,
                    "--key"@,
                    "ProxyType"@,
                    "2"@,
                ],
            ) && spec_cmd(
                cs@[1],
                "kwriteconfig5"@,
                seq![
                    "--file"@,
                    "kioslaverc"@,
                    "--group"@,
                    "Proxy Settings"@,
                    "--key"@,
                    "Proxy Config Script"@,
                    pac@,
                ],
            )),
            self.platform matches Platform::Linux { desktop } && desktop == Desktop::GNOME ==> (r
                matches PacAction::RunCommands(cs) && cs@.len() == 2 && spec_cmd(
                cs@[0],
                "gsettings"@,
                seq!["set"@, "org.gnome.system.proxy"@, "mode"@, "auto"@],
            ) && spec_cmd(
                cs@[1],
                "gsettings"@,
                seq!["set"@, "org.gnome.system.proxy"@, "autoconfig-url"@, pac@],
            )),
    {
        match &self.platform {
            Platform::MacOs { service } => {
                let mut args: Vec<String> = Vec::new();
                args.push(String::from_str("-setautoproxyurl"));
                args.push(service.clone());
                args.push(String::from_str(pac));
                let c = make_cmd("networksetup", args);
                proof {
                    assert(spec_args(c) =~= seq!["-setautoproxyurl"@, service@, pac@]);
                }
                let mut cs: Vec<CommandSpec> = Vec::new();
                cs.push(c);
                PacAction::RunCommands(cs)
            },
            Platform::Windows => PacAction::SetRegistryValue(String::from_str(pac)),
            Platform::Linux { desktop } => {
                match desktop {
                    Desktop::KDE => {
                        let mut args0: Vec<String> = Vec::new();
                        args0.push(String::from_str("--file"));
                        args0.push(String::from_str("kioslaverc"));
                        args0.push(String::from_str("--group"));
                        args0.push(String::from_str("Proxy Settings"));
                        args0.push(String::from_str("--key"));
                        args0.push(String::from_str("ProxyType"));
                        args0.push(String::from_str("2"));
                        let c0 = make_cmd("kwriteconfig5", args0);
                        proof {
                            assert(spec_args(c0) =~= seq![
                                "--file"@,
                                "kioslaverc"@,
                                "--group"@,
                                "Proxy Settings"@,
                                "--key"@,
                                "ProxyType"@,
                                "2"@,
                            ]);
                        }
                        let mut args1: Vec<String> = Vec::new();
                        args1.push(String::from_str("--file"));
                        args1.push(String::from_str("kioslaverc"));
                        args1.push(String::from_str("--group"));
                        args1.push(String::from_str("Proxy Settings"));
                        args1.push(String::from_str("--key"));
                        args1.push(String::from_str("Proxy Config Script"));
                        args1.push(String::from_str(pac));
                        let c1 = make_cmd("kwriteconfig5", args1);
                        proof {
                            assert(spec_args(c1) =~= seq![
                                "--file"@,
                                "kioslaverc"@,
                                "--group"@,
                                "Proxy Settings"@,
                                "--key"@,
                                "Proxy Config Script"@,
                                pac@,
                            ]);
                        }
                        let mut cs: Vec<CommandSpec> = Vec::new();
                        cs.push(c0);
                        cs.push(c1);
                        PacAction::RunCommands(cs)
                    },
                    Desktop::GNOME => {
                        let mut args0: Vec<String> = Vec::new();
                        args0.push(String::from_str("set"));
                        args0.push(String::from_str("org.gnome.system.proxy"));
                        args0.push(String::from_str("mode"));
                        args0.push(String::from_str("auto"));
                        let c0 = make_cmd("gsettings", args0);
                        proof {
                            assert(spec_args(c0) =~= seq![
                                "set"@,
                                "org.gnome.system.proxy"@,
                                "mode"@,
                                "auto"@,
                            ]);
                        }
                        let mut args1: Vec<String> = Vec::new();
                        args1.push(String::from_str("set"));
                        args1.push(String::from_str("org.gnome.system.proxy"));
                        args1.push(String::from_str("autoconfig-url"));
                        args1.push(String::from_str(pac));
                        let c1 = make_cmd("gsettings", args1);
                        proof {
                            assert(spec_args(c1) =~= seq![
                                "set"@,
                                "org.gnome.system.proxy"@,
                                "autoconfig-url"@,
                                pac@,
                            ]);
                        }
                        let mut cs: Vec<CommandSpec> = Vec::new();
                        cs.push(c0);
                        cs.push(c1);
                        PacAction::RunCommands(cs)
                    },
                }
            },
        }
    }

    /// The effect that clears the automatic proxy-configuration URL or turns
    /// automatic mode off, on this supervisor's platform. Idempotent in the
    /// same sense as enabling.
    pub fn disable_auto_proxy_url(&self) -> (r: PacAction)
        ensures
            self.platform matches Platform::MacOs { service } ==> (r
                matches PacAction::RunCommands(cs) && cs@.len() == 1 && spec_cmd(
                cs@[0],
                "networksetup"@,
                seq!["-setautoproxystate"@, service@, "off"@],
            )),
            self.platform is Windows ==> (r matches PacAction::SetRegistryValue(v) && v@ == ""@),
            self.platform matches Platform::Linux { desktop } && desktop == Desktop::KDE ==> (r
                matches PacAction::RunCommands(cs) && cs@.len() == 1 && spec_cmd(
                cs@[0],
                "kwriteconfig5"@,
                seq![
                    "--file"@,
                    "kioslaverc"@,
                    "--group"@,
                    "Proxy Settings"@,
                    "--key"@,
                    "ProxyType"@,
                    "0"@,
                ],
            )),
            self.platform matches Platform::Linux { desktop } && desktop == Desktop::GNOME ==> (r
                matches PacAction::RunCommands(cs) && cs@.len() == 1 && spec_cmd(
                cs@[0],
                "gsettings"@,
                seq!["set"@, "org.gnome.system.proxy"@, "mode"@, "none"@],
            )),
    {
        match &self.platform {
            Platform::MacOs { service } => {
                let mut args: Vec<String> = Vec::new();
                args.push(String::from_str("-setautoproxystate"));
                args.push(service.clone());
                args.push(String::from_str("off"));
                let c = make_cmd("networksetup", args);
                proof {
                    assert(spec_args(c) =~= seq!["-setautoproxystate"@, service@, "off"@]);
                }
                let mut cs: Vec<CommandSpec> = Vec::new();
                cs.push(c);
                PacAction::RunCommands(cs)
            },
            Platform::Windows => PacAction::SetRegistryValue(String::from_str("")),
            Platform::Linux { desktop } => {
                match desktop {
                    Desktop::KDE => {
                        let mut args: Vec<String> = Vec::new();
                        args.push(String::from_str("--file"));
                        args.push(String::from_str("kioslaverc"));
                        args.push(String::from_str("--group"));
                        args.push(String::from_str("Proxy Settings"));
                        args.push(String::from_str("--key"));
                        args.push(String::from_str("ProxyType"));
                        args.push(String::from_str("0"));
                        let c = make_cmd("kwriteconfig5", args);
                        proof {
                            assert(spec_args(c) =~= seq![
                                "--file"@,
                                "kioslaverc"@,
                                "--group"@,
                                "Proxy Settings"@,
                                "--key"@,
                                "ProxyType"@,
                                "0"@,
                            ]);
                        }
                        let mut cs: Vec<CommandSpec> = Vec::new();
                        cs.push(c);
                        PacAction::RunCommands(cs)
                    },
                    Desktop::GNOME => {
                        let mut args: Vec<String> = Vec::new();
                        args.push(String::from_str("set"));
                        args.push(String::from_str("org.gnome.system.proxy"));
                        args.push(String::from_str("mode"));
                        args.push(String::from_str("none"));
                        let c = make_cmd("gsettings", args);
                        proof {
                            assert(spec_args(c) =~= seq![
                                "set"@,
                                "org.gnome.system.proxy"@,
                                "mode"@,
                                "none"@,
                            ]);
                        }
                        let mut cs: Vec<CommandSpec> = Vec::new();
                        cs.push(c);
                        PacAction::RunCommands(cs)
                    },
                }
            },
        }
    }

    /// Interprets the raw answer the caller read from the platform's PAC
    /// mechanism: the status text the network-configuration utility printed,
    /// the registry value (the empty string means disabled), the desktop's
    /// proxy-type value (`"2"` means automatic), or the desktop's proxy mode
    /// (`"auto"` means automatic). The answer is never guessed from a
    /// malformed value: a status text without an enabled line reads as
    /// disabled.
    pub fn auto_proxy_url_state(&self, raw: &str) -> (r: bool)
        ensures
            self.platform is MacOs ==> r == spec_networksetup_enabled(raw@),
            self.platform is Windows ==> r == spec_registry_pac_active(raw@),
            self.platform matches Platform::Linux { desktop } && desktop == Desktop::KDE ==> r
                == spec_kde_pac_active(raw@),
            self.platform matches Platform::Linux { desktop } && desktop == Desktop::GNOME ==> r
                == spec_gnome_pac_active(raw@),
    {
        match &self.platform {
            Platform::MacOs { .. } => {
                proof {
                    reveal_strlit("\nEnabled: ");
                }
                match find_line_capture(raw, "\nEnabled: ", None) {
                    None => false,
                    Some(c) => !str_eq(c.as_str(), "No"),
                }
            },
            Platform::Windows => !raw.is_empty(),
            Platform::Linux { desktop } => {
                match desktop {
                    Desktop::KDE => str_eq(raw, "2"),
                    Desktop::GNOME => str_eq(raw, "auto"),
                }
            },
        }
    }

    /// The read-side plan matching the write-side effects: the question the
    /// caller must put to the operating system to learn the current
    /// automatic-proxy state. `auto_proxy_url_state` interprets the answer.
    pub fn query_auto_proxy_url(&self) -> (r: PacQuery)
        ensures
            self.platform matches Platform::MacOs { service } ==> (r matches PacQuery::RunCommand(
                c,
            ) && spec_cmd(c, "networksetup"@, seq!["-getautoproxyurl"@, service@])),
            self.platform is Windows ==> r is ReadRegistryValue,
            self.platform matches Platform::Linux { desktop } && desktop == Desktop::KDE ==> (r
                matches PacQuery::RunCommand(c) && spec_cmd(
                c,
                "kreadconfig5"@,
                seq![
                    "--file"@,
                    "kioslaverc"@,
                    "--group"@,
                    "Proxy Settings"@,
                    "--key"@,
                    "ProxyType"@,
                ],
            )),
            self.platform matches Platform::Linux { desktop } && desktop == Desktop::GNOME ==> (r
                matches PacQuery::RunCommand(c) && spec_cmd(
                c,
                "gsettings"@,
                seq!["get"@, "org.gnome.system.proxy"@, "mode"@],
            )),
    {
        match &self.platform {
            Platform::MacOs { service } => {
                let mut args: Vec<String> = Vec::new();
                args.push(String::from_str("-getautoproxyurl"));
                args.push(service.clone());
                let c = make_cmd("networksetup", args);
                proof {
                    assert(spec_args(c) =~= seq!["-getautoproxyurl"@, service@]);
                }
                PacQuery::RunCommand(c)
            },
            Platform::Windows => PacQuery::ReadRegistryValue,
            Platform::Linux { desktop } => {
                match desktop {
                    Desktop::KDE => {
                        let mut args: Vec<String> = Vec::new();
                        args.push(String::from_str("--file"));
                        args.push(String::from_str("kioslaverc"));
                        args.push(String::from_str("--group"));
                        args.push(String::from_str("Proxy Settings"));
                        args.push(String::from_str("--key"));
                        args.push(String::from_str("ProxyType"));
                        let c = make_cmd("kreadconfig5", args);
                        proof {
                            assert(spec_args(c) =~= seq![
                                "--file"@,
                                "kioslaverc"@,
                                "--group"@,
                                "Proxy Settings"@,
                                "--key"@,
                                "ProxyType"@,
                            ]);
                        }
                        PacQuery::RunCommand(c)
                    },
                    Desktop::GNOME => {
                        let mut args: Vec<String> = Vec::new();
                        args.push(String::from_str("get"));
                        args.push(String::from_str("org.gnome.system.proxy"));
                        args.push(String::from_str("mode"));
                        let c = make_cmd("gsettings", args);
                        proof {
                            assert(spec_args(c) =~= seq![
                                "get"@,
                                "org.gnome.system.proxy"@,
                                "mode"@,
                            ]);
                        }
                        PacQuery::RunCommand(c)
                    },
                }
            },
        }
    }
}

/// How the caller reads the current PAC state back: run the listed command
/// and hand its trimmed output to `auto_proxy_url_state`, or read the
/// automatic-configuration URL value under the current user's Internet
/// Settings registry key and hand that value over.
#[derive(Debug)]
pub enum PacQuery {
    RunCommand(CommandSpec),
    ReadRegistryValue,
}

/// The compute part of probing one network service: the first captured
/// router line in the service-information output whose value is not
/// `"none"`. A service with such a router has a gateway and is treated as
/// the active one.
pub fn service_router(output: &str) -> (r: Option<String>)
    ensures
        match spec_first_line_capture(output@, "\nRouter: "@, 0, Some("none"@)) {
            None => r is None,
            Some(c) => r matches Some(rs) && rs@ == c,
        },
{
    proof {
        reveal_strlit("\nRouter: ");
    }
    find_line_capture(output, "\nRouter: ", Some("none"))
}

/// The candidate network services the startup probe walks: the lines of the
/// service-listing output past its fixed 60-character preamble, in the
/// order the system reported them, those flagged with a leading `*`
/// (disabled services) left out.
pub open spec fn spec_service_lines(s: Seq<char>, i: nat) -> Seq<Seq<char>>
    decreases s.len() - i,
    via spec_service_lines_decreases
{
    let e = crate::text::spec_line_end(s, i);
    let line = s.subrange(i as int, e as int);
    let rest: Seq<Seq<char>> = if e >= s.len() {
        Seq::empty()
    } else {
        spec_service_lines(s, e + 1)
    };
    if line.len() > 0 && line[0] == '*' {
        rest
    } else {
        seq![line] + rest
    }
}

proof fn spec_line_end_bounds(s: Seq<char>, i: nat)
    ensures
        i <= s.len() ==> i <= crate::text::spec_line_end(s, i) <= s.len(),
        i > s.len() ==> crate::text::spec_line_end(s, i) == s.len(),
    decreases s.len() - i,
{
    if i < s.len() && s[i as int] != '\n' {
        spec_line_end_bounds(s, i + 1);
    }
}

#[via_fn]
proof fn spec_service_lines_decreases(s: Seq<char>, i: nat) {
    spec_line_end_bounds(s, i);
}

/// The candidate services in the listing output `s`: `spec_service_lines`
/// applied past the fixed preamble.
pub open spec fn spec_candidate_services(s: Seq<char>) -> Seq<Seq<char>> {
    spec_service_lines(s.skip(60), 0)
}

/// Splits the network-service listing into candidate service names: every
/// line after the fixed 60-character preamble whose first character is not
/// `*`. The caller probes each candidate in this order and adopts the first
/// one with a configured router.
pub fn candidate_services(output: &str) -> (r: Vec<String>)
    requires
        output@.len() >= 60,
    ensures
        r@.map_values(|x: String| x@) == spec_candidate_services(output@),
{
    let sn = output.unicode_len();
    let tail = output.substring_char(60, sn);
    let tn = tail.unicode_len();
    let mut r: Vec<String> = Vec::new();
    let mut i: usize = 0;
    proof {
        assert(tail@ =~= output@.skip(60));
    }
    while i <= tn
        invariant
            tn == tail@.len(),
            tail@ == output@.skip(60),
            output@.len() >= 60,
            sn == output@.len(),
            i <= tn + 1,
            i <= tn ==> spec_candidate_services(output@) =~= r@.map_values(|x: String| x@)
                + spec_service_lines(tail@, i as nat),
            i == tn + 1 ==> spec_candidate_services(output@) =~= r@.map_values(|x: String| x@),
        decreases tn + 1 - i,
    {
        let mut k = i;
        while k < tn && tail.get_char(k) != '\n'
            invariant
                tn == tail@.len(),
                i <= k <= tn,
                crate::text::spec_line_end(tail@, i as nat) == crate::text::spec_line_end(
                    tail@,
                    k as nat,
                ),
            decreases tn - k,
        {
            k = k + 1;
        }
        proof {
            assert(crate::text::spec_line_end(tail@, i as nat) == k as nat);
        }
        let keep = if k > i {
            tail.get_char(i) != '*'
        } else {
            true
        };
        if keep {
            let line = tail.substring_char(i, k);
            let ghost prev = r@;
            r.push(line.to_owned());
            proof {
                assert(r@.map_values(|x: String| x@) =~= prev.map_values(|x: String| x@) + seq![
                    tail@.subrange(i as int, k as int),
                ]);
            }
        }
        i = k + 1;
    }
    r
}

} // verus!
