//! Platform selection and the decisions and plans of each host
//! environment (native Linux, Lima on macOS, WSL2 on Windows).
use vstd::prelude::*;
use crate::error::{AivaError, Result};
use crate::utils::{parse_port, port_value};
use crate::text::{
    first_occurrence, split_words, str_find, texts, words, contains_seq, decimal, decimal_string, fill_template, joined_with, str_contains, str_eq,
};
use crate::types::{RuntimeInfo, VMInstance, VMState};

verus! {

/// The platform name for an operating system name.
pub open spec fn platform_label(os: Seq<char>) -> Seq<char> {
    if os == "linux"@ {
        "linux"@
    } else if os == "macos"@ {
        "macos"@
    } else if os == "windows"@ {
        "windows"@
    } else {
        "unknown"@
    }
}

/// The name of the platform that serves the operating system `os`
/// (as `std::env::consts::OS` names it): "linux", "macos", "windows",
/// or "unknown".
pub fn detect_platform(os: &str) -> (r: &'static str)
    ensures
        r@ == platform_label(os@),
{
    proof {
        reveal_strlit("linux");
        reveal_strlit("macos");
        reveal_strlit("windows");
        reveal_strlit("unknown");
    }
    if str_eq(os, "linux") {
        "linux"
    } else if str_eq(os, "macos") {
        "macos"
    } else if str_eq(os, "windows") {
        "windows"
    } else {
        "unknown"
    }
}

/// The three host environments that can run microVMs.
#[derive(Clone, Copy, Debug, PartialEq, Eq, Structural)]
pub enum PlatformKind {
    Linux,
    MacOS,
    Windows,
}

/// The platform kind for an operating system name, if it has one.
pub open spec fn kind_for(os: Seq<char>) -> Option<PlatformKind> {
    if os == "linux"@ {
        Some(PlatformKind::Linux)
    } else if os == "macos"@ {
        Some(PlatformKind::MacOS)
    } else if os == "windows"@ {
        Some(PlatformKind::Windows)
    } else {
        None
    }
}

/// Chooses the one platform of this process from the operating system
/// name; any other system is an unrecoverable platform error.
pub fn select_platform(os: &str) -> (r: Result<PlatformKind>)
    ensures
        kind_for(os@) matches Some(k) ==> r == Ok::<PlatformKind, AivaError>(k),
        kind_for(os@) is None ==> (r matches Err(AivaError::PlatformError { platform, message, recoverable })
            && platform@ == os@ && message@ == "Unsupported platform"@ && !recoverable),
{
    proof {
        reveal_strlit("linux");
        reveal_strlit("macos");
        reveal_strlit("windows");
        reveal_strlit("Unsupported platform");
    }
    if str_eq(os, "linux") {
        Ok(PlatformKind::Linux)
    } else if str_eq(os, "macos") {
        Ok(PlatformKind::MacOS)
    } else if str_eq(os, "windows") {
        Ok(PlatformKind::Windows)
    } else {
        Err(
            AivaError::PlatformError {
                platform: String::from_str(os),
                message: String::from_str("Unsupported platform"),
                recoverable: false,
            },
        )
    }
}

impl PlatformKind {
    /// The platform's name.
    pub fn name(&self) -> (r: &'static str)
        ensures
            r@ == (match *self {
                PlatformKind::Linux => "linux"@,
                PlatformKind::MacOS => "macos"@,
                PlatformKind::Windows => "windows"@,
            }),
    {
        match self {
            PlatformKind::Linux => {
                proof { reveal_strlit("linux"); }
                "linux"
            }
            PlatformKind::MacOS => {
                proof { reveal_strlit("macos"); }
                "macos"
            }
            PlatformKind::Windows => {
                proof { reveal_strlit("windows"); }
                "windows"
            }
        }
    }
}

/// Relies on which::which: the first executable of this name on the
/// search path, if any. What it finds depends on the machine.
#[verifier::external_body]
fn find_binary(name: &str) -> (r: Option<String>) {
    which::which(name).ok().map(|p| p.to_string_lossy().into_owned())
}

/// Relies on std::path::Path::exists: whether something is at this path
/// now. What it answers depends on the machine.
#[verifier::external_body]
fn path_exists(path: &str) -> (r: bool) {
    std::path::Path::new(path).exists()
}

/// The native-hypervisor platform of Linux hosts.
pub struct LinuxPlatform {
    pub firecracker_path: String,
    pub jailer_path: String,
    pub kvm_device: String,
}

/// The path found on the search path, or the fallback.
pub open spec fn found_or(found: Option<String>, fallback: Seq<char>) -> Seq<char> {
    match found {
        Some(p) => p@,
        None => fallback,
    }
}

/// `r` is the preflight verdict for these presences: missing KVM is
/// unrecoverable; a missing Firecracker or jailer binary is recoverable
/// and named; all present is success.
pub open spec fn requirements_verdict_of(p: LinuxPlatform, kvm: bool, firecracker: bool, jailer: bool, r: Result<()>) -> bool {
    &&& r is Ok <==> kvm && firecracker && jailer
    &&& !kvm ==> (r matches Err(AivaError::PlatformError { message, recoverable, .. })
        && message@ == "KVM device not found at "@ + p.kvm_device@ + ". Please ensure KVM is enabled."@
        && !recoverable)
    &&& kvm && !firecracker ==> (r matches Err(AivaError::PlatformError { message, recoverable, .. })
        && message@ == "Firecracker not found at "@ + p.firecracker_path@ + ". Please install Firecracker."@
        && recoverable)
    &&& kvm && firecracker && !jailer ==> (r matches Err(AivaError::PlatformError { message, recoverable, .. })
        && message@ == "Jailer not found at "@ + p.jailer_path@ + ". Please install Firecracker."@ && recoverable)
}

impl LinuxPlatform {
    /// Finds `firecracker` and `jailer` on the search path, falling back to
    /// /usr/bin, and uses /dev/kvm.
    pub fn new() -> (r: Result<LinuxPlatform>)
        ensures
            r matches Ok(p) && p.kvm_device@ == "/dev/kvm"@,
    {
        proof {
            reveal_strlit("/dev/kvm");
        }
        let fc = LinuxPlatform::or_default(find_binary("firecracker"), "/usr/bin/firecracker");
        let jailer = LinuxPlatform::or_default(find_binary("jailer"), "/usr/bin/jailer");
        Ok(LinuxPlatform::with_paths(fc, jailer))
    }

    /// The platform with these binaries and /dev/kvm.
    pub fn with_paths(firecracker_path: String, jailer_path: String) -> (r: LinuxPlatform)
        ensures
            r.firecracker_path == firecracker_path,
            r.jailer_path == jailer_path,
            r.kvm_device@ == "/dev/kvm"@,
    {
        proof { reveal_strlit("/dev/kvm"); }
        LinuxPlatform { firecracker_path, jailer_path, kvm_device: String::from_str("/dev/kvm") }
    }

    fn or_default(found: Option<String>, fallback: &str) -> (r: String)
        ensures
            r@ == found_or(found, fallback@),
    {
        match found {
            Some(p) => p,
            None => String::from_str(fallback),
        }
    }

    /// The platform's name.
    pub fn name(&self) -> (r: &'static str)
        ensures
            r@ == "linux"@,
    {
        proof { reveal_strlit("linux"); }
        "linux"
    }

    /// Whether the host offers vsock: a vsock or vhost-vsock device exists.
    pub fn check_vsock_support(&self) -> bool {
        path_exists("/dev/vsock") || path_exists("/dev/vhost-vsock")
    }

    /// The preflight verdict given which of the KVM device, the
    /// Firecracker binary and the jailer binary are present, checked in
    /// that order.
    pub fn requirements_verdict(&self, kvm: bool, firecracker: bool, jailer: bool) -> (r: Result<()>)
        ensures
            requirements_verdict_of(*self, kvm, firecracker, jailer, r),
    {
        proof {
            reveal_strlit("linux");
            reveal_strlit("KVM device not found at ");
            reveal_strlit(". Please ensure KVM is enabled.");
            reveal_strlit("Firecracker not found at ");
            reveal_strlit("Jailer not found at ");
            reveal_strlit(". Please install Firecracker.");
        }
        if !kvm {
            return Err(
                AivaError::PlatformError {
                    platform: String::from_str("linux"),
                    message: String::from_str("KVM device not found at ").concat(
                        self.kvm_device.as_str(),
                    ).concat(". Please ensure KVM is enabled."),
                    recoverable: false,
                },
            );
        }
        if !firecracker {
            return Err(
                AivaError::PlatformError {
                    platform: String::from_str("linux"),
                    message: String::from_str("Firecracker not found at ").concat(
                        self.firecracker_path.as_str(),
                    ).concat(". Please install Firecracker."),
                    recoverable: true,
                },
            );
        }
        if !jailer {
            return Err(
                AivaError::PlatformError {
                    platform: String::from_str("linux"),
                    message: String::from_str("Jailer not found at ").concat(
                        self.jailer_path.as_str(),
                    ).concat(". Please install Firecracker."),
                    recoverable: true,
                },
            );
        }
        Ok(())
    }

    /// The preflight check: KVM, then the Firecracker and jailer binaries.
    pub fn check_requirements(&self) -> (r: Result<()>)
        ensures
            exists|kvm: bool, firecracker: bool, jailer: bool| requirements_verdict_of(*self, kvm, firecracker, jailer, r),
    {
        let kvm = path_exists(self.kvm_device.as_str());
        let fc = path_exists(self.firecracker_path.as_str());
        let jailer = path_exists(self.jailer_path.as_str());
        self.requirements_verdict(kvm, fc, jailer)
    }
}

/// The nested-host platform of macOS hosts: Firecracker inside a Lima VM.
pub struct MacOSPlatform {
    pub lima_instance: String,
    pub lima_config_path: Option<String>,
}

impl MacOSPlatform {
    /// The platform on the default Lima instance "aiva-host".
    pub fn new() -> (r: Result<MacOSPlatform>)
        ensures
            r matches Ok(p) && p.lima_instance@ == "aiva-host"@ && p.lima_config_path is None,
    {
        proof { reveal_strlit("aiva-host"); }
        Ok(MacOSPlatform { lima_instance: String::from_str("aiva-host"), lima_config_path: None })
    }

    /// The platform on "aiva-host", created from the given Lima file.
    pub fn with_config(config_path: String) -> (r: Result<MacOSPlatform>)
        ensures
            r matches Ok(p) && p.lima_instance@ == "aiva-host"@ && p.lima_config_path == Some(
                config_path,
            ),
    {
        proof { reveal_strlit("aiva-host"); }
        Ok(
            MacOSPlatform {
                lima_instance: String::from_str("aiva-host"),
                lima_config_path: Some(config_path),
            },
        )
    }

    /// The platform's name.
    pub fn name(&self) -> (r: &'static str)
        ensures
            r@ == "macos"@,
    {
        proof { reveal_strlit("macos"); }
        "macos"
    }
}

/// The WSL2 platform of Windows hosts.
pub struct WindowsPlatform {
    pub wsl_distro: String,
}

impl WindowsPlatform {
    /// The platform on the "Ubuntu" distribution.
    pub fn new() -> (r: Result<WindowsPlatform>)
        ensures
            r matches Ok(p) && p.wsl_distro@ == "Ubuntu"@,
    {
        proof { reveal_strlit("Ubuntu"); }
        Ok(WindowsPlatform { wsl_distro: String::from_str("Ubuntu") })
    }

    /// The platform's name.
    pub fn name(&self) -> (r: &'static str)
        ensures
            r@ == "windows"@,
    {
        proof { reveal_strlit("windows"); }
        "windows"
    }
}

/// How Firecracker is set up for one guest inside the nested host.
#[derive(Clone, Debug)]
pub struct FirecrackerVMConfig {
    pub vm_id: String,
    pub socket_path: String,
    pub kernel_path: String,
    pub rootfs_path: String,
    pub vcpu_count: u32,
    pub mem_size_mib: u64,
    pub tap_device: String,
    pub guest_ip: String,
    pub network_interface: String,
}

/// The directory that holds one guest's files in the nested host.
pub open spec fn guest_dir(name: Seq<char>) -> Seq<char> {
    "/var/lib/firecracker/"@ + name
}

/// The Firecracker setup of an instance: files under its own directory,
/// the shared kernel image, a TAP device named after it, and its
/// configured CPUs, memory and address.
pub open spec fn is_firecracker_config_of(c: FirecrackerVMConfig, v: VMInstance) -> bool {
    &&& c.vm_id@ == v.name@
    &&& c.socket_path@ == guest_dir(v.name@) + "/firecracker.socket"@
    &&& c.kernel_path@ == "/opt/aiva/images/vmlinux"@
    &&& c.rootfs_path@ == guest_dir(v.name@) + "/"@ + v.name@ + ".rootfs.ext4"@
    &&& c.vcpu_count == v.config.cpus
    &&& c.mem_size_mib == v.config.memory_mb
    &&& c.tap_device@ == "tap-"@ + v.name@
    &&& c.guest_ip@ == v.config.network.guest_ip@
    &&& c.network_interface@ == "eth0"@
}

/// The Firecracker setup of an instance inside the nested host.
pub fn firecracker_vm_config(instance: &VMInstance) -> (r: FirecrackerVMConfig)
    ensures
        is_firecracker_config_of(r, *instance),
{
    proof {
        reveal_strlit("/var/lib/firecracker/");
        reveal_strlit("/firecracker.socket");
        reveal_strlit("/opt/aiva/images/vmlinux");
        reveal_strlit("/");
        reveal_strlit(".rootfs.ext4");
        reveal_strlit("tap-");
        reveal_strlit("eth0");
    }
    let name = instance.name.as_str();
    let dir = String::from_str("/var/lib/firecracker/").concat(name);
    let socket_path = dir.clone().concat("/firecracker.socket");
    let rootfs_path = dir.concat("/").concat(name).concat(".rootfs.ext4");
    FirecrackerVMConfig {
        vm_id: instance.name.clone(),
        socket_path,
        kernel_path: String::from_str("/opt/aiva/images/vmlinux"),
        rootfs_path,
        vcpu_count: instance.config.cpus,
        mem_size_mib: instance.config.memory_mb,
        tap_device: String::from_str("tap-").concat(name),
        guest_ip: instance.config.network.guest_ip.clone(),
        network_interface: String::from_str("eth0"),
    }
}

/// The start of every request to the Firecracker API socket.
pub open spec fn api_put(path: Seq<char>, socket: Seq<char>) -> Seq<char> {
    "sudo curl -s -X PUT 'http://localhost/"@ + path + "' --unix-socket "@ + socket
        + " -H 'Content-Type: application/json' -d '"@
}

fn api_put_prefix(path: &str, socket: &str) -> (r: String)
    ensures
        r@ == api_put(path@, socket@),
{
    proof {
        reveal_strlit("sudo curl -s -X PUT 'http://localhost/");
        reveal_strlit("' --unix-socket ");
        reveal_strlit(" -H 'Content-Type: application/json' -d '");
    }
    String::from_str("sudo curl -s -X PUT 'http://localhost/").concat(path).concat(
        "' --unix-socket ",
    ).concat(socket).concat(" -H 'Content-Type: application/json' -d '")
}

/// The request that sets the guest's CPUs and memory.
pub open spec fn machine_request(c: FirecrackerVMConfig) -> Seq<char> {
    api_put("machine-config"@, c.socket_path@) + "{\"vcpu_count\": "@ + decimal(c.vcpu_count as nat)
        + ", \"mem_size_mib\": "@ + decimal(c.mem_size_mib as nat) + "}'"@
}

/// The request that sets the guest's kernel and boot arguments.
pub open spec fn boot_request(c: FirecrackerVMConfig) -> Seq<char> {
    api_put("boot-source"@, c.socket_path@) + "{\"kernel_image_path\": \""@ + c.kernel_path@
        + "\", \"boot_args\": \"console=ttyS0 reboot=k panic=1 pci=off init=/sbin/init ip="@
        + c.guest_ip@ + "::172.16.0.1:255.255.255.0::eth0:off\"}'"@
}

/// The request that attaches the guest's root drive.
pub open spec fn drive_request(c: FirecrackerVMConfig) -> Seq<char> {
    api_put("drives/rootfs"@, c.socket_path@) + "{\"drive_id\": \"rootfs\", \"path_on_host\": \""@
        + c.rootfs_path@ + "\", \"is_root_device\": true, \"is_read_only\": false}'"@
}

/// The request that attaches the guest's network interface.
pub open spec fn network_request(c: FirecrackerVMConfig) -> Seq<char> {
    api_put("network-interfaces/eth0"@, c.socket_path@)
        + "{\"iface_id\": \"eth0\", \"host_dev_name\": \""@ + c.tap_device@ + "\"}'"@
}

/// The request that boots the guest.
pub open spec fn start_request(c: FirecrackerVMConfig) -> Seq<char> {
    api_put("actions"@, c.socket_path@) + "{\"action_type\": \"InstanceStart\"}'"@
}

impl FirecrackerVMConfig {
    /// The request that sets the guest's CPUs and memory.
    pub fn machine_config_command(&self) -> (r: String)
        ensures
            r@ == machine_request(*self),
    {
        proof {
            reveal_strlit("machine-config");
            reveal_strlit("{\"vcpu_count\": ");
            reveal_strlit(", \"mem_size_mib\": ");
            reveal_strlit("}'");
        }
        api_put_prefix("machine-config", self.socket_path.as_str()).concat("{\"vcpu_count\": ").concat(
            decimal_string(self.vcpu_count as u64).as_str(),
        ).concat(", \"mem_size_mib\": ").concat(decimal_string(self.mem_size_mib).as_str()).concat(
            "}'",
        )
    }

    /// The request that sets the guest's kernel and boot arguments.
    pub fn boot_source_command(&self) -> (r: String)
        ensures
            r@ == boot_request(*self),
    {
        proof {
            reveal_strlit("boot-source");
            reveal_strlit("{\"kernel_image_path\": \"");
            reveal_strlit(
                "\", \"boot_args\": \"console=ttyS0 reboot=k panic=1 pci=off init=/sbin/init ip=",
            );
            reveal_strlit("::172.16.0.1:255.255.255.0::eth0:off\"}'");
        }
        api_put_prefix("boot-source", self.socket_path.as_str()).concat(
            "{\"kernel_image_path\": \"",
        ).concat(self.kernel_path.as_str()).concat(
            "\", \"boot_args\": \"console=ttyS0 reboot=k panic=1 pci=off init=/sbin/init ip=",
        ).concat(self.guest_ip.as_str()).concat("::172.16.0.1:255.255.255.0::eth0:off\"}'")
    }

    /// The request that attaches the guest's root drive.
    pub fn drive_command(&self) -> (r: String)
        ensures
            r@ == drive_request(*self),
    {
        proof {
            reveal_strlit("drives/rootfs");
            reveal_strlit("{\"drive_id\": \"rootfs\", \"path_on_host\": \"");
            reveal_strlit("\", \"is_root_device\": true, \"is_read_only\": false}'");
        }
        api_put_prefix("drives/rootfs", self.socket_path.as_str()).concat(
            "{\"drive_id\": \"rootfs\", \"path_on_host\": \"",
        ).concat(self.rootfs_path.as_str()).concat(
            "\", \"is_root_device\": true, \"is_read_only\": false}'",
        )
    }

    /// The request that attaches the guest's network interface.
    pub fn network_command(&self) -> (r: String)
        ensures
            r@ == network_request(*self),
    {
        proof {
            reveal_strlit("network-interfaces/eth0");
            reveal_strlit("{\"iface_id\": \"eth0\", \"host_dev_name\": \"");
            reveal_strlit("\"}'");
        }
        api_put_prefix("network-interfaces/eth0", self.socket_path.as_str()).concat(
            "{\"iface_id\": \"eth0\", \"host_dev_name\": \"",
        ).concat(self.tap_device.as_str()).concat("\"}'")
    }

    /// The request that boots the guest.
    pub fn start_instance_command(&self) -> (r: String)
        ensures
            r@ == start_request(*self),
    {
        proof {
            reveal_strlit("actions");
            reveal_strlit("{\"action_type\": \"InstanceStart\"}'");
        }
        api_put_prefix("actions", self.socket_path.as_str()).concat(
            "{\"action_type\": \"InstanceStart\"}'",
        )
    }

    /// The requests that configure and boot the guest, in order.
    pub fn boot_sequence(&self) -> (r: Vec<String>)
        ensures
            r@.len() == 5,
            r@[0]@ == machine_request(*self),
            r@[1]@ == boot_request(*self),
            r@[2]@ == drive_request(*self),
            r@[3]@ == network_request(*self),
            r@[4]@ == start_request(*self),
    {
        let mut v: Vec<String> = Vec::new();
        v.push(self.machine_config_command());
        v.push(self.boot_source_command());
        v.push(self.drive_command());
        v.push(self.network_command());
        v.push(self.start_instance_command());
        v
    }
}


/// How a host command ended: with an exit status and its output, without
/// starting, or past its time bound.
#[derive(Clone, Debug)]
pub enum HostRun {
    Finished { success: bool, stdout: String, stderr: String },
    NotStarted(String),
    TimedOut,
}

/// A recoverable or unrecoverable error of the macOS platform.
pub open spec fn is_macos_error(e: AivaError, message: Seq<char>, recoverable: bool) -> bool {
    &&& e matches AivaError::PlatformError { platform, message: m, recoverable: rc }
    &&& platform@ == "macos"@
    &&& m@ == message
    &&& rc == recoverable
}

fn macos_error(message: String, recoverable: bool) -> (e: AivaError)
    ensures
        is_macos_error(e, message@, recoverable),
{
    proof { reveal_strlit("macos"); }
    AivaError::PlatformError { platform: String::from_str("macos"), message, recoverable }
}

impl MacOSPlatform {
    /// The listing of Lima instances from `limactl list`, or why it could
    /// not be had: a command that did not start or outlived its 10 seconds
    /// is a recoverable error, a failed listing is not.
    pub fn lima_listing(&self, run: HostRun) -> (r: Result<String>)
        ensures
            run matches HostRun::Finished { success, stdout, .. } ==> (success ==> r == Ok::<String, AivaError>(stdout)) && (!success ==> (r matches Err(e) && is_macos_error(e, "Failed to list Lima instances"@, false))),
            run matches HostRun::NotStarted(why) ==> (r matches Err(e) && is_macos_error(e, "Failed to run limactl: "@ + why@, true)),
            run is TimedOut ==> (r matches Err(e) && is_macos_error(e, "limactl list command timed out after 10 seconds"@, true)),
    {
        proof {
            reveal_strlit("Failed to list Lima instances");
            reveal_strlit("Failed to run limactl: ");
            reveal_strlit("limactl list command timed out after 10 seconds");
        }
        match run {
            HostRun::Finished { success, stdout, .. } => {
                if success {
                    Ok(stdout)
                } else {
                    Err(macos_error(String::from_str("Failed to list Lima instances"), false))
                }
            },
            HostRun::NotStarted(why) => Err(
                macos_error(String::from_str("Failed to run limactl: ").concat(why.as_str()), true),
            ),
            HostRun::TimedOut => Err(
                macos_error(String::from_str("limactl list command timed out after 10 seconds"), true),
            ),
        }
    }

    /// Whether the Lima instance must be created: the listing does not
    /// name it.
    pub fn needs_lima_instance(&self, listing: &str) -> (r: bool)
        ensures
            r == !contains_seq(listing@, self.lima_instance@),
    {
        !str_contains(listing, self.lima_instance.as_str())
    }

    /// The Lima configuration to create the instance from: the one given
    /// to this platform, else the one the environment names, else
    /// ./lima.yml where it exists, else the built-in one.
    pub fn lima_config_choice(&self, from_env: Option<String>, local_exists: bool, builtin: &str) -> (r: String)
        ensures
            r@ == (match self.lima_config_path {
                Some(p) => p@,
                None => match from_env {
                    Some(e) => e@,
                    None => if local_exists { "./lima.yml"@ } else { builtin@ },
                },
            }),
    {
        proof { reveal_strlit("./lima.yml"); }
        match &self.lima_config_path {
            Some(p) => p.clone(),
            None => match from_env {
                Some(e) => e,
                None => if local_exists {
                    String::from_str("./lima.yml")
                } else {
                    String::from_str(builtin)
                },
            },
        }
    }

    /// The arguments of `limactl` that create and start the instance.
    pub fn lima_start_args(&self, config_path: &str) -> (r: Vec<String>)
        ensures
            r@.len() == 5,
            r@[0]@ == "start"@,
            r@[1]@ == "--name"@,
            r@[2]@ == self.lima_instance@,
            r@[3]@ == "--tty=false"@,
            r@[4]@ == config_path@,
    {
        let mut v: Vec<String> = Vec::new();
        v.push(String::from_str("start"));
        v.push(String::from_str("--name"));
        v.push(self.lima_instance.clone());
        v.push(String::from_str("--tty=false"));
        v.push(String::from_str(config_path));
        v
    }

    /// The result of creating the Lima instance; every failure is
    /// unrecoverable.
    pub fn lima_created(&self, run: HostRun) -> (r: Result<()>)
        ensures
            r is Ok <==> (run matches HostRun::Finished { success, .. } && success),
            run matches HostRun::Finished { success, stderr, .. } ==> (!success ==> (r matches Err(e) && is_macos_error(e, "Failed to create Lima instance: "@ + stderr@, false))),
            run matches HostRun::NotStarted(why) ==> (r matches Err(e) && is_macos_error(e, "Failed to create Lima instance: "@ + why@, false)),
            run is TimedOut ==> (r matches Err(e) && is_macos_error(e, "Lima instance creation timed out after 120 seconds"@, false)),
    {
        proof {
            reveal_strlit("Failed to create Lima instance: ");
            reveal_strlit("Lima instance creation timed out after 120 seconds");
        }
        match run {
            HostRun::Finished { success, stderr, .. } => {
                if success {
                    Ok(())
                } else {
                    Err(
                        macos_error(
                            String::from_str("Failed to create Lima instance: ").concat(stderr.as_str()),
                            false,
                        ),
                    )
                }
            },
            HostRun::NotStarted(why) => Err(
                macos_error(String::from_str("Failed to create Lima instance: ").concat(why.as_str()), false),
            ),
            HostRun::TimedOut => Err(
                macos_error(String::from_str("Lima instance creation timed out after 120 seconds"), false),
            ),
        }
    }
}


/// An error of the Windows platform.
pub open spec fn is_windows_error(e: AivaError, message: Seq<char>, recoverable: bool) -> bool {
    &&& e matches AivaError::PlatformError { platform, message: m, recoverable: rc }
    &&& platform@ == "windows"@
    &&& m@ == message
    &&& rc == recoverable
}

impl WindowsPlatform {
    /// Whether the output of `ver` shows Windows 11 (version 10.0.22xxx
    /// or later in that line), which nested virtualization is best on.
    pub fn is_windows_11(&self, ver_output: &str) -> (r: bool)
        ensures
            r == contains_seq(ver_output@, "Version 10.0.22"@),
    {
        str_contains(ver_output, "Version 10.0.22")
    }

    /// Whether `wsl --status` shows WSL 2, which nested virtualization
    /// needs; without it, a recoverable error.
    pub fn wsl2_verdict(&self, status: &str) -> (r: Result<()>)
        ensures
            r is Ok <==> contains_seq(status@, "WSL version: 2"@) || contains_seq(status@, "WSL 2"@),
            r matches Err(e) ==> is_windows_error(e, "WSL 2 is required for nested virtualization"@, true),
    {
        proof {
            reveal_strlit("windows");
            reveal_strlit("WSL 2 is required for nested virtualization");
        }
        if str_contains(status, "WSL version: 2") || str_contains(status, "WSL 2") {
            Ok(())
        } else {
            Err(
                AivaError::PlatformError {
                    platform: String::from_str("windows"),
                    message: String::from_str("WSL 2 is required for nested virtualization"),
                    recoverable: true,
                },
            )
        }
    }

    /// The WSL distribution to run Firecracker in, from the output of
    /// `wsl --list --quiet`: the configured one, else Ubuntu, else Debian.
    pub fn choose_distro(&self, listing: &str) -> (r: Result<String>)
        ensures
            contains_seq(listing@, self.wsl_distro@) ==> (r matches Ok(d) && d@ == self.wsl_distro@),
            !contains_seq(listing@, self.wsl_distro@) && contains_seq(listing@, "Ubuntu"@) ==> (r matches Ok(d) && d@ == "Ubuntu"@),
            !contains_seq(listing@, self.wsl_distro@) && !contains_seq(listing@, "Ubuntu"@) && contains_seq(listing@, "Debian"@) ==> (r matches Ok(d) && d@ == "Debian"@),
            !contains_seq(listing@, self.wsl_distro@) && !contains_seq(listing@, "Ubuntu"@) && !contains_seq(listing@, "Debian"@) ==> (r matches Err(e) && is_windows_error(e, "No suitable WSL distribution found. Please install Ubuntu from Microsoft Store."@, true)),
    {
        proof {
            reveal_strlit("windows");
            reveal_strlit("Ubuntu");
            reveal_strlit("Debian");
            reveal_strlit("No suitable WSL distribution found. Please install Ubuntu from Microsoft Store.");
        }
        if str_contains(listing, self.wsl_distro.as_str()) {
            Ok(self.wsl_distro.clone())
        } else if str_contains(listing, "Ubuntu") {
            Ok(String::from_str("Ubuntu"))
        } else if str_contains(listing, "Debian") {
            Ok(String::from_str("Debian"))
        } else {
            Err(
                AivaError::PlatformError {
                    platform: String::from_str("windows"),
                    message: String::from_str(
                        "No suitable WSL distribution found. Please install Ubuntu from Microsoft Store.",
                    ),
                    recoverable: true,
                },
            )
        }
    }
}


/// Pieces as character sequences.
pub open spec fn seqs(parts: Seq<&str>) -> Seq<Seq<char>> {
    parts.map_values(|p: &str| p@)
}

/// The instance a macOS creation reports: `Stopped`, no process yet, the
/// API socket and TAP device of its Firecracker setup, everything else as
/// given.
pub open spec fn created_from(v: VMInstance, c: FirecrackerVMConfig) -> VMInstance {
    VMInstance {
        state: VMState::Stopped,
        runtime: RuntimeInfo {
            pid: None,
            api_socket: Some(c.socket_path),
            vsock_cid: v.runtime.vsock_cid,
            tap_device: Some(c.tap_device),
        },
        ..v
    }
}

/// The instance that creating `instance` on the macOS platform reports.
pub fn created_instance(instance: VMInstance) -> (r: VMInstance)
    ensures
        exists|c: FirecrackerVMConfig| is_firecracker_config_of(c, instance) && r == created_from(instance, c),
{
    let c = firecracker_vm_config(&instance);
    let ghost fc = c;
    let cid = instance.runtime.vsock_cid;
    let r = VMInstance {
        state: VMState::Stopped,
        runtime: RuntimeInfo { pid: None, api_socket: Some(c.socket_path), vsock_cid: cid, tap_device: Some(c.tap_device) },
        ..instance
    };
    proof {
        assert(r == created_from(instance, fc));
    }
    r
}

/// The command that makes a guest's directory in the nested host.
pub open spec fn guest_dir_command(name: Seq<char>) -> Seq<char> {
    "sudo mkdir -p "@ + guest_dir(name) + " && sudo chmod 755 "@ + guest_dir(name)
}

/// The command that makes a guest's directory in the nested host.
pub fn make_guest_dir_command(name: &str) -> (r: String)
    ensures
        r@ == guest_dir_command(name@),
{
    proof {
        reveal_strlit("sudo mkdir -p ");
        reveal_strlit(" && sudo chmod 755 ");
        reveal_strlit("/var/lib/firecracker/");
    }
    let dir = String::from_str("/var/lib/firecracker/").concat(name);
    String::from_str("sudo mkdir -p ").concat(dir.as_str()).concat(" && sudo chmod 755 ").concat(dir.as_str())
}

/// The script that gives a guest its own root file system: a copy of the
/// base image, grown to `disk_gb` GiB and checked.
pub open spec fn rootfs_script_text(rootfs: Seq<char>, disk_gb: u64) -> Seq<char> {
    "sudo cp /opt/aiva/images/base.rootfs.ext4 "@ + rootfs + "\nsudo chmod 644 "@ + rootfs
        + "\nsudo truncate -s "@ + decimal(disk_gb as nat) + "G "@ + rootfs + "\nsudo e2fsck -f -y "@
        + rootfs + " || true\nsudo resize2fs "@ + rootfs + " || true\necho \"Rootfs created at "@ + rootfs
        + "\"\n"@
}

impl FirecrackerVMConfig {
    /// The script that creates this guest's root file system of `disk_gb`
    /// GiB.
    pub fn rootfs_script(&self, disk_gb: u64) -> (r: String)
        ensures
            r@ == rootfs_script_text(self.rootfs_path@, disk_gb),
    {
        proof {
            reveal_strlit("sudo cp /opt/aiva/images/base.rootfs.ext4 ");
            reveal_strlit("\nsudo chmod 644 ");
            reveal_strlit("\nsudo truncate -s ");
            reveal_strlit("G ");
            reveal_strlit("\nsudo e2fsck -f -y ");
            reveal_strlit(" || true\nsudo resize2fs ");
            reveal_strlit(" || true\necho \"Rootfs created at ");
            reveal_strlit("\"\n");
        }
        let p = self.rootfs_path.as_str();
        String::from_str("sudo cp /opt/aiva/images/base.rootfs.ext4 ").concat(p).concat("\nsudo chmod 644 ").concat(
            p,
        ).concat("\nsudo truncate -s ").concat(decimal_string(disk_gb).as_str()).concat("G ").concat(p).concat(
            "\nsudo e2fsck -f -y ",
        ).concat(p).concat(" || true\nsudo resize2fs ").concat(p).concat(
            " || true\necho \"Rootfs created at ",
        ).concat(p).concat("\"\n")
    }

    /// The command that tells whether the API socket exists yet.
    pub fn socket_check_command(&self) -> (r: String)
        ensures
            r@ == "test -S "@ + self.socket_path@ + " && echo 'ready'"@,
    {
        proof {
            reveal_strlit("test -S ");
            reveal_strlit(" && echo 'ready'");
        }
        String::from_str("test -S ").concat(self.socket_path.as_str()).concat(" && echo 'ready'")
    }

    /// The command that tells whether Firecracker answers on its socket.
    pub fn api_check_command(&self) -> (r: String)
        ensures
            r@ == "sudo curl -s -X GET --unix-socket "@ + self.socket_path@
                + " http://localhost/ 2>/dev/null && echo 'responding'"@,
    {
        proof {
            reveal_strlit("sudo curl -s -X GET --unix-socket ");
            reveal_strlit(" http://localhost/ 2>/dev/null && echo 'responding'");
        }
        String::from_str("sudo curl -s -X GET --unix-socket ").concat(self.socket_path.as_str()).concat(
            " http://localhost/ 2>/dev/null && echo 'responding'",
        )
    }
}

/// The signal a stop sends: a kill where forced, else a request to end.
pub open spec fn stop_signal(force: bool) -> Seq<char> {
    if force {
        "-KILL"@
    } else {
        "-TERM"@
    }
}

/// The pieces of the stop script, between which the VM's name stands.
pub open spec fn stop_pieces(force: bool) -> Seq<Seq<char>> {
    let sig = stop_signal(force);
    seq![
        "if [ -f /tmp/firecracker-"@,
        ".pid ]; then\n  FC_PID=$(cat /tmp/firecracker-"@,
        ".pid)\n  if [ \"$FC_PID\" != \"\" ]; then sudo kill "@ + sig + " $FC_PID 2>/dev/null || true; fi\n  rm -f /tmp/firecracker-"@,
        ".pid\nfi\nsudo rm -f /var/lib/firecracker/"@,
        "/firecracker.socket\nsudo ip link delete tap-"@,
        " 2>/dev/null || true\nif [ -f /tmp/mcp-"@,
        ".pid ]; then\n  kill "@ + sig + " $(cat /tmp/mcp-"@,
        ".pid) 2>/dev/null || true\n  rm -f /tmp/mcp-"@,
        ".pid\nfi\npkill "@ + sig + " -f \"mcp.*"@,
        "\" 2>/dev/null || true\nrm -f /tmp/mcp-"@,
        "-run.sh /tmp/mcp-"@,
        ".log 2>/dev/null || true\nsudo pkill "@ + sig + " -f \"firecracker.*"@,
        "\" 2>/dev/null || true\necho \"Firecracker VM "@,
        " stopped and cleaned up\"\n"@,
    ]
}

/// The script that stops a guest in the nested host and cleans up after
/// it: its Firecracker process, API socket, TAP device and MCP server.
/// With `force` the processes are killed; without it they are asked to
/// end.
pub fn stop_script(name: &str, force: bool) -> (r: String)
    ensures
        r@ == joined_with(stop_pieces(force), name@),
{
    proof {
        reveal_strlit("-KILL");
        reveal_strlit("-TERM");
        reveal_strlit("if [ -f /tmp/firecracker-");
        reveal_strlit(".pid ]; then\n  FC_PID=$(cat /tmp/firecracker-");
        reveal_strlit(".pid)\n  if [ \"$FC_PID\" != \"\" ]; then sudo kill ");
        reveal_strlit(" $FC_PID 2>/dev/null || true; fi\n  rm -f /tmp/firecracker-");
        reveal_strlit(".pid\nfi\nsudo rm -f /var/lib/firecracker/");
        reveal_strlit("/firecracker.socket\nsudo ip link delete tap-");
        reveal_strlit(" 2>/dev/null || true\nif [ -f /tmp/mcp-");
        reveal_strlit(".pid ]; then\n  kill ");
        reveal_strlit(" $(cat /tmp/mcp-");
        reveal_strlit(".pid) 2>/dev/null || true\n  rm -f /tmp/mcp-");
        reveal_strlit(".pid\nfi\npkill ");
        reveal_strlit(" -f \"mcp.*");
        reveal_strlit("\" 2>/dev/null || true\nrm -f /tmp/mcp-");
        reveal_strlit("-run.sh /tmp/mcp-");
        reveal_strlit(".log 2>/dev/null || true\nsudo pkill ");
        reveal_strlit(" -f \"firecracker.*");
        reveal_strlit("\" 2>/dev/null || true\necho \"Firecracker VM ");
        reveal_strlit(" stopped and cleaned up\"\n");
    }
    let sig = if force { "-KILL" } else { "-TERM" };
    let p2 = String::from_str(".pid)\n  if [ \"$FC_PID\" != \"\" ]; then sudo kill ").concat(sig).concat(
        " $FC_PID 2>/dev/null || true; fi\n  rm -f /tmp/firecracker-",
    );
    let p6 = String::from_str(".pid ]; then\n  kill ").concat(sig).concat(" $(cat /tmp/mcp-");
    let p8 = String::from_str(".pid\nfi\npkill ").concat(sig).concat(" -f \"mcp.*");
    let p11 = String::from_str(".log 2>/dev/null || true\nsudo pkill ").concat(sig).concat(" -f \"firecracker.*");
    let parts = [
        "if [ -f /tmp/firecracker-",
        ".pid ]; then\n  FC_PID=$(cat /tmp/firecracker-",
        p2.as_str(),
        ".pid\nfi\nsudo rm -f /var/lib/firecracker/",
        "/firecracker.socket\nsudo ip link delete tap-",
        " 2>/dev/null || true\nif [ -f /tmp/mcp-",
        p6.as_str(),
        ".pid) 2>/dev/null || true\n  rm -f /tmp/mcp-",
        p8.as_str(),
        "\" 2>/dev/null || true\nrm -f /tmp/mcp-",
        "-run.sh /tmp/mcp-",
        p11.as_str(),
        "\" 2>/dev/null || true\necho \"Firecracker VM ",
        " stopped and cleaned up\"\n",
    ];
    let r = fill_template(&parts, name);
    proof {
        assert(seqs(parts@) =~= stop_pieces(force));
    }
    r
}

/// Milliseconds between two looks at a starting Firecracker's socket.
pub const SOCKET_POLL_MS: u64 = 200;

/// Looks at a starting Firecracker's socket before giving up.
pub const SOCKET_POLL_TRIES: u32 = 30;

/// What to do after one look at a starting Firecracker.
#[derive(Clone, Copy, Debug, PartialEq, Eq, Structural)]
pub enum WaitStep {
    /// It answers; it took this many milliseconds.
    Ready { after_ms: u64 },
    /// Wait another poll interval and look again.
    Retry,
    /// It never answered.
    GiveUp,
}

/// The step after look number `attempt` (from 0), which found the socket
/// present (`socket_ready`) and Firecracker answering (`responding`).
pub fn socket_wait_step(attempt: u32, socket_ready: bool, responding: bool) -> (r: WaitStep)
    requires
        attempt < SOCKET_POLL_TRIES,
    ensures
        socket_ready && responding ==> r == (WaitStep::Ready { after_ms: ((attempt + 1) * 200) as u64 }),
        !(socket_ready && responding) && attempt + 1 < SOCKET_POLL_TRIES ==> r == WaitStep::Retry,
        !(socket_ready && responding) && attempt + 1 >= SOCKET_POLL_TRIES ==> r == WaitStep::GiveUp,
{
    if socket_ready && responding {
        WaitStep::Ready { after_ms: (attempt as u64 + 1) * SOCKET_POLL_MS }
    } else if attempt + 1 < SOCKET_POLL_TRIES {
        WaitStep::Retry
    } else {
        WaitStep::GiveUp
    }
}

/// The error when Firecracker never answered, with its log.
pub fn not_responding_error(name: &str, logs: &str) -> (e: AivaError)
    ensures
        e matches AivaError::VMError { vm_name, state, message } && vm_name@ == name@ && state == VMState::Error
            && message@ == "Firecracker not responding after 6 seconds. Logs:\n"@ + logs@,
{
    proof { reveal_strlit("Firecracker not responding after 6 seconds. Logs:\n"); }
    AivaError::VMError {
        vm_name: String::from_str(name),
        state: VMState::Error,
        message: String::from_str("Firecracker not responding after 6 seconds. Logs:\n").concat(logs),
    }
}

/// The pieces of the WSL metrics report script, between which the VM's
/// name stands.
pub open spec fn wsl_metrics_pieces() -> Seq<Seq<char>> {
    seq![
        "PID=$(pgrep -f 'firecracker.*"@,
        "' | head -1)\nif [ -z \"$PID\" ]; then echo 'error: not running'; exit 0; fi\necho \"cpu_usage: $(ps -p $PID -o %cpu= | tr -d ' ')\"\necho \"memory_used_kb: $(ps -p $PID -o rss= | tr -d ' ')\"\necho \"memory_total_kb: $(awk '/MemTotal/ {print $2}' /proc/meminfo)\"\necho \"rx_bytes: $(awk '/tap-"@,
        ":/ {print $2}' /proc/net/dev)\"\necho \"tx_bytes: $(awk '/tap-"@,
        ":/ {print $10}' /proc/net/dev)\"\n"@,
    ]
}

impl WindowsPlatform {
    /// The script that reports a guest's figures from inside WSL, one
    /// "key: value" line each, or an error line where it is not running.
    pub fn metrics_script(&self, name: &str) -> (r: String)
        ensures
            r@ == joined_with(wsl_metrics_pieces(), name@),
    {
        proof {
            reveal_strlit("PID=$(pgrep -f 'firecracker.*");
            reveal_strlit("' | head -1)\nif [ -z \"$PID\" ]; then echo 'error: not running'; exit 0; fi\necho \"cpu_usage: $(ps -p $PID -o %cpu= | tr -d ' ')\"\necho \"memory_used_kb: $(ps -p $PID -o rss= | tr -d ' ')\"\necho \"memory_total_kb: $(awk '/MemTotal/ {print $2}' /proc/meminfo)\"\necho \"rx_bytes: $(awk '/tap-");
            reveal_strlit(":/ {print $2}' /proc/net/dev)\"\necho \"tx_bytes: $(awk '/tap-");
            reveal_strlit(":/ {print $10}' /proc/net/dev)\"\n");
        }
        let parts = [
            "PID=$(pgrep -f 'firecracker.*",
            "' | head -1)\nif [ -z \"$PID\" ]; then echo 'error: not running'; exit 0; fi\necho \"cpu_usage: $(ps -p $PID -o %cpu= | tr -d ' ')\"\necho \"memory_used_kb: $(ps -p $PID -o rss= | tr -d ' ')\"\necho \"memory_total_kb: $(awk '/MemTotal/ {print $2}' /proc/meminfo)\"\necho \"rx_bytes: $(awk '/tap-",
            ":/ {print $2}' /proc/net/dev)\"\necho \"tx_bytes: $(awk '/tap-",
            ":/ {print $10}' /proc/net/dev)\"\n",
        ];
        let r = fill_template(&parts, name);
        proof {
            assert(seqs(parts@) =~= wsl_metrics_pieces());
        }
        r
    }
}


/// The port an MCP server in the nested host listens on: the number after
/// the first "--port " of its command, 3000 where none reads; without that
/// flag, the first forwarded host port, else 3000.
pub open spec fn service_port_of(command: Seq<char>, v: VMInstance) -> u16 {
    if contains_seq(command, "--port "@) {
        let i = choose|i: int| first_occurrence(command, "--port "@, i);
        let ws = words(command.subrange(i + 7, command.len() as int));
        if ws.len() > 0 && port_value(ws[0]) is Some {
            port_value(ws[0])->0
        } else {
            3000
        }
    } else if v.config.network.port_mappings@.len() > 0 {
        v.config.network.port_mappings@[0].host_port
    } else {
        3000
    }
}

/// The port an MCP server started with `command` listens on.
pub fn service_port(command: &str, instance: &VMInstance) -> (r: u16)
    ensures
        r == service_port_of(command@, *instance),
{
    proof { reveal_strlit("--port "); }
    match str_find(command, "--port ") {
        Some(i) => {
            proof {
                let j = choose|j: int| first_occurrence(command@, "--port "@, j);
                assert(j == i as int) by {
                    if j < i {
                    } else if j > i {
                    }
                }
            }
            let n = command.unicode_len();
            let rest = command.substring_char(i + 7, n);
            let ws = split_words(rest);
            if ws.len() > 0 {
                proof {
                    assert(texts(ws@)[0] == ws@[0]@);
                }
                match parse_port(ws[0].as_str()) {
                    Some(p) => p,
                    None => 3000,
                }
            } else {
                3000
            }
        },
        None => {
            if instance.config.network.port_mappings.len() > 0 {
                instance.config.network.port_mappings[0].host_port
            } else {
                3000
            }
        },
    }
}

} // verus!
