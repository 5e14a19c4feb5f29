//! Ready-made guest templates and the commands that run MCP servers in
//! them.
use vstd::prelude::*;
use crate::error::{AivaError, Result};
use crate::text::{
    contains_seq, decimal, decimal_string, starts_with_seq, str_contains, str_eq, str_starts_with,
    strings, texts,
};
use crate::types::{
    BlockDevice, CacheStrategy, NetworkConfig, PortMapping, Protocol, StorageConfig, VMConfig,
};

verus! {

/// The language runtime a template installs.
#[derive(Clone, Debug)]
pub enum RuntimeType {
    Python3 { version: String, package_manager: String },
    NodeJS { version: String, package_manager: String },
    Custom { name: String, version: String },
}

/// How an MCP server in the guest can be reached.
#[derive(Clone, Debug)]
pub struct MCPSupport {
    pub sse_enabled: bool,
    pub stdio_enabled: bool,
    pub default_port: Option<u16>,
    pub supported_transports: Vec<String>,
}

/// A ready-made guest for one language runtime.
#[derive(Clone, Debug)]
pub struct VMTemplate {
    pub name: String,
    pub description: String,
    pub runtime: RuntimeType,
    pub base_config: VMConfig,
    pub setup_scripts: Vec<String>,
    /// Command aliases of the runtime, as (alias, command) pairs.
    pub runtime_commands: Vec<(String, String)>,
    pub mcp_support: MCPSupport,
}

/// Caller overrides applied to a template's configuration.
#[derive(Clone, Debug)]
pub struct VMConfigCustomizations {
    pub cpus: Option<u32>,
    pub memory_mb: Option<u64>,
    pub disk_gb: Option<u64>,
    pub additional_ports: Option<Vec<u16>>,
}

/// Lists and validates the built-in templates.
pub struct TemplateManager;

/// A TCP mapping of a port to the same port in the guest.
pub open spec fn same_port_tcp(p: u16) -> PortMapping {
    PortMapping { host_port: p, guest_port: p, protocol: Protocol::Tcp }
}

/// The guest every template starts from: 2 vCPUs, 4096 MiB, 20 GB, the
/// shared kernel and root image, the default network with `port`
/// forwarded, and write-back caching.
pub open spec fn is_template_base(c: VMConfig, port: u16) -> bool {
    &&& c.cpus == 2
    &&& c.memory_mb == 4096
    &&& c.disk_gb == 20
    &&& c.kernel_path@ == "/opt/aiva/images/vmlinux"@
    &&& c.rootfs_path@ == "/opt/aiva/images/rootfs.ext4"@
    &&& c.network.guest_ip@ == "172.16.0.2"@
    &&& c.network.host_ip@ == "172.16.0.1"@
    &&& c.network.subnet@ == "172.16.0.0/24"@
    &&& c.network.gateway@ == "172.16.0.1"@
    &&& texts(c.network.dns_servers@) == seq!["8.8.8.8"@, "1.1.1.1"@]
    &&& !c.network.dhcp_enabled
    &&& c.network.port_mappings@ == seq![same_port_tcp(port)]
    &&& c.storage.cache_strategy == CacheStrategy::Writeback
    &&& c.storage.additional_drives@.len() == 0
}

/// The MCP transports every template supports.
pub open spec fn is_mcp_support(m: MCPSupport, port: u16) -> bool {
    &&& m.sse_enabled
    &&& m.stdio_enabled
    &&& m.default_port == Some(port)
    &&& texts(m.supported_transports@) == seq!["sse"@, "stdio"@]
}

/// The aliases of a vector of pairs, as character sequences.
pub open spec fn pair_texts(v: Seq<(String, String)>) -> Seq<(Seq<char>, Seq<char>)> {
    v.map_values(|p: (String, String)| (p.0@, p.1@))
}

/// The Python template: Python 3.12 with uv, MCP on port 3000.
pub open spec fn is_python_template(t: VMTemplate) -> bool {
    &&& t.name@ == "python3-uv"@
    &&& t.description@ == "Python 3.12 with uv package manager for MCP servers"@
    &&& t.runtime matches RuntimeType::Python3 { version, package_manager }
    &&& version@ == "3.12"@ && package_manager@ == "uv"@
    &&& is_template_base(t.base_config, 3000)
    &&& t.setup_scripts@.len() == 14
    &&& t.setup_scripts@[0]@ == "#!/bin/bash"@
    &&& t.setup_scripts@[1]@ == "set -e"@
    &&& pair_texts(t.runtime_commands@) == seq![
        ("python"@, "python3.12"@),
        ("pip"@, "uv pip"@),
        ("venv"@, "uv venv"@),
        ("run"@, "uv run"@),
    ]
    &&& is_mcp_support(t.mcp_support, 3000)
}

/// The Node.js template: Node.js 22 with npx, MCP on port 3001.
pub open spec fn is_node_template(t: VMTemplate) -> bool {
    &&& t.name@ == "nodejs22-npx"@
    &&& t.description@ == "Node.js 22 with npx for MCP servers"@
    &&& t.runtime matches RuntimeType::NodeJS { version, package_manager }
    &&& version@ == "22"@ && package_manager@ == "npm"@
    &&& is_template_base(t.base_config, 3001)
    &&& t.setup_scripts@.len() == 17
    &&& t.setup_scripts@[0]@ == "#!/bin/bash"@
    &&& t.setup_scripts@[1]@ == "set -e"@
    &&& pair_texts(t.runtime_commands@) == seq![
        ("node"@, "node"@),
        ("npm"@, "npm"@),
        ("npx"@, "npx"@),
        ("run"@, "npx"@),
    ]
    &&& is_mcp_support(t.mcp_support, 3001)
}

/// Names that select the Python template.
pub open spec fn is_python_alias(n: Seq<char>) -> bool {
    n == "python3-uv"@ || n == "python3"@ || n == "python"@
}

/// Names that select the Node.js template.
pub open spec fn is_node_alias(n: Seq<char>) -> bool {
    n == "nodejs22-npx"@ || n == "nodejs22"@ || n == "nodejs"@ || n == "node"@
}

fn pair(a: &str, b: &str) -> (r: (String, String))
    ensures
        r.0@ == a@,
        r.1@ == b@,
{
    (String::from_str(a), String::from_str(b))
}

fn mcp_support(port: u16) -> (r: MCPSupport)
    ensures
        is_mcp_support(r, port),
{
    proof {
        reveal_strlit("sse");
        reveal_strlit("stdio");
    }
    let t = strings(&["sse", "stdio"]);
    proof {
        assert(texts(t@) =~= seq!["sse"@, "stdio"@]);
    }
    MCPSupport { sse_enabled: true, stdio_enabled: true, default_port: Some(port), supported_transports: t }
}

impl VMTemplate {
    /// The Python 3.12 template with the uv package manager.
    pub fn python3_uv() -> (r: VMTemplate)
        ensures
            is_python_template(r),
    {
        proof {
            reveal_strlit("python3-uv");
            reveal_strlit("Python 3.12 with uv package manager for MCP servers");
            reveal_strlit("3.12");
            reveal_strlit("uv");
            reveal_strlit("#!/bin/bash");
            reveal_strlit("set -e");
            reveal_strlit("python");
            reveal_strlit("python3.12");
            reveal_strlit("pip");
            reveal_strlit("uv pip");
            reveal_strlit("venv");
            reveal_strlit("uv venv");
            reveal_strlit("run");
            reveal_strlit("uv run");
        }
        let scripts = strings(
            &[
                "#!/bin/bash",
                "set -e",
                "echo 'Setting up Python 3.12 with uv...'",
                "# Install Python 3.12",
                "apt-get update && apt-get install -y software-properties-common",
                "add-apt-repository ppa:deadsnakes/ppa -y",
                "apt-get update && apt-get install -y python3.12 python3.12-venv python3.12-dev",
                "# Install uv",
                "curl -LsSf https://astral.sh/uv/install.sh | sh",
                "echo 'export PATH=\"$HOME/.cargo/bin:$PATH\"' >> ~/.bashrc",
                "# Create MCP working directory",
                "mkdir -p /opt/mcp",
                "chown $(whoami):$(whoami) /opt/mcp",
                "echo 'Python 3.12 with uv setup complete'",
            ],
        );
        let mut commands: Vec<(String, String)> = Vec::new();
        commands.push(pair("python", "python3.12"));
        commands.push(pair("pip", "uv pip"));
        commands.push(pair("venv", "uv venv"));
        commands.push(pair("run", "uv run"));
        proof {
            assert(pair_texts(commands@) =~= seq![
                ("python"@, "python3.12"@),
                ("pip"@, "uv pip"@),
                ("venv"@, "uv venv"@),
                ("run"@, "uv run"@),
            ]);
        }
        VMTemplate {
            name: String::from_str("python3-uv"),
            description: String::from_str("Python 3.12 with uv package manager for MCP servers"),
            runtime: RuntimeType::Python3 {
                version: String::from_str("3.12"),
                package_manager: String::from_str("uv"),
            },
            base_config: VMTemplate::default_vm_config_with_port(3000),
            setup_scripts: scripts,
            runtime_commands: commands,
            mcp_support: mcp_support(3000),
        }
    }

    /// The Node.js 22 template with npx.
    pub fn nodejs22_npx() -> (r: VMTemplate)
        ensures
            is_node_template(r),
    {
        proof {
            reveal_strlit("nodejs22-npx");
            reveal_strlit("Node.js 22 with npx for MCP servers");
            reveal_strlit("22");
            reveal_strlit("npm");
            reveal_strlit("#!/bin/bash");
            reveal_strlit("set -e");
            reveal_strlit("node");
            reveal_strlit("npx");
            reveal_strlit("run");
        }
        let scripts = strings(
            &[
                "#!/bin/bash",
                "set -e",
                "echo 'Setting up Node.js 22 with npx...'",
                "# Install Node.js 22 via NodeSource repository",
                "curl -fsSL https://deb.nodesource.com/setup_22.x | bash -",
                "apt-get install -y nodejs",
                "# Verify installation",
                "node --version",
                "npm --version",
                "npx --version",
                "# Create MCP working directory",
                "mkdir -p /opt/mcp",
                "chown $(whoami):$(whoami) /opt/mcp",
                "# Set npm global prefix to avoid permission issues",
                "npm config set prefix /opt/mcp/.npm-global",
                "echo 'export PATH=/opt/mcp/.npm-global/bin:$PATH' >> ~/.bashrc",
                "echo 'Node.js 22 with npx setup complete'",
            ],
        );
        let mut commands: Vec<(String, String)> = Vec::new();
        commands.push(pair("node", "node"));
        commands.push(pair("npm", "npm"));
        commands.push(pair("npx", "npx"));
        commands.push(pair("run", "npx"));
        proof {
            assert(pair_texts(commands@) =~= seq![
                ("node"@, "node"@),
                ("npm"@, "npm"@),
                ("npx"@, "npx"@),
                ("run"@, "npx"@),
            ]);
        }
        VMTemplate {
            name: String::from_str("nodejs22-npx"),
            description: String::from_str("Node.js 22 with npx for MCP servers"),
            runtime: RuntimeType::NodeJS {
                version: String::from_str("22"),
                package_manager: String::from_str("npm"),
            },
            base_config: VMTemplate::default_vm_config_with_port(3001),
            setup_scripts: scripts,
            runtime_commands: commands,
            mcp_support: mcp_support(3001),
        }
    }

    fn default_vm_config_with_port(default_port: u16) -> (r: VMConfig)
        ensures
            is_template_base(r, default_port),
    {
        proof {
            reveal_strlit("/opt/aiva/images/vmlinux");
            reveal_strlit("/opt/aiva/images/rootfs.ext4");
            reveal_strlit("172.16.0.2");
            reveal_strlit("172.16.0.1");
            reveal_strlit("172.16.0.0/24");
            reveal_strlit("8.8.8.8");
            reveal_strlit("1.1.1.1");
        }
        let dns = strings(&["8.8.8.8", "1.1.1.1"]);
        proof {
            assert(texts(dns@) =~= seq!["8.8.8.8"@, "1.1.1.1"@]);
        }
        let mut ports: Vec<PortMapping> = Vec::new();
        ports.push(PortMapping { host_port: default_port, guest_port: default_port, protocol: Protocol::Tcp });
        proof {
            assert(ports@ =~= seq![same_port_tcp(default_port)]);
        }
        VMConfig {
            cpus: 2,
            memory_mb: 4096,
            disk_gb: 20,
            kernel_path: String::from_str("/opt/aiva/images/vmlinux"),
            rootfs_path: String::from_str("/opt/aiva/images/rootfs.ext4"),
            network: NetworkConfig {
                guest_ip: String::from_str("172.16.0.2"),
                host_ip: String::from_str("172.16.0.1"),
                subnet: String::from_str("172.16.0.0/24"),
                gateway: String::from_str("172.16.0.1"),
                dns_servers: dns,
                dhcp_enabled: false,
                port_mappings: ports,
            },
            storage: StorageConfig { cache_strategy: CacheStrategy::Writeback, additional_drives: Vec::new() },
        }
    }

    /// Every built-in template: Python first, then Node.js.
    pub fn get_all_templates() -> (r: Vec<VMTemplate>)
        ensures
            r@.len() == 2,
            is_python_template(r@[0]),
            is_node_template(r@[1]),
    {
        let mut v: Vec<VMTemplate> = Vec::new();
        v.push(VMTemplate::python3_uv());
        v.push(VMTemplate::nodejs22_npx());
        v
    }

    /// The template a name or alias selects; an unknown name is a
    /// configuration error that lists the available templates.
    pub fn get_template_by_name(name: &str) -> (r: Result<VMTemplate>)
        ensures
            is_python_alias(name@) ==> (r matches Ok(t) && is_python_template(t)),
            is_node_alias(name@) ==> (r matches Ok(t) && is_node_template(t)),
            !is_python_alias(name@) && !is_node_alias(name@) ==> (r matches Err(AivaError::ConfigError(m))
                && m@ == "Unknown template: "@ + name@
                + ". Available templates: python3-uv, nodejs22-npx"@),
    {
        proof {
            reveal_strlit("python3-uv");
            reveal_strlit("python3");
            reveal_strlit("python");
            reveal_strlit("nodejs22-npx");
            reveal_strlit("nodejs22");
            reveal_strlit("nodejs");
            reveal_strlit("node");
            reveal_strlit("Unknown template: ");
            reveal_strlit(". Available templates: python3-uv, nodejs22-npx");
        }
        proof {
            if is_node_alias(name@) {
                assert(name@[0] == 'n');
                assert(!is_python_alias(name@));
            }
        }
        if str_eq(name, "python3-uv") || str_eq(name, "python3") || str_eq(name, "python") {
            Ok(VMTemplate::python3_uv())
        } else if str_eq(name, "nodejs22-npx") || str_eq(name, "nodejs22") || str_eq(name, "nodejs")
            || str_eq(name, "node") {
            Ok(VMTemplate::nodejs22_npx())
        } else {
            Err(
                AivaError::ConfigError(
                    String::from_str("Unknown template: ").concat(name).concat(
                        ". Available templates: python3-uv, nodejs22-npx",
                    ),
                ),
            )
        }
    }

    /// The (name, description) of each built-in template.
    pub fn list_available_templates() -> (r: Vec<(String, String)>)
        ensures
            pair_texts(r@) == seq![
                ("python3-uv"@, "Python 3.12 with uv package manager for MCP servers"@),
                ("nodejs22-npx"@, "Node.js 22 with npx for MCP servers"@),
            ],
    {
        proof {
            reveal_strlit("python3-uv");
            reveal_strlit("Python 3.12 with uv package manager for MCP servers");
            reveal_strlit("nodejs22-npx");
            reveal_strlit("Node.js 22 with npx for MCP servers");
        }
        let mut v: Vec<(String, String)> = Vec::new();
        v.push(pair("python3-uv", "Python 3.12 with uv package manager for MCP servers"));
        v.push(pair("nodejs22-npx", "Node.js 22 with npx for MCP servers"));
        proof {
            assert(pair_texts(v@) =~= seq![
                ("python3-uv"@, "Python 3.12 with uv package manager for MCP servers"@),
                ("nodejs22-npx"@, "Node.js 22 with npx for MCP servers"@),
            ]);
        }
        v
    }

    /// The template's configuration with the caller's overrides: CPUs,
    /// memory and disk where given, and a same-port TCP mapping appended
    /// for each additional port.
    pub fn generate_vm_config(&self, customizations: Option<VMConfigCustomizations>) -> (r: VMConfig)
        ensures
            same_config_except_resources(r, self.base_config),
            r.cpus == (match customizations {
                Some(c) => match c.cpus {
                    Some(v) => v,
                    None => self.base_config.cpus,
                },
                None => self.base_config.cpus,
            }),
            r.memory_mb == (match customizations {
                Some(c) => match c.memory_mb {
                    Some(v) => v,
                    None => self.base_config.memory_mb,
                },
                None => self.base_config.memory_mb,
            }),
            r.disk_gb == (match customizations {
                Some(c) => match c.disk_gb {
                    Some(v) => v,
                    None => self.base_config.disk_gb,
                },
                None => self.base_config.disk_gb,
            }),
            r.network.port_mappings@ == self.base_config.network.port_mappings@ + (
            match customizations {
                Some(c) => match c.additional_ports {
                    Some(ps) => ps@.map_values(|p: u16| same_port_tcp(p)),
                    None => Seq::empty(),
                },
                None => Seq::empty(),
            }),
    {
        let mut config = copy_config(&self.base_config);
        match customizations {
            Some(custom) => {
                match custom.cpus {
                    Some(c) => { config.cpus = c; },
                    None => {},
                }
                match custom.memory_mb {
                    Some(m) => { config.memory_mb = m; },
                    None => {},
                }
                match custom.disk_gb {
                    Some(d) => { config.disk_gb = d; },
                    None => {},
                }
                match custom.additional_ports {
                    Some(ports) => {
                        let ghost start = config.network.port_mappings@;
                        let mut i: usize = 0;
                        while i < ports.len()
                            invariant
                                i <= ports@.len(),
                                config.network.port_mappings@ == start + ports@.subrange(0, i as int).map_values(|p: u16| same_port_tcp(p)),
                                same_config_except_resources(config, self.base_config),
                                start == self.base_config.network.port_mappings@,
                                config.cpus == (match custom.cpus { Some(v) => v, None => self.base_config.cpus }),
                                config.memory_mb == (match custom.memory_mb { Some(v) => v, None => self.base_config.memory_mb }),
                                config.disk_gb == (match custom.disk_gb { Some(v) => v, None => self.base_config.disk_gb }),
                            decreases ports@.len() - i,
                        {
                            let p = ports[i];
                            config.network.port_mappings.push(
                                PortMapping { host_port: p, guest_port: p, protocol: Protocol::Tcp },
                            );
                            proof {
                                assert(ports@.subrange(0, i + 1).map_values(|p: u16| same_port_tcp(p))
                                    =~= ports@.subrange(0, i as int).map_values(|p: u16| same_port_tcp(p)).push(same_port_tcp(p)));
                            }
                            i += 1;
                        }
                        proof {
                            assert(ports@.subrange(0, ports@.len() as int) =~= ports@);
                        }
                    },
                    None => {
                        proof {
                            assert(config.network.port_mappings@ =~= self.base_config.network.port_mappings@ + Seq::<PortMapping>::empty());
                        }
                    },
                }
            },
            None => {
                proof {
                    assert(config.network.port_mappings@ =~= self.base_config.network.port_mappings@ + Seq::<PortMapping>::empty());
                }
            },
        }
        config
    }

    /// The setup script: its lines joined by newlines.
    pub fn get_setup_script(&self) -> (r: String)
        ensures
            r@ == joined_lines(texts(self.setup_scripts@)),
    {
        proof { reveal_strlit("\n"); }
        let mut out = String::new();
        let mut i: usize = 0;
        while i < self.setup_scripts.len()
            invariant
                i <= self.setup_scripts@.len(),
                out@ == joined_lines(texts(self.setup_scripts@.subrange(0, i as int))),
            decreases self.setup_scripts@.len() - i,
        {
            proof {
                assert(texts(self.setup_scripts@.subrange(0, i + 1)).drop_last() =~= texts(
                    self.setup_scripts@.subrange(0, i as int),
                ));
            }
            if i > 0 {
                out.append("\n");
            }
            out.append(self.setup_scripts[i].as_str());
            i += 1;
        }
        proof {
            assert(self.setup_scripts@.subrange(0, self.setup_scripts@.len() as int) =~= self.setup_scripts@);
        }
        out
    }

    /// The shell command that runs an MCP server of this template over
    /// `transport`, from /opt/mcp. The command is prefixed with the
    /// runtime's launcher unless it already names one; the SSE transport
    /// gets a port unless the command has one. An unsupported transport is
    /// a configuration error.
    pub fn get_run_command(&self, mcp_command: &str, transport: &str) -> (r: Result<String>)
        ensures
            r is Ok <==> texts(self.mcp_support.supported_transports@).contains(transport@),
            r matches Ok(c) ==> c@ == run_command(self.runtime, self.mcp_support.default_port, mcp_command@, transport@),
            r matches Err(e) ==> e is ConfigError,
    {
        proof {
            reveal_strlit("Transport '");
            reveal_strlit("' not supported by template '");
            reveal_strlit("'");
        }
        let mut supported = false;
        let mut i: usize = 0;
        let ghost ts = self.mcp_support.supported_transports@;
        while i < self.mcp_support.supported_transports.len()
            invariant
                ts == self.mcp_support.supported_transports@,
                i <= ts.len(),
                supported <==> exists|k: int| 0 <= k < i && (#[trigger] ts[k])@ == transport@,
            decreases ts.len() - i,
        {
            if str_eq(self.mcp_support.supported_transports[i].as_str(), transport) {
                supported = true;
            }
            i += 1;
        }
        proof {
            if supported {
                let k = choose|k: int| 0 <= k < i && (#[trigger] ts[k])@ == transport@;
                assert(texts(ts)[k] == transport@);
            } else {
                assert forall|k: int| 0 <= k < texts(ts).len() implies texts(ts)[k] != transport@ by {
                    assert(texts(ts)[k] == ts[k]@);
                }
            }
        }
        if !supported {
            return Err(
                AivaError::ConfigError(
                    String::from_str("Transport '").concat(transport).concat(
                        "' not supported by template '",
                    ).concat(self.name.as_str()).concat("'"),
                ),
            );
        }
        let base = base_command(&self.runtime, mcp_command);
        Ok(full_command(base, self.mcp_support.default_port, mcp_command, transport))
    }
}

/// Lines joined by newlines.
pub open spec fn joined_lines(lines: Seq<Seq<char>>) -> Seq<char>
    decreases lines.len(),
{
    if lines.len() == 0 {
        Seq::empty()
    } else if lines.len() == 1 {
        lines[0]
    } else {
        joined_lines(lines.drop_last()) + "\n"@ + lines.last()
    }
}

/// The launcher-prefixed form of an MCP command for a runtime.
pub open spec fn base_command_of(rt: RuntimeType, cmd: Seq<char>) -> Seq<char> {
    match rt {
        RuntimeType::Python3 { .. } => if starts_with_seq(cmd, "python"@) || starts_with_seq(cmd, "uv"@) {
            cmd
        } else {
            "uv run "@ + cmd
        },
        RuntimeType::NodeJS { .. } => if starts_with_seq(cmd, "node"@) || starts_with_seq(cmd, "npm"@)
            || starts_with_seq(cmd, "npx"@) {
            cmd
        } else {
            "npx "@ + cmd
        },
        RuntimeType::Custom { .. } => cmd,
    }
}

/// The command already names a transport mode.
pub open spec fn names_mode(cmd: Seq<char>) -> bool {
    contains_seq(cmd, " sse"@) || contains_seq(cmd, " stdio"@)
}

/// The full command line for a transport.
pub open spec fn run_command(rt: RuntimeType, default_port: Option<u16>, cmd: Seq<char>, transport: Seq<char>) -> Seq<char> {
    run_tail(base_command_of(rt, cmd), default_port, cmd, transport)
}

fn base_command(rt: &RuntimeType, cmd: &str) -> (r: String)
    ensures
        r@ == base_command_of(*rt, cmd@),
{
    proof {
        reveal_strlit("python");
        reveal_strlit("uv");
        reveal_strlit("uv run ");
        reveal_strlit("node");
        reveal_strlit("npm");
        reveal_strlit("npx");
        reveal_strlit("npx ");
    }
    match rt {
        RuntimeType::Python3 { .. } => {
            if str_starts_with(cmd, "python") || str_starts_with(cmd, "uv") {
                String::from_str(cmd)
            } else {
                String::from_str("uv run ").concat(cmd)
            }
        },
        RuntimeType::NodeJS { .. } => {
            if str_starts_with(cmd, "node") || str_starts_with(cmd, "npm") || str_starts_with(cmd, "npx") {
                String::from_str(cmd)
            } else {
                String::from_str("npx ").concat(cmd)
            }
        },
        RuntimeType::Custom { .. } => String::from_str(cmd),
    }
}

fn full_command(base: String, default_port: Option<u16>, cmd: &str, transport: &str) -> (r: String)
    ensures
        r@ == run_tail(base@, default_port, cmd@, transport@),
{
    proof {
        reveal_strlit("cd /opt/mcp && ");
        reveal_strlit("--port");
        reveal_strlit(" sse");
        reveal_strlit(" stdio");
        reveal_strlit(" --port ");
        reveal_strlit(" ");
        reveal_strlit("sse");
        reveal_strlit("stdio");
    }
    let port: u16 = match default_port {
        Some(p) => p,
        None => 3000,
    };
    let head = String::from_str("cd /opt/mcp && ").concat(base.as_str());
    let mode = str_contains(cmd, " sse") || str_contains(cmd, " stdio");
    if str_eq(transport, "sse") {
        if str_contains(base.as_str(), "--port") {
            head
        } else if mode {
            head.concat(" --port ").concat(decimal_string(port as u64).as_str())
        } else {
            head.concat(" ").concat(transport).concat(" --port ").concat(decimal_string(port as u64).as_str())
        }
    } else if str_eq(transport, "stdio") {
        if mode {
            head
        } else {
            head.concat(" ").concat(transport)
        }
    } else {
        head
    }
}

/// The command line built around an already-prefixed base command: run
/// from /opt/mcp, with the transport's additions.
pub open spec fn run_tail(base: Seq<char>, default_port: Option<u16>, cmd: Seq<char>, transport: Seq<char>) -> Seq<char> {
    "cd /opt/mcp && "@ + base + transport_suffix(base, default_port, cmd, transport)
}

/// What a transport adds to the command: SSE names itself (unless the
/// command already names a mode) and a port (the template's, else 3000)
/// unless the command has one; stdio names itself unless a mode is named;
/// any other transport adds nothing.
pub open spec fn transport_suffix(base: Seq<char>, default_port: Option<u16>, cmd: Seq<char>, transport: Seq<char>) -> Seq<char> {
    let port = decimal((match default_port {
        Some(p) => p,
        None => 3000u16,
    }) as nat);
    let mode = if names_mode(cmd) { Seq::empty() } else { " "@ + transport };
    if transport == "sse"@ {
        if contains_seq(base, "--port"@) { Seq::empty() } else { mode + " --port "@ + port }
    } else if transport == "stdio"@ {
        mode
    } else {
        Seq::empty()
    }
}

/// The configuration fields that overrides never touch are the same.
pub open spec fn same_config_except_resources(a: VMConfig, b: VMConfig) -> bool {
    &&& a.kernel_path == b.kernel_path
    &&& a.rootfs_path == b.rootfs_path
    &&& a.network.guest_ip == b.network.guest_ip
    &&& a.network.host_ip == b.network.host_ip
    &&& a.network.subnet == b.network.subnet
    &&& a.network.gateway == b.network.gateway
    &&& a.network.dns_servers@ == b.network.dns_servers@
    &&& a.network.dhcp_enabled == b.network.dhcp_enabled
    &&& a.storage.cache_strategy == b.storage.cache_strategy
    &&& a.storage.additional_drives@ == b.storage.additional_drives@
}

fn copy_drive(d: &BlockDevice) -> (r: BlockDevice)
    ensures
        r == *d,
{
    BlockDevice { path: d.path.clone(), size_mb: d.size_mb, read_only: d.read_only }
}

fn copy_strings(v: &Vec<String>) -> (r: Vec<String>)
    ensures
        r@ == v@,
{
    let mut out: Vec<String> = Vec::new();
    let mut i: usize = 0;
    while i < v.len()
        invariant
            i <= v@.len(),
            out@ == v@.subrange(0, i as int),
        decreases v@.len() - i,
    {
        out.push(v[i].clone());
        proof {
            assert(out@ =~= v@.subrange(0, i + 1));
        }
        i += 1;
    }
    proof {
        assert(out@ =~= v@);
    }
    out
}

/// A field-by-field copy of a configuration.
pub fn copy_config(c: &VMConfig) -> (r: VMConfig)
    ensures
        same_config_except_resources(r, *c),
        r.cpus == c.cpus,
        r.memory_mb == c.memory_mb,
        r.disk_gb == c.disk_gb,
        r.network.port_mappings@ == c.network.port_mappings@,
{
    let mut ports: Vec<PortMapping> = Vec::new();
    let mut i: usize = 0;
    while i < c.network.port_mappings.len()
        invariant
            i <= c.network.port_mappings@.len(),
            ports@ == c.network.port_mappings@.subrange(0, i as int),
        decreases c.network.port_mappings@.len() - i,
    {
        ports.push(c.network.port_mappings[i]);
        proof {
            assert(ports@ =~= c.network.port_mappings@.subrange(0, i + 1));
        }
        i += 1;
    }
    let mut drives: Vec<BlockDevice> = Vec::new();
    let mut j: usize = 0;
    while j < c.storage.additional_drives.len()
        invariant
            j <= c.storage.additional_drives@.len(),
            drives@ == c.storage.additional_drives@.subrange(0, j as int),
        decreases c.storage.additional_drives@.len() - j,
    {
        drives.push(copy_drive(&c.storage.additional_drives[j]));
        proof {
            assert(drives@ =~= c.storage.additional_drives@.subrange(0, j + 1));
        }
        j += 1;
    }
    proof {
        assert(ports@ =~= c.network.port_mappings@);
        assert(drives@ =~= c.storage.additional_drives@);
    }
    VMConfig {
        cpus: c.cpus,
        memory_mb: c.memory_mb,
        disk_gb: c.disk_gb,
        kernel_path: c.kernel_path.clone(),
        rootfs_path: c.rootfs_path.clone(),
        network: NetworkConfig {
            guest_ip: c.network.guest_ip.clone(),
            host_ip: c.network.host_ip.clone(),
            subnet: c.network.subnet.clone(),
            gateway: c.network.gateway.clone(),
            dns_servers: copy_strings(&c.network.dns_servers),
            dhcp_enabled: c.network.dhcp_enabled,
            port_mappings: ports,
        },
        storage: StorageConfig { cache_strategy: c.storage.cache_strategy, additional_drives: drives },
    }
}

impl TemplateManager {
    /// Every built-in template.
    pub fn list_templates() -> (r: Vec<VMTemplate>)
        ensures
            r@.len() == 2,
            is_python_template(r@[0]),
            is_node_template(r@[1]),
    {
        VMTemplate::get_all_templates()
    }

    /// The template a name or alias selects.
    pub fn get_template(name: &str) -> (r: Result<VMTemplate>)
        ensures
            is_python_alias(name@) ==> (r matches Ok(t) && is_python_template(t)),
            is_node_alias(name@) ==> (r matches Ok(t) && is_node_template(t)),
            !is_python_alias(name@) && !is_node_alias(name@) ==> r matches Err(AivaError::ConfigError(_)),
    {
        VMTemplate::get_template_by_name(name)
    }

    /// Whether a name or alias selects a built-in template.
    pub fn validate_template_name(name: &str) -> (r: bool)
        ensures
            r == (is_python_alias(name@) || is_node_alias(name@)),
    {
        proof {
            reveal_strlit("python3-uv");
            reveal_strlit("python3");
            reveal_strlit("python");
            reveal_strlit("nodejs22-npx");
            reveal_strlit("nodejs22");
            reveal_strlit("nodejs");
            reveal_strlit("node");
        }
        str_eq(name, "python3-uv") || str_eq(name, "python3") || str_eq(name, "python") || str_eq(
            name,
            "nodejs22-npx",
        ) || str_eq(name, "nodejs22") || str_eq(name, "nodejs") || str_eq(name, "node")
    }
}

} // verus!
