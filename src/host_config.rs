//! Conversion of a template's declarative configuration into what the
//! engine takes when it creates a container: port bindings, bind mounts,
//! environment entries and resource limits.
use vstd::prelude::*;

use crate::error::OrchestratorError;
use crate::model::{ContainerTemplate, EnvVar, ResourceLimits, TemplateView, PortMapping, PortView, VolumeMapping, VolumeView};
use crate::text::{decimal, decimal_string};

verus! {

/// Bytes in one mebibyte.
pub const BYTES_PER_MB: u64 = 1048576;

/// The host address every published port listens on.
pub open spec fn any_host_address() -> Seq<char> {
    seq!['0', '.', '0', '.', '0', '.', '0']
}

/// The engine's key for a container port: `containerPort/protocol`.
pub open spec fn port_key(p: PortView) -> Seq<char> {
    decimal(p.container_port as nat) + seq!['/'] + p.protocol
}

/// The bind-mount spec of a volume: `hostPath:containerPath`, with `:ro`
/// appended exactly when the volume is read-only.
pub open spec fn bind_spec(v: VolumeView) -> Seq<char> {
    let base = v.host_path + seq![':'] + v.container_path;
    if v.read_only {
        base + seq![':', 'r', 'o']
    } else {
        base
    }
}

/// An environment entry: `KEY=VALUE`.
pub open spec fn env_entry(e: (Seq<char>, Seq<char>)) -> Seq<char> {
    e.0 + seq!['='] + e.1
}

/// A size in mebibytes as a byte count, if the engine's signed 64-bit field
/// can hold it; an absent size stays absent.
pub open spec fn mb_to_engine(mb: Option<u64>) -> Option<Option<i64>> {
    match mb {
        None => Some(None),
        Some(m) => if m * 1048576 <= i64::MAX {
            Some(Some((m * 1048576) as i64))
        } else {
            None
        },
    }
}

/// CPU shares passed through unchanged, if the engine's signed 64-bit field
/// can hold them; absent shares stay absent.
pub open spec fn shares_to_engine(shares: Option<u64>) -> Option<Option<i64>> {
    match shares {
        None => Some(None),
        Some(s) => if s <= i64::MAX {
            Some(Some(s as i64))
        } else {
            None
        },
    }
}

/// Every resource limit of `limits` fits the engine's fields.
pub open spec fn limits_fit(limits: ResourceLimits) -> bool {
    &&& mb_to_engine(limits.memory_mb) is Some
    &&& shares_to_engine(limits.cpu_shares) is Some
    &&& mb_to_engine(limits.swap_mb) is Some
}

/// `req` is the create request for a container named `name` made from
/// `image` after `template`: its environment entries, bind mounts and port
/// bindings follow the template's variables, volumes and ports one for one
/// and in order, and its limits are the template's, converted.
pub open spec fn request_for(
    req: ContainerCreateRequest,
    template: TemplateView,
    name: Seq<char>,
    image: Seq<char>,
) -> bool {
    let limits = template.resource_limits;
    &&& req.name@ == name
    &&& req.image@ == image
    &&& req.host_config.memory == mb_to_engine(limits.memory_mb)->Some_0
    &&& req.host_config.cpu_shares == shares_to_engine(limits.cpu_shares)->Some_0
    &&& req.host_config.memory_swap == mb_to_engine(limits.swap_mb)->Some_0
    &&& req.env@.len() == template.environment_vars.len()
    &&& forall|i: int|
        0 <= i < template.environment_vars.len() ==> (#[trigger] req.env@[i])@ == env_entry(
            template.environment_vars[i],
        )
    &&& req.host_config.binds@.len() == template.volumes.len()
    &&& forall|i: int|
        0 <= i < template.volumes.len() ==> (#[trigger] req.host_config.binds@[i])@ == bind_spec(
            template.volumes[i],
        )
    &&& req.host_config.port_bindings@.len() == template.ports.len()
    &&& forall|i: int|
        0 <= i < template.ports.len() ==> {
            &&& (#[trigger] req.host_config.port_bindings@[i]).container_port@ == port_key(
                template.ports[i],
            )
            &&& req.host_config.port_bindings@[i].host_ip@ == any_host_address()
            &&& req.host_config.port_bindings@[i].host_port@ == decimal(
                template.ports[i].host_port as nat,
            )
        }
}

/// One port of the container bound to a host address and port.
pub struct PortBinding {
    /// `containerPort/protocol`.
    pub container_port: String,
    pub host_ip: String,
    pub host_port: String,
}

/// The engine-level host configuration of a container.
pub struct HostConfig {
    pub port_bindings: Vec<PortBinding>,
    pub binds: Vec<String>,
    /// Memory limit in bytes.
    pub memory: Option<i64>,
    pub cpu_shares: Option<i64>,
    /// Swap limit in bytes.
    pub memory_swap: Option<i64>,
}

/// Everything the engine's create call is given.
pub struct ContainerCreateRequest {
    pub name: String,
    pub image: String,
    /// `KEY=VALUE` entries, in the template's order.
    pub env: Vec<String>,
    pub host_config: HostConfig,
}

/// Converts a size in mebibytes to bytes for the engine.
pub fn memory_bytes(mb: Option<u64>) -> (r: Option<Option<i64>>)
    ensures
        r == mb_to_engine(mb),
{
    match mb {
        None => Some(None),
        Some(m) => {
            if m <= 8796093022207 {
                assert(m * 1048576 <= i64::MAX) by (nonlinear_arith)
                    requires m <= 8796093022207;
                let bytes: u64 = m * BYTES_PER_MB;
                Some(Some(bytes as i64))
            } else {
                assert(m * 1048576 > i64::MAX) by (nonlinear_arith)
                    requires m > 8796093022207;
                None
            }
        },
    }
}

/// Passes CPU shares through for the engine.
pub fn engine_cpu_shares(shares: Option<u64>) -> (r: Option<Option<i64>>)
    ensures
        r == shares_to_engine(shares),
{
    match shares {
        None => Some(None),
        Some(s) => if s <= i64::MAX as u64 {
            Some(Some(s as i64))
        } else {
            None
        },
    }
}

/// The binding of one port mapping: its key, and `0.0.0.0` with the host
/// port.
pub fn port_binding(p: &PortMapping) -> (r: PortBinding)
    ensures
        r.container_port@ == port_key(p@),
        r.host_ip@ == any_host_address(),
        r.host_port@ == decimal(p.host_port as nat),
{
    let mut key = decimal_string(p.container_port as u64);
    proof {
        reveal_strlit("/");
        reveal_strlit("0.0.0.0");
    }
    key.append("/");
    key.append(p.protocol.as_str());
    PortBinding {
        container_port: key,
        host_ip: String::from_str("0.0.0.0"),
        host_port: decimal_string(p.host_port as u64),
    }
}

/// The bind-mount spec of one volume mapping.
pub fn volume_bind(v: &VolumeMapping) -> (r: String)
    ensures
        r@ == bind_spec(v@),
{
    proof {
        reveal_strlit(":");
        reveal_strlit(":ro");
    }
    let mut s = v.host_path.clone();
    s.append(":");
    s.append(v.container_path.as_str());
    if v.read_only {
        s.append(":ro");
    }
    s
}

/// The `KEY=VALUE` entry of one environment variable.
pub fn env_string(e: &EnvVar) -> (r: String)
    ensures
        r@ == env_entry(e@),
{
    proof {
        reveal_strlit("=");
    }
    let mut s = e.name.clone();
    s.append("=");
    s.append(e.value.as_str());
    s
}

/// The port bindings of all of a template's port mappings, in order.
pub fn port_bindings(ports: &Vec<PortMapping>) -> (r: Vec<PortBinding>)
    ensures
        r@.len() == ports@.len(),
        forall|i: int|
            0 <= i < ports@.len() ==> {
                &&& (#[trigger] r@[i]).container_port@ == port_key(ports@[i]@)
                &&& r@[i].host_ip@ == any_host_address()
                &&& r@[i].host_port@ == decimal(ports@[i].host_port as nat)
            },
{
    let mut r: Vec<PortBinding> = Vec::new();
    let mut i: usize = 0;
    while i < ports.len()
        invariant
            i <= ports@.len(),
            r@.len() == i,
            forall|j: int|
                0 <= j < i ==> {
                    &&& (#[trigger] r@[j]).container_port@ == port_key(ports@[j]@)
                    &&& r@[j].host_ip@ == any_host_address()
                    &&& r@[j].host_port@ == decimal(ports@[j].host_port as nat)
                },
        decreases ports@.len() - i,
    {
        r.push(port_binding(&ports[i]));
        i = i + 1;
    }
    r
}

/// The bind-mount specs of all of a template's volumes, in order.
pub fn volume_binds(volumes: &Vec<VolumeMapping>) -> (r: Vec<String>)
    ensures
        r@.len() == volumes@.len(),
        forall|i: int| 0 <= i < volumes@.len() ==> (#[trigger] r@[i])@ == bind_spec(volumes@[i]@),
{
    let mut r: Vec<String> = Vec::new();
    let mut i: usize = 0;
    while i < volumes.len()
        invariant
            i <= volumes@.len(),
            r@.len() == i,
            forall|j: int| 0 <= j < i ==> (#[trigger] r@[j])@ == bind_spec(volumes@[j]@),
        decreases volumes@.len() - i,
    {
        r.push(volume_bind(&volumes[i]));
        i = i + 1;
    }
    r
}

/// The environment entries of all of a template's variables, in order.
pub fn env_strings(vars: &Vec<EnvVar>) -> (r: Vec<String>)
    ensures
        r@.len() == vars@.len(),
        forall|i: int| 0 <= i < vars@.len() ==> (#[trigger] r@[i])@ == env_entry(vars@[i]@),
{
    let mut r: Vec<String> = Vec::new();
    let mut i: usize = 0;
    while i < vars.len()
        invariant
            i <= vars@.len(),
            r@.len() == i,
            forall|j: int| 0 <= j < i ==> (#[trigger] r@[j])@ == env_entry(vars@[j]@),
        decreases vars@.len() - i,
    {
        r.push(env_string(&vars[i]));
        i = i + 1;
    }
    r
}

/// What the engine is asked to create for a deployment of `template` named
/// `name` from `image`. Fails when a resource limit does not fit the
/// engine's fields.
pub fn create_request(template: &ContainerTemplate, name: &str, image: &str) -> (r: Result<
    ContainerCreateRequest,
    OrchestratorError,
>)
    ensures
        limits_fit(template@.resource_limits) ==> (r matches Ok(req) && request_for(
            req,
            template@,
            name@,
            image@,
        )),
        !limits_fit(template@.resource_limits) ==> r matches Err(
            OrchestratorError::ContainerCreateFailure(_),
        ),
{
    let memory = memory_bytes(template.resource_limits.memory_mb);
    let shares = engine_cpu_shares(template.resource_limits.cpu_shares);
    let swap = memory_bytes(template.resource_limits.swap_mb);
    match (memory, shares, swap) {
        (Some(memory), Some(cpu_shares), Some(memory_swap)) => {
            let host_config = HostConfig {
                port_bindings: port_bindings(&template.ports),
                binds: volume_binds(&template.volumes),
                memory,
                cpu_shares,
                memory_swap,
            };
            Ok(ContainerCreateRequest {
                name: String::from_str(name),
                image: String::from_str(image),
                env: env_strings(&template.environment_vars),
                host_config,
            })
        },
        _ => Err(
            OrchestratorError::ContainerCreateFailure(
                String::from_str("a resource limit is too large for the engine"),
            ),
        ),
    }
}

/// A read-only volume's bind spec ends in `:ro`; a writable one's is
/// `hostPath:containerPath` with nothing after it.
pub proof fn lemma_read_only_suffix(v: VolumeView)
    ensures
        v.read_only ==> bind_spec(v).len() >= 3 && bind_spec(v).subrange(
            bind_spec(v).len() - 3,
            bind_spec(v).len() as int,
        ) == seq![':', 'r', 'o'],
        !v.read_only ==> bind_spec(v) == v.host_path + seq![':'] + v.container_path,
{
    let base = v.host_path + seq![':'] + v.container_path;
    if v.read_only {
        assert(bind_spec(v).subrange(base.len() as int, bind_spec(v).len() as int) =~= seq![
            ':',
            'r',
            'o',
        ]);
    }
}

} // verus!
