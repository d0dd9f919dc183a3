//! The data that templates, deployments and engine replies are made of, with
//! a mathematical view of each type and copies that keep the view.
use vstd::prelude::*;

verus! {

/// A port of the container published on a port of the host.
pub struct PortMapping {
    pub host_port: u16,
    pub container_port: u16,
    /// `tcp` or `udp`.
    pub protocol: String,
}

pub ghost struct PortView {
    pub host_port: u16,
    pub container_port: u16,
    pub protocol: Seq<char>,
}

impl View for PortMapping {
    type V = PortView;

    open spec fn view(&self) -> PortView {
        PortView {
            host_port: self.host_port,
            container_port: self.container_port,
            protocol: self.protocol@,
        }
    }
}

impl PortMapping {
    pub fn copy(&self) -> (r: PortMapping)
        ensures
            r@ == self@,
    {
        PortMapping {
            host_port: self.host_port,
            container_port: self.container_port,
            protocol: self.protocol.clone(),
        }
    }
}

/// A directory of the host bound into the container.
pub struct VolumeMapping {
    pub host_path: String,
    pub container_path: String,
    pub read_only: bool,
}

pub ghost struct VolumeView {
    pub host_path: Seq<char>,
    pub container_path: Seq<char>,
    pub read_only: bool,
}

impl View for VolumeMapping {
    type V = VolumeView;

    open spec fn view(&self) -> VolumeView {
        VolumeView {
            host_path: self.host_path@,
            container_path: self.container_path@,
            read_only: self.read_only,
        }
    }
}

impl VolumeMapping {
    pub fn copy(&self) -> (r: VolumeMapping)
        ensures
            r@ == self@,
    {
        VolumeMapping {
            host_path: self.host_path.clone(),
            container_path: self.container_path.clone(),
            read_only: self.read_only,
        }
    }
}

/// Optional limits on a container's resources. An absent limit leaves the
/// engine's default in place; it never means zero.
#[derive(Clone, Copy, Debug, PartialEq, Eq, Structural)]
pub struct ResourceLimits {
    pub memory_mb: Option<u64>,
    pub cpu_shares: Option<u64>,
    pub swap_mb: Option<u64>,
}

/// A variable of the container's environment.
pub struct EnvVar {
    pub name: String,
    pub value: String,
}

impl View for EnvVar {
    type V = (Seq<char>, Seq<char>);

    open spec fn view(&self) -> (Seq<char>, Seq<char>) {
        (self.name@, self.value@)
    }
}

impl EnvVar {
    pub fn copy(&self) -> (r: EnvVar)
        ensures
            r@ == self@,
    {
        EnvVar { name: self.name.clone(), value: self.value.clone() }
    }
}

/// A build recipe with the network, volume, environment and resource
/// configuration of the containers made from it.
pub struct ContainerTemplate {
    pub id: String,
    pub name: String,
    pub description: String,
    pub dockerfile: String,
    pub docker_compose: Option<String>,
    pub environment_vars: Vec<EnvVar>,
    pub ports: Vec<PortMapping>,
    pub volumes: Vec<VolumeMapping>,
    pub tools: Vec<String>,
    pub resource_limits: ResourceLimits,
}

pub ghost struct TemplateView {
    pub id: Seq<char>,
    pub name: Seq<char>,
    pub description: Seq<char>,
    pub dockerfile: Seq<char>,
    pub docker_compose: Option<Seq<char>>,
    pub environment_vars: Seq<(Seq<char>, Seq<char>)>,
    pub ports: Seq<PortView>,
    pub volumes: Seq<VolumeView>,
    pub tools: Seq<Seq<char>>,
    pub resource_limits: ResourceLimits,
}

pub open spec fn option_string_view(o: Option<String>) -> Option<Seq<char>> {
    match o {
        Some(s) => Some(s@),
        None => None,
    }
}

pub open spec fn strings_view(v: Seq<String>) -> Seq<Seq<char>> {
    v.map_values(|s: String| s@)
}

impl View for ContainerTemplate {
    type V = TemplateView;

    open spec fn view(&self) -> TemplateView {
        TemplateView {
            id: self.id@,
            name: self.name@,
            description: self.description@,
            dockerfile: self.dockerfile@,
            docker_compose: option_string_view(self.docker_compose),
            environment_vars: self.environment_vars@.map_values(|e: EnvVar| e@),
            ports: self.ports@.map_values(|p: PortMapping| p@),
            volumes: self.volumes@.map_values(|v: VolumeMapping| v@),
            tools: strings_view(self.tools@),
            resource_limits: self.resource_limits,
        }
    }
}

pub fn copy_option_string(o: &Option<String>) -> (r: Option<String>)
    ensures
        option_string_view(r) == option_string_view(*o),
{
    match o {
        Some(s) => Some(s.clone()),
        None => None,
    }
}

pub fn copy_strings(v: &Vec<String>) -> (r: Vec<String>)
    ensures
        strings_view(r@) == strings_view(v@),
{
    let mut r: Vec<String> = Vec::new();
    let mut i: usize = 0;
    while i < v.len()
        invariant
            i <= v.len(),
            r@.len() == i,
            forall|j: int| 0 <= j < i ==> #[trigger] r@[j]@ == v@[j]@,
        decreases v.len() - i,
    {
        r.push(v[i].clone());
        i = i + 1;
    }
    proof {
        assert(strings_view(r@) =~= strings_view(v@));
    }
    r
}

fn copy_env(v: &Vec<EnvVar>) -> (r: Vec<EnvVar>)
    ensures
        r@.map_values(|e: EnvVar| e@) == v@.map_values(|e: EnvVar| e@),
{
    let mut r: Vec<EnvVar> = Vec::new();
    let mut i: usize = 0;
    while i < v.len()
        invariant
            i <= v.len(),
            r@.len() == i,
            forall|j: int| 0 <= j < i ==> #[trigger] r@[j]@ == v@[j]@,
        decreases v.len() - i,
    {
        r.push(v[i].copy());
        i = i + 1;
    }
    proof {
        assert(r@.map_values(|e: EnvVar| e@) =~= v@.map_values(|e: EnvVar| e@));
    }
    r
}

fn copy_ports(v: &Vec<PortMapping>) -> (r: Vec<PortMapping>)
    ensures
        r@.map_values(|p: PortMapping| p@) == v@.map_values(|p: PortMapping| p@),
{
    let mut r: Vec<PortMapping> = Vec::new();
    let mut i: usize = 0;
    while i < v.len()
        invariant
            i <= v.len(),
            r@.len() == i,
            forall|j: int| 0 <= j < i ==> #[trigger] r@[j]@ == v@[j]@,
        decreases v.len() - i,
    {
        r.push(v[i].copy());
        i = i + 1;
    }
    proof {
        assert(r@.map_values(|p: PortMapping| p@) =~= v@.map_values(|p: PortMapping| p@));
    }
    r
}

fn copy_volumes(v: &Vec<VolumeMapping>) -> (r: Vec<VolumeMapping>)
    ensures
        r@.map_values(|m: VolumeMapping| m@) == v@.map_values(|m: VolumeMapping| m@),
{
    let mut r: Vec<VolumeMapping> = Vec::new();
    let mut i: usize = 0;
    while i < v.len()
        invariant
            i <= v.len(),
            r@.len() == i,
            forall|j: int| 0 <= j < i ==> #[trigger] r@[j]@ == v@[j]@,
        decreases v.len() - i,
    {
        r.push(v[i].copy());
        i = i + 1;
    }
    proof {
        assert(r@.map_values(|m: VolumeMapping| m@) =~= v@.map_values(|m: VolumeMapping| m@));
    }
    r
}

impl ContainerTemplate {
    /// A copy that owns its own data.
    pub fn copy(&self) -> (r: ContainerTemplate)
        ensures
            r@ == self@,
    {
        ContainerTemplate {
            id: self.id.clone(),
            name: self.name.clone(),
            description: self.description.clone(),
            dockerfile: self.dockerfile.clone(),
            docker_compose: copy_option_string(&self.docker_compose),
            environment_vars: copy_env(&self.environment_vars),
            ports: copy_ports(&self.ports),
            volumes: copy_volumes(&self.volumes),
            tools: copy_strings(&self.tools),
            resource_limits: self.resource_limits,
        }
    }
}

/// What is known of a container: as the engine described it after start, or
/// as it lists it.
pub struct ContainerInfo {
    pub id: String,
    pub name: String,
    pub image: String,
    pub status: String,
    pub state: String,
    pub created: String,
    /// Resolved `host:port` strings.
    pub ports: Vec<String>,
}

pub ghost struct ContainerInfoView {
    pub id: Seq<char>,
    pub name: Seq<char>,
    pub image: Seq<char>,
    pub status: Seq<char>,
    pub state: Seq<char>,
    pub created: Seq<char>,
    pub ports: Seq<Seq<char>>,
}

impl View for ContainerInfo {
    type V = ContainerInfoView;

    open spec fn view(&self) -> ContainerInfoView {
        ContainerInfoView {
            id: self.id@,
            name: self.name@,
            image: self.image@,
            status: self.status@,
            state: self.state@,
            created: self.created@,
            ports: strings_view(self.ports@),
        }
    }
}

impl ContainerInfo {
    /// A copy that owns its own data.
    pub fn copy(&self) -> (r: ContainerInfo)
        ensures
            r@ == self@,
    {
        ContainerInfo {
            id: self.id.clone(),
            name: self.name.clone(),
            image: self.image.clone(),
            status: self.status.clone(),
            state: self.state.clone(),
            created: self.created.clone(),
            ports: copy_strings(&self.ports),
        }
    }
}

/// The outcome of a deployment that went through.
pub struct DeploymentResult {
    pub success: bool,
    pub container_id: Option<String>,
    pub container_name: String,
    pub image_id: Option<String>,
    pub ports: Vec<String>,
    pub message: String,
    pub build_logs: Vec<String>,
    pub deployment_time_ms: u64,
}

} // verus!
