//! The templates every catalog starts with.
use vstd::prelude::*;

use crate::model::{
    ContainerTemplate, EnvVar, PortMapping, PortView, ResourceLimits, TemplateView, VolumeMapping,
    VolumeView,
};

verus! {

/// A TCP port published on the same or another host port.
pub open spec fn tcp(host_port: u16, container_port: u16) -> PortView {
    PortView { host_port, container_port, protocol: seq!['t', 'c', 'p'] }
}

/// A writable bind of a host directory.
pub open spec fn writable(host_path: Seq<char>, container_path: Seq<char>) -> VolumeView {
    VolumeView { host_path, container_path, read_only: false }
}

pub open spec fn limits(memory_mb: u64, cpu_shares: u64, swap_mb: u64) -> ResourceLimits {
    ResourceLimits {
        memory_mb: Some(memory_mb),
        cpu_shares: Some(cpu_shares),
        swap_mb: Some(swap_mb),
    }
}

fn tcp_port(host_port: u16, container_port: u16) -> (r: PortMapping)
    ensures
        r@ == tcp(host_port, container_port),
{
    proof {
        reveal_strlit("tcp");
        assert("tcp"@ =~= seq!['t', 'c', 'p']);
    }
    PortMapping { host_port, container_port, protocol: String::from_str("tcp") }
}

fn writable_volume(host_path: &str, container_path: &str) -> (r: VolumeMapping)
    ensures
        r@ == writable(host_path@, container_path@),
{
    VolumeMapping {
        host_path: String::from_str(host_path),
        container_path: String::from_str(container_path),
        read_only: false,
    }
}

fn env_var(name: &str, value: &str) -> (r: EnvVar)
    ensures
        r@ == (name@, value@),
{
    EnvVar { name: String::from_str(name), value: String::from_str(value) }
}

fn strings(items: &[&str]) -> (r: Vec<String>)
    ensures
        r@.len() == items@.len(),
        forall|i: int| 0 <= i < items@.len() ==> (#[trigger] r@[i])@ == items@[i]@,
{
    let mut r: Vec<String> = Vec::new();
    let mut i: usize = 0;
    while i < items.len()
        invariant
            i <= items@.len(),
            r@.len() == i,
            forall|j: int| 0 <= j < i ==> (#[trigger] r@[j])@ == items@[j]@,
        decreases items@.len() - i,
    {
        r.push(String::from_str(items[i]));
        i = i + 1;
    }
    r
}

/// The `cybersec-lab` template's id, name, environment, ports, volumes and
/// resource limits.
pub open spec fn is_cybersec_lab_template(t: TemplateView) -> bool {
    &&& t.id == "cybersec-lab"@
    &&& t.name == "Cybersecurity Lab Environment"@
    &&& t.environment_vars == seq![("WORKSPACE"@, "/workspace"@), ("DISPLAY"@, ":0"@)]
    &&& t.ports == seq![tcp(8080, 8080), tcp(4444, 4444), tcp(8000, 8000)]
    &&& t.volumes == seq![writable("./workspace"@, "/workspace"@)]
    &&& t.resource_limits == limits(4096, 2048, 2048)
}

/// The `cybersec-lab` template: complete cybersecurity testing environment with advanced tools.
pub fn cybersec_lab_template() -> (r: ContainerTemplate)
    ensures
        is_cybersec_lab_template(r@),
{
    let t = ContainerTemplate {
        id: String::from_str("cybersec-lab"),
        name: String::from_str("Cybersecurity Lab Environment"),
        description: String::from_str("Complete cybersecurity testing environment with advanced tools"),
        dockerfile: String::from_str(r#"FROM kalilinux/kali-rolling:latest

# Update and install base tools
RUN apt-get update && apt-get install -y \
    nmap masscan zmap \
    metasploit-framework \
    wireshark tshark tcpdump \
    john hashcat \
    hydra medusa \
    sqlmap \
    nikto dirb gobuster \
    burpsuite-community \
    python3 python3-pip \
    git curl wget vim nano \
    && rm -rf /var/lib/apt/lists/*

# Install Python security tools
RUN pip3 install \
    scapy pwntools \
    requests beautifulsoup4 \
    impacket \
    volatility3

# Create workspace
WORKDIR /workspace
RUN mkdir -p /workspace/{scans,exploits,reports,tools}

# Setup non-root user
RUN useradd -m -s /bin/bash cybersec && \
    echo "cybersec:cybersec" | chpasswd && \
    usermod -aG sudo cybersec

USER cybersec
EXPOSE 8080 4444 8000
CMD ["/bin/bash"]"#),
        docker_compose: None,
        environment_vars: vec![env_var("WORKSPACE", "/workspace"), env_var("DISPLAY", ":0")],
        ports: vec![tcp_port(8080, 8080), tcp_port(4444, 4444), tcp_port(8000, 8000)],
        volumes: vec![writable_volume("./workspace", "/workspace")],
        tools: strings(&["nmap", "metasploit", "wireshark", "john", "hashcat", "burpsuite"]),
        resource_limits: ResourceLimits {
            memory_mb: Some(4096),
            cpu_shares: Some(2048),
            swap_mb: Some(2048),
        },
    };
    proof {
        assert(t@.environment_vars =~= seq![("WORKSPACE"@, "/workspace"@), ("DISPLAY"@, ":0"@)]);
        assert(t@.ports =~= seq![tcp(8080, 8080), tcp(4444, 4444), tcp(8000, 8000)]);
        assert(t@.volumes =~= seq![writable("./workspace"@, "/workspace"@)]);
    }
    t
}

/// The `dev-environment` template's id, name, environment, ports, volumes and
/// resource limits.
pub open spec fn is_dev_environment_template(t: TemplateView) -> bool {
    &&& t.id == "dev-environment"@
    &&& t.name == "Full-Stack Development Environment"@
    &&& t.environment_vars == seq![("NODE_ENV"@, "development"@), ("PYTHONPATH"@, "/workspace"@)]
    &&& t.ports == seq![tcp(3000, 3000), tcp(8000, 8000), tcp(5000, 5000), tcp(8080, 8080)]
    &&& t.volumes == seq![writable("./workspace"@, "/workspace"@)]
    &&& t.resource_limits == limits(2048, 1024, 1024)
}

/// The `dev-environment` template: complete development environment with multiple language support.
pub fn dev_environment_template() -> (r: ContainerTemplate)
    ensures
        is_dev_environment_template(r@),
{
    let t = ContainerTemplate {
        id: String::from_str("dev-environment"),
        name: String::from_str("Full-Stack Development Environment"),
        description: String::from_str("Complete development environment with multiple language support"),
        dockerfile: String::from_str(r#"FROM ubuntu:22.04

# Install base development tools
RUN apt-get update && apt-get install -y \
    curl wget git vim nano \
    build-essential \
    python3 python3-pip python3-venv \
    nodejs npm \
    openjdk-17-jdk \
    golang-go \
    rust-all \
    && rm -rf /var/lib/apt/lists/*

# Install Node.js frameworks
RUN npm install -g \
    @angular/cli \
    create-react-app \
    @vue/cli \
    express-generator \
    typescript

# Install Python frameworks
RUN pip3 install \
    fastapi uvicorn \
    django flask \
    jupyter notebook \
    pandas numpy \
    pytest

# Install VS Code Server
RUN curl -fsSL https://code-server.dev/install.sh | sh

# Create development workspace
WORKDIR /workspace
RUN mkdir -p /workspace/{projects,data,config,logs}

# Setup development user
RUN useradd -m -s /bin/bash developer && \
    echo "developer:developer" | chpasswd && \
    usermod -aG sudo developer

USER developer
EXPOSE 3000 8000 5000 8080
CMD ["code-server", "--bind-addr", "0.0.0.0:8080", "--auth", "none"]"#),
        docker_compose: None,
        environment_vars: vec![env_var("NODE_ENV", "development"), env_var("PYTHONPATH", "/workspace")],
        ports: vec![tcp_port(3000, 3000), tcp_port(8000, 8000), tcp_port(5000, 5000), tcp_port(8080, 8080)],
        volumes: vec![writable_volume("./workspace", "/workspace")],
        tools: strings(&["nodejs", "python3", "git", "vscode-server", "docker"]),
        resource_limits: ResourceLimits {
            memory_mb: Some(2048),
            cpu_shares: Some(1024),
            swap_mb: Some(1024),
        },
    };
    proof {
        assert(t@.environment_vars =~= seq![("NODE_ENV"@, "development"@), ("PYTHONPATH"@, "/workspace"@)]);
        assert(t@.ports =~= seq![tcp(3000, 3000), tcp(8000, 8000), tcp(5000, 5000), tcp(8080, 8080)]);
        assert(t@.volumes =~= seq![writable("./workspace"@, "/workspace"@)]);
    }
    t
}

/// The `data-science` template's id, name, environment, ports, volumes and
/// resource limits.
pub open spec fn is_data_science_template(t: TemplateView) -> bool {
    &&& t.id == "data-science"@
    &&& t.name == "Data Science Environment"@
    &&& t.environment_vars == seq![("JUPYTER_ENABLE_LAB"@, "yes"@), ("JUPYTER_TOKEN"@, ""@)]
    &&& t.ports == seq![tcp(8888, 8888), tcp(8501, 8501), tcp(5000, 5000)]
    &&& t.volumes == seq![writable("./workspace"@, "/workspace"@)]
    &&& t.resource_limits == limits(8192, 2048, 4096)
}

/// The `data-science` template: python data science and machine learning environment.
pub fn data_science_template() -> (r: ContainerTemplate)
    ensures
        is_data_science_template(r@),
{
    let t = ContainerTemplate {
        id: String::from_str("data-science"),
        name: String::from_str("Data Science Environment"),
        description: String::from_str("Python data science and machine learning environment"),
        dockerfile: String::from_str(r#"FROM jupyter/scipy-notebook:latest

USER root

# Install additional ML libraries
RUN pip install \
    tensorflow \
    torch torchvision \
    scikit-learn \
    xgboost lightgbm \
    plotly dash \
    streamlit \
    mlflow \
    wandb \
    optuna

# Install system tools
RUN apt-get update && apt-get install -y \
    git curl wget vim \
    && rm -rf /var/lib/apt/lists/*

# Create workspace
WORKDIR /workspace
RUN mkdir -p /workspace/{notebooks,data,models,experiments,reports}

USER $NB_UID
EXPOSE 8888 8501 5000
CMD ["jupyter", "lab", "--ip=0.0.0.0", "--allow-root", "--no-browser"]"#),
        docker_compose: None,
        environment_vars: vec![env_var("JUPYTER_ENABLE_LAB", "yes"), env_var("JUPYTER_TOKEN", "")],
        ports: vec![tcp_port(8888, 8888), tcp_port(8501, 8501), tcp_port(5000, 5000)],
        volumes: vec![writable_volume("./workspace", "/workspace")],
        tools: strings(&["jupyter", "tensorflow", "pytorch", "scikit-learn", "pandas"]),
        resource_limits: ResourceLimits {
            memory_mb: Some(8192),
            cpu_shares: Some(2048),
            swap_mb: Some(4096),
        },
    };
    proof {
        assert(t@.environment_vars =~= seq![("JUPYTER_ENABLE_LAB"@, "yes"@), ("JUPYTER_TOKEN"@, ""@)]);
        assert(t@.ports =~= seq![tcp(8888, 8888), tcp(8501, 8501), tcp(5000, 5000)]);
        assert(t@.volumes =~= seq![writable("./workspace"@, "/workspace"@)]);
    }
    t
}

/// The `ml-training` template's id, name, environment, ports, volumes and
/// resource limits.
pub open spec fn is_ml_training_template(t: TemplateView) -> bool {
    &&& t.id == "ml-training"@
    &&& t.name == "ML Training Environment"@
    &&& t.environment_vars == seq![("CUDA_VISIBLE_DEVICES"@, "0"@), ("NVIDIA_VISIBLE_DEVICES"@, "all"@)]
    &&& t.ports == seq![tcp(8889, 8888), tcp(6006, 6006)]
    &&& t.volumes == seq![writable("./training"@, "/training"@)]
    &&& t.resource_limits == limits(16384, 4096, 8192)
}

/// The `ml-training` template: high-performance ML training with GPU support.
pub fn ml_training_template() -> (r: ContainerTemplate)
    ensures
        is_ml_training_template(r@),
{
    let t = ContainerTemplate {
        id: String::from_str("ml-training"),
        name: String::from_str("ML Training Environment"),
        description: String::from_str("High-performance ML training with GPU support"),
        dockerfile: String::from_str(r#"FROM nvidia/cuda:11.8-cudnn8-devel-ubuntu22.04

# Install Python and ML libraries
RUN apt-get update && apt-get install -y \
    python3 python3-pip \
    git curl wget \
    && rm -rf /var/lib/apt/lists/*

RUN pip3 install \
    torch torchvision torchaudio --index-url https://download.pytorch.org/whl/cu118 \
    tensorflow[and-cuda] \
    transformers datasets \
    accelerate \
    wandb tensorboard \
    jupyter

# Create training workspace
WORKDIR /training
RUN mkdir -p /training/{datasets,models,experiments,logs,checkpoints}

EXPOSE 8888 6006
CMD ["jupyter", "lab", "--ip=0.0.0.0", "--allow-root", "--no-browser"]"#),
        docker_compose: None,
        environment_vars: vec![env_var("CUDA_VISIBLE_DEVICES", "0"), env_var("NVIDIA_VISIBLE_DEVICES", "all")],
        ports: vec![tcp_port(8889, 8888), tcp_port(6006, 6006)],
        volumes: vec![writable_volume("./training", "/training")],
        tools: strings(&["pytorch", "tensorflow", "transformers", "cuda", "tensorboard"]),
        resource_limits: ResourceLimits {
            memory_mb: Some(16384),
            cpu_shares: Some(4096),
            swap_mb: Some(8192),
        },
    };
    proof {
        assert(t@.environment_vars =~= seq![("CUDA_VISIBLE_DEVICES"@, "0"@), ("NVIDIA_VISIBLE_DEVICES"@, "all"@)]);
        assert(t@.ports =~= seq![tcp(8889, 8888), tcp(6006, 6006)]);
        assert(t@.volumes =~= seq![writable("./training"@, "/training"@)]);
    }
    t
}

/// The `web-pentest` template's id, name, environment, ports, volumes and
/// resource limits.
pub open spec fn is_web_pentest_template(t: TemplateView) -> bool {
    &&& t.id == "web-pentest"@
    &&& t.name == "Web Application Penetration Testing"@
    &&& t.environment_vars == seq![("PENTEST_TARGET"@, ""@), ("DISPLAY"@, ":0"@)]
    &&& t.ports == seq![tcp(8080, 8080), tcp(8081, 8081), tcp(9090, 9090)]
    &&& t.volumes == seq![writable("./pentest"@, "/pentest"@)]
    &&& t.resource_limits == limits(3072, 1536, 1536)
}

/// The `web-pentest` template: specialized environment for web application security testing.
pub fn web_pentest_template() -> (r: ContainerTemplate)
    ensures
        is_web_pentest_template(r@),
{
    let t = ContainerTemplate {
        id: String::from_str("web-pentest"),
        name: String::from_str("Web Application Penetration Testing"),
        description: String::from_str("Specialized environment for web application security testing"),
        dockerfile: String::from_str(r#"FROM kalilinux/kali-rolling:latest

# Install web testing tools
RUN apt-get update && apt-get install -y \
    burpsuite-community \
    owasp-zap \
    sqlmap \
    nikto dirb gobuster \
    wfuzz ffuf \
    whatweb \
    python3 python3-pip \
    nodejs npm \
    && rm -rf /var/lib/apt/lists/*

# Install web testing Python tools
RUN pip3 install \
    requests beautifulsoup4 \
    selenium \
    scrapy \
    paramiko \
    pwntools

# Install web testing Node.js tools
RUN npm install -g \
    retire \
    jshint \
    eslint

# Create pentest workspace
WORKDIR /pentest
RUN mkdir -p /pentest/{targets,reports,payloads,scripts,evidence}

# Setup pentester user
RUN useradd -m -s /bin/bash pentester && \
    echo "pentester:pentester" | chpasswd && \
    usermod -aG sudo pentester

USER pentester
EXPOSE 8080 8081 9090
CMD ["/bin/bash"]"#),
        docker_compose: None,
        environment_vars: vec![env_var("PENTEST_TARGET", ""), env_var("DISPLAY", ":0")],
        ports: vec![tcp_port(8080, 8080), tcp_port(8081, 8081), tcp_port(9090, 9090)],
        volumes: vec![writable_volume("./pentest", "/pentest")],
        tools: strings(&["burpsuite", "owasp-zap", "sqlmap", "nikto", "dirb", "gobuster"]),
        resource_limits: ResourceLimits {
            memory_mb: Some(3072),
            cpu_shares: Some(1536),
            swap_mb: Some(1536),
        },
    };
    proof {
        assert(t@.environment_vars =~= seq![("PENTEST_TARGET"@, ""@), ("DISPLAY"@, ":0"@)]);
        assert(t@.ports =~= seq![tcp(8080, 8080), tcp(8081, 8081), tcp(9090, 9090)]);
        assert(t@.volumes =~= seq![writable("./pentest"@, "/pentest"@)]);
    }
    t
}

} // verus!
