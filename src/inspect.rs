//! Reading back what the engine says of containers: the description of one
//! container after it started, and the summaries of a listing.
use vstd::prelude::*;

use crate::model::{strings_view, ContainerInfo, ContainerInfoView};
use crate::text::{
    decimal, decimal_string, signed_decimal, signed_decimal_string, strip_leading_slashes,
    trim_leading_slashes,
};

verus! {

/// A host address and port a container port is bound to, as far as the
/// engine gave them.
pub struct HostPortBinding {
    pub host_ip: Option<String>,
    pub host_port: Option<String>,
}

/// A container port with the host bindings the engine reports for it.
pub struct InspectedPort {
    pub container_port: String,
    pub bindings: Option<Vec<HostPortBinding>>,
}

/// The engine's description of one container.
pub struct InspectReply {
    pub name: Option<String>,
    pub image: Option<String>,
    pub status: Option<String>,
    pub created: Option<String>,
    pub ports: Vec<InspectedPort>,
}

/// A port in a listing: the public port, if published, and the private one.
pub struct SummaryPort {
    pub public_port: Option<u16>,
    pub private_port: u16,
}

/// The engine's summary of one container in a listing.
pub struct ContainerSummaryReply {
    pub id: Option<String>,
    pub names: Option<Vec<String>>,
    pub image: Option<String>,
    pub status: Option<String>,
    pub state: Option<String>,
    /// Creation time in seconds since the epoch.
    pub created: Option<i64>,
    pub ports: Option<Vec<SummaryPort>>,
}

/// The text of an optional string, or `dflt` when it is absent.
pub open spec fn text_or(o: Option<String>, dflt: Seq<char>) -> Seq<char> {
    match o {
        Some(s) => s@,
        None => dflt,
    }
}

/// The `host:port` a container port resolves to: its first binding, with
/// `0.0.0.0` for a missing address and `?` for a missing port; nothing when
/// it has no binding.
pub open spec fn resolved_port(p: InspectedPort) -> Option<Seq<char>> {
    match p.bindings {
        Some(v) => if v@.len() > 0 {
            Some(
                text_or(v@[0].host_ip, seq!['0', '.', '0', '.', '0', '.', '0']) + seq![':']
                    + text_or(v@[0].host_port, seq!['?']),
            )
        } else {
            None
        },
        None => None,
    }
}

/// The resolved ports of all container ports that have a binding, in order.
pub open spec fn resolved_ports(s: Seq<InspectedPort>) -> Seq<Seq<char>>
    decreases s.len(),
{
    if s.len() == 0 {
        Seq::empty()
    } else {
        let rest = resolved_ports(s.drop_last());
        match resolved_port(s.last()) {
            Some(p) => rest.push(p),
            None => rest,
        }
    }
}

/// What is known of container `container_id` from the engine's description:
/// its name without leading slashes, its image, its status (also standing
/// for its state), its creation time and its resolved ports; a missing text
/// is empty.
pub open spec fn inspect_info(container_id: Seq<char>, reply: InspectReply) -> ContainerInfoView {
    ContainerInfoView {
        id: container_id,
        name: strip_leading_slashes(text_or(reply.name, Seq::empty())),
        image: text_or(reply.image, Seq::empty()),
        status: text_or(reply.status, Seq::empty()),
        state: text_or(reply.status, Seq::empty()),
        created: text_or(reply.created, Seq::empty()),
        ports: resolved_ports(reply.ports@),
    }
}

/// `public:private` for a listed port, with `0` for an unpublished one.
pub open spec fn summary_port(p: SummaryPort) -> Seq<char> {
    let public: nat = match p.public_port {
        Some(x) => x as nat,
        None => 0,
    };
    decimal(public) + seq![':'] + decimal(p.private_port as nat)
}

/// What is known of a container from its summary in a listing: its first
/// name without leading slashes (`unknown` when it has none), its creation
/// time in decimal, and its ports as `public:private`; a missing text is
/// empty.
pub open spec fn summary_info(summary: ContainerSummaryReply) -> ContainerInfoView {
    ContainerInfoView {
        id: text_or(summary.id, Seq::empty()),
        name: summary_name(summary.names),
        image: text_or(summary.image, Seq::empty()),
        status: text_or(summary.status, Seq::empty()),
        state: text_or(summary.state, Seq::empty()),
        created: match summary.created {
            Some(c) => signed_decimal(c as int),
            None => Seq::empty(),
        },
        ports: match summary.ports {
            Some(v) => v@.map_values(|p: SummaryPort| summary_port(p)),
            None => Seq::empty(),
        },
    }
}

/// The name of a listed container: its first name without leading slashes,
/// or `unknown`.
pub open spec fn summary_name(names: Option<Vec<String>>) -> Seq<char> {
    match names {
        Some(v) => if v@.len() > 0 {
            strip_leading_slashes(v@[0]@)
        } else {
            seq!['u', 'n', 'k', 'n', 'o', 'w', 'n']
        },
        None => seq!['u', 'n', 'k', 'n', 'o', 'w', 'n'],
    }
}

fn text_or_empty(o: &Option<String>) -> (r: String)
    ensures
        r@ == text_or(*o, Seq::empty()),
{
    match o {
        Some(s) => s.clone(),
        None => String::new(),
    }
}

fn resolve_port(p: &InspectedPort) -> (r: Option<String>)
    ensures
        match resolved_port(*p) {
            Some(x) => r matches Some(s) && s@ == x,
            None => r is None,
        },
{
    proof {
        reveal_strlit("0.0.0.0");
        reveal_strlit(":");
        reveal_strlit("?");
        assert("0.0.0.0"@ =~= seq!['0', '.', '0', '.', '0', '.', '0']);
        assert("?"@ =~= seq!['?']);
    }
    match &p.bindings {
        Some(v) => {
            if v.len() > 0 {
                let mut s = match &v[0].host_ip {
                    Some(ip) => ip.clone(),
                    None => String::from_str("0.0.0.0"),
                };
                s.append(":");
                match &v[0].host_port {
                    Some(port) => s.append(port.as_str()),
                    None => s.append("?"),
                }
                Some(s)
            } else {
                None
            }
        },
        None => None,
    }
}

/// The resolved `host:port` strings of the bound container ports.
pub fn resolve_ports(ports: &Vec<InspectedPort>) -> (r: Vec<String>)
    ensures
        strings_view(r@) == resolved_ports(ports@),
{
    let mut r: Vec<String> = Vec::new();
    let mut i: usize = 0;
    while i < ports.len()
        invariant
            i <= ports@.len(),
            strings_view(r@) == resolved_ports(ports@.subrange(0, i as int)),
        decreases ports@.len() - i,
    {
        let ghost prefix = ports@.subrange(0, i as int);
        let ghost next = ports@.subrange(0, i + 1);
        assert(next.drop_last() =~= prefix);
        let ghost before = r@;
        match resolve_port(&ports[i]) {
            Some(s) => {
                r.push(s);
                assert(strings_view(r@) =~= strings_view(before).push(r@.last()@));
            },
            None => {},
        }
        i = i + 1;
    }
    assert(ports@.subrange(0, i as int) =~= ports@);
    r
}

/// What is known of a container from the engine's description of it.
pub fn container_info_from_inspect(container_id: &str, reply: &InspectReply) -> (r: ContainerInfo)
    ensures
        r@ == inspect_info(container_id@, *reply),
{
    let raw_name = text_or_empty(&reply.name);
    ContainerInfo {
        id: String::from_str(container_id),
        name: trim_leading_slashes(raw_name.as_str()),
        image: text_or_empty(&reply.image),
        status: text_or_empty(&reply.status),
        state: text_or_empty(&reply.status),
        created: text_or_empty(&reply.created),
        ports: resolve_ports(&reply.ports),
    }
}

fn summary_port_string(p: &SummaryPort) -> (r: String)
    ensures
        r@ == summary_port(*p),
{
    proof {
        reveal_strlit(":");
    }
    let public: u16 = match p.public_port {
        Some(x) => x,
        None => 0,
    };
    let mut s = decimal_string(public as u64);
    s.append(":");
    let private = decimal_string(p.private_port as u64);
    s.append(private.as_str());
    s
}

/// What is known of a container from its summary in a listing.
pub fn container_info_from_summary(summary: &ContainerSummaryReply) -> (r: ContainerInfo)
    ensures
        r@ == summary_info(*summary),
{
    proof {
        reveal_strlit("unknown");
        assert("unknown"@ =~= seq!['u', 'n', 'k', 'n', 'o', 'w', 'n']);
    }
    let name = match &summary.names {
        Some(v) => if v.len() > 0 {
            trim_leading_slashes(v[0].as_str())
        } else {
            String::from_str("unknown")
        },
        None => String::from_str("unknown"),
    };
    let created = match summary.created {
        Some(c) => signed_decimal_string(c),
        None => String::new(),
    };
    let mut ports: Vec<String> = Vec::new();
    match &summary.ports {
        Some(v) => {
            let mut i: usize = 0;
            while i < v.len()
                invariant
                    i <= v@.len(),
                    ports@.len() == i,
                    forall|j: int| 0 <= j < i ==> (#[trigger] ports@[j])@ == summary_port(v@[j]),
                decreases v@.len() - i,
            {
                ports.push(summary_port_string(&v[i]));
                i = i + 1;
            }
            assert(strings_view(ports@) =~= v@.map_values(|p: SummaryPort| summary_port(p)));
        },
        None => {
            assert(strings_view(ports@) =~= Seq::<Seq<char>>::empty());
        },
    }
    ContainerInfo {
        id: text_or_empty(&summary.id),
        name,
        image: text_or_empty(&summary.image),
        status: text_or_empty(&summary.status),
        state: text_or_empty(&summary.state),
        created,
        ports,
    }
}

} // verus!
