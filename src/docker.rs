//! Records exchanged with the container engine.
use vstd::prelude::*;

verus! {

/// What a new container is created from. Port bindings map
/// `"{container_port}/tcp"` to a host port; volumes map a host path to a
/// container path.
#[derive(Clone, Debug)]
pub struct ContainerConfig {
    pub image: String,
    pub name: Option<String>,
    pub env: Option<Vec<String>>,
    pub ports: Option<Vec<(String, String)>>,
    pub volumes: Option<Vec<(String, String)>>,
    pub network: Option<String>,
    pub cmd: Option<Vec<String>>,
}

/// Summary of a container.
#[derive(Clone, Debug)]
pub struct ContainerInfo {
    pub id: String,
    pub name: String,
    pub image: String,
    pub state: String,
    pub status: String,
    pub created: i64,
    pub ports: Vec<PortInfo>,
}

#[derive(Clone, Debug)]
pub struct PortInfo {
    pub container_port: u16,
    pub host_port: Option<u16>,
    pub protocol: String,
}

#[derive(Clone, Debug)]
pub struct NetworkInfo {
    pub id: String,
    pub name: String,
    pub driver: String,
    pub scope: String,
    pub created: String,
    pub containers: Vec<String>,
}

#[derive(Clone, Debug)]
pub struct VolumeInfo {
    pub name: String,
    pub driver: String,
    pub mountpoint: String,
    pub created_at: Option<String>,
}

/// Log lines returned when none are asked for.
pub fn default_tail() -> (r: usize)
    ensures
        r == 100,
{
    100
}

/// Network driver used when none is named.
pub fn default_driver() -> (r: String)
    ensures
        r@ == "bridge"@,
{
    String::from_str("bridge")
}

/// The first host port among the bindings, if any binding has one.
pub fn first_host_port(ports: &Vec<PortInfo>) -> (r: Option<u16>)
    ensures
        r matches Some(p) ==> exists|i: int|
            0 <= i < ports@.len() && ports@[i].host_port == Some(p) && forall|j: int|
                0 <= j < i ==> ports@[j].host_port is None,
        r is None ==> forall|j: int| 0 <= j < ports@.len() ==> ports@[j].host_port is None,
{
    let mut i: usize = 0;
    while i < ports.len()
        invariant
            0 <= i <= ports@.len(),
            forall|j: int| 0 <= j < i ==> ports@[j].host_port is None,
        decreases ports@.len() - i,
    {
        if let Some(p) = ports[i].host_port {
            return Some(p);
        }
        i = i + 1;
    }
    None
}

} // verus!
