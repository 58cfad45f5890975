//! What the manager says to the container engine and what it reads of the
//! engine's answers.

use crate::endpoint::LOOPBACK_HOST;
use crate::error::EngineFault;
use crate::text::{decimal, push_decimal};
use vstd::prelude::*;

verus! {

/// Image that the database server runs from.
pub const IMAGE: &'static str = "mongo:latest";

/// Platform that the container is created for.
pub const PLATFORM: &'static str = "linux/amd64";

/// Name of the one container of fixed-name mode.
pub const FIXED_NAME: &'static str = "temp_mongo_docker";

/// Port on which the database server listens inside the container, and on
/// which fixed-name mode publishes it.
pub const DATABASE_PORT: u16 = 27017;

/// The sign that the engine puts in front of a container's name.
pub const NAME_SEPARATOR: char = '/';

/// The engine's client handle. Requests go out through it; nothing in it is
/// read here.
#[verifier::external_type_specification]
#[verifier::external_body]
pub struct ExDocker(bollard::Docker);

/// The engine client's error. Its variants are told apart by
/// `response_status` only.
#[verifier::external_type_specification]
#[verifier::external_body]
pub struct ExDockerError(bollard::errors::Error);

/// `bollard::Docker::connect_with_socket_defaults` makes a client for the
/// local socket, or for the named pipe where the platform has those. Nothing
/// is claimed of its result.
pub assume_specification[ bollard::Docker::connect_with_socket_defaults ]() -> (r: Result<
    bollard::Docker,
    bollard::errors::Error,
>)
;

/// Picks the status code out of `bollard::errors::Error`: the variant
/// `DockerResponseServerError` carries the status of the engine's response,
/// no other variant carries one. Nothing is claimed of the result.
#[verifier::external_body]
fn response_status(fault: &bollard::errors::Error) -> (status: Option<u16>) {
    match fault {
        bollard::errors::Error::DockerResponseServerError { status_code, .. } => Some(*status_code),
        _ => None,
    }
}

/// Puts an error of the engine client into the form that the manager reads:
/// the response status where there is one, and the text that the error
/// displays.
pub fn fault_of(fault: &bollard::errors::Error) -> (r: EngineFault)
    ensures
        vstd::string::to_string_from_display_ensures::<bollard::errors::Error>(fault, r.message),
{
    EngineFault { status: response_status(fault), message: fault.to_string() }
}

/// One entry of the engine's container list: the names that the container
/// goes by, each as the engine writes it.
#[derive(Debug)]
pub struct ContainerSummary {
    pub names: Vec<String>,
}

impl DeepView for ContainerSummary {
    type V = Seq<Seq<char>>;

    open spec fn deep_view(&self) -> Seq<Seq<char>> {
        self.names.deep_view()
    }
}

/// A listed name without the separator that the engine puts in front of it.
/// One separator is taken off, and only at the front.
pub open spec fn strip_separator(name: Seq<char>) -> Seq<char> {
    if name.len() > 0 && name[0] == NAME_SEPARATOR {
        name.subrange(1, name.len() as int)
    } else {
        name
    }
}

/// Whether one of the names of a listed container is `wanted`.
pub open spec fn carries_name(names: Seq<Seq<char>>, wanted: Seq<char>) -> bool {
    exists|j: int| 0 <= j < names.len() && strip_separator(#[trigger] names[j]) == wanted
}

/// Whether a container list holds a container that goes by `wanted`.
pub open spec fn any_carries_name(containers: Seq<Seq<Seq<char>>>, wanted: Seq<char>) -> bool {
    exists|i: int| 0 <= i < containers.len() && carries_name(#[trigger] containers[i], wanted)
}

/// Takes the engine's separator off the front of a listed name.
pub fn stripped(name: &str) -> (r: &str)
    ensures
        r@ == strip_separator(name@),
{
    let n = name.unicode_len();
    if n > 0 && name.get_char(0) == NAME_SEPARATOR {
        name.substring_char(1, n)
    } else {
        name
    }
}

/// Whether two texts hold the same characters.
pub fn same_text(a: &str, b: &str) -> (r: bool)
    ensures
        r == (a@ == b@),
{
    let left = String::from_str(a);
    let right = String::from_str(b);
    left == right
}

impl ContainerSummary {
    /// Whether the container goes by `wanted`.
    pub fn carries_name(&self, wanted: &str) -> (r: bool)
        ensures
            r == carries_name(self.deep_view(), wanted@),
    {
        let mut j: usize = 0;
        while j < self.names.len()
            invariant
                j <= self.names.len(),
                forall|k: int|
                    0 <= k < j ==> strip_separator(#[trigger] self.deep_view()[k]) != wanted@,
            decreases self.names.len() - j,
        {
            assert(self.deep_view()[j as int] == self.names[j as int]@);
            if same_text(stripped(self.names[j].as_str()), wanted) {
                return true;
            }
            j += 1;
        }
        false
    }
}

/// Whether the engine's list holds a container that goes by `wanted`.
pub fn any_carries_name_in(containers: &Vec<ContainerSummary>, wanted: &str) -> (r: bool)
    ensures
        r == any_carries_name(containers.deep_view(), wanted@),
{
    let mut i: usize = 0;
    while i < containers.len()
        invariant
            i <= containers.len(),
            forall|k: int|
                0 <= k < i ==> !carries_name(#[trigger] containers.deep_view()[k], wanted@),
        decreases containers.len() - i,
    {
        assert(containers.deep_view()[i as int] == containers[i as int].deep_view());
        if containers[i].carries_name(wanted) {
            return true;
        }
        i += 1;
    }
    false
}

/// How a container port is published on the host.
#[derive(Debug)]
pub struct PortBinding {
    /// Port inside the container, reached over TCP.
    pub container_port: u16,
    /// Host address that the port is published on.
    pub host_ip: String,
    /// Host port that the container port is mapped to, one to one.
    pub host_port: u16,
}

/// Mathematical value of a [`PortBinding`].
pub struct PortBindingView {
    pub container_port: u16,
    pub host_ip: Seq<char>,
    pub host_port: u16,
}

impl View for PortBinding {
    type V = PortBindingView;

    open spec fn view(&self) -> PortBindingView {
        PortBindingView {
            container_port: self.container_port,
            host_ip: self.host_ip@,
            host_port: self.host_port,
        }
    }
}

/// The key under which the engine files a published TCP port:
/// `<port>/tcp`.
pub open spec fn binding_key_text(container_port: u16) -> Seq<char> {
    decimal(container_port as nat) + "/tcp"@
}

impl PortBinding {
    /// The key under which the engine files this binding.
    pub fn container_key(&self) -> (key: String)
        ensures
            key@ == binding_key_text(self.container_port),
    {
        let mut key = String::new();
        push_decimal(&mut key, self.container_port as u64);
        key.append("/tcp");
        assert(key@ =~= binding_key_text(self.container_port));
        key
    }

    /// The host port in the decimal text that the engine takes.
    pub fn host_port_text(&self) -> (text: String)
        ensures
            text@ == decimal(self.host_port as nat),
    {
        let mut text = String::new();
        push_decimal(&mut text, self.host_port as u64);
        assert(text@ =~= decimal(self.host_port as nat));
        text
    }
}

/// Everything that a create request tells the engine.
#[derive(Debug)]
pub struct ContainerConfig {
    /// Name asked for; empty where the engine is to pick one.
    pub name: String,
    pub platform: String,
    pub image: String,
    /// Command line of the server process.
    pub cmd: Vec<String>,
    /// Environment of the server process.
    pub env: Vec<String>,
    pub binding: PortBinding,
}

/// Mathematical value of a [`ContainerConfig`].
pub struct ContainerConfigView {
    pub name: Seq<char>,
    pub platform: Seq<char>,
    pub image: Seq<char>,
    pub cmd: Seq<Seq<char>>,
    pub env: Seq<Seq<char>>,
    pub binding: PortBindingView,
}

impl View for ContainerConfig {
    type V = ContainerConfigView;

    open spec fn view(&self) -> ContainerConfigView {
        ContainerConfigView {
            name: self.name@,
            platform: self.platform@,
            image: self.image@,
            cmd: self.cmd.deep_view(),
            env: self.env.deep_view(),
            binding: self.binding@,
        }
    }
}

/// The one configuration that containers are created with: the database
/// image, the server started without authentication, no environment of its
/// own, and the database port published on `host_port` of the loopback
/// address. Only the name and the host port vary.
pub open spec fn container_config_for(name: Seq<char>, host_port: u16) -> ContainerConfigView {
    ContainerConfigView {
        name,
        platform: PLATFORM@,
        image: IMAGE@,
        cmd: seq!["mongod"@, "--noauth"@],
        env: Seq::empty(),
        binding: PortBindingView {
            container_port: DATABASE_PORT,
            host_ip: LOOPBACK_HOST@,
            host_port,
        },
    }
}

/// Builds the configuration of a container that is to go by `name` (empty:
/// the engine picks a name) and to publish the database on `host_port`.
pub fn container_config(name: &str, host_port: u16) -> (config: ContainerConfig)
    ensures
        config@ == container_config_for(name@, host_port),
{
    let mut cmd: Vec<String> = Vec::new();
    cmd.push(String::from_str("mongod"));
    cmd.push(String::from_str("--noauth"));
    let env: Vec<String> = Vec::new();
    assert(cmd.deep_view() =~= seq!["mongod"@, "--noauth"@]);
    assert(env.deep_view() =~= Seq::<Seq<char>>::empty());
    ContainerConfig {
        name: String::from_str(name),
        platform: String::from_str(PLATFORM),
        image: String::from_str(IMAGE),
        cmd,
        env,
        binding: PortBinding {
            container_port: DATABASE_PORT,
            host_ip: String::from_str(LOOPBACK_HOST),
            host_port,
        },
    }
}

} // verus!
