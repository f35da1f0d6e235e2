//! What the debug flags of an instance decide: its port, its name, the origin
//! it relays to, and what it does at start.

use crate::server::ServerConfig;
use crate::text::{decimal, push_decimal};
use vstd::prelude::*;

verus! {

/// The port of an instance started without any flag.
pub const BASE_LOCAL_PORT: u16 = 3000;

/// The port the rig control daemon listens on.
pub const RIGCTLD_PORT: u16 = 4532;

/// The host the rig control daemon runs on.
pub const RIGCTLD_HOST: &'static str = "localhost";

/// How many events the lifecycle bus holds for a subscriber that lags.
pub const BUS_CAPACITY: usize = 10;

/// The debug flags.
#[derive(Debug, Clone, Copy, PartialEq, Eq, Structural)]
pub struct Args {
    /// Run with the dummy radio instead of a real one.
    pub dummy: bool,
    /// Serve the local UI bundle instead of the remote one.
    pub local_ui: bool,
    /// Close the running instance.
    pub close: bool,
}

/// How far an instance's port lies from the base port: one for the
/// development server, two for the dummy radio and four for the local UI, so
/// that every combination has a port of its own.
pub open spec fn port_offset(args: Args, use_dev_server: bool) -> nat {
    (if use_dev_server { 1nat } else { 0nat }) + (if args.dummy { 2nat } else { 0nat }) + (
    if args.local_ui { 4nat } else { 0nat })
}

/// Each instance runs on a port of its own, given by its flags.
pub fn get_port_from_args(base_port: u16, args: &Args, use_dev_server: bool) -> (port: u16)
    requires
        base_port + port_offset(*args, use_dev_server) <= u16::MAX,
    ensures
        port == base_port + port_offset(*args, use_dev_server),
{
    let mut port = base_port;
    if use_dev_server {
        port += 1;
    }
    if args.dummy {
        port += 2;
    }
    if args.local_ui {
        port += 4;
    }
    port
}

/// Whether the port of an instance with these flags exists.
pub fn port_fits(base_port: u16, args: &Args, use_dev_server: bool) -> (r: bool)
    ensures
        r == (base_port + port_offset(*args, use_dev_server) <= u16::MAX),
{
    let mut offset: u16 = 0;
    if use_dev_server {
        offset += 1;
    }
    if args.dummy {
        offset += 2;
    }
    if args.local_ui {
        offset += 4;
    }
    base_port <= u16::MAX - offset
}

/// A slug with one more part: the part alone if the slug was empty, else the
/// slug, a hyphen and the part.
pub open spec fn with_part(slug: Seq<char>, part: Seq<char>) -> Seq<char> {
    if slug.len() == 0 {
        part
    } else {
        slug + "-"@ + part
    }
}

/// The slug of an instance: the names of the flags that are set, in a fixed
/// order, joined by hyphens.
pub open spec fn slug_of(args: Args, use_dev_server: bool) -> Seq<char> {
    let first = if use_dev_server {
        with_part(Seq::empty(), "dev_server"@)
    } else {
        Seq::empty()
    };
    let second = if args.dummy {
        with_part(first, "dummy"@)
    } else {
        first
    };
    if args.local_ui {
        with_part(second, "local_ui"@)
    } else {
        second
    }
}

fn push_part(slug: &mut String, part: &str)
    ensures
        final(slug)@ == with_part(old(slug)@, part@),
{
    if !slug.as_str().is_empty() {
        slug.append("-");
    }
    slug.append(part);
    assert(slug@ =~= with_part(old(slug)@, part@));
}

pub fn get_slug_from_args(args: &Args, use_dev_server: bool) -> (slug: String)
    ensures
        slug@ == slug_of(*args, use_dev_server),
{
    let mut slug = String::new();
    if use_dev_server {
        push_part(&mut slug, "dev_server");
    }
    if args.dummy {
        push_part(&mut slug, "dummy");
    }
    if args.local_ui {
        push_part(&mut slug, "local_ui");
    }
    slug
}

/// The name under which an instance with this slug claims to be the only one.
pub fn instance_name(slug: &str) -> (r: String)
    ensures
        r@ == "HolyCluster-"@ + slug@,
{
    let mut name = "HolyCluster-".to_owned();
    name.append(slug);
    name
}

/// The address of the gateway on this machine.
pub open spec fn local_address(port: u16) -> Seq<char> {
    "http://127.0.0.1:"@ + decimal(port as nat)
}

/// The address a browser opens to reach the gateway on this machine.
pub fn local_url(port: u16) -> (r: String)
    ensures
        r@ == local_address(port),
{
    let mut url = "http://127.0.0.1:".to_owned();
    push_decimal(&mut url, port as u64);
    url
}

/// The address that tells the instance on `port` to quit.
pub fn exit_url(port: u16) -> (r: String)
    ensures
        r@ == local_address(port) + "/exit"@,
{
    let mut url = local_url(port);
    url.append("/exit");
    url
}

/// Where on this machine a status datagram for `port` goes.
pub fn datagram_address(port: u16) -> (r: String)
    ensures
        r@ == "127.0.0.1:"@ + decimal(port as nat),
{
    let mut address = "127.0.0.1:".to_owned();
    push_decimal(&mut address, port as u64);
    address
}

/// The origin an instance relays to: the development server, without SSL, or
/// the production server, with it.
pub fn server_config(use_dev_server: bool, local_port: u16) -> (r: ServerConfig)
    ensures
        r.local_port == local_port,
        r.is_using_ssl == !use_dev_server,
        r.dns@ == (if use_dev_server {
            "holycluster-dev.iarc.org"@
        } else {
            "holycluster.iarc.org"@
        }),
{
    if use_dev_server {
        ServerConfig {
            dns: "holycluster-dev.iarc.org".to_owned(),
            is_using_ssl: false,
            local_port,
        }
    } else {
        ServerConfig { dns: "holycluster.iarc.org".to_owned(), is_using_ssl: true, local_port }
    }
}

/// What a process does once it knows whether it is the only instance.
#[derive(Debug, Clone, Copy, PartialEq, Eq, Structural)]
pub enum StartupAction {
    /// Run the gateway.
    Serve,
    /// There is nothing to close: leave.
    NothingToClose,
    /// Tell the running instance to quit.
    RequestExit,
    /// Show the running instance in the browser.
    OpenBrowser,
}

/// What a process does at start. The only instance serves, unless it was
/// started to close one. A second instance closes the first if asked to, and
/// shows it otherwise.
pub fn startup_action(is_single: bool, close: bool) -> (r: StartupAction)
    ensures
        r == (if is_single {
            if close {
                StartupAction::NothingToClose
            } else {
                StartupAction::Serve
            }
        } else {
            if close {
                StartupAction::RequestExit
            } else {
                StartupAction::OpenBrowser
            }
        }),
{
    if is_single {
        if close {
            StartupAction::NothingToClose
        } else {
            StartupAction::Serve
        }
    } else if close {
        StartupAction::RequestExit
    } else {
        StartupAction::OpenBrowser
    }
}

} // verus!
