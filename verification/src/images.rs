//! Descriptions of the service container images the test harness runs: the
//! image name and tag, the ports to expose, the environment to pass, and the
//! log line that signals readiness.

use std::collections::HashMap;

use vstd::prelude::*;
use vstd::string::StringExecFns;

verus! {

/// The component-service container image.
#[derive(Debug)]
pub struct GolemComponentServiceImage {
    pub env_vars: HashMap<String, String>,
    pub expose_ports: [u16; 2],
}

impl GolemComponentServiceImage {
    /// An image description exposing the given ports with the given
    /// environment.
    pub fn new(grpc_port: u16, http_port: u16, env_vars: HashMap<String, String>) -> (r:
        GolemComponentServiceImage)
        ensures
            r.env_vars == env_vars,
            r.expose_ports@ == seq![grpc_port, http_port],
    {
        let r = GolemComponentServiceImage { env_vars, expose_ports: [grpc_port, http_port] };
        proof {
            assert(r.expose_ports@ =~= seq![grpc_port, http_port]);
        }
        r
    }

    /// The image's registry name.
    pub fn name(&self) -> (r: String)
        ensures
            r@ == "golemservices/golem-component-service"@,
    {
        String::from_str("golemservices/golem-component-service")
    }

    /// The image's tag.
    pub fn tag(&self) -> (r: String)
        ensures
            r@ == "latest"@,
    {
        String::from_str("latest")
    }

    /// The log line whose appearance means the service is up.
    pub fn ready_message(&self) -> (r: String)
        ensures
            r@ == "server started"@,
    {
        String::from_str("server started")
    }

    /// The ports the container exposes.
    pub fn exposed_ports(&self) -> (r: Vec<u16>)
        ensures
            r@ == self.expose_ports@,
    {
        let mut r: Vec<u16> = Vec::new();
        r.push(self.expose_ports[0]);
        r.push(self.expose_ports[1]);
        proof {
            assert(r@ =~= self.expose_ports@);
        }
        r
    }
}

/// The shard-manager container image.
#[derive(Debug)]
pub struct ShardManagerImage {
    pub env_vars: HashMap<String, String>,
    pub expose_ports: [u16; 2],
}

impl ShardManagerImage {
    /// An image description exposing the given ports with the given
    /// environment.
    pub fn new(grpc_port: u16, http_port: u16, env_vars: HashMap<String, String>) -> (r:
        ShardManagerImage)
        ensures
            r.env_vars == env_vars,
            r.expose_ports@ == seq![grpc_port, http_port],
    {
        let r = ShardManagerImage { env_vars, expose_ports: [grpc_port, http_port] };
        proof {
            assert(r.expose_ports@ =~= seq![grpc_port, http_port]);
        }
        r
    }

    /// The image's registry name.
    pub fn name(&self) -> (r: String)
        ensures
            r@ == "golemservices/golem-shard-manager"@,
    {
        String::from_str("golemservices/golem-shard-manager")
    }

    /// The image's tag.
    pub fn tag(&self) -> (r: String)
        ensures
            r@ == "latest"@,
    {
        String::from_str("latest")
    }

    /// The log line whose appearance means the shard manager is up.
    pub fn ready_message(&self) -> (r: String)
        ensures
            r@ == "Shard Manager is fully operational"@,
    {
        String::from_str("Shard Manager is fully operational")
    }

    /// The ports the container exposes.
    pub fn exposed_ports(&self) -> (r: Vec<u16>)
        ensures
            r@ == self.expose_ports@,
    {
        let mut r: Vec<u16> = Vec::new();
        r.push(self.expose_ports[0]);
        r.push(self.expose_ports[1]);
        proof {
            assert(r@ =~= self.expose_ports@);
        }
        r
    }
}

} // verus!
