//! The client's own settings: how it reaches the local Archipelago client, and which mods it
//! works alongside.
use vstd::prelude::*;
use vstd::string::StringExecFns;
use crate::strings::{push_signed_decimal, signed_decimal};

verus! {

/// How the client reaches the local Archipelago client.
#[derive(Debug)]
pub struct Connection {
    /// The port the local client is running on.
    pub port: i32,
    /// The address the local client is on, should always be localhost.
    pub address: String,
    /// Do not attempt to connect to the local client.
    pub disable_auto_connect: bool,
    /// How many seconds between each reconnection attempt to the local client.
    pub reconnect_interval_seconds: i32,
}

/// Which mods' hooks the client leaves alone.
#[derive(Debug)]
pub struct Mods {
    /// Stop DDMK hooks from being loaded, this does not stop hash verification though.
    pub disable_ddmk_hooks: bool,
    /// Stop Crimson hooks from being loaded.
    pub disable_crimson_hooks: bool,
}

/// The client's settings.
#[derive(Debug)]
pub struct Config {
    pub connections: Connection,
    pub mods: Mods,
}

impl Default for Config {
    /// The local client on localhost:21705, connected to on its own every 10 seconds, with no
    /// mod's hooks left alone.
    fn default() -> (config: Config)
        ensures
            config.connections.port == 21705,
            config.connections.address@ == "localhost"@,
            !config.connections.disable_auto_connect,
            config.connections.reconnect_interval_seconds == 10,
            !config.mods.disable_ddmk_hooks,
            !config.mods.disable_crimson_hooks,
    {
        Config {
            connections: Connection {
                port: 21705,
                address: String::from_str("localhost"),
                disable_auto_connect: false,
                reconnect_interval_seconds: 10,
            },
            mods: Mods { disable_ddmk_hooks: false, disable_crimson_hooks: false },
        }
    }
}

impl Connection {
    /// The address the client connects to on its own: "<address>:<port>".
    pub fn local_url(&self) -> (url: String)
        ensures
            url@ == self.address@ + ":"@ + signed_decimal(self.port as int),
    {
        let mut url = String::from_str(self.address.as_str());
        url.append(":");
        push_signed_decimal(&mut url, self.port as i64);
        url
    }
}

} // verus!
