//! The configuration: server address, input buses, client identity.

use vstd::prelude::*;
use vstd::string::StringExecFns;
use crate::table::Table;
use crate::text::{decimal, push_decimal};

verus! {

/// Where the consumer-facing server listens.
pub struct WebConfig {
    pub host: String,
    pub port: u16,
}

/// One input bus: its display name and the number of its channels.
pub struct InputConfig {
    pub name: String,
    pub channels: usize,
}

/// The identity under which the audio backend knows this client.
pub struct JackConfig {
    pub client_name: String,
}

/// The whole configuration. The inputs are keyed by the name of the bus.
pub struct Config {
    pub web: WebConfig,
    pub inputs: Table<InputConfig>,
    pub jack: JackConfig,
}

/// The number of channels of an input that states none.
pub fn default_channels() -> (channels: usize)
    ensures
        channels == 2,
{
    2
}

/// The address that a listener binds for `host` and `port`: the host, a
/// colon, and the port in decimal.
pub open spec fn bind_address_text(host: Seq<char>, port: u16) -> Seq<char> {
    host + seq![':'] + decimal(port as nat)
}

impl WebConfig {
    /// The address to bind, as `host:port`.
    pub fn bind_address(&self) -> (address: String)
        ensures
            address@ == bind_address_text(self.host@, self.port),
    {
        let mut address: String = self.host.clone();
        proof {
            reveal_strlit(":");
        }
        address.append(":");
        assert(address@ =~= self.host@ + seq![':']);
        push_decimal(&mut address, self.port as u64);
        address
    }
}

impl Clone for WebConfig {
    fn clone(&self) -> (copy: Self)
        ensures
            copy == *self,
    {
        WebConfig { host: self.host.clone(), port: self.port }
    }
}

impl Clone for InputConfig {
    fn clone(&self) -> (copy: Self)
        ensures
            copy == *self,
    {
        InputConfig { name: self.name.clone(), channels: self.channels }
    }
}

impl Clone for JackConfig {
    fn clone(&self) -> (copy: Self)
        ensures
            copy == *self,
    {
        JackConfig { client_name: self.client_name.clone() }
    }
}

impl Clone for Config {
    fn clone(&self) -> (copy: Self)
        ensures
            copy.web == self.web,
            copy.jack == self.jack,
            copy.inputs.names() == self.inputs.names(),
            copy.inputs.values() == self.inputs.values(),
            copy.inputs@ == self.inputs@,
    {
        let copy = Config {
            web: self.web.clone(),
            inputs: self.inputs.clone(),
            jack: self.jack.clone(),
        };
        assert(copy.inputs.values() =~= self.inputs.values());
        copy
    }
}

impl Default for WebConfig {
    /// The loopback host `::1` and port 5005.
    fn default() -> (web: Self)
        ensures
            web.host@ == "::1"@,
            web.port == 5005,
    {
        WebConfig { host: "::1".to_owned(), port: 5005 }
    }
}

impl Default for JackConfig {
    /// The client name `loudness_meter`.
    fn default() -> (jack: Self)
        ensures
            jack.client_name@ == "loudness_meter"@,
    {
        JackConfig { client_name: "loudness_meter".to_owned() }
    }
}

impl Default for Config {
    /// The default server and client identity, and no input.
    fn default() -> (config: Self)
        ensures
            config.web.host@ == "::1"@,
            config.web.port == 5005,
            config.jack.client_name@ == "loudness_meter"@,
            config.inputs.wf(),
            config.inputs.names() == Seq::<Seq<char>>::empty(),
            config.inputs@ == Map::<Seq<char>, InputConfig>::empty(),
    {
        Config { web: WebConfig::default(), inputs: Table::new(), jack: JackConfig::default() }
    }
}

impl Config {
    /// Whether a bus of this name is configured.
    pub fn has_input(&self, input: &String) -> (known: bool)
        requires
            self.inputs.wf(),
        ensures
            known == self.inputs.names().contains(input@),
            known == self.inputs@.contains_key(input@),
    {
        self.inputs.contains_key(input)
    }
}

/// The file that holds the configuration: the configured path, or
/// `config.json` where none is configured.
pub fn config_path(configured: Option<String>) -> (path: String)
    ensures
        match configured {
            Some(given) => path@ == given@,
            None => path@ == "config.json"@,
        },
{
    match configured {
        Some(given) => given,
        None => "config.json".to_owned(),
    }
}

} // verus!
