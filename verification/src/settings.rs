//! The startup configuration for the networked record store.
//!
//! The store's runtime asks for one configuration value at a time, by a
//! string key. The table of values is fixed but for the five store and key
//! file paths, which live under the application directory. An unknown key is
//! an error.

use vstd::prelude::*;

use crate::config::app_dir_of;
use crate::config::get_veilid_block_store_path;
use crate::config::get_veilid_certfile_path;
use crate::config::get_veilid_keyfile_path;
use crate::config::get_veilid_protected_store_path;
use crate::config::get_veilid_table_store_path;
use crate::error::Error;

verus! {

/// One configuration value, as plain data. The caller turns it into
/// whatever dynamic form the store's runtime wants.
#[derive(Debug)]
pub enum ConfigValue {
    /// A text value.
    Text(String),
    /// A boolean switch.
    Flag(bool),
    /// A 32-bit count or duration.
    U32(u32),
    /// An 8-bit count.
    U8(u8),
    /// An optional text value, absent in every entry of this table.
    OptionalText(Option<String>),
    /// An optional 32-bit value.
    OptionalU32(Option<u32>),
    /// A list of text values.
    TextList(Vec<String>),
    /// An empty list of disabled capability codes.
    CapabilityList,
    /// A fresh, empty group of node keys.
    KeyGroup,
    /// A fresh, empty group of node secrets.
    SecretGroup,
}

/// The mathematical model of a [`ConfigValue`].
pub enum ConfigValueV {
    Text(Seq<char>),
    Flag(bool),
    U32(u32),
    U8(u8),
    OptionalText(Option<Seq<char>>),
    OptionalU32(Option<u32>),
    TextList(Seq<Seq<char>>),
    CapabilityList,
    KeyGroup,
    SecretGroup,
}

impl View for ConfigValue {
    type V = ConfigValueV;

    open spec fn view(&self) -> ConfigValueV {
        match self {
            ConfigValue::Text(s) => ConfigValueV::Text(s@),
            ConfigValue::Flag(b) => ConfigValueV::Flag(*b),
            ConfigValue::U32(n) => ConfigValueV::U32(*n),
            ConfigValue::U8(n) => ConfigValueV::U8(*n),
            ConfigValue::OptionalText(o) => ConfigValueV::OptionalText(
                match o {
                    Option::Some(s) => Option::Some(s@),
                    Option::None => Option::None,
                },
            ),
            ConfigValue::OptionalU32(o) => ConfigValueV::OptionalU32(*o),
            ConfigValue::TextList(v) => ConfigValueV::TextList(v.deep_view()),
            ConfigValue::CapabilityList => ConfigValueV::CapabilityList,
            ConfigValue::KeyGroup => ConfigValueV::KeyGroup,
            ConfigValue::SecretGroup => ConfigValueV::SecretGroup,
        }
    }
}

/// Whether two texts hold the same characters.
fn key_is(key: &str, name: &str) -> (b: bool)
    ensures
        b == (key@ == name@),
{
    let a = String::from_str(key);
    let b = String::from_str(name);
    a == b
}

/// The application's own settings and its store settings, except the store paths.
pub open spec fn spec_core_config(key: Seq<char>) -> Option<ConfigValueV> {
    if key == "program_name"@ {
        Option::Some(ConfigValueV::Text("bote"@))
    } else if key == "namespace"@ {
        Option::Some(ConfigValueV::Text(""@))
    } else if key == "capabilities.disable"@ {
        Option::Some(ConfigValueV::CapabilityList)
    } else if key == "table_store.delete"@ {
        Option::Some(ConfigValueV::Flag(false))
    } else if key == "block_store.delete"@ {
        Option::Some(ConfigValueV::Flag(false))
    } else if key == "protected_store.allow_insecure_fallback"@ {
        Option::Some(ConfigValueV::Flag(true))
    } else if key == "protected_store.always_use_insecure_storage"@ {
        Option::Some(ConfigValueV::Flag(false))
    } else if key == "protected_store.delete"@ {
        Option::Some(ConfigValueV::Flag(false))
    } else if key == "protected_store.device_encryption_key_password"@ {
        Option::Some(ConfigValueV::Text(""@))
    } else if key == "protected_store.new_device_encryption_key_password"@ {
        Option::Some(ConfigValueV::OptionalText(Option::None))
    } else {
        Option::None
    }
}

/// The application's own settings and its store settings, except the store paths.
fn core_config(key: &str) -> (r: Option<ConfigValue>)
    ensures
        match r {
            Option::Some(v) => spec_core_config(key@) == Option::Some(v@),
            Option::None => spec_core_config(key@) is None,
        },
{
    if key_is(key, "program_name") {
        Some(ConfigValue::Text(String::from_str("bote")))
    } else if key_is(key, "namespace") {
        Some(ConfigValue::Text(String::from_str("")))
    } else if key_is(key, "capabilities.disable") {
        Some(ConfigValue::CapabilityList)
    } else if key_is(key, "table_store.delete") {
        Some(ConfigValue::Flag(false))
    } else if key_is(key, "block_store.delete") {
        Some(ConfigValue::Flag(false))
    } else if key_is(key, "protected_store.allow_insecure_fallback") {
        Some(ConfigValue::Flag(true))
    } else if key_is(key, "protected_store.always_use_insecure_storage") {
        Some(ConfigValue::Flag(false))
    } else if key_is(key, "protected_store.delete") {
        Some(ConfigValue::Flag(false))
    } else if key_is(key, "protected_store.device_encryption_key_password") {
        Some(ConfigValue::Text(String::from_str("")))
    } else if key_is(key, "protected_store.new_device_encryption_key_password") {
        Some(ConfigValue::OptionalText(None))
    } else {
        None
    }
}

/// The general network settings.
pub open spec fn spec_network_config(key: Seq<char>) -> Option<ConfigValueV> {
    if key == "network.connection_initial_timeout_ms"@ {
        Option::Some(ConfigValueV::U32(2_000u32))
    } else if key == "network.connection_inactivity_timeout_ms"@ {
        Option::Some(ConfigValueV::U32(60_000u32))
    } else if key == "network.max_connections_per_ip4"@ {
        Option::Some(ConfigValueV::U32(8u32))
    } else if key == "network.max_connections_per_ip6_prefix"@ {
        Option::Some(ConfigValueV::U32(8u32))
    } else if key == "network.max_connections_per_ip6_prefix_size"@ {
        Option::Some(ConfigValueV::U32(56u32))
    } else if key == "network.max_connection_frequency_per_min"@ {
        Option::Some(ConfigValueV::U32(8u32))
    } else if key == "network.client_whitelist_timeout_ms"@ {
        Option::Some(ConfigValueV::U32(300_000u32))
    } else if key == "network.reverse_connection_receipt_time_ms"@ {
        Option::Some(ConfigValueV::U32(5_000u32))
    } else if key == "network.hole_punch_receipt_time_ms"@ {
        Option::Some(ConfigValueV::U32(5_000u32))
    } else if key == "network.network_key_password"@ {
        Option::Some(ConfigValueV::OptionalText(Option::None))
    } else if key == "network.upnp"@ {
        Option::Some(ConfigValueV::Flag(true))
    } else if key == "network.detect_address_changes"@ {
        Option::Some(ConfigValueV::Flag(true))
    } else if key == "network.restricted_nat_retries"@ {
        Option::Some(ConfigValueV::U32(3u32))
    } else {
        Option::None
    }
}

/// The general network settings.
fn network_config(key: &str) -> (r: Option<ConfigValue>)
    ensures
        match r {
            Option::Some(v) => spec_network_config(key@) == Option::Some(v@),
            Option::None => spec_network_config(key@) is None,
        },
{
    if key_is(key, "network.connection_initial_timeout_ms") {
        Some(ConfigValue::U32(2_000u32))
    } else if key_is(key, "network.connection_inactivity_timeout_ms") {
        Some(ConfigValue::U32(60_000u32))
    } else if key_is(key, "network.max_connections_per_ip4") {
        Some(ConfigValue::U32(8u32))
    } else if key_is(key, "network.max_connections_per_ip6_prefix") {
        Some(ConfigValue::U32(8u32))
    } else if key_is(key, "network.max_connections_per_ip6_prefix_size") {
        Some(ConfigValue::U32(56u32))
    } else if key_is(key, "network.max_connection_frequency_per_min") {
        Some(ConfigValue::U32(8u32))
    } else if key_is(key, "network.client_whitelist_timeout_ms") {
        Some(ConfigValue::U32(300_000u32))
    } else if key_is(key, "network.reverse_connection_receipt_time_ms") {
        Some(ConfigValue::U32(5_000u32))
    } else if key_is(key, "network.hole_punch_receipt_time_ms") {
        Some(ConfigValue::U32(5_000u32))
    } else if key_is(key, "network.network_key_password") {
        Some(ConfigValue::OptionalText(None))
    } else if key_is(key, "network.upnp") {
        Some(ConfigValue::Flag(true))
    } else if key_is(key, "network.detect_address_changes") {
        Some(ConfigValue::Flag(true))
    } else if key_is(key, "network.restricted_nat_retries") {
        Some(ConfigValue::U32(3u32))
    } else {
        None
    }
}

/// The routing-table and remote-procedure-call settings.
pub open spec fn spec_routing_rpc_config(key: Seq<char>) -> Option<ConfigValueV> {
    if key == "network.routing_table.node_id"@ {
        Option::Some(ConfigValueV::KeyGroup)
    } else if key == "network.routing_table.node_id_secret"@ {
        Option::Some(ConfigValueV::SecretGroup)
    } else if key == "network.routing_table.bootstrap"@ {
        Option::Some(ConfigValueV::TextList(seq!["bootstrap.veilid.net"@]))
    } else if key == "network.routing_table.limit_over_attached"@ {
        Option::Some(ConfigValueV::U32(64u32))
    } else if key == "network.routing_table.limit_fully_attached"@ {
        Option::Some(ConfigValueV::U32(32u32))
    } else if key == "network.routing_table.limit_attached_strong"@ {
        Option::Some(ConfigValueV::U32(16u32))
    } else if key == "network.routing_table.limit_attached_good"@ {
        Option::Some(ConfigValueV::U32(8u32))
    } else if key == "network.routing_table.limit_attached_weak"@ {
        Option::Some(ConfigValueV::U32(4u32))
    } else if key == "network.rpc.concurrency"@ {
        Option::Some(ConfigValueV::U32(2u32))
    } else if key == "network.rpc.queue_size"@ {
        Option::Some(ConfigValueV::U32(1024u32))
    } else if key == "network.rpc.max_timestamp_behind_ms"@ {
        Option::Some(ConfigValueV::OptionalU32(Option::Some(10_000u32)))
    } else if key == "network.rpc.max_timestamp_ahead_ms"@ {
        Option::Some(ConfigValueV::OptionalU32(Option::Some(10_000u32)))
    } else if key == "network.rpc.timeout_ms"@ {
        Option::Some(ConfigValueV::U32(5_000u32))
    } else if key == "network.rpc.max_route_hop_count"@ {
        Option::Some(ConfigValueV::U8(4u8))
    } else if key == "network.rpc.default_route_hop_count"@ {
        Option::Some(ConfigValueV::U8(1u8))
    } else {
        Option::None
    }
}

/// The routing-table and remote-procedure-call settings.
fn routing_rpc_config(key: &str) -> (r: Option<ConfigValue>)
    ensures
        match r {
            Option::Some(v) => spec_routing_rpc_config(key@) == Option::Some(v@),
            Option::None => spec_routing_rpc_config(key@) is None,
        },
{
    if key_is(key, "network.routing_table.node_id") {
        Some(ConfigValue::KeyGroup)
    } else if key_is(key, "network.routing_table.node_id_secret") {
        Some(ConfigValue::SecretGroup)
    } else if key_is(key, "network.routing_table.bootstrap") {
        let items = vec![String::from_str("bootstrap.veilid.net")];
        proof {
            assert(items.deep_view() =~= seq!["bootstrap.veilid.net"@]);
        }
        Some(ConfigValue::TextList(items))
    } else if key_is(key, "network.routing_table.limit_over_attached") {
        Some(ConfigValue::U32(64u32))
    } else if key_is(key, "network.routing_table.limit_fully_attached") {
        Some(ConfigValue::U32(32u32))
    } else if key_is(key, "network.routing_table.limit_attached_strong") {
        Some(ConfigValue::U32(16u32))
    } else if key_is(key, "network.routing_table.limit_attached_good") {
        Some(ConfigValue::U32(8u32))
    } else if key_is(key, "network.routing_table.limit_attached_weak") {
        Some(ConfigValue::U32(4u32))
    } else if key_is(key, "network.rpc.concurrency") {
        Some(ConfigValue::U32(2u32))
    } else if key_is(key, "network.rpc.queue_size") {
        Some(ConfigValue::U32(1024u32))
    } else if key_is(key, "network.rpc.max_timestamp_behind_ms") {
        Some(ConfigValue::OptionalU32(Some(10_000u32)))
    } else if key_is(key, "network.rpc.max_timestamp_ahead_ms") {
        Some(ConfigValue::OptionalU32(Some(10_000u32)))
    } else if key_is(key, "network.rpc.timeout_ms") {
        Some(ConfigValue::U32(5_000u32))
    } else if key_is(key, "network.rpc.max_route_hop_count") {
        Some(ConfigValue::U8(4u8))
    } else if key_is(key, "network.rpc.default_route_hop_count") {
        Some(ConfigValue::U8(1u8))
    } else {
        None
    }
}

/// The distributed-hash-table settings.
pub open spec fn spec_dht_config(key: Seq<char>) -> Option<ConfigValueV> {
    if key == "network.dht.max_find_node_count"@ {
        Option::Some(ConfigValueV::U32(20u32))
    } else if key == "network.dht.resolve_node_timeout_ms"@ {
        Option::Some(ConfigValueV::U32(10_000u32))
    } else if key == "network.dht.resolve_node_count"@ {
        Option::Some(ConfigValueV::U32(1u32))
    } else if key == "network.dht.resolve_node_fanout"@ {
        Option::Some(ConfigValueV::U32(4u32))
    } else if key == "network.dht.get_value_timeout_ms"@ {
        Option::Some(ConfigValueV::U32(10_000u32))
    } else if key == "network.dht.get_value_count"@ {
        Option::Some(ConfigValueV::U32(3u32))
    } else if key == "network.dht.get_value_fanout"@ {
        Option::Some(ConfigValueV::U32(4u32))
    } else if key == "network.dht.set_value_timeout_ms"@ {
        Option::Some(ConfigValueV::U32(10_000u32))
    } else if key == "network.dht.set_value_count"@ {
        Option::Some(ConfigValueV::U32(5u32))
    } else if key == "network.dht.set_value_fanout"@ {
        Option::Some(ConfigValueV::U32(4u32))
    } else if key == "network.dht.min_peer_count"@ {
        Option::Some(ConfigValueV::U32(20u32))
    } else if key == "network.dht.min_peer_refresh_time_ms"@ {
        Option::Some(ConfigValueV::U32(60_000u32))
    } else if key == "network.dht.validate_dial_info_receipt_time_ms"@ {
        Option::Some(ConfigValueV::U32(5_000u32))
    } else if key == "network.dht.local_subkey_cache_size"@ {
        Option::Some(ConfigValueV::U32(128u32))
    } else if key == "network.dht.local_max_subkey_cache_memory_mb"@ {
        Option::Some(ConfigValueV::U32(256u32))
    } else if key == "network.dht.remote_subkey_cache_size"@ {
        Option::Some(ConfigValueV::U32(1024u32))
    } else if key == "network.dht.remote_max_records"@ {
        Option::Some(ConfigValueV::U32(4096u32))
    } else if key == "network.dht.remote_max_subkey_cache_memory_mb"@ {
        Option::Some(ConfigValueV::U32(64u32))
    } else if key == "network.dht.remote_max_storage_space_mb"@ {
        Option::Some(ConfigValueV::U32(64u32))
    } else {
        Option::None
    }
}

/// The distributed-hash-table settings.
fn dht_config(key: &str) -> (r: Option<ConfigValue>)
    ensures
        match r {
            Option::Some(v) => spec_dht_config(key@) == Option::Some(v@),
            Option::None => spec_dht_config(key@) is None,
        },
{
    if key_is(key, "network.dht.max_find_node_count") {
        Some(ConfigValue::U32(20u32))
    } else if key_is(key, "network.dht.resolve_node_timeout_ms") {
        Some(ConfigValue::U32(10_000u32))
    } else if key_is(key, "network.dht.resolve_node_count") {
        Some(ConfigValue::U32(1u32))
    } else if key_is(key, "network.dht.resolve_node_fanout") {
        Some(ConfigValue::U32(4u32))
    } else if key_is(key, "network.dht.get_value_timeout_ms") {
        Some(ConfigValue::U32(10_000u32))
    } else if key_is(key, "network.dht.get_value_count") {
        Some(ConfigValue::U32(3u32))
    } else if key_is(key, "network.dht.get_value_fanout") {
        Some(ConfigValue::U32(4u32))
    } else if key_is(key, "network.dht.set_value_timeout_ms") {
        Some(ConfigValue::U32(10_000u32))
    } else if key_is(key, "network.dht.set_value_count") {
        Some(ConfigValue::U32(5u32))
    } else if key_is(key, "network.dht.set_value_fanout") {
        Some(ConfigValue::U32(4u32))
    } else if key_is(key, "network.dht.min_peer_count") {
        Some(ConfigValue::U32(20u32))
    } else if key_is(key, "network.dht.min_peer_refresh_time_ms") {
        Some(ConfigValue::U32(60_000u32))
    } else if key_is(key, "network.dht.validate_dial_info_receipt_time_ms") {
        Some(ConfigValue::U32(5_000u32))
    } else if key_is(key, "network.dht.local_subkey_cache_size") {
        Some(ConfigValue::U32(128u32))
    } else if key_is(key, "network.dht.local_max_subkey_cache_memory_mb") {
        Some(ConfigValue::U32(256u32))
    } else if key_is(key, "network.dht.remote_subkey_cache_size") {
        Some(ConfigValue::U32(1024u32))
    } else if key_is(key, "network.dht.remote_max_records") {
        Some(ConfigValue::U32(4096u32))
    } else if key_is(key, "network.dht.remote_max_subkey_cache_memory_mb") {
        Some(ConfigValue::U32(64u32))
    } else if key_is(key, "network.dht.remote_max_storage_space_mb") {
        Some(ConfigValue::U32(64u32))
    } else {
        None
    }
}

/// The application-facing web endpoint settings.
pub open spec fn spec_application_config(key: Seq<char>) -> Option<ConfigValueV> {
    if key == "network.application.https.enabled"@ {
        Option::Some(ConfigValueV::Flag(false))
    } else if key == "network.application.https.listen_address"@ {
        Option::Some(ConfigValueV::Text(""@))
    } else if key == "network.application.https.path"@ {
        Option::Some(ConfigValueV::Text("app"@))
    } else if key == "network.application.https.url"@ {
        Option::Some(ConfigValueV::OptionalText(Option::None))
    } else if key == "network.application.http.enabled"@ {
        Option::Some(ConfigValueV::Flag(false))
    } else if key == "network.application.http.listen_address"@ {
        Option::Some(ConfigValueV::Text(""@))
    } else if key == "network.application.http.path"@ {
        Option::Some(ConfigValueV::Text("app"@))
    } else if key == "network.application.http.url"@ {
        Option::Some(ConfigValueV::OptionalText(Option::None))
    } else {
        Option::None
    }
}

/// The application-facing web endpoint settings.
fn application_config(key: &str) -> (r: Option<ConfigValue>)
    ensures
        match r {
            Option::Some(v) => spec_application_config(key@) == Option::Some(v@),
            Option::None => spec_application_config(key@) is None,
        },
{
    if key_is(key, "network.application.https.enabled") {
        Some(ConfigValue::Flag(false))
    } else if key_is(key, "network.application.https.listen_address") {
        Some(ConfigValue::Text(String::from_str("")))
    } else if key_is(key, "network.application.https.path") {
        Some(ConfigValue::Text(String::from_str("app")))
    } else if key_is(key, "network.application.https.url") {
        Some(ConfigValue::OptionalText(None))
    } else if key_is(key, "network.application.http.enabled") {
        Some(ConfigValue::Flag(false))
    } else if key_is(key, "network.application.http.listen_address") {
        Some(ConfigValue::Text(String::from_str("")))
    } else if key_is(key, "network.application.http.path") {
        Some(ConfigValue::Text(String::from_str("app")))
    } else if key_is(key, "network.application.http.url") {
        Some(ConfigValue::OptionalText(None))
    } else {
        None
    }
}

/// The per-protocol transport settings.
pub open spec fn spec_protocol_config(key: Seq<char>) -> Option<ConfigValueV> {
    if key == "network.protocol.udp.enabled"@ {
        Option::Some(ConfigValueV::Flag(true))
    } else if key == "network.protocol.udp.socket_pool_size"@ {
        Option::Some(ConfigValueV::U32(16u32))
    } else if key == "network.protocol.udp.listen_address"@ {
        Option::Some(ConfigValueV::Text(""@))
    } else if key == "network.protocol.udp.public_address"@ {
        Option::Some(ConfigValueV::OptionalText(Option::None))
    } else if key == "network.protocol.tcp.connect"@ {
        Option::Some(ConfigValueV::Flag(true))
    } else if key == "network.protocol.tcp.listen"@ {
        Option::Some(ConfigValueV::Flag(true))
    } else if key == "network.protocol.tcp.max_connections"@ {
        Option::Some(ConfigValueV::U32(32u32))
    } else if key == "network.protocol.tcp.listen_address"@ {
        Option::Some(ConfigValueV::Text(""@))
    } else if key == "network.protocol.tcp.public_address"@ {
        Option::Some(ConfigValueV::OptionalText(Option::None))
    } else if key == "network.protocol.ws.connect"@ {
        Option::Some(ConfigValueV::Flag(false))
    } else if key == "network.protocol.ws.listen"@ {
        Option::Some(ConfigValueV::Flag(false))
    } else if key == "network.protocol.ws.max_connections"@ {
        Option::Some(ConfigValueV::U32(16u32))
    } else if key == "network.protocol.ws.listen_address"@ {
        Option::Some(ConfigValueV::Text(""@))
    } else if key == "network.protocol.ws.path"@ {
        Option::Some(ConfigValueV::Text("ws"@))
    } else if key == "network.protocol.ws.url"@ {
        Option::Some(ConfigValueV::OptionalText(Option::None))
    } else if key == "network.protocol.wss.connect"@ {
        Option::Some(ConfigValueV::Flag(false))
    } else if key == "network.protocol.wss.listen"@ {
        Option::Some(ConfigValueV::Flag(false))
    } else if key == "network.protocol.wss.max_connections"@ {
        Option::Some(ConfigValueV::U32(16u32))
    } else if key == "network.protocol.wss.listen_address"@ {
        Option::Some(ConfigValueV::Text(""@))
    } else if key == "network.protocol.wss.path"@ {
        Option::Some(ConfigValueV::Text("ws"@))
    } else if key == "network.protocol.wss.url"@ {
        Option::Some(ConfigValueV::OptionalText(Option::None))
    } else {
        Option::None
    }
}

/// The per-protocol transport settings.
fn protocol_config(key: &str) -> (r: Option<ConfigValue>)
    ensures
        match r {
            Option::Some(v) => spec_protocol_config(key@) == Option::Some(v@),
            Option::None => spec_protocol_config(key@) is None,
        },
{
    if key_is(key, "network.protocol.udp.enabled") {
        Some(ConfigValue::Flag(true))
    } else if key_is(key, "network.protocol.udp.socket_pool_size") {
        Some(ConfigValue::U32(16u32))
    } else if key_is(key, "network.protocol.udp.listen_address") {
        Some(ConfigValue::Text(String::from_str("")))
    } else if key_is(key, "network.protocol.udp.public_address") {
        Some(ConfigValue::OptionalText(None))
    } else if key_is(key, "network.protocol.tcp.connect") {
        Some(ConfigValue::Flag(true))
    } else if key_is(key, "network.protocol.tcp.listen") {
        Some(ConfigValue::Flag(true))
    } else if key_is(key, "network.protocol.tcp.max_connections") {
        Some(ConfigValue::U32(32u32))
    } else if key_is(key, "network.protocol.tcp.listen_address") {
        Some(ConfigValue::Text(String::from_str("")))
    } else if key_is(key, "network.protocol.tcp.public_address") {
        Some(ConfigValue::OptionalText(None))
    } else if key_is(key, "network.protocol.ws.connect") {
        Some(ConfigValue::Flag(false))
    } else if key_is(key, "network.protocol.ws.listen") {
        Some(ConfigValue::Flag(false))
    } else if key_is(key, "network.protocol.ws.max_connections") {
        Some(ConfigValue::U32(16u32))
    } else if key_is(key, "network.protocol.ws.listen_address") {
        Some(ConfigValue::Text(String::from_str("")))
    } else if key_is(key, "network.protocol.ws.path") {
        Some(ConfigValue::Text(String::from_str("ws")))
    } else if key_is(key, "network.protocol.ws.url") {
        Some(ConfigValue::OptionalText(None))
    } else if key_is(key, "network.protocol.wss.connect") {
        Some(ConfigValue::Flag(false))
    } else if key_is(key, "network.protocol.wss.listen") {
        Some(ConfigValue::Flag(false))
    } else if key_is(key, "network.protocol.wss.max_connections") {
        Some(ConfigValue::U32(16u32))
    } else if key_is(key, "network.protocol.wss.listen_address") {
        Some(ConfigValue::Text(String::from_str("")))
    } else if key_is(key, "network.protocol.wss.path") {
        Some(ConfigValue::Text(String::from_str("ws")))
    } else if key_is(key, "network.protocol.wss.url") {
        Some(ConfigValue::OptionalText(None))
    } else {
        None
    }
}


/// The full table of fixed configuration values: the value a key stands
/// for, or nothing for the five path keys and for unknown keys.
pub open spec fn spec_static_config(key: Seq<char>) -> Option<ConfigValueV> {
    if spec_core_config(key) is Some {
        spec_core_config(key)
    } else if spec_network_config(key) is Some {
        spec_network_config(key)
    } else if spec_routing_rpc_config(key) is Some {
        spec_routing_rpc_config(key)
    } else if spec_dht_config(key) is Some {
        spec_dht_config(key)
    } else if spec_application_config(key) is Some {
        spec_application_config(key)
    } else {
        spec_protocol_config(key)
    }
}

/// Looks a key up in the full table of fixed configuration values.
fn static_config(key: &str) -> (r: Option<ConfigValue>)
    ensures
        match r {
            Option::Some(v) => spec_static_config(key@) == Option::Some(v@),
            Option::None => spec_static_config(key@) is None,
        },
{
    match core_config(key) {
        Some(v) => Some(v),
        None => match network_config(key) {
            Some(v) => Some(v),
            None => match routing_rpc_config(key) {
                Some(v) => Some(v),
                None => match dht_config(key) {
                    Some(v) => Some(v),
                    None => match application_config(key) {
                        Some(v) => Some(v),
                        None => protocol_config(key),
                    },
                },
            },
        },
    }
}

/// The suffix under the application directory that a path-valued
/// configuration key points at, or nothing for every other key.
pub open spec fn spec_path_suffix(key: Seq<char>) -> Option<Seq<char>> {
    if key == "table_store.directory"@ {
        Option::Some("/table_store"@)
    } else if key == "block_store.directory"@ {
        Option::Some("/block_store"@)
    } else if key == "protected_store.directory"@ {
        Option::Some("/protected_store"@)
    } else if key == "network.tls.certificate_path"@ {
        Option::Some("/certfile"@)
    } else if key == "network.tls.private_key_path"@ {
        Option::Some("/keyfile"@)
    } else {
        Option::None
    }
}

/// Returns the configuration value for one key of the networked record
/// store's startup configuration.
///
/// A key of the fixed table gets its fixed value. The five path-valued keys
/// get the matching path under the application directory, or the error of
/// finding the home directory. Any other key is reported as not found, with
/// the key itself as what is missing.
pub fn config_callback(key: String) -> (r: Result<ConfigValue, Error>)
    ensures
        spec_static_config(key@) matches Some(cv) ==> (r matches Ok(v) && v@ == cv),
        spec_path_suffix(key@) matches Some(suffix) ==> (spec_static_config(key@) is None
            ==> match r {
            Result::Ok(v) => v@ matches ConfigValueV::Text(p) && exists|h: Seq<char>|
                p == app_dir_of(h) + suffix,
            Result::Err(e) => e is HomeDir || e is Conversion,
        }),
        (spec_static_config(key@) is None && spec_path_suffix(key@) is None) ==> (r matches Err(e)
            && e matches Error::NotFound { whats_missing } && whats_missing@ == key@),
        r is Ok ==> (spec_static_config(key@) is Some || spec_path_suffix(key@) is Some),
{
    if let Some(v) = static_config(key.as_str()) {
        return Ok(v);
    }
    if key_is(key.as_str(), "table_store.directory") {
        return match get_veilid_table_store_path() {
            Ok(p) => Ok(ConfigValue::Text(p)),
            Err(e) => Err(e),
        };
    }
    if key_is(key.as_str(), "block_store.directory") {
        return match get_veilid_block_store_path() {
            Ok(p) => Ok(ConfigValue::Text(p)),
            Err(e) => Err(e),
        };
    }
    if key_is(key.as_str(), "protected_store.directory") {
        return match get_veilid_protected_store_path() {
            Ok(p) => Ok(ConfigValue::Text(p)),
            Err(e) => Err(e),
        };
    }
    if key_is(key.as_str(), "network.tls.certificate_path") {
        return match get_veilid_certfile_path() {
            Ok(p) => Ok(ConfigValue::Text(p)),
            Err(e) => Err(e),
        };
    }
    if key_is(key.as_str(), "network.tls.private_key_path") {
        return match get_veilid_keyfile_path() {
            Ok(p) => Ok(ConfigValue::Text(p)),
            Err(e) => Err(e),
        };
    }
    Err(Error::NotFound { whats_missing: key })
}

} // verus!
