use bote::config::app_directory_from_home;
use bote::config::get_app_directory;
use bote::config::get_cache_directory;
use bote::config::get_veilid_table_store_path;
use bote::error::Error;
use bote::settings::config_callback;
use bote::settings::ConfigValue;

#[test]
fn the_app_directory_hangs_off_the_home_directory() {
    assert_eq!(app_directory_from_home("/home/u"), "/home/u/.bote".to_string());
}

#[test]
fn the_app_directory_matches_the_host_home_directory() {
    let home = match home::home_dir() {
        Some(p) => match p.to_str() {
            Some(s) => s.to_string(),
            None => return,
        },
        None => return,
    };
    let dir = get_app_directory().unwrap();
    assert_eq!(dir, format!("{}/.bote", home));
    let table = get_veilid_table_store_path().unwrap();
    assert_eq!(table, format!("{}/.bote/table_store", home));
    let cache = get_cache_directory().unwrap();
    assert_eq!(cache, format!("{}/.bote/.cache", home));
}

#[test]
fn fixed_configuration_keys_get_their_fixed_values() {
    match config_callback("program_name".to_string()) {
        Ok(ConfigValue::Text(s)) => assert_eq!(s, "bote".to_string()),
        other => panic!("expected the program name, got {:?}", other),
    }
    match config_callback("network.rpc.queue_size".to_string()) {
        Ok(ConfigValue::U32(n)) => assert_eq!(n, 1024),
        other => panic!("expected a count, got {:?}", other),
    }
    match config_callback("network.rpc.max_route_hop_count".to_string()) {
        Ok(ConfigValue::U8(n)) => assert_eq!(n, 4),
        other => panic!("expected a count, got {:?}", other),
    }
    match config_callback("network.upnp".to_string()) {
        Ok(ConfigValue::Flag(b)) => assert!(b),
        other => panic!("expected a flag, got {:?}", other),
    }
    match config_callback("network.routing_table.bootstrap".to_string()) {
        Ok(ConfigValue::TextList(v)) => {
            assert_eq!(v, vec!["bootstrap.veilid.net".to_string()]);
        }
        other => panic!("expected the bootstrap list, got {:?}", other),
    }
    match config_callback("network.rpc.max_timestamp_behind_ms".to_string()) {
        Ok(ConfigValue::OptionalU32(o)) => assert_eq!(o, Some(10_000)),
        other => panic!("expected an optional count, got {:?}", other),
    }
    match config_callback("protected_store.new_device_encryption_key_password".to_string()) {
        Ok(ConfigValue::OptionalText(o)) => assert!(o.is_none()),
        other => panic!("expected an absent text, got {:?}", other),
    }
}

#[test]
fn path_configuration_keys_point_under_the_app_directory() {
    let home = match home::home_dir() {
        Some(p) => match p.to_str() {
            Some(s) => s.to_string(),
            None => return,
        },
        None => return,
    };
    match config_callback("table_store.directory".to_string()) {
        Ok(ConfigValue::Text(p)) => assert_eq!(p, format!("{}/.bote/table_store", home)),
        other => panic!("expected a path, got {:?}", other),
    }
    match config_callback("network.tls.private_key_path".to_string()) {
        Ok(ConfigValue::Text(p)) => assert_eq!(p, format!("{}/.bote/keyfile", home)),
        other => panic!("expected a path, got {:?}", other),
    }
}

#[test]
fn an_unknown_configuration_key_is_not_found() {
    match config_callback("no.such.key".to_string()) {
        Err(Error::NotFound { whats_missing }) => {
            assert_eq!(whats_missing, "no.such.key".to_string());
        }
        other => panic!("expected a not-found error, got {:?}", other),
    }
}

#[test]
fn error_messages_read_like_sentences() {
    let e = Error::HomeDir;
    assert_eq!(
        e.message(),
        "failed to access or find the home directory".to_string()
    );
    let e = Error::Conversion { from: "PathBuf".to_string(), into: "&str".to_string() };
    assert_eq!(e.message(), "failed to convert PathBuf into &str".to_string());
    let e = Error::NotFound { whats_missing: "curl".to_string() };
    assert_eq!(e.message(), "curl does not exist".to_string());
}
