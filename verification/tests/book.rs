use punch::auth::{contains_key, AuthorizationManager};
use punch::config::{
    default_max_connections, default_port_range, default_retries, default_timeout, ClientConfig,
    ClientSettings, ConfigError, ConfigManager, Configuration, Host, ServerConfig, ServerSettings,
};
use punch::hosts::{check_host_name, HostError, HostManager, NameCheck};
use punch::identity::NodeIdentity;
use std::path::PathBuf;

fn id(b: u8) -> NodeIdentity {
    NodeIdentity::new([b; 32])
}

fn server_config(keys: Vec<NodeIdentity>, min: u16, max: u16) -> ServerConfig {
    ServerConfig {
        authorized_keys: keys,
        settings: ServerSettings { max_connections: 100, allowed_ports: (min, max) },
    }
}

fn auth() -> AuthorizationManager {
    AuthorizationManager::new(ConfigManager::with_base_path(PathBuf::from("/tmp/punch")))
}

fn hosts() -> HostManager {
    HostManager::new(ConfigManager::with_base_path(PathBuf::from("/tmp/punch")))
}

fn book(entries: &[(&str, u8)]) -> ClientConfig {
    let mut config = <ClientConfig as Configuration>::default();
    for (name, b) in entries {
        config.hosts.push(Host::new(name.to_string(), id(*b), 1000));
    }
    config
}

#[test]
fn defaults_are_as_documented() {
    assert_eq!(default_max_connections(), 100);
    assert_eq!(default_port_range(), (1024, 65535));
    assert_eq!(default_timeout(), 30);
    assert_eq!(default_retries(), 5);
    let s = ServerSettings::default();
    assert_eq!(s.max_connections, 100);
    assert_eq!(s.allowed_ports, (1024, 65535));
    let c = ClientSettings::default();
    assert_eq!(c.connection_timeout, 30);
    assert_eq!(c.max_retries, 5);
    let server = <ServerConfig as Configuration>::default();
    assert!(server.authorized_keys.is_empty());
    assert_eq!(server.settings, s);
    assert_eq!(server.validate(), Ok(()));
    let client = <ClientConfig as Configuration>::default();
    assert!(client.hosts.is_empty());
    assert_eq!(client.settings, c);
    assert_eq!(client.validate(), Ok(()));
}

#[test]
fn config_file_names() {
    assert_eq!(<ServerConfig as Configuration>::filename(), "server.toml");
    assert_eq!(<ClientConfig as Configuration>::filename(), "client.toml");
}

#[test]
fn config_path_joins_the_file_name() {
    let m = ConfigManager::with_base_path(PathBuf::from("/home/u/.punch"));
    assert_eq!(m.config_path("server.toml"), PathBuf::from("/home/u/.punch/server.toml"));
    assert_eq!(m.config_path("client.toml"), PathBuf::from("/home/u/.punch").join("client.toml"));
    assert_ne!(m.config_path("client.toml"), PathBuf::from("/home/u/.punch"));
}

#[test]
fn server_config_accepts_sound_ranges() {
    assert_eq!(server_config(vec![], 1024, 65535).validate(), Ok(()));
    assert_eq!(server_config(vec![], 1024, 1024).validate(), Ok(()));
    assert_eq!(server_config(vec![], 2000, 3000).validate(), Ok(()));
    assert_eq!(server_config(vec![], 65535, 65535).validate(), Ok(()));
}

#[test]
fn server_config_rejects_min_above_max() {
    assert_eq!(server_config(vec![], 3000, 2000).validate(), Err(ConfigError::InvalidPortRange));
    assert_eq!(server_config(vec![], 500, 100).validate(), Err(ConfigError::InvalidPortRange));
}

#[test]
fn server_config_rejects_min_below_1024() {
    assert_eq!(server_config(vec![], 1023, 65535).validate(), Err(ConfigError::PrivilegedPort));
    assert_eq!(server_config(vec![], 0, 65535).validate(), Err(ConfigError::PrivilegedPort));
    assert_eq!(server_config(vec![], 80, 80).validate(), Err(ConfigError::PrivilegedPort));
}

#[test]
fn client_config_rejects_repeated_names() {
    let config = book(&[("a", 1), ("b", 2), ("c", 3), ("b", 4), ("a", 5)]);
    assert_eq!(
        config.validate(),
        Err(ConfigError::DuplicateHostName { name: "b".to_string() })
    );
    assert_eq!(book(&[("a", 1), ("b", 2)]).validate(), Ok(()));
    assert_eq!(
        book(&[("a", 1), ("b", 1)]).validate(),
        Err(ConfigError::DuplicateHostIdentity { name: "b".to_string() })
    );
}

#[test]
fn authorize_twice_is_authorize_once() {
    let a = auth();
    let mut once = server_config(vec![id(1)], 1024, 65535);
    assert!(a.authorize(&mut once, id(2)));
    let mut twice = once.clone();
    assert!(!a.authorize(&mut twice, id(2)));
    assert_eq!(once, twice);
    assert_eq!(twice.authorized_keys, vec![id(1), id(2)]);
    assert!(a.is_authorized(&twice, &id(2)));
}

#[test]
fn revoke_is_true_once_then_false() {
    let a = auth();
    let mut config = server_config(vec![id(1), id(2), id(3)], 1024, 65535);
    assert!(a.revoke(&mut config, &id(2)));
    assert_eq!(config.authorized_keys, vec![id(1), id(3)]);
    assert!(!a.is_authorized(&config, &id(2)));
    assert!(!a.revoke(&mut config, &id(2)));
    assert_eq!(config.authorized_keys, vec![id(1), id(3)]);
    assert_eq!(config.settings.allowed_ports, (1024, 65535));
}

#[test]
fn revoke_takes_out_every_copy() {
    let a = auth();
    let mut config = server_config(vec![id(2), id(1), id(2), id(3), id(2)], 1024, 65535);
    assert!(a.revoke(&mut config, &id(2)));
    assert_eq!(config.authorized_keys, vec![id(1), id(3)]);
}

#[test]
fn is_authorized_is_membership() {
    let a = auth();
    let config = server_config(vec![id(1), id(2)], 1024, 65535);
    assert!(a.is_authorized(&config, &id(1)));
    assert!(a.is_authorized(&config, &id(2)));
    assert!(!a.is_authorized(&config, &id(3)));
    assert!(!a.is_authorized(&server_config(vec![], 1024, 65535), &id(1)));
    assert!(contains_key(&config.authorized_keys, &id(2)));
    assert!(!contains_key(&config.authorized_keys, &id(9)));
}

#[test]
fn list_authorized_keeps_order() {
    let a = auth();
    let config = server_config(vec![id(3), id(1), id(2)], 1024, 65535);
    assert_eq!(a.list_authorized(&config), vec![id(3), id(1), id(2)]);
}

#[test]
fn allowed_ports_include_both_ends() {
    let a = auth();
    let config = server_config(vec![], 2000, 3000);
    assert!(a.is_port_allowed(&config, 2000));
    assert!(a.is_port_allowed(&config, 3000));
    assert!(a.is_port_allowed(&config, 2500));
    assert!(!a.is_port_allowed(&config, 1999));
    assert!(!a.is_port_allowed(&config, 3001));
    assert!(!a.is_port_allowed(&config, 80));
    assert!(!a.is_port_allowed(&config, 65535));
}

#[test]
fn add_host_appends() {
    let h = hosts();
    let mut config = book(&[("a", 1)]);
    let r = h.add_host(&mut config, "b".to_string(), id(2), Some("desk".to_string()), 4242);
    assert_eq!(r, Ok(()));
    assert_eq!(config.hosts.len(), 2);
    assert_eq!(
        config.hosts[1],
        Host {
            name: "b".to_string(),
            id: id(2),
            description: Some("desk".to_string()),
            added_at: 4242,
            last_connected: None,
        }
    );
    assert_eq!(config.validate(), Ok(()));
}

#[test]
fn add_host_rejects_a_taken_name() {
    let h = hosts();
    let mut config = book(&[("a", 1)]);
    let before = config.clone();
    let r = h.add_host(&mut config, "a".to_string(), id(2), None, 5);
    assert_eq!(r, Err(HostError::NameExists { name: "a".to_string() }));
    assert_eq!(config, before);
}

#[test]
fn add_host_rejects_a_taken_identity() {
    let h = hosts();
    let mut config = book(&[("a", 1), ("b", 2)]);
    let before = config.clone();
    let r = h.add_host(&mut config, "c".to_string(), id(2), None, 5);
    assert_eq!(r, Err(HostError::IdentityExists { name: "b".to_string() }));
    assert_eq!(config, before);
}

#[test]
fn add_host_reports_the_name_first() {
    let h = hosts();
    let mut config = book(&[("a", 1), ("b", 2)]);
    let r = h.add_host(&mut config, "a".to_string(), id(2), None, 5);
    assert_eq!(r, Err(HostError::NameExists { name: "a".to_string() }));
}

#[test]
fn remove_host_by_name_and_by_identity() {
    let h = hosts();
    let mut config = book(&[("a", 1), ("b", 2), ("c", 3)]);
    let removed = h.remove_host(&mut config, "b").unwrap();
    assert_eq!(removed.name, "b");
    assert_eq!(removed.id, id(2));
    assert_eq!(config, book(&[("a", 1), ("c", 3)]));
    let removed = h.remove_host(&mut config, &"03".repeat(32)).unwrap();
    assert_eq!(removed.name, "c");
    assert_eq!(config, book(&[("a", 1)]));
}

#[test]
fn remove_host_that_is_not_there() {
    let h = hosts();
    let mut config = book(&[("a", 1)]);
    assert_eq!(
        h.remove_host(&mut config, "zz"),
        Err(HostError::NotFound { identifier: "zz".to_string() })
    );
    assert_eq!(config, book(&[("a", 1)]));
}

#[test]
fn mark_host_connected_sets_the_time() {
    let h = hosts();
    let mut config = book(&[("a", 1), ("b", 2)]);
    assert!(h.mark_host_connected(&mut config, &id(2), 777));
    assert_eq!(config.hosts[1].last_connected, Some(777));
    assert_eq!(config.hosts[1].name, "b");
    assert_eq!(config.hosts[0].last_connected, None);
    assert_eq!(config.hosts.len(), 2);
    assert!(!h.mark_host_connected(&mut config, &id(9), 888));
    assert_eq!(config.hosts[0].last_connected, None);
}

#[test]
fn host_mark_connected() {
    let mut host = Host::new("a".to_string(), id(1), 10);
    assert_eq!(host.added_at, 10);
    assert_eq!(host.last_connected, None);
    assert_eq!(host.description, None);
    host.mark_connected(20);
    assert_eq!(host.last_connected, Some(20));
    assert_eq!(host.added_at, 10);
}

#[test]
fn find_host_by_name_or_identity() {
    let h = hosts();
    let config = book(&[("a", 1), ("b", 2)]);
    assert_eq!(h.find_host(&config, "b").map(|x| x.id), Some(id(2)));
    assert_eq!(h.find_host(&config, &"01".repeat(32)).map(|x| x.name.clone()), Some("a".to_string()));
    assert_eq!(h.find_host(&config, "c"), None);
    assert_eq!(h.list_hosts(&config).len(), 2);
}

#[test]
fn host_name_checks() {
    let config = book(&[("a", 1)]);
    assert_eq!(check_host_name(&config.hosts, ""), NameCheck::Empty);
    assert_eq!(check_host_name(&config.hosts, "a"), NameCheck::Taken);
    assert_eq!(check_host_name(&config.hosts, "b"), NameCheck::Valid);
    assert_eq!(NameCheck::Empty.message(), "Host name cannot be empty.");
    assert_eq!(
        NameCheck::Taken.message(),
        "Host name already exists. Please choose a different name."
    );
    assert_eq!(NameCheck::Valid.message(), "");
}

#[test]
fn save_refuses_what_is_not_valid() {
    let m = ConfigManager::with_base_path(PathBuf::from("/home/u/.punch"));
    assert_eq!(
        m.save(&server_config(vec![], 1024, 65535)),
        Ok(PathBuf::from("/home/u/.punch/server.toml"))
    );
    assert_eq!(m.save(&book(&[("a", 1)])), Ok(PathBuf::from("/home/u/.punch/client.toml")));
    assert_eq!(m.save(&server_config(vec![], 80, 65535)), Err(ConfigError::PrivilegedPort));
    assert_eq!(m.save(&server_config(vec![], 3000, 2000)), Err(ConfigError::InvalidPortRange));
    assert_eq!(
        m.save(&book(&[("a", 1), ("a", 2)])),
        Err(ConfigError::DuplicateHostName { name: "a".to_string() })
    );
}

#[test]
fn load_validates_or_creates() {
    let m = ConfigManager::with_base_path(PathBuf::from("/home/u/.punch"));
    let stored = server_config(vec![id(1)], 2000, 3000);
    let loaded = m.load(Some(stored.clone())).unwrap();
    assert_eq!(loaded.config, stored);
    assert!(!loaded.created);
    let bad = m.load(Some(server_config(vec![], 80, 90)));
    assert_eq!(bad.err(), Some(ConfigError::PrivilegedPort));
    let fresh = m.load::<ServerConfig>(None).unwrap();
    assert!(fresh.created);
    assert_eq!(fresh.config, <ServerConfig as Configuration>::default());
    let fresh = m.load::<ClientConfig>(None).unwrap();
    assert!(fresh.created);
    assert!(fresh.config.hosts.is_empty());
    let dup = m.load(Some(book(&[("x", 1), ("y", 2), ("x", 3)])));
    assert_eq!(dup.err(), Some(ConfigError::DuplicateHostName { name: "x".to_string() }));
}

#[test]
fn a_removed_host_can_be_added_again() {
    let h = hosts();
    let mut config = book(&[("a", 1), ("b", 2), ("c", 3)]);
    h.remove_host(&mut config, "b").unwrap();
    assert_eq!(config.validate(), Ok(()));
    assert_eq!(h.find_host(&config, "b"), None);
    assert_eq!(h.add_host(&mut config, "b".to_string(), id(2), None, 9), Ok(()));
    assert_eq!(config.hosts.len(), 3);
    assert_eq!(config.hosts[2].name, "b");
}

#[test]
fn client_config_rejects_repeated_identities() {
    assert_eq!(
        book(&[("a", 1), ("b", 2), ("c", 1), ("d", 2)]).validate(),
        Err(ConfigError::DuplicateHostIdentity { name: "c".to_string() })
    );
    assert_eq!(
        book(&[("a", 1), ("b", 2), ("c", 3), ("d", 3)]).validate(),
        Err(ConfigError::DuplicateHostIdentity { name: "d".to_string() })
    );
    assert_eq!(book(&[("a", 1), ("b", 2), ("c", 3)]).validate(), Ok(()));
    assert_eq!(book(&[("a", 1)]).validate(), Ok(()));
}

#[test]
fn client_config_reports_a_repeated_name_first() {
    assert_eq!(
        book(&[("a", 1), ("b", 1), ("c", 3), ("c", 4)]).validate(),
        Err(ConfigError::DuplicateHostName { name: "c".to_string() })
    );
    assert_eq!(
        book(&[("a", 1), ("a", 1)]).validate(),
        Err(ConfigError::DuplicateHostName { name: "a".to_string() })
    );
}

#[test]
fn a_book_with_a_repeated_identity_is_neither_loaded_nor_saved() {
    let m = ConfigManager::with_base_path(PathBuf::from("/home/u/.punch"));
    let twice = book(&[("a", 1), ("b", 1)]);
    assert_eq!(
        m.save(&twice),
        Err(ConfigError::DuplicateHostIdentity { name: "b".to_string() })
    );
    assert_eq!(
        m.load(Some(twice)).err(),
        Some(ConfigError::DuplicateHostIdentity { name: "b".to_string() })
    );
}

#[test]
fn a_sound_book_stays_sound() {
    let h = hosts();
    let mut config = book(&[("a", 1), ("b", 2)]);
    assert_eq!(config.validate(), Ok(()));
    assert!(h.add_host(&mut config, "c".to_string(), id(1), None, 5).is_err());
    assert!(h.add_host(&mut config, "a".to_string(), id(3), None, 5).is_err());
    assert_eq!(config.validate(), Ok(()));
    assert_eq!(h.add_host(&mut config, "c".to_string(), id(3), None, 5), Ok(()));
    assert_eq!(config.validate(), Ok(()));
    assert!(h.mark_host_connected(&mut config, &id(2), 9));
    assert_eq!(config.validate(), Ok(()));
    h.remove_host(&mut config, "a").unwrap();
    assert_eq!(config.validate(), Ok(()));
}
