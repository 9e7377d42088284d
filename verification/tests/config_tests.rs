use samrelay::config::{Configuration, Destination, SAM};
use samrelay::errors::RelayError;
use samrelay::tunnels::Tunnel;

fn dest(name: &str, public_key: &str) -> Destination {
    Destination {
        public_key: public_key.to_string(),
        secret_key: format!("sk-{}", name),
        name: name.to_string(),
    }
}

fn tunnel(name: &str, in_length: u8) -> Tunnel {
    Tunnel {
        in_length,
        in_quantity: 2,
        in_backup_quantity: 1,
        out_length: 4,
        out_quantity: 5,
        out_backup_quantity: 6,
        name: name.to_string(),
        random_key: None,
    }
}

#[test]
fn new_configuration_is_empty_with_default_sam() {
    let c = Configuration::new();
    assert!(c.destinations.is_empty());
    assert!(c.server.tunnels.is_empty());
    assert_eq!(c.sam.endpoint, "127.0.0.1:7656");
    assert_eq!(c.proxy.listen_address, "");
    assert_eq!(c.server.forward_address, "");
}

#[test]
fn sam_default_endpoint() {
    assert_eq!(SAM::default().endpoint, "127.0.0.1:7656");
}

#[test]
fn destination_lookup_finds_first_match() {
    let mut c = Configuration::new();
    c.destinations.push(dest("alpha", "pk-a"));
    c.destinations.push(dest("beta", "pk-b1"));
    c.destinations.push(dest("beta", "pk-b2"));
    let found = c.destination_by_name("beta").unwrap();
    assert_eq!(found.public_key, "pk-b1");
    assert_eq!(found.name, "beta");
}

#[test]
fn destination_lookup_misses_with_config_error() {
    let mut c = Configuration::new();
    c.destinations.push(dest("alpha", "pk-a"));
    assert_eq!(c.destination_by_name("gamma").unwrap_err(), RelayError::Config);
    assert_eq!(Configuration::new().destination_by_name("alpha").unwrap_err(), RelayError::Config);
}

#[test]
fn tunnel_lookup_finds_and_misses() {
    let mut c = Configuration::new();
    c.server.tunnels.push(tunnel("main", 3));
    c.server.tunnels.push(tunnel("spare", 1));
    assert_eq!(c.server.tunnel_by_name("spare").unwrap().in_length, 1);
    assert_eq!(c.server.tunnel_by_name("none").unwrap_err(), RelayError::Config);
}

#[test]
fn tunnel_options_map_each_directions_knobs() {
    let t = tunnel("main", 3);
    let o = t.options();
    assert_eq!(o.inbound.length, 3);
    assert_eq!(o.inbound.quantity, 2);
    assert_eq!(o.inbound.backup_quantity, 1);
    // The outbound direction takes its own knobs.
    assert_eq!(o.outbound.length, 4);
    assert_eq!(o.outbound.quantity, 5);
    assert_eq!(o.outbound.backup_quantity, 6);
    assert!(o.fast_receive);
    assert!(!o.should_bundle_reply_info);
    assert!(o.inbound.random_key.is_none());
    assert!(o.outbound.random_key.is_none());
}

#[test]
fn add_destination_appends_new_records() {
    let mut c = Configuration::new();
    assert_eq!(c.add_destination(dest("alpha", "pk-a")), Ok(()));
    assert_eq!(c.add_destination(dest("beta", "pk-b")), Ok(()));
    assert_eq!(c.destinations.len(), 2);
    assert_eq!(c.destinations[1].name, "beta");
    assert_eq!(c.destination_by_name("alpha").unwrap().public_key, "pk-a");
}

#[test]
fn add_destination_refuses_duplicate_names() {
    let mut c = Configuration::new();
    assert_eq!(c.add_destination(dest("alpha", "pk-a")), Ok(()));
    assert_eq!(c.add_destination(dest("alpha", "pk-other")), Err(RelayError::Config));
    // The configuration is unchanged by the refusal.
    assert_eq!(c.destinations.len(), 1);
    assert_eq!(c.destinations[0].public_key, "pk-a");
}

#[test]
fn error_descriptions_are_stable() {
    assert_eq!(RelayError::VerificationFailed.describe(), "witness failed verification");
    assert_eq!(RelayError::Config.describe(), "configuration error");
}

#[test]
fn invalid_subcommand_text_is_exact() {
    assert_eq!(
        samrelay::errors::invalid_subcommand("config"),
        "invalid subcommand config, please run --help for more information"
    );
}
