//! NPDUs, network messages, routing, path discovery and diagnostics.

use bacnet_rs::network::{
    NetworkAddress, NetworkDiagnostics, NetworkLayerMessage, NetworkLink, NetworkMessageType, Npdu, NpduControl,
    NetworkError, PathDiscovery, RouterHealth, RouterInfo, RouterManager, RoutingTable,
};


#[test]
fn test_npdu_control() {
    let control = NpduControl {
        network_message: true,
        destination_present: false,
        source_present: true,
        expecting_reply: false,
        priority: 2,
    };

    let byte = control.to_byte();
    let decoded = NpduControl::from_byte(byte);

    assert_eq!(control.network_message, decoded.network_message);
    assert_eq!(control.destination_present, decoded.destination_present);
    assert_eq!(control.source_present, decoded.source_present);
    assert_eq!(control.expecting_reply, decoded.expecting_reply);
    assert_eq!(control.priority, decoded.priority);
}

#[test]
fn test_npdu_encode_decode_basic() {
    let npdu = Npdu::new();
    let encoded = npdu.encode();
    let (decoded, consumed) = Npdu::decode(&encoded).unwrap();

    assert_eq!(decoded.version, 1);
    assert_eq!(consumed, 2); // version + control
    assert_eq!(decoded.destination, None);
    assert_eq!(decoded.source, None);
}

#[test]
fn test_npdu_with_destination() {
    let mut npdu = Npdu::new();
    npdu.control.destination_present = true;
    npdu.destination = Some(NetworkAddress::new(100, vec![192, 168, 1, 1]));
    npdu.hop_count = Some(5);

    let encoded = npdu.encode();
    let (decoded, _) = Npdu::decode(&encoded).unwrap();

    assert_eq!(decoded.destination.as_ref().unwrap().network, 100);
    assert_eq!(
        decoded.destination.as_ref().unwrap().address,
        vec![192, 168, 1, 1]
    );
    assert_eq!(decoded.hop_count, Some(5));
}

#[test]
fn test_network_message() {
    let message = NetworkLayerMessage::new(
        NetworkMessageType::WhoIsRouterToNetwork,
        vec![0x00, 0x64], // Network 100
    );

    let encoded = message.encode();
    let decoded = NetworkLayerMessage::decode(&encoded).unwrap();

    assert_eq!(
        decoded.message_type,
        NetworkMessageType::WhoIsRouterToNetwork
    );
    assert_eq!(decoded.data, vec![0x00, 0x64]);
}

#[test]
fn test_routing_table() {
    let mut table = RoutingTable::new();

    let router = RouterInfo {
        networks: vec![100, 200],
        address: NetworkAddress::new(0, vec![192, 168, 1, 1]),
        performance_index: Some(10),
    };

    table.add_router(router);

    assert!(table.find_route(100).is_some());
    assert!(table.find_route(200).is_some());
    assert!(table.find_route(300).is_none());
}

#[test]
fn test_router_manager() {
    let mut manager = RouterManager::new(1);

    // Add a router for network 100
    manager.add_discovered_router(
        vec![100],
        NetworkAddress::new(0, vec![192, 168, 1, 1]),
        Some(10),
    );

    // Test routing a message to network 100
    let mut npdu = Npdu::new();
    npdu.destination = Some(NetworkAddress::new(100, vec![10, 0, 0, 1]));
    npdu.hop_count = Some(5);

    let result = manager.route_message(&mut npdu).unwrap();
    assert!(result.is_some());
    assert_eq!(npdu.hop_count, Some(4)); // Hop count decremented

    // Test local message routing
    let mut local_npdu = Npdu::new();
    local_npdu.destination = Some(NetworkAddress::new(1, vec![10, 0, 0, 1]));
    let local_result = manager.route_message(&mut local_npdu).unwrap();
    assert!(local_result.is_none()); // Local delivery

    // Test hop count exceeded
    let mut hopless_npdu = Npdu::new();
    hopless_npdu.destination = Some(NetworkAddress::new(100, vec![10, 0, 0, 1]));
    hopless_npdu.hop_count = Some(0);
    assert!(manager.route_message(&mut hopless_npdu).is_err());

    // Test network unreachable
    let mut unreachable_npdu = Npdu::new();
    unreachable_npdu.destination = Some(NetworkAddress::new(999, vec![10, 0, 0, 1]));
    assert!(manager.route_message(&mut unreachable_npdu).is_err());
}

#[test]
fn test_router_manager_network_messages() {
    let mut manager = RouterManager::new(1);

    // Add router for network 100
    manager.add_discovered_router(
        vec![100],
        NetworkAddress::new(0, vec![192, 168, 1, 1]),
        Some(10),
    );

    // Test Who-Is-Router-To-Network
    let who_is_msg = NetworkLayerMessage::new(
        NetworkMessageType::WhoIsRouterToNetwork,
        vec![0x00, 0x64], // Network 100
    );
    let response = manager.process_network_message(&who_is_msg).unwrap();
    assert!(response.is_some());
    if let Some(resp) = response {
        assert_eq!(resp.message_type, NetworkMessageType::IAmRouterToNetwork);
        assert_eq!(resp.data, vec![0x00, 0x64]);
    }

    // Test What-Is-Network-Number
    let what_is_msg = NetworkLayerMessage::new(NetworkMessageType::WhatIsNetworkNumber, vec![]);
    let response = manager.process_network_message(&what_is_msg).unwrap();
    assert!(response.is_some());
    if let Some(resp) = response {
        assert_eq!(resp.message_type, NetworkMessageType::NetworkNumberIs);
        assert_eq!(resp.data, vec![0x00, 0x01]); // Network 1
    }

    // Test Router-Busy-To-Network
    let busy_msg = NetworkLayerMessage::new(
        NetworkMessageType::RouterBusyToNetwork,
        vec![0x00, 0x64], // Network 100
    );
    manager.process_network_message(&busy_msg).unwrap();
    assert!(manager.busy_networks.contains(&100));

    // Test Router-Available-To-Network
    let available_msg = NetworkLayerMessage::new(
        NetworkMessageType::RouterAvailableToNetwork,
        vec![0x00, 0x64], // Network 100
    );
    manager.process_network_message(&available_msg).unwrap();
    assert!(!manager.busy_networks.contains(&100));
}

#[test]
fn test_path_discovery() {
    let mut discovery = PathDiscovery::new();

    // Create a simple network topology: 1 -> 2 -> 3
    discovery.add_link(NetworkLink {
        source_network: 1,
        destination_network: 2,
        cost: 10,
        router_address: NetworkAddress::new(0, vec![192, 168, 1, 1]),
    });

    discovery.add_link(NetworkLink {
        source_network: 2,
        destination_network: 3,
        cost: 15,
        router_address: NetworkAddress::new(0, vec![192, 168, 2, 1]),
    });

    // Find path from 1 to 3
    let path = discovery.find_path(1, 3);
    assert!(path.is_some());
    assert_eq!(path.unwrap(), vec![1, 2, 3]);

    // Test path to same network
    let same_path = discovery.find_path(1, 1);
    assert_eq!(same_path.unwrap(), vec![1]);

    // Test path to unreachable network
    let no_path = discovery.find_path(1, 999);
    assert!(no_path.is_none());

    // Test cache functionality
    let cached_path = discovery.find_path(1, 3);
    assert!(cached_path.is_some());
}

#[test]
fn test_router_health() {
    let mut diagnostics = NetworkDiagnostics::new();
    let router_addr = NetworkAddress::new(0, vec![192, 168, 1, 1]);

    let health = RouterHealth {
        responsive: true,
        error_count: 5,
        performance_index: 10,
    };

    diagnostics.update_router_health(router_addr.clone(), health);

    let retrieved_health = diagnostics.get_router_health(&router_addr);
    assert!(retrieved_health.is_some());
    assert!(retrieved_health.unwrap().responsive);
    assert_eq!(retrieved_health.unwrap().error_count, 5);
    assert_eq!(retrieved_health.unwrap().performance_index, 10);
}

#[test]
fn test_network_address_properties() {
    let local_addr = NetworkAddress::new(0, vec![192, 168, 1, 1]);
    assert!(local_addr.is_local());
    assert!(!local_addr.is_broadcast());

    let broadcast_addr = NetworkAddress::new(0xFFFF, vec![]);
    assert!(broadcast_addr.is_broadcast());
    assert!(!broadcast_addr.is_local());

    let remote_addr = NetworkAddress::new(100, vec![10, 0, 0, 1]);
    assert!(!remote_addr.is_local());
    assert!(!remote_addr.is_broadcast());
}

#[test]
fn test_performance_metrics() {
    let mut manager = RouterManager::new(1);

    // Add a router
    manager.add_discovered_router(
        vec![100],
        NetworkAddress::new(0, vec![192, 168, 1, 1]),
        Some(10),
    );

    // Route some messages to generate metrics
    let mut npdu1 = Npdu::new();
    npdu1.destination = Some(NetworkAddress::new(100, vec![10, 0, 0, 1]));
    npdu1.hop_count = Some(5);
    manager.route_message(&mut npdu1).unwrap();

    let mut npdu2 = Npdu::new();
    npdu2.destination = Some(NetworkAddress::new(100, vec![10, 0, 0, 2]));
    npdu2.hop_count = Some(1);
    manager.route_message(&mut npdu2).unwrap();

    // Try routing to unreachable network
    let mut npdu3 = Npdu::new();
    npdu3.destination = Some(NetworkAddress::new(999, vec![10, 0, 0, 1]));
    let _ = manager.route_message(&mut npdu3);

    // Try with hop count 0
    let mut npdu4 = Npdu::new();
    npdu4.destination = Some(NetworkAddress::new(100, vec![10, 0, 0, 1]));
    npdu4.hop_count = Some(0);
    let _ = manager.route_message(&mut npdu4);

    let metrics = manager.get_performance_metrics();
    assert_eq!(metrics.messages_routed, 2);
    assert_eq!(metrics.network_unreachable_count, 1);
    assert_eq!(metrics.hop_count_exceeded, 1);

    // Test reset
    manager.reset_performance_metrics();
    let reset_metrics = manager.get_performance_metrics();
    assert_eq!(reset_metrics.messages_routed, 0);
    assert_eq!(reset_metrics.network_unreachable_count, 0);
    assert_eq!(reset_metrics.hop_count_exceeded, 0);
}

#[test]
fn network_error_texts() {
    assert_eq!(NetworkError::NetworkUnreachable(999).to_string(), "Network 999 unreachable");
    assert_eq!(NetworkError::HopCountExceeded.to_string(), "Hop count exceeded");
    assert_eq!(NetworkError::InvalidNpdu("short".to_string()).to_string(), "Invalid NPDU: short");
}

#[test]
fn diagnostics_count_statuses_and_sum_latencies() {
    let mut diag = NetworkDiagnostics::new();
    diag.update_network_status(1, bacnet_rs::network::NetworkStatus::Reachable);
    diag.update_network_status(2, bacnet_rs::network::NetworkStatus::Degraded);
    diag.update_network_status(3, bacnet_rs::network::NetworkStatus::Reachable);
    diag.update_network_status(2, bacnet_rs::network::NetworkStatus::Unreachable);
    assert_eq!(diag.count_status(bacnet_rs::network::NetworkStatus::Reachable), 2);
    assert_eq!(diag.count_status(bacnet_rs::network::NetworkStatus::Unreachable), 1);
    assert_eq!(diag.count_status(bacnet_rs::network::NetworkStatus::Degraded), 0);
    assert_eq!(diag.latency_total(), 0);
    diag.record_latency(1, 40);
    diag.record_latency(3, 4_000_000_000);
    diag.record_latency(1, 60);
    assert_eq!(diag.latency_total(), 4_000_000_060);
}

fn link(from: u16, to: u16, cost: u16) -> NetworkLink {
    NetworkLink { source_network: from, destination_network: to, cost, router_address: NetworkAddress::new(0, vec![10, 0, 0, from as u8]) }
}

#[test]
fn path_discovery_takes_the_cheaper_route() {
    let mut discovery = PathDiscovery::new();
    discovery.add_link(link(1, 2, 50));
    discovery.add_link(link(2, 4, 50));
    discovery.add_link(link(1, 3, 10));
    discovery.add_link(link(3, 5, 10));
    discovery.add_link(link(5, 4, 10));
    assert_eq!(discovery.find_path(1, 4).unwrap(), vec![1, 3, 5, 4]);
}

#[test]
fn path_discovery_counts_65535_as_unreachable() {
    let mut discovery = PathDiscovery::new();
    discovery.add_link(link(1, 2, 40000));
    discovery.add_link(link(2, 3, 40000));
    assert_eq!(discovery.find_path(1, 2).unwrap(), vec![1, 2]);
    discovery.clear_cache();
    assert!(discovery.find_path(1, 3).is_none());
}

#[test]
fn path_discovery_ties_go_to_the_lower_network() {
    let mut discovery = PathDiscovery::new();
    discovery.add_link(link(1, 7, 5));
    discovery.add_link(link(1, 6, 5));
    discovery.add_link(link(7, 9, 5));
    discovery.add_link(link(6, 9, 5));
    assert_eq!(discovery.find_path(1, 9).unwrap(), vec![1, 6, 9]);
}

#[test]
fn path_discovery_caches_paths_per_source() {
    let mut discovery = PathDiscovery::new();
    discovery.add_link(link(1, 3, 10));
    discovery.add_link(link(2, 3, 10));
    assert_eq!(discovery.find_path(1, 3).unwrap(), vec![1, 3]);
    assert_eq!(discovery.find_path(2, 3).unwrap(), vec![2, 3]);
    assert_eq!(discovery.find_path(1, 3).unwrap(), vec![1, 3]);
    assert_eq!(discovery.path_cache.len(), 2);
}
