use voodoo_doll::control_plane::{
    failure_handling, CallbackRoute, ClientRequest, ControlPlane, FailureHandling, FspiopMessageId,
    SwitchCall,
};

#[test]
fn connections_receive_increasing_ids_from_one() {
    let mut cp: ControlPlane<&str> = ControlPlane::new();
    let a: usize = cp.connect("a");
    let b: usize = cp.connect("b");
    let c: usize = cp.connect("c");
    assert_eq!((a, b, c), (1, 2, 3));
    assert!(cp.has_client(1) && cp.has_client(2) && cp.has_client(3));
    assert!(!cp.has_client(0));
    assert_eq!(cp.client_channel(2), Some(&"b"));
    assert_eq!(cp.participants(3).map(|p| p.len()), Some(0));
}

#[test]
fn allocate_then_register_matches_connect() {
    let mut cp: ControlPlane<u8> = ControlPlane::new();
    let pending = cp.allocate_client_id();
    let id: usize = pending.id();
    assert_eq!(id, 1);
    assert!(!cp.has_client(id));
    assert_eq!(cp.register_client(pending, 9), id);
    assert_eq!(cp.client_channel(id), Some(&9));
    assert_eq!(cp.connect(10), 2);
}

#[test]
fn disconnect_forgets_client_and_undoes_connect() {
    let mut cp: ControlPlane<u8> = ControlPlane::new();
    let a: usize = cp.connect(1);
    let b: usize = cp.connect(2);
    assert_eq!(cp.disconnect(a), Some(Vec::new()));
    assert!(!cp.has_client(a));
    assert!(cp.has_client(b));
    assert_eq!(cp.disconnect(a), None);
    assert_eq!(cp.client_channel(a), None);
    assert_eq!(cp.participants(a), None);
    // A later connection does not reuse the id.
    assert_eq!(cp.connect(3), 3);
}

#[test]
fn participants_accumulate_in_order() {
    let mut cp: ControlPlane<u8> = ControlPlane::new();
    let a: usize = cp.connect(1);
    let b: usize = cp.connect(2);
    assert!(cp.add_participant(a, "voodooA".to_string()));
    assert!(cp.add_participant(a, "voodooB".to_string()));
    assert_eq!(cp.participants(a).unwrap(), &vec!["voodooA".to_string(), "voodooB".to_string()]);
    assert_eq!(cp.participants(b).unwrap().len(), 0);
    assert!(!cp.add_participant(77, "voodooC".to_string()));
    assert_eq!(cp.participants(77), None);
}

#[test]
fn callback_is_routed_to_requesting_client() {
    let mut cp: ControlPlane<u8> = ControlPlane::new();
    let a: usize = cp.connect(1);
    let b: usize = cp.connect(2);
    let t1 = FspiopMessageId::TransferId(0x1234_5678_9abc_def0_1234_5678_9abc_def0);
    let t2 = FspiopMessageId::TransferId(42);
    assert_eq!(cp.route_callback(&t1), CallbackRoute::Unrecognised);
    cp.record_in_flight(t1, a);
    cp.record_in_flight(t2, b);
    assert_eq!(cp.route_callback(&t1), CallbackRoute::Deliver(a));
    assert_eq!(cp.route_callback(&t2), CallbackRoute::Deliver(b));
    assert_eq!(cp.route_callback(&FspiopMessageId::TransferId(43)), CallbackRoute::Unrecognised);
}

#[test]
fn callback_for_disconnected_client_is_reported_gone() {
    let mut cp: ControlPlane<u8> = ControlPlane::new();
    let a: usize = cp.connect(1);
    let t = FspiopMessageId::TransferId(7);
    cp.record_in_flight(t, a);
    cp.disconnect(a);
    assert_eq!(cp.route_callback(&t), CallbackRoute::ClientGone(a));
}

#[test]
fn recording_again_redirects_callback() {
    let mut cp: ControlPlane<u8> = ControlPlane::new();
    let a: usize = cp.connect(1);
    let b: usize = cp.connect(2);
    let t = FspiopMessageId::TransferId(7);
    cp.record_in_flight(t, a);
    cp.record_in_flight(t, b);
    assert_eq!(cp.route_callback(&t), CallbackRoute::Deliver(b));
}

#[test]
fn requests_need_a_connected_client_except_transfers() {
    let mut cp: ControlPlane<u8> = ControlPlane::new();
    let a: usize = cp.connect(1);
    assert!(cp.admits(a, ClientRequest::CreateParticipants));
    assert!(cp.admits(99, ClientRequest::Transfers));
    for r in [
        ClientRequest::CreateHubAccounts,
        ClientRequest::CreateParticipants,
        ClientRequest::CreateSettlementModel,
        ClientRequest::CloseSettlementWindow,
        ClientRequest::GetSettlementWindows,
        ClientRequest::GetSettlements,
    ] {
        assert!(!cp.admits(99, r));
    }
    cp.disconnect(a);
    assert!(!cp.admits(a, ClientRequest::GetSettlements));
}

#[test]
fn disconnect_hands_back_participants_to_disable() {
    let mut cp: ControlPlane<u8> = ControlPlane::new();
    let a: usize = cp.connect(1);
    let b: usize = cp.connect(2);
    assert!(cp.add_participant(a, "voodooA".to_string()));
    assert!(cp.add_participant(a, "voodooB".to_string()));
    assert!(cp.add_participant(b, "voodooC".to_string()));
    assert_eq!(cp.disconnect(a), Some(vec!["voodooA".to_string(), "voodooB".to_string()]));
    assert!(!cp.has_client(a));
    assert_eq!(cp.participants(b).unwrap(), &vec!["voodooC".to_string()]);
}

#[test]
fn failures_that_end_a_request() {
    for call in [
        SwitchCall::CreateHubAccount,
        SwitchCall::CloseSettlementWindow,
        SwitchCall::CreateSettlementModel,
        SwitchCall::DisableParticipant,
    ] {
        assert_eq!(failure_handling(call), FailureHandling::ReportAndGoOn);
    }
    for call in [
        SwitchCall::CreateParticipant,
        SwitchCall::SetPositionAndLimits,
        SwitchCall::OverrideEndpoint,
        SwitchCall::SendPrepare,
        SwitchCall::GetSettlements,
        SwitchCall::GetSettlementWindows,
        SwitchCall::ReadSettlementWindow,
    ] {
        assert_eq!(failure_handling(call), FailureHandling::EndRequest);
    }
}
