use voodoo_doll::participants::{
    new_participant_name, participant_name, participant_setup_plan, random_alphanumeric,
    ParticipantStep, HUB_NAME, PARTICIPANT_NAME_SUFFIX_LEN,
};
use voodoo_doll::pod::{
    container_image, label_selector, pod_field_selector, watch_action, PodWatchEvent, WatchAction,
    POD_NAME, ROLEBINDING_NAME, SERVICEACCOUNT_NAME, VOODOO_WS_URI,
};
use voodoo_doll::control_plane::FspiopMessageId;
use voodoo_doll::transfers::{
    callback_address, callback_overrides, transfer_plan, TransferRequest, TransferStep,
};

#[test]
fn participant_names() {
    assert_eq!(participant_name("abc"), "voodooabc");
    assert_eq!(HUB_NAME, "Hub");
    let name = new_participant_name().unwrap();
    assert_eq!(name.len(), 30);
    assert!(name.starts_with("voodoo"));
    assert!(name[6..].chars().all(|c| c.is_ascii_alphanumeric()));
    assert_ne!(new_participant_name().unwrap(), name);
}

#[test]
fn random_suffixes() {
    assert_eq!(random_alphanumeric(0).unwrap(), "");
    let s = random_alphanumeric(PARTICIPANT_NAME_SUFFIX_LEN).unwrap();
    assert_eq!(s.chars().count(), 24);
    assert!(s.chars().all(|c| c.is_ascii_alphanumeric()));
}

#[test]
fn kubernetes_names_and_selectors() {
    assert_eq!(label_selector(), "app.kubernetes.io/name=voodoo-doll");
    assert_eq!(pod_field_selector(), "metadata.name=voodoo-doll");
    assert_eq!(container_image("0.1.0"), "ghcr.io/partiallyordered/voodoo-doll:0.1.0");
    assert_eq!(POD_NAME, "voodoo-doll");
    assert_eq!(SERVICEACCOUNT_NAME, POD_NAME);
    assert_eq!(ROLEBINDING_NAME, "voodoo-doll-pod-access");
    assert_eq!(VOODOO_WS_URI, "ws://host.ignored/voodoo");
}

#[test]
fn watch_stops_only_when_running() {
    assert!(matches!(
        watch_action(PodWatchEvent::Modified { phase: Some("Running".to_string()) }),
        WatchAction::Stop
    ));
    assert!(matches!(
        watch_action(PodWatchEvent::Modified { phase: Some("Pending".to_string()) }),
        WatchAction::Continue
    ));
    assert!(matches!(watch_action(PodWatchEvent::Modified { phase: None }), WatchAction::Continue));
    assert!(matches!(watch_action(PodWatchEvent::Other), WatchAction::Continue));
    match watch_action(PodWatchEvent::Added { name: "voodoo-doll".to_string() }) {
        WatchAction::ReportAdded(n) => assert_eq!(n, "voodoo-doll"),
        other => panic!("unexpected {:?}", other),
    }
}

#[test]
fn callback_address_format() {
    assert_eq!(callback_address("10.1.2.3"), "http://10.1.2.3:3030");
}

#[test]
fn overrides_cover_recipient_then_sender() {
    let sender = "payerfsp";
    let recipient = "payeefsp";
    let types = vec!['a', 'b', 'c'];
    let o = callback_overrides(sender, recipient, &types);
    let got: Vec<(&str, char)> = o.iter().map(|x| (x.participant, x.callback_type)).collect();
    assert_eq!(
        got,
        vec![
            ("payeefsp", 'a'),
            ("payeefsp", 'b'),
            ("payeefsp", 'c'),
            ("payerfsp", 'a'),
            ("payerfsp", 'b'),
            ("payerfsp", 'c'),
        ]
    );
    let none: Vec<u8> = Vec::new();
    assert!(callback_overrides(sender, recipient, &none).is_empty());
}

fn describe(step: &TransferStep<&'static str, u8>) -> String {
    match step {
        TransferStep::OverrideEndpoint(o) => format!("override {} {}", o.participant, o.callback_type),
        TransferStep::SendPrepare(i) => format!("prepare {}", i),
        TransferStep::AwaitCallback(FspiopMessageId::TransferId(id)) => format!("await {}", id),
    }
}

#[test]
fn transfer_plan_runs_transfers_in_order() {
    let transfers = vec![
        TransferRequest { sender: "payer", recipient: "payee", transfer_id: 11 },
        TransferRequest { sender: "payee", recipient: "payer", transfer_id: 12 },
    ];
    let types: Vec<u8> = vec![1, 2];
    let plan = transfer_plan(&transfers, &types);
    let got: Vec<String> = plan.iter().map(describe).collect();
    assert_eq!(
        got,
        vec![
            "override payee 1", "override payee 2", "override payer 1", "override payer 2",
            "prepare 0", "await 11",
            "override payer 1", "override payer 2", "override payee 1", "override payee 2",
            "prepare 1", "await 12",
        ]
    );
    assert!(transfer_plan::<&str, u8>(&Vec::new(), &types).is_empty());
}

#[test]
fn participant_setup_creates_then_limits_then_issues() {
    let plan = participant_setup_plan(2).unwrap();
    assert_eq!(plan.len(), 6);
    let mut names = Vec::new();
    for (i, step) in plan.iter().enumerate() {
        let account = i / 3;
        match (i % 3, step) {
            (0, ParticipantStep::Create { account: a, name }) => {
                assert_eq!(*a, account);
                assert_eq!(name.len(), 30);
                assert!(name.starts_with("voodoo"));
                names.push(name.clone());
            }
            (1, ParticipantStep::SetPositionAndLimits { account: a }) => assert_eq!(*a, account),
            (2, ParticipantStep::IssueToClient { account: a }) => assert_eq!(*a, account),
            (_, other) => panic!("unexpected step {:?} at {}", other, i),
        }
    }
    assert_ne!(names[0], names[1]);
    assert!(participant_setup_plan(0).unwrap().is_empty());
}
