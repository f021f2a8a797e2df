use claw_core::tray::{GatewayKind, TrayCommand, TrayMenuItem, TrayState};

#[test]
fn tray_follows_gateway() {
    let mut t = TrayState::new();
    assert_eq!(t.id(), "clawagentmonitor");
    assert_eq!(t.title(), "ClawAgentMonitor");
    assert_eq!(t.icon_name(), "network-offline");
    t.update(Some(GatewayKind::Up), None, Some(3));
    assert_eq!(t.title(), "ClawAgentMonitor — Gateway UP, 3 en cours");
    assert_eq!(t.icon_name(), "network-transmit-receive");
    assert!(!t.auto_restart);
    t.update(Some(GatewayKind::Down), Some(true), None);
    assert_eq!(t.title(), "ClawAgentMonitor — Gateway DOWN");
    assert_eq!(t.icon_name(), "network-error");
    assert_eq!(t.agents_running, 3);
    assert_eq!(t.activate(), TrayCommand::ShowWindow);
}

#[test]
fn tray_menu() {
    let mut t = TrayState::new();
    t.update(None, Some(true), None);
    let m = t.menu();
    assert_eq!(m.len(), 6);
    match &m[0] {
        TrayMenuItem::Entry { label, icon_name, enabled, command } => {
            assert_eq!(label, "Afficher");
            assert_eq!(icon_name, "window");
            assert!(*enabled);
            assert_eq!(*command, Some(TrayCommand::ShowWindow));
        }
        TrayMenuItem::Separator => panic!("entry expected"),
    }
    assert!(matches!(m[1], TrayMenuItem::Separator));
    assert!(matches!(&m[2], TrayMenuItem::Entry { label, enabled: false, command: None, .. } if label == "Auto-restart : ON"));
    assert!(matches!(&m[3], TrayMenuItem::Entry { label, enabled: false, .. } if label == "Gateway : ?"));
    assert!(matches!(&m[5], TrayMenuItem::Entry { label, command: Some(TrayCommand::Quit), .. } if label == "Quitter"));
}
