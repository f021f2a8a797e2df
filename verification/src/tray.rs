//! System tray icon: what it shows and what its menu offers.
//!
//! - a left click on the icon shows the main window again;
//! - menu: "Afficher" / "Auto-restart" (read-only) / "Gateway" (read-only) /
//!   "Quitter";
//! - the icon and the title follow the state of the gateway.
//!
//! The tray service itself lives in the application; it asks [`TrayState`]
//! what to display and forwards the [`TrayCommand`]s of the user.

use vstd::prelude::*;

use crate::text::{decimal, u64_to_decimal};

verus! {

/// What the user asked for from the tray.
#[derive(Debug, Clone, Copy, PartialEq, Eq, Structural)]
pub enum TrayCommand {
    ShowWindow,
    Quit,
}

/// State of the gateway as the tray shows it.
#[derive(Debug, Clone, Copy, PartialEq, Eq, Structural)]
pub enum GatewayKind {
    Up,
    Down,
    Unknown,
}

/// What the tray displays.
#[derive(Debug, Clone, Copy, PartialEq, Eq, Structural)]
pub struct TrayState {
    pub gateway: GatewayKind,
    pub auto_restart: bool,
    pub agents_running: u32,
}

/// One entry of the tray menu.
#[derive(Debug, Clone)]
pub enum TrayMenuItem {
    Entry { label: String, icon_name: String, enabled: bool, command: Option<TrayCommand> },
    Separator,
}

pub open spec fn tray_title(s: TrayState) -> Seq<char> {
    match s.gateway {
        GatewayKind::Up => "ClawAgentMonitor — Gateway UP, "@ + decimal(s.agents_running as nat)
            + " en cours"@,
        GatewayKind::Down => "ClawAgentMonitor — Gateway DOWN"@,
        GatewayKind::Unknown => "ClawAgentMonitor"@,
    }
}

/// FreeDesktop icon names, available in most Plasma/GNOME/Adwaita themes.
pub open spec fn tray_icon(s: TrayState) -> Seq<char> {
    match s.gateway {
        GatewayKind::Up => "network-transmit-receive"@,
        GatewayKind::Down => "network-error"@,
        GatewayKind::Unknown => "network-offline"@,
    }
}

pub open spec fn auto_restart_label(s: TrayState) -> Seq<char> {
    "Auto-restart : "@ + if s.auto_restart {
        "ON"@
    } else {
        "off"@
    }
}

pub open spec fn gateway_label(s: TrayState) -> Seq<char> {
    "Gateway : "@ + match s.gateway {
        GatewayKind::Up => "UP"@,
        GatewayKind::Down => "DOWN"@,
        GatewayKind::Unknown => "?"@,
    }
}

/// Whether a menu item is an entry with these contents.
pub open spec fn is_entry(
    m: TrayMenuItem,
    label: Seq<char>,
    icon: Seq<char>,
    enabled: bool,
    command: Option<TrayCommand>,
) -> bool {
    match m {
        TrayMenuItem::Entry { label: l, icon_name: i, enabled: e, command: c } => l@ == label && i@
            == icon && e == enabled && c == command,
        TrayMenuItem::Separator => false,
    }
}

fn entry(label: String, icon_name: &str, enabled: bool, command: Option<TrayCommand>) -> (m: TrayMenuItem)
    ensures
        is_entry(m, label@, icon_name@, enabled, command),
{
    TrayMenuItem::Entry { label, icon_name: String::from_str(icon_name), enabled, command }
}

impl TrayState {
    /// The state before anything is known: gateway unknown, auto-restart
    /// off, nothing running.
    pub fn new() -> (s: Self)
        ensures
            s.gateway == GatewayKind::Unknown,
            !s.auto_restart,
            s.agents_running == 0,
    {
        TrayState { gateway: GatewayKind::Unknown, auto_restart: false, agents_running: 0 }
    }

    /// Identifier of the tray item.
    pub fn id(&self) -> (r: String)
        ensures
            r@ == "clawagentmonitor"@,
    {
        String::from_str("clawagentmonitor")
    }

    pub fn title(&self) -> (r: String)
        ensures
            r@ == tray_title(*self),
    {
        match self.gateway {
            GatewayKind::Up => {
                let mut t = String::from_str("ClawAgentMonitor — Gateway UP, ");
                t.append(u64_to_decimal(self.agents_running as u64).as_str());
                t.append(" en cours");
                t
            },
            GatewayKind::Down => String::from_str("ClawAgentMonitor — Gateway DOWN"),
            GatewayKind::Unknown => String::from_str("ClawAgentMonitor"),
        }
    }

    pub fn icon_name(&self) -> (r: String)
        ensures
            r@ == tray_icon(*self),
    {
        match self.gateway {
            GatewayKind::Up => String::from_str("network-transmit-receive"),
            GatewayKind::Down => String::from_str("network-error"),
            GatewayKind::Unknown => String::from_str("network-offline"),
        }
    }

    /// What a left click on the icon asks for.
    pub fn activate(&self) -> (c: TrayCommand)
        ensures
            c == TrayCommand::ShowWindow,
    {
        TrayCommand::ShowWindow
    }

    /// The menu: show, separator, the auto-restart and gateway states
    /// (read-only), separator, quit.
    pub fn menu(&self) -> (m: Vec<TrayMenuItem>)
        ensures
            m@.len() == 6,
            is_entry(m@[0], "Afficher"@, "window"@, true, Some(TrayCommand::ShowWindow)),
            m@[1] is Separator,
            is_entry(m@[2], auto_restart_label(*self), ""@, false, None),
            is_entry(m@[3], gateway_label(*self), ""@, false, None),
            m@[4] is Separator,
            is_entry(m@[5], "Quitter"@, "application-exit"@, true, Some(TrayCommand::Quit)),
    {
        let mut m: Vec<TrayMenuItem> = Vec::new();
        m.push(entry(String::from_str("Afficher"), "window", true, Some(TrayCommand::ShowWindow)));
        m.push(TrayMenuItem::Separator);
        let mut auto = String::from_str("Auto-restart : ");
        auto.append(if self.auto_restart { "ON" } else { "off" });
        m.push(entry(auto, "", false, None));
        let mut gw = String::from_str("Gateway : ");
        gw.append(
            match self.gateway {
                GatewayKind::Up => "UP",
                GatewayKind::Down => "DOWN",
                GatewayKind::Unknown => "?",
            },
        );
        m.push(entry(gw, "", false, None));
        m.push(TrayMenuItem::Separator);
        m.push(
            entry(String::from_str("Quitter"), "application-exit", true, Some(TrayCommand::Quit)),
        );
        m
    }

    /// Changes what the tray displays; a field given `None` is kept.
    pub fn update(
        &mut self,
        gateway: Option<GatewayKind>,
        auto_restart: Option<bool>,
        agents_running: Option<u32>,
    )
        ensures
            final(self).gateway == match gateway {
                Some(g) => g,
                None => old(self).gateway,
            },
            final(self).auto_restart == match auto_restart {
                Some(a) => a,
                None => old(self).auto_restart,
            },
            final(self).agents_running == match agents_running {
                Some(n) => n,
                None => old(self).agents_running,
            },
    {
        if let Some(g) = gateway {
            self.gateway = g;
        }
        if let Some(a) = auto_restart {
            self.auto_restart = a;
        }
        if let Some(n) = agents_running {
            self.agents_running = n;
        }
    }
}

/// The gateway entry of the menu names the gateway state: its label reads
/// "Gateway : DOWN" exactly when the gateway is down, "Gateway : UP" exactly
/// when it is up, and two states with different gateways get different
/// labels, icons and titles.
pub proof fn law_gateway_entry_names_state(s: TrayState, t: TrayState)
    ensures
        gateway_label(s) == "Gateway : DOWN"@ <==> s.gateway == GatewayKind::Down,
        gateway_label(s) == "Gateway : UP"@ <==> s.gateway == GatewayKind::Up,
        s.gateway != t.gateway ==> gateway_label(s) != gateway_label(t),
        s.gateway != t.gateway ==> tray_icon(s) != tray_icon(t),
        s.gateway != t.gateway ==> tray_title(s) != tray_title(t),
{
    reveal_strlit("Gateway : ");
    reveal_strlit("Gateway : DOWN");
    reveal_strlit("Gateway : UP");
    reveal_strlit("UP");
    reveal_strlit("DOWN");
    reveal_strlit("?");
    reveal_strlit("network-transmit-receive");
    reveal_strlit("network-error");
    reveal_strlit("network-offline");
    reveal_strlit("ClawAgentMonitor — Gateway UP, ");
    reveal_strlit("ClawAgentMonitor — Gateway DOWN");
    reveal_strlit("ClawAgentMonitor");
    reveal_strlit(" en cours");
    lemma_label_len(s);
    lemma_label_len(t);
    assert(gateway_label(s).len() == 14 ==> s.gateway == GatewayKind::Down);
    if s.gateway == GatewayKind::Down {
        assert(gateway_label(s) =~= "Gateway : DOWN"@);
    }
    if s.gateway == GatewayKind::Up {
        assert(gateway_label(s) =~= "Gateway : UP"@);
    }
    if gateway_label(s) == "Gateway : UP"@ {
        assert(s.gateway == GatewayKind::Up);
    }
    if s.gateway != t.gateway {
        assert(tray_icon(s).len() != tray_icon(t).len());
        assert(tray_title(s).len() != tray_title(t).len());
    }
}

/// The auto-restart entry of the menu says "ON" exactly when auto-restart
/// is on.
pub proof fn law_auto_restart_entry_names_state(s: TrayState)
    ensures
        auto_restart_label(s) == "Auto-restart : ON"@ <==> s.auto_restart,
        auto_restart_label(s) == "Auto-restart : off"@ <==> !s.auto_restart,
{
    reveal_strlit("Auto-restart : ");
    reveal_strlit("Auto-restart : ON");
    reveal_strlit("Auto-restart : off");
    reveal_strlit("ON");
    reveal_strlit("off");
    if s.auto_restart {
        assert(auto_restart_label(s) =~= "Auto-restart : ON"@);
    } else {
        assert(auto_restart_label(s) =~= "Auto-restart : off"@);
    }
}

proof fn lemma_label_len(s: TrayState)
    ensures
        gateway_label(s).len() == match s.gateway {
            GatewayKind::Up => 12int,
            GatewayKind::Down => 14int,
            GatewayKind::Unknown => 11int,
        },
        tray_icon(s).len() == match s.gateway {
            GatewayKind::Up => 24int,
            GatewayKind::Down => 13int,
            GatewayKind::Unknown => 15int,
        },
        s.gateway == GatewayKind::Up ==> tray_title(s).len() > 40,
        s.gateway == GatewayKind::Down ==> tray_title(s).len() == 31,
        s.gateway == GatewayKind::Unknown ==> tray_title(s).len() == 16,
{
    reveal_strlit("Gateway : ");
    reveal_strlit("UP");
    reveal_strlit("DOWN");
    reveal_strlit("?");
    reveal_strlit("network-transmit-receive");
    reveal_strlit("network-error");
    reveal_strlit("network-offline");
    reveal_strlit("ClawAgentMonitor — Gateway UP, ");
    reveal_strlit("ClawAgentMonitor — Gateway DOWN");
    reveal_strlit("ClawAgentMonitor");
    reveal_strlit(" en cours");
}

} // verus!
