//! Start at login, on every platform.
//!
//! The login item is handled by the `auto_launch` crate, which keeps:
//! - on Linux, a `.desktop` file in `~/.config/autostart/`;
//! - on macOS, a `LaunchAgent` `.plist` in `~/Library/LaunchAgents/`;
//! - on Windows, a value under `HKCU\Software\Microsoft\Windows\CurrentVersion\Run`.
//!
//! Reading and writing it is disk (or registry) work, left to the
//! application. This module decides what is asked of `auto_launch` (which
//! item, which call) and what the caller is told of the outcome.

use vstd::prelude::*;

verus! {

/// Name under which the application registers itself.
pub const APP_NAME: &'static str = "ClawAgentMonitor";

/// What the login item registers: the application's name and the
/// executable it launches.
#[derive(Debug, Clone)]
pub struct LoginItem {
    pub app_name: String,
    pub app_path: String,
}

/// The step of a login-item operation.
#[derive(Debug, Clone, Copy, PartialEq, Eq, Structural)]
pub enum LoginItemStep {
    /// `AutoLaunchBuilder::build`, from the item's name and path.
    Build,
    /// `AutoLaunch::is_enabled`.
    Query,
    /// `AutoLaunch::enable`.
    Enable,
    /// `AutoLaunch::disable`.
    Disable,
}

/// What to do with the login item: build its handle from `item`, then make
/// the call `call`.
#[derive(Debug, Clone)]
pub struct LoginItemRequest {
    pub item: LoginItem,
    pub call: LoginItemStep,
}

/// Why the login item could not be read or changed, with the error's text.
#[derive(Debug, Clone)]
pub enum AutostartError {
    /// `AutoLaunchBuilder::build` refused the settings.
    Builder(String),
    /// `AutoLaunch::is_enabled` failed.
    Query(String),
    /// `AutoLaunch::enable` failed.
    Enable(String),
    /// `AutoLaunch::disable` failed.
    Disable(String),
}

/// Whether `e` is the failure of `step` with text `text`.
pub open spec fn failure_of(e: AutostartError, step: LoginItemStep, text: Seq<char>) -> bool {
    match step {
        LoginItemStep::Build => e matches AutostartError::Builder(t) && t@ == text,
        LoginItemStep::Query => e matches AutostartError::Query(t) && t@ == text,
        LoginItemStep::Enable => e matches AutostartError::Enable(t) && t@ == text,
        LoginItemStep::Disable => e matches AutostartError::Disable(t) && t@ == text,
    }
}

/// Whether `item` is this application's login item, launching `exe_path`.
pub open spec fn is_login_item(item: LoginItem, exe_path: Seq<char>) -> bool {
    item.app_name@ == APP_NAME@ && item.app_path@ == exe_path
}

/// The login item of this application, launching `exe_path`: it is
/// registered under [`APP_NAME`].
pub fn login_item(exe_path: &str) -> (r: LoginItem)
    ensures
        is_login_item(r, exe_path@),
{
    LoginItem { app_name: String::from_str(APP_NAME), app_path: String::from_str(exe_path) }
}

/// What reading whether the application starts at login asks: the
/// `is_enabled` call on this application's login item for `exe_path`.
pub fn query_request(exe_path: &str) -> (r: LoginItemRequest)
    ensures
        is_login_item(r.item, exe_path@),
        r.call == LoginItemStep::Query,
{
    LoginItemRequest { item: login_item(exe_path), call: LoginItemStep::Query }
}

/// What making the application start at login (`enabled`) or not asks:
/// `enable` exactly when `enabled`, `disable` otherwise, on this
/// application's login item for `exe_path`.
pub fn change_request(exe_path: &str, enabled: bool) -> (r: LoginItemRequest)
    ensures
        is_login_item(r.item, exe_path@),
        r.call == if enabled {
            LoginItemStep::Enable
        } else {
            LoginItemStep::Disable
        },
{
    LoginItemRequest {
        item: login_item(exe_path),
        call: if enabled {
            LoginItemStep::Enable
        } else {
            LoginItemStep::Disable
        },
    }
}

/// What the caller is told of one step of a login-item operation: a success
/// passes its value on unchanged; a failure becomes the error of that step,
/// with the same text.
pub fn step_outcome<T>(step: LoginItemStep, outcome: Result<T, String>) -> (r: Result<T, AutostartError>)
    ensures
        match outcome {
            Ok(v) => r == Ok::<T, AutostartError>(v),
            Err(t) => r matches Err(e) && failure_of(e, step, t@),
        },
{
    match outcome {
        Ok(v) => Ok(v),
        Err(t) => Err(
            match step {
                LoginItemStep::Build => AutostartError::Builder(t),
                LoginItemStep::Query => AutostartError::Query(t),
                LoginItemStep::Enable => AutostartError::Enable(t),
                LoginItemStep::Disable => AutostartError::Disable(t),
            },
        ),
    }
}

} // verus!
