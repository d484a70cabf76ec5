use vstd::prelude::*;

pub mod actions;
pub mod config;
pub mod context;
pub mod dialog;
pub mod drawer;
pub mod menu;
pub mod model;
pub mod nav;

verus! {

/// The first part of the application's identifier.
pub const QUALIFIER: &'static str = "com";

/// The organisation part of the application's identifier.
pub const ORG: &'static str = "vkhitrin";

/// The application's name.
pub const APP: &'static str = "cosmicding";

/// The application's identifier: qualifier, organisation and name joined by dots.
pub const APPID: &'static str = "com.vkhitrin.cosmicding";

/// What the application is busy with.
#[derive(Debug, Clone, Copy, PartialEq, Eq, Structural)]
pub enum ApplicationState {
    Loading,
    NoEnabledRemoteAccounts,
    Ready,
    Refreshing,
}

} // verus!
