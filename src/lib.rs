//! Client binding for the `org.freedesktop.portal.OpenURI` desktop portal.
//!
//! Most portals interact with the user by showing dialogs, which should be
//! placed on top of the application window that triggered them. Many portal
//! requests therefore take a "parent_window" string: `"x11:XID"` under X11,
//! with the window's XID in hexadecimal, `"wayland:HANDLE"` under Wayland,
//! with a surface handle obtained through the xdg_foreign protocol, or the
//! empty string when no suitable handle is at hand.
//!
//! This crate holds the verified part of the binding: the optional arguments
//! of the OpenURI methods, their conversion into the variant map that D-Bus
//! carries, the error type, and the fixed names of the wire protocol.

pub mod open_uri;
pub mod portal;
pub mod variant_map;

pub use open_uri::{
    OpenURIOptions, OptionsModel, ACTIVATION_TOKEN_KEY, ACTIVATION_TOKEN_SINCE_VERSION, ASK_KEY,
    ASK_SINCE_VERSION, HANDLE_TOKEN_KEY, WRITABLE_KEY,
};
pub use portal::{
    portal_result, request_handle, PortalError, PortalMethod, BUS_NAME, INTERFACE, OBJECT_PATH,
    VERSION_PROPERTY,
};
pub use variant_map::VariantMap;
