use dbus::Path;
use xdg_portal::{
    portal_result, request_handle, PortalError, PortalMethod, BUS_NAME, INTERFACE, OBJECT_PATH,
    VERSION_PROPERTY,
};

#[test]
fn wire_names_are_fixed() {
    assert_eq!(BUS_NAME, "org.freedesktop.portal.Desktop");
    assert_eq!(OBJECT_PATH, "/org/freedesktop/portal/desktop");
    assert_eq!(INTERFACE, "org.freedesktop.portal.OpenURI");
    assert_eq!(VERSION_PROPERTY, "version");
}

#[test]
fn method_members() {
    assert_eq!(PortalMethod::OpenUri.member(), "OpenURI");
    assert_eq!(PortalMethod::OpenFile.member(), "OpenFile");
    assert_eq!(PortalMethod::OpenDirectory.member(), "OpenDirectory");
}

#[test]
fn request_handle_takes_the_reply_path() {
    let p = Path::new("/org/freedesktop/portal/desktop/request/1_42/t").unwrap();
    let r = request_handle(Ok((p.clone(),)));
    assert_eq!(r.unwrap(), p);
}

#[test]
fn request_handle_wraps_a_transport_error() {
    let e = dbus::Error::new_custom("org.freedesktop.DBus.Error.NoReply", "timed out");
    match request_handle(Err(e)) {
        Err(PortalError::Dbus(inner)) => {
            assert_eq!(inner.name(), Some("org.freedesktop.DBus.Error.NoReply"));
            assert_eq!(inner.message(), Some("timed out"));
        }
        Ok(_) => panic!("a failed call gave a handle"),
    }
}

#[test]
fn portal_result_passes_a_version_through() {
    assert_eq!(portal_result::<u32>(Ok(4)).unwrap(), 4);
}

#[test]
fn portal_result_wraps_an_error() {
    let e = dbus::Error::new_custom("org.freedesktop.DBus.Error.ServiceUnknown", "no portal");
    match portal_result::<u32>(Err(e)) {
        Err(PortalError::Dbus(inner)) => {
            assert_eq!(inner.name(), Some("org.freedesktop.DBus.Error.ServiceUnknown"))
        }
        Ok(v) => panic!("a failed call gave {}", v),
    }
}

#[test]
fn portal_error_from_dbus_error() {
    let e = dbus::Error::new_custom("org.example.Failed", "boom");
    let PortalError::Dbus(inner) = PortalError::from(e);
    assert_eq!(inner.message(), Some("boom"));
}
