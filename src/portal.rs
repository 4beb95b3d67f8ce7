use vstd::prelude::*;

verus! {

/// Well-known bus name of the desktop portal service.
pub const BUS_NAME: &'static str = "org.freedesktop.portal.Desktop";

/// Object path at which the desktop portal serves its interfaces.
pub const OBJECT_PATH: &'static str = "/org/freedesktop/portal/desktop";

/// The D-Bus interface of the OpenURI portal.
pub const INTERFACE: &'static str = "org.freedesktop.portal.OpenURI";

/// The read-only `uint32` property that gives the interface's revision.
pub const VERSION_PROPERTY: &'static str = "version";

#[verifier::external_type_specification]
#[verifier::external_body]
pub struct ExDbusError(dbus::Error);

#[verifier::external_type_specification]
#[verifier::external_body]
pub struct ExDbusPath<'a>(dbus::Path<'a>);

/// The three methods of the OpenURI portal that ask it to open something.
#[derive(PartialEq, Eq, Structural, Clone, Copy, Debug)]
pub enum PortalMethod {
    /// Opens a uri (`file://` uris are not supported by the portal).
    OpenUri,
    /// Opens a local file, passed as a file descriptor.
    OpenFile,
    /// Opens the directory that holds a local file in the file browser.
    OpenDirectory,
}

/// The D-Bus member name under which the portal serves method `m`.
pub open spec fn member_of(m: PortalMethod) -> Seq<char> {
    match m {
        PortalMethod::OpenUri => "OpenURI"@,
        PortalMethod::OpenFile => "OpenFile"@,
        PortalMethod::OpenDirectory => "OpenDirectory"@,
    }
}

impl PortalMethod {
    /// The D-Bus member name of this method on the OpenURI interface.
    pub fn member(self) -> (r: &'static str)
        ensures
            r@ == member_of(self),
    {
        match self {
            PortalMethod::OpenUri => "OpenURI",
            PortalMethod::OpenFile => "OpenFile",
            PortalMethod::OpenDirectory => "OpenDirectory",
        }
    }
}

/// The error of every portal call: the D-Bus transport failed, whether the
/// connection was lost, the reply was malformed, the portal answered with a
/// named error, or the call timed out. Telling these apart is left to
/// dbus's own error.
#[derive(Debug)]
pub enum PortalError {
    Dbus(dbus::Error),
}

impl From<dbus::Error> for PortalError {
    fn from(e: dbus::Error) -> (r: PortalError)
        ensures
            r == PortalError::Dbus(e),
    {
        PortalError::Dbus(e)
    }
}

impl vstd::std_specs::convert::FromSpecImpl<dbus::Error> for PortalError {
    open spec fn obeys_from_spec() -> bool {
        true
    }

    open spec fn from_spec(e: dbus::Error) -> PortalError {
        PortalError::Dbus(e)
    }
}

/// The result of a portal call, from the result of the D-Bus call: a value
/// passes through, a transport error is wrapped.
pub fn portal_result<T>(reply: Result<T, dbus::Error>) -> (r: Result<T, PortalError>)
    ensures
        match reply {
            Ok(v) => r == Ok::<T, PortalError>(v),
            Err(e) => r == Err::<T, PortalError>(PortalError::Dbus(e)),
        },
{
    match reply {
        Ok(v) => Ok(v),
        Err(e) => Err(PortalError::from(e)),
    }
}

/// The request handle that a call of one of the three `PortalMethod`s
/// returns: the object path of the request that the portal created, taken
/// from the reply's single argument.
pub fn request_handle(reply: Result<(dbus::Path<'static>,), dbus::Error>) -> (r: Result<
    dbus::Path<'static>,
    PortalError,
>)
    ensures
        match reply {
            Ok(args) => r == Ok::<dbus::Path<'static>, PortalError>(args.0),
            Err(e) => r == Err::<dbus::Path<'static>, PortalError>(PortalError::Dbus(e)),
        },
{
    match reply {
        Ok(args) => portal_result(Ok(args.0)),
        Err(e) => portal_result(Err(e)),
    }
}

} // verus!
