//! Revealing a file through the session bus of a Linux desktop: the URI of
//! the file, the two method calls, and the failures on the way.
//!
//! The file manager's own interface comes first. The portal handles
//! sandboxed runtimes better, but its first version did not select the item,
//! and that version is still in use; so the portal is the second choice.

use crate::error::{IoFailure, IoFailureView, IoKind, OpenError, OpenErrorView};
use vstd::prelude::*;
use vstd::string::StringExecFns;

verus! {

/// The seconds that a method call may take before it counts as failed.
pub const DBUS_TIMEOUT_SECONDS: u64 = 5;

/// What a method call carries.
#[derive(Debug, Clone, PartialEq, Eq)]
pub enum DbusRequest {
    /// Show the items behind the URIs in the file manager, each selected.
    ShowItems { uris: Vec<String>, startup_id: String },
    /// Open the directory of a file. The caller attaches an open handle to
    /// the file and an empty map of options.
    OpenDirectory { parent_window: String },
}

/// The mathematical value of a [`DbusRequest`].
pub enum DbusRequestView {
    ShowItems { uris: Seq<Seq<char>>, startup_id: Seq<char> },
    OpenDirectory { parent_window: Seq<char> },
}

impl View for DbusRequest {
    type V = DbusRequestView;

    open spec fn view(&self) -> DbusRequestView {
        match self {
            DbusRequest::ShowItems { uris, startup_id } => DbusRequestView::ShowItems {
                uris: uris.deep_view(),
                startup_id: startup_id@,
            },
            DbusRequest::OpenDirectory { parent_window } => DbusRequestView::OpenDirectory {
                parent_window: parent_window@,
            },
        }
    }
}

/// A method call on the session bus.
#[derive(Debug, Clone, PartialEq, Eq)]
pub struct DbusCall {
    pub destination: &'static str,
    pub object_path: &'static str,
    pub interface: &'static str,
    pub method: &'static str,
    pub timeout_seconds: u64,
    pub request: DbusRequest,
}

/// The mathematical value of a [`DbusCall`].
pub struct DbusCallView {
    pub destination: Seq<char>,
    pub object_path: Seq<char>,
    pub interface: Seq<char>,
    pub method: Seq<char>,
    pub timeout_seconds: u64,
    pub request: DbusRequestView,
}

impl View for DbusCall {
    type V = DbusCallView;

    open spec fn view(&self) -> DbusCallView {
        DbusCallView {
            destination: self.destination@,
            object_path: self.object_path@,
            interface: self.interface@,
            method: self.method@,
            timeout_seconds: self.timeout_seconds,
            request: self.request@,
        }
    }
}

impl DeepView for DbusCall {
    type V = DbusCallView;

    open spec fn deep_view(&self) -> DbusCallView {
        self@
    }
}

/// The call that asks the file manager to show the one item behind `uri`.
pub open spec fn show_items(uri: Seq<char>) -> DbusCallView {
    DbusCallView {
        destination: "org.freedesktop.FileManager1"@,
        object_path: "/org/freedesktop/FileManager1"@,
        interface: "org.freedesktop.FileManager1"@,
        method: "ShowItems"@,
        timeout_seconds: 5,
        request: DbusRequestView::ShowItems { uris: seq![uri], startup_id: Seq::empty() },
    }
}

/// The call that asks the desktop portal to open the directory of a file.
pub open spec fn open_directory() -> DbusCallView {
    DbusCallView {
        destination: "org.freedesktop.portal.Desktop"@,
        object_path: "/org/freedesktop/portal/desktop"@,
        interface: "org.freedesktop.portal.OpenURI"@,
        method: "OpenDirectory"@,
        timeout_seconds: 5,
        request: DbusRequestView::OpenDirectory { parent_window: Seq::empty() },
    }
}

/// The failure of a path that has no `file` URI.
pub open spec fn uri_failure() -> OpenErrorView {
    OpenErrorView::Io(
        IoFailureView {
            kind: IoKind::InvalidInput,
            code: None,
            message: "The given file path could not be converted to a URI"@,
        },
    )
}

/// The input/output failure that stands for an error of the session bus: it
/// keeps the error's description.
pub open spec fn dbus_io_failure(message: Seq<char>) -> IoFailureView {
    IoFailureView { kind: IoKind::Other, code: None, message }
}

/// The failure that stands for an error of the session bus.
pub open spec fn dbus_failure(message: Seq<char>) -> OpenErrorView {
    OpenErrorView::Io(dbus_io_failure(message))
}

/// The `file` URI that the crate `url` gives to a path, where it gives one.
/// The path is read by the rules of the platform that the library is built
/// for.
pub uninterp spec fn file_url_of(path: Seq<char>) -> Option<Seq<char>>;

/// The failure of a path that could not be resolved: invalid input, with the
/// code and the description of what went wrong when it was resolved.
pub open spec fn unresolved_failure(cause: IoFailureView) -> OpenErrorView {
    OpenErrorView::Io(IoFailureView { kind: IoKind::InvalidInput, ..cause })
}

/// The URI of a file, from what resolving its path gave: where the
/// resolution failed, the failure of a path that could not be resolved; else
/// the URI of the resolved path, or the failure of a path that has none.
/// Either failure is one of invalid input.
pub open spec fn uri_of(canonical: Result<Seq<char>, IoFailureView>) -> Result<
    Seq<char>,
    OpenErrorView,
> {
    match canonical {
        Ok(path) => uri_of_conversion(file_url_of(path)),
        Err(cause) => Err(unresolved_failure(cause)),
    }
}

/// The URI that a conversion gave, or the failure of a path that has none.
pub open spec fn uri_of_conversion(url: Option<Seq<char>>) -> Result<Seq<char>, OpenErrorView> {
    match url {
        Some(uri) => Ok(uri),
        None => Err(uri_failure()),
    }
}

/// `url::Url::from_file_path`, and the text of the URL it builds. The crate
/// refuses a path that is not absolute; for an absolute one it writes
/// `file://` and the percent-encoded components of the path. The contract
/// gives that result its name and says no more.
#[verifier::external_body]
fn file_url(path: &str) -> (r: Option<String>)
    ensures
        r.deep_view() == file_url_of(path@),
{
    match url::Url::from_file_path(std::path::Path::new(path)) {
        Ok(url) => Some(url.as_str().to_owned()),
        Err(_) => None,
    }
}

/// The failure of a path that has no `file` URI.
pub fn uri_to_open_error() -> (r: OpenError)
    ensures
        r@ == uri_failure(),
{
    OpenError::Io(
        IoFailure::new(IoKind::InvalidInput, "The given file path could not be converted to a URI"),
    )
}

/// The input/output failure that stands for an error of the session bus,
/// which is kept as its description.
pub fn dbus_to_io_failure(message: String) -> (r: IoFailure)
    ensures
        r@ == dbus_io_failure(message@),
{
    IoFailure { kind: IoKind::Other, code: None, message }
}

/// The failure that stands for an error of the session bus.
pub fn dbus_to_open_error(message: String) -> (r: OpenError)
    ensures
        r@ == dbus_failure(message@),
{
    OpenError::Io(dbus_to_io_failure(message))
}

/// Turns what the conversion of a path gave into the URI or the failure.
pub fn uri_from_conversion(url: Option<String>) -> (r: Result<String, OpenError>)
    ensures
        match r {
            Ok(uri) => uri_of_conversion(url.deep_view()) == Ok::<Seq<char>, OpenErrorView>(uri@),
            Err(error) => uri_of_conversion(url.deep_view()) == Err::<Seq<char>, OpenErrorView>(
                error@,
            ),
        },
{
    match url {
        Some(uri) => Ok(uri),
        None => Err(uri_to_open_error()),
    }
}

/// The `file` URI of a file. `canonical` is what resolving the file's path
/// to an absolute one gave. A path that could not be resolved, because the
/// file does not exist for one, and a resolved path that has no URI both fail
/// here as invalid input, before anything is sent to the session bus.
pub fn path_to_uri(canonical: Result<String, IoFailure>) -> (r: Result<String, OpenError>)
    ensures
        match r {
            Ok(uri) => uri_of(canonical_view(canonical)) == Ok::<Seq<char>, OpenErrorView>(uri@),
            Err(error) => uri_of(canonical_view(canonical)) == Err::<Seq<char>, OpenErrorView>(
                error@,
            ),
        },
        canonical is Err ==> r is Err,
        r matches Err(error) ==> error matches OpenError::Io(failure) && failure.kind
            == IoKind::InvalidInput,
{
    match canonical {
        Ok(path) => uri_from_conversion(file_url(path.as_str())),
        Err(cause) => Err(
            OpenError::Io(
                IoFailure { kind: IoKind::InvalidInput, code: cause.code, message: cause.message },
            ),
        ),
    }
}

/// The mathematical value of a resolved path or the failure to resolve it.
pub open spec fn canonical_view(canonical: Result<String, IoFailure>) -> Result<
    Seq<char>,
    IoFailureView,
> {
    match canonical {
        Ok(path) => Ok(path@),
        Err(failure) => Err(failure@),
    }
}

/// The call that shows the item behind `uri` in the file manager.
pub fn reveal_with_filemanager1(uri: String) -> (r: DbusCall)
    ensures
        r@ == show_items(uri@),
{
    let mut uris: Vec<String> = Vec::new();
    uris.push(uri);
    assert(uris.deep_view() =~= seq![uri@]);
    DbusCall {
        destination: "org.freedesktop.FileManager1",
        object_path: "/org/freedesktop/FileManager1",
        interface: "org.freedesktop.FileManager1",
        method: "ShowItems",
        timeout_seconds: DBUS_TIMEOUT_SECONDS,
        request: DbusRequest::ShowItems { uris, startup_id: String::new() },
    }
}

/// The call that opens the directory of the file whose handle the caller
/// attaches.
pub fn reveal_with_open_uri_portal() -> (r: DbusCall)
    ensures
        r@ == open_directory(),
{
    DbusCall {
        destination: "org.freedesktop.portal.Desktop",
        object_path: "/org/freedesktop/portal/desktop",
        interface: "org.freedesktop.portal.OpenURI",
        method: "OpenDirectory",
        timeout_seconds: DBUS_TIMEOUT_SECONDS,
        request: DbusRequest::OpenDirectory { parent_window: String::new() },
    }
}

} // verus!
