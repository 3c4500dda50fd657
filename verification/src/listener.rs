//! The watcher lifecycle: a listener that owns at most one running backend.
//!
//! A listener is idle or active. It starts idle, taking over a started
//! backend makes it active, and `stop` makes it idle again. Starting a
//! backend takes a thread and is the caller's business: `watch` stops what
//! runs and says which backend to start, and the caller hands the started
//! backend's handle to `watch_generic` or `watch_wayland`. Whatever the
//! order of calls, a handle that the listener gives up is signalled first, so
//! no backend is left running unowned.

use std::sync::mpsc::Sender;

use clipboard_rs::WatcherShutdown;
use vstd::prelude::*;
use vstd::string::StringExecFns;

use crate::environment::{chars_of, is_wayland_environment, wayland_session};
use crate::error::{ClipboardError, Status};

verus! {

/// The shutdown token of a `clipboard_rs` watcher, carried through as an
/// opaque value.
#[verifier::external_type_specification]
#[verifier::external_body]
pub struct ExWatcherShutdown(WatcherShutdown);

/// The sending side of a channel of the standard library, carried through
/// as an opaque value.
#[verifier::external_type_specification]
#[verifier::external_body]
#[verifier::reject_recursive_types(T)]
pub struct ExSender<T>(Sender<T>);

/// The two watching strategies.
#[derive(Clone, Copy, Debug, PartialEq, Eq, Structural)]
pub enum BackendKind {
    /// The change notification of the operating system, any desktop.
    Generic,
    /// The paste stream of a Wayland compositor.
    Wayland,
}

/// The handle of a running backend: what it takes to ask it to stop.
pub enum ListenerType {
    /// The shutdown token of a generic backend.
    ClipboardRs(WatcherShutdown),
    /// The sending side of the stop channel of a Wayland backend.
    Wayland(Sender<()>),
}

/// The value of a listener: the backend kind fixed at construction, and the
/// handle of the backend that runs, if one does.
pub struct ListenerView {
    pub is_wayland: bool,
    pub backend: Option<ListenerType>,
}

/// A clipboard listener.
pub struct ClipboardListener {
    listener_type: Option<ListenerType>,
    is_wayland: bool,
}

impl BackendKind {
    /// The name under which a listener reports this kind.
    pub open spec fn spec_name(self) -> Seq<char> {
        match self {
            BackendKind::Generic => "generic"@,
            BackendKind::Wayland => "wayland"@,
        }
    }
}

impl ListenerType {
    /// The kind of backend that this handle belongs to.
    pub open spec fn spec_kind(self) -> BackendKind {
        match self {
            ListenerType::ClipboardRs(_) => BackendKind::Generic,
            ListenerType::Wayland(_) => BackendKind::Wayland,
        }
    }

    pub fn kind(&self) -> (kind: BackendKind)
        ensures
            kind == self.spec_kind(),
    {
        match self {
            ListenerType::ClipboardRs(_) => BackendKind::Generic,
            ListenerType::Wayland(_) => BackendKind::Wayland,
        }
    }

    /// Asks the backend of this handle to stop, in the way of its kind. The
    /// request is not waited for.
    pub fn shutdown(self) {
        match self {
            ListenerType::ClipboardRs(shutdown) => stop_watcher(shutdown),
            ListenerType::Wayland(stop_tx) => send_stop(stop_tx),
        }
    }
}

impl ListenerView {
    /// A listener is watching while it holds a handle.
    pub open spec fn is_watching(self) -> bool {
        self.backend is Some
    }

    /// The kind of backend that this listener starts.
    pub open spec fn kind(self) -> BackendKind {
        if self.is_wayland {
            BackendKind::Wayland
        } else {
            BackendKind::Generic
        }
    }

    /// The handle that a stop of this listener signals.
    pub open spec fn released(self) -> Option<ListenerType> {
        self.backend
    }

    /// This listener after a stop.
    pub open spec fn stopped(self) -> ListenerView {
        ListenerView { backend: None, ..self }
    }

    /// This listener with the handle it holds replaced: by the handle of a
    /// backend that was started, or by none.
    pub open spec fn started(self, handle: Option<ListenerType>) -> ListenerView {
        ListenerView { backend: handle, ..self }
    }
}

impl View for ClipboardListener {
    type V = ListenerView;

    closed spec fn view(&self) -> ListenerView {
        ListenerView { is_wayland: self.is_wayland, backend: self.listener_type }
    }
}

impl ClipboardListener {
    /// An idle listener for the session that the values describe. The kind
    /// of session is decided here, once; `native_wayland` says whether the
    /// platform has native Wayland support, the other two are the values of
    /// the display variable and of the session type variable.
    pub fn new(
        native_wayland: bool,
        wayland_display: Option<&str>,
        session_type: Option<&str>,
    ) -> (listener: ClipboardListener)
        ensures
            listener@ == (ListenerView {
                is_wayland: wayland_session(
                    native_wayland,
                    chars_of(wayland_display),
                    chars_of(session_type),
                ),
                backend: None,
            }),
    {
        let is_wayland = is_wayland_environment(native_wayland, wayland_display, session_type);
        ClipboardListener { listener_type: None, is_wayland }
    }

    /// Prepares to watch: stops the backend that runs, if one does, and says
    /// which kind of backend to start.
    pub fn watch(&mut self) -> (backend: Result<BackendKind, ClipboardError>)
        ensures
            final(self)@ == old(self)@.stopped(),
            backend == Ok::<BackendKind, ClipboardError>(old(self)@.kind()),
    {
        if self.listener_type.is_some() {
            match self.stop() {
                Ok(_) => {},
                Err(error) => {
                    return Err(error);
                },
            }
        }
        if self.is_wayland {
            Ok(BackendKind::Wayland)
        } else {
            Ok(BackendKind::Generic)
        }
    }

    /// Takes over a Wayland backend that was started, by the sending side of
    /// its stop channel. Where the platform has no Wayland backend there is
    /// none to hand over: this fails and the listener stays as it is.
    pub fn watch_wayland(&mut self, stop_tx: Option<Sender<()>>) -> (taken: Result<
        (),
        ClipboardError,
    >)
        ensures
            match stop_tx {
                Some(stop_tx) => taken is Ok && final(self)@ == old(self)@.started(
                    Some(ListenerType::Wayland(stop_tx)),
                ),
                None => {
                    &&& final(self)@ == old(self)@
                    &&& taken matches Err(error)
                    &&& error.status == Status::GenericFailure
                    &&& error.reason@
                        == "Wayland clipboard listener is not supported on this platform"@
                },
            },
    {
        match stop_tx {
            Some(stop_tx) => {
                self.replace(Some(ListenerType::Wayland(stop_tx)));
                Ok(())
            },
            None => Err(ClipboardError::wayland_unsupported()),
        }
    }

    /// Takes over a generic backend that was started, by its shutdown token.
    /// There is no way to call this without a token: a backend that did not
    /// come up is never taken for a running one.
    pub fn watch_generic(&mut self, shutdown: WatcherShutdown) -> (taken: Result<
        (),
        ClipboardError,
    >)
        ensures
            taken is Ok,
            final(self)@ == old(self)@.started(Some(ListenerType::ClipboardRs(shutdown))),
    {
        self.replace(Some(ListenerType::ClipboardRs(shutdown)));
        Ok(())
    }

    /// Stops watching: asks the running backend to stop and forgets it. On
    /// an idle listener this does nothing.
    pub fn stop(&mut self) -> (stopped: Result<(), ClipboardError>)
        ensures
            stopped is Ok,
            final(self)@ == old(self)@.stopped(),
    {
        self.replace(None);
        Ok(())
    }

    /// Whether a backend runs.
    pub fn is_watching(&self) -> (watching: bool)
        ensures
            watching == self@.is_watching(),
    {
        self.listener_type.is_some()
    }

    /// The name of the kind of backend that this listener uses, whether or
    /// not one runs: `"wayland"` or `"generic"`.
    pub fn get_listener_type(&self) -> (name: String)
        ensures
            name@ == self@.kind().spec_name(),
    {
        if self.is_wayland {
            String::from_str("wayland")
        } else {
            String::from_str("generic")
        }
    }

    /// Puts a handle, or none, in the place of the one held, and asks the
    /// backend of the one held to stop.
    fn replace(&mut self, handle: Option<ListenerType>)
        ensures
            final(self)@ == old(self)@.started(handle),
    {
        if let Some(held) = self.release(handle) {
            held.shutdown();
        }
    }

    /// Puts a handle, or none, in the place of the one held, and hands back
    /// the one held.
    fn release(&mut self, handle: Option<ListenerType>) -> (released: Option<ListenerType>)
        ensures
            released == old(self)@.released(),
            final(self)@ == old(self)@.started(handle),
    {
        let mut held = handle;
        std::mem::swap(&mut self.listener_type, &mut held);
        held
    }
}

/// Asks a generic backend to stop.
///
/// Trusted: calls `WatcherShutdown::stop`, which consumes the token and
/// returns nothing.
#[verifier::external_body]
fn stop_watcher(shutdown: WatcherShutdown) {
    shutdown.stop()
}

/// Asks a Wayland backend to stop.
///
/// Trusted: calls `Sender::send` with the unit signal. The call does not
/// block; where the receiving side is gone it returns an error, which is
/// dropped.
#[verifier::external_body]
fn send_stop(stop_tx: Sender<()>) {
    let _ = stop_tx.send(());
}

/// A stop leaves a listener idle, whatever it was, with its kind unchanged,
/// and a stop of an idle listener changes nothing and signals no backend.
pub proof fn lemma_stop(listener: ListenerView)
    ensures
        !listener.stopped().is_watching(),
        listener.stopped().kind() == listener.kind(),
        !listener.is_watching() ==> listener.stopped() == listener && listener.released() is None,
{
}

/// Taking over a started backend leaves the listener watching, holding
/// exactly the handle it was given. So a watch that ends well leaves the
/// listener watching, from whatever state it was begun.
pub proof fn lemma_taken_over_is_watching(listener: ListenerView, handle: ListenerType)
    ensures
        listener.stopped().started(Some(handle)).is_watching(),
        listener.stopped().started(Some(handle)).backend == Some(handle),
        listener.stopped().started(Some(handle)).kind() == listener.kind(),
{
}

/// Watching twice in succession leaves one backend, the second: the first
/// watch makes the listener hold the first handle, the second watch signals
/// exactly that handle before anything is started, and the listener then
/// holds the second handle and no other.
pub proof fn lemma_watch_twice(listener: ListenerView, first: ListenerType, second: ListenerType)
    ensures
        ({
            let once = listener.stopped().started(Some(first));
            let again = once.stopped().started(Some(second));
            &&& once.is_watching()
            &&& once.released() == Some(first)
            &&& !once.stopped().is_watching()
            &&& again.is_watching()
            &&& again.backend == Some(second)
            &&& again.kind() == listener.kind()
        }),
{
}

} // verus!
