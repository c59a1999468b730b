//! Single-ownership model of the native server resource.
//!
//! A `Server` registers services and is started at most once on a TCP port.
//! Each registration fixes who owns the service object: under
//! `ServerOwnsService` the server destroys the service at its own teardown,
//! under `ServerDoesntOwnService` the caller keeps exclusive ownership and
//! teardown leaves the service untouched. Destroying the server consumes it,
//! so a handle can never be released twice or used after release.
//!
//! The run loop of the native runtime blocks until a process-wide
//! cancellation signal is observed; that signal is modeled as a
//! `CancelToken` polled cooperatively by the loop.

use vstd::prelude::*;
use crate::error::{BrpcError, BrpcResult};

verus! {

/// Who owns a registered service object.
#[derive(Clone, Copy, Debug, PartialEq, Eq, Structural)]
pub enum ServiceOwnership {
    /// The server destroys the service at its own teardown.
    ServerOwnsService,
    /// The caller keeps ownership; teardown leaves the service untouched.
    ServerDoesntOwnService,
}

/// A service implementation that can be registered with a `Server`.
///
/// An implementation names itself by a nonzero identifier; 0 stands for a
/// null or invalid service reference, which every registration rejects.
pub trait Service {
    /// The identifier the implementation reports.
    spec fn spec_service_id(&self) -> u64;

    /// Report the identifier of this service; 0 means null or invalid.
    fn service_id(&self) -> (id: u64)
        ensures
            id == self.spec_service_id(),
    ;
}

/// A plain service reference carrying only its identifier: what a
/// generated stub hands to the registration, with 0 standing for a null
/// reference.
#[derive(Clone, Copy, Debug, PartialEq, Eq, Structural)]
pub struct ServiceStub {
    /// Identifier of the service object; 0 means null or invalid.
    pub id: u64,
}

impl Service for ServiceStub {
    open spec fn spec_service_id(&self) -> u64 {
        self.id
    }

    fn service_id(&self) -> (id: u64) {
        self.id
    }
}

/// One registration: a service identifier and who owns the service.
#[derive(Clone, Copy, Debug, PartialEq, Eq, Structural)]
pub struct ServiceEntry {
    /// Identifier of the registered service.
    pub id: u64,
    /// Ownership fixed at registration.
    pub ownership: ServiceOwnership,
}

/// The identifiers that a server owns and therefore destroys at teardown:
/// those registered with `ServerOwnsService`, in registration order.
pub open spec fn owned_ids(s: Seq<ServiceEntry>) -> Seq<u64>
    decreases s.len(),
{
    if s.len() == 0 {
        Seq::empty()
    } else {
        let rest = owned_ids(s.drop_last());
        if s.last().ownership == ServiceOwnership::ServerOwnsService {
            rest.push(s.last().id)
        } else {
            rest
        }
    }
}

/// Whether position `j` of `s` registers service `x` as server-owned.
pub open spec fn owns_at(s: Seq<ServiceEntry>, j: int, x: u64) -> bool {
    &&& 0 <= j < s.len()
    &&& s[j].ownership == ServiceOwnership::ServerOwnsService
    &&& s[j].id == x
}

/// Ownership law: teardown destroys exactly the services registered with
/// `ServerOwnsService`; a service only ever registered with
/// `ServerDoesntOwnService` is never among the destroyed ones.
pub proof fn lemma_ownership_at_teardown(s: Seq<ServiceEntry>)
    ensures
        forall|x: u64| owned_ids(s).contains(x) <==> exists|j: int| #[trigger] owns_at(s, j, x),
    decreases s.len(),
{
    if s.len() == 0 {
        assert(forall|x: u64| !owned_ids(s).contains(x));
    } else {
        let dl = s.drop_last();
        lemma_ownership_at_teardown(dl);
        assert forall|x: u64| owned_ids(s).contains(x) implies exists|j: int|
            #[trigger] owns_at(s, j, x) by {
            if s.last().ownership == ServiceOwnership::ServerOwnsService && s.last().id == x {
                assert(owns_at(s, s.len() - 1, x));
            } else {
                let k = choose|k: int| 0 <= k < owned_ids(s).len() && owned_ids(s)[k] == x;
                assert(owned_ids(dl).contains(x));
                let j = choose|j: int| #[trigger] owns_at(dl, j, x);
                assert(owns_at(s, j, x));
            }
        }
        assert forall|x: u64| (exists|j: int| #[trigger] owns_at(s, j, x)) implies owned_ids(
            s,
        ).contains(x) by {
            let j = choose|j: int| #[trigger] owns_at(s, j, x);
            if j == s.len() - 1 {
                assert(owned_ids(s)[owned_ids(s).len() - 1] == x);
            } else {
                assert(owns_at(dl, j, x));
                assert(owned_ids(dl).contains(x));
                let k = choose|k: int| 0 <= k < owned_ids(dl).len() && owned_ids(dl)[k] == x;
                assert(owned_ids(s)[k] == x);
            }
        }
    }
}

/// Process-wide cancellation signal, polled cooperatively by a server's
/// run loop. It is constructed untriggered and can only ever be triggered.
pub struct CancelToken {
    triggered: bool,
}

impl CancelToken {
    /// Whether the signal has been observed.
    pub closed spec fn spec_triggered(&self) -> bool {
        self.triggered
    }

    /// A fresh, untriggered token.
    pub fn new() -> (t: CancelToken)
        ensures
            !t.spec_triggered(),
    {
        CancelToken { triggered: false }
    }

    /// Record that the process-wide quit signal fired.
    pub fn trigger(&mut self)
        ensures
            final(self).spec_triggered(),
    {
        self.triggered = true;
    }

    /// Poll the token.
    pub fn is_triggered(&self) -> (r: bool)
        ensures
            r == self.spec_triggered(),
    {
        self.triggered
    }
}

/// Model of the native server resource: its registrations and whether it
/// has been started, and on which port.
pub struct Server {
    /// Services registered so far, in registration order.
    pub services: Vec<ServiceEntry>,
    /// Whether the server has been started.
    pub started: bool,
    /// The TCP port the server was started on, if it was.
    pub port: Option<u16>,
    /// The idle-notification timeout the server was started with, if it
    /// was started.
    pub idle_timeout_ms: Option<i32>,
}

impl Server {
    /// A fresh server: no registrations, not started.
    pub fn new() -> (s: Server)
        ensures
            s.services@ == Seq::<ServiceEntry>::empty(),
            !s.started,
            s.port is None,
            s.idle_timeout_ms is None,
    {
        let s = Server { services: Vec::new(), started: false, port: None, idle_timeout_ms: None };
        proof {
            assert(s.services@ =~= Seq::<ServiceEntry>::empty());
        }
        s
    }

    /// Register a service. A null or invalid service reference (identifier
    /// 0) is rejected with an internal error and changes nothing; any other
    /// service is appended to the registrations with the given ownership.
    pub fn add_service<T: Service>(&mut self, service: &T, ownership: ServiceOwnership) -> (r:
        BrpcResult<()>)
        ensures
            final(self).started == old(self).started,
            final(self).port == old(self).port,
            final(self).idle_timeout_ms == old(self).idle_timeout_ms,
            service.spec_service_id() != 0 ==> (r == Ok::<(), BrpcError>(())
                && final(self).services@ == old(self).services@.push(
                ServiceEntry { id: service.spec_service_id(), ownership },
            )),
            service.spec_service_id() == 0 ==> (r == Err::<(), BrpcError>(BrpcError::EINTERNAL)
                && final(self).services@ == old(self).services@),
    {
        let id = service.service_id();
        if id == 0 {
            Err(BrpcError::EINTERNAL)
        } else {
            self.services.push(ServiceEntry { id, ownership });
            Ok(())
        }
    }

    /// Start the server on a TCP port, snapshotting the given options.
    /// Succeeds exactly when the server was not already started; starting
    /// twice is an internal error and changes nothing.
    pub fn start(&mut self, port: u16, opt: &ServerOptions) -> (r: BrpcResult<()>)
        ensures
            final(self).services@ == old(self).services@,
            !old(self).started ==> (r == Ok::<(), BrpcError>(()) && final(self).started
                && final(self).port == Some(port) && final(self).idle_timeout_ms == Some(
                opt.idle_timeout_ms,
            )),
            old(self).started ==> (r == Err::<(), BrpcError>(BrpcError::EINTERNAL) && *final(self)
                == *old(self)),
    {
        if self.started {
            Err(BrpcError::EINTERNAL)
        } else {
            self.started = true;
            self.port = Some(port);
            self.idle_timeout_ms = Some(opt.idle_timeout_ms);
            Ok(())
        }
    }

    /// One decision of the run loop: report whether the loop must return,
    /// which is exactly when the cancellation token has been triggered.
    pub fn run_step(&self, token: &CancelToken) -> (stop: bool)
        ensures
            stop == token.spec_triggered(),
    {
        token.is_triggered()
    }

    /// Tear the server down, releasing the handle exactly once: consuming
    /// the server makes a second release or a later use impossible. Returns
    /// the identifiers of the services the teardown destroys — exactly the
    /// ones registered with `ServerOwnsService`, in registration order.
    pub fn destroy(self) -> (destroyed: Vec<u64>)
        ensures
            destroyed@ == owned_ids(self.services@),
    {
        let mut destroyed: Vec<u64> = Vec::new();
        let n = self.services.len();
        proof {
            assert(destroyed@ =~= owned_ids(self.services@.take(0)));
        }
        let mut i: usize = 0;
        while i < n
            invariant
                n == self.services@.len(),
                i <= n,
                destroyed@ == owned_ids(self.services@.take(i as int)),
            decreases n - i,
        {
            let e = self.services[i];
            proof {
                let pre = self.services@.take(i as int);
                let post = self.services@.take(i + 1);
                assert(post.drop_last() =~= pre);
                assert(post.last() == e);
            }
            match e.ownership {
                ServiceOwnership::ServerOwnsService => {
                    destroyed.push(e.id);
                },
                ServiceOwnership::ServerDoesntOwnService => {},
            }
            i = i + 1;
        }
        proof {
            assert(self.services@.take(n as int) =~= self.services@);
        }
        destroyed
    }
}

impl Default for Server {
    /// Same as `Server::new`.
    fn default() -> (s: Server)
        ensures
            s.services@ == Seq::<ServiceEntry>::empty(),
            !s.started,
            s.port is None,
            s.idle_timeout_ms is None,
    {
        Server::new()
    }
}

/// Options applied to a server when it starts.
pub struct ServerOptions {
    /// Notify the user when there has been no data for at least this many
    /// milliseconds; -1 disables the notification and is the default.
    pub idle_timeout_ms: i32,
}

impl ServerOptions {
    /// Options with every value at its default.
    pub fn new() -> (o: ServerOptions)
        ensures
            o.idle_timeout_ms == -1i32,
    {
        ServerOptions { idle_timeout_ms: -1 }
    }

    /// Set the idle-notification timeout in milliseconds.
    pub fn set_idle_timeout_ms(&mut self, timeout: i32)
        ensures
            final(self).idle_timeout_ms == timeout,
    {
        self.idle_timeout_ms = timeout;
    }
}

impl Default for ServerOptions {
    /// Same as `ServerOptions::new`.
    fn default() -> (o: ServerOptions)
        ensures
            o.idle_timeout_ms == -1i32,
    {
        ServerOptions::new()
    }
}

} // verus!
