//! The shared handle: the one place that owns the data-access client, filled
//! on first request and handed to every request after it.
//!
//! A construction that fails leaves the handle empty and is reported to the
//! request that triggered it; the next request tries again.

use vstd::prelude::*;
use vstd::string::StringExecFns;

use crate::error::Error;
use crate::error::ErrorView;
use crate::prisma::PrismaClient;
use crate::prisma::PrismaModel;

verus! {

/// Detail of the failure reported when the client could not be constructed
/// and the cause is no storage fault.
pub const DETAIL_INIT_FAILED: &'static str = "Falha ao inicializar ou obter cliente Prisma";

/// What a request is told when the construction failed with `e`: a storage
/// fault as it is, anything else as an unknown failure of the initialisation.
pub open spec fn init_failure(e: ErrorView) -> ErrorView {
    match e {
        ErrorView::DatabaseQuery { source } => e,
        _ => ErrorView::Unknown(DETAIL_INIT_FAILED@),
    }
}

/// What a request is told when the construction failed with `e`.
pub fn map_init_failure(e: Error) -> (mapped: Error)
    ensures
        mapped@ == init_failure(e@),
{
    match e {
        Error::DatabaseQuery { source } => Error::DatabaseQuery { source },
        _ => Error::Unknown(String::from_str(DETAIL_INIT_FAILED)),
    }
}

/// Constructs the data-access client. The in-memory client cannot fail to
/// come up.
pub fn initialize_prisma_client() -> (r: Result<PrismaClient, Error>)
    ensures
        r matches Ok(client) && client.wf() && client@ == PrismaModel::empty(),
{
    Ok(PrismaClient::new())
}

/// What a handle in state `h` gives to a request: the client it holds, or
/// the one that the request makes it construct.
pub open spec fn served(h: Option<PrismaModel>) -> PrismaModel {
    match h {
        Some(client) => client,
        None => PrismaModel::empty(),
    }
}

/// How many clients a request to a handle in state `h` constructs.
pub open spec fn constructed_by_request(h: Option<PrismaModel>) -> nat {
    if h is None {
        1
    } else {
        0
    }
}

/// The state of a handle after `n` requests that left the client as they
/// found it.
pub open spec fn after_requests(h: Option<PrismaModel>, n: nat) -> Option<PrismaModel>
    decreases n,
{
    if n == 0 {
        h
    } else {
        after_requests(Some(served(h)), (n - 1) as nat)
    }
}

/// How many clients `n` requests to a handle in state `h` construct, where
/// each leaves the client as it found it.
pub open spec fn constructed_by_requests(h: Option<PrismaModel>, n: nat) -> nat
    decreases n,
{
    if n == 0 {
        0
    } else {
        constructed_by_request(h) + constructed_by_requests(Some(served(h)), (n - 1) as nat)
    }
}

/// Requests to a handle that holds a client construct nothing and leave it
/// holding that client.
pub proof fn lemma_filled_handle_is_stable(client: PrismaModel, n: nat)
    ensures
        constructed_by_requests(Some(client), n) == 0,
        after_requests(Some(client), n) == Some(client),
    decreases n,
{
    if n > 0 {
        lemma_filled_handle_is_stable(client, (n - 1) as nat);
    }
}

/// However many requests reach a fresh handle, one after the other, one
/// client is constructed, by the first, and every request is served that
/// client.
pub proof fn lemma_initialized_once(n: nat)
    requires
        n >= 1,
    ensures
        constructed_by_requests(None, n) == 1,
        after_requests(None, n) == Some(PrismaModel::empty()),
        forall|k: nat| 1 <= k <= n ==> served(#[trigger] after_requests(None, k)) == served(None),
{
    lemma_filled_handle_is_stable(PrismaModel::empty(), (n - 1) as nat);
    assert forall|k: nat| 1 <= k <= n implies served(#[trigger] after_requests(None, k)) == served(
        None,
    ) by {
        lemma_filled_handle_is_stable(PrismaModel::empty(), (k - 1) as nat);
    }
}

/// The owner of the data-access client. It starts empty, is filled by the
/// first request, and is never emptied again.
pub struct SharedHandle {
    client: Option<PrismaClient>,
}

impl View for SharedHandle {
    type V = Option<PrismaModel>;

    closed spec fn view(&self) -> Option<PrismaModel> {
        match self.client {
            Some(client) => Some(client@),
            None => None,
        }
    }
}

impl SharedHandle {
    /// The client that the handle holds, if any, is well-formed.
    pub open spec fn wf(&self) -> bool {
        self@ matches Some(client) ==> client.clientes.wf()
    }

    /// What the handle gives to the next request.
    pub open spec fn served(&self) -> PrismaModel {
        served(self@)
    }

    /// An empty handle.
    pub fn new() -> (handle: SharedHandle)
        ensures
            handle.wf(),
            handle@ is None,
    {
        SharedHandle { client: None }
    }

    /// Whether the handle holds a client.
    pub fn is_initialized(&self) -> (b: bool)
        ensures
            b == (self@ is Some),
    {
        self.client.is_some()
    }

    /// Takes in the outcome of a construction. A handle that holds a client
    /// keeps it, whatever the outcome. An empty handle takes the client of a
    /// construction that succeeded; after one that failed it stays empty and
    /// the failure is reported.
    pub fn settle(&mut self, outcome: Result<PrismaClient, Error>) -> (r: Result<(), Error>)
        requires
            old(self).wf(),
            outcome matches Ok(client) ==> client.wf(),
        ensures
            final(self).wf(),
            match (old(self)@, outcome) {
                (Some(_), _) => r is Ok && final(self)@ == old(self)@,
                (None, Ok(client)) => r is Ok && final(self)@ == Some(client@),
                (None, Err(e)) => {
                    &&& r matches Err(mapped)
                    &&& mapped@ == init_failure(e@)
                    &&& final(self)@ is None
                },
            },
    {
        if self.client.is_some() {
            return Ok(());
        }
        match outcome {
            Ok(client) => {
                self.client = Some(client);
                Ok(())
            },
            Err(e) => Err(map_init_failure(e)),
        }
    }
}

/// The data-access client for a request: the one that the handle holds, or,
/// where it holds none, a new one that it holds from then on. What the
/// request does to the client, it does to the handle's.
pub fn get_prisma_client(handle: &mut SharedHandle) -> (r: Result<&mut PrismaClient, Error>)
    requires
        old(handle).wf(),
    ensures
        r is Ok,
        r matches Ok(client) ==> {
            &&& client.wf()
            &&& client@ == old(handle).served()
            &&& final(handle)@ == Some(final(client)@)
        },
{
    if !handle.is_initialized() {
        match handle.settle(initialize_prisma_client()) {
            Ok(()) => {},
            Err(e) => {
                return Err(e);
            },
        }
    }
    match &mut handle.client {
        Some(client) => Ok(client),
        None => Err(Error::Unknown(String::from_str(DETAIL_INIT_FAILED))),
    }
}

} // verus!
