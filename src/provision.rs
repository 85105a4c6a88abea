use vstd::prelude::*;
use crate::permission::{authorize, first_denied, Permission};
use crate::record::{
    admin_model, admin_record, domain_model, domain_record, tenant_model, tenant_record,
    PrincipalRecord, RecordModel,
};
use crate::request::{first_missing, OrganizationProvisionRequest, RequestModel, RequiredField};
use crate::route::{is_provision_route, is_provision_route_spec, Method};

verus! {

/// The identifiers the directory assigned to the three new principals.
#[derive(Clone, Copy, Debug, PartialEq, Eq, Structural)]
pub struct OrganizationProvisionResponse {
    pub tenant_id: u32,
    pub domain_id: u32,
    pub admin_id: u32,
}

/// Why provisioning stopped. `E` is the directory store's own error, handed
/// back unchanged.
#[derive(Clone, Debug, PartialEq, Eq)]
pub enum ProvisionError<E> {
    NotFound,
    BadParameters,
    MissingField(RequiredField),
    PermissionDenied(Permission),
    Store(E),
}

/// Where a provisioning run stands. Each phase records the identifiers the
/// directory has assigned so far.
#[derive(Clone, Copy, Debug, PartialEq, Eq, Structural)]
pub enum Phase {
    AwaitTenant,
    InvalidateTenant { tenant_id: u32 },
    AwaitDomain { tenant_id: u32 },
    InvalidateDomain { tenant_id: u32, domain_id: u32 },
    AwaitAdmin { tenant_id: u32, domain_id: u32 },
    InvalidateAdmin { tenant_id: u32, domain_id: u32, admin_id: u32 },
    Finished,
}

/// What the caller of the state machine is to do next.
pub enum Command<E> {
    /// Submit `record` to the directory store, under `parent` if there is one.
    Create { record: PrincipalRecord, parent: Option<u32> },
    /// Evict the cached views of these principals.
    Invalidate(Vec<u32>),
    /// The run is over: answer with the three identifiers.
    Respond(OrganizationProvisionResponse),
    /// The run is over: answer with this error.
    Fail(ProvisionError<E>),
}

pub enum CommandModel<E> {
    Create { record: RecordModel, parent: Option<u32> },
    Invalidate(Seq<u32>),
    Respond(OrganizationProvisionResponse),
    Fail(ProvisionError<E>),
}

impl<E> View for Command<E> {
    type V = CommandModel<E>;

    open spec fn view(&self) -> CommandModel<E> {
        match self {
            Command::Create { record, parent } => CommandModel::Create { record: record@, parent: *parent },
            Command::Invalidate(ids) => CommandModel::Invalidate(ids@),
            Command::Respond(r) => CommandModel::Respond(*r),
            Command::Fail(e) => CommandModel::Fail(*e),
        }
    }
}

/// What the outside world reports back to the state machine.
pub enum EventModel<E> {
    /// The directory created the principal under `id`; `changed` lists the
    /// principals whose cached views went stale.
    Created { id: u32, changed: Seq<u32> },
    /// The directory refused the creation.
    Failed(E),
    /// The cache evicted what it was asked to.
    Invalidated,
}

pub struct ProvState {
    pub request: RequestModel,
    pub phase: Phase,
}

/// One provisioning run: the validated request and how far the run has come.
pub struct Provisioning {
    request: OrganizationProvisionRequest,
    phase: Phase,
}

impl View for Provisioning {
    type V = ProvState;

    closed spec fn view(&self) -> ProvState {
        ProvState { request: self.request@, phase: self.phase }
    }
}

pub open spec fn awaiting_creation(phase: Phase) -> bool {
    phase is AwaitTenant || phase is AwaitDomain || phase is AwaitAdmin
}

pub open spec fn awaiting_invalidation(phase: Phase) -> bool {
    phase is InvalidateTenant || phase is InvalidateDomain || phase is InvalidateAdmin
}

/// How a run opens: the route is checked, then the caller's capabilities,
/// then the request; only then is the tenant submitted, under the caller's
/// own tenant when the caller is bound to one.
pub open spec fn start<E>(
    route_ok: bool,
    granted: Seq<Permission>,
    scope: Option<u32>,
    parsed: Option<RequestModel>,
) -> Result<(ProvState, CommandModel<E>), ProvisionError<E>> {
    if !route_ok {
        Err(ProvisionError::NotFound)
    } else if first_denied(granted) is Some {
        Err(ProvisionError::PermissionDenied(first_denied(granted)->0))
    } else {
        match parsed {
            None => Err(ProvisionError::BadParameters),
            Some(req) => match first_missing(req) {
                Some(f) => Err(ProvisionError::MissingField(f)),
                None => Ok((
                    ProvState { request: req, phase: Phase::AwaitTenant },
                    CommandModel::Create { record: tenant_model(req), parent: scope },
                )),
            },
        }
    }
}

/// One step of a run: the next state and command for an event, or `None`
/// where the phase does not wait for that event.
pub open spec fn transition<E>(s: ProvState, ev: EventModel<E>) -> Option<(ProvState, CommandModel<E>)> {
    let req = s.request;
    match ev {
        EventModel::Created { id, changed } => match s.phase {
            Phase::AwaitTenant => Some((
                ProvState { request: req, phase: Phase::InvalidateTenant { tenant_id: id } },
                CommandModel::Invalidate(changed),
            )),
            Phase::AwaitDomain { tenant_id } => Some((
                ProvState { request: req, phase: Phase::InvalidateDomain { tenant_id, domain_id: id } },
                CommandModel::Invalidate(changed),
            )),
            Phase::AwaitAdmin { tenant_id, domain_id } => Some((
                ProvState {
                    request: req,
                    phase: Phase::InvalidateAdmin { tenant_id, domain_id, admin_id: id },
                },
                CommandModel::Invalidate(changed),
            )),
            _ => None,
        },
        EventModel::Failed(e) => if awaiting_creation(s.phase) {
            Some((
                ProvState { request: req, phase: Phase::Finished },
                CommandModel::Fail(ProvisionError::Store(e)),
            ))
        } else {
            None
        },
        EventModel::Invalidated => match s.phase {
            Phase::InvalidateTenant { tenant_id } => Some((
                ProvState { request: req, phase: Phase::AwaitDomain { tenant_id } },
                CommandModel::Create { record: domain_model(req), parent: Some(tenant_id) },
            )),
            Phase::InvalidateDomain { tenant_id, domain_id } => Some((
                ProvState { request: req, phase: Phase::AwaitAdmin { tenant_id, domain_id } },
                CommandModel::Create { record: admin_model(req), parent: Some(tenant_id) },
            )),
            Phase::InvalidateAdmin { tenant_id, domain_id, admin_id } => Some((
                ProvState { request: req, phase: Phase::Finished },
                CommandModel::Respond(OrganizationProvisionResponse { tenant_id, domain_id, admin_id }),
            )),
            _ => None,
        },
    }
}

/// The commands a run issues from state `s` for the events `evs`, up to the
/// first event the run does not wait for.
pub open spec fn trace<E>(s: ProvState, evs: Seq<EventModel<E>>) -> Seq<CommandModel<E>>
    decreases evs.len(),
{
    if evs.len() == 0 {
        seq![]
    } else {
        match transition(s, evs[0]) {
            Some((next, c)) => seq![c] + trace(next, evs.drop_first()),
            None => seq![],
        }
    }
}

/// Every command a whole run issues, from its opening to the events `evs`.
pub open spec fn run<E>(
    route_ok: bool,
    granted: Seq<Permission>,
    scope: Option<u32>,
    parsed: Option<RequestModel>,
    evs: Seq<EventModel<E>>,
) -> Seq<CommandModel<E>> {
    match start::<E>(route_ok, granted, scope, parsed) {
        Ok((s, c)) => seq![c] + trace(s, evs),
        Err(e) => seq![CommandModel::Fail(e)],
    }
}

pub open spec fn request_of(parsed: Option<OrganizationProvisionRequest>) -> Option<RequestModel> {
    match parsed {
        Some(r) => Some(r@),
        None => None,
    }
}

impl Provisioning {
    /// Opens a run. `parsed` is the request body, or `None` where it was not
    /// well-formed; `caller_tenant` is the tenant the caller is bound to.
    /// Nothing is submitted unless the route, every capability and every
    /// required field check out.
    pub fn begin<E>(
        path: &Vec<String>,
        method: Method,
        granted: &Vec<Permission>,
        caller_tenant: Option<u32>,
        parsed: Option<OrganizationProvisionRequest>,
    ) -> (r: Result<(Provisioning, Command<E>), ProvisionError<E>>)
        ensures
            (match r {
                Ok((p, c)) => start::<E>(
                    is_provision_route_spec(path.deep_view(), method),
                    granted@,
                    caller_tenant,
                    request_of(parsed),
                ) == Ok::<(ProvState, CommandModel<E>), ProvisionError<E>>((p@, c@)),
                Err(e) => start::<E>(
                    is_provision_route_spec(path.deep_view(), method),
                    granted@,
                    caller_tenant,
                    request_of(parsed),
                ) == Err::<(ProvState, CommandModel<E>), ProvisionError<E>>(e),
            }),
    {
        if !is_provision_route(path, method) {
            return Err(ProvisionError::NotFound);
        }
        match authorize(granted) {
            Err(p) => {
                return Err(ProvisionError::PermissionDenied(p));
            },
            Ok(()) => {},
        }
        let request = match parsed {
            None => {
                return Err(ProvisionError::BadParameters);
            },
            Some(request) => request,
        };
        match request.validate() {
            Err(f) => {
                return Err(ProvisionError::MissingField(f));
            },
            Ok(()) => {},
        }
        let record = tenant_record(&request);
        let p = Provisioning { request, phase: Phase::AwaitTenant };
        Ok((p, Command::Create { record, parent: caller_tenant }))
    }

    /// Whether the run waits for the outcome of a creation.
    pub fn awaits_creation(&self) -> (r: bool)
        ensures
            r == awaiting_creation(self@.phase),
    {
        match self.phase {
            Phase::AwaitTenant => true,
            Phase::AwaitDomain { .. } => true,
            Phase::AwaitAdmin { .. } => true,
            _ => false,
        }
    }

    /// Whether the run waits for a cache invalidation to finish.
    pub fn awaits_invalidation(&self) -> (r: bool)
        ensures
            r == awaiting_invalidation(self@.phase),
    {
        match self.phase {
            Phase::InvalidateTenant { .. } => true,
            Phase::InvalidateDomain { .. } => true,
            Phase::InvalidateAdmin { .. } => true,
            _ => false,
        }
    }

    /// The directory created the pending principal under `id`: its stale
    /// cached views are to be evicted before anything else happens.
    pub fn on_created<E>(&mut self, id: u32, changed: Vec<u32>) -> (c: Command<E>)
        requires
            awaiting_creation(old(self)@.phase),
        ensures
            transition(old(self)@, EventModel::<E>::Created { id, changed: changed@ })
                == Some((final(self)@, c@)),
    {
        match self.phase {
            Phase::AwaitTenant => {
                self.phase = Phase::InvalidateTenant { tenant_id: id };
            },
            Phase::AwaitDomain { tenant_id } => {
                self.phase = Phase::InvalidateDomain { tenant_id, domain_id: id };
            },
            Phase::AwaitAdmin { tenant_id, domain_id } => {
                self.phase = Phase::InvalidateAdmin { tenant_id, domain_id, admin_id: id };
            },
            // Not reached: the phase waits for a creation.
            _ => {},
        }
        Command::Invalidate(changed)
    }

    /// The directory refused the pending principal: the run ends with its
    /// error, and what was created before stays as it is.
    pub fn on_create_failed<E>(&mut self, err: E) -> (c: Command<E>)
        requires
            awaiting_creation(old(self)@.phase),
        ensures
            transition(old(self)@, EventModel::Failed(err)) == Some((final(self)@, c@)),
    {
        self.phase = Phase::Finished;
        Command::Fail(ProvisionError::Store(err))
    }

    /// The cache evicted the views of the last creation: the next principal,
    /// bound to the new tenant, is submitted, or the run answers.
    pub fn on_invalidated<E>(&mut self) -> (c: Command<E>)
        requires
            awaiting_invalidation(old(self)@.phase),
        ensures
            transition(old(self)@, EventModel::<E>::Invalidated) == Some((final(self)@, c@)),
    {
        match self.phase {
            Phase::InvalidateTenant { tenant_id } => {
                self.phase = Phase::AwaitDomain { tenant_id };
                Command::Create { record: domain_record(&self.request), parent: Some(tenant_id) }
            },
            Phase::InvalidateDomain { tenant_id, domain_id } => {
                self.phase = Phase::AwaitAdmin { tenant_id, domain_id };
                Command::Create { record: admin_record(&self.request), parent: Some(tenant_id) }
            },
            Phase::InvalidateAdmin { tenant_id, domain_id, admin_id } => {
                self.phase = Phase::Finished;
                Command::Respond(OrganizationProvisionResponse { tenant_id, domain_id, admin_id })
            },
            // Not reached: the phase waits for an invalidation.
            _ => Command::Invalidate(Vec::new()),
        }
    }
}

} // verus!
