use vstd::prelude::*;
use crate::handlers::{STATUS_CREATED, STATUS_OK};
use crate::project::Timestamp;

verus! {

/// The name under which this service registers itself.
pub const MODULE_NAME: &'static str = "projects";
/// The display name reported to the registry.
pub const MODULE_FULL_NAME: &'static str = "Projects";
/// The description reported to the registry.
pub const MODULE_DESCRIPTION: &'static str = "Projects Module";

/// A descriptor as the registry returns it.
pub struct GetModuleResponse {
    pub id: i32,
    pub name: String,
    pub full_name: String,
    pub description: String,
    pub api_url: String,
    pub web_url: String,
    pub created_at: Timestamp,
    pub updated_at: Timestamp,
}

/// The body of a create call to the registry.
pub struct NewModuleRequest {
    pub name: String,
    pub full_name: String,
    pub description: String,
    pub api_url: String,
    pub web_url: String,
}

/// The body of an update call to the registry.
pub struct UpdateModuleRequest {
    pub id: i32,
    pub name: String,
    pub full_name: String,
    pub description: String,
    pub api_url: String,
    pub web_url: String,
}

/// What the registration needs to know: the registry's base URL and the two
/// URLs this service reports about itself.
pub struct RegistrationConfig {
    pub core_api_url: String,
    pub api_url: String,
    pub web_url: String,
}

#[derive(PartialEq, Eq, Structural, Clone, Copy, Debug)]
pub enum HttpMethod {
    Get,
    Post,
    Put,
}

/// The body of a call to the registry.
pub enum RegistryBody {
    Empty,
    Create(NewModuleRequest),
    Update(UpdateModuleRequest),
}

/// A call to the registry, to be sent by the caller.
pub struct RegistryCall {
    pub method: HttpMethod,
    pub url: String,
    pub body: RegistryBody,
}

/// The descriptor fields that this service reports.
pub struct DescriptorView {
    pub name: Seq<char>,
    pub full_name: Seq<char>,
    pub description: Seq<char>,
    pub api_url: Seq<char>,
    pub web_url: Seq<char>,
}

pub enum BodyView {
    Empty,
    Create(DescriptorView),
    Update(i32, DescriptorView),
}

pub struct CallView {
    pub method: HttpMethod,
    pub url: Seq<char>,
    pub body: BodyView,
}

impl View for RegistryCall {
    type V = CallView;

    open spec fn view(&self) -> CallView {
        CallView {
            method: self.method,
            url: self.url@,
            body: match &self.body {
                RegistryBody::Empty => BodyView::Empty,
                RegistryBody::Create(b) => BodyView::Create(
                    DescriptorView {
                        name: b.name@,
                        full_name: b.full_name@,
                        description: b.description@,
                        api_url: b.api_url@,
                        web_url: b.web_url@,
                    },
                ),
                RegistryBody::Update(b) => BodyView::Update(
                    b.id,
                    DescriptorView {
                        name: b.name@,
                        full_name: b.full_name@,
                        description: b.description@,
                        api_url: b.api_url@,
                        web_url: b.web_url@,
                    },
                ),
            },
        }
    }
}

/// The decimal digits of `n`, most significant first.
pub open spec fn digits_of(n: nat) -> Seq<char>
    decreases n,
{
    let d = seq!['0', '1', '2', '3', '4', '5', '6', '7', '8', '9'][(n % 10) as int];
    if n < 10 {
        seq![d]
    } else {
        digits_of(n / 10).push(d)
    }
}

/// The decimal text of `n`, with a leading `-` when negative.
pub open spec fn decimal_text(n: int) -> Seq<char> {
    if n < 0 {
        seq!['-'] + digits_of((-n) as nat)
    } else {
        digits_of(n as nat)
    }
}

/// Relies on std's `Display` for `i32` (through `to_string`): the decimal
/// text of the number.
#[verifier::external_body]
fn decimal(n: i32) -> (r: String)
    ensures
        r@ == decimal_text(n as int),
{
    n.to_string()
}

fn joined(a: &str, b: &str) -> (r: String)
    ensures
        r@ == a@ + b@,
{
    let mut s = String::from_str(a);
    s.append(b);
    s
}

/// The descriptor fields reported under `c`.
pub open spec fn fixed_descriptor(c: &RegistrationConfig) -> DescriptorView {
    DescriptorView {
        name: MODULE_NAME@,
        full_name: MODULE_FULL_NAME@,
        description: MODULE_DESCRIPTION@,
        api_url: c.api_url@,
        web_url: c.web_url@,
    }
}

/// The lookup of this service's descriptor by its name.
pub open spec fn lookup_call_spec(c: &RegistrationConfig) -> CallView {
    CallView {
        method: HttpMethod::Get,
        url: c.core_api_url@ + "/modules/name/"@ + MODULE_NAME@,
        body: BodyView::Empty,
    }
}

/// The creation of this service's descriptor.
pub open spec fn create_call_spec(c: &RegistrationConfig) -> CallView {
    CallView {
        method: HttpMethod::Post,
        url: c.core_api_url@ + "/modules"@,
        body: BodyView::Create(fixed_descriptor(c)),
    }
}

/// The update of descriptor `id` with this service's fields.
pub open spec fn update_call_spec(c: &RegistrationConfig, id: i32) -> CallView {
    CallView {
        method: HttpMethod::Put,
        url: c.core_api_url@ + "/modules/"@ + decimal_text(id as int),
        body: BodyView::Update(id, fixed_descriptor(c)),
    }
}

fn descriptor_fields(c: &RegistrationConfig) -> (r: (String, String, String, String, String))
    ensures
        r.0@ == MODULE_NAME@,
        r.1@ == MODULE_FULL_NAME@,
        r.2@ == MODULE_DESCRIPTION@,
        r.3@ == c.api_url@,
        r.4@ == c.web_url@,
{
    (
        String::from_str(MODULE_NAME),
        String::from_str(MODULE_FULL_NAME),
        String::from_str(MODULE_DESCRIPTION),
        c.api_url.clone(),
        c.web_url.clone(),
    )
}

/// The lookup call: `GET {core}/modules/name/projects`.
pub fn lookup_module(c: &RegistrationConfig) -> (r: RegistryCall)
    ensures
        r@ == lookup_call_spec(c),
{
    let base = joined(c.core_api_url.as_str(), "/modules/name/");
    let url = joined(base.as_str(), MODULE_NAME);
    RegistryCall { method: HttpMethod::Get, url, body: RegistryBody::Empty }
}

/// The create call: `POST {core}/modules` with the fixed fields and the two URLs.
pub fn create_module(c: &RegistrationConfig) -> (r: RegistryCall)
    ensures
        r@ == create_call_spec(c),
{
    let url = joined(c.core_api_url.as_str(), "/modules");
    let (name, full_name, description, api_url, web_url) = descriptor_fields(c);
    RegistryCall {
        method: HttpMethod::Post,
        url,
        body: RegistryBody::Create(NewModuleRequest { name, full_name, description, api_url, web_url }),
    }
}

/// The update call: `PUT {core}/modules/{id}` carrying the registry-assigned
/// id of `module`, the fixed fields and the two URLs.
pub fn update_module(c: &RegistrationConfig, module: &GetModuleResponse) -> (r: RegistryCall)
    ensures
        r@ == update_call_spec(c, module.id),
{
    let base = joined(c.core_api_url.as_str(), "/modules/");
    let id_text = decimal(module.id);
    let url = joined(base.as_str(), id_text.as_str());
    let (name, full_name, description, api_url, web_url) = descriptor_fields(c);
    RegistryCall {
        method: HttpMethod::Put,
        url,
        body: RegistryBody::Update(
            UpdateModuleRequest { id: module.id, name, full_name, description, api_url, web_url },
        ),
    }
}

/// Where a registration tick stands.
#[derive(PartialEq, Eq, Structural, Clone, Copy, Debug)]
pub enum TickPhase {
    /// No call outstanding.
    Idle,
    /// The lookup call was sent.
    AwaitingLookup,
    /// The create call was sent.
    AwaitingCreate,
    /// The update call was sent.
    AwaitingUpdate,
}

/// Why a tick failed. The next tick starts over.
#[derive(PartialEq, Eq, Structural, Clone, Copy, Debug)]
pub enum RegistrationError {
    /// The registry could not be reached or did not answer.
    Transport,
    /// The lookup answered 200 with a body that is no descriptor.
    MalformedDescriptor,
    /// A create or update call answered with another status than expected.
    UnexpectedStatus(u16),
}

/// What happened since the last step.
pub enum RegistryEvent {
    /// The scheduler fired: a new tick begins.
    Tick,
    /// The outstanding call was answered with `status`; for a lookup that
    /// answered 200, the descriptor parsed from the body, if it parsed.
    Answered { status: u16, descriptor: Option<GetModuleResponse> },
    /// The outstanding call failed in transport.
    TransportFailed,
}

/// What the caller does next.
pub enum RegistryAction {
    /// Send this call and report its answer.
    Send(RegistryCall),
    /// The tick is over, with this outcome.
    Finish(Result<(), RegistrationError>),
    /// Nothing: the event was not awaited.
    Ignore,
}

pub enum EventView {
    Tick,
    Answered(u16, Option<i32>),
    TransportFailed,
}

pub enum ActionView {
    Send(CallView),
    Finish(Result<(), RegistrationError>),
    Ignore,
}

impl View for RegistryEvent {
    type V = EventView;

    open spec fn view(&self) -> EventView {
        match self {
            RegistryEvent::Tick => EventView::Tick,
            RegistryEvent::Answered { status, descriptor } => EventView::Answered(
                *status,
                match descriptor {
                    Some(d) => Some(d.id),
                    None => None,
                },
            ),
            RegistryEvent::TransportFailed => EventView::TransportFailed,
        }
    }
}

impl View for RegistryAction {
    type V = ActionView;

    open spec fn view(&self) -> ActionView {
        match self {
            RegistryAction::Send(c) => ActionView::Send(c@),
            RegistryAction::Finish(r) => ActionView::Finish(*r),
            RegistryAction::Ignore => ActionView::Ignore,
        }
    }
}

/// One step of the upsert-by-lookup protocol. A tick looks the descriptor
/// up by name; "found" leads to an update of that id, expecting 200; any
/// other answer leads to a create, expecting 201. Any failure ends the tick;
/// nothing is kept from one tick to the next.
pub open spec fn step_spec(c: &RegistrationConfig, phase: TickPhase, e: EventView) -> (TickPhase, ActionView) {
    match e {
        EventView::Tick => (TickPhase::AwaitingLookup, ActionView::Send(lookup_call_spec(c))),
        EventView::TransportFailed => match phase {
            TickPhase::Idle => (TickPhase::Idle, ActionView::Ignore),
            _ => (TickPhase::Idle, ActionView::Finish(Err(RegistrationError::Transport))),
        },
        EventView::Answered(status, id) => match phase {
            TickPhase::Idle => (TickPhase::Idle, ActionView::Ignore),
            TickPhase::AwaitingLookup => if status == STATUS_OK {
                match id {
                    Some(id) => (TickPhase::AwaitingUpdate, ActionView::Send(update_call_spec(c, id))),
                    None => (
                        TickPhase::Idle,
                        ActionView::Finish(Err(RegistrationError::MalformedDescriptor)),
                    ),
                }
            } else {
                (TickPhase::AwaitingCreate, ActionView::Send(create_call_spec(c)))
            },
            TickPhase::AwaitingCreate => if status == STATUS_CREATED {
                (TickPhase::Idle, ActionView::Finish(Ok(())))
            } else {
                (TickPhase::Idle, ActionView::Finish(Err(RegistrationError::UnexpectedStatus(status))))
            },
            TickPhase::AwaitingUpdate => if status == STATUS_OK {
                (TickPhase::Idle, ActionView::Finish(Ok(())))
            } else {
                (TickPhase::Idle, ActionView::Finish(Err(RegistrationError::UnexpectedStatus(status))))
            },
        },
    }
}

/// The registration job's decisions: from the phase and the event, the next
/// phase and what to do. The caller performs each call and reports back.
pub fn job(c: &RegistrationConfig, phase: TickPhase, event: RegistryEvent) -> (r: (TickPhase, RegistryAction))
    ensures
        (r.0, r.1@) == step_spec(c, phase, event@),
{
    match event {
        RegistryEvent::Tick => (TickPhase::AwaitingLookup, RegistryAction::Send(lookup_module(c))),
        RegistryEvent::TransportFailed => match phase {
            TickPhase::Idle => (TickPhase::Idle, RegistryAction::Ignore),
            _ => (TickPhase::Idle, RegistryAction::Finish(Err(RegistrationError::Transport))),
        },
        RegistryEvent::Answered { status, descriptor } => match phase {
            TickPhase::Idle => (TickPhase::Idle, RegistryAction::Ignore),
            TickPhase::AwaitingLookup => if status == STATUS_OK {
                match descriptor {
                    Some(d) => (TickPhase::AwaitingUpdate, RegistryAction::Send(update_module(c, &d))),
                    None => (
                        TickPhase::Idle,
                        RegistryAction::Finish(Err(RegistrationError::MalformedDescriptor)),
                    ),
                }
            } else {
                (TickPhase::AwaitingCreate, RegistryAction::Send(create_module(c)))
            },
            TickPhase::AwaitingCreate => if status == STATUS_CREATED {
                (TickPhase::Idle, RegistryAction::Finish(Ok(())))
            } else {
                (TickPhase::Idle, RegistryAction::Finish(Err(RegistrationError::UnexpectedStatus(status))))
            },
            TickPhase::AwaitingUpdate => if status == STATUS_OK {
                (TickPhase::Idle, RegistryAction::Finish(Ok(())))
            } else {
                (TickPhase::Idle, RegistryAction::Finish(Err(RegistrationError::UnexpectedStatus(status))))
            },
        },
    }
}

} // verus!
