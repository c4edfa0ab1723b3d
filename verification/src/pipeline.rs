use vstd::prelude::*;
use crate::auth::{AuthRequirement, UserClaims};
use crate::error::AppletError;
use crate::response::{AppletResponse, STATUS_UNAUTHORIZED, STATUS_BAD_REQUEST, STATUS_INTERNAL, is_success};
use crate::text::{str_eq, cat, views};

verus! {

/// The code of the answer to a request that lacks a required identity.
pub open spec fn auth_required_code() -> Seq<char> {
    "AUTH_REQUIRED"@
}

/// The message of the answer to a request that lacks a required identity.
pub open spec fn auth_required_message() -> Seq<char> {
    "Authentication required"@
}

/// Applies a handler's auth requirement to the identity that authentication
/// produced: `Required` passes the identity on and refuses its absence with
/// 401 `AUTH_REQUIRED`; `Optional` passes on whatever there is; `Public`
/// never passes an identity on.
pub fn enforce_auth(requirement: AuthRequirement, claims: Option<UserClaims>) -> (r: Result<Option<UserClaims>, AppletResponse<()>>)
    ensures
        match requirement {
            AuthRequirement::Required => match claims {
                Some(c) => r == Ok::<Option<UserClaims>, AppletResponse<()>>(Some(c)),
                None => r matches Err(resp) && resp.is_error(STATUS_UNAUTHORIZED, auth_required_code(), auth_required_message()),
            },
            AuthRequirement::Optional => r == Ok::<Option<UserClaims>, AppletResponse<()>>(claims),
            AuthRequirement::Public => r == Ok::<Option<UserClaims>, AppletResponse<()>>(None),
        },
{
    match requirement {
        AuthRequirement::Required => match claims {
            Some(c) => Ok(Some(c)),
            None => Err(AppletResponse::unauthorized("AUTH_REQUIRED", "Authentication required")),
        },
        AuthRequirement::Optional => Ok(claims),
        AuthRequirement::Public => Ok(None),
    }
}

/// What goes on the wire for a handler's response.
#[derive(Debug)]
pub enum WireBody<T> {
    /// A success with a payload: `{"data": ...}`.
    Data(T),
    /// A success without a payload: the status alone.
    Empty,
    /// An error: `{"error_code": ..., "error_message": ...}`.
    Error { code: Option<String>, message: Option<String> },
}

/// The status that goes on the wire: codes from 100 to 999 are sent as they
/// are, any other becomes 500.
pub open spec fn wire_status(status: u16) -> u16 {
    if 100 <= status <= 999 {
        status
    } else {
        STATUS_INTERNAL
    }
}

/// Decides how a handler's response is sent: a success status sends the
/// payload, or nothing when there is none; any other status sends the error
/// code and message.
pub fn render_response<T>(resp: AppletResponse<T>) -> (r: (u16, WireBody<T>))
    ensures
        r.0 == wire_status(resp.status),
        is_success(resp.status) && resp.body is Some ==> r.1 == WireBody::Data(resp.body->0),
        is_success(resp.status) && resp.body is None ==> r.1 is Empty,
        !is_success(resp.status) ==> r.1 == (WireBody::<T>::Error { code: resp.error_code, message: resp.error_message }),
{
    let status = if 100 <= resp.status && resp.status <= 999 { resp.status } else { STATUS_INTERNAL };
    if 200 <= resp.status && resp.status <= 299 {
        match resp.body {
            Some(data) => (status, WireBody::Data(data)),
            None => (status, WireBody::Empty),
        }
    } else {
        (status, WireBody::Error { code: resp.error_code, message: resp.error_message })
    }
}

/// The bytes a handler's request type is decoded from: an empty body reads
/// as the empty JSON object.
pub fn request_body_or_empty_object(body: &Vec<u8>) -> (r: Vec<u8>)
    ensures
        body@.len() == 0 ==> r@ == seq![123u8, 125u8],
        body@.len() != 0 ==> r@ == body@,
{
    if body.len() == 0 {
        let mut v = Vec::new();
        v.push(123u8);
        v.push(125u8);
        assert(v@ =~= seq![123u8, 125u8]);
        v
    } else {
        body.clone()
    }
}

/// The index of the first name in `names` equal to `name`.
pub open spec fn first_index(names: Seq<Seq<char>>, name: Seq<char>) -> Option<nat>
    decreases names.len(),
{
    if names.len() == 0 {
        None
    } else if names[0] == name {
        Some(0)
    } else {
        match first_index(names.drop_first(), name) {
            Some(i) => Some(i + 1),
            None => None,
        }
    }
}

/// `first_index` finds the first equal name.
pub proof fn lemma_first_index(names: Seq<Seq<char>>, name: Seq<char>)
    ensures
        match first_index(names, name) {
            Some(i) => i < names.len() && names[i as int] == name
                && forall|j: int| 0 <= j < i ==> names[j] != name,
            None => forall|j: int| 0 <= j < names.len() ==> names[j] != name,
        },
    decreases names.len(),
{
    if names.len() > 0 && names[0] != name {
        lemma_first_index(names.drop_first(), name);
        assert forall|j: int| 0 < j < names.len() implies names[j] == names.drop_first()[j - 1] by {}
    }
}

/// The index of the first registered guard called `name`, as
/// `Iterator::find` over the registry gives it.
pub fn find_guard(registered: &Vec<String>, name: &str) -> (r: Option<usize>)
    ensures
        match r {
            Some(i) => first_index(views(registered@), name@) == Some(i as nat),
            None => first_index(views(registered@), name@) is None,
        },
{
    let ghost vs = views(registered@);
    proof {
        lemma_first_index(vs, name@);
    }
    let mut i: usize = 0;
    while i < registered.len()
        invariant
            vs == views(registered@),
            vs.len() == registered@.len(),
            i <= registered.len(),
            forall|j: int| 0 <= j < i ==> vs[j] != name@,
            match first_index(vs, name@) {
                Some(k) => k < vs.len() && vs[k as int] == name@ && forall|j: int| 0 <= j < k ==> vs[j] != name@,
                None => forall|j: int| 0 <= j < vs.len() ==> vs[j] != name@,
            },
        decreases registered.len() - i,
    {
        if str_eq(registered[i].as_str(), name) {
            assert(vs[i as int] == name@);
            return Some(i);
        }
        i = i + 1;
    }
    None
}

/// Where a request is on its way to the handler.
#[derive(Debug, Clone, Copy, PartialEq, Eq, Structural)]
pub enum Phase {
    /// The auth requirement has not been applied yet.
    Auth,
    /// Waiting for the body to be read.
    Body,
    /// Waiting for the body to be decoded into the handler's request type.
    Decode,
    /// The first `n` declared guards have passed; the next one is due.
    Guards(usize),
    /// The handler has been called.
    Handler,
    /// An answer has been sent; nothing more happens.
    Finished,
}

/// What the outside world reports back to the pipeline.
#[derive(Debug)]
pub enum Event {
    /// A request came in, with the identity authentication found, if any.
    Arrived(Option<UserClaims>),
    /// The body was read, or could not be (`None`).
    BodyRead(Option<Vec<u8>>),
    /// The body was decoded, or decoding failed with a reason.
    Decoded(Result<(), String>),
    /// The guard that was asked for answered.
    GuardChecked(Result<(), AppletError>),
    /// The handler returned its response.
    HandlerReturned,
}

/// What the pipeline asks the outside world to do next.
#[derive(Debug)]
pub enum Action {
    /// Read the body; hand the given identity to the handler's context.
    ReadBody(Option<UserClaims>),
    /// Decode these bytes into the handler's request type.
    Decode(Vec<u8>),
    /// Run the registered guard at this index.
    CheckGuard(usize),
    /// Call the handler.
    CallHandler,
    /// Send this answer; the handler is not called.
    Respond(AppletResponse<()>),
    /// Nothing to do.
    Idle,
}

/// The code of the answer to an unreadable body.
pub open spec fn body_read_code() -> Seq<char> {
    "BODY_READ_ERROR"@
}

/// The message of the answer to an unreadable body.
pub open spec fn body_read_message() -> Seq<char> {
    "Failed to read request body"@
}

/// The code of the answer to a body that does not decode.
pub open spec fn invalid_body_code() -> Seq<char> {
    "INVALID_REQUEST_BODY"@
}

/// The message of the answer to a body that does not decode.
pub open spec fn invalid_body_message(reason: Seq<char>) -> Seq<char> {
    "Failed to parse request body: "@ + reason
}

/// The code of the answer to a guard that is declared but not registered.
pub open spec fn guard_missing_code() -> Seq<char> {
    "GUARD_NOT_REGISTERED"@
}

/// The message of the answer to a guard that is declared but not registered.
pub open spec fn guard_missing_message(name: Seq<char>) -> Seq<char> {
    "Guard '"@ + name + "' declared on handler but not registered"@
}

/// The action sends an error answer with this status, code and message.
pub open spec fn answers(a: Action, status: u16, code: Seq<char>, message: Seq<char>) -> bool {
    a matches Action::Respond(resp) && resp.is_error(status, code, message)
}

/// The action decodes the body `b`, or the empty JSON object when `b` is empty.
pub open spec fn decodes(a: Action, b: Seq<u8>) -> bool {
    a matches Action::Decode(bytes) && (b.len() == 0 ==> bytes@ == seq![123u8, 125u8])
        && (b.len() != 0 ==> bytes@ == b)
}

/// The action runs the registered guard at index `i`.
pub open spec fn checks(a: Action, i: nat) -> bool {
    a matches Action::CheckGuard(j) && j == i
}

/// The route pipeline for one request to one handler: the handler's auth
/// requirement, the guards it declares, in order, and the names of the
/// guards the application registered, in order.
pub struct RoutePipeline {
    pub requirement: AuthRequirement,
    pub declared: Vec<String>,
    pub registered: Vec<String>,
    pub phase: Phase,
}

/// What the guard stage does once `passed` declared guards have passed: the
/// next declared guard is looked up among the registered ones; the handler
/// is called when none is left.
pub open spec fn guard_stage(declared: Seq<Seq<char>>, registered: Seq<Seq<char>>, passed: nat) -> GuardDecision {
    if passed >= declared.len() {
        GuardDecision::Call
    } else {
        match first_index(registered, declared[passed as int]) {
            Some(i) => GuardDecision::Check(i),
            None => GuardDecision::Missing(declared[passed as int]),
        }
    }
}

/// The outcome of the guard stage, as a value for contracts.
pub ghost enum GuardDecision {
    Call,
    Check(nat),
    Missing(Seq<char>),
}

impl RoutePipeline {
    /// A pipeline for a fresh request.
    pub fn new(requirement: AuthRequirement, declared: Vec<String>, registered: Vec<String>) -> (r: Self)
        ensures
            r.requirement == requirement,
            r.declared == declared,
            r.registered == registered,
            r.phase == Phase::Auth,
    {
        RoutePipeline { requirement, declared, registered, phase: Phase::Auth }
    }

    /// The declared guard names as character sequences.
    pub open spec fn declared_names(&self) -> Seq<Seq<char>> {
        views(self.declared@)
    }

    /// The registered guard names as character sequences.
    pub open spec fn registered_names(&self) -> Seq<Seq<char>> {
        views(self.registered@)
    }

    /// The action the guard stage takes with `passed` guards passed, and
    /// the phase it leaves the pipeline in.
    pub open spec fn guard_outcome(&self, passed: nat, phase: Phase, action: Action) -> bool {
        match guard_stage(self.declared_names(), self.registered_names(), passed) {
            GuardDecision::Call => phase == Phase::Handler && action is CallHandler,
            GuardDecision::Check(i) => phase == Phase::Guards(passed as usize) && checks(action, i),
            GuardDecision::Missing(name) => phase == Phase::Finished
                && answers(action, STATUS_INTERNAL, guard_missing_code(), guard_missing_message(name)),
        }
    }

    /// The step the pipeline takes from phase `p` on event `e`: it ends in
    /// phase `q` and asks for action `a`.
    pub open spec fn transition(&self, p: Phase, e: Event, q: Phase, a: Action) -> bool {
        match (p, e) {
            (Phase::Auth, Event::Arrived(claims)) => match self.requirement {
                AuthRequirement::Required => match claims {
                    Some(c) => q == Phase::Body && a == Action::ReadBody(Some(c)),
                    None => q == Phase::Finished
                        && answers(a, STATUS_UNAUTHORIZED, auth_required_code(), auth_required_message()),
                },
                AuthRequirement::Optional => q == Phase::Body && a == Action::ReadBody(claims),
                AuthRequirement::Public => q == Phase::Body && a == Action::ReadBody(None),
            },
            (Phase::Body, Event::BodyRead(body)) => match body {
                Some(b) => q == Phase::Decode && decodes(a, b@),
                None => q == Phase::Finished
                    && answers(a, STATUS_BAD_REQUEST, body_read_code(), body_read_message()),
            },
            (Phase::Decode, Event::Decoded(outcome)) => match outcome {
                Ok(()) => self.guard_outcome(0, q, a),
                Err(reason) => q == Phase::Finished
                    && answers(a, STATUS_BAD_REQUEST, invalid_body_code(), invalid_body_message(reason@)),
            },
            (Phase::Guards(n), Event::GuardChecked(outcome)) => match outcome {
                Ok(()) => self.guard_outcome((n + 1) as nat, q, a),
                Err(err) => q == Phase::Finished
                    && answers(a, err.status(), err.code_view(), err.message_view()),
            },
            (Phase::Handler, Event::HandlerReturned) => q == Phase::Finished && a is Idle,
            _ => q == p && a is Idle,
        }
    }

    /// Runs the guard stage with `passed` guards passed.
    fn guard_step(&mut self, passed: usize) -> (a: Action)
        requires
            passed <= old(self).declared@.len(),
        ensures
            final(self).requirement == old(self).requirement,
            final(self).declared == old(self).declared,
            final(self).registered == old(self).registered,
            old(self).guard_outcome(passed as nat, final(self).phase, a),
    {
        if passed >= self.declared.len() {
            self.phase = Phase::Handler;
            return Action::CallHandler;
        }
        match find_guard(&self.registered, self.declared[passed].as_str()) {
            Some(i) => {
                self.phase = Phase::Guards(passed);
                Action::CheckGuard(i)
            },
            None => {
                let name = self.declared[passed].as_str();
                let message = cat(cat("Guard '", name).as_str(), "' declared on handler but not registered");
                let resp = AppletResponse::internal("GUARD_NOT_REGISTERED", message.as_str());
                self.phase = Phase::Finished;
                proof {
                    assert(message@ =~= guard_missing_message(name@));
                }
                Action::Respond(resp)
            },
        }
    }

    /// Takes one step: applies the event to the current phase and returns
    /// what is to be done next.
    pub fn step(&mut self, event: Event) -> (a: Action)
        requires
            old(self).phase matches Phase::Guards(n) ==> n < old(self).declared@.len(),
        ensures
            final(self).requirement == old(self).requirement,
            final(self).declared == old(self).declared,
            final(self).registered == old(self).registered,
            old(self).transition(old(self).phase, event, final(self).phase, a),
            final(self).phase matches Phase::Guards(n) ==> n < final(self).declared@.len(),
            old(self).phase == Phase::Auth ==> (event matches Event::Arrived(claims) ==> match old(self).requirement {
                AuthRequirement::Optional => a == Action::ReadBody(claims),
                AuthRequirement::Public => a == Action::ReadBody(None),
                AuthRequirement::Required => claims is Some ==> a == Action::ReadBody(claims),
            }),
    {
        let total = self.declared.len();
        match (self.phase, event) {
            (Phase::Auth, Event::Arrived(claims)) => match enforce_auth(self.requirement, claims) {
                Ok(user) => {
                    self.phase = Phase::Body;
                    Action::ReadBody(user)
                },
                Err(resp) => {
                    self.phase = Phase::Finished;
                    Action::Respond(resp)
                },
            },
            (Phase::Body, Event::BodyRead(body)) => match body {
                Some(b) => {
                    self.phase = Phase::Decode;
                    Action::Decode(request_body_or_empty_object(&b))
                },
                None => {
                    self.phase = Phase::Finished;
                    Action::Respond(AppletResponse::bad_request("BODY_READ_ERROR", "Failed to read request body"))
                },
            },
            (Phase::Decode, Event::Decoded(outcome)) => match outcome {
                Ok(()) => self.guard_step(0),
                Err(reason) => {
                    let message = cat("Failed to parse request body: ", reason.as_str());
                    self.phase = Phase::Finished;
                    Action::Respond(AppletResponse::bad_request("INVALID_REQUEST_BODY", message.as_str()))
                },
            },
            (Phase::Guards(n), Event::GuardChecked(outcome)) => match outcome {
                Ok(()) => {
                    assert(n < total);
                    self.guard_step(n + 1)
                },
                Err(err) => {
                    self.phase = Phase::Finished;
                    Action::Respond(err.into_response())
                },
            },
            (Phase::Handler, Event::HandlerReturned) => {
                self.phase = Phase::Finished;
                Action::Idle
            },
            _ => Action::Idle,
        }
    }
}

/// A run of the pipeline: it starts in `Auth`, and each event moves it from
/// one phase to the next with the action shown.
pub open spec fn valid_run(pipe: RoutePipeline, phases: Seq<Phase>, events: Seq<Event>, actions: Seq<Action>) -> bool {
    &&& phases.len() == events.len() + 1
    &&& actions.len() == events.len()
    &&& phases[0] == Phase::Auth
    &&& forall|i: int| 0 <= i < events.len() ==> pipe.transition(#[trigger] phases[i], events[i], phases[i + 1], actions[i])
}

/// Before step `before`, the run reported declared guard `g` as passed while
/// it was the guard being checked.
pub open spec fn guard_passed(phases: Seq<Phase>, events: Seq<Event>, g: int, before: int) -> bool {
    exists|j: int| 0 <= j < before && #[trigger] phases[j] == Phase::Guards(g as usize)
        && events[j] matches Event::GuardChecked(Ok(()))
}

/// Before step `before`, the run met the auth requirement: a request
/// arrived in phase `Auth` with an identity.
pub open spec fn identity_arrived(phases: Seq<Phase>, events: Seq<Event>, before: int) -> bool {
    exists|j: int| 0 <= j < before && #[trigger] phases[j] == Phase::Auth
        && events[j] matches Event::Arrived(Some(_))
}

/// The phases in which the request has passed the auth stage.
pub open spec fn past_auth(p: Phase) -> bool {
    p is Body || p is Decode || p is Guards || p is Handler
}

proof fn lemma_run_invariant(pipe: RoutePipeline, phases: Seq<Phase>, events: Seq<Event>, actions: Seq<Action>, i: int)
    requires
        valid_run(pipe, phases, events, actions),
        0 <= i <= events.len(),
    ensures
        phases[i] matches Phase::Guards(m) ==> m < pipe.declared@.len()
            && forall|g: int| 0 <= g < m ==> #[trigger] guard_passed(phases, events, g, i),
        phases[i] is Handler ==> forall|g: int| 0 <= g < pipe.declared@.len() ==> #[trigger] guard_passed(phases, events, g, i),
        past_auth(phases[i]) && pipe.requirement == AuthRequirement::Required ==> identity_arrived(phases, events, i),
    decreases i,
{
    if i > 0 {
        let k = i - 1;
        lemma_run_invariant(pipe, phases, events, actions, k);
        assert(pipe.transition(phases[k], events[k], phases[k + 1], actions[k]));
        let d = views(pipe.declared@);
        assert(d.len() == pipe.declared@.len());
        // anything passed before step k is still passed before step i
        assert forall|g: int| guard_passed(phases, events, g, k) implies guard_passed(phases, events, g, i) by {
            let j = choose|j: int| 0 <= j < k && #[trigger] phases[j] == Phase::Guards(g as usize)
                && events[j] matches Event::GuardChecked(Ok(()));
            assert(phases[j] == Phase::Guards(g as usize));
        }
        if identity_arrived(phases, events, k) {
            let j = choose|j: int| 0 <= j < k && #[trigger] phases[j] == Phase::Auth
                && events[j] matches Event::Arrived(Some(_));
            assert(phases[j] == Phase::Auth);
        }
        match phases[k] {
            Phase::Auth => {
                if past_auth(phases[i]) && pipe.requirement == AuthRequirement::Required {
                    assert(phases[k] == Phase::Auth);
                }
            },
            Phase::Guards(n) => {
                if events[k] matches Event::GuardChecked(Ok(())) {
                    assert(guard_passed(phases, events, n as int, i)) by {
                        assert(phases[k] == Phase::Guards(n as usize));
                    }
                }
            },
            _ => {},
        }
    }
}

/// A run calls the handler only after the auth requirement was met and
/// every guard the handler declares was found among the registered guards
/// and passed, in the order declared; a public handler is never handed an
/// identity.
pub proof fn law_handler_runs_only_after_auth_and_guards(
    pipe: RoutePipeline,
    phases: Seq<Phase>,
    events: Seq<Event>,
    actions: Seq<Action>,
    k: int,
)
    requires
        valid_run(pipe, phases, events, actions),
        0 <= k < actions.len(),
    ensures
        actions[k] is CallHandler ==> forall|g: int| 0 <= g < pipe.declared@.len() ==> #[trigger] guard_passed(phases, events, g, k + 1),
        actions[k] is CallHandler && pipe.requirement == AuthRequirement::Required ==> identity_arrived(phases, events, k + 1),
        pipe.requirement == AuthRequirement::Public ==> (actions[k] matches Action::ReadBody(user) ==> user is None),
{
    assert(pipe.transition(phases[k], events[k], phases[k + 1], actions[k]));
    lemma_run_invariant(pipe, phases, events, actions, k + 1);
}

/// The auth stage hands on exactly the identity the requirement allows:
/// a required or optional requirement passes on the identity that arrived,
/// a public one passes on none, and a required one without an identity
/// answers 401 without reading the body.
pub proof fn law_auth_stage_identity(pipe: RoutePipeline, claims: Option<UserClaims>, q: Phase, a: Action)
    requires
        pipe.transition(Phase::Auth, Event::Arrived(claims), q, a),
    ensures
        pipe.requirement == AuthRequirement::Optional ==> a == Action::ReadBody(claims) && q == Phase::Body,
        pipe.requirement == AuthRequirement::Public ==> a == Action::ReadBody(None) && q == Phase::Body,
        pipe.requirement == AuthRequirement::Required && claims is Some ==> a == Action::ReadBody(claims) && q == Phase::Body,
        pipe.requirement == AuthRequirement::Required && claims is None ==> q == Phase::Finished
            && (a matches Action::Respond(resp) && resp.status == 401),
{
}

/// Entering the check of declared guard `n` asks for the first registered
/// guard whose name is the declared name.
pub proof fn law_guard_checked_is_the_declared_one(pipe: RoutePipeline, n: nat, phase: Phase, action: Action)
    requires
        pipe.guard_outcome(n, phase, action),
        action matches Action::CheckGuard(_),
    ensures
        action matches Action::CheckGuard(i) && n < pipe.declared@.len() && i < pipe.registered@.len()
            && pipe.registered@[i as int]@ == pipe.declared@[n as int]@
            && forall|j: int| 0 <= j < i ==> pipe.registered@[j]@ != pipe.declared@[n as int]@,
{
    let rv = pipe.registered_names();
    let dv = pipe.declared_names();
    assert(n < dv.len());
    lemma_first_index(rv, dv[n as int]);
    let k = first_index(rv, dv[n as int])->0;
    assert(checks(action, k));
    assert(dv[n as int] == pipe.declared@[n as int]@);
    assert(rv[k as int] == pipe.registered@[k as int]@);
    assert forall|j: int| 0 <= j < k implies pipe.registered@[j]@ != pipe.declared@[n as int]@ by {
        assert(rv[j] == pipe.registered@[j]@);
    }
}

/// Once a request has been answered, no event moves the pipeline again and
/// nothing more is asked for: in particular the handler is never called.
pub proof fn law_finished_is_final(pipe: RoutePipeline, e: Event, q: Phase, a: Action)
    requires
        pipe.transition(Phase::Finished, e, q, a),
    ensures
        q == Phase::Finished,
        a is Idle,
{
}

} // verus!
