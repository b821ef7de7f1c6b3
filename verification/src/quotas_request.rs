use vstd::prelude::*;
use crate::config::{CMSRequestAddr, QCSRequestAddr};
use crate::hexcode::{decode_hex, encode_hex, is_hex, is_hex_text, spec_hex_decode, spec_hex_encode};
use crate::response::{Failure, Outcome};

verus! {

/// What the central management system is sent: the signed issue request as
/// hex text.
pub struct CentralRequest {
    pub issue: String,
}

impl CentralRequest {
    pub fn new(issue: String) -> (r: Self)
        ensures
            r.issue == issue,
    {
        CentralRequest { issue }
    }
}

/// What the quota control system is sent: the issue request as the central
/// management system signed it again.
pub struct QuotaRequest {
    pub issue_quota_request: String,
}

impl QuotaRequest {
    pub fn new(issue: String) -> (r: Self)
        ensures
            r.issue_quota_request == issue,
    {
        QuotaRequest { issue_quota_request: issue }
    }
}

/// One line of an issue request: how many currencies of a face value.
pub struct QuotasRequest {
    pub value: u64,
    pub number: u64,
}

/// The central management system's reply: the issue request signed again.
pub struct IssueResponse {
    pub code: i32,
    pub message: String,
    pub data: String,
}

/// The quota control system's reply: the quota control fields, as hex text.
pub struct QuotaResponse {
    pub code: i32,
    pub message: String,
    pub data: Vec<String>,
}

/// Where an issue request stands.
#[derive(Clone, Copy)]
pub enum IssuePhase {
    /// Waiting for the issue request to be signed.
    AwaitIssue,
    /// Waiting for the central management system's reply.
    AwaitCentral,
    /// Waiting for the quota control system's reply.
    AwaitQuota,
    /// Waiting for quota control field `k` to be signed.
    AwaitSign { k: usize },
    /// Waiting for quota control field `k` to be stored.
    AwaitInsert { k: usize },
    /// The request has ended.
    Done,
}

/// What the surroundings report back.
pub enum IssueEvent {
    /// The issue request was signed: whether its signature checks, and its
    /// encoding.
    IssueSigned { signature_valid: bool, issue: Vec<u8> },
    /// The central management system replied.
    CentralReplied(IssueResponse),
    /// The quota control system replied.
    QuotaReplied(QuotaResponse),
    /// The quota control field was signed: whether its signature checks, its
    /// encoding and the encoding of its id.
    QuotaSigned { signature_valid: bool, quota_field: Vec<u8>, id: Vec<u8> },
    /// Whether storing the quota control field went through.
    Inserted(Result<(), String>),
}

/// What the surroundings are asked to do next.
pub enum IssueAction {
    /// Build an issue request of these lines (face value, count) for the
    /// issuer's certificate and sign it.
    SignIssue { issue_info: Vec<(u64, u64)> },
    /// Post `body` to the central management system at `url`, on behalf of
    /// `user`.
    PostCentral { url: String, body: CentralRequest, user: String },
    /// Post `body` to the quota control system at `url`, on behalf of `user`.
    PostQuota { url: String, body: QuotaRequest, user: String },
    /// Decode a quota control field from these bytes and sign it.
    SignQuota { quota_field: Vec<u8> },
    /// Store a currency row of `user` with these columns.
    Insert { id_hex: String, quota_field_hex: String, state: String, user: String },
    /// Reply.
    Finish(Outcome<()>),
}

/// A request to issue currency: it is registered with the central
/// management system, its quota control fields come from the quota control
/// system, and each is signed and stored as suspended currency.
pub struct IssueProcess {
    pub phase: IssuePhase,
    /// The cloud user who asked for the currency; the posts are made and the
    /// rows stored on their behalf.
    pub user: String,
    pub central_addr: String,
    pub quota_addr: String,
    /// The quota control fields handed out, as hex text.
    pub quotas: Vec<String>,
}

/// After the quota control fields before `k` are stored: sign field `k`, or,
/// past the last, reply with success.
pub open spec fn begins_quota(post: IssueProcess, k: int, action: IssueAction) -> bool {
    if k < post.quotas.len() {
        &&& action matches IssueAction::SignQuota { quota_field }
        &&& Some(quota_field@) == spec_hex_decode(post.quotas@[k]@)
        &&& post.phase == IssuePhase::AwaitSign { k: k as usize }
    } else {
        &&& action == IssueAction::Finish(Outcome::Success(None))
        &&& post.phase == IssuePhase::Done
    }
}

/// The request ends with failure `f`.
pub open spec fn issue_fails(post: IssueProcess, action: IssueAction, f: Failure) -> bool {
    &&& action == IssueAction::Finish(Outcome::Failure(f))
    &&& post.phase == IssuePhase::Done
}

impl IssueProcess {
    pub open spec fn wf(self) -> bool {
        match self.phase {
            IssuePhase::AwaitSign { k } => k < self.quotas.len(),
            IssuePhase::AwaitInsert { k } => k < self.quotas.len(),
            _ => true,
        }
    }

    /// Whether `event` answers what the request waits for, and the next
    /// quota control field, if the request moves on to it, is hex text.
    pub open spec fn spec_can_step(self, event: IssueEvent) -> bool {
        match (self.phase, event) {
            (IssuePhase::AwaitIssue, IssueEvent::IssueSigned { .. }) => true,
            (IssuePhase::AwaitCentral, IssueEvent::CentralReplied(_)) => true,
            (IssuePhase::AwaitQuota, IssueEvent::QuotaReplied(resp)) => resp.data@.len() > 0
                ==> is_hex_text(resp.data@[0]@),
            (IssuePhase::AwaitSign { .. }, IssueEvent::QuotaSigned { .. }) => true,
            (IssuePhase::AwaitInsert { k }, IssueEvent::Inserted(res)) => match res {
                Ok(_) => k + 1 < self.quotas.len() ==> is_hex_text(self.quotas@[k + 1]@),
                Err(_) => true,
            },
            _ => false,
        }
    }

    /// What one step does: from this state, on `event`, to `post` with `action`.
    pub open spec fn transition(self, post: Self, event: IssueEvent, action: IssueAction) -> bool {
        &&& post.user == self.user
        &&& post.central_addr == self.central_addr
        &&& post.quota_addr == self.quota_addr
        &&& match (self.phase, event) {
            (IssuePhase::AwaitIssue, IssueEvent::IssueSigned { signature_valid, issue }) => {
                if !signature_valid {
                    issue_fails(post, action, Failure::JsonParseError)
                } else {
                    &&& action matches IssueAction::PostCentral { url, body, user }
                    &&& url@ == self.central_addr@
                    &&& user == self.user
                    &&& body.issue@ == spec_hex_encode(issue@)
                    &&& post.phase == IssuePhase::AwaitCentral
                }
            },
            (IssuePhase::AwaitCentral, IssueEvent::CentralReplied(resp)) => {
                &&& action matches IssueAction::PostQuota { url, body, user }
                &&& url@ == self.quota_addr@
                &&& user == self.user
                &&& body.issue_quota_request == resp.data
                &&& post.phase == IssuePhase::AwaitQuota
            },
            (IssuePhase::AwaitQuota, IssueEvent::QuotaReplied(resp)) => {
                &&& post.quotas == resp.data
                &&& begins_quota(post, 0, action)
            },
            (
                IssuePhase::AwaitSign { k },
                IssueEvent::QuotaSigned { signature_valid, quota_field, id },
            ) => {
                &&& post.quotas == self.quotas
                &&& if !signature_valid {
                    issue_fails(post, action, Failure::JsonParseError)
                } else {
                    &&& action matches IssueAction::Insert { id_hex, quota_field_hex, state, user }
                    &&& user == self.user
                    &&& id_hex@ == spec_hex_encode(id@)
                    &&& quota_field_hex@ == spec_hex_encode(quota_field@)
                    &&& state@ == "suspended"@
                    &&& post.phase == IssuePhase::AwaitInsert { k }
                }
            },
            (IssuePhase::AwaitInsert { k }, IssueEvent::Inserted(res)) => {
                &&& post.quotas == self.quotas
                &&& match res {
                    Err(m) => issue_fails(post, action, Failure::DatabaseRunning(m)),
                    Ok(_) => begins_quota(post, k + 1, action),
                }
            },
            _ => false,
        }
    }

    /// Starts an issue request of `user` with these lines, registered at
    /// `central` and served by `quota_system`.
    pub fn new(
        requests: &Vec<QuotasRequest>,
        central: CMSRequestAddr,
        quota_system: QCSRequestAddr,
        user: String,
    ) -> (r: (Self, IssueAction))
        ensures
            r.0.wf(),
            r.0.phase == IssuePhase::AwaitIssue,
            r.0.user == user,
            r.0.central_addr == central.central_addr,
            r.0.quota_addr == quota_system.quota_addr,
            r.1 matches IssueAction::SignIssue { issue_info } && issue_info@.len()
                == requests@.len() && forall|i: int|
                0 <= i < requests@.len() ==> #[trigger] issue_info@[i] == (
                    requests@[i].value,
                    requests@[i].number,
                ),
    {
        let mut issue_info: Vec<(u64, u64)> = Vec::new();
        let mut i: usize = 0;
        while i < requests.len()
            invariant
                i <= requests.len(),
                issue_info@.len() == i,
                forall|j: int|
                    0 <= j < i ==> #[trigger] issue_info@[j] == (
                        requests@[j].value,
                        requests@[j].number,
                    ),
            decreases requests.len() - i,
        {
            issue_info.push((requests[i].value, requests[i].number));
            i = i + 1;
        }
        let p = IssueProcess {
            phase: IssuePhase::AwaitIssue,
            user,
            central_addr: central.central_addr,
            quota_addr: quota_system.quota_addr,
            quotas: Vec::new(),
        };
        (p, IssueAction::SignIssue { issue_info })
    }

    /// Whether `event` can be taken.
    pub fn can_step(&self, event: &IssueEvent) -> (ok: bool)
        requires
            self.wf(),
        ensures
            ok == self.spec_can_step(*event),
    {
        match (self.phase, event) {
            (IssuePhase::AwaitIssue, IssueEvent::IssueSigned { .. }) => true,
            (IssuePhase::AwaitCentral, IssueEvent::CentralReplied(_)) => true,
            (IssuePhase::AwaitQuota, IssueEvent::QuotaReplied(resp)) => {
                if resp.data.len() > 0 {
                    is_hex(resp.data[0].as_str())
                } else {
                    true
                }
            },
            (IssuePhase::AwaitSign { .. }, IssueEvent::QuotaSigned { .. }) => true,
            (IssuePhase::AwaitInsert { k }, IssueEvent::Inserted(res)) => match res {
                Ok(_) => {
                    if k + 1 < self.quotas.len() {
                        is_hex(self.quotas[k + 1].as_str())
                    } else {
                        true
                    }
                },
                Err(_) => true,
            },
            _ => false,
        }
    }

    /// Takes one event and says what to do next.
    pub fn step(&mut self, event: IssueEvent) -> (action: IssueAction)
        requires
            old(self).wf(),
            old(self).spec_can_step(event),
        ensures
            final(self).wf(),
            old(self).transition(*final(self), event, action),
    {
        match event {
            IssueEvent::IssueSigned { signature_valid, issue } => {
                if !signature_valid {
                    self.phase = IssuePhase::Done;
                    IssueAction::Finish(Outcome::Failure(Failure::JsonParseError))
                } else {
                    let body = CentralRequest::new(encode_hex(issue.as_slice()));
                    self.phase = IssuePhase::AwaitCentral;
                    IssueAction::PostCentral {
                        url: self.central_addr.clone(),
                        body,
                        user: self.user.clone(),
                    }
                }
            },
            IssueEvent::CentralReplied(resp) => {
                let body = QuotaRequest::new(resp.data);
                self.phase = IssuePhase::AwaitQuota;
                IssueAction::PostQuota { url: self.quota_addr.clone(), body, user: self.user.clone() }
            },
            IssueEvent::QuotaReplied(resp) => {
                self.quotas = resp.data;
                self.begin_quota(0)
            },
            IssueEvent::QuotaSigned { signature_valid, quota_field, id } => {
                let k = match self.phase {
                    IssuePhase::AwaitSign { k } => k,
                    _ => 0,
                };
                if !signature_valid {
                    self.phase = IssuePhase::Done;
                    IssueAction::Finish(Outcome::Failure(Failure::JsonParseError))
                } else {
                    self.phase = IssuePhase::AwaitInsert { k };
                    IssueAction::Insert {
                        id_hex: encode_hex(id.as_slice()),
                        quota_field_hex: encode_hex(quota_field.as_slice()),
                        state: String::from_str("suspended"),
                        user: self.user.clone(),
                    }
                }
            },
            IssueEvent::Inserted(res) => {
                let k = match self.phase {
                    IssuePhase::AwaitInsert { k } => k,
                    _ => 0,
                };
                match res {
                    Err(m) => {
                        self.phase = IssuePhase::Done;
                        IssueAction::Finish(Outcome::Failure(Failure::DatabaseRunning(m)))
                    },
                    Ok(_) => self.begin_quota(k + 1),
                }
            },
        }
    }

    fn begin_quota(&mut self, k: usize) -> (action: IssueAction)
        requires
            k <= old(self).quotas.len(),
            k < old(self).quotas.len() ==> is_hex_text(old(self).quotas@[k as int]@),
        ensures
            begins_quota(*final(self), k as int, action),
            final(self).quotas == old(self).quotas,
            final(self).user == old(self).user,
            final(self).central_addr == old(self).central_addr,
            final(self).quota_addr == old(self).quota_addr,
            final(self).wf(),
    {
        if k < self.quotas.len() {
            let quota_field = match decode_hex(self.quotas[k].as_str()) {
                Ok(bytes) => bytes,
                Err(_) => {
                    proof {
                        assert(false);
                    }
                    Vec::new()
                },
            };
            self.phase = IssuePhase::AwaitSign { k };
            IssueAction::SignQuota { quota_field }
        } else {
            self.phase = IssuePhase::Done;
            IssueAction::Finish(Outcome::Success(None))
        }
    }
}


/// An issue succeeds only once every quota control field handed back by
/// the quota control system is stored: right after the insert of the last
/// one, or at once when none was handed back.
pub proof fn law_issue_succeeds_after_last_field(
    pre: IssueProcess,
    event: IssueEvent,
    post: IssueProcess,
    action: IssueAction,
)
    requires
        pre.wf(),
        pre.spec_can_step(event),
        pre.transition(post, event, action),
    ensures
        action matches IssueAction::Finish(Outcome::Success(_)) ==> {
            ||| pre.phase matches IssuePhase::AwaitInsert { k } && event matches IssueEvent::Inserted(
                Ok(_),
            ) && k + 1 == pre.quotas@.len()
            ||| pre.phase is AwaitQuota && (event matches IssueEvent::QuotaReplied(resp)
                && resp.data@.len() == 0)
        },
{
}

/// The quota control fields are signed one after the other, in the order
/// handed back: the first once the quota control system replied, each next
/// one once the one before is stored.
pub proof fn law_issue_signs_fields_in_order(
    pre: IssueProcess,
    event: IssueEvent,
    post: IssueProcess,
    action: IssueAction,
)
    requires
        pre.wf(),
        pre.spec_can_step(event),
        pre.transition(post, event, action),
    ensures
        action matches IssueAction::SignQuota { quota_field } ==> {
            &&& post.phase matches IssuePhase::AwaitSign { k: j }
            &&& j < post.quotas@.len()
            &&& Some(quota_field@) == spec_hex_decode(post.quotas@[j as int]@)
            &&& (pre.phase matches IssuePhase::AwaitInsert { k } ==> j == k + 1 && post.quotas
                == pre.quotas)
            &&& (pre.phase is AwaitQuota ==> j == 0 && (event matches IssueEvent::QuotaReplied(
                resp,
            ) && post.quotas == resp.data))
        },
{
}

/// Each signed quota control field is stored, as suspended currency of
/// `user`, under its own id and encoding, and only when its signature
/// checks.
pub proof fn law_issue_stores_signed_fields(
    pre: IssueProcess,
    event: IssueEvent,
    post: IssueProcess,
    action: IssueAction,
)
    requires
        pre.wf(),
        pre.spec_can_step(event),
        pre.transition(post, event, action),
    ensures
        action matches IssueAction::Insert { id_hex, quota_field_hex, state, user } ==> {
            &&& pre.phase matches IssuePhase::AwaitSign { k }
            &&& post.phase == IssuePhase::AwaitInsert { k }
            &&& event matches IssueEvent::QuotaSigned { signature_valid, quota_field, id }
            &&& signature_valid
            &&& id_hex@ == spec_hex_encode(id@)
            &&& quota_field_hex@ == spec_hex_encode(quota_field@)
            &&& state@ == "suspended"@
            &&& user == pre.user
        },
{
}

/// The issue request is posted to the central management system, and its
/// reply to the quota control system, at the addresses the process was
/// started with and on behalf of `user`.
pub proof fn law_issue_posts_for_user(
    pre: IssueProcess,
    event: IssueEvent,
    post: IssueProcess,
    action: IssueAction,
)
    requires
        pre.wf(),
        pre.spec_can_step(event),
        pre.transition(post, event, action),
    ensures
        action matches IssueAction::PostCentral { url, body, user } ==> {
            &&& url@ == pre.central_addr@
            &&& user == pre.user
            &&& event matches IssueEvent::IssueSigned { signature_valid, issue }
            &&& signature_valid
            &&& body.issue@ == spec_hex_encode(issue@)
        },
        action matches IssueAction::PostQuota { url, body, user } ==> {
            &&& url@ == pre.quota_addr@
            &&& user == pre.user
            &&& event matches IssueEvent::CentralReplied(resp)
            &&& body.issue_quota_request == resp.data
        },
{
}

/// How an issue ends early: a signature that does not check, on the issue
/// request or on a quota control field, ends it as a parse error, and a
/// failed insert with the database's message; a checked signature moves it
/// on.
pub proof fn law_issue_refusals(
    pre: IssueProcess,
    event: IssueEvent,
    post: IssueProcess,
    action: IssueAction,
)
    requires
        pre.wf(),
        pre.spec_can_step(event),
        pre.transition(post, event, action),
    ensures
        event matches IssueEvent::IssueSigned { signature_valid, .. } ==> (!signature_valid
            ==> action == IssueAction::Finish(Outcome::Failure(Failure::JsonParseError))) && (
        signature_valid ==> action is PostCentral),
        event matches IssueEvent::QuotaSigned { signature_valid, .. } ==> (!signature_valid
            ==> action == IssueAction::Finish(Outcome::Failure(Failure::JsonParseError))) && (
        signature_valid ==> action is Insert),
        event matches IssueEvent::Inserted(Err(m)) ==> action == IssueAction::Finish(
            Outcome::Failure(Failure::DatabaseRunning(m)),
        ),
        event matches IssueEvent::QuotaReplied(resp) ==> (resp.data@.len() > 0 ==> action is SignQuota),
{
}

} // verus!
