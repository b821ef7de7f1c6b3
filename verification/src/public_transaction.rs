use vstd::prelude::*;
use crate::convert::texts;
use crate::hexcode::{decode_hex, encode_hex, is_hex, is_hex_text, spec_hex_decode, spec_hex_encode};
use crate::response::{Failure, Outcome};

verus! {

/// Where a batch of transfers stands.
#[derive(Clone, Copy)]
pub enum TransferPhase {
    /// Waiting for transaction `k` to be carried out.
    AwaitTransfer { k: usize },
    /// Waiting for the currency of transaction `k` to be looked up.
    Find { k: usize },
    /// Waiting for the currency of transaction `k` to get its new owner.
    SetOwner { k: usize },
    /// The batch has ended.
    Done,
}

/// What the surroundings report back.
pub enum TransferEvent {
    /// The transaction decoded and the currency it moves was re-signed for
    /// its new owner: the currency's quota control field, the new owner's
    /// wallet certificate and the new currency, each encoded.
    Transferred { quota_field: Vec<u8>, wallet_cert: Vec<u8>, currency: Vec<u8> },
    /// How many rows hold the quota control field, or the database's error.
    Found(Result<usize, String>),
    /// Whether recording the new owner went through.
    OwnerSet(Result<(), String>),
}

/// What the surroundings are asked to do next.
pub enum TransferAction {
    /// Decode these bytes as a signed transaction and re-sign its currency
    /// for the receiver.
    Transfer { transaction: Vec<u8> },
    /// Look up the currency with this quota control field.
    FindQuota { quota_field_hex: String },
    /// Record `owner_hex` as the owner of the currency with this quota
    /// control field.
    SetOwner { owner_hex: String, quota_field_hex: String },
    /// Reply, with the hex text of the new currencies on success.
    Finish(Outcome<Vec<String>>),
}

/// A batch of public transactions, each moving one currency to a new owner.
pub struct TransferProcess {
    pub phase: TransferPhase,
    /// The transactions, as hex text.
    pub requests: Vec<String>,
    /// The hex text of the quota control field of the current currency.
    pub quota_field_hex: String,
    /// The hex text of the current currency's new owner.
    pub owner_hex: String,
    /// The hex text of each new currency so far.
    pub currency: Vec<String>,
}

/// After the transactions before `k` went through: carry out transaction
/// `k`, or, past the last, reply with the new currencies.
pub open spec fn begins_request(post: TransferProcess, k: int, currency: Seq<Seq<char>>, action: TransferAction) -> bool {
    if k < post.requests.len() {
        &&& action matches TransferAction::Transfer { transaction }
        &&& Some(transaction@) == spec_hex_decode(post.requests@[k]@)
        &&& post.phase == TransferPhase::AwaitTransfer { k: k as usize }
        &&& texts(post.currency@) == currency
    } else {
        &&& action matches TransferAction::Finish(Outcome::Success(Some(c)))
        &&& texts(c@) == currency
        &&& post.phase == TransferPhase::Done
    }
}

/// The batch ends with failure `f`.
pub open spec fn transfer_fails(post: TransferProcess, action: TransferAction, f: Failure) -> bool {
    &&& action == TransferAction::Finish(Outcome::Failure(f))
    &&& post.phase == TransferPhase::Done
}

impl TransferProcess {
    pub open spec fn wf(self) -> bool {
        match self.phase {
            TransferPhase::AwaitTransfer { k } => {
                &&& k < self.requests.len()
                &&& self.currency@.len() == k
            },
            TransferPhase::Find { k } => {
                &&& k < self.requests.len()
                &&& self.currency@.len() == k + 1
            },
            TransferPhase::SetOwner { k } => {
                &&& k < self.requests.len()
                &&& self.currency@.len() == k + 1
            },
            TransferPhase::Done => true,
        }
    }

    /// Whether `event` answers what the batch waits for, and the next
    /// transaction, if the batch moves on to it, is hex text.
    pub open spec fn spec_can_step(self, event: TransferEvent) -> bool {
        match (self.phase, event) {
            (TransferPhase::AwaitTransfer { .. }, TransferEvent::Transferred { .. }) => true,
            (TransferPhase::Find { .. }, TransferEvent::Found(_)) => true,
            (TransferPhase::SetOwner { k }, TransferEvent::OwnerSet(res)) => match res {
                Ok(_) => k + 1 < self.requests.len() ==> is_hex_text(self.requests@[k + 1]@),
                Err(_) => true,
            },
            _ => false,
        }
    }

    /// What one step does: from this state, on `event`, to `post` with `action`.
    pub open spec fn transition(self, post: Self, event: TransferEvent, action: TransferAction) -> bool {
        &&& post.requests == self.requests
        &&& match (self.phase, event) {
            (
                TransferPhase::AwaitTransfer { k },
                TransferEvent::Transferred { quota_field, wallet_cert, currency },
            ) => {
                &&& texts(post.currency@) == texts(self.currency@).push(spec_hex_encode(currency@))
                &&& action matches TransferAction::FindQuota { quota_field_hex: q }
                &&& q@ == spec_hex_encode(quota_field@)
                &&& post.quota_field_hex@ == q@
                &&& post.owner_hex@ == spec_hex_encode(wallet_cert@)
                &&& post.phase == TransferPhase::Find { k }
            },
            (TransferPhase::Find { k }, TransferEvent::Found(res)) => match res {
                Err(m) => transfer_fails(post, action, Failure::DatabaseRunning(m)),
                Ok(c) => if c == 0 {
                    transfer_fails(post, action, Failure::DatabaseBuild)
                } else {
                    &&& action matches TransferAction::SetOwner { owner_hex, quota_field_hex }
                    &&& owner_hex@ == self.owner_hex@
                    &&& quota_field_hex@ == self.quota_field_hex@
                    &&& post.phase == TransferPhase::SetOwner { k }
                    &&& post.currency == self.currency
                },
            },
            (TransferPhase::SetOwner { k }, TransferEvent::OwnerSet(res)) => match res {
                Err(m) => transfer_fails(post, action, Failure::DatabaseRunning(m)),
                Ok(_) => begins_request(post, k + 1, texts(self.currency@), action),
            },
            _ => false,
        }
    }

    /// Whether a batch of these transactions can start: the first, if any,
    /// is hex text.
    pub fn can_start(requests: &Vec<String>) -> (ok: bool)
        ensures
            ok == (requests@.len() > 0 ==> is_hex_text(requests@[0]@)),
    {
        if requests.len() > 0 {
            is_hex(requests[0].as_str())
        } else {
            true
        }
    }

    /// Starts a batch of transactions, each given as hex text.
    pub fn new(requests: Vec<String>) -> (r: (Self, TransferAction))
        requires
            requests@.len() > 0 ==> is_hex_text(requests@[0]@),
        ensures
            r.0.wf(),
            r.0.requests == requests,
            begins_request(r.0, 0, Seq::empty(), r.1),
    {
        let mut p = TransferProcess {
            phase: TransferPhase::Done,
            requests,
            quota_field_hex: String::new(),
            owner_hex: String::new(),
            currency: Vec::new(),
        };
        proof {
            assert(texts(p.currency@) =~= Seq::<Seq<char>>::empty());
        }
        let a = p.begin_request(0);
        (p, a)
    }

    /// Whether `event` can be taken.
    pub fn can_step(&self, event: &TransferEvent) -> (ok: bool)
        requires
            self.wf(),
        ensures
            ok == self.spec_can_step(*event),
    {
        match (self.phase, event) {
            (TransferPhase::AwaitTransfer { .. }, TransferEvent::Transferred { .. }) => true,
            (TransferPhase::Find { .. }, TransferEvent::Found(_)) => true,
            (TransferPhase::SetOwner { k }, TransferEvent::OwnerSet(res)) => match res {
                Ok(_) => {
                    if k + 1 < self.requests.len() {
                        is_hex(self.requests[k + 1].as_str())
                    } else {
                        true
                    }
                },
                Err(_) => true,
            },
            _ => false,
        }
    }

    /// Takes one event and says what to do next.
    pub fn step(&mut self, event: TransferEvent) -> (action: TransferAction)
        requires
            old(self).wf(),
            old(self).spec_can_step(event),
        ensures
            final(self).wf(),
            old(self).transition(*final(self), event, action),
            action matches TransferAction::Finish(Outcome::Success(Some(c))) ==> c@.len()
                == final(self).requests@.len(),
    {
        match event {
            TransferEvent::Transferred { quota_field, wallet_cert, currency } => {
                let k = match self.phase {
                    TransferPhase::AwaitTransfer { k } => k,
                    _ => 0,
                };
                let text = encode_hex(currency.as_slice());
                self.currency.push(text);
                let quota_field_hex = encode_hex(quota_field.as_slice());
                self.quota_field_hex = quota_field_hex.clone();
                self.owner_hex = encode_hex(wallet_cert.as_slice());
                self.phase = TransferPhase::Find { k };
                proof {
                    assert(texts(self.currency@) =~= texts(old(self).currency@).push(
                        spec_hex_encode(currency@),
                    ));
                }
                TransferAction::FindQuota { quota_field_hex }
            },
            TransferEvent::Found(res) => {
                let k = match self.phase {
                    TransferPhase::Find { k } => k,
                    _ => 0,
                };
                match res {
                    Err(m) => {
                        self.phase = TransferPhase::Done;
                        TransferAction::Finish(Outcome::Failure(Failure::DatabaseRunning(m)))
                    },
                    Ok(c) => {
                        if c == 0 {
                            self.phase = TransferPhase::Done;
                            TransferAction::Finish(Outcome::Failure(Failure::DatabaseBuild))
                        } else {
                            self.phase = TransferPhase::SetOwner { k };
                            TransferAction::SetOwner {
                                owner_hex: self.owner_hex.clone(),
                                quota_field_hex: self.quota_field_hex.clone(),
                            }
                        }
                    },
                }
            },
            TransferEvent::OwnerSet(res) => {
                let k = match self.phase {
                    TransferPhase::SetOwner { k } => k,
                    _ => 0,
                };
                match res {
                    Err(m) => {
                        self.phase = TransferPhase::Done;
                        TransferAction::Finish(Outcome::Failure(Failure::DatabaseRunning(m)))
                    },
                    Ok(_) => self.begin_request(k + 1),
                }
            },
        }
    }

    fn begin_request(&mut self, k: usize) -> (action: TransferAction)
        requires
            k <= old(self).requests.len(),
            old(self).currency@.len() == k,
            k < old(self).requests.len() ==> is_hex_text(old(self).requests@[k as int]@),
        ensures
            begins_request(*final(self), k as int, texts(old(self).currency@), action),
            final(self).requests == old(self).requests,
            final(self).wf(),
            action matches TransferAction::Finish(Outcome::Success(Some(c))) ==> c@.len()
                == final(self).requests@.len(),
    {
        if k < self.requests.len() {
            let transaction = match decode_hex(self.requests[k].as_str()) {
                Ok(bytes) => bytes,
                Err(_) => {
                    proof {
                        assert(false);
                    }
                    Vec::new()
                },
            };
            self.phase = TransferPhase::AwaitTransfer { k };
            TransferAction::Transfer { transaction }
        } else {
            self.phase = TransferPhase::Done;
            let mut c = Vec::new();
            std::mem::swap(&mut c, &mut self.currency);
            TransferAction::Finish(Outcome::Success(Some(c)))
        }
    }
}


/// The owner recorded for a transaction's currency is the wallet that the
/// same transaction's re-signed currency names, and the row updated is the
/// one with that currency's quota control field: carrying out a
/// transaction, then finding its currency, asks to set exactly that owner.
pub proof fn law_transfer_sets_owner_named_by_its_transaction(
    p0: TransferProcess,
    quota_field: Vec<u8>,
    wallet_cert: Vec<u8>,
    currency: Vec<u8>,
    p1: TransferProcess,
    a1: TransferAction,
    found: usize,
    p2: TransferProcess,
    a2: TransferAction,
)
    requires
        p0.wf(),
        p0.transition(p1, (TransferEvent::Transferred { quota_field, wallet_cert, currency }), a1),
        p1.transition(p2, TransferEvent::Found(Ok(found)), a2),
        found > 0,
    ensures
        a1 matches TransferAction::FindQuota { quota_field_hex } && quota_field_hex@
            == spec_hex_encode(quota_field@),
        a2 matches TransferAction::SetOwner { owner_hex, quota_field_hex } && owner_hex@
            == spec_hex_encode(wallet_cert@) && quota_field_hex@ == spec_hex_encode(quota_field@),
        p0.phase matches TransferPhase::AwaitTransfer { k } ==> p2.phase == (TransferPhase::SetOwner {
            k,
        }),
{
}

/// The transactions are carried out one after the other, in the order
/// given: transaction `k + 1` right after transaction `k`'s owner is set.
pub proof fn law_transfer_carries_out_transactions_in_order(
    pre: TransferProcess,
    event: TransferEvent,
    post: TransferProcess,
    action: TransferAction,
)
    requires
        pre.wf(),
        pre.spec_can_step(event),
        pre.transition(post, event, action),
    ensures
        action matches TransferAction::Transfer { transaction } ==> {
            &&& pre.phase matches TransferPhase::SetOwner { k }
            &&& event matches TransferEvent::OwnerSet(Ok(_))
            &&& post.phase == TransferPhase::AwaitTransfer { k: (k + 1) as usize }
            &&& Some(transaction@) == spec_hex_decode(pre.requests@[k + 1]@)
        },
{
}

/// The new currency of transaction `k` is kept at position `k`, and a
/// successful batch replies, after the last transaction's owner is set,
/// with the new currency of each transaction in order.
pub proof fn law_transfer_replies_in_transaction_order(
    pre: TransferProcess,
    event: TransferEvent,
    post: TransferProcess,
    action: TransferAction,
)
    requires
        pre.wf(),
        pre.spec_can_step(event),
        pre.transition(post, event, action),
    ensures
        event matches TransferEvent::Transferred { currency, .. } ==> {
            &&& pre.phase matches TransferPhase::AwaitTransfer { k }
            &&& post.currency@.len() == k + 1
            &&& post.currency@[k as int]@ == spec_hex_encode(currency@)
            &&& forall|i: int| 0 <= i < k ==> #[trigger] post.currency@[i]@ == pre.currency@[i]@
        },
        action matches TransferAction::Finish(Outcome::Success(Some(c))) ==> {
            &&& pre.phase matches TransferPhase::SetOwner { k }
            &&& k + 1 == pre.requests@.len()
            &&& c@.len() == pre.requests@.len()
            &&& forall|i: int| 0 <= i < c@.len() ==> #[trigger] c@[i]@ == pre.currency@[i]@
        },
{
    if let TransferEvent::Transferred { currency, .. } = event {
        let k = pre.phase->AwaitTransfer_k as int;
        assert(texts(post.currency@).len() == post.currency@.len());
        assert forall|i: int| 0 <= i < k implies #[trigger] post.currency@[i]@ == pre.currency@[i]@ by {
            assert(texts(post.currency@)[i] == texts(pre.currency@)[i]);
        }
        assert(texts(post.currency@)[k] == spec_hex_encode(currency@));
    }
    if let TransferAction::Finish(Outcome::Success(Some(c))) = action {
        assert(c@.len() == texts(c@).len());
        assert(texts(pre.currency@).len() == pre.currency@.len());
        assert forall|i: int| 0 <= i < c@.len() implies #[trigger] c@[i]@ == pre.currency@[i]@ by {
            assert(texts(c@)[i] == texts(pre.currency@)[i]);
        }
    }
}

/// How a batch of transfers ends early: a database error ends it with that
/// error's message, and a lookup that finds no row as a build error; a
/// lookup that finds the row moves it on to setting the owner.
pub proof fn law_transfer_refusals(
    pre: TransferProcess,
    event: TransferEvent,
    post: TransferProcess,
    action: TransferAction,
)
    requires
        pre.wf(),
        pre.spec_can_step(event),
        pre.transition(post, event, action),
    ensures
        event matches TransferEvent::Found(Err(m)) ==> action == TransferAction::Finish(
            Outcome::Failure(Failure::DatabaseRunning(m)),
        ),
        event matches TransferEvent::OwnerSet(Err(m)) ==> action == TransferAction::Finish(
            Outcome::Failure(Failure::DatabaseRunning(m)),
        ),
        event matches TransferEvent::Found(Ok(c)) ==> (c == 0 ==> action == TransferAction::Finish(
            Outcome::Failure(Failure::DatabaseBuild),
        )) && (c > 0 ==> action is SetOwner),
{
}

} // verus!
