use vstd::prelude::*;
use crate::convert::texts;
use crate::hexcode::{decode_hex, encode_hex, is_hex, is_hex_text, spec_hex_decode, spec_hex_encode};
use crate::response::{Failure, Outcome};

verus! {

/// A request to mint currency: a quota control field and the wallet that
/// receives the currency, both as hex text.
pub struct InternalMetaRequest {
    pub quota: String,
    pub target: String,
}

/// Whether both parts of a minting request are hex text.
pub open spec fn meta_request_is_hex(r: InternalMetaRequest) -> bool {
    is_hex_text(r.quota@) && is_hex_text(r.target@)
}

/// Where a batch of minting requests stands.
#[derive(Clone, Copy)]
pub enum MetaPhase {
    /// Waiting for the currency of request `k` to be minted.
    AwaitMint { k: usize },
    /// Waiting for the currency of request `k` to be stored.
    AwaitInsert { k: usize },
    /// The batch has ended.
    Done,
}

/// What the surroundings report back.
pub enum MetaEvent {
    /// The currency was minted and handed over by a transaction; whether the
    /// handed-over currency's signature checks, and, encoded: the signed
    /// quota control field, the receiving wallet's certificate, the
    /// handed-over currency, the minted currency and the quota field's id.
    Minted {
        currency_valid: bool,
        quota_field: Vec<u8>,
        wallet_cert: Vec<u8>,
        currency: Vec<u8>,
        digital: Vec<u8>,
        id: Vec<u8>,
    },
    /// The currency was stored.
    Inserted,
}

/// What the surroundings are asked to do next.
pub enum MetaAction {
    /// Decode the quota control field and the receiver's certificate from
    /// these bytes, sign the field, mint a currency over it for the receiver
    /// and hand it over by a signed transaction.
    Mint { quota_field: Vec<u8>, target_cert: Vec<u8> },
    /// Store a currency row with these columns.
    Insert { id_hex: String, quota_field_hex: String, state: String, owner_hex: String },
    /// Reply, with the hex text of the handed-over currencies on success.
    Finish(Outcome<Vec<String>>),
}

/// A batch of minting requests.
pub struct MetaProcess {
    pub phase: MetaPhase,
    pub requests: Vec<InternalMetaRequest>,
    /// The hex text of each handed-over currency so far.
    pub currency: Vec<String>,
    /// The hex text of each minted currency so far.
    pub digital: Vec<String>,
}

/// After the requests before `k` went through: mint for request `k`, or,
/// past the last, reply with the handed-over currencies.
pub open spec fn begins_meta(post: MetaProcess, k: int, currency: Seq<Seq<char>>, action: MetaAction) -> bool {
    if k < post.requests.len() {
        &&& action matches MetaAction::Mint { quota_field, target_cert }
        &&& Some(quota_field@) == spec_hex_decode(post.requests@[k].quota@)
        &&& Some(target_cert@) == spec_hex_decode(post.requests@[k].target@)
        &&& post.phase == MetaPhase::AwaitMint { k: k as usize }
        &&& texts(post.currency@) == currency
    } else {
        &&& action matches MetaAction::Finish(Outcome::Success(Some(c)))
        &&& texts(c@) == currency
        &&& post.phase == MetaPhase::Done
    }
}

impl MetaProcess {
    pub open spec fn wf(self) -> bool {
        match self.phase {
            MetaPhase::AwaitMint { k } => {
                &&& k < self.requests.len()
                &&& self.currency@.len() == k
                &&& self.digital@.len() == k
            },
            MetaPhase::AwaitInsert { k } => {
                &&& k < self.requests.len()
                &&& self.currency@.len() == k + 1
                &&& self.digital@.len() == k + 1
            },
            MetaPhase::Done => true,
        }
    }

    /// Whether `event` answers what the batch waits for, and the next
    /// request, if the batch moves on to it, is hex text.
    pub open spec fn spec_can_step(self, event: MetaEvent) -> bool {
        match (self.phase, event) {
            (MetaPhase::AwaitMint { .. }, MetaEvent::Minted { .. }) => true,
            (MetaPhase::AwaitInsert { k }, MetaEvent::Inserted) => k + 1 < self.requests.len()
                ==> meta_request_is_hex(self.requests@[k + 1]),
            _ => false,
        }
    }

    /// What one step does: from this state, on `event`, to `post` with `action`.
    pub open spec fn transition(self, post: Self, event: MetaEvent, action: MetaAction) -> bool {
        &&& post.requests == self.requests
        &&& match (self.phase, event) {
            (
                MetaPhase::AwaitMint { k },
                MetaEvent::Minted { currency_valid, quota_field, wallet_cert, currency, digital, id },
            ) => if !currency_valid {
                &&& action == MetaAction::Finish(Outcome::Failure(Failure::JsonParseError))
                &&& post.phase == MetaPhase::Done
            } else {
                &&& texts(post.currency@) == texts(self.currency@).push(spec_hex_encode(currency@))
                &&& texts(post.digital@) == texts(self.digital@).push(spec_hex_encode(digital@))
                &&& action matches MetaAction::Insert { id_hex, quota_field_hex, state, owner_hex }
                &&& id_hex@ == spec_hex_encode(id@)
                &&& quota_field_hex@ == spec_hex_encode(quota_field@)
                &&& state@ == "circulation"@
                &&& owner_hex@ == spec_hex_encode(wallet_cert@)
                &&& post.phase == MetaPhase::AwaitInsert { k }
            },
            (MetaPhase::AwaitInsert { k }, MetaEvent::Inserted) => {
                &&& post.digital == self.digital
                &&& begins_meta(post, k + 1, texts(self.currency@), action)
            },
            _ => false,
        }
    }

    /// Whether a batch of these requests can start: the first, if any, is
    /// hex text.
    pub fn can_start(requests: &Vec<InternalMetaRequest>) -> (ok: bool)
        ensures
            ok == (requests@.len() > 0 ==> meta_request_is_hex(requests@[0])),
    {
        if requests.len() > 0 {
            is_hex(requests[0].quota.as_str()) && is_hex(requests[0].target.as_str())
        } else {
            true
        }
    }

    /// Starts a batch of minting requests.
    pub fn new(requests: Vec<InternalMetaRequest>) -> (r: (Self, MetaAction))
        requires
            requests@.len() > 0 ==> meta_request_is_hex(requests@[0]),
        ensures
            r.0.wf(),
            r.0.requests == requests,
            begins_meta(r.0, 0, Seq::empty(), r.1),
    {
        let mut p = MetaProcess {
            phase: MetaPhase::Done,
            requests,
            currency: Vec::new(),
            digital: Vec::new(),
        };
        proof {
            assert(texts(p.currency@) =~= Seq::<Seq<char>>::empty());
        }
        let a = p.begin_meta(0);
        (p, a)
    }

    /// Whether `event` can be taken.
    pub fn can_step(&self, event: &MetaEvent) -> (ok: bool)
        requires
            self.wf(),
        ensures
            ok == self.spec_can_step(*event),
    {
        match (self.phase, event) {
            (MetaPhase::AwaitMint { .. }, MetaEvent::Minted { .. }) => true,
            (MetaPhase::AwaitInsert { k }, MetaEvent::Inserted) => {
                if k + 1 < self.requests.len() {
                    is_hex(self.requests[k + 1].quota.as_str()) && is_hex(
                        self.requests[k + 1].target.as_str(),
                    )
                } else {
                    true
                }
            },
            _ => false,
        }
    }

    /// Takes one event and says what to do next.
    pub fn step(&mut self, event: MetaEvent) -> (action: MetaAction)
        requires
            old(self).wf(),
            old(self).spec_can_step(event),
        ensures
            final(self).wf(),
            old(self).transition(*final(self), event, action),
            action matches MetaAction::Finish(Outcome::Success(Some(c))) ==> c@.len()
                == final(self).requests@.len(),
    {
        match event {
            MetaEvent::Minted { currency_valid, quota_field, wallet_cert, currency, digital, id } => {
                let k = match self.phase {
                    MetaPhase::AwaitMint { k } => k,
                    _ => 0,
                };
                if !currency_valid {
                    self.phase = MetaPhase::Done;
                    MetaAction::Finish(Outcome::Failure(Failure::JsonParseError))
                } else {
                    self.currency.push(encode_hex(currency.as_slice()));
                    self.digital.push(encode_hex(digital.as_slice()));
                    proof {
                        assert(texts(self.currency@) =~= texts(old(self).currency@).push(
                            spec_hex_encode(currency@),
                        ));
                        assert(texts(self.digital@) =~= texts(old(self).digital@).push(
                            spec_hex_encode(digital@),
                        ));
                    }
                    self.phase = MetaPhase::AwaitInsert { k };
                    MetaAction::Insert {
                        id_hex: encode_hex(id.as_slice()),
                        quota_field_hex: encode_hex(quota_field.as_slice()),
                        state: String::from_str("circulation"),
                        owner_hex: encode_hex(wallet_cert.as_slice()),
                    }
                }
            },
            MetaEvent::Inserted => {
                let k = match self.phase {
                    MetaPhase::AwaitInsert { k } => k,
                    _ => 0,
                };
                self.begin_meta(k + 1)
            },
        }
    }

    fn begin_meta(&mut self, k: usize) -> (action: MetaAction)
        requires
            k <= old(self).requests.len(),
            old(self).currency@.len() == k,
            old(self).digital@.len() == k,
            k < old(self).requests.len() ==> meta_request_is_hex(old(self).requests@[k as int]),
        ensures
            begins_meta(*final(self), k as int, texts(old(self).currency@), action),
            final(self).requests == old(self).requests,
            final(self).digital == old(self).digital,
            final(self).wf(),
            action matches MetaAction::Finish(Outcome::Success(Some(c))) ==> c@.len()
                == final(self).requests@.len(),
    {
        if k < self.requests.len() {
            let quota_field = match decode_hex(self.requests[k].quota.as_str()) {
                Ok(bytes) => bytes,
                Err(_) => {
                    proof {
                        assert(false);
                    }
                    Vec::new()
                },
            };
            let target_cert = match decode_hex(self.requests[k].target.as_str()) {
                Ok(bytes) => bytes,
                Err(_) => {
                    proof {
                        assert(false);
                    }
                    Vec::new()
                },
            };
            self.phase = MetaPhase::AwaitMint { k };
            MetaAction::Mint { quota_field, target_cert }
        } else {
            self.phase = MetaPhase::Done;
            let mut c = Vec::new();
            std::mem::swap(&mut c, &mut self.currency);
            MetaAction::Finish(Outcome::Success(Some(c)))
        }
    }
}


/// The currency handed over for request `k` is kept at position `k`, after
/// those of the requests before it, which stay as they were.
pub proof fn law_meta_keeps_currency_in_request_order(
    pre: MetaProcess,
    event: MetaEvent,
    post: MetaProcess,
    action: MetaAction,
)
    requires
        pre.wf(),
        pre.spec_can_step(event),
        pre.transition(post, event, action),
    ensures
        event matches MetaEvent::Minted { currency_valid, currency, .. } ==> (currency_valid ==> {
            &&& pre.phase matches MetaPhase::AwaitMint { k }
            &&& post.currency@.len() == k + 1
            &&& post.currency@[k as int]@ == spec_hex_encode(currency@)
            &&& forall|i: int| 0 <= i < k ==> #[trigger] post.currency@[i]@ == pre.currency@[i]@
        }),
{
    if let MetaEvent::Minted { currency_valid, currency, .. } = event {
        if currency_valid {
            let k = pre.phase->AwaitMint_k as int;
            assert(texts(post.currency@).len() == post.currency@.len());
            assert forall|i: int| 0 <= i < k implies #[trigger] post.currency@[i]@ == pre.currency@[i]@ by {
                assert(texts(post.currency@)[i] == texts(pre.currency@)[i]);
            }
            assert(texts(post.currency@)[k] == spec_hex_encode(currency@));
        }
    }
}

/// A batch succeeds only after the last request's currency is stored, and
/// its reply lists, for each request in order, the currency handed over for
/// it.
pub proof fn law_meta_replies_in_request_order(
    pre: MetaProcess,
    event: MetaEvent,
    post: MetaProcess,
    action: MetaAction,
)
    requires
        pre.wf(),
        pre.spec_can_step(event),
        pre.transition(post, event, action),
    ensures
        action matches MetaAction::Finish(Outcome::Success(Some(c))) ==> {
            &&& pre.phase matches MetaPhase::AwaitInsert { k }
            &&& k + 1 == pre.requests@.len()
            &&& c@.len() == pre.requests@.len()
            &&& forall|i: int| 0 <= i < c@.len() ==> #[trigger] c@[i]@ == pre.currency@[i]@
        },
{
    if let MetaAction::Finish(Outcome::Success(Some(c))) = action {
        assert(pre.phase is AwaitInsert);
        assert(texts(c@) == texts(pre.currency@));
        assert(c@.len() == texts(c@).len());
        assert(c@.len() == pre.currency@.len());
        assert forall|i: int| 0 <= i < c@.len() implies #[trigger] c@[i]@ == pre.currency@[i]@ by {
            assert(texts(c@)[i] == texts(pre.currency@)[i]);
        }
    }
}

/// Request `k` is minted right after request `k - 1` is stored, from its
/// own quota control field and receiver; and each minted currency is
/// stored in circulation, owned by the wallet it was handed over to.
pub proof fn law_meta_mints_each_request_for_its_receiver(
    pre: MetaProcess,
    event: MetaEvent,
    post: MetaProcess,
    action: MetaAction,
)
    requires
        pre.wf(),
        pre.spec_can_step(event),
        pre.transition(post, event, action),
    ensures
        action matches MetaAction::Mint { quota_field, target_cert } ==> {
            &&& pre.phase matches MetaPhase::AwaitInsert { k }
            &&& post.phase == MetaPhase::AwaitMint { k: (k + 1) as usize }
            &&& Some(quota_field@) == spec_hex_decode(pre.requests@[k + 1].quota@)
            &&& Some(target_cert@) == spec_hex_decode(pre.requests@[k + 1].target@)
        },
        action matches MetaAction::Insert { id_hex, quota_field_hex, state, owner_hex } ==> {
            &&& event matches MetaEvent::Minted { currency_valid, quota_field, wallet_cert, id, .. }
            &&& currency_valid
            &&& owner_hex@ == spec_hex_encode(wallet_cert@)
            &&& quota_field_hex@ == spec_hex_encode(quota_field@)
            &&& id_hex@ == spec_hex_encode(id@)
            &&& state@ == "circulation"@
        },
{
}

/// A handed-over currency whose signature does not check ends the batch as
/// a parse error; one that checks is stored.
pub proof fn law_meta_refusals(
    pre: MetaProcess,
    event: MetaEvent,
    post: MetaProcess,
    action: MetaAction,
)
    requires
        pre.wf(),
        pre.spec_can_step(event),
        pre.transition(post, event, action),
    ensures
        event matches MetaEvent::Minted { currency_valid, .. } ==> (!currency_valid ==> action
            == MetaAction::Finish(Outcome::Failure(Failure::JsonParseError))) && (currency_valid
            ==> action is Insert),
        action == MetaAction::Finish(Outcome::Failure(Failure::JsonParseError)) ==> (
        event matches MetaEvent::Minted { currency_valid, .. } && !currency_valid),
{
}

} // verus!
