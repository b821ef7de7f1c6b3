use vstd::prelude::*;
use crate::hexcode::{
    decode_hex, encode_hex, is_hex, is_hex_text, lemma_hex_round_trip, spec_hex_decode, spec_hex_encode,
};
use crate::response::{Failure, Outcome};

verus! {

/// A currency handed in for conversion, as the signed request carries it.
pub struct InputCoin {
    /// The face value of its quota control field.
    pub value: u64,
    /// Whether the currency's signature checks.
    pub signature_valid: bool,
    /// The encoded quota control field.
    pub quota_field: Vec<u8>,
    /// The encoded certificate of the wallet that owns it.
    pub wallet_cert: Vec<u8>,
}

/// A currency row that waits, suspended, to be issued.
pub struct SuspendedCoin {
    pub id: String,
    /// The quota control field, as hex text.
    pub quota_field_hex: String,
}

/// Where a conversion stands.
#[derive(Clone, Copy)]
pub enum ConvertPhase {
    /// Waiting for the signed request to be decoded.
    AwaitParse,
    /// Waiting for how many currencies of output `k`'s value are suspended.
    Check { k: usize },
    /// Waiting for input `j` to be looked up among the circulating currency.
    Find { j: usize },
    /// Waiting for input `j` to be taken out of circulation.
    Retire { j: usize },
    /// Waiting for the receiving wallet's certificate to be decoded.
    AwaitTarget,
    /// Waiting for the suspended currencies of output `k`'s value.
    List { k: usize },
    /// Waiting for row `r` of the rows listed for output `k` to be issued.
    Promote { k: usize, r: usize },
    /// The conversion has ended.
    Done,
}

/// What the surroundings report back.
pub enum ConvertEvent {
    /// The request decoded: the currencies handed in and, for each value
    /// asked for, the value and how many.
    Parsed { inputs: Vec<InputCoin>, outputs: Vec<(u64, u64)> },
    /// How many currencies of the value are suspended, or the database's error.
    Counted(Result<usize, String>),
    /// How many circulating rows match the input, or the database's error.
    Found(Result<usize, String>),
    /// Whether taking the input out of circulation went through.
    Retired(Result<(), String>),
    /// The receiving wallet's certificate decoded.
    TargetLoaded,
    /// The suspended rows of the value, or the database's error.
    Listed(Result<Vec<SuspendedCoin>, String>),
    /// The row was handed to the wallet and a currency signed over it (its
    /// encoding), or the database refused the update.
    Promoted(Result<Vec<u8>, ()>),
}

/// What the surroundings are asked to do next.
pub enum ConvertAction {
    /// Decode these bytes as a signed conversion request.
    ParseRequest { request: Vec<u8> },
    /// Count `user`'s currencies of this value that are in `state`.
    CountSuspended { value: u64, state: String, user: String },
    /// Look up `user`'s row in `state` with this quota control field and
    /// owner.
    FindInput { quota_field_hex: String, owner_hex: String, state: String, user: String },
    /// Put `user`'s row with this quota control field into `state` and clear
    /// its owner.
    RetireInput { quota_field_hex: String, state: String, user: String },
    /// Decode the receiving wallet's certificate from these bytes.
    LoadTarget { wallet_cert: Vec<u8> },
    /// List `user`'s rows of this value that are in `state`.
    ListSuspended { value: u64, state: String, user: String },
    /// Decode the quota control field, put `user`'s row `id` into `state`
    /// owned by `owner_hex`, and sign a currency over it for the receiving
    /// wallet.
    PromoteRow { id: String, quota_field: Vec<u8>, owner_hex: String, state: String, user: String },
    /// Reply, with the hex text of the new currencies on success.
    Finish(Outcome<Vec<String>>),
}

/// The state of a currency row that a wallet holds.
pub open spec fn state_circulation() -> Seq<char> {
    "circulation"@
}

/// The state of a currency row that waits to be issued.
pub open spec fn state_suspended() -> Seq<char> {
    "suspended"@
}

/// The value of the currencies handed in.
pub open spec fn value_total(inputs: Seq<InputCoin>) -> int
    decreases inputs.len(),
{
    if inputs.len() == 0 {
        0
    } else {
        value_total(inputs.drop_last()) + inputs.last().value
    }
}

/// The value asked for: the sum over the outputs of value times count.
pub open spec fn output_total(outputs: Seq<(u64, u64)>) -> int
    decreases outputs.len(),
{
    if outputs.len() == 0 {
        0
    } else {
        output_total(outputs.drop_last()) + outputs.last().0 * outputs.last().1
    }
}

/// How many currencies were issued, given how many were issued for each
/// output in turn.
pub open spec fn issued_count(issued: Seq<int>) -> int
    decreases issued.len(),
{
    if issued.len() == 0 {
        0
    } else {
        issued_count(issued.drop_last()) + issued.last()
    }
}

/// The value of the currencies issued: for each output in turn, its face
/// value times how many were issued for it.
pub open spec fn issued_value(outputs: Seq<(u64, u64)>, issued: Seq<int>) -> int
    decreases issued.len(),
{
    if issued.len() == 0 {
        0
    } else {
        issued_value(outputs, issued.drop_last()) + outputs[issued.len() - 1].0 * issued.last()
    }
}

/// No output had more currencies issued than it asked for.
pub open spec fn within_asked(outputs: Seq<(u64, u64)>, issued: Seq<int>) -> bool {
    forall|i: int| 0 <= i < issued.len() ==> 0 <= #[trigger] issued[i] <= outputs[i].1
}

/// Every output had as many currencies issued as it asked for.
pub open spec fn all_issued(outputs: Seq<(u64, u64)>, issued: Seq<int>) -> bool {
    &&& issued.len() == outputs.len()
    &&& forall|i: int| 0 <= i < issued.len() ==> #[trigger] issued[i] == outputs[i].1
}

proof fn lemma_value_total_step(s: Seq<InputCoin>, i: int)
    requires
        0 <= i < s.len(),
    ensures
        value_total(s.take(i + 1)) == value_total(s.take(i)) + s[i].value,
{
    assert(s.take(i + 1).drop_last() =~= s.take(i));
}

proof fn lemma_value_total_prefix(s: Seq<InputCoin>, i: int)
    requires
        0 <= i <= s.len(),
    ensures
        value_total(s.take(i)) <= value_total(s),
    decreases s.len() - i,
{
    if i < s.len() {
        lemma_value_total_step(s, i);
        lemma_value_total_prefix(s, i + 1);
    } else {
        assert(s.take(i) =~= s);
    }
}

proof fn lemma_output_total_step(s: Seq<(u64, u64)>, i: int)
    requires
        0 <= i < s.len(),
    ensures
        output_total(s.take(i + 1)) == output_total(s.take(i)) + s[i].0 * s[i].1,
        s[i].0 * s[i].1 >= 0,
{
    assert(s.take(i + 1).drop_last() =~= s.take(i));
    let q = s[i].0;
    let n = s[i].1;
    assert(q * n >= 0) by (nonlinear_arith);
}

proof fn lemma_take_all<T>(s: Seq<T>)
    ensures
        s.take(s.len() as int) == s,
{
    assert(s.take(s.len() as int) =~= s);
}

proof fn lemma_issued_value(outputs: Seq<(u64, u64)>, issued: Seq<int>)
    requires
        issued.len() <= outputs.len(),
        within_asked(outputs, issued),
    ensures
        issued_value(outputs, issued) <= output_total(outputs.take(issued.len() as int)),
        (forall|i: int| 0 <= i < issued.len() ==> #[trigger] issued[i] == outputs[i].1)
            ==> issued_value(outputs, issued) == output_total(outputs.take(issued.len() as int)),
    decreases issued.len(),
{
    if issued.len() == 0 {
        assert(outputs.take(0) =~= Seq::<(u64, u64)>::empty());
    } else {
        let m = issued.len() - 1;
        let prev = issued.drop_last();
        assert forall|i: int| 0 <= i < prev.len() implies 0 <= #[trigger] prev[i] <= outputs[i].1 by {
            assert(prev[i] == issued[i]);
        }
        lemma_issued_value(outputs, prev);
        lemma_output_total_step(outputs, m);
        let q = outputs[m].0;
        let n = outputs[m].1;
        let x = issued[m];
        assert(0 <= x <= n);
        assert(q * x <= q * n) by (nonlinear_arith)
            requires
                0 <= x <= n,
                0 <= q,
        ;
        if forall|i: int| 0 <= i < issued.len() ==> #[trigger] issued[i] == outputs[i].1 {
            assert forall|i: int| 0 <= i < prev.len() implies #[trigger] prev[i] == outputs[i].1 by {
                assert(prev[i] == issued[i]);
            }
            assert(x == n);
        }
    }
}

/// The hex text of the wallet that owns the last input handed in so far, or
/// empty text before any.
pub open spec fn wallet_hex_after(inputs: Seq<InputCoin>, j: int) -> Seq<char> {
    if j == 0 {
        Seq::empty()
    } else {
        spec_hex_encode(inputs[j - 1].wallet_cert@)
    }
}

/// How many rows listed for an output are issued: the count asked for, or
/// all rows when fewer are suspended.
pub open spec fn take_count(n: u64, listed: nat) -> int {
    if ((n as usize) as int) < listed {
        (n as usize) as int
    } else {
        listed as int
    }
}

/// The texts of a list of strings.
pub open spec fn texts(v: Seq<String>) -> Seq<Seq<char>> {
    v.map_values(|s: String| s@)
}

proof fn lemma_usize_cast_le(n: u64)
    ensures
        (n as usize) as int <= n as int,
{
    assert((n as usize) as u64 <= n) by (bit_vector);
}

/// A conversion: currency of some value is handed in and exchanged for
/// suspended currency of other face values and the same total value.
pub struct ConvertProcess {
    pub phase: ConvertPhase,
    /// The cloud user who asked for the conversion; every row read or
    /// written is one of theirs.
    pub user: String,
    pub inputs: Vec<InputCoin>,
    pub outputs: Vec<(u64, u64)>,
    pub input_total: u64,
    pub output_total: u64,
    /// The hex text of the wallet of the last input taken out of circulation.
    pub wallet_hex: String,
    /// The rows listed for the current output.
    pub listed: Vec<SuspendedCoin>,
    /// The hex text of each currency issued so far.
    pub minted: Vec<String>,
    /// How many inputs the database has taken out of circulation.
    pub retired: Ghost<int>,
    /// For each output whose rows are all issued, how many were issued.
    pub issued: Ghost<Seq<int>>,
}

/// After the inputs before `j` are out of circulation: check input `j`'s
/// signature and look it up, or, past the last input, decode the wallet of
/// the last input as the receiver.
pub open spec fn begins_input(post: ConvertProcess, j: int, action: ConvertAction) -> bool {
    &&& post.retired@ == j
    &&& if j < post.inputs.len() {
        if !post.inputs@[j].signature_valid {
            &&& action == ConvertAction::Finish(Outcome::Failure(Failure::JsonParseError))
            &&& post.phase == ConvertPhase::Done
        } else {
            &&& action matches ConvertAction::FindInput {
                quota_field_hex: q,
                owner_hex: o,
                state,
                user,
            }
            &&& q@ == spec_hex_encode(post.inputs@[j].quota_field@)
            &&& o@ == spec_hex_encode(post.inputs@[j].wallet_cert@)
            &&& state@ == state_circulation()
            &&& user == post.user
            &&& post.phase == ConvertPhase::Find { j: j as usize }
        }
    } else {
        &&& action matches ConvertAction::LoadTarget { wallet_cert: w }
        &&& w@ == (if post.inputs.len() == 0 {
            Seq::<u8>::empty()
        } else {
            post.inputs@.last().wallet_cert@
        })
        &&& post.phase == ConvertPhase::AwaitTarget
    }
}

/// After the outputs before `k` are issued, `issued[i]` rows for output `i`,
/// with `minted` the currencies issued so far: list output `k`'s suspended
/// rows, or, past the last output, reply with the new currencies.
pub open spec fn begins_output(
    post: ConvertProcess,
    k: int,
    minted: Seq<Seq<char>>,
    issued: Seq<int>,
    action: ConvertAction,
) -> bool {
    &&& post.issued@ == issued
    &&& if k < post.outputs.len() {
        &&& action matches ConvertAction::ListSuspended { value, state, user }
        &&& value == post.outputs@[k].0
        &&& state@ == state_suspended()
        &&& user == post.user
        &&& post.phase == ConvertPhase::List { k: k as usize }
        &&& texts(post.minted@) == minted
    } else {
        &&& action matches ConvertAction::Finish(Outcome::Success(Some(m)))
        &&& texts(m@) == minted
        &&& post.phase == ConvertPhase::Done
    }
}

/// After `r` rows listed for output `k` are issued: issue row `r`, or move on
/// to the next output, with `r` rows issued for output `k`.
pub open spec fn begins_row(
    post: ConvertProcess,
    k: int,
    r: int,
    minted: Seq<Seq<char>>,
    issued: Seq<int>,
    action: ConvertAction,
) -> bool {
    if r < take_count(post.outputs@[k].1, post.listed@.len()) {
        &&& action matches ConvertAction::PromoteRow { id, quota_field, owner_hex, state, user }
        &&& id == post.listed@[r].id
        &&& Some(quota_field@) == spec_hex_decode(post.listed@[r].quota_field_hex@)
        &&& owner_hex@ == post.wallet_hex@
        &&& state@ == state_circulation()
        &&& user == post.user
        &&& post.phase == ConvertPhase::Promote { k: k as usize, r: r as usize }
        &&& texts(post.minted@) == minted
        &&& post.issued@ == issued
    } else {
        begins_output(post, k + 1, minted, issued.push(r), action)
    }
}

/// Once every output was found available: compare the totals, then start
/// taking the inputs out of circulation.
pub open spec fn compares_totals(post: ConvertProcess, action: ConvertAction) -> bool {
    if value_total(post.inputs@) != output_total(post.outputs@) {
        &&& action == ConvertAction::Finish(Outcome::Failure(Failure::CurrencyConvert))
        &&& post.phase == ConvertPhase::Done
    } else {
        begins_input(post, 0, action)
    }
}

/// What a conversion promises whatever happens: currency leaves circulation
/// or enters it only when the value handed in equals the value asked for;
/// new currency is issued only after every currency handed in has left
/// circulation, and goes to the wallet that owned the last of them. A
/// successful conversion has taken every input out of circulation, issued
/// no output more currencies than it asked for, replies with exactly the
/// currencies issued, and issued no more value than was handed in: as much
/// value, when every output got all it asked for.
pub open spec fn keeps_value(post: ConvertProcess, action: ConvertAction) -> bool {
    &&& action is RetireInput || action is PromoteRow ==> value_total(post.inputs@) == output_total(
        post.outputs@,
    )
    &&& action matches ConvertAction::PromoteRow { owner_hex, .. } ==> {
        &&& owner_hex@ == wallet_hex_after(post.inputs@, post.inputs@.len() as int)
        &&& post.retired@ == post.inputs@.len()
    }
    &&& action matches ConvertAction::Finish(Outcome::Success(payload)) ==> {
        &&& value_total(post.inputs@) == output_total(post.outputs@)
        &&& post.retired@ == post.inputs@.len()
        &&& post.issued@.len() == post.outputs@.len()
        &&& within_asked(post.outputs@, post.issued@)
        &&& payload matches Some(m) && m@.len() == issued_count(post.issued@)
        &&& issued_value(post.outputs@, post.issued@) <= value_total(post.inputs@)
        &&& all_issued(post.outputs@, post.issued@) ==> issued_value(post.outputs@, post.issued@)
            == value_total(post.inputs@)
    }
}

/// The request ends with a database failure carrying the database's message.
pub open spec fn fails(post: ConvertProcess, action: ConvertAction, f: Failure) -> bool {
    &&& action == ConvertAction::Finish(Outcome::Failure(f))
    &&& post.phase == ConvertPhase::Done
}

impl ConvertProcess {
    /// The totals agree and are those of the request.
    pub open spec fn balanced(self) -> bool {
        &&& self.input_total == value_total(self.inputs@)
        &&& self.output_total == output_total(self.outputs@)
        &&& self.input_total == self.output_total
    }

    /// While outputs are issued: every input is out of circulation, the
    /// outputs before `k` are issued as `issued` says, and `extra` rows of
    /// output `k` besides.
    pub open spec fn issuing(self, k: int, extra: int) -> bool {
        &&& 0 <= k < self.outputs.len()
        &&& self.balanced()
        &&& self.wallet_hex@ == wallet_hex_after(self.inputs@, self.inputs@.len() as int)
        &&& self.retired@ == self.inputs@.len()
        &&& self.issued@.len() == k
        &&& within_asked(self.outputs@, self.issued@)
        &&& self.minted@.len() == issued_count(self.issued@) + extra
    }

    pub open spec fn wf(self) -> bool {
        match self.phase {
            ConvertPhase::AwaitParse => {
                &&& self.wallet_hex@ == Seq::<char>::empty()
                &&& self.minted@.len() == 0
                &&& self.retired@ == 0
                &&& self.issued@.len() == 0
            },
            ConvertPhase::Check { k } => {
                &&& k < self.outputs.len()
                &&& self.input_total == value_total(self.inputs@)
                &&& self.output_total == output_total(self.outputs@.take(k + 1))
                &&& self.wallet_hex@ == Seq::<char>::empty()
                &&& self.minted@.len() == 0
                &&& self.retired@ == 0
                &&& self.issued@.len() == 0
            },
            ConvertPhase::Find { j } => {
                &&& j < self.inputs.len()
                &&& self.balanced()
                &&& self.wallet_hex@ == wallet_hex_after(self.inputs@, j + 1)
                &&& self.minted@.len() == 0
                &&& self.retired@ == j
                &&& self.issued@.len() == 0
            },
            ConvertPhase::Retire { j } => {
                &&& j < self.inputs.len()
                &&& self.balanced()
                &&& self.wallet_hex@ == wallet_hex_after(self.inputs@, j + 1)
                &&& self.minted@.len() == 0
                &&& self.retired@ == j
                &&& self.issued@.len() == 0
            },
            ConvertPhase::AwaitTarget => {
                &&& self.balanced()
                &&& self.minted@.len() == 0
                &&& self.wallet_hex@ == wallet_hex_after(self.inputs@, self.inputs@.len() as int)
                &&& self.retired@ == self.inputs@.len()
                &&& self.issued@.len() == 0
            },
            ConvertPhase::List { k } => self.issuing(k as int, 0),
            ConvertPhase::Promote { k, r } => {
                &&& self.issuing(k as int, r as int)
                &&& r < take_count(self.outputs@[k as int].1, self.listed@.len())
            },
            ConvertPhase::Done => true,
        }
    }

    /// Whether `event` answers what the process waits for, and the sums it
    /// brings fit in a `u64` and the hex text it brings decodes.
    pub open spec fn spec_can_step(self, event: ConvertEvent) -> bool {
        match (self.phase, event) {
            (ConvertPhase::AwaitParse, ConvertEvent::Parsed { inputs, outputs }) => {
                &&& value_total(inputs@) <= u64::MAX
                &&& outputs@.len() > 0 ==> output_total(outputs@.take(1)) <= u64::MAX
            },
            (ConvertPhase::Check { k }, ConvertEvent::Counted(res)) => match res {
                Ok(c) => (self.outputs@[k as int].1 as usize) <= c && k + 1 < self.outputs.len()
                    ==> output_total(self.outputs@.take(k + 2)) <= u64::MAX,
                Err(_) => true,
            },
            (ConvertPhase::Find { .. }, ConvertEvent::Found(_)) => true,
            (ConvertPhase::Retire { .. }, ConvertEvent::Retired(_)) => true,
            (ConvertPhase::AwaitTarget, ConvertEvent::TargetLoaded) => true,
            (ConvertPhase::List { k }, ConvertEvent::Listed(res)) => match res {
                Ok(rows) => take_count(self.outputs@[k as int].1, rows@.len()) > 0 ==> is_hex_text(
                    rows@[0].quota_field_hex@,
                ),
                Err(_) => true,
            },
            (ConvertPhase::Promote { k, r }, ConvertEvent::Promoted(res)) => match res {
                Ok(_) => r + 1 < take_count(self.outputs@[k as int].1, self.listed@.len())
                    ==> is_hex_text(self.listed@[r + 1].quota_field_hex@),
                Err(_) => true,
            },
            _ => false,
        }
    }

    /// What one step does: from this state, on `event`, to `post` with `action`.
    pub open spec fn transition(self, post: Self, event: ConvertEvent, action: ConvertAction) -> bool {
        &&& post.user == self.user
        &&& match (self.phase, event) {
            (ConvertPhase::AwaitParse, ConvertEvent::Parsed { inputs, outputs }) => {
                &&& post.inputs == inputs
                &&& post.outputs == outputs
                &&& if outputs.len() == 0 {
                    compares_totals(post, action)
                } else {
                    &&& action matches ConvertAction::CountSuspended { value, state, user }
                    &&& value == outputs@[0].0
                    &&& state@ == state_suspended()
                    &&& user == self.user
                    &&& post.phase == ConvertPhase::Check { k: 0 }
                }
            },
            (ConvertPhase::Check { k }, ConvertEvent::Counted(res)) => {
                &&& post.inputs == self.inputs
                &&& post.outputs == self.outputs
                &&& match res {
                    Err(m) => fails(post, action, Failure::DatabaseRunning(m)),
                    Ok(c) => if (self.outputs@[k as int].1 as usize) > c {
                        fails(post, action, Failure::StrConverError)
                    } else if k + 1 < self.outputs.len() {
                        &&& action matches ConvertAction::CountSuspended { value, state, user }
                        &&& value == self.outputs@[k + 1].0
                        &&& state@ == state_suspended()
                        &&& user == self.user
                        &&& post.phase == ConvertPhase::Check { k: (k + 1) as usize }
                    } else {
                        compares_totals(post, action)
                    },
                }
            },
            (ConvertPhase::Find { j }, ConvertEvent::Found(res)) => {
                &&& post.inputs == self.inputs
                &&& post.outputs == self.outputs
                &&& match res {
                    Err(m) => fails(post, action, Failure::DatabaseRunning(m)),
                    Ok(c) => if c == 0 {
                        fails(post, action, Failure::DatabaseBuild)
                    } else {
                        &&& action matches ConvertAction::RetireInput {
                            quota_field_hex: q,
                            state,
                            user,
                        }
                        &&& q@ == spec_hex_encode(self.inputs@[j as int].quota_field@)
                        &&& state@ == state_suspended()
                        &&& user == self.user
                        &&& post.phase == ConvertPhase::Retire { j }
                        &&& post.retired@ == self.retired@
                    },
                }
            },
            (ConvertPhase::Retire { j }, ConvertEvent::Retired(res)) => {
                &&& post.inputs == self.inputs
                &&& post.outputs == self.outputs
                &&& match res {
                    Err(m) => fails(post, action, Failure::DatabaseRunning(m)),
                    Ok(_) => begins_input(post, j + 1, action),
                }
            },
            (ConvertPhase::AwaitTarget, ConvertEvent::TargetLoaded) => {
                &&& post.inputs == self.inputs
                &&& post.outputs == self.outputs
                &&& begins_output(post, 0, texts(self.minted@), self.issued@, action)
            },
            (ConvertPhase::List { k }, ConvertEvent::Listed(res)) => {
                &&& post.inputs == self.inputs
                &&& post.outputs == self.outputs
                &&& match res {
                    Err(m) => fails(post, action, Failure::DatabaseRunning(m)),
                    Ok(rows) => if rows@.len() == 0 {
                        fails(post, action, Failure::DatabaseBuild)
                    } else {
                        &&& post.listed == rows
                        &&& begins_row(post, k as int, 0, texts(self.minted@), self.issued@, action)
                    },
                }
            },
            (ConvertPhase::Promote { k, r }, ConvertEvent::Promoted(res)) => {
                &&& post.inputs == self.inputs
                &&& post.outputs == self.outputs
                &&& match res {
                    Err(_) => fails(post, action, Failure::DatabaseBuild),
                    Ok(currency) => {
                        &&& post.listed == self.listed
                        &&& begins_row(
                            post,
                            k as int,
                            r + 1,
                            texts(self.minted@).push(spec_hex_encode(currency@)),
                            self.issued@,
                            action,
                        )
                    },
                }
            },
            _ => false,
        }
    }

    /// Starts a conversion, asked for by `user`, of the signed request given
    /// as hex text.
    pub fn new(request_hex: &str, user: String) -> (r: (Self, ConvertAction))
        requires
            is_hex_text(request_hex@),
        ensures
            r.0.wf(),
            r.0.phase == ConvertPhase::AwaitParse,
            r.0.user == user,
            r.1 matches ConvertAction::ParseRequest { request } && Some(request@)
                == spec_hex_decode(request_hex@),
    {
        let request = match decode_hex(request_hex) {
            Ok(bytes) => bytes,
            Err(_) => {
                proof {
                    assert(false);
                }
                Vec::new()
            },
        };
        let p = ConvertProcess {
            phase: ConvertPhase::AwaitParse,
            user,
            inputs: Vec::new(),
            outputs: Vec::new(),
            input_total: 0,
            output_total: 0,
            wallet_hex: String::new(),
            listed: Vec::new(),
            minted: Vec::new(),
            retired: Ghost(0),
            issued: Ghost(Seq::empty()),
        };
        (p, ConvertAction::ParseRequest { request })
    }

    /// Whether `event` can be taken: it answers what the process waits for,
    /// the sums it brings fit in a `u64`, and the hex text it brings decodes.
    #[verifier::loop_isolation(false)]
    pub fn can_step(&self, event: &ConvertEvent) -> (ok: bool)
        requires
            self.wf(),
        ensures
            ok == self.spec_can_step(*event),
    {
        if let ConvertEvent::Parsed { inputs, outputs } = event {
            match self.phase {
                ConvertPhase::AwaitParse => {},
                _ => {
                    return false;
                },
            }
            {
                let mut acc: u64 = 0;
                let mut i: usize = 0;
                while i < inputs.len()
                    invariant
                        i <= inputs.len(),
                        acc == value_total(inputs@.take(i as int)),
                    decreases inputs.len() - i,
                {
                    proof {
                        lemma_value_total_step(inputs@, i as int);
                    }
                    match acc.checked_add(inputs[i].value) {
                        Some(x) => {
                            acc = x;
                        },
                        None => {
                            proof {
                                lemma_value_total_prefix(inputs@, i + 1);
                            }
                            return false;
                        },
                    }
                    i = i + 1;
                }
                proof {
                    lemma_take_all(inputs@);
                }
                if outputs.len() > 0 {
                    proof {
                        lemma_output_total_step(outputs@, 0);
                        assert(outputs@.take(0) =~= Seq::<(u64, u64)>::empty());
                    }
                    outputs[0].0.checked_mul(outputs[0].1).is_some()
                } else {
                    true
                }
            }
        } else {
            match (self.phase, event) {
            (ConvertPhase::Check { k }, ConvertEvent::Counted(res)) => match res {
                Ok(c) => {
                    if (self.outputs[k].1 as usize) <= *c && k + 1 < self.outputs.len() {
                        proof {
                            lemma_output_total_step(self.outputs@, k + 1);
                        }
                        match self.outputs[k + 1].0.checked_mul(self.outputs[k + 1].1) {
                            Some(p) => self.output_total.checked_add(p).is_some(),
                            None => {
                                proof {
                                    assert(output_total(self.outputs@.take(k + 1)) >= 0) by {
                                        lemma_output_total_nonneg(self.outputs@.take(k + 1));
                                    }
                                }
                                false
                            },
                        }
                    } else {
                        true
                    }
                },
                Err(_) => true,
            },
            (ConvertPhase::Find { .. }, ConvertEvent::Found(_)) => true,
            (ConvertPhase::Retire { .. }, ConvertEvent::Retired(_)) => true,
            (ConvertPhase::AwaitTarget, ConvertEvent::TargetLoaded) => true,
            (ConvertPhase::List { k }, ConvertEvent::Listed(res)) => match res {
                Ok(rows) => {
                    let n = self.outputs[k].1 as usize;
                    let take = if n < rows.len() {
                        n
                    } else {
                        rows.len()
                    };
                    if take > 0 {
                        is_hex(rows[0].quota_field_hex.as_str())
                    } else {
                        true
                    }
                },
                Err(_) => true,
            },
            (ConvertPhase::Promote { k, r }, ConvertEvent::Promoted(res)) => match res {
                Ok(_) => {
                    let n = self.outputs[k].1 as usize;
                    let take = if n < self.listed.len() {
                        n
                    } else {
                        self.listed.len()
                    };
                    if r + 1 < take {
                        is_hex(self.listed[r + 1].quota_field_hex.as_str())
                    } else {
                        true
                    }
                },
                Err(_) => true,
            },
            _ => false,
            }
        }
    }

    /// Takes one event and says what to do next.
    pub fn step(&mut self, event: ConvertEvent) -> (action: ConvertAction)
        requires
            old(self).wf(),
            old(self).spec_can_step(event),
        ensures
            final(self).wf(),
            old(self).transition(*final(self), event, action),
            keeps_value(*final(self), action),
    {
        match event {
            ConvertEvent::Parsed { inputs, outputs } => self.on_parsed(inputs, outputs),
            ConvertEvent::Counted(res) => self.on_counted(res),
            ConvertEvent::Found(res) => self.on_found(res),
            ConvertEvent::Retired(res) => self.on_retired(res),
            ConvertEvent::TargetLoaded => {
                proof {
                    assert(self.outputs@.take(0) =~= Seq::<(u64, u64)>::empty());
                }
                self.begin_output(0)
            },
            ConvertEvent::Listed(res) => self.on_listed(res),
            ConvertEvent::Promoted(res) => self.on_promoted(res),
        }
    }

    fn on_parsed(&mut self, inputs: Vec<InputCoin>, outputs: Vec<(u64, u64)>) -> (action:
        ConvertAction)
        requires
            old(self).wf(),
            old(self).phase == ConvertPhase::AwaitParse,
            value_total(inputs@) <= u64::MAX,
            outputs@.len() > 0 ==> output_total(outputs@.take(1)) <= u64::MAX,
        ensures
            final(self).wf(),
            old(self).transition(
                *final(self),
                ConvertEvent::Parsed { inputs, outputs },
                action,
            ),
            keeps_value(*final(self), action),
    {
        let ghost ins = inputs;
        let ghost outs = outputs;
        let mut acc: u64 = 0;
        let mut i: usize = 0;
        while i < inputs.len()
            invariant
                i <= inputs.len(),
                acc == value_total(inputs@.take(i as int)),
                value_total(inputs@) <= u64::MAX,
            decreases inputs.len() - i,
        {
            proof {
                lemma_value_total_step(inputs@, i as int);
                lemma_value_total_prefix(inputs@, i + 1);
            }
            acc = acc + inputs[i].value;
            i = i + 1;
        }
        proof {
            lemma_take_all(inputs@);
        }
        self.inputs = inputs;
        self.outputs = outputs;
        self.input_total = acc;
        if self.outputs.len() == 0 {
            self.output_total = 0;
            proof {
                assert(self.outputs@ =~= Seq::<(u64, u64)>::empty());
            }
            self.compare_totals()
        } else {
            proof {
                lemma_output_total_step(self.outputs@, 0);
                assert(self.outputs@.take(0) =~= Seq::<(u64, u64)>::empty());
            }
            self.output_total = self.outputs[0].0 * self.outputs[0].1;
            self.phase = ConvertPhase::Check { k: 0 };
            ConvertAction::CountSuspended {
                value: self.outputs[0].0,
                state: String::from_str("suspended"),
                user: self.user.clone(),
            }
        }
    }

    fn on_counted(&mut self, res: Result<usize, String>) -> (action: ConvertAction)
        requires
            old(self).wf(),
            old(self).phase is Check,
            old(self).spec_can_step(ConvertEvent::Counted(res)),
        ensures
            keeps_value(*final(self), action),
            final(self).wf(),
            old(self).transition(*final(self), ConvertEvent::Counted(res), action),
    {
        let k = match self.phase {
            ConvertPhase::Check { k } => k,
            _ => 0,
        };
        match res {
            Err(m) => {
                self.phase = ConvertPhase::Done;
                ConvertAction::Finish(Outcome::Failure(Failure::DatabaseRunning(m)))
            },
            Ok(c) => {
                if (self.outputs[k].1 as usize) > c {
                    self.phase = ConvertPhase::Done;
                    ConvertAction::Finish(Outcome::Failure(Failure::StrConverError))
                } else if k + 1 < self.outputs.len() {
                    proof {
                        lemma_output_total_step(self.outputs@, k + 1);
                        lemma_output_total_nonneg(self.outputs@.take(k + 1));
                    }
                    let q = self.outputs[k + 1].0;
                    let n = self.outputs[k + 1].1;
                    self.output_total = self.output_total + q * n;
                    self.phase = ConvertPhase::Check { k: k + 1 };
                    ConvertAction::CountSuspended {
                        value: q,
                        state: String::from_str("suspended"),
                        user: self.user.clone(),
                    }
                } else {
                    proof {
                        lemma_take_all(self.outputs@);
                    }
                    self.compare_totals()
                }
            },
        }
    }

    fn on_found(&mut self, res: Result<usize, String>) -> (action: ConvertAction)
        requires
            old(self).wf(),
            old(self).phase is Find,
        ensures
            keeps_value(*final(self), action),
            final(self).wf(),
            old(self).transition(*final(self), ConvertEvent::Found(res), action),
    {
        let j = match self.phase {
            ConvertPhase::Find { j } => j,
            _ => 0,
        };
        match res {
            Err(m) => {
                self.phase = ConvertPhase::Done;
                ConvertAction::Finish(Outcome::Failure(Failure::DatabaseRunning(m)))
            },
            Ok(c) => {
                if c == 0 {
                    self.phase = ConvertPhase::Done;
                    ConvertAction::Finish(Outcome::Failure(Failure::DatabaseBuild))
                } else {
                    let quota_field_hex = encode_hex(self.inputs[j].quota_field.as_slice());
                    self.phase = ConvertPhase::Retire { j };
                    ConvertAction::RetireInput {
                        quota_field_hex,
                        state: String::from_str("suspended"),
                        user: self.user.clone(),
                    }
                }
            },
        }
    }

    fn on_retired(&mut self, res: Result<(), String>) -> (action: ConvertAction)
        requires
            old(self).wf(),
            old(self).phase is Retire,
        ensures
            keeps_value(*final(self), action),
            final(self).wf(),
            old(self).transition(*final(self), ConvertEvent::Retired(res), action),
    {
        let j = match self.phase {
            ConvertPhase::Retire { j } => j,
            _ => 0,
        };
        match res {
            Err(m) => {
                self.phase = ConvertPhase::Done;
                ConvertAction::Finish(Outcome::Failure(Failure::DatabaseRunning(m)))
            },
            Ok(_) => {
                self.retired = Ghost(self.retired@ + 1);
                self.begin_input(j + 1)
            },
        }
    }

    fn on_listed(&mut self, res: Result<Vec<SuspendedCoin>, String>) -> (action: ConvertAction)
        requires
            old(self).wf(),
            old(self).phase is List,
            old(self).spec_can_step(ConvertEvent::Listed(res)),
        ensures
            keeps_value(*final(self), action),
            final(self).wf(),
            old(self).transition(*final(self), ConvertEvent::Listed(res), action),
    {
        let k = match self.phase {
            ConvertPhase::List { k } => k,
            _ => 0,
        };
        match res {
            Err(m) => {
                self.phase = ConvertPhase::Done;
                ConvertAction::Finish(Outcome::Failure(Failure::DatabaseRunning(m)))
            },
            Ok(rows) => {
                if rows.len() == 0 {
                    self.phase = ConvertPhase::Done;
                    ConvertAction::Finish(Outcome::Failure(Failure::DatabaseBuild))
                } else {
                    self.listed = rows;
                    self.begin_row(k, 0)
                }
            },
        }
    }

    fn on_promoted(&mut self, res: Result<Vec<u8>, ()>) -> (action: ConvertAction)
        requires
            old(self).wf(),
            old(self).phase is Promote,
            old(self).spec_can_step(ConvertEvent::Promoted(res)),
        ensures
            keeps_value(*final(self), action),
            final(self).wf(),
            old(self).transition(*final(self), ConvertEvent::Promoted(res), action),
    {
        let (k, r) = match self.phase {
            ConvertPhase::Promote { k, r } => (k, r),
            _ => (0, 0),
        };
        match res {
            Err(_) => {
                self.phase = ConvertPhase::Done;
                ConvertAction::Finish(Outcome::Failure(Failure::DatabaseBuild))
            },
            Ok(currency) => {
                let text = encode_hex(currency.as_slice());
                self.minted.push(text);
                proof {
                    assert(texts(self.minted@) =~= texts(old(self).minted@).push(
                        spec_hex_encode(currency@),
                    ));
                }
                self.begin_row(k, r + 1)
            },
        }
    }

    fn begin_input(&mut self, j: usize) -> (action: ConvertAction)
        requires
            old(self).balanced(),
            j <= old(self).inputs.len(),
            old(self).wallet_hex@ == wallet_hex_after(old(self).inputs@, j as int),
            old(self).minted@.len() == 0,
            old(self).retired@ == j,
            old(self).issued@.len() == 0,
        ensures
            keeps_value(*final(self), action),
            begins_input(*final(self), j as int, action),
            final(self).user == old(self).user,
            final(self).inputs == old(self).inputs,
            final(self).outputs == old(self).outputs,
            final(self).wf(),
    {
        if j < self.inputs.len() {
            if !self.inputs[j].signature_valid {
                self.phase = ConvertPhase::Done;
                ConvertAction::Finish(Outcome::Failure(Failure::JsonParseError))
            } else {
                let quota_field_hex = encode_hex(self.inputs[j].quota_field.as_slice());
                let owner_hex = encode_hex(self.inputs[j].wallet_cert.as_slice());
                self.wallet_hex = owner_hex.clone();
                self.phase = ConvertPhase::Find { j };
                ConvertAction::FindInput {
                    quota_field_hex,
                    owner_hex,
                    state: String::from_str("circulation"),
                    user: self.user.clone(),
                }
            }
        } else {
            let wallet_cert = match decode_hex(self.wallet_hex.as_str()) {
                Ok(bytes) => bytes,
                Err(_) => {
                    proof {
                        if j == 0 {
                            assert(is_hex_text(Seq::<char>::empty()));
                        } else {
                            lemma_hex_round_trip(self.inputs@[j - 1].wallet_cert@);
                        }
                        assert(false);
                    }
                    Vec::new()
                },
            };
            proof {
                if j == 0 {
                    assert(wallet_cert@ =~= Seq::<u8>::empty());
                } else {
                    lemma_hex_round_trip(self.inputs@[j - 1].wallet_cert@);
                }
            }
            self.phase = ConvertPhase::AwaitTarget;
            ConvertAction::LoadTarget { wallet_cert }
        }
    }

    fn compare_totals(&mut self) -> (action: ConvertAction)
        requires
            old(self).input_total == value_total(old(self).inputs@),
            old(self).output_total == output_total(old(self).outputs@),
            old(self).wallet_hex@ == Seq::<char>::empty(),
            old(self).minted@.len() == 0,
            old(self).retired@ == 0,
            old(self).issued@.len() == 0,
        ensures
            keeps_value(*final(self), action),
            compares_totals(*final(self), action),
            final(self).user == old(self).user,
            final(self).inputs == old(self).inputs,
            final(self).outputs == old(self).outputs,
            final(self).wf(),
    {
        if self.input_total != self.output_total {
            self.phase = ConvertPhase::Done;
            ConvertAction::Finish(Outcome::Failure(Failure::CurrencyConvert))
        } else {
            self.begin_input(0)
        }
    }

    fn begin_output(&mut self, k: usize) -> (action: ConvertAction)
        requires
            old(self).wallet_hex@ == wallet_hex_after(old(self).inputs@, old(self).inputs@.len() as int),
            old(self).balanced(),
            k <= old(self).outputs.len(),
            old(self).retired@ == old(self).inputs@.len(),
            old(self).issued@.len() == k,
            within_asked(old(self).outputs@, old(self).issued@),
            old(self).minted@.len() == issued_count(old(self).issued@),
        ensures
            keeps_value(*final(self), action),
            begins_output(*final(self), k as int, texts(old(self).minted@), old(self).issued@, action),
            final(self).user == old(self).user,
            final(self).inputs == old(self).inputs,
            final(self).outputs == old(self).outputs,
            final(self).listed == old(self).listed,
            final(self).wallet_hex == old(self).wallet_hex,
            final(self).wf(),
    {
        proof {
            lemma_take_all(self.outputs@);
            lemma_issued_value(self.outputs@, self.issued@);
        }
        if k < self.outputs.len() {
            self.phase = ConvertPhase::List { k };
            ConvertAction::ListSuspended {
                value: self.outputs[k].0,
                state: String::from_str("suspended"),
                user: self.user.clone(),
            }
        } else {
            self.phase = ConvertPhase::Done;
            let mut minted = Vec::new();
            std::mem::swap(&mut minted, &mut self.minted);
            ConvertAction::Finish(Outcome::Success(Some(minted)))
        }
    }

    fn begin_row(&mut self, k: usize, r: usize) -> (action: ConvertAction)
        requires
            old(self).wallet_hex@ == wallet_hex_after(old(self).inputs@, old(self).inputs@.len() as int),
            old(self).balanced(),
            k < old(self).outputs.len(),
            r <= take_count(old(self).outputs@[k as int].1, old(self).listed@.len()),
            old(self).retired@ == old(self).inputs@.len(),
            old(self).issued@.len() == k,
            within_asked(old(self).outputs@, old(self).issued@),
            old(self).minted@.len() == issued_count(old(self).issued@) + r,
            r < take_count(old(self).outputs@[k as int].1, old(self).listed@.len())
                ==> is_hex_text(old(self).listed@[r as int].quota_field_hex@),
        ensures
            keeps_value(*final(self), action),
            begins_row(
                *final(self),
                k as int,
                r as int,
                texts(old(self).minted@),
                old(self).issued@,
                action,
            ),
            final(self).user == old(self).user,
            final(self).wallet_hex == old(self).wallet_hex,
            final(self).inputs == old(self).inputs,
            final(self).outputs == old(self).outputs,
            final(self).listed == old(self).listed,
            final(self).wf(),
    {
        let n = self.outputs[k].1 as usize;
        let take = if n < self.listed.len() {
            n
        } else {
            self.listed.len()
        };
        if r < take {
            let quota_field = match decode_hex(self.listed[r].quota_field_hex.as_str()) {
                Ok(bytes) => bytes,
                Err(_) => {
                    proof {
                        assert(false);
                    }
                    Vec::new()
                },
            };
            let id = self.listed[r].id.clone();
            let owner_hex = self.wallet_hex.clone();
            self.phase = ConvertPhase::Promote { k, r };
            ConvertAction::PromoteRow {
                id,
                quota_field,
                owner_hex,
                state: String::from_str("circulation"),
                user: self.user.clone(),
            }
        } else {
            proof {
                lemma_usize_cast_le(self.outputs@[k as int].1);
            }
            let ghost before = self.issued@;
            self.issued = Ghost(self.issued@.push(r as int));
            proof {
                assert(self.issued@.drop_last() =~= before);
                assert forall|i: int| 0 <= i < self.issued@.len() implies 0 <= #[trigger] self.issued@[i]
                    <= self.outputs@[i].1 by {
                    if i < k {
                        assert(self.issued@[i] == before[i]);
                    }
                }
            }
            self.begin_output(k + 1)
        }
    }
}

proof fn lemma_output_total_nonneg(s: Seq<(u64, u64)>)
    ensures
        output_total(s) >= 0,
    decreases s.len(),
{
    if s.len() > 0 {
        lemma_output_total_nonneg(s.drop_last());
        lemma_output_total_step(s, s.len() - 1);
        assert(s.take(s.len() - 1) =~= s.drop_last());
    }
}


/// Availability is checked output by output, in order, each against the
/// output's own face value: the first check is for output 0, each next one
/// for the output after the one just checked, always among `user`'s
/// suspended currency.
pub proof fn law_convert_checks_outputs_in_order(
    pre: ConvertProcess,
    event: ConvertEvent,
    post: ConvertProcess,
    action: ConvertAction,
)
    requires
        pre.wf(),
        pre.spec_can_step(event),
        pre.transition(post, event, action),
    ensures
        action matches ConvertAction::CountSuspended { value, state, user } ==> {
            &&& post.phase matches ConvertPhase::Check { k }
            &&& k < post.outputs@.len()
            &&& value == post.outputs@[k as int].0
            &&& state@ == "suspended"@
            &&& user == pre.user
            &&& (pre.phase matches ConvertPhase::Check { k: j } ==> k == j + 1)
            &&& (pre.phase is AwaitParse ==> k == 0)
        },
{
}

/// When fewer currencies of an output's face value are suspended than the
/// output asks for, the conversion is refused then and there.
pub proof fn law_convert_refuses_short_stock(
    pre: ConvertProcess,
    c: usize,
    post: ConvertProcess,
    action: ConvertAction,
)
    requires
        pre.wf(),
        pre.phase matches ConvertPhase::Check { k } && (pre.outputs@[k as int].1 as usize) > c,
        pre.transition(post, ConvertEvent::Counted(Ok(c)), action),
    ensures
        action == ConvertAction::Finish(Outcome::Failure(Failure::StrConverError)),
        post.phase == ConvertPhase::Done,
{
}

/// The inputs are looked up one after the other, each by its own quota
/// control field and owner among `user`'s circulating currency, and only
/// when its signature checks.
pub proof fn law_convert_looks_up_inputs_in_order(
    pre: ConvertProcess,
    event: ConvertEvent,
    post: ConvertProcess,
    action: ConvertAction,
)
    requires
        pre.wf(),
        pre.spec_can_step(event),
        pre.transition(post, event, action),
    ensures
        action matches ConvertAction::FindInput { quota_field_hex: q, owner_hex: o, state, user }
            ==> {
            &&& post.phase matches ConvertPhase::Find { j }
            &&& j < post.inputs@.len()
            &&& post.inputs@[j as int].signature_valid
            &&& q@ == spec_hex_encode(post.inputs@[j as int].quota_field@)
            &&& o@ == spec_hex_encode(post.inputs@[j as int].wallet_cert@)
            &&& state@ == "circulation"@
            &&& user == pre.user
            &&& (pre.phase matches ConvertPhase::Retire { j: i } ==> j == i + 1)
            &&& (!(pre.phase is Retire) ==> j == 0)
        },
{
}

/// An input is taken out of circulation only right after the lookup found
/// it, and by its own quota control field.
pub proof fn law_convert_retires_only_found_inputs(
    pre: ConvertProcess,
    event: ConvertEvent,
    post: ConvertProcess,
    action: ConvertAction,
)
    requires
        pre.wf(),
        pre.spec_can_step(event),
        pre.transition(post, event, action),
    ensures
        action matches ConvertAction::RetireInput { quota_field_hex: q, state, user } ==> {
            &&& pre.phase matches ConvertPhase::Find { j }
            &&& event matches ConvertEvent::Found(Ok(c)) && c > 0
            &&& q@ == spec_hex_encode(pre.inputs@[j as int].quota_field@)
            &&& state@ == "suspended"@
            &&& user == pre.user
            &&& post.phase == ConvertPhase::Retire { j }
        },
{
}

/// The outputs are listed one after the other, each by its own face value
/// among `user`'s suspended currency: the first once the receiver is known,
/// each next one once the one before is issued.
pub proof fn law_convert_lists_outputs_in_order(
    pre: ConvertProcess,
    event: ConvertEvent,
    post: ConvertProcess,
    action: ConvertAction,
)
    requires
        pre.wf(),
        pre.spec_can_step(event),
        pre.transition(post, event, action),
    ensures
        action matches ConvertAction::ListSuspended { value, state, user } ==> {
            &&& post.phase matches ConvertPhase::List { k }
            &&& k < post.outputs@.len()
            &&& value == post.outputs@[k as int].0
            &&& state@ == "suspended"@
            &&& user == pre.user
            &&& (pre.phase is AwaitTarget ==> k == 0)
            &&& (pre.phase matches ConvertPhase::List { k: i } ==> k == i + 1)
            &&& (pre.phase matches ConvertPhase::Promote { k: i, .. } ==> k == i + 1)
        },
{
}

/// The rows listed for an output are issued in the order listed, at most as
/// many as the output asks for, each to the owner of the last input, put in
/// circulation among `user`'s currency with its own quota control field.
pub proof fn law_convert_issues_listed_rows_in_order(
    pre: ConvertProcess,
    event: ConvertEvent,
    post: ConvertProcess,
    action: ConvertAction,
)
    requires
        pre.wf(),
        pre.spec_can_step(event),
        pre.transition(post, event, action),
        post.wf(),
        keeps_value(post, action),
    ensures
        action matches ConvertAction::PromoteRow { id, quota_field, owner_hex, state, user } ==> {
            &&& post.phase matches ConvertPhase::Promote { k, r }
            &&& k < post.outputs@.len()
            &&& r < post.listed@.len()
            &&& r < post.outputs@[k as int].1
            &&& id == post.listed@[r as int].id
            &&& Some(quota_field@) == spec_hex_decode(post.listed@[r as int].quota_field_hex@)
            &&& post.inputs@.len() > 0 ==> owner_hex@ == spec_hex_encode(
                post.inputs@.last().wallet_cert@,
            )
            &&& post.inputs@.len() == 0 ==> owner_hex@.len() == 0
            &&& state@ == "circulation"@
            &&& user == pre.user
            &&& (pre.phase matches ConvertPhase::List { k: i } ==> k == i && r == 0)
            &&& (pre.phase matches ConvertPhase::Promote { k: i, r: q } ==> k == i && r == q + 1)
        },
{
    if action is PromoteRow {
        lemma_usize_cast_le(post.outputs@[post.phase->Promote_k as int].1);
    }
}

/// Each currency signed over an issued row is kept, in order, and the reply
/// on success holds exactly these currencies, as hex text, in the order
/// they were issued.
pub proof fn law_convert_replies_with_issued_currency(
    pre: ConvertProcess,
    event: ConvertEvent,
    post: ConvertProcess,
    action: ConvertAction,
)
    requires
        pre.wf(),
        pre.spec_can_step(event),
        pre.transition(post, event, action),
    ensures
        event matches ConvertEvent::Promoted(Ok(cur)) ==> (post.phase is Promote ==> texts(
            post.minted@,
        ) == texts(pre.minted@).push(spec_hex_encode(cur@))),
        action matches ConvertAction::Finish(Outcome::Success(Some(m))) ==> texts(m@) == (
        match event {
            ConvertEvent::Promoted(Ok(cur)) => texts(pre.minted@).push(spec_hex_encode(cur@)),
            _ => texts(pre.minted@),
        }),
{
}


/// How a conversion ends early: a database error ends it with that error's
/// message; a lookup that finds no row of an input, an empty listing, or a
/// refused update ends it as a build error; unequal totals end it once
/// every output was found available; a bad signature ends it as a parse
/// error. A found input and a non-empty listing move it on.
pub proof fn law_convert_refusals(
    pre: ConvertProcess,
    event: ConvertEvent,
    post: ConvertProcess,
    action: ConvertAction,
)
    requires
        pre.wf(),
        pre.spec_can_step(event),
        pre.transition(post, event, action),
    ensures
        event matches ConvertEvent::Counted(Err(m)) ==> action == ConvertAction::Finish(
            Outcome::Failure(Failure::DatabaseRunning(m)),
        ),
        event matches ConvertEvent::Found(Err(m)) ==> action == ConvertAction::Finish(
            Outcome::Failure(Failure::DatabaseRunning(m)),
        ),
        event matches ConvertEvent::Retired(Err(m)) ==> action == ConvertAction::Finish(
            Outcome::Failure(Failure::DatabaseRunning(m)),
        ),
        event matches ConvertEvent::Listed(Err(m)) ==> action == ConvertAction::Finish(
            Outcome::Failure(Failure::DatabaseRunning(m)),
        ),
        event matches ConvertEvent::Found(Ok(c)) ==> (c == 0 ==> action == ConvertAction::Finish(
            Outcome::Failure(Failure::DatabaseBuild),
        )) && (c > 0 ==> action is RetireInput),
        event matches ConvertEvent::Listed(Ok(rows)) ==> (rows@.len() == 0 ==> action
            == ConvertAction::Finish(Outcome::Failure(Failure::DatabaseBuild))) && (rows@.len() > 0
            ==> !(action matches ConvertAction::Finish(Outcome::Failure(_)))),
        event matches ConvertEvent::Promoted(Err(_)) ==> action == ConvertAction::Finish(
            Outcome::Failure(Failure::DatabaseBuild),
        ),
        action == ConvertAction::Finish(Outcome::Failure(Failure::CurrencyConvert)) ==> {
            &&& value_total(post.inputs@) != output_total(post.outputs@)
            &&& (pre.phase is AwaitParse || pre.phase is Check)
        },
        action == ConvertAction::Finish(Outcome::Failure(Failure::JsonParseError)) ==> exists|j: int|
            0 <= j < post.inputs@.len() && !(#[trigger] post.inputs@[j]).signature_valid,
        action is RetireInput || action is FindInput ==> value_total(post.inputs@) == output_total(
            post.outputs@,
        ),
{
}

/// Once every input is out of circulation, the receiving wallet is decoded
/// from the certificate of the last input handed in, and the first output
/// is listed once it is known (or, with no outputs, the reply is empty).
pub proof fn law_convert_receiver_is_last_input_wallet(
    pre: ConvertProcess,
    event: ConvertEvent,
    post: ConvertProcess,
    action: ConvertAction,
)
    requires
        pre.wf(),
        pre.spec_can_step(event),
        pre.transition(post, event, action),
    ensures
        action matches ConvertAction::LoadTarget { wallet_cert } ==> {
            &&& post.phase is AwaitTarget
            &&& post.inputs@.len() > 0 ==> wallet_cert@ == post.inputs@.last().wallet_cert@
            &&& post.inputs@.len() == 0 ==> wallet_cert@.len() == 0
            &&& (pre.phase matches ConvertPhase::Retire { j } ==> j + 1 == post.inputs@.len())
        },
        event is TargetLoaded ==> (post.outputs@.len() > 0 ==> action is ListSuspended) && (
        post.outputs@.len() == 0 ==> (action matches ConvertAction::Finish(
            Outcome::Success(Some(m)),
        ) && m@.len() == 0)),
{
    if let ConvertEvent::TargetLoaded = event {
        if post.outputs@.len() == 0 {
            if let ConvertAction::Finish(Outcome::Success(Some(m))) = action {
                assert(texts(m@).len() == m@.len());
            }
        }
    }
}

} // verus!
