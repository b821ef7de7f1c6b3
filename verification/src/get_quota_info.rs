use vstd::prelude::*;
use crate::response::{Failure, Outcome};

verus! {

// ---------------------------------------------------------------------------
// How many currencies of each face value a cloud user holds
// ---------------------------------------------------------------------------

/// The face values counted, largest first.
pub open spec fn denominations() -> Seq<i64> {
    seq![10000i64, 5000, 2000, 1000, 500, 100, 50, 10, 1]
}

/// The face value counted at position `i`.
pub fn denomination(i: usize) -> (d: i64)
    requires
        i < 9,
    ensures
        d == denominations()[i as int],
{
    match i {
        0 => 10000,
        1 => 5000,
        2 => 2000,
        3 => 1000,
        4 => 500,
        5 => 100,
        6 => 50,
        7 => 10,
        _ => 1,
    }
}

/// The statement that counts a user's currencies of one face value; from
/// the fourth face value on it lacks the `AND` between its conditions.
pub open spec fn count_statement(i: int) -> Seq<char> {
    if i < 3 {
        "select id from digital_currency where (explain_info->'t_obj'->'value') = $1 AND cloud_user_id = $2"@
    } else {
        "select id from digital_currency where (explain_info->'t_obj'->'value') = $1 cloud_user_id = $2"@
    }
}

/// The (face value, count) pairs of a tally, given the rows counted for
/// each face value in turn.
pub open spec fn tally_pairs(counted: Seq<usize>) -> Seq<(i64, i64)> {
    Seq::new(counted.len(), |i: int| (denominations()[i], counted[i] as i64))
}

/// A face value's pair in the reply depends on the rows counted for that
/// face value alone: two tallies that counted as many rows of it report the
/// same pair for it, whatever they counted of the others.
pub proof fn lemma_tally_pair_depends_on_own_count(a: Seq<usize>, b: Seq<usize>, i: int)
    requires
        a.len() == b.len(),
        0 <= i < a.len(),
        a[i] == b[i],
    ensures
        tally_pairs(a)[i] == tally_pairs(b)[i],
{
}

/// One more row counted of a face value raises that face value's count by
/// one and leaves every other pair as it was.
pub proof fn lemma_tally_one_more_row(a: Seq<usize>, i: int)
    requires
        0 <= i < a.len(),
        a[i] + 1 <= i64::MAX,
        a[i] + 1 <= usize::MAX,
    ensures
        ({
            let b = a.update(i, (a[i] + 1) as usize);
            &&& tally_pairs(b).len() == tally_pairs(a).len()
            &&& tally_pairs(b)[i].0 == tally_pairs(a)[i].0
            &&& tally_pairs(b)[i].1 == tally_pairs(a)[i].1 + 1
            &&& forall|j: int| 0 <= j < a.len() && j != i ==> #[trigger] tally_pairs(b)[j] == tally_pairs(a)[j]
        }),
{
}

/// What the surroundings are asked to do next while counting.
pub enum TallyAction {
    /// Run `statement` with the face value and the user; report the rows.
    Count { denomination: i64, statement: String, user: String },
    /// Reply, with (face value, count) pairs on success.
    Finish(Outcome<Vec<(i64, i64)>>),
}

/// Counting a user's currencies, one face value after the other.
pub struct TallyProcess {
    /// The position of the face value being counted; past the last when done.
    pub next: usize,
    /// The (face value, count) pairs so far.
    pub counts: Vec<(i64, i64)>,
    /// The user whose currencies are counted.
    pub user: String,
    /// The rows counted so far, for each face value in turn.
    pub counted: Ghost<Seq<usize>>,
}

impl TallyProcess {
    pub open spec fn wf(self) -> bool {
        &&& self.next <= 9
        &&& self.next < 9 ==> {
            &&& self.counted@.len() == self.next
            &&& self.counts@ == tally_pairs(self.counted@)
        }
    }

    /// Whether the tally still waits for a count.
    pub open spec fn waiting(self) -> bool {
        self.next < 9
    }

    /// Starts counting the currencies of `user`.
    pub fn new(user: String) -> (r: (Self, TallyAction))
        ensures
            r.0.wf(),
            r.0.waiting(),
            r.0.next == 0,
            r.0.user == user,
            r.0.counted@ == Seq::<usize>::empty(),
            r.1 matches TallyAction::Count { denomination, statement, user: u } && denomination
                == 10000 && statement@ == count_statement(0) && u == user,
    {
        let u = user.clone();
        let p = TallyProcess { next: 0, counts: Vec::new(), user, counted: Ghost(Seq::empty()) };
        proof {
            assert(p.counts@ =~= tally_pairs(p.counted@));
        }
        let statement = Self::statement(0);
        (p, TallyAction::Count { denomination: 10000, statement, user: u })
    }

    fn statement(i: usize) -> (s: String)
        ensures
            s@ == count_statement(i as int),
    {
        if i < 3 {
            String::from_str(
                "select id from digital_currency where (explain_info->'t_obj'->'value') = $1 AND cloud_user_id = $2",
            )
        } else {
            String::from_str(
                "select id from digital_currency where (explain_info->'t_obj'->'value') = $1 cloud_user_id = $2",
            )
        }
    }

    /// Takes the rows counted for the pending face value, or the database's
    /// error, and says what to do next.
    pub fn step(&mut self, counted: Result<usize, String>) -> (action: TallyAction)
        requires
            old(self).wf(),
            old(self).waiting(),
        ensures
            final(self).wf(),
            final(self).user == old(self).user,
            match counted {
                Err(m) => {
                    &&& action == TallyAction::Finish(Outcome::Failure(Failure::DatabaseRunning(m)))
                    &&& !final(self).waiting()
                },
                Ok(c) => {
                    let so_far = old(self).counted@.push(c);
                    if old(self).next + 1 < 9 {
                        &&& final(self).next == old(self).next + 1
                        &&& final(self).counted@ == so_far
                        &&& action matches TallyAction::Count { denomination, statement, user }
                        &&& denomination == denominations()[old(self).next + 1]
                        &&& statement@ == count_statement(old(self).next + 1)
                        &&& user == old(self).user
                    } else {
                        &&& !final(self).waiting()
                        &&& action matches TallyAction::Finish(Outcome::Success(Some(v)))
                        &&& v@ == tally_pairs(so_far)
                        &&& v@.len() == denominations().len()
                    }
                },
            },
    {
        match counted {
            Err(m) => {
                self.next = 9;
                TallyAction::Finish(Outcome::Failure(Failure::DatabaseRunning(m)))
            },
            Ok(c) => {
                let d = denomination(self.next);
                self.counts.push((d, c as i64));
                self.counted = Ghost(self.counted@.push(c));
                proof {
                    assert(self.counts@ =~= tally_pairs(self.counted@));
                }
                if self.next + 1 < 9 {
                    self.next = self.next + 1;
                    let statement = Self::statement(self.next);
                    TallyAction::Count {
                        denomination: denomination(self.next),
                        statement,
                        user: self.user.clone(),
                    }
                } else {
                    self.next = 9;
                    let mut v = Vec::new();
                    std::mem::swap(&mut v, &mut self.counts);
                    TallyAction::Finish(Outcome::Success(Some(v)))
                }
            },
        }
    }
}

// ---------------------------------------------------------------------------
// Paging through a user's currency and a currency's history
// ---------------------------------------------------------------------------

/// A page of a user's currency.
pub struct QuotaRequest {
    pub page: i64,
    pub page_size: i64,
}

/// A page of the transaction history of the currency `id`.
pub struct HistoryRequest {
    pub id: String,
    pub page: i64,
    pub page_size: i64,
}

/// Whether the rows before a page, `(page - 1) * page_size`, can be counted
/// in an `i64`.
pub open spec fn offset_fits(page: i64, page_size: i64) -> bool {
    &&& page - 1 >= i64::MIN
    &&& i64::MIN <= (page - 1) * page_size <= i64::MAX
}

/// Whether `page_offset` can be taken of these values.
pub fn page_offset_fits(page: i64, page_size: i64) -> (r: bool)
    ensures
        r == offset_fits(page, page_size),
{
    match page.checked_sub(1) {
        Some(p) => p.checked_mul(page_size).is_some(),
        None => false,
    }
}

/// How many rows come before a page.
pub fn page_offset(page: i64, page_size: i64) -> (offset: i64)
    requires
        offset_fits(page, page_size),
    ensures
        offset == (page - 1) * page_size,
{
    (page - 1) * page_size
}

/// A page of rows and how many rows there are in all.
pub struct Page<R> {
    pub total: i64,
    pub inner: Vec<R>,
}

/// Where a page query stands.
#[derive(Clone, Copy)]
pub enum PagePhase {
    /// Waiting for the page's rows.
    AwaitRows,
    /// Waiting for the number of rows in all.
    AwaitTotal,
    /// Waiting for the owner of the first pending row (history only).
    AwaitOwner,
    /// The query has ended.
    Done,
}

/// What the surroundings are asked to do next for a page of currency.
pub enum QuotaPageAction<R> {
    /// Query the page: skip `offset` rows, take at most `limit`.
    QueryPage { offset: i64, limit: i64 },
    /// Count the user's rows.
    CountTotal,
    /// Reply, with the page on success.
    Finish(Outcome<Page<R>>),
}

/// A query for a page of a user's currency.
pub struct QuotaPageProcess<R> {
    pub phase: PagePhase,
    pub rows: Vec<R>,
}

impl<R> QuotaPageProcess<R> {
    /// What taking the number of rows in all does: the query ends with the
    /// page of rows received and that number.
    pub open spec fn takes_total(self, total: i64, post: Self, action: QuotaPageAction<R>) -> bool {
        &&& post.phase == PagePhase::Done
        &&& action matches QuotaPageAction::Finish(Outcome::Success(Some(page)))
        &&& page.total == total
        &&& page.inner == self.rows
    }

    /// Starts the query for a page.
    pub fn new(req: &QuotaRequest) -> (r: (Self, QuotaPageAction<R>))
        requires
            offset_fits(req.page, req.page_size),
        ensures
            r.0.phase == PagePhase::AwaitRows,
            r.1 == (QuotaPageAction::<R>::QueryPage {
                offset: ((req.page - 1) * req.page_size) as i64,
                limit: req.page_size,
            }),
    {
        let offset = page_offset(req.page, req.page_size);
        (
            QuotaPageProcess { phase: PagePhase::AwaitRows, rows: Vec::new() },
            QuotaPageAction::QueryPage { offset, limit: req.page_size },
        )
    }

    /// Takes the page's rows, or the database's error.
    pub fn on_rows(&mut self, res: Result<Vec<R>, String>) -> (action: QuotaPageAction<R>)
        requires
            old(self).phase == PagePhase::AwaitRows,
        ensures
            match res {
                Err(m) => {
                    &&& action == QuotaPageAction::<R>::Finish(
                        Outcome::Failure(Failure::DatabaseRunning(m)),
                    )
                    &&& final(self).phase == PagePhase::Done
                },
                Ok(rows) => {
                    &&& action == QuotaPageAction::<R>::CountTotal
                    &&& final(self).phase == PagePhase::AwaitTotal
                    &&& final(self).rows == rows
                },
            },
    {
        match res {
            Err(m) => {
                self.phase = PagePhase::Done;
                QuotaPageAction::Finish(Outcome::Failure(Failure::DatabaseRunning(m)))
            },
            Ok(rows) => {
                self.rows = rows;
                self.phase = PagePhase::AwaitTotal;
                QuotaPageAction::CountTotal
            },
        }
    }

    /// Takes the number of rows in all and replies with the page.
    pub fn on_total(&mut self, total: i64) -> (action: QuotaPageAction<R>)
        requires
            old(self).phase == PagePhase::AwaitTotal,
        ensures
            old(self).takes_total(total, *final(self), action),
    {
        self.phase = PagePhase::Done;
        let mut rows = Vec::new();
        std::mem::swap(&mut rows, &mut self.rows);
        QuotaPageAction::Finish(Outcome::Success(Some(Page { total, inner: rows })))
    }
}

// ---------------------------------------------------------------------------
// A currency's history, with each owner looked up in the wallet service
// ---------------------------------------------------------------------------

/// The upper-case form of an ASCII letter; every other character is kept.
pub open spec fn ascii_upper(c: char) -> char {
    if 'a' <= c <= 'z' {
        ((c as int) - 32) as char
    } else {
        c
    }
}

/// `str::to_ascii_uppercase` of std: a copy of `text` with the ASCII letters
/// `a` to `z` turned into `A` to `Z` and every other character kept, as its
/// documentation says.
#[verifier::external_body]
fn to_ascii_uppercase(text: &str) -> (r: String)
    ensures
        r@ == text@.map_values(|c: char| ascii_upper(c)),
{
    text.to_ascii_uppercase()
}

/// Where the wallet service tells who owns the certificate `cert`.
pub open spec fn spec_wallet_url(cert: Seq<char>) -> Seq<char> {
    "http://git.curdata.cn:9004/api/wallet?cert="@ + cert.map_values(|c: char| ascii_upper(c))
}

/// The wallet service address that resolves the owner certificate `cert`.
pub fn wallet_url(cert: &str) -> (url: String)
    ensures
        url@ == spec_wallet_url(cert@),
{
    let mut url = String::from_str("http://git.curdata.cn:9004/api/wallet?cert=");
    let upper = to_ascii_uppercase(cert);
    url.append(upper.as_str());
    url
}

/// A row of a currency's history as the database holds it.
pub struct HistoryRow<T> {
    pub id: String,
    pub create_time: T,
    /// The certificate of the owner at that point, as hex text.
    pub owner_cert: String,
}

/// A row of a currency's history as the reply gives it, with the owner as
/// the wallet service describes it.
pub struct HistoryEntry<T, O> {
    pub id: String,
    pub create_time: T,
    pub owner: O,
}

/// What the surroundings are asked to do next for a page of history.
pub enum HistoryAction<T, O> {
    /// Query the page of the history of currency `id`: skip `offset` rows,
    /// take at most `limit`.
    QueryPage { id: String, offset: i64, limit: i64 },
    /// Count the rows of the history of currency `id`.
    CountTotal { id: String },
    /// Ask the wallet service at `url` who the owner is.
    FetchOwner { url: String },
    /// Reply, with the page on success.
    Finish(Outcome<Page<HistoryEntry<T, O>>>),
}

/// A query for a page of a currency's history.
pub struct HistoryProcess<T, O> {
    pub phase: PagePhase,
    pub id: String,
    pub total: i64,
    /// The rows whose owners are still to be looked up.
    pub pending: Vec<HistoryRow<T>>,
    /// The entries done so far.
    pub entries: Vec<HistoryEntry<T, O>>,
}

/// After the owners of some rows were looked up: look up the owner of the
/// first pending row, or, with none left, reply with the page.
pub open spec fn begins_owner<T, O>(
    post: HistoryProcess<T, O>,
    entries: Seq<HistoryEntry<T, O>>,
    action: HistoryAction<T, O>,
) -> bool {
    if post.pending@.len() > 0 {
        &&& action matches HistoryAction::FetchOwner { url }
        &&& url@ == spec_wallet_url(post.pending@[0].owner_cert@)
        &&& post.phase == PagePhase::AwaitOwner
        &&& post.entries@ == entries
    } else {
        &&& action matches HistoryAction::Finish(Outcome::Success(Some(page)))
        &&& page.total == post.total
        &&& page.inner@ == entries
        &&& post.phase == PagePhase::Done
    }
}

impl<T, O> HistoryProcess<T, O> {
    /// What taking the number of rows in all does: keep it, and go on to the
    /// owners of the pending rows.
    pub open spec fn takes_total(self, total: i64, post: Self, action: HistoryAction<T, O>) -> bool {
        &&& post.total == total
        &&& post.pending == self.pending
        &&& begins_owner(post, self.entries@, action)
    }

    /// What taking the owner of the first pending row does: that row becomes
    /// the next entry, with this owner, and the number of rows in all is
    /// kept.
    pub open spec fn takes_owner(self, owner: O, post: Self, action: HistoryAction<T, O>) -> bool {
        &&& post.total == self.total
        &&& post.pending@ == self.pending@.drop_first()
        &&& begins_owner(
            post,
            self.entries@.push(
                HistoryEntry {
                    id: self.pending@[0].id,
                    create_time: self.pending@[0].create_time,
                    owner,
                },
            ),
            action,
        )
    }

    /// Starts the query for a page of history.
    pub fn new(req: &HistoryRequest) -> (r: (Self, HistoryAction<T, O>))
        requires
            offset_fits(req.page, req.page_size),
        ensures
            r.0.phase == PagePhase::AwaitRows,
            r.0.id == req.id,
            r.1 matches HistoryAction::QueryPage { id, offset, limit } && id == req.id && offset == (
            req.page - 1) * req.page_size && limit == req.page_size,
    {
        let offset = page_offset(req.page, req.page_size);
        let p = HistoryProcess {
            phase: PagePhase::AwaitRows,
            id: req.id.clone(),
            total: 0,
            pending: Vec::new(),
            entries: Vec::new(),
        };
        (p, HistoryAction::QueryPage { id: req.id.clone(), offset, limit: req.page_size })
    }

    /// Takes the page's rows, or the database's error.
    pub fn on_rows(&mut self, res: Result<Vec<HistoryRow<T>>, String>) -> (action: HistoryAction<T, O>)
        requires
            old(self).phase == PagePhase::AwaitRows,
        ensures
            final(self).id == old(self).id,
            match res {
                Err(m) => {
                    &&& action == HistoryAction::<T, O>::Finish(
                        Outcome::Failure(Failure::DatabaseRunning(m)),
                    )
                    &&& final(self).phase == PagePhase::Done
                },
                Ok(rows) => {
                    &&& action == HistoryAction::<T, O>::CountTotal { id: old(self).id }
                    &&& final(self).phase == PagePhase::AwaitTotal
                    &&& final(self).pending == rows
                    &&& final(self).entries@.len() == 0
                },
            },
    {
        match res {
            Err(m) => {
                self.phase = PagePhase::Done;
                HistoryAction::Finish(Outcome::Failure(Failure::DatabaseRunning(m)))
            },
            Ok(rows) => {
                self.pending = rows;
                self.entries = Vec::new();
                self.phase = PagePhase::AwaitTotal;
                HistoryAction::CountTotal { id: self.id.clone() }
            },
        }
    }

    /// Takes the number of rows in all.
    pub fn on_total(&mut self, total: i64) -> (action: HistoryAction<T, O>)
        requires
            old(self).phase == PagePhase::AwaitTotal,
        ensures
            old(self).takes_total(total, *final(self), action),
    {
        self.total = total;
        self.begin_owner()
    }

    /// Takes the owner of the first pending row, as the wallet service
    /// described it.
    pub fn on_owner(&mut self, owner: O) -> (action: HistoryAction<T, O>)
        requires
            old(self).phase == PagePhase::AwaitOwner,
            old(self).pending@.len() > 0,
        ensures
            old(self).takes_owner(owner, *final(self), action),
    {
        let row = self.pending.remove(0);
        self.entries.push(HistoryEntry { id: row.id, create_time: row.create_time, owner });
        proof {
            assert(self.pending@ =~= old(self).pending@.drop_first());
        }
        self.begin_owner()
    }

    fn begin_owner(&mut self) -> (action: HistoryAction<T, O>)
        ensures
            final(self).total == old(self).total,
            final(self).pending == old(self).pending,
            begins_owner(*final(self), old(self).entries@, action),
    {
        if self.pending.len() > 0 {
            let url = wallet_url(self.pending[0].owner_cert.as_str());
            self.phase = PagePhase::AwaitOwner;
            HistoryAction::FetchOwner { url }
        } else {
            self.phase = PagePhase::Done;
            let mut entries = Vec::new();
            std::mem::swap(&mut entries, &mut self.entries);
            HistoryAction::Finish(Outcome::Success(Some(Page { total: self.total, inner: entries })))
        }
    }
}


/// A page of a user's currency replies with exactly the rows the page query
/// returned and the number of rows counted in all, however many rows the
/// page holds.
pub proof fn law_quota_page_total_is_counted_total<R>(
    pre: QuotaPageProcess<R>,
    total: i64,
    post: QuotaPageProcess<R>,
    action: QuotaPageAction<R>,
)
    requires
        pre.takes_total(total, post, action),
    ensures
        action matches QuotaPageAction::Finish(Outcome::Success(Some(page))) && page.total == total
            && page.inner@ == pre.rows@,
{
}

/// The number of rows in all that a history page replies with is the number
/// counted, however many rows the page holds: it is kept from the count on
/// through every owner looked up, and the reply carries it.
pub proof fn law_history_total_is_counted_total<T, O>(
    pre: HistoryProcess<T, O>,
    total: i64,
    post: HistoryProcess<T, O>,
    action: HistoryAction<T, O>,
    owner: O,
    next: HistoryProcess<T, O>,
    next_action: HistoryAction<T, O>,
)
    requires
        pre.takes_total(total, post, action),
    ensures
        post.total == total,
        action matches HistoryAction::Finish(Outcome::Success(Some(page))) ==> page.total == total,
        post.pending@.len() > 0 && post.takes_owner(owner, next, next_action) ==> {
            &&& next.total == total
            &&& next_action matches HistoryAction::Finish(Outcome::Success(Some(page)))
                ==> page.total == total
        },
{
}

/// The owners are looked up row by row, in the page's order, each at the
/// wallet service address of that row's owner certificate; the reply lists
/// the rows in the page's order, each with the owner found for it.
pub proof fn law_history_entries_follow_rows<T, O>(
    pre: HistoryProcess<T, O>,
    owner: O,
    post: HistoryProcess<T, O>,
    action: HistoryAction<T, O>,
)
    requires
        pre.pending@.len() > 0,
        pre.takes_owner(owner, post, action),
    ensures
        action matches HistoryAction::FetchOwner { url } ==> pre.pending@.len() > 1 && url@
            == spec_wallet_url(pre.pending@[1].owner_cert@),
        action matches HistoryAction::Finish(Outcome::Success(Some(page))) ==> {
            &&& pre.pending@.len() == 1
            &&& page.inner@.len() == pre.entries@.len() + 1
            &&& page.inner@.take(pre.entries@.len() as int) == pre.entries@
            &&& page.inner@.last().id == pre.pending@[0].id
            &&& page.inner@.last().create_time == pre.pending@[0].create_time
            &&& page.inner@.last().owner == owner
        },
{
    if let HistoryAction::Finish(Outcome::Success(Some(page))) = action {
        assert(page.inner@.take(pre.entries@.len() as int) =~= pre.entries@);
    }
}

} // verus!
