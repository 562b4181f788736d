//! The append-only ledger: settled transactions and unredeemed credits.
//! Rows are only ever appended, never updated or deleted; transactions list
//! newest-first, credits oldest-first, and every amount is a decimal string.
use vstd::prelude::*;

verus! {

use crate::ids::generate_id;
use crate::ids::now_rfc3339;
use crate::pagination::PaginationInfo;
use crate::pagination::pagination_info;
use crate::pagination::spec_offset;
use crate::pagination::spec_page;
use crate::pagination::spec_total_pages;
use crate::text::str_eq;

#[derive(Clone, Copy, Debug, PartialEq, Eq, Structural)]
pub enum TransactionDirection {
    Incoming,
    Outgoing,
}

impl TransactionDirection {
    /// Reads a stored direction value; unlike a silent fallback, an
    /// unrecognized value is rejected rather than miscategorized.
    pub fn parse(s: &str) -> (r: Option<TransactionDirection>)
        ensures
            s@ == "Incoming"@ ==> r == Some(TransactionDirection::Incoming),
            s@ == "Outgoing"@ ==> r == Some(TransactionDirection::Outgoing),
            s@ != "Incoming"@ && s@ != "Outgoing"@ ==> r is None,
    {
        proof {
            reveal_strlit("Incoming");
            reveal_strlit("Outgoing");
            assert("Incoming"@[0] == 'I');
            assert("Outgoing"@[0] == 'O');
            assert("Incoming"@ != "Outgoing"@);
        }
        if str_eq(s, "Incoming") {
            Some(TransactionDirection::Incoming)
        } else if str_eq(s, "Outgoing") {
            Some(TransactionDirection::Outgoing)
        } else {
            None
        }
    }
}

#[derive(Debug)]
pub struct Transaction {
    pub id: String,
    pub created_at: String,
    pub token: String,
    pub amount: String,
    pub direction: TransactionDirection,
}

impl Clone for Transaction {
    fn clone(&self) -> (res: Self)
        ensures
            res == *self,
    {
        Transaction {
            id: self.id.clone(),
            created_at: self.created_at.clone(),
            token: self.token.clone(),
            amount: self.amount.clone(),
            direction: self.direction,
        }
    }
}

#[derive(Debug)]
pub struct Credit {
    pub id: String,
    pub created_at: String,
    pub token: String,
    pub amount: String,
    pub redeemed: bool,
}

impl Clone for Credit {
    fn clone(&self) -> (res: Self)
        ensures
            res == *self,
    {
        Credit {
            id: self.id.clone(),
            created_at: self.created_at.clone(),
            token: self.token.clone(),
            amount: self.amount.clone(),
            redeemed: self.redeemed,
        }
    }
}

#[derive(Clone, Debug)]
pub struct TransactionListResponse {
    pub data: Vec<Transaction>,
    pub pagination: PaginationInfo,
}

#[derive(Clone, Debug)]
pub struct CreditListResponse {
    pub data: Vec<Credit>,
    pub pagination: PaginationInfo,
}

/// The append-only store behind settlement: every write is a push, so each
/// row's position is its creation order.
pub struct Ledger {
    pub transactions: Vec<Transaction>,
    pub credits: Vec<Credit>,
}

impl Ledger {
    pub fn new() -> (r: Ledger)
        ensures
            r.transactions@.len() == 0,
            r.credits@.len() == 0,
    {
        Ledger { transactions: Vec::new(), credits: Vec::new() }
    }

    /// Appends one settled transaction row and returns its fresh id.
    /// Everything already in the ledger stays exactly as it was.
    pub fn add_transaction(
        &mut self,
        token: &str,
        amount: &str,
        direction: TransactionDirection,
    ) -> (id: String)
        requires
            old(self).transactions@.len() < 0x7fff_ffff_ffff_ffff,
        ensures
            final(self).transactions@.len() == old(self).transactions@.len() + 1,
            final(self).transactions@.drop_last() == old(self).transactions@,
            final(self).transactions@.last().token@ == token@,
            final(self).transactions@.last().amount@ == amount@,
            final(self).transactions@.last().direction == direction,
            final(self).transactions@.last().id@ == id@,
            final(self).credits == old(self).credits,
    {
        let id = generate_id("txn");
        let row = Transaction {
            id: id.clone(),
            created_at: now_rfc3339(),
            token: String::from_str(token),
            amount: String::from_str(amount),
            direction,
        };
        self.transactions.push(row);
        proof {
            assert(self.transactions@.drop_last() =~= old(self).transactions@);
        }
        id
    }

    /// Appends one unredeemed credit row and returns its fresh id; the row
    /// always starts with `redeemed` false.
    pub fn add_credit(&mut self, token: &str, amount: &str) -> (id: String)
        requires
            old(self).credits@.len() < 0x7fff_ffff_ffff_ffff,
        ensures
            final(self).credits@.len() == old(self).credits@.len() + 1,
            final(self).credits@.drop_last() == old(self).credits@,
            final(self).credits@.last().token@ == token@,
            final(self).credits@.last().amount@ == amount@,
            final(self).credits@.last().redeemed == false,
            final(self).credits@.last().id@ == id@,
            final(self).transactions == old(self).transactions,
    {
        let id = generate_id("credit");
        let row = Credit {
            id: id.clone(),
            created_at: now_rfc3339(),
            token: String::from_str(token),
            amount: String::from_str(amount),
            redeemed: false,
        };
        self.credits.push(row);
        proof {
            assert(self.credits@.drop_last() =~= old(self).credits@);
        }
        id
    }

    /// The requested page of transactions, newest first; page defaults to 1
    /// and page size to 10 when unspecified.
    pub fn get_transactions(&self, page: Option<i64>, page_size: Option<i64>) -> (r:
        TransactionListResponse)
        requires
            self.transactions@.len() <= 0x7fff_ffff_ffff_ffff,
            page matches Some(p) ==> 1 <= p,
            page_size matches Some(ps) ==> 1 <= ps,
        ensures
            r.pagination.total == self.transactions@.len(),
            r.pagination.page == page_value(page),
            r.pagination.page_size == page_size_value(page_size),
            r.pagination.total_pages == spec_total_pages(
                self.transactions@.len() as int,
                page_size_value(page_size),
            ),
            r.data@ == spec_page(
                self.transactions@.reverse(),
                page_value(page),
                page_size_value(page_size),
            ),
    {
        let total = self.transactions.len() as i64;
        let p: i64 = match page {
            Some(v) => v,
            None => 1,
        };
        let ps: i64 = match page_size {
            Some(v) => v,
            None => 10,
        };
        let pagination = pagination_info(total, p, ps);
        let (lo, hi) = page_bounds(p, ps, total);
        let n = self.transactions.len();
        let mut data: Vec<Transaction> = Vec::new();
        let mut j: usize = lo;
        proof {
            assert(self.transactions@.reverse().len() == n);
        }
        while j < hi
            invariant
                lo <= j <= hi,
                hi <= n == self.transactions@.len(),
                lo == spec_lo(page_value(page), page_size_value(page_size), n as int),
                hi == spec_hi(page_value(page), page_size_value(page_size), n as int),
                data@ =~= self.transactions@.reverse().subrange(lo as int, j as int),
            decreases hi - j,
        {
            data.push(self.transactions[n - 1 - j].clone());
            proof {
                assert(self.transactions@.reverse()[j as int] == self.transactions@[n - 1
                    - j as int]);
                assert(data@ =~= self.transactions@.reverse().subrange(lo as int, j + 1));
            }
            j += 1;
        }
        proof {
            assert(data@ =~= spec_page(
                self.transactions@.reverse(),
                page_value(page),
                page_size_value(page_size),
            ));
        }
        TransactionListResponse { data, pagination }
    }

    /// The requested page of credits, oldest first; page defaults to 1 and
    /// page size to 10 when unspecified.
    pub fn get_credits(&self, page: Option<i64>, page_size: Option<i64>) -> (r: CreditListResponse)
        requires
            self.credits@.len() <= 0x7fff_ffff_ffff_ffff,
            page matches Some(p) ==> 1 <= p,
            page_size matches Some(ps) ==> 1 <= ps,
        ensures
            r.pagination.total == self.credits@.len(),
            r.pagination.page == page_value(page),
            r.pagination.page_size == page_size_value(page_size),
            r.pagination.total_pages == spec_total_pages(
                self.credits@.len() as int,
                page_size_value(page_size),
            ),
            r.data@ == spec_page(self.credits@, page_value(page), page_size_value(page_size)),
    {
        let total = self.credits.len() as i64;
        let p: i64 = match page {
            Some(v) => v,
            None => 1,
        };
        let ps: i64 = match page_size {
            Some(v) => v,
            None => 10,
        };
        let pagination = pagination_info(total, p, ps);
        let (lo, hi) = page_bounds(p, ps, total);
        let n = self.credits.len();
        let mut data: Vec<Credit> = Vec::new();
        let mut j: usize = lo;
        while j < hi
            invariant
                lo <= j <= hi,
                hi <= n == self.credits@.len(),
                lo == spec_lo(page_value(page), page_size_value(page_size), n as int),
                hi == spec_hi(page_value(page), page_size_value(page_size), n as int),
                data@ =~= self.credits@.subrange(lo as int, j as int),
            decreases hi - j,
        {
            data.push(self.credits[j].clone());
            proof {
                assert(data@ =~= self.credits@.subrange(lo as int, j + 1));
            }
            j += 1;
        }
        proof {
            assert(data@ =~= spec_page(
                self.credits@,
                page_value(page),
                page_size_value(page_size),
            ));
        }
        CreditListResponse { data, pagination }
    }
}

/// The page actually served when the query may leave it out: 1 by default.
pub open spec fn page_value(page: Option<i64>) -> int {
    match page {
        Some(p) => p as int,
        None => 1,
    }
}

/// The page size actually served when the query may leave it out: 10 by
/// default.
pub open spec fn page_size_value(page_size: Option<i64>) -> int {
    match page_size {
        Some(ps) => ps as int,
        None => 10,
    }
}

/// Start of the page window, clipped to the row count.
pub open spec fn spec_lo(page: int, page_size: int, total: int) -> int {
    if spec_offset(page, page_size) <= total {
        spec_offset(page, page_size)
    } else {
        total
    }
}

/// End of the page window, clipped to the row count.
pub open spec fn spec_hi(page: int, page_size: int, total: int) -> int {
    if spec_offset(page, page_size) + page_size <= total {
        spec_offset(page, page_size) + page_size
    } else {
        total
    }
}

/// The clipped window `[lo, hi)` of the page on `total` rows, computed
/// without overflowing `i64`.
fn page_bounds(page: i64, page_size: i64, total: i64) -> (r: (usize, usize))
    requires
        1 <= page,
        1 <= page_size,
        0 <= total,
        total <= usize::MAX,
    ensures
        r.0 == spec_lo(page as int, page_size as int, total as int),
        r.1 == spec_hi(page as int, page_size as int, total as int),
        r.0 <= r.1 <= total,
{
    proof {
        assert((page - 1) * page_size >= 0 && ((page - 1) * page_size + page_size >= 0)) by (
        nonlinear_arith)
            requires
                1 <= page,
                1 <= page_size,
        ;
    }
    let lo: i64 = match (page - 1).checked_mul(page_size) {
        Some(off) => {
            if off <= total {
                off
            } else {
                total
            }
        },
        None => {
            proof {
                assert((page - 1) * page_size > i64::MAX || (page - 1) * page_size < i64::MIN);
            }
            total
        },
    };
    let hi: i64 = match (page - 1).checked_mul(page_size) {
        Some(off) => match off.checked_add(page_size) {
            Some(end) => {
                if end <= total {
                    end
                } else {
                    total
                }
            },
            None => total,
        },
        None => total,
    };
    (lo as usize, hi as usize)
}

} // verus!
