//! The table of one-time nonces: rows of (secret nonce, public nonce) as
//! hex. Nonces are added when handed out and deleted when used, so that a
//! nonce signs at most one challenge.
use vstd::prelude::*;
use crate::hexcode::hex_bytes_of;
use crate::keys::{even_y_pair_from, NoncePair};
use crate::secp::{is_nonzero_scalar, is_nonzero_scalar_hex, is_xonly_hex};

verus! {

/// A row: the secret nonce and the public nonce, both as hex text.
pub type NonceRow = (Seq<char>, Seq<char>);

/// The secret of the first row whose public nonce is `n`, if any.
pub open spec fn lookup_secret(rows: Seq<NonceRow>, n: Seq<char>) -> Option<Seq<char>>
    decreases rows.len(),
{
    if rows.len() == 0 {
        None
    } else {
        let earlier = lookup_secret(rows.drop_last(), n);
        if earlier is Some {
            earlier
        } else if rows.last().1 == n {
            Some(rows.last().0)
        } else {
            None
        }
    }
}

/// The rows whose public nonce is not `n`, in their order.
pub open spec fn without_nonce(rows: Seq<NonceRow>, n: Seq<char>) -> Seq<NonceRow>
    decreases rows.len(),
{
    if rows.len() == 0 {
        rows
    } else if rows.last().1 == n {
        without_nonce(rows.drop_last(), n)
    } else {
        without_nonce(rows.drop_last(), n).push(rows.last())
    }
}

/// A row as a nonce is handed out: the hex of a non-zero secret scalar and
/// of the x-only point that it normalizes to.
pub open spec fn is_valid_row(row: NonceRow) -> bool {
    &&& is_nonzero_scalar_hex(row.0)
    &&& is_xonly_hex(row.1)
    &&& exists|k: Seq<u8>|
        is_nonzero_scalar(k) && #[trigger] even_y_pair_from(
            k,
            hex_bytes_of(row.0),
            hex_bytes_of(row.1),
        )
}

/// Every row is a valid row.
pub open spec fn rows_valid(rows: Seq<NonceRow>) -> bool {
    forall|i: int| 0 <= i < rows.len() ==> is_valid_row(#[trigger] rows[i])
}

/// How many of `k` signing requests for nonce `n`, made one after another,
/// find the nonce (each found nonce is deleted before the next request).
pub open spec fn found_count(rows: Seq<NonceRow>, n: Seq<char>, k: nat) -> nat
    decreases k,
{
    if k == 0 {
        0
    } else {
        (if lookup_secret(rows, n) is Some { 1nat } else { 0nat }) + found_count(
            without_nonce(rows, n),
            n,
            (k - 1) as nat,
        )
    }
}

/// After the rows of a nonce are deleted, the nonce is not found, and
/// deleting it again changes nothing.
pub proof fn lemma_deleted_nonce_is_gone(rows: Seq<NonceRow>, n: Seq<char>)
    ensures
        lookup_secret(without_nonce(rows, n), n) is None,
        without_nonce(without_nonce(rows, n), n) == without_nonce(rows, n),
    decreases rows.len(),
{
    if rows.len() > 0 {
        lemma_deleted_nonce_is_gone(rows.drop_last(), n);
        if rows.last().1 != n {
            let w = without_nonce(rows.drop_last(), n);
            assert(w.push(rows.last()).drop_last() =~= w);
        }
    }
}

/// Found rows come from the table: a found secret is that of some row.
pub proof fn lemma_found_row(rows: Seq<NonceRow>, n: Seq<char>)
    requires
        lookup_secret(rows, n) is Some,
    ensures
        exists|i: int| 0 <= i < rows.len() && #[trigger] rows[i] == (lookup_secret(rows, n)->0, n),
    decreases rows.len(),
{
    if lookup_secret(rows.drop_last(), n) is Some {
        lemma_found_row(rows.drop_last(), n);
        let i = choose|i: int| 0 <= i < rows.drop_last().len() && #[trigger] rows.drop_last()[i] == (
            lookup_secret(rows.drop_last(), n)->0, n);
        assert(rows[i] == rows.drop_last()[i]);
    } else {
        assert(rows[rows.len() - 1] == (lookup_secret(rows, n)->0, n));
    }
}

/// Deleting a nonce keeps every remaining row valid.
pub proof fn lemma_delete_keeps_rows_valid(rows: Seq<NonceRow>, n: Seq<char>)
    requires
        rows_valid(rows),
    ensures
        rows_valid(without_nonce(rows, n)),
    decreases rows.len(),
{
    if rows.len() > 0 {
        let front = rows.drop_last();
        assert forall|i: int| 0 <= i < front.len() implies is_valid_row(#[trigger] front[i]) by {
            assert(front[i] == rows[i]);
        }
        lemma_delete_keeps_rows_valid(front, n);
        assert(is_valid_row(rows[rows.len() - 1]));
    }
}

/// A table whose rows are all valid stores only secrets that parse: the
/// secret found for any nonce is the hex of a non-zero scalar.
pub proof fn lemma_found_secret_parses(rows: Seq<NonceRow>, n: Seq<char>)
    requires
        rows_valid(rows),
        lookup_secret(rows, n) is Some,
    ensures
        is_nonzero_scalar_hex(lookup_secret(rows, n)->0),
{
    lemma_found_row(rows, n);
    let i = choose|i: int| 0 <= i < rows.len() && #[trigger] rows[i] == (lookup_secret(rows, n)->0, n);
    assert(is_valid_row(rows[i]));
}

/// A nonce signs at most one challenge: of any number of signing requests
/// for the same nonce, made one after another, at most one finds it.
pub proof fn lemma_nonce_found_at_most_once(rows: Seq<NonceRow>, n: Seq<char>, k: nat)
    ensures
        found_count(rows, n, k) <= 1,
        k > 0 ==> found_count(without_nonce(rows, n), n, k) == 0,
    decreases k,
{
    if k > 0 {
        lemma_deleted_nonce_is_gone(rows, n);
        lemma_nonce_found_at_most_once(without_nonce(rows, n), n, (k - 1) as nat);
        lemma_nothing_found_after_delete(rows, n, k);
    }
}

/// Once a nonce is deleted, no later request finds it.
proof fn lemma_nothing_found_after_delete(rows: Seq<NonceRow>, n: Seq<char>, k: nat)
    ensures
        found_count(without_nonce(rows, n), n, k) == 0,
    decreases k,
{
    lemma_deleted_nonce_is_gone(rows, n);
    if k > 0 {
        lemma_nothing_found_after_delete(rows, n, (k - 1) as nat);
    }
}

/// Deleting nonce `n` keeps exactly the rows whose public nonce is not `n`,
/// in their order, each unchanged: it is the filter of the table by
/// "public nonce differs from `n`".
pub proof fn lemma_delete_keeps_other_rows(rows: Seq<NonceRow>, n: Seq<char>)
    ensures
        without_nonce(rows, n) == rows.filter(|r: NonceRow| r.1 != n),
        forall|r: NonceRow| #[trigger] without_nonce(rows, n).contains(r) <==> (rows.contains(r) && r.1 != n),
    decreases rows.len(),
{
    reveal(Seq::filter);
    let pred = |r: NonceRow| r.1 != n;
    if rows.len() > 0 {
        lemma_delete_keeps_other_rows(rows.drop_last(), n);
    }
    assert(without_nonce(rows, n) =~= rows.filter(pred));
    assert forall|r: NonceRow| #[trigger] without_nonce(rows, n).contains(r) implies (rows.contains(r) && r.1 != n) by {
        rows.lemma_filter_contains_rev(pred, r);
        let i = choose|i: int| 0 <= i < without_nonce(rows, n).len() && without_nonce(rows, n)[i] == r;
        rows.lemma_filter_pred(pred, i);
    }
    assert forall|r: NonceRow| rows.contains(r) && r.1 != n implies #[trigger] without_nonce(rows, n).contains(r) by {
        let i = choose|i: int| 0 <= i < rows.len() && rows[i] == r;
        rows.lemma_filter_contains(pred, i);
    }
}

/// Deleting nonce `n` changes nothing for any other nonce: every other
/// nonce is found, with the same secret, exactly as before.
pub proof fn lemma_delete_keeps_other_lookups(rows: Seq<NonceRow>, n: Seq<char>, m: Seq<char>)
    requires
        m != n,
    ensures
        lookup_secret(without_nonce(rows, n), m) == lookup_secret(rows, m),
    decreases rows.len(),
{
    if rows.len() > 0 {
        lemma_delete_keeps_other_lookups(rows.drop_last(), n, m);
        if rows.last().1 != n {
            let w = without_nonce(rows.drop_last(), n);
            assert(w.push(rows.last()).drop_last() =~= w);
        }
    }
}

/// Lookup finds a nonce exactly when some row holds it, and then gives the
/// secret of the first such row.
pub proof fn lemma_lookup_finds_first_row(rows: Seq<NonceRow>, n: Seq<char>)
    ensures
        lookup_secret(rows, n) is None <==> forall|i: int| 0 <= i < rows.len() ==> (#[trigger] rows[i]).1 != n,
        forall|i: int|
            0 <= i < rows.len() && (#[trigger] rows[i]).1 == n && (forall|j: int| 0 <= j < i ==> rows[j].1 != n)
                ==> lookup_secret(rows, n) == Some(rows[i].0),
    decreases rows.len(),
{
    if rows.len() > 0 {
        let front = rows.drop_last();
        lemma_lookup_finds_first_row(front, n);
        assert forall|i: int| 0 <= i < front.len() implies front[i] == rows[i] by {}
        if lookup_secret(front, n) is None {
            assert forall|i: int| 0 <= i < rows.len() - 1 implies (#[trigger] rows[i]).1 != n by {
                assert(front[i] == rows[i]);
            }
        } else {
            let k = choose|k: int| 0 <= k < front.len() && (#[trigger] front[k]).1 == n;
            assert(rows[k] == front[k]);
            assert forall|i: int|
                0 <= i < rows.len() && (#[trigger] rows[i]).1 == n && (forall|j: int| 0 <= j < i ==> rows[j].1 != n)
                    implies lookup_secret(rows, n) == Some(rows[i].0) by {
                if i == rows.len() - 1 {
                    assert(rows[k].1 == n);
                    assert(false);
                } else {
                    assert(front[i] == rows[i]);
                    assert forall|j: int| 0 <= j < i implies front[j].1 != n by {
                        assert(front[j] == rows[j]);
                    }
                }
            }
        }
    }
}

/// The nonce table.
pub struct NonceTable {
    rows: Vec<(String, String)>,
}

impl View for NonceTable {
    type V = Seq<NonceRow>;

    closed spec fn view(&self) -> Seq<NonceRow> {
        self.rows@.map_values(|r: (String, String)| (r.0@, r.1@))
    }
}

impl NonceTable {
    /// An empty table.
    pub fn new() -> (r: Self)
        ensures
            r@ == Seq::<NonceRow>::empty(),
    {
        let r = NonceTable { rows: Vec::new() };
        assert(r@ =~= Seq::<NonceRow>::empty());
        r
    }

    /// Stores a handed-out nonce pair as a new last row.
    pub fn insert(&mut self, pair: NoncePair)
        ensures
            final(self)@ == old(self)@.push((pair.secret_nonce@, pair.public_nonce@)),
    {
        let ghost before = self@;
        self.rows.push((pair.secret_nonce, pair.public_nonce));
        assert(self@ =~= before.push((pair.secret_nonce@, pair.public_nonce@)));
    }

    /// The secret of the first row whose public nonce is `nonce`.
    pub fn lookup(&self, nonce: &str) -> (r: Option<String>)
        ensures
            r is Some <==> lookup_secret(self@, nonce@) is Some,
            r matches Some(s) ==> lookup_secret(self@, nonce@) == Some(s@),
    {
        let key = String::from_str(nonce);
        let n = self.rows.len();
        for i in 0..n
            invariant
                n == self.rows@.len(),
                key@ == nonce@,
                lookup_secret(self@.take(i as int), nonce@) is None,
        {
            let ghost prefix = self@.take(i + 1);
            assert(prefix.drop_last() =~= self@.take(i as int));
            assert(prefix.last() == self@[i as int]);
            if self.rows[i].1 == key {
                assert(lookup_secret(prefix, nonce@) == Some(self@[i as int].0));
                proof {
                    lemma_lookup_prefix(self@, nonce@, i + 1);
                }
                return Some(self.rows[i].0.clone());
            }
        }
        assert(self@.take(n as int) =~= self@);
        None
    }

    /// Deletes every row whose public nonce is `nonce`.
    pub fn delete(&mut self, nonce: &str)
        ensures
            final(self)@ == without_nonce(old(self)@, nonce@),
    {
        let ghost all = self@;
        let key = String::from_str(nonce);
        let mut kept: Vec<(String, String)> = Vec::new();
        let n = self.rows.len();
        for i in 0..n
            invariant
                n == self.rows@.len(),
                all == self@,
                key@ == nonce@,
                kept@.map_values(|r: (String, String)| (r.0@, r.1@)) == without_nonce(
                    all.take(i as int),
                    nonce@,
                ),
        {
            let ghost prefix = all.take(i + 1);
            assert(prefix.drop_last() =~= all.take(i as int));
            assert(prefix.last() == all[i as int]);
            if !(self.rows[i].1 == key) {
                let ghost before = kept@.map_values(|r: (String, String)| (r.0@, r.1@));
                let row = (self.rows[i].0.clone(), self.rows[i].1.clone());
                kept.push(row);
                assert(kept@.map_values(|r: (String, String)| (r.0@, r.1@)) =~= before.push(
                    all[i as int],
                ));
            }
        }
        assert(all.take(n as int) =~= all);
        self.rows = kept;
    }
}

/// The first match in a prefix is the first match in the whole table.
proof fn lemma_lookup_prefix(rows: Seq<NonceRow>, n: Seq<char>, i: int)
    requires
        0 <= i <= rows.len(),
        lookup_secret(rows.take(i), n) is Some,
    ensures
        lookup_secret(rows, n) == lookup_secret(rows.take(i), n),
    decreases rows.len() - i,
{
    if i < rows.len() {
        let next = rows.take(i + 1);
        assert(next.drop_last() =~= rows.take(i));
        lemma_lookup_prefix(rows, n, i + 1);
    } else {
        assert(rows.take(i) =~= rows);
    }
}

} // verus!
