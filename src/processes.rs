use crate::event::Key;
use crate::metrics::{process_records, user_name_by_id, ProcessRecord};
use crate::text::{not_available, or_not_available};
use crate::order::{bytes_lt, lemma_lex_asym, lemma_lex_split, lemma_lex_total, lex_lt};
use vstd::prelude::*;
use vstd::utf8::encode_utf8;

verus! {

/// Direction of the process table's order.
#[derive(Clone, Copy, PartialEq, Eq, Structural, Debug)]
pub enum TableSort {
    Ascending,
    Descending,
}

impl Default for TableSort {
    fn default() -> (r: Self)
        ensures
            r == TableSort::Ascending,
    {
        TableSort::Ascending
    }
}

/// The opposite direction.
pub open spec fn reversed(o: TableSort) -> TableSort {
    match o {
        TableSort::Ascending => TableSort::Descending,
        TableSort::Descending => TableSort::Ascending,
    }
}

impl TableSort {
    pub fn reverse(&mut self)
        ensures
            *final(self) == reversed(*old(self)),
    {
        match self {
            TableSort::Ascending => *self = TableSort::Descending,
            TableSort::Descending => *self = TableSort::Ascending,
        }
    }
}

/// The column that the process table is ordered by.
#[derive(Clone, Copy, PartialEq, Eq, Structural, Debug)]
pub enum TableSortPredicate {
    PID,
    Name,
    User,
    CPU,
    Memory,
    Status,
}

impl Default for TableSortPredicate {
    fn default() -> (r: Self)
        ensures
            r == TableSortPredicate::Name,
    {
        TableSortPredicate::Name
    }
}

/// One row of the process table, every column already in its display form.
#[derive(Debug)]
pub struct Process {
    pub pid: String,
    pub name: String,
    pub user: String,
    pub cpu_usage: String,
    pub memory_usage: String,
    pub status: String,
}

/// The bytes of the column that `pred` selects.
pub open spec fn key_of(p: Process, pred: TableSortPredicate) -> Seq<u8> {
    encode_utf8(
        match pred {
            TableSortPredicate::PID => p.pid@,
            TableSortPredicate::Name => p.name@,
            TableSortPredicate::User => p.user@,
            TableSortPredicate::CPU => p.cpu_usage@,
            TableSortPredicate::Memory => p.memory_usage@,
            TableSortPredicate::Status => p.status@,
        },
    )
}

/// `a` belongs strictly before `b` in the table ordered by `pred` and `ord`.
pub open spec fn precedes(a: Process, b: Process, pred: TableSortPredicate, ord: TableSort) -> bool {
    match ord {
        TableSort::Ascending => lex_lt(key_of(a, pred), key_of(b, pred)),
        TableSort::Descending => lex_lt(key_of(b, pred), key_of(a, pred)),
    }
}

/// No row of `s` belongs strictly before a row ahead of it.
pub open spec fn is_ordered(s: Seq<Process>, pred: TableSortPredicate, ord: TableSort) -> bool {
    forall|i: int, j: int|
        0 <= i < j < s.len() ==> !#[trigger] precedes(s[j], s[i], pred, ord)
}

/// `x` placed into the ordered `t` ahead of the first row that does not
/// belong before it: rows with an equal key stay behind `x`.
pub open spec fn insert_ordered(
    t: Seq<Process>,
    x: Process,
    pred: TableSortPredicate,
    ord: TableSort,
) -> Seq<Process>
    decreases t.len(),
{
    if t.len() == 0 || !precedes(t[0], x, pred, ord) {
        seq![x] + t
    } else {
        seq![t[0]] + insert_ordered(t.drop_first(), x, pred, ord)
    }
}

/// The rows of `s` in table order; rows whose keys are equal keep the order
/// that they have in `s` (a stable sort).
pub open spec fn sorted_rows(s: Seq<Process>, pred: TableSortPredicate, ord: TableSort) -> Seq<
    Process,
>
    decreases s.len(),
{
    if s.len() == 0 {
        s
    } else {
        insert_ordered(sorted_rows(s.drop_first(), pred, ord), s[0], pred, ord)
    }
}

/// Where `insert_ordered` places `x` in `t`.
pub open spec fn insert_position(
    t: Seq<Process>,
    x: Process,
    pred: TableSortPredicate,
    ord: TableSort,
) -> nat
    decreases t.len(),
{
    if t.len() == 0 || !precedes(t[0], x, pred, ord) {
        0
    } else {
        1 + insert_position(t.drop_first(), x, pred, ord)
    }
}

proof fn lemma_precedes_asym(a: Process, b: Process, pred: TableSortPredicate, ord: TableSort)
    ensures
        precedes(a, b, pred, ord) ==> !precedes(b, a, pred, ord),
{
    lemma_lex_asym(key_of(a, pred), key_of(b, pred));
    lemma_lex_asym(key_of(b, pred), key_of(a, pred));
}

/// If `c` belongs before `a`, then `c` belongs before `b` or `b` before `a`.
proof fn lemma_precedes_split(
    a: Process,
    b: Process,
    c: Process,
    pred: TableSortPredicate,
    ord: TableSort,
)
    ensures
        precedes(c, a, pred, ord) ==> precedes(c, b, pred, ord) || precedes(b, a, pred, ord),
{
    lemma_lex_split(key_of(a, pred), key_of(b, pred), key_of(c, pred));
    lemma_lex_split(key_of(c, pred), key_of(b, pred), key_of(a, pred));
}

proof fn lemma_insert_split(
    t: Seq<Process>,
    x: Process,
    pred: TableSortPredicate,
    ord: TableSort,
    j: int,
)
    requires
        0 <= j <= t.len(),
        forall|k: int| 0 <= k < j ==> precedes(#[trigger] t[k], x, pred, ord),
        j < t.len() ==> !precedes(t[j], x, pred, ord),
    ensures
        insert_ordered(t, x, pred, ord) == t.subrange(0, j) + seq![x] + t.subrange(j, t.len() as int),
    decreases j,
{
    if j == 0 {
        assert(t.subrange(0, 0) + seq![x] + t.subrange(0, t.len() as int) =~= seq![x] + t);
    } else {
        let u = t.drop_first();
        assert forall|k: int| 0 <= k < j - 1 implies precedes(#[trigger] u[k], x, pred, ord) by {
            assert(u[k] == t[k + 1]);
        }
        lemma_insert_split(u, x, pred, ord, j - 1);
        assert(seq![t[0]] + (u.subrange(0, j - 1) + seq![x] + u.subrange(j - 1, u.len() as int))
            =~= t.subrange(0, j) + seq![x] + t.subrange(j, t.len() as int));
    }
}

proof fn lemma_insert_position(t: Seq<Process>, x: Process, pred: TableSortPredicate, ord: TableSort)
    ensures
        insert_position(t, x, pred, ord) <= t.len(),
        forall|k: int|
            0 <= k < insert_position(t, x, pred, ord) ==> precedes(#[trigger] t[k], x, pred, ord),
        insert_position(t, x, pred, ord) < t.len() ==> !precedes(
            t[insert_position(t, x, pred, ord) as int],
            x,
            pred,
            ord,
        ),
    decreases t.len(),
{
    if t.len() > 0 && precedes(t[0], x, pred, ord) {
        let u = t.drop_first();
        lemma_insert_position(u, x, pred, ord);
        assert forall|k: int|
            0 <= k < insert_position(t, x, pred, ord) implies precedes(
            #[trigger] t[k],
            x,
            pred,
            ord,
        ) by {
            if k > 0 {
                assert(t[k] == u[k - 1]);
            }
        }
    }
}

/// Inserting into an ordered table keeps it ordered.
proof fn lemma_insert_keeps_order(
    t: Seq<Process>,
    x: Process,
    pred: TableSortPredicate,
    ord: TableSort,
)
    requires
        is_ordered(t, pred, ord),
    ensures
        is_ordered(insert_ordered(t, x, pred, ord), pred, ord),
        insert_ordered(t, x, pred, ord).len() == t.len() + 1,
{
    let p = insert_position(t, x, pred, ord) as int;
    lemma_insert_position(t, x, pred, ord);
    lemma_insert_split(t, x, pred, ord, p);
    let u = insert_ordered(t, x, pred, ord);
    assert(u.len() == t.len() + 1);
    assert forall|i: int, j: int| 0 <= i < j < u.len() implies !#[trigger] precedes(
        u[j],
        u[i],
        pred,
        ord,
    ) by {
        if i < p && j < p {
            assert(u[i] == t[i] && u[j] == t[j]);
        } else if i < p && j == p {
            assert(u[i] == t[i] && u[j] == x);
            lemma_precedes_asym(t[i], x, pred, ord);
        } else if i < p {
            assert(u[i] == t[i] && u[j] == t[j - 1]);
        } else if i == p {
            assert(u[i] == x && u[j] == t[j - 1]);
            if j - 1 > p {
                assert(!precedes(t[j - 1], t[p], pred, ord));
            }
            lemma_precedes_split(x, t[p], t[j - 1], pred, ord);
        } else {
            assert(u[i] == t[i - 1] && u[j] == t[j - 1]);
        }
    }
}

/// `sorted_rows` hands back an ordered table with as many rows.
pub proof fn lemma_sorted_rows_ordered(s: Seq<Process>, pred: TableSortPredicate, ord: TableSort)
    ensures
        is_ordered(sorted_rows(s, pred, ord), pred, ord),
        sorted_rows(s, pred, ord).len() == s.len(),
    decreases s.len(),
{
    if s.len() > 0 {
        lemma_sorted_rows_ordered(s.drop_first(), pred, ord);
        lemma_insert_keeps_order(sorted_rows(s.drop_first(), pred, ord), s[0], pred, ord);
    }
}

/// An ordered table is left as it is by sorting.
pub proof fn lemma_sorted_rows_fixes_ordered(
    s: Seq<Process>,
    pred: TableSortPredicate,
    ord: TableSort,
)
    requires
        is_ordered(s, pred, ord),
    ensures
        sorted_rows(s, pred, ord) == s,
    decreases s.len(),
{
    if s.len() > 0 {
        let u = s.drop_first();
        assert forall|i: int, j: int| 0 <= i < j < u.len() implies !#[trigger] precedes(
            u[j],
            u[i],
            pred,
            ord,
        ) by {
            assert(u[i] == s[i + 1] && u[j] == s[j + 1]);
        }
        lemma_sorted_rows_fixes_ordered(u, pred, ord);
        if u.len() > 0 {
            assert(!precedes(s[1], s[0], pred, ord));
        }
        assert(seq![s[0]] + u =~= s);
    }
}

/// Sorting twice by the same column and direction gives what sorting once
/// gave: re-sorting an unchanged table moves no row, also none of the rows
/// whose keys are equal.
pub proof fn lemma_resort_idempotent(s: Seq<Process>, pred: TableSortPredicate, ord: TableSort)
    ensures
        sorted_rows(sorted_rows(s, pred, ord), pred, ord) == sorted_rows(s, pred, ord),
{
    lemma_sorted_rows_ordered(s, pred, ord);
    lemma_sorted_rows_fixes_ordered(sorted_rows(s, pred, ord), pred, ord);
}


/// Every row that sorting hands back is a row of the input.
proof fn lemma_sorted_rows_members(s: Seq<Process>, pred: TableSortPredicate, ord: TableSort)
    ensures
        forall|i: int|
            0 <= i < sorted_rows(s, pred, ord).len() ==> exists|k: int|
                0 <= k < s.len() && #[trigger] sorted_rows(s, pred, ord)[i] == s[k],
    decreases s.len(),
{
    if s.len() > 0 {
        let u = s.drop_first();
        let t = sorted_rows(u, pred, ord);
        lemma_sorted_rows_members(u, pred, ord);
        let p = insert_position(t, s[0], pred, ord) as int;
        lemma_insert_position(t, s[0], pred, ord);
        lemma_insert_split(t, s[0], pred, ord, p);
        let r = sorted_rows(s, pred, ord);
        assert forall|i: int| 0 <= i < r.len() implies exists|k: int|
            0 <= k < s.len() && #[trigger] r[i] == s[k] by {
            if i == p {
                assert(r[i] == s[0]);
            } else {
                let m = if i < p {
                    i
                } else {
                    i - 1
                };
                assert(r[i] == t[m]);
                let k = choose|k: int| 0 <= k < u.len() && t[m] == u[k];
                assert(r[i] == s[k + 1]);
            }
        }
    }
}

/// Every row of the input is among the rows that sorting hands back.
proof fn lemma_sorted_rows_members_complete(
    s: Seq<Process>,
    pred: TableSortPredicate,
    ord: TableSort,
    k: int,
)
    requires
        0 <= k < s.len(),
    ensures
        exists|m: int|
            0 <= m < sorted_rows(s, pred, ord).len() && #[trigger] sorted_rows(s, pred, ord)[m]
                == s[k],
    decreases s.len(),
{
    let u = s.drop_first();
    let t = sorted_rows(u, pred, ord);
    let r = sorted_rows(s, pred, ord);
    lemma_sorted_rows_ordered(u, pred, ord);
    let p = insert_position(t, s[0], pred, ord) as int;
    lemma_insert_position(t, s[0], pred, ord);
    lemma_insert_split(t, s[0], pred, ord, p);
    if k == 0 {
        assert(r[p] == s[0]);
    } else {
        lemma_sorted_rows_members_complete(u, pred, ord, k - 1);
        let m = choose|m: int| 0 <= m < t.len() && #[trigger] t[m] == u[k - 1];
        let m2 = if m < p {
            m
        } else {
            m + 1
        };
        assert(r[m2] == s[k]);
    }
}

/// Sorting is stable: of two rows whose keys in the column `pred` are equal,
/// the one that comes first in `s` comes first in the sorted table too.
pub proof fn lemma_sort_stable(
    s: Seq<Process>,
    pred: TableSortPredicate,
    ord: TableSort,
    i: int,
    j: int,
)
    requires
        0 <= i < j < s.len(),
        key_of(s[i], pred) == key_of(s[j], pred),
    ensures
        exists|a: int, b: int|
            0 <= a < b < sorted_rows(s, pred, ord).len() && #[trigger] sorted_rows(s, pred, ord)[a]
                == s[i] && #[trigger] sorted_rows(s, pred, ord)[b] == s[j],
    decreases s.len(),
{
    let u = s.drop_first();
    let x = s[0];
    let t = sorted_rows(u, pred, ord);
    let r = sorted_rows(s, pred, ord);
    lemma_sorted_rows_members(u, pred, ord);
    lemma_sorted_rows_ordered(u, pred, ord);
    let p = insert_position(t, x, pred, ord) as int;
    lemma_insert_position(t, x, pred, ord);
    lemma_insert_split(t, x, pred, ord, p);
    if i == 0 {
        assert(s[j] == u[j - 1]);
        lemma_sorted_rows_members_complete(u, pred, ord, j - 1);
        let m = choose|m: int| 0 <= m < t.len() && t[m] == u[j - 1];
        if m < p {
            assert(precedes(t[m], x, pred, ord));
            lemma_lex_asym(key_of(x, pred), key_of(x, pred));
        }
        assert(r[p] == s[i] && r[m + 1] == s[j]);
    } else {
        assert(s[i] == u[i - 1] && s[j] == u[j - 1]);
        lemma_sort_stable(u, pred, ord, i - 1, j - 1);
        let (a, b) = choose|a: int, b: int|
            0 <= a < b < t.len() && #[trigger] t[a] == u[i - 1] && #[trigger] t[b] == u[j - 1];
        let a2 = if a < p {
            a
        } else {
            a + 1
        };
        let b2 = if b < p {
            b
        } else {
            b + 1
        };
        assert(r[a2] == s[i] && r[b2] == s[j]);
    }
}

/// No two rows of `s` have the same key in the column `pred`.
pub open spec fn keys_distinct(s: Seq<Process>, pred: TableSortPredicate) -> bool {
    forall|i: int, j: int|
        0 <= i < s.len() && 0 <= j < s.len() && i != j ==> key_of(s[i], pred) != key_of(
            s[j],
            pred,
        )
}

/// Where no two rows share a key, the descending table is the ascending one
/// read backwards.
pub proof fn lemma_descending_reverses_ascending(s: Seq<Process>, pred: TableSortPredicate)
    requires
        keys_distinct(s, pred),
    ensures
        sorted_rows(s, pred, TableSort::Descending) == sorted_rows(
            s,
            pred,
            TableSort::Ascending,
        ).reverse(),
    decreases s.len(),
{
    if s.len() == 0 {
        assert(s.reverse() =~= s);
    } else {
        let asc = TableSort::Ascending;
        let desc = TableSort::Descending;
        let u = s.drop_first();
        let x = s[0];
        let kx = key_of(x, pred);
        assert forall|i: int, j: int|
            0 <= i < u.len() && 0 <= j < u.len() && i != j implies key_of(u[i], pred) != key_of(
            u[j],
            pred,
        ) by {
            assert(u[i] == s[i + 1] && u[j] == s[j + 1]);
        }
        lemma_descending_reverses_ascending(u, pred);
        let t = sorted_rows(u, pred, asc);
        let n = t.len() as int;
        lemma_sorted_rows_ordered(u, pred, asc);
        lemma_sorted_rows_members(u, pred, asc);
        let p = insert_position(t, x, pred, asc) as int;
        lemma_insert_position(t, x, pred, asc);
        lemma_insert_split(t, x, pred, asc, p);
        let rt = t.reverse();
        assert forall|q: int| 0 <= q < n implies key_of(#[trigger] t[q], pred) != kx by {
            let k = choose|k: int| 0 <= k < u.len() && t[q] == u[k];
            assert(t[q] == s[k + 1]);
        }
        assert forall|k: int| 0 <= k < n - p implies precedes(#[trigger] rt[k], x, pred, desc) by {
            let q = n - 1 - k;
            assert(rt[k] == t[q]);
            let kq = key_of(t[q], pred);
            lemma_lex_total(kx, kq);
            if lex_lt(kq, kx) {
                if q > p {
                    assert(!precedes(t[q], t[p], pred, asc));
                }
                lemma_lex_split(kx, key_of(t[p], pred), kq);
            }
        }
        if p > 0 {
            assert(rt[n - p] == t[p - 1]);
            lemma_lex_asym(key_of(t[p - 1], pred), kx);
        }
        lemma_insert_split(rt, x, pred, desc, n - p);
        assert((t.subrange(0, p) + seq![x] + t.subrange(p, n)).reverse() =~= rt.subrange(0, n - p)
            + seq![x] + rt.subrange(n - p, n));
    }
}

/// The bytes of the column that `pred` selects.
fn key_bytes(p: &Process, pred: TableSortPredicate) -> (r: &[u8])
    ensures
        r@ == key_of(*p, pred),
{
    match pred {
        TableSortPredicate::PID => p.pid.as_str().as_bytes(),
        TableSortPredicate::Name => p.name.as_str().as_bytes(),
        TableSortPredicate::User => p.user.as_str().as_bytes(),
        TableSortPredicate::CPU => p.cpu_usage.as_str().as_bytes(),
        TableSortPredicate::Memory => p.memory_usage.as_str().as_bytes(),
        TableSortPredicate::Status => p.status.as_str().as_bytes(),
    }
}

/// Whether `a` belongs strictly before `b` in the table ordered by `pred` and `ord`.
pub fn row_precedes(a: &Process, b: &Process, pred: TableSortPredicate, ord: TableSort) -> (r:
    bool)
    ensures
        r == precedes(*a, *b, pred, ord),
{
    match ord {
        TableSort::Ascending => bytes_lt(key_bytes(a, pred), key_bytes(b, pred)),
        TableSort::Descending => bytes_lt(key_bytes(b, pred), key_bytes(a, pred)),
    }
}

/// Stable sort of the rows by the column `pred` in the direction `ord`.
pub fn sort_rows(rows: Vec<Process>, pred: TableSortPredicate, ord: TableSort) -> (r: Vec<
    Process,
>)
    ensures
        r@ == sorted_rows(rows@, pred, ord),
{
    let ghost all = rows@;
    let mut rest = rows;
    let mut out: Vec<Process> = Vec::new();
    assert(all.subrange(all.len() as int, all.len() as int) =~= Seq::<Process>::empty());
    while rest.len() > 0
        invariant
            rest@ == all.subrange(0, rest@.len() as int),
            rest@.len() <= all.len(),
            out@ == sorted_rows(all.subrange(rest@.len() as int, all.len() as int), pred, ord),
        decreases rest@.len(),
    {
        let ghost k = rest@.len() as int;
        let x = rest.pop().unwrap();
        let mut j: usize = 0;
        while j < out.len() && row_precedes(&out[j], &x, pred, ord)
            invariant
                j <= out@.len(),
                forall|m: int| 0 <= m < j ==> precedes(#[trigger] out@[m], x, pred, ord),
            decreases out@.len() - j,
        {
            j = j + 1;
        }
        proof {
            lemma_insert_split(out@, x, pred, ord, j as int);
            assert(all.subrange(k - 1, all.len() as int).drop_first() =~= all.subrange(
                k,
                all.len() as int,
            ));
            assert(out@.insert(j as int, x) =~= out@.subrange(0, j as int) + seq![x]
                + out@.subrange(j as int, out@.len() as int));
        }
        out.insert(j, x);
    }
    assert(all.subrange(0, all.len() as int) =~= all);
    out
}


/// The name of the user with id `uid`; "N/A" where the process has no user
/// id or the provider knows no user with it.
pub fn get_username_for_id(uid: Option<&sysinfo::Uid>, sysinfo: &sysinfo::System) -> (r: String)
    ensures
        uid is None ==> r@ == not_available(),
{
    match uid {
        Some(uid) => or_not_available(user_name_by_id(sysinfo, uid)),
        None => or_not_available(None),
    }
}

/// A table row from a listed process and the name of its user.
pub fn row_from(record: &ProcessRecord, user: String) -> (r: Process)
    ensures
        r.pid@ == record.pid@,
        r.name@ == record.name@,
        r.user@ == user@,
        r.cpu_usage@ == record.cpu_usage@,
        r.memory_usage@ == record.memory_usage@,
        r.status@ == record.status@,
{
    Process {
        pid: record.pid.clone(),
        name: record.name.clone(),
        user,
        cpu_usage: record.cpu_usage.clone(),
        memory_usage: record.memory_usage.clone(),
        status: record.status.clone(),
    }
}

/// The table rows for the listed processes, one for each, in the same order.
/// A process without a user id gets "N/A" as its user.
pub fn build_rows(records: &Vec<ProcessRecord>, system: &sysinfo::System) -> (r: Vec<Process>)
    ensures
        r@.len() == records@.len(),
        forall|k: int|
            0 <= k < r@.len() ==> {
                &&& (#[trigger] r@[k]).pid@ == records@[k].pid@
                &&& r@[k].name@ == records@[k].name@
                &&& r@[k].cpu_usage@ == records@[k].cpu_usage@
                &&& r@[k].memory_usage@ == records@[k].memory_usage@
                &&& r@[k].status@ == records@[k].status@
                &&& records@[k].user_id is None ==> r@[k].user@ == not_available()
            },
{
    let mut rows: Vec<Process> = Vec::new();
    let mut i: usize = 0;
    while i < records.len()
        invariant
            i <= records@.len(),
            rows@.len() == i,
            forall|k: int|
                0 <= k < i ==> {
                    &&& (#[trigger] rows@[k]).pid@ == records@[k].pid@
                    &&& rows@[k].name@ == records@[k].name@
                    &&& rows@[k].cpu_usage@ == records@[k].cpu_usage@
                    &&& rows@[k].memory_usage@ == records@[k].memory_usage@
                    &&& rows@[k].status@ == records@[k].status@
                    &&& records@[k].user_id is None ==> rows@[k].user@ == not_available()
                },
        decreases records@.len() - i,
    {
        let record = &records[i];
        let user = match &record.user_id {
            Some(uid) => get_username_for_id(Some(uid), system),
            None => get_username_for_id(None, system),
        };
        rows.push(row_from(record, user));
        i = i + 1;
    }
    rows
}

/// What the process table shows: its order and its rows.
pub struct ProcessTable {
    pub predicate: TableSortPredicate,
    pub order: TableSort,
    pub rows: Seq<Process>,
}

/// The process table, kept sorted by its column and direction.
pub struct ProcessesView {
    sort_predicate: TableSortPredicate,
    sort_order: TableSort,
    processes: Vec<Process>,
}

impl View for ProcessesView {
    type V = ProcessTable;

    closed spec fn view(&self) -> ProcessTable {
        ProcessTable {
            predicate: self.sort_predicate,
            order: self.sort_order,
            rows: self.processes@,
        }
    }
}

impl ProcessesView {
    /// An empty table ordered by name, ascending.
    pub fn new() -> (r: Self)
        ensures
            r@ == (ProcessTable {
                predicate: TableSortPredicate::Name,
                order: TableSort::Ascending,
                rows: Seq::empty(),
            }),
    {
        ProcessesView {
            sort_predicate: TableSortPredicate::Name,
            sort_order: TableSort::Ascending,
            processes: Vec::new(),
        }
    }

    /// Arrow keys reach the table; it keeps no selection of its own, so
    /// nothing changes.
    pub fn handle_arrow_keys(&self, key: Key) {
    }

    /// The rows, in table order.
    pub fn rows(&self) -> (r: &Vec<Process>)
        ensures
            r@ == self@.rows,
    {
        &self.processes
    }

    pub fn sort_predicate(&self) -> (r: TableSortPredicate)
        ensures
            r == self@.predicate,
    {
        self.sort_predicate
    }

    pub fn sort_order(&self) -> (r: TableSort)
        ensures
            r == self@.order,
    {
        self.sort_order
    }

    /// Orders the rows by the current column and direction.
    pub fn sort(&mut self)
        ensures
            final(self)@ == (ProcessTable {
                rows: sorted_rows(old(self)@.rows, old(self)@.predicate, old(self)@.order),
                ..old(self)@
            }),
    {
        let mut rows: Vec<Process> = Vec::new();
        std::mem::swap(&mut rows, &mut self.processes);
        self.processes = sort_rows(rows, self.sort_predicate, self.sort_order);
    }

    /// Orders the table by the column `predicate`, keeping the direction.
    pub fn sort_by(&mut self, predicate: TableSortPredicate)
        ensures
            final(self)@ == (ProcessTable {
                predicate,
                order: old(self)@.order,
                rows: sorted_rows(old(self)@.rows, predicate, old(self)@.order),
            }),
    {
        self.sort_predicate = predicate;
        self.sort();
    }

    /// Turns the direction of the order around and sorts again.
    pub fn toggle_sort_order(&mut self)
        ensures
            final(self)@ == (ProcessTable {
                predicate: old(self)@.predicate,
                order: reversed(old(self)@.order),
                rows: sorted_rows(old(self)@.rows, old(self)@.predicate, reversed(old(self)@.order)),
            }),
    {
        self.sort_order.reverse();
        self.sort();
    }

    /// Replaces the rows by `rows`, in table order.
    pub fn set_rows(&mut self, rows: Vec<Process>)
        ensures
            final(self)@ == (ProcessTable {
                rows: sorted_rows(rows@, old(self)@.predicate, old(self)@.order),
                ..old(self)@
            }),
    {
        self.processes = sort_rows(rows, self.sort_predicate, self.sort_order);
    }

    /// Rebuilds the rows from the processes that `system` lists, resolving
    /// each one's user, and sorts them.
    pub fn refresh(&mut self, system: &sysinfo::System)
        ensures
            final(self)@.predicate == old(self)@.predicate,
            final(self)@.order == old(self)@.order,
            is_ordered(final(self)@.rows, final(self)@.predicate, final(self)@.order),
    {
        let records = process_records(system);
        let rows = build_rows(&records, system);
        self.set_rows(rows);
        proof {
            lemma_sorted_rows_ordered(rows@, self@.predicate, self@.order);
        }
    }
}

} // verus!
