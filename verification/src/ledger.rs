//! A model of what the service keeps between requests (the accounts' usage
//! and quotas, the recorded files, and the stored blobs) and the proof that
//! each request's effects keep it consistent.

use vstd::prelude::*;

use crate::routes::file::{usage_after_delete, usage_after_upload};

verus! {

/// A recorded file: its id, its owner's account id and its size.
pub type FileRow = (Seq<char>, int, int);

/// The usage the recorded files `rows` add up to for account `user`.
pub open spec fn usage_of(rows: Seq<FileRow>, user: int) -> int
    decreases rows.len(),
{
    if rows.len() == 0 {
        0
    } else {
        usage_of(rows.drop_last(), user) + if rows.last().1 == user {
            rows.last().2
        } else {
            0
        }
    }
}

/// The recorded files `rows` without those of account `user`.
pub open spec fn without_owner(rows: Seq<FileRow>, user: int) -> Seq<FileRow>
    decreases rows.len(),
{
    if rows.len() == 0 {
        rows
    } else if rows.last().1 == user {
        without_owner(rows.drop_last(), user)
    } else {
        without_owner(rows.drop_last(), user).push(rows.last())
    }
}

/// The ids of the files of account `user` among `rows`.
pub open spec fn ids_owned_by(rows: Seq<FileRow>, user: int) -> Set<Seq<char>> {
    Set::new(|id: Seq<char>| exists|i: int| 0 <= i < rows.len() && rows[i].1 == user && rows[i].0 == id)
}

/// No two recorded files share an id.
pub open spec fn ids_distinct(rows: Seq<FileRow>) -> bool {
    forall|i: int, j: int| 0 <= i < j < rows.len() ==> rows[i].0 != rows[j].0
}

/// The service's state is consistent: every account's usage lies between 0
/// and its quota and is the sum of the sizes of its recorded files; every
/// recorded file has a non-negative size, a distinct id and a stored blob.
/// `accounts` maps an account id to its (usage, quota).
pub open spec fn ledger_consistent(
    accounts: Map<int, (int, int)>,
    rows: Seq<FileRow>,
    stored: Set<Seq<char>>,
) -> bool {
    &&& forall|u: int|
        #[trigger] accounts.contains_key(u) ==> 0 <= accounts[u].0 <= accounts[u].1
            && accounts[u].0 == usage_of(rows, u)
    &&& forall|i: int|
        #![trigger rows[i]]
        0 <= i < rows.len() ==> rows[i].2 >= 0 && stored.contains(rows[i].0)
    &&& ids_distinct(rows)
}

/// Recording a row charges its owner exactly what `usage_after_upload` adds
/// and leaves every other account's usage as it was.
pub proof fn lemma_upload_keeps_usage_in_step(rows: Seq<FileRow>, row: FileRow, user: int)
    ensures
        usage_of(rows.push(row), user) == if user == row.1 {
            usage_after_upload(usage_of(rows, user), row.2)
        } else {
            usage_of(rows, user)
        },
{
    assert(rows.push(row).drop_last() =~= rows);
}

/// Removing a deleted file's row refunds its owner exactly what
/// `usage_after_delete` takes off and leaves every other account's usage as
/// it was.
pub proof fn lemma_delete_keeps_usage_in_step(rows: Seq<FileRow>, i: int, user: int)
    requires
        0 <= i < rows.len(),
    ensures
        usage_of(rows.remove(i), user) == if user == rows[i].1 {
            usage_after_delete(usage_of(rows, user), rows[i].2)
        } else {
            usage_of(rows, user)
        },
    decreases rows.len(),
{
    if i == rows.len() - 1 {
        assert(rows.remove(i) =~= rows.drop_last());
    } else {
        lemma_delete_keeps_usage_in_step(rows.drop_last(), i, user);
        assert(rows.remove(i).drop_last() =~= rows.drop_last().remove(i));
        assert(rows.remove(i).last() == rows.last());
    }
}

/// Removing all of an account's rows, as a purge does, leaves it no usage
/// and every other account's usage as it was.
pub proof fn lemma_purge_keeps_usage_in_step(rows: Seq<FileRow>, owner: int, user: int)
    ensures
        usage_of(without_owner(rows, owner), user) == if user == owner {
            0
        } else {
            usage_of(rows, user)
        },
    decreases rows.len(),
{
    if rows.len() > 0 {
        lemma_purge_keeps_usage_in_step(rows.drop_last(), owner, user);
        let rest = without_owner(rows.drop_last(), owner);
        if rows.last().1 != owner {
            assert(rest.push(rows.last()).drop_last() =~= rest);
        }
    }
}

proof fn lemma_without_owner_rows(rows: Seq<FileRow>, owner: int)
    ensures
        forall|k: int|
            #![trigger without_owner(rows, owner)[k]]
            0 <= k < without_owner(rows, owner).len() ==> without_owner(rows, owner)[k].1 != owner
                && exists|j: int| 0 <= j < rows.len() && rows[j] == without_owner(rows, owner)[k],
        ids_distinct(rows) ==> ids_distinct(without_owner(rows, owner)),
    decreases rows.len(),
{
    if rows.len() > 0 {
        let prev = rows.drop_last();
        lemma_without_owner_rows(prev, owner);
        let rest = without_owner(prev, owner);
        let w = without_owner(rows, owner);
        assert forall|k: int| #![trigger w[k]] 0 <= k < w.len() implies w[k].1 != owner && exists|j: int|
            0 <= j < rows.len() && rows[j] == w[k] by {
            if k < rest.len() {
                assert(w[k] == rest[k]);
                let j = choose|j: int| 0 <= j < prev.len() && prev[j] == rest[k];
                assert(rows[j] == w[k]);
            } else {
                assert(w[k] == rows.last());
                assert(rows[rows.len() - 1] == w[k]);
            }
        }
        if ids_distinct(rows) {
            assert(ids_distinct(prev));
            assert forall|a: int, b: int| 0 <= a < b < w.len() implies w[a].0 != w[b].0 by {
                if b < rest.len() {
                    assert(w[a] == rest[a] && w[b] == rest[b]);
                } else {
                    assert(w[b] == rows.last());
                    assert(w[a] == rest[a]);
                    let j = choose|j: int| 0 <= j < prev.len() && prev[j] == rest[a];
                    assert(rows[j] == prev[j]);
                    assert(rows[rows.len() - 1] == rows.last());
                }
            }
        }
    }
}

proof fn lemma_usage_nonnegative(rows: Seq<FileRow>, user: int, i: int)
    requires
        forall|k: int| 0 <= k < rows.len() ==> #[trigger] rows[k].2 >= 0,
        0 <= i < rows.len(),
        rows[i].1 == user,
    ensures
        usage_of(rows, user) >= rows[i].2,
    decreases rows.len(),
{
    if i < rows.len() - 1 {
        lemma_usage_nonnegative(rows.drop_last(), user, i);
    } else {
        lemma_usage_total_nonnegative(rows.drop_last(), user);
    }
}

proof fn lemma_usage_total_nonnegative(rows: Seq<FileRow>, user: int)
    requires
        forall|k: int| 0 <= k < rows.len() ==> #[trigger] rows[k].2 >= 0,
    ensures
        usage_of(rows, user) >= 0,
    decreases rows.len(),
{
    if rows.len() > 0 {
        lemma_usage_total_nonnegative(rows.drop_last(), user);
    }
}

/// An accepted upload keeps the state consistent: it records a row for the
/// new file (`uuid`, owned by `owner`, of `size` bytes), stores its blob and
/// charges its owner, whose usage stays within quota as `prepare_upload`
/// ensures. The new id must not be on record already (UUIDs are random).
/// A refused upload changes nothing, so it keeps the state consistent too.
pub proof fn lemma_upload_keeps_ledger_consistent(
    accounts: Map<int, (int, int)>,
    rows: Seq<FileRow>,
    stored: Set<Seq<char>>,
    uuid: Seq<char>,
    owner: int,
    size: int,
)
    requires
        ledger_consistent(accounts, rows, stored),
        accounts.contains_key(owner),
        0 <= size,
        usage_after_upload(accounts[owner].0, size) <= accounts[owner].1,
        forall|i: int| 0 <= i < rows.len() ==> #[trigger] rows[i].0 != uuid,
    ensures
        ledger_consistent(
            accounts.insert(owner, (usage_after_upload(accounts[owner].0, size), accounts[owner].1)),
            rows.push((uuid, owner, size)),
            stored.insert(uuid),
        ),
{
    let rows2 = rows.push((uuid, owner, size));
    let accounts2 = accounts.insert(
        owner,
        (usage_after_upload(accounts[owner].0, size), accounts[owner].1),
    );
    assert forall|u: int| #[trigger] accounts2.contains_key(u) implies 0 <= accounts2[u].0
        <= accounts2[u].1 && accounts2[u].0 == usage_of(rows2, u) by {
        lemma_upload_keeps_usage_in_step(rows, (uuid, owner, size), u);
    }
    assert forall|i: int| #![trigger rows2[i]] 0 <= i < rows2.len() implies rows2[i].2 >= 0
        && stored.insert(uuid).contains(rows2[i].0) by {
        if i < rows.len() {
            assert(rows2[i] == rows[i]);
        } else {
            assert(rows2[i] == (uuid, owner, size));
        }
    }
    assert forall|a: int, b: int| 0 <= a < b < rows2.len() implies rows2[a].0 != rows2[b].0 by {
        if b < rows.len() {
            assert(rows2[a] == rows[a] && rows2[b] == rows[b]);
        } else {
            assert(rows2[a] == rows[a]);
        }
    }
}

/// A confirmed deletion keeps the state consistent: it removes the file's
/// row (the `i`th) and its blob, and refunds its owner the file's size, as
/// the `DeletePlan` that `confirm_delete` gives says.
pub proof fn lemma_delete_keeps_ledger_consistent(
    accounts: Map<int, (int, int)>,
    rows: Seq<FileRow>,
    stored: Set<Seq<char>>,
    i: int,
)
    requires
        ledger_consistent(accounts, rows, stored),
        0 <= i < rows.len(),
        accounts.contains_key(rows[i].1),
    ensures
        ledger_consistent(
            accounts.insert(
                rows[i].1,
                (usage_after_delete(accounts[rows[i].1].0, rows[i].2), accounts[rows[i].1].1),
            ),
            rows.remove(i),
            stored.remove(rows[i].0),
        ),
{
    let owner = rows[i].1;
    let rows2 = rows.remove(i);
    let stored2 = stored.remove(rows[i].0);
    let accounts2 = accounts.insert(
        owner,
        (usage_after_delete(accounts[owner].0, rows[i].2), accounts[owner].1),
    );
    lemma_usage_nonnegative(rows, owner, i);
    assert forall|u: int| #[trigger] accounts2.contains_key(u) implies 0 <= accounts2[u].0
        <= accounts2[u].1 && accounts2[u].0 == usage_of(rows2, u) by {
        lemma_delete_keeps_usage_in_step(rows, i, u);
    }
    assert forall|k: int| #![trigger rows2[k]] 0 <= k < rows2.len() implies rows2[k].2 >= 0
        && stored2.contains(rows2[k].0) by {
        if k < i {
            assert(rows2[k] == rows[k]);
        } else {
            assert(rows2[k] == rows[k + 1]);
        }
    }
    assert forall|a: int, b: int| 0 <= a < b < rows2.len() implies rows2[a].0 != rows2[b].0 by {
        let ja = if a < i { a } else { a + 1 };
        let jb = if b < i { b } else { b + 1 };
        assert(rows2[a] == rows[ja] && rows2[b] == rows[jb]);
    }
}

/// A purge keeps the state consistent: it removes all of the account's
/// rows and their blobs, and sets its usage to 0.
pub proof fn lemma_purge_keeps_ledger_consistent(
    accounts: Map<int, (int, int)>,
    rows: Seq<FileRow>,
    stored: Set<Seq<char>>,
    owner: int,
)
    requires
        ledger_consistent(accounts, rows, stored),
        accounts.contains_key(owner),
    ensures
        ledger_consistent(
            accounts.insert(owner, (0, accounts[owner].1)),
            without_owner(rows, owner),
            stored.difference(ids_owned_by(rows, owner)),
        ),
{
    let rows2 = without_owner(rows, owner);
    let stored2 = stored.difference(ids_owned_by(rows, owner));
    let accounts2 = accounts.insert(owner, (0, accounts[owner].1));
    lemma_without_owner_rows(rows, owner);
    assert forall|u: int| #[trigger] accounts2.contains_key(u) implies 0 <= accounts2[u].0
        <= accounts2[u].1 && accounts2[u].0 == usage_of(rows2, u) by {
        lemma_purge_keeps_usage_in_step(rows, owner, u);
    }
    assert forall|k: int| #![trigger rows2[k]] 0 <= k < rows2.len() implies rows2[k].2 >= 0
        && stored2.contains(rows2[k].0) by {
        let j = choose|j: int| 0 <= j < rows.len() && rows[j] == rows2[k];
        assert(rows[j].2 >= 0 && stored.contains(rows[j].0));
        if ids_owned_by(rows, owner).contains(rows2[k].0) {
            let m = choose|m: int| 0 <= m < rows.len() && rows[m].1 == owner && rows[m].0 == rows2[k].0;
            assert(m != j);
            if m < j {
                assert(rows[m].0 != rows[j].0);
            } else {
                assert(rows[j].0 != rows[m].0);
            }
        }
    }
}

} // verus!
