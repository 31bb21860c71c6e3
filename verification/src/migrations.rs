//! Schema migrations: which of the known migrations still have to run.

use vstd::prelude::*;

use crate::text::{owned, str_eq};

verus! {

/// The schema versions, in the order they are applied.
pub open spec fn migration_versions() -> Seq<Seq<char>> {
    seq![
        "001_initial"@,
        "002_add_job_completion_fields"@,
        "003_add_thread_message_unique_indices"@,
        "004_add_org_user_columns"@,
    ]
}

/// The schema versions, in the order they are applied.
pub fn known_migration_versions() -> (r: Vec<String>)
    ensures
        r@.map_values(|v: String| v@) == migration_versions(),
{
    let mut r: Vec<String> = Vec::new();
    r.push(owned("001_initial"));
    r.push(owned("002_add_job_completion_fields"));
    r.push(owned("003_add_thread_message_unique_indices"));
    r.push(owned("004_add_org_user_columns"));
    assert(r@.map_values(|v: String| v@) =~= migration_versions());
    r
}

/// The versions among `versions` not yet recorded in `applied`, in order.
pub open spec fn pending_spec(versions: Seq<Seq<char>>, applied: Seq<Seq<char>>) -> Seq<Seq<char>>
    decreases versions.len(),
{
    if versions.len() == 0 {
        Seq::empty()
    } else {
        let rest = pending_spec(versions.drop_last(), applied);
        if applied.contains(versions.last()) {
            rest
        } else {
            rest.push(versions.last())
        }
    }
}

fn is_applied(applied: &Vec<String>, version: &str) -> (r: bool)
    ensures
        r == applied@.map_values(|v: String| v@).contains(version@),
{
    let ghost av = applied@.map_values(|v: String| v@);
    let mut k: usize = 0;
    while k < applied.len()
        invariant
            k <= applied.len(),
            av == applied@.map_values(|v: String| v@),
            forall|j: int| 0 <= j < k ==> av[j] != version@,
        decreases applied.len() - k,
    {
        if str_eq(applied[k].as_str(), version) {
            assert(av[k as int] == version@);
            return true;
        }
        k = k + 1;
    }
    false
}

/// The migrations still to run: those of `versions` whose version is not
/// among the `applied` ones, in their order.
pub fn pending_migrations(versions: &Vec<String>, applied: &Vec<String>) -> (r: Vec<String>)
    ensures
        r@.map_values(|v: String| v@) == pending_spec(
            versions@.map_values(|v: String| v@),
            applied@.map_values(|v: String| v@),
        ),
{
    let ghost vv = versions@.map_values(|v: String| v@);
    let ghost av = applied@.map_values(|v: String| v@);
    let mut r: Vec<String> = Vec::new();
    let mut i: usize = 0;
    while i < versions.len()
        invariant
            i <= versions.len(),
            vv == versions@.map_values(|v: String| v@),
            av == applied@.map_values(|v: String| v@),
            r@.map_values(|v: String| v@) == pending_spec(vv.take(i as int), av),
        decreases versions.len() - i,
    {
        assert(vv.take(i + 1).drop_last() =~= vv.take(i as int));
        assert(vv.take(i + 1).last() == versions@[i as int]@);
        if !is_applied(applied, versions[i].as_str()) {
            let ghost before = r@;
            r.push(versions[i].clone());
            assert(r@.map_values(|v: String| v@) =~= before.map_values(|v: String| v@).push(versions@[i as int]@));
        }
        i = i + 1;
    }
    assert(vv.take(versions.len() as int) =~= vv);
    r
}

proof fn lemma_pending_not_applied(versions: Seq<Seq<char>>, applied: Seq<Seq<char>>, x: Seq<char>)
    ensures
        pending_spec(versions, applied).contains(x) ==> versions.contains(x) && !applied.contains(x),
    decreases versions.len(),
{
    if versions.len() > 0 {
        lemma_pending_not_applied(versions.drop_last(), applied, x);
        let rest = pending_spec(versions.drop_last(), applied);
        if pending_spec(versions, applied).contains(x) {
            let q = choose|q: int| 0 <= q < pending_spec(versions, applied).len() && pending_spec(versions, applied)[q] == x;
            if q < rest.len() {
                assert(rest[q] == x);
                let j = choose|j: int| 0 <= j < versions.drop_last().len() && versions.drop_last()[j] == x;
                assert(versions[j] == x);
            } else {
                assert(versions[versions.len() - 1] == x);
            }
        }
    }
}

/// Running migrations is idempotent and complete: a pending migration is a
/// known one not yet applied, and once every known version has been recorded
/// as applied nothing is pending any more.
pub proof fn lemma_migrations_idempotent(versions: Seq<Seq<char>>, applied: Seq<Seq<char>>, x: Seq<char>)
    ensures
        pending_spec(versions, applied).contains(x) ==> versions.contains(x) && !applied.contains(x),
        (forall|v: Seq<char>| versions.contains(v) ==> applied.contains(v)) ==> pending_spec(versions, applied).len()
            == 0,
    decreases versions.len(),
{
    lemma_pending_not_applied(versions, applied, x);
    if versions.len() > 0 {
        if forall|v: Seq<char>| versions.contains(v) ==> applied.contains(v) {
            assert forall|v: Seq<char>| versions.drop_last().contains(v) implies applied.contains(v) by {
                let j = choose|j: int| 0 <= j < versions.drop_last().len() && versions.drop_last()[j] == v;
                assert(versions[j] == v);
            }
            lemma_migrations_idempotent(versions.drop_last(), applied, x);
            assert(versions.contains(versions[versions.len() - 1]));
        }
    }
}

} // verus!
