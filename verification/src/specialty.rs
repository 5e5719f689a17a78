use vstd::prelude::*;
use crate::errors::{exhausted_message, CommandError, MyError};
use crate::models::{NewSpecialite, Specialite};
use crate::store::{
    spec_specialite_nom_taken, spec_specialite_nom_taken_excluding, specialite_nom_taken,
    specialite_nom_taken_excluding, AppState, DbView,
};

verus! {

/// The specialty table after a delete by primary key: every row carrying
/// the identifier removed, the order of the rest kept.
pub open spec fn spec_delete_specialite_rows(s: Seq<Specialite>, id: i32) -> Seq<Specialite>
    decreases s.len(),
{
    if s.len() == 0 {
        Seq::empty()
    } else {
        let rest = spec_delete_specialite_rows(s.drop_last(), id);
        if s.last().id_specialite == id {
            rest
        } else {
            rest.push(s.last())
        }
    }
}

/// The specialty table after an update by primary key: the row carrying the
/// update's identifier takes its name and duration, every other row is
/// kept. An identifier no row carries updates nothing.
pub open spec fn spec_update_specialite_rows(s: Seq<Specialite>, sp: Specialite) -> Seq<
    Specialite,
> {
    s.map_values(
        |row: Specialite|
            if row.id_specialite == sp.id_specialite {
                sp
            } else {
                row
            },
    )
}

/// A delete by primary key keeps the table well formed: every kept row is
/// one of the stored rows, the identifier bounds and the pairwise
/// distinctness of identifiers and names carry over, and no kept row
/// carries the deleted identifier.
proof fn lemma_delete_specialite_rows_wf(s: Seq<Specialite>, id: i32, next: int)
    requires
        forall|i: int| 0 <= i < s.len() ==> 0 < (#[trigger] s[i]).id_specialite < next,
        forall|i: int, j: int|
            #![trigger s[i], s[j]]
            0 <= i < j < s.len() ==> s[i].id_specialite != s[j].id_specialite,
        forall|i: int, j: int|
            #![trigger s[i], s[j]]
            0 <= i < j < s.len() ==> s[i].nom@ != s[j].nom@,
    ensures
        spec_delete_specialite_rows(s, id).len() <= s.len(),
        forall|k: int|
            0 <= k < spec_delete_specialite_rows(s, id).len() ==> s.contains(
                #[trigger] spec_delete_specialite_rows(s, id)[k],
            ),
        forall|k: int|
            0 <= k < spec_delete_specialite_rows(s, id).len() ==> 0 < (
            #[trigger] spec_delete_specialite_rows(s, id)[k]).id_specialite < next,
        forall|k: int|
            0 <= k < spec_delete_specialite_rows(s, id).len() ==> (
            #[trigger] spec_delete_specialite_rows(s, id)[k]).id_specialite != id,
        forall|k1: int, k2: int|
            #![trigger spec_delete_specialite_rows(s, id)[k1], spec_delete_specialite_rows(s, id)[k2]]
            0 <= k1 < k2 < spec_delete_specialite_rows(s, id).len()
                ==> spec_delete_specialite_rows(s, id)[k1].id_specialite
                != spec_delete_specialite_rows(s, id)[k2].id_specialite,
        forall|k1: int, k2: int|
            #![trigger spec_delete_specialite_rows(s, id)[k1], spec_delete_specialite_rows(s, id)[k2]]
            0 <= k1 < k2 < spec_delete_specialite_rows(s, id).len()
                ==> spec_delete_specialite_rows(s, id)[k1].nom@
                != spec_delete_specialite_rows(s, id)[k2].nom@,
    decreases s.len(),
{
    let out = spec_delete_specialite_rows(s, id);
    if s.len() == 0 {
    } else {
        let prefix = s.drop_last();
        let last = s.last();
        lemma_delete_specialite_rows_wf(prefix, id, next);
        let rest = spec_delete_specialite_rows(prefix, id);
        assert forall|k: int| 0 <= k < out.len() implies s.contains(#[trigger] out[k]) by {
            if k < rest.len() {
                assert(prefix.contains(rest[k]));
                let j = choose|j: int| 0 <= j < prefix.len() && prefix[j] == rest[k];
                assert(s[j] == out[k]);
            } else {
                assert(out[k] == s[s.len() - 1]);
            }
        }
        if last.id_specialite != id {
            assert(out == rest.push(last));
            assert forall|k1: int, k2: int|
                #![trigger out[k1], out[k2]]
                0 <= k1 < k2 < out.len() implies out[k1].id_specialite != out[k2].id_specialite
                && out[k1].nom@ != out[k2].nom@ by {
                if k2 < rest.len() {
                    assert(out[k1] == rest[k1] && out[k2] == rest[k2]);
                } else {
                    assert(out[k2] == last);
                    assert(prefix.contains(rest[k1]));
                    let j = choose|j: int| 0 <= j < prefix.len() && prefix[j] == rest[k1];
                    assert(s[j] == out[k1] && s[s.len() - 1] == last);
                }
            }
        }
    }
}

/// Deleting an identifier no specialty row carries leaves the table
/// unchanged: the delete is idempotent and touches zero rows.
pub proof fn lemma_delete_specialite_absent_noop(s: Seq<Specialite>, id: i32)
    requires
        forall|i: int| 0 <= i < s.len() ==> (#[trigger] s[i]).id_specialite != id,
    ensures
        spec_delete_specialite_rows(s, id) == s,
    decreases s.len(),
{
    if s.len() == 0 {
        assert(spec_delete_specialite_rows(s, id) =~= s);
    } else {
        lemma_delete_specialite_absent_noop(s.drop_last(), id);
        assert(spec_delete_specialite_rows(s, id) =~= s);
    }
}

/// With names pairwise distinct, no row other than a table's own row
/// carries that row's name: updating a row to its unchanged name passes
/// the duplicate pre-check.
pub proof fn lemma_modify_own_name_passes(db: DbView, i: int)
    requires
        db.wf(),
        0 <= i < db.specialites.len(),
    ensures
        !spec_specialite_nom_taken_excluding(
            db.specialites,
            db.specialites[i].nom@,
            db.specialites[i].id_specialite,
        ),
{
    let s = db.specialites;
    if spec_specialite_nom_taken_excluding(s, s[i].nom@, s[i].id_specialite) {
        let j = choose|j: int|
            0 <= j < s.len() && (#[trigger] s[j]).nom@ == s[i].nom@ && s[j].id_specialite
                != s[i].id_specialite;
        assert(s[i].nom@ == s[j].nom@ && i != j);
        assert(false);
    }
}

/// Lists every specialty row, in table order.
pub fn get_specialites(state: &AppState) -> (r: Result<Vec<Specialite>, CommandError>)
    ensures
        state@ is None <==> r is Err,
        r matches Err(e) ==> e is NotConnected,
        r matches Ok(v) ==> state@ matches Some(db) && v@ == db.specialites,
{
    match &state.pool {
        None => Err(CommandError::NotConnected),
        Some(db) => Ok(clone_specialites(&db.specialites)),
    }
}

/// Copies the specialty table row by row.
fn clone_specialites(s: &Vec<Specialite>) -> (r: Vec<Specialite>)
    ensures
        r@ == s@,
{
    let n: usize = s.len();
    let mut out: Vec<Specialite> = Vec::new();
    let mut i: usize = 0;
    while i < n
        invariant
            i <= n,
            n == s@.len(),
            out@ == s@.subrange(0, i as int),
        decreases n - i,
    {
        out.push(s[i].clone());
        proof {
            assert(s@.subrange(0, i as int + 1) =~= s@.subrange(0, i as int).push(s@[i as int]));
        }
        i = i + 1;
    }
    proof {
        assert(s@.subrange(0, n as int) =~= s@);
    }
    out
}

/// Inserts a specialty after the duplicate pre-check: if any stored row
/// already carries the name, nothing is written and the duplicate is
/// reported; otherwise the row is appended under the next serial
/// identifier.
pub fn add_specialite(state: &mut AppState, specialite: NewSpecialite) -> (r: Result<
    (),
    CommandError,
>)
    requires
        old(state).wf(),
    ensures
        final(state).wf(),
        (match old(state)@ {
            None => r matches Err(e) && e is NotConnected && final(state)@ is None,
            Some(db) => {
                if spec_specialite_nom_taken(db.specialites, specialite.nom@) {
                    r matches Err(e) && e is DuplicateName && final(state)@ == Some(db)
                } else if db.next_specialite == i32::MAX {
                    r matches Err(e) && e matches CommandError::Query(m) && m.message@
                        == "id sequence exhausted"@ && final(state)@ == Some(db)
                } else {
                    &&& r is Ok
                    &&& final(state)@ matches Some(db2)
                    &&& db.same_except_specialites(db2)
                    &&& db2.specialites == db.specialites.push(
                        (Specialite {
                            id_specialite: db.next_specialite as i32,
                            nom: specialite.nom,
                            nombre_annees: specialite.nombre_annees,
                        }),
                    )
                    &&& db2.next_specialite == db.next_specialite + 1
                }
            },
        }),
{
    match &mut state.pool {
        None => Err(CommandError::NotConnected),
        Some(db) => {
            proof {
                assert(old(state)@ == Some(db@));
            }
            if specialite_nom_taken(&db.specialites, &specialite.nom) {
                Err(CommandError::DuplicateName)
            } else if db.next_specialite == i32::MAX {
                Err(CommandError::Query(MyError { message: exhausted_message() }))
            } else {
                let ghost pre = db@;
                let id: i32 = db.next_specialite;
                db.specialites.push(
                    Specialite {
                        id_specialite: id,
                        nom: specialite.nom,
                        nombre_annees: specialite.nombre_annees,
                    },
                );
                db.next_specialite = id + 1;
                proof {
                    lemma_add_specialite_wf(pre, db@, specialite);
                }
                Ok(())
            }
        },
    }
}

/// An insert of a fresh name under the next serial identifier keeps the
/// store well formed.
proof fn lemma_add_specialite_wf(pre: DbView, post: DbView, n: NewSpecialite)
    requires
        pre.wf(),
        !spec_specialite_nom_taken(pre.specialites, n.nom@),
        pre.next_specialite < i32::MAX,
        pre.same_except_specialites(post),
        post.specialites == pre.specialites.push(
            (Specialite {
                id_specialite: pre.next_specialite as i32,
                nom: n.nom,
                nombre_annees: n.nombre_annees,
            }),
        ),
        post.next_specialite == pre.next_specialite + 1,
    ensures
        post.wf(),
{
    let s1 = pre.specialites;
    let s2 = post.specialites;
    assert forall|i: int, j: int|
        #![trigger s2[i], s2[j]]
        0 <= i < j < s2.len() implies s2[i].id_specialite != s2[j].id_specialite && s2[i].nom@
        != s2[j].nom@ by {
        if j < s1.len() {
            assert(s2[i] == s1[i] && s2[j] == s1[j]);
        } else {
            assert(s2[i] == s1[i]);
            assert(s1[i].id_specialite < pre.next_specialite);
            assert(s1[i].nom@ != n.nom@);
        }
    }
    assert forall|i: int| 0 <= i < s2.len() implies 0 < (#[trigger] s2[i]).id_specialite
        < post.next_specialite by {
        if i < s1.len() {
            assert(s2[i] == s1[i]);
        }
    }
    assert(post.residents_wf()) by {
        assert(post.residents == pre.residents && post.next_resident == pre.next_resident);
    }
    assert(post.banques_wf()) by {
        assert(post.banques == pre.banques);
    }
}

/// Deletes the specialty with the given primary key. An identifier no row
/// carries deletes nothing and still succeeds.
pub fn delete_specialite(state: &mut AppState, id_specialite: i32) -> (r: Result<
    (),
    CommandError,
>)
    requires
        old(state).wf(),
    ensures
        final(state).wf(),
        (match old(state)@ {
            None => r matches Err(e) && e is NotConnected && final(state)@ is None,
            Some(db) => {
                &&& r is Ok
                &&& final(state)@ matches Some(db2)
                &&& db.same_except_specialites(db2)
                &&& db2.specialites == spec_delete_specialite_rows(db.specialites, id_specialite)
                &&& db2.next_specialite == db.next_specialite
            },
        }),
{
    match &mut state.pool {
        None => Err(CommandError::NotConnected),
        Some(db) => {
            proof {
                assert(old(state)@ == Some(db@));
            }
            let ghost pre = db@;
            let kept = remove_specialite_rows(&db.specialites, id_specialite);
            db.specialites = kept;
            proof {
                lemma_delete_specialite_wf(pre, db@, id_specialite);
            }
            Ok(())
        },
    }
}

/// Copies the specialty table, leaving out the rows with the identifier.
fn remove_specialite_rows(s: &Vec<Specialite>, id: i32) -> (r: Vec<Specialite>)
    ensures
        r@ == spec_delete_specialite_rows(s@, id),
{
    let n: usize = s.len();
    let mut out: Vec<Specialite> = Vec::new();
    let mut i: usize = 0;
    while i < n
        invariant
            i <= n,
            n == s@.len(),
            out@ == spec_delete_specialite_rows(s@.subrange(0, i as int), id),
        decreases n - i,
    {
        if s[i].id_specialite != id {
            out.push(s[i].clone());
        }
        proof {
            assert(s@.subrange(0, i as int + 1).drop_last() =~= s@.subrange(0, i as int));
            assert(s@.subrange(0, i as int + 1).last() == s@[i as int]);
        }
        i = i + 1;
    }
    proof {
        assert(s@.subrange(0, n as int) =~= s@);
    }
    out
}

/// Updates the specialty with the update's primary key, after the
/// duplicate pre-check that excludes the row itself: a row may keep its own
/// name, but may not take another row's.
pub fn modify_specialite(state: &mut AppState, specialite: Specialite) -> (r: Result<
    (),
    CommandError,
>)
    requires
        old(state).wf(),
    ensures
        final(state).wf(),
        (match old(state)@ {
            None => r matches Err(e) && e is NotConnected && final(state)@ is None,
            Some(db) => {
                if spec_specialite_nom_taken_excluding(
                    db.specialites,
                    specialite.nom@,
                    specialite.id_specialite,
                ) {
                    r matches Err(e) && e is DuplicateName && final(state)@ == Some(db)
                } else {
                    &&& r is Ok
                    &&& final(state)@ matches Some(db2)
                    &&& db.same_except_specialites(db2)
                    &&& db2.specialites == spec_update_specialite_rows(db.specialites, specialite)
                    &&& db2.next_specialite == db.next_specialite
                }
            },
        }),
{
    match &mut state.pool {
        None => Err(CommandError::NotConnected),
        Some(db) => {
            proof {
                assert(old(state)@ == Some(db@));
            }
            if specialite_nom_taken_excluding(
                &db.specialites,
                &specialite.nom,
                specialite.id_specialite,
            ) {
                Err(CommandError::DuplicateName)
            } else {
                let ghost pre = db@;
                let updated = update_specialite_rows(&db.specialites, &specialite);
                db.specialites = updated;
                proof {
                    lemma_modify_specialite_wf(pre, db@, specialite);
                }
                Ok(())
            }
        },
    }
}

/// An update by primary key keeps identifiers in place, so the identifier
/// bounds and distinctness carry over; and, when no other row carries the
/// new name and names were pairwise distinct, names stay pairwise
/// distinct.
proof fn lemma_update_specialite_rows_wf(s: Seq<Specialite>, sp: Specialite, next: int)
    requires
        forall|i: int| 0 <= i < s.len() ==> 0 < (#[trigger] s[i]).id_specialite < next,
        forall|i: int, j: int|
            #![trigger s[i], s[j]]
            0 <= i < j < s.len() ==> s[i].id_specialite != s[j].id_specialite,
        forall|i: int, j: int|
            #![trigger s[i], s[j]]
            0 <= i < j < s.len() ==> s[i].nom@ != s[j].nom@,
        !spec_specialite_nom_taken_excluding(s, sp.nom@, sp.id_specialite),
    ensures
        spec_update_specialite_rows(s, sp).len() == s.len(),
        forall|i: int|
            0 <= i < s.len() ==> (#[trigger] spec_update_specialite_rows(s, sp)[i]).id_specialite
                == s[i].id_specialite,
        forall|i: int|
            0 <= i < s.len() ==> 0 < (
            #[trigger] spec_update_specialite_rows(s, sp)[i]).id_specialite < next,
        forall|i: int, j: int|
            #![trigger spec_update_specialite_rows(s, sp)[i], spec_update_specialite_rows(s, sp)[j]]
            0 <= i < j < s.len() ==> spec_update_specialite_rows(s, sp)[i].id_specialite
                != spec_update_specialite_rows(s, sp)[j].id_specialite,
        forall|i: int, j: int|
            #![trigger spec_update_specialite_rows(s, sp)[i], spec_update_specialite_rows(s, sp)[j]]
            0 <= i < j < s.len() ==> spec_update_specialite_rows(s, sp)[i].nom@
                != spec_update_specialite_rows(s, sp)[j].nom@,
{
    let out = spec_update_specialite_rows(s, sp);
    assert forall|i: int, j: int|
        #![trigger out[i], out[j]]
        0 <= i < j < s.len() implies out[i].nom@ != out[j].nom@ by {
        assert(s[i].id_specialite != s[j].id_specialite);
        if s[i].id_specialite == sp.id_specialite {
            assert(out[i] == sp && out[j] == s[j]);
            assert(!(s[j].nom@ == sp.nom@ && s[j].id_specialite != sp.id_specialite));
        } else if s[j].id_specialite == sp.id_specialite {
            assert(out[i] == s[i] && out[j] == sp);
            assert(!(s[i].nom@ == sp.nom@ && s[i].id_specialite != sp.id_specialite));
        } else {
            assert(out[i] == s[i] && out[j] == s[j]);
        }
    }
}

/// Copies the specialty table, giving the matching row the update's name
/// and duration.
fn update_specialite_rows(s: &Vec<Specialite>, sp: &Specialite) -> (r: Vec<Specialite>)
    ensures
        r@ == spec_update_specialite_rows(s@, *sp),
{
    let n: usize = s.len();
    let mut out: Vec<Specialite> = Vec::new();
    let mut i: usize = 0;
    while i < n
        invariant
            i <= n,
            n == s@.len(),
            out@.len() == i,
            forall|j: int|
                0 <= j < i ==> out@[j] == (if s@[j].id_specialite == sp.id_specialite {
                    *sp
                } else {
                    s@[j]
                }),
        decreases n - i,
    {
        if s[i].id_specialite == sp.id_specialite {
            out.push(sp.clone());
        } else {
            out.push(s[i].clone());
        }
        i = i + 1;
    }
    proof {
        assert(out@ =~= spec_update_specialite_rows(s@, *sp));
    }
    out
}

/// A delete by primary key keeps the store well formed.
proof fn lemma_delete_specialite_wf(pre: DbView, post: DbView, id: i32)
    requires
        pre.wf(),
        pre.same_except_specialites(post),
        post.specialites == spec_delete_specialite_rows(pre.specialites, id),
        post.next_specialite == pre.next_specialite,
    ensures
        post.wf(),
{
    lemma_delete_specialite_rows_wf(pre.specialites, id, pre.next_specialite);
    assert(post.residents_wf()) by {
        assert(post.residents == pre.residents && post.next_resident == pre.next_resident);
    }
    assert(post.banques_wf()) by {
        assert(post.banques == pre.banques);
    }
}

/// An update by primary key, after the pre-check excluding the row itself,
/// keeps the store well formed.
proof fn lemma_modify_specialite_wf(pre: DbView, post: DbView, sp: Specialite)
    requires
        pre.wf(),
        !spec_specialite_nom_taken_excluding(pre.specialites, sp.nom@, sp.id_specialite),
        pre.same_except_specialites(post),
        post.specialites == spec_update_specialite_rows(pre.specialites, sp),
        post.next_specialite == pre.next_specialite,
    ensures
        post.wf(),
{
    lemma_update_specialite_rows_wf(pre.specialites, sp, pre.next_specialite);
    assert(post.residents_wf()) by {
        assert(post.residents == pre.residents && post.next_resident == pre.next_resident);
    }
    assert(post.banques_wf()) by {
        assert(post.banques == pre.banques);
    }
}

} // verus!
