use vstd::prelude::*;
use crate::clock::current_date;
use crate::dates::Date;
use crate::errors::{exhausted_message, CommandError, MyError};
use crate::models::{Banque, NewResident, Resident, ResidentRow, Specialite};
use crate::store::{
    find_banque_nom, find_specialite_nom, spec_banque_nom, spec_specialite_nom, AppState, Database,
    DbView,
};
use crate::validation::{spec_validate, validate_resident, ValidatableResident};

verus! {

/// The residents table after a delete by primary key: every row carrying
/// the identifier removed, the order of the rest kept.
pub open spec fn spec_delete_resident_rows(s: Seq<ResidentRow>, id: i32) -> Seq<ResidentRow>
    decreases s.len(),
{
    if s.len() == 0 {
        Seq::empty()
    } else {
        let rest = spec_delete_resident_rows(s.drop_last(), id);
        if s.last().id_resident == id {
            rest
        } else {
            rest.push(s.last())
        }
    }
}

/// The residents table after an update by primary key: the row carrying
/// the update's identifier takes its payload fields, keeping its stored
/// end date, which the update statement does not touch; every other row is
/// kept. An identifier no row carries updates nothing.
pub open spec fn spec_update_resident_rows(s: Seq<ResidentRow>, r: Resident) -> Seq<ResidentRow> {
    s.map_values(
        |row: ResidentRow|
            if row.id_resident == r.id_resident {
                ResidentRow {
                    id_resident: row.id_resident,
                    nom_prenom: r.nom_prenom,
                    date_debut: r.date_debut,
                    id_specialite: r.id_specialite,
                    date_fin: row.date_fin,
                    rib: r.rib,
                    id_banque: r.id_banque,
                    nombre_enfants: r.nombre_enfants,
                }
            } else {
                row
            },
    )
}

/// The stored row a new resident payload inserts under the given serial
/// identifier: the end date starts out absent and an absent children count
/// is stored as zero.
pub open spec fn spec_new_resident_row(n: NewResident, id: i32) -> ResidentRow {
    ResidentRow {
        id_resident: id,
        nom_prenom: n.nom_prenom,
        date_debut: n.date_debut,
        id_specialite: n.id_specialite,
        date_fin: None,
        rib: n.rib,
        id_banque: n.id_banque,
        nombre_enfants: (match n.nombre_enfants {
            Some(x) => x,
            None => 0,
        }),
    }
}

/// Whether a stored row counts as active on the given day: it has an end
/// date and that end date lies strictly after the day. A row without an
/// end date is not listed, as a null end date satisfies no comparison.
pub open spec fn spec_resident_active(row: ResidentRow, today: Date) -> bool {
    match row.date_fin {
        Some(d) => today.spec_lt(d),
        None => false,
    }
}

/// A stored row joined with its display names: the specialty and bank
/// names are present exactly when the corresponding reference is set and
/// resolves to a stored row.
pub open spec fn spec_denormalize_resident(
    specialites: Seq<Specialite>,
    banques: Seq<Banque>,
    row: ResidentRow,
) -> Resident {
    Resident {
        id_resident: row.id_resident,
        nom_prenom: row.nom_prenom,
        date_debut: row.date_debut,
        id_specialite: row.id_specialite,
        date_fin: row.date_fin,
        rib: row.rib,
        id_banque: row.id_banque,
        nombre_enfants: row.nombre_enfants,
        nom_specialite: (match row.id_specialite {
            Some(sid) => spec_specialite_nom(specialites, sid),
            None => None,
        }),
        nom_banque: (match row.id_banque {
            Some(bid) => spec_banque_nom(banques, bid),
            None => None,
        }),
    }
}

/// The listing of the given rows: the active ones in table order, each
/// joined with its display names.
pub open spec fn spec_residents_view_rows(
    specialites: Seq<Specialite>,
    banques: Seq<Banque>,
    rows: Seq<ResidentRow>,
    today: Date,
) -> Seq<Resident>
    decreases rows.len(),
{
    if rows.len() == 0 {
        Seq::empty()
    } else {
        let rest = spec_residents_view_rows(specialites, banques, rows.drop_last(), today);
        if spec_resident_active(rows.last(), today) {
            rest.push(spec_denormalize_resident(specialites, banques, rows.last()))
        } else {
            rest
        }
    }
}

/// The listing the handler returns for a store on a given day.
pub open spec fn spec_residents_view(db: DbView, today: Date) -> Seq<Resident> {
    spec_residents_view_rows(db.specialites, db.banques, db.residents, today)
}

/// The identifier of the first stored row carrying the given full name.
pub open spec fn spec_resident_id_by_name(s: Seq<ResidentRow>, nom: Seq<char>) -> Option<i32>
    decreases s.len(),
{
    if s.len() == 0 {
        None
    } else if s[0].nom_prenom@ == nom {
        Some(s[0].id_resident)
    } else {
        spec_resident_id_by_name(s.drop_first(), nom)
    }
}

/// Joins and lists the active rows of a store on the given day.
pub fn residents_on(db: &Database, today: Date) -> (v: Vec<Resident>)
    ensures
        v@ == spec_residents_view(db@, today),
{
    let n: usize = db.residents.len();
    let mut out: Vec<Resident> = Vec::new();
    let mut i: usize = 0;
    while i < n
        invariant
            i <= n,
            n == db.residents@.len(),
            out@ == spec_residents_view_rows(
                db.specialites@,
                db.banques@,
                db.residents@.subrange(0, i as int),
                today,
            ),
        decreases n - i,
    {
        let row = &db.residents[i];
        let active: bool = match &row.date_fin {
            Some(d) => today.before(d),
            None => false,
        };
        if active {
            let nom_specialite: Option<String> = match row.id_specialite {
                Some(sid) => find_specialite_nom(&db.specialites, sid),
                None => None,
            };
            let nom_banque: Option<String> = match row.id_banque {
                Some(bid) => find_banque_nom(&db.banques, bid),
                None => None,
            };
            out.push(
                Resident {
                    id_resident: row.id_resident,
                    nom_prenom: row.nom_prenom.clone(),
                    date_debut: row.date_debut,
                    id_specialite: row.id_specialite,
                    date_fin: row.date_fin,
                    rib: row.rib.clone(),
                    id_banque: row.id_banque,
                    nombre_enfants: row.nombre_enfants,
                    nom_specialite,
                    nom_banque,
                },
            );
        }
        proof {
            let prefix1 = db.residents@.subrange(0, i as int + 1);
            assert(prefix1.drop_last() =~= db.residents@.subrange(0, i as int));
            assert(prefix1.last() == db.residents@[i as int]);
        }
        i = i + 1;
    }
    proof {
        assert(db.residents@.subrange(0, n as int) =~= db.residents@);
    }
    out
}

/// The listing for an optional store on a given day; an absent store
/// lists nothing.
pub open spec fn spec_residents_view_opt(st: Option<DbView>, today: Date) -> Seq<Resident> {
    match st {
        Some(db) => spec_residents_view(db, today),
        None => Seq::empty(),
    }
}

/// Whether an output is the residents listing of the store on some day:
/// what the handler returns when the day comes from the clock at call
/// time.
pub open spec fn spec_is_residents_listing(st: Option<DbView>, out: Seq<Resident>) -> bool {
    exists|today: Date|
        #![trigger spec_residents_view_opt(st, today)]
        today.wf() && out == spec_residents_view_opt(st, today)
}

/// Lists the residents active on the day of the call, each joined with its
/// display names. The day is read from the local clock when the handler
/// runs.
pub fn get_residents(state: &AppState) -> (r: Result<Vec<Resident>, CommandError>)
    ensures
        state@ is None <==> r is Err,
        r matches Err(e) ==> e is NotConnected,
        r matches Ok(v) ==> spec_is_residents_listing(state@, v@),
{
    match &state.pool {
        None => Err(CommandError::NotConnected),
        Some(db) => {
            let today = current_date();
            let v = residents_on(db, today);
            proof {
                assert(state@ == Some(db@));
                assert(spec_is_residents_listing(state@, v@)) by {
                    assert(today.wf() && v@ == spec_residents_view_opt(state@, today));
                }
            }
            Ok(v)
        },
    }
}

/// Returns the identifier of the first stored resident carrying the given
/// full name, or reports that none does.
#[verifier::loop_isolation(false)]
pub fn get_resident_id(state: &AppState, nom_prenom: String) -> (r: Result<i32, CommandError>)
    ensures
        (match state@ {
            None => r matches Err(e) && e is NotConnected,
            Some(db) => (match spec_resident_id_by_name(db.residents, nom_prenom@) {
                Some(id) => r matches Ok(rid) && rid == id,
                None => r matches Err(e) && e is NotFound,
            }),
        }),
{
    match &state.pool {
        None => Err(CommandError::NotConnected),
        Some(db) => {
            proof {
                assert(state@ == Some(db@));
            }
            let s = &db.residents;
            let n: usize = s.len();
            proof {
                assert(s@.subrange(0, n as int) =~= s@);
            }
            let mut i: usize = 0;
            while i < n
                invariant
                    i <= n,
                    n == s@.len(),
                    spec_resident_id_by_name(s@, nom_prenom@) == spec_resident_id_by_name(
                        s@.subrange(i as int, n as int),
                        nom_prenom@,
                    ),
                decreases n - i,
            {
                let ghost suffix = s@.subrange(i as int, n as int);
                if s[i].nom_prenom == nom_prenom {
                    proof {
                        assert(suffix[0] == s@[i as int]);
                    }
                    return Ok(s[i].id_resident);
                }
                proof {
                    assert(suffix[0] == s@[i as int]);
                    assert(suffix.drop_first() =~= s@.subrange(i + 1, n as int));
                }
                i = i + 1;
            }
            proof {
                assert(s@.subrange(n as int, n as int).len() == 0);
            }
            Err(CommandError::NotFound)
        },
    }
}

/// Inserts a resident after validation: an invalid payload writes nothing
/// and reports the first broken rule; a valid one is appended under the
/// next serial identifier, with no end date.
pub fn add_resident(state: &mut AppState, resident: NewResident) -> (r: Result<(), CommandError>)
    requires
        old(state).wf(),
    ensures
        final(state).wf(),
        (match old(state)@ {
            None => r matches Err(e) && e is NotConnected && final(state)@ is None,
            Some(db) => (match spec_validate(&resident) {
                Err(v) => r matches Err(e) && e == CommandError::Validation(v) && final(state)@
                    == Some(db),
                Ok(()) => {
                    if db.next_resident == i32::MAX {
                        r matches Err(e) && e matches CommandError::Query(m) && m.message@
                            == "id sequence exhausted"@ && final(state)@ == Some(db)
                    } else {
                        &&& r is Ok
                        &&& final(state)@ matches Some(db2)
                        &&& db.same_except_residents(db2)
                        &&& db2.residents == db.residents.push(
                            spec_new_resident_row(resident, db.next_resident as i32),
                        )
                        &&& db2.next_resident == db.next_resident + 1
                    }
                },
            }),
        }),
{
    match &mut state.pool {
        None => Err(CommandError::NotConnected),
        Some(db) => {
            proof {
                assert(old(state)@ == Some(db@));
            }
            match validate_resident(&resident) {
                Err(v) => Err(CommandError::Validation(v)),
                Ok(()) => {
                    if db.next_resident == i32::MAX {
                        Err(CommandError::Query(MyError { message: exhausted_message() }))
                    } else {
                        let ghost pre = db@;
                        let id: i32 = db.next_resident;
                        let enfants: i32 = match resident.nombre_enfants {
                            Some(x) => x,
                            None => 0,
                        };
                        db.residents.push(
                            ResidentRow {
                                id_resident: id,
                                nom_prenom: resident.nom_prenom,
                                date_debut: resident.date_debut,
                                id_specialite: resident.id_specialite,
                                date_fin: None,
                                rib: resident.rib,
                                id_banque: resident.id_banque,
                                nombre_enfants: enfants,
                            },
                        );
                        db.next_resident = id + 1;
                        proof {
                            lemma_add_resident_wf(pre, db@, resident);
                        }
                        Ok(())
                    }
                },
            }
        },
    }
}

/// An insert under the next serial identifier keeps the store well formed.
proof fn lemma_add_resident_wf(pre: DbView, post: DbView, n: NewResident)
    requires
        pre.wf(),
        spec_validate(&n) is Ok,
        pre.next_resident < i32::MAX,
        pre.same_except_residents(post),
        post.residents == pre.residents.push(
            spec_new_resident_row(n, pre.next_resident as i32),
        ),
        post.next_resident == pre.next_resident + 1,
    ensures
        post.wf(),
{
    let s1 = pre.residents;
    let s2 = post.residents;
    assert forall|i: int, j: int|
        #![trigger s2[i], s2[j]]
        0 <= i < j < s2.len() implies s2[i].id_resident != s2[j].id_resident by {
        if j < s1.len() {
            assert(s2[i] == s1[i] && s2[j] == s1[j]);
        } else {
            assert(s2[i] == s1[i]);
            assert(s1[i].id_resident < pre.next_resident);
        }
    }
    assert forall|i: int| 0 <= i < s2.len() implies 0 < (#[trigger] s2[i]).id_resident
        < post.next_resident && s2[i].nombre_enfants >= 0 by {
        if i < s1.len() {
            assert(s2[i] == s1[i]);
        } else {
            assert(n.spec_nombre_enfants() >= 0);
        }
    }
    assert(post.specialites_wf()) by {
        assert(post.specialites == pre.specialites && post.next_specialite
            == pre.next_specialite);
    }
    assert(post.banques_wf()) by {
        assert(post.banques == pre.banques);
    }
}

/// Deletes the resident with the given primary key. An identifier no row
/// carries deletes nothing and still succeeds.
pub fn delete_resident(state: &mut AppState, id: i32) -> (r: Result<(), CommandError>)
    requires
        old(state).wf(),
    ensures
        final(state).wf(),
        (match old(state)@ {
            None => r matches Err(e) && e is NotConnected && final(state)@ is None,
            Some(db) => {
                &&& r is Ok
                &&& final(state)@ matches Some(db2)
                &&& db.same_except_residents(db2)
                &&& db2.residents == spec_delete_resident_rows(db.residents, id)
                &&& db2.next_resident == db.next_resident
            },
        }),
{
    match &mut state.pool {
        None => Err(CommandError::NotConnected),
        Some(db) => {
            proof {
                assert(old(state)@ == Some(db@));
            }
            let ghost pre = db@;
            let kept = remove_resident_rows(&db.residents, id);
            db.residents = kept;
            proof {
                lemma_delete_resident_wf(pre, db@, id);
            }
            Ok(())
        },
    }
}

/// Copies the residents table, leaving out the rows with the identifier.
fn remove_resident_rows(s: &Vec<ResidentRow>, id: i32) -> (r: Vec<ResidentRow>)
    ensures
        r@ == spec_delete_resident_rows(s@, id),
{
    let n: usize = s.len();
    let mut out: Vec<ResidentRow> = Vec::new();
    let mut i: usize = 0;
    while i < n
        invariant
            i <= n,
            n == s@.len(),
            out@ == spec_delete_resident_rows(s@.subrange(0, i as int), id),
        decreases n - i,
    {
        if s[i].id_resident != id {
            out.push(s[i].clone());
        }
        proof {
            assert(s@.subrange(0, i as int + 1).drop_last() =~= s@.subrange(0, i as int));
            assert(s@.subrange(0, i as int + 1).last() == s@[i as int]);
        }
        i = i + 1;
    }
    proof {
        assert(s@.subrange(0, n as int) =~= s@);
    }
    out
}

/// A delete by primary key keeps the table well formed: every kept row is
/// one of the stored rows, the identifier bounds and distinctness carry
/// over, and no kept row carries the deleted identifier.
proof fn lemma_delete_resident_rows_wf(s: Seq<ResidentRow>, id: i32, next: int)
    requires
        forall|i: int| 0 <= i < s.len() ==> 0 < (#[trigger] s[i]).id_resident < next,
        forall|i: int, j: int|
            #![trigger s[i], s[j]]
            0 <= i < j < s.len() ==> s[i].id_resident != s[j].id_resident,
    ensures
        spec_delete_resident_rows(s, id).len() <= s.len(),
        forall|k: int|
            0 <= k < spec_delete_resident_rows(s, id).len() ==> s.contains(
                #[trigger] spec_delete_resident_rows(s, id)[k],
            ),
        forall|k: int|
            0 <= k < spec_delete_resident_rows(s, id).len() ==> 0 < (
            #[trigger] spec_delete_resident_rows(s, id)[k]).id_resident < next,
        (forall|i: int| 0 <= i < s.len() ==> (#[trigger] s[i]).nombre_enfants >= 0)
            ==> (forall|k: int|
            0 <= k < spec_delete_resident_rows(s, id).len() ==> (
            #[trigger] spec_delete_resident_rows(s, id)[k]).nombre_enfants >= 0),
        forall|k: int|
            0 <= k < spec_delete_resident_rows(s, id).len() ==> (
            #[trigger] spec_delete_resident_rows(s, id)[k]).id_resident != id,
        forall|k1: int, k2: int|
            #![trigger spec_delete_resident_rows(s, id)[k1], spec_delete_resident_rows(s, id)[k2]]
            0 <= k1 < k2 < spec_delete_resident_rows(s, id).len() ==> spec_delete_resident_rows(
                s,
                id,
            )[k1].id_resident != spec_delete_resident_rows(s, id)[k2].id_resident,
    decreases s.len(),
{
    let out = spec_delete_resident_rows(s, id);
    if s.len() == 0 {
    } else {
        let prefix = s.drop_last();
        let last = s.last();
        lemma_delete_resident_rows_wf(prefix, id, next);
        let rest = spec_delete_resident_rows(prefix, id);
        assert forall|k: int| 0 <= k < out.len() implies s.contains(#[trigger] out[k]) by {
            if k < rest.len() {
                assert(prefix.contains(rest[k]));
                let j = choose|j: int| 0 <= j < prefix.len() && prefix[j] == rest[k];
                assert(s[j] == out[k]);
            } else {
                assert(out[k] == s[s.len() - 1]);
            }
        }
        if last.id_resident != id {
            assert(out == rest.push(last));
            assert forall|k1: int, k2: int|
                #![trigger out[k1], out[k2]]
                0 <= k1 < k2 < out.len() implies out[k1].id_resident != out[k2].id_resident by {
                if k2 < rest.len() {
                    assert(out[k1] == rest[k1] && out[k2] == rest[k2]);
                } else {
                    assert(out[k2] == last);
                    assert(prefix.contains(rest[k1]));
                    let j = choose|j: int| 0 <= j < prefix.len() && prefix[j] == rest[k1];
                    assert(s[j] == out[k1] && s[s.len() - 1] == last);
                }
            }
        }
    }
}

/// Deleting an identifier no resident row carries leaves the table
/// unchanged: the delete is idempotent and touches zero rows.
pub proof fn lemma_delete_resident_absent_noop(s: Seq<ResidentRow>, id: i32)
    requires
        forall|i: int| 0 <= i < s.len() ==> (#[trigger] s[i]).id_resident != id,
    ensures
        spec_delete_resident_rows(s, id) == s,
    decreases s.len(),
{
    if s.len() == 0 {
        assert(spec_delete_resident_rows(s, id) =~= s);
    } else {
        lemma_delete_resident_absent_noop(s.drop_last(), id);
        assert(spec_delete_resident_rows(s, id) =~= s);
    }
}

/// A delete by primary key keeps the store well formed.
proof fn lemma_delete_resident_wf(pre: DbView, post: DbView, id: i32)
    requires
        pre.wf(),
        pre.same_except_residents(post),
        post.residents == spec_delete_resident_rows(pre.residents, id),
        post.next_resident == pre.next_resident,
    ensures
        post.wf(),
{
    lemma_delete_resident_rows_wf(pre.residents, id, pre.next_resident);
    assert(post.specialites_wf()) by {
        assert(post.specialites == pre.specialites && post.next_specialite
            == pre.next_specialite);
    }
    assert(post.banques_wf()) by {
        assert(post.banques == pre.banques);
    }
}

/// Updates the resident with the update's primary key, after validation:
/// an invalid payload writes nothing and reports the first broken rule.
/// The stored end date of the row is kept.
pub fn modify_resident(state: &mut AppState, resident: Resident) -> (r: Result<(), CommandError>)
    requires
        old(state).wf(),
    ensures
        final(state).wf(),
        (match old(state)@ {
            None => r matches Err(e) && e is NotConnected && final(state)@ is None,
            Some(db) => (match spec_validate(&resident) {
                Err(v) => r matches Err(e) && e == CommandError::Validation(v) && final(state)@
                    == Some(db),
                Ok(()) => {
                    &&& r is Ok
                    &&& final(state)@ matches Some(db2)
                    &&& db.same_except_residents(db2)
                    &&& db2.residents == spec_update_resident_rows(db.residents, resident)
                    &&& db2.next_resident == db.next_resident
                },
            }),
        }),
{
    match &mut state.pool {
        None => Err(CommandError::NotConnected),
        Some(db) => {
            proof {
                assert(old(state)@ == Some(db@));
            }
            match validate_resident(&resident) {
                Err(v) => Err(CommandError::Validation(v)),
                Ok(()) => {
                    let ghost pre = db@;
                    let updated = update_resident_rows(&db.residents, &resident);
                    db.residents = updated;
                    proof {
                        lemma_modify_resident_wf(pre, db@, resident);
                    }
                    Ok(())
                },
            }
        },
    }
}

/// Copies the residents table, giving the matching row the update's
/// payload fields.
fn update_resident_rows(s: &Vec<ResidentRow>, r: &Resident) -> (out: Vec<ResidentRow>)
    ensures
        out@ == spec_update_resident_rows(s@, *r),
{
    let n: usize = s.len();
    let mut out: Vec<ResidentRow> = Vec::new();
    let mut i: usize = 0;
    while i < n
        invariant
            i <= n,
            n == s@.len(),
            out@.len() == i,
            forall|j: int|
                0 <= j < i ==> out@[j] == (if s@[j].id_resident == r.id_resident {
                    (ResidentRow {
                        id_resident: s@[j].id_resident,
                        nom_prenom: r.nom_prenom,
                        date_debut: r.date_debut,
                        id_specialite: r.id_specialite,
                        date_fin: s@[j].date_fin,
                        rib: r.rib,
                        id_banque: r.id_banque,
                        nombre_enfants: r.nombre_enfants,
                    })
                } else {
                    s@[j]
                }),
        decreases n - i,
    {
        if s[i].id_resident == r.id_resident {
            out.push(
                ResidentRow {
                    id_resident: s[i].id_resident,
                    nom_prenom: r.nom_prenom.clone(),
                    date_debut: r.date_debut,
                    id_specialite: r.id_specialite,
                    date_fin: s[i].date_fin,
                    rib: r.rib.clone(),
                    id_banque: r.id_banque,
                    nombre_enfants: r.nombre_enfants,
                },
            );
        } else {
            out.push(s[i].clone());
        }
        i = i + 1;
    }
    proof {
        assert(out@ =~= spec_update_resident_rows(s@, *r));
    }
    out
}

/// An update by primary key keeps identifiers in place, so the store stays
/// well formed.
proof fn lemma_modify_resident_wf(pre: DbView, post: DbView, r: Resident)
    requires
        pre.wf(),
        spec_validate(&r) is Ok,
        pre.same_except_residents(post),
        post.residents == spec_update_resident_rows(pre.residents, r),
        post.next_resident == pre.next_resident,
    ensures
        post.wf(),
{
    let s = pre.residents;
    let out = post.residents;
    assert forall|i: int| 0 <= i < s.len() implies 0 < (#[trigger] out[i]).id_resident
        < post.next_resident && out[i].nombre_enfants >= 0 by {
        assert(out[i].id_resident == s[i].id_resident);
        assert(r.spec_nombre_enfants() >= 0);
    }
    assert forall|i: int, j: int|
        #![trigger out[i], out[j]]
        0 <= i < j < s.len() implies out[i].id_resident != out[j].id_resident by {
        assert(out[i].id_resident == s[i].id_resident && out[j].id_resident == s[j].id_resident);
    }
    assert(post.specialites_wf()) by {
        assert(post.specialites == pre.specialites && post.next_specialite
            == pre.next_specialite);
    }
    assert(post.banques_wf()) by {
        assert(post.banques == pre.banques);
    }
}

} // verus!
