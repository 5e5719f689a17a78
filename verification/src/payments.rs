use vstd::prelude::*;
use crate::clock::current_date;
use crate::errors::CommandError;
use crate::models::{
    Banque, PaiementMensuel, PaiementRow, ProcedureCall, RappelAnnuel, RappelRow, ResidentRow,
};
use crate::store::{find_banque_nom, find_resident, spec_banque_nom, spec_find_resident, AppState};

verus! {

/// A stored payment row joined with its display columns: the resident's
/// name and account number when the resident reference resolves, and the
/// bank name when that resident's bank reference resolves in turn.
pub open spec fn spec_denormalize_paiement(
    residents: Seq<ResidentRow>,
    banques: Seq<Banque>,
    row: PaiementRow,
) -> PaiementMensuel {
    let res = (match row.id_resident {
        Some(rid) => spec_find_resident(residents, rid),
        None => None,
    });
    PaiementMensuel {
        id_paiement: row.id_paiement,
        id_resident: row.id_resident,
        jours_travail: row.jours_travail,
        allocations_familiales: row.allocations_familiales,
        montant: row.montant,
        date_paiement: row.date_paiement,
        nom_resident: (match res {
            Some(x) => Some(x.nom_prenom),
            None => None,
        }),
        rib: (match res {
            Some(x) => Some(x.rib),
            None => None,
        }),
        nom_banque: (match res {
            Some(x) => (match x.id_banque {
                Some(bid) => spec_banque_nom(banques, bid),
                None => None,
            }),
            None => None,
        }),
    }
}

/// The payments listing: every stored payment row in table order, joined
/// with its display columns.
pub open spec fn spec_paiements_view(
    residents: Seq<ResidentRow>,
    banques: Seq<Banque>,
    rows: Seq<PaiementRow>,
) -> Seq<PaiementMensuel> {
    rows.map_values(|row: PaiementRow| spec_denormalize_paiement(residents, banques, row))
}

/// A stored reminder row joined with its display columns, in the same way
/// as a payment row.
pub open spec fn spec_denormalize_rappel(
    residents: Seq<ResidentRow>,
    banques: Seq<Banque>,
    row: RappelRow,
) -> RappelAnnuel {
    let res = spec_find_resident(residents, row.id_resident);
    RappelAnnuel {
        id_rappel: row.id_rappel,
        id_resident: Some(row.id_resident),
        exercice: row.exercice,
        duree_rappel: row.duree_rappel,
        montant: row.montant,
        nom_resident: (match res {
            Some(x) => Some(x.nom_prenom),
            None => None,
        }),
        rib: (match res {
            Some(x) => Some(x.rib),
            None => None,
        }),
        nom_banque: (match res {
            Some(x) => (match x.id_banque {
                Some(bid) => spec_banque_nom(banques, bid),
                None => None,
            }),
            None => None,
        }),
        date_generation: row.date_generation,
    }
}

/// The reminders listing: every stored reminder row in table order,
/// joined with its display columns.
pub open spec fn spec_rappels_view(
    residents: Seq<ResidentRow>,
    banques: Seq<Banque>,
    rows: Seq<RappelRow>,
) -> Seq<RappelAnnuel> {
    rows.map_values(|row: RappelRow| spec_denormalize_rappel(residents, banques, row))
}

/// Lists every stored monthly payment, joined with its display columns.
pub fn get_paiments(state: &AppState) -> (r: Result<Vec<PaiementMensuel>, CommandError>)
    ensures
        state@ is None <==> r is Err,
        r matches Err(e) ==> e is NotConnected,
        r matches Ok(v) ==> state@ matches Some(db) && v@ == spec_paiements_view(
            db.residents,
            db.banques,
            db.paiements,
        ),
{
    match &state.pool {
        None => Err(CommandError::NotConnected),
        Some(db) => {
            proof {
                assert(state@ == Some(db@));
            }
            let n: usize = db.paiements.len();
            let mut out: Vec<PaiementMensuel> = Vec::new();
            let mut i: usize = 0;
            while i < n
                invariant
                    i <= n,
                    n == db.paiements@.len(),
                    out@.len() == i,
                    forall|j: int|
                        0 <= j < i ==> out@[j] == spec_denormalize_paiement(
                            db.residents@,
                            db.banques@,
                            db.paiements@[j],
                        ),
                decreases n - i,
            {
                let row = &db.paiements[i];
                let res: Option<&ResidentRow> = match row.id_resident {
                    Some(rid) => find_resident(&db.residents, rid),
                    None => None,
                };
                let nom_resident: Option<String> = match res {
                    Some(x) => Some(x.nom_prenom.clone()),
                    None => None,
                };
                let rib: Option<String> = match res {
                    Some(x) => Some(x.rib.clone()),
                    None => None,
                };
                let nom_banque: Option<String> = match res {
                    Some(x) => match x.id_banque {
                        Some(bid) => find_banque_nom(&db.banques, bid),
                        None => None,
                    },
                    None => None,
                };
                out.push(
                    PaiementMensuel {
                        id_paiement: row.id_paiement,
                        id_resident: row.id_resident,
                        jours_travail: row.jours_travail,
                        allocations_familiales: row.allocations_familiales,
                        montant: row.montant,
                        date_paiement: row.date_paiement,
                        nom_resident,
                        rib,
                        nom_banque,
                    },
                );
                i = i + 1;
            }
            proof {
                assert(out@ =~= spec_paiements_view(db.residents@, db.banques@, db.paiements@));
            }
            Ok(out)
        },
    }
}

/// Lists every stored yearly reminder, joined with its display columns.
pub fn get_rappels(state: &AppState) -> (r: Result<Vec<RappelAnnuel>, CommandError>)
    ensures
        state@ is None <==> r is Err,
        r matches Err(e) ==> e is NotConnected,
        r matches Ok(v) ==> state@ matches Some(db) && v@ == spec_rappels_view(
            db.residents,
            db.banques,
            db.rappels,
        ),
{
    match &state.pool {
        None => Err(CommandError::NotConnected),
        Some(db) => {
            proof {
                assert(state@ == Some(db@));
            }
            let n: usize = db.rappels.len();
            let mut out: Vec<RappelAnnuel> = Vec::new();
            let mut i: usize = 0;
            while i < n
                invariant
                    i <= n,
                    n == db.rappels@.len(),
                    out@.len() == i,
                    forall|j: int|
                        0 <= j < i ==> out@[j] == spec_denormalize_rappel(
                            db.residents@,
                            db.banques@,
                            db.rappels@[j],
                        ),
                decreases n - i,
            {
                let row = &db.rappels[i];
                let res: Option<&ResidentRow> = find_resident(&db.residents, row.id_resident);
                let nom_resident: Option<String> = match res {
                    Some(x) => Some(x.nom_prenom.clone()),
                    None => None,
                };
                let rib: Option<String> = match res {
                    Some(x) => Some(x.rib.clone()),
                    None => None,
                };
                let nom_banque: Option<String> = match res {
                    Some(x) => match x.id_banque {
                        Some(bid) => find_banque_nom(&db.banques, bid),
                        None => None,
                    },
                    None => None,
                };
                out.push(
                    RappelAnnuel {
                        id_rappel: row.id_rappel,
                        id_resident: Some(row.id_resident),
                        exercice: row.exercice,
                        duree_rappel: row.duree_rappel,
                        montant: row.montant,
                        nom_resident,
                        rib,
                        nom_banque,
                        date_generation: row.date_generation,
                    },
                );
                i = i + 1;
            }
            proof {
                assert(out@ =~= spec_rappels_view(db.residents@, db.banques@, db.rappels@));
            }
            Ok(out)
        },
    }
}

/// Asks the database to run the monthly payment generation procedure with
/// the day of the call, read from the local clock. The rows the procedure
/// computes live on the database side; this layer only triggers it.
pub fn generate_payments(state: &AppState) -> (r: Result<ProcedureCall, CommandError>)
    ensures
        state@ is None <==> r is Err,
        r matches Err(e) ==> e is NotConnected,
        r matches Ok(c) ==> c matches ProcedureCall::GenerateMonthlyPayments { date } && date.wf(),
{
    match &state.pool {
        None => Err(CommandError::NotConnected),
        Some(_) => {
            let today = current_date();
            Ok(ProcedureCall::GenerateMonthlyPayments { date: today })
        },
    }
}

/// Asks the database to run the yearly reminder generation procedure for
/// the given resident with the day of the call, read from the local
/// clock.
pub fn generate_rappel(state: &AppState, resident_id: i32) -> (r: Result<
    ProcedureCall,
    CommandError,
>)
    ensures
        state@ is None <==> r is Err,
        r matches Err(e) ==> e is NotConnected,
        r matches Ok(c) ==> c matches ProcedureCall::GenerateYearlyPayments {
            resident_id: rid,
            date,
        } && rid == resident_id && date.wf(),
{
    match &state.pool {
        None => Err(CommandError::NotConnected),
        Some(_) => {
            let today = current_date();
            Ok(ProcedureCall::GenerateYearlyPayments { resident_id, date: today })
        },
    }
}

} // verus!
