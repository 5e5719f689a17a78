use residents_core::{
    connect_db, generate_payments, generate_rappel, get_paiments, get_rappels, login,
    login_log_event, AdminAccount, AppState, Banque, CommandError, Database, Date, LogEvent,
    LoginPayload, PaiementRow, ProcedureCall, RappelRow, ResidentRow,
};

fn date(year: i32, month: u8, day: u8) -> Date {
    Date { year, month, day }
}

fn seeded_state() -> AppState {
    let mut db = Database::new();
    db.banques.push(Banque { id_banque: 3, nom: "Banque Nationale".to_string() });
    db.residents.push(ResidentRow {
        id_resident: 1,
        nom_prenom: "Amina Kaci".to_string(),
        date_debut: date(2022, 10, 1),
        id_specialite: None,
        date_fin: None,
        rib: "00123".to_string(),
        id_banque: Some(3),
        nombre_enfants: 0,
    });
    db.next_resident = 2;
    db.admins.push(AdminAccount {
        username: "admin".to_string(),
        password: "correct-password".to_string(),
    });
    db.paiements.push(PaiementRow {
        id_paiement: 10,
        id_resident: Some(1),
        jours_travail: 22,
        allocations_familiales: Some(1500),
        montant: 95000,
        date_paiement: date(2024, 6, 30),
    });
    db.paiements.push(PaiementRow {
        id_paiement: 11,
        id_resident: Some(999),
        jours_travail: 20,
        allocations_familiales: None,
        montant: 90000,
        date_paiement: date(2024, 6, 30),
    });
    db.rappels.push(RappelRow {
        id_rappel: 20,
        id_resident: 1,
        exercice: 2023,
        duree_rappel: 12,
        montant: 120000,
        date_generation: Some(date(2024, 1, 10)),
    });
    let mut st = AppState { pool: None };
    connect_db(&mut st, db);
    st
}

#[test]
fn payments_listing_joins_resident_and_bank() {
    let st = seeded_state();
    let rows = get_paiments(&st).unwrap();
    assert_eq!(rows.len(), 2);
    let first = &rows[0];
    assert_eq!(first.id_paiement, 10);
    assert_eq!(first.montant, 95000);
    assert_eq!(first.allocations_familiales, Some(1500));
    assert_eq!(first.nom_resident.as_deref(), Some("Amina Kaci"));
    assert_eq!(first.rib.as_deref(), Some("00123"));
    assert_eq!(first.nom_banque.as_deref(), Some("Banque Nationale"));
    // A payment whose resident reference does not resolve keeps its
    // stored fields and leaves the display columns absent.
    let second = &rows[1];
    assert_eq!(second.id_resident, Some(999));
    assert_eq!(second.nom_resident, None);
    assert_eq!(second.rib, None);
    assert_eq!(second.nom_banque, None);
}

#[test]
fn reminders_listing_joins_resident_and_bank() {
    let st = seeded_state();
    let rows = get_rappels(&st).unwrap();
    assert_eq!(rows.len(), 1);
    let r = &rows[0];
    assert_eq!(r.id_rappel, 20);
    assert_eq!(r.id_resident, Some(1));
    assert_eq!(r.exercice, 2023);
    assert_eq!(r.duree_rappel, 12);
    assert_eq!(r.montant, 120000);
    assert_eq!(r.nom_resident.as_deref(), Some("Amina Kaci"));
    assert_eq!(r.nom_banque.as_deref(), Some("Banque Nationale"));
    assert_eq!(r.date_generation, Some(date(2024, 1, 10)));
}

#[test]
fn generate_payments_builds_a_monthly_call_with_a_real_date() {
    let st = seeded_state();
    match generate_payments(&st).unwrap() {
        ProcedureCall::GenerateMonthlyPayments { date } => {
            assert!((1..=12).contains(&date.month));
            assert!((1..=31).contains(&date.day));
        }
        other => panic!("unexpected procedure call: {:?}", other),
    }
}

#[test]
fn generate_rappel_propagates_the_resident() {
    let st = seeded_state();
    match generate_rappel(&st, 7).unwrap() {
        ProcedureCall::GenerateYearlyPayments { resident_id, date } => {
            assert_eq!(resident_id, 7);
            assert!((1..=12).contains(&date.month));
            assert!((1..=31).contains(&date.day));
        }
        other => panic!("unexpected procedure call: {:?}", other),
    }
}

fn payload(username: &str, password: &str) -> LoginPayload {
    LoginPayload { username: username.to_string(), password: password.to_string() }
}

#[test]
fn login_accepts_the_stored_credentials() {
    let st = seeded_state();
    assert_eq!(login(&st, &payload("admin", "correct-password")), Ok(true));
}

#[test]
fn login_rejects_a_wrong_password() {
    let st = seeded_state();
    assert_eq!(
        login(&st, &payload("admin", "wrong")),
        Err(CommandError::InvalidCredentials)
    );
}

#[test]
fn login_reports_an_unknown_user() {
    let st = seeded_state();
    assert_eq!(login(&st, &payload("nobody", "x")), Err(CommandError::NotFound));
}

#[test]
fn login_log_carries_the_username_and_never_a_password() {
    let st = seeded_state();
    // An unknown user logs the username, whatever password was supplied.
    let r1 = login(&st, &payload("nobody", "first-try"));
    let r2 = login(&st, &payload("nobody", "second-try"));
    let e1 = login_log_event(&r1, &"nobody".to_string());
    let e2 = login_log_event(&r2, &"nobody".to_string());
    assert_eq!(e1, Some(LogEvent::UserNotFound { username: "nobody".to_string() }));
    assert_eq!(e1, e2);
    // Successful and wrongly-passworded attempts log nothing at all.
    let ok = login(&st, &payload("admin", "correct-password"));
    assert_eq!(login_log_event(&ok, &"admin".to_string()), None);
    let bad = login(&st, &payload("admin", "wrong"));
    assert_eq!(login_log_event(&bad, &"admin".to_string()), None);
}
