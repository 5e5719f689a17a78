use residents_core::{
    add_resident, connect_db, delete_resident, get_resident_id, get_residents, modify_resident,
    AppState, Banque, CommandError, Database, Date, NewResident, Resident, ResidentRow,
    Specialite, ValidationError,
};

fn date(year: i32, month: u8, day: u8) -> Date {
    Date { year, month, day }
}

fn row(id: i32, nom: &str, date_fin: Option<Date>, sid: Option<i32>, bid: Option<i32>) -> ResidentRow {
    ResidentRow {
        id_resident: id,
        nom_prenom: nom.to_string(),
        date_debut: date(2022, 10, 1),
        id_specialite: sid,
        date_fin,
        rib: format!("rib-{}", id),
        id_banque: bid,
        nombre_enfants: 0,
    }
}

fn seeded_state() -> AppState {
    let mut db = Database::new();
    db.specialites.push(Specialite {
        id_specialite: 1,
        nom: "Cardiologie".to_string(),
        nombre_annees: 5,
    });
    db.next_specialite = 2;
    db.banques.push(Banque { id_banque: 3, nom: "Banque Nationale".to_string() });
    // Far-future and long-past end dates keep the active filter stable
    // whatever day the clock reads.
    db.residents.push(row(1, "Amina Kaci", Some(date(9999, 12, 31)), Some(1), Some(3)));
    db.residents.push(row(2, "Nadir Bellal", Some(date(9999, 12, 31)), None, None));
    db.residents.push(row(3, "Lya Cherif", Some(date(1999, 1, 1)), Some(1), Some(3)));
    db.residents.push(row(4, "Sami Arab", None, Some(1), Some(3)));
    db.next_resident = 5;
    let mut st = AppState { pool: None };
    connect_db(&mut st, db);
    st
}

#[test]
fn listing_keeps_active_rows_and_denormalizes_names() {
    let st = seeded_state();
    let rows = get_residents(&st).unwrap();
    // Only the two rows with a future end date are active.
    assert_eq!(rows.len(), 2);
    let amina = &rows[0];
    assert_eq!(amina.id_resident, 1);
    assert_eq!(amina.nom_specialite.as_deref(), Some("Cardiologie"));
    assert_eq!(amina.nom_banque.as_deref(), Some("Banque Nationale"));
    let nadir = &rows[1];
    assert_eq!(nadir.id_resident, 2);
    // Unset references leave the display names absent.
    assert_eq!(nadir.nom_specialite, None);
    assert_eq!(nadir.nom_banque, None);
}

#[test]
fn listing_leaves_unresolvable_references_unnamed() {
    let mut st = seeded_state();
    if let Some(db) = &mut st.pool {
        db.residents.push(row(5, "Yanis Brahimi", Some(date(9999, 12, 31)), Some(77), Some(88)));
        db.next_resident = 6;
    }
    let rows = get_residents(&st).unwrap();
    let yanis = rows.iter().find(|r| r.id_resident == 5).unwrap();
    assert_eq!(yanis.id_specialite, Some(77));
    assert_eq!(yanis.nom_specialite, None);
    assert_eq!(yanis.nom_banque, None);
}

#[test]
fn add_valid_resident_is_stored_under_the_next_identifier() {
    let mut st = seeded_state();
    let r = add_resident(
        &mut st,
        NewResident {
            nom_prenom: "Meriem Saadi".to_string(),
            date_debut: date(2024, 1, 15),
            id_specialite: Some(1),
            rib: "555".to_string(),
            id_banque: Some(3),
            nombre_enfants: None,
        },
    );
    assert_eq!(r, Ok(()));
    assert_eq!(get_resident_id(&st, "Meriem Saadi".to_string()), Ok(5));
}

#[test]
fn add_invalid_resident_writes_nothing() {
    let mut st = seeded_state();
    let r = add_resident(
        &mut st,
        NewResident {
            nom_prenom: "Meriem Saadi".to_string(),
            date_debut: date(2024, 1, 15),
            id_specialite: Some(1),
            rib: "555".to_string(),
            id_banque: Some(3),
            nombre_enfants: Some(-2),
        },
    );
    assert_eq!(
        r,
        Err(CommandError::Validation(ValidationError::InvalidNumberOfChildren))
    );
    assert_eq!(
        get_resident_id(&st, "Meriem Saadi".to_string()),
        Err(CommandError::NotFound)
    );
}

#[test]
fn add_resident_with_non_numeric_rib_writes_nothing() {
    let mut st = seeded_state();
    let r = add_resident(
        &mut st,
        NewResident {
            nom_prenom: "Meriem Saadi".to_string(),
            date_debut: date(2024, 1, 15),
            id_specialite: Some(1),
            rib: "55A5".to_string(),
            id_banque: Some(3),
            nombre_enfants: Some(1),
        },
    );
    assert_eq!(
        r,
        Err(CommandError::Validation(ValidationError::NonNumericAccountNumber))
    );
    assert_eq!(
        get_resident_id(&st, "Meriem Saadi".to_string()),
        Err(CommandError::NotFound)
    );
}

#[test]
fn get_resident_id_finds_first_match() {
    let st = seeded_state();
    assert_eq!(get_resident_id(&st, "Nadir Bellal".to_string()), Ok(2));
    assert_eq!(
        get_resident_id(&st, "Unknown Person".to_string()),
        Err(CommandError::NotFound)
    );
}

#[test]
fn modify_updates_payload_fields_and_keeps_end_date() {
    let mut st = seeded_state();
    let r = modify_resident(
        &mut st,
        Resident {
            id_resident: 1,
            nom_prenom: "Amina Kaci-Ouali".to_string(),
            date_debut: date(2022, 10, 1),
            id_specialite: Some(1),
            date_fin: None,
            rib: "777888".to_string(),
            id_banque: Some(3),
            nombre_enfants: 2,
            nom_specialite: None,
            nom_banque: None,
        },
    );
    assert_eq!(r, Ok(()));
    // The stored end date is untouched by the update, so the row stays
    // active and lists under its new name.
    let rows = get_residents(&st).unwrap();
    let amina = rows.iter().find(|x| x.id_resident == 1).unwrap();
    assert_eq!(amina.nom_prenom, "Amina Kaci-Ouali");
    assert_eq!(amina.rib, "777888");
    assert_eq!(amina.nombre_enfants, 2);
    assert_eq!(amina.date_fin, Some(date(9999, 12, 31)));
}

#[test]
fn modify_invalid_resident_writes_nothing() {
    let mut st = seeded_state();
    let r = modify_resident(
        &mut st,
        Resident {
            id_resident: 1,
            nom_prenom: "Amina Kaci".to_string(),
            date_debut: date(2022, 10, 1),
            id_specialite: None,
            date_fin: None,
            rib: "00123".to_string(),
            id_banque: Some(3),
            nombre_enfants: 0,
            nom_specialite: None,
            nom_banque: None,
        },
    );
    assert_eq!(r, Err(CommandError::Validation(ValidationError::EmptySpecialtyID)));
    let rows = get_residents(&st).unwrap();
    let amina = rows.iter().find(|x| x.id_resident == 1).unwrap();
    assert_eq!(amina.nom_prenom, "Amina Kaci");
}

#[test]
fn delete_resident_removes_the_row() {
    let mut st = seeded_state();
    assert_eq!(delete_resident(&mut st, 1), Ok(()));
    assert_eq!(get_resident_id(&st, "Amina Kaci".to_string()), Err(CommandError::NotFound));
    assert_eq!(get_residents(&st).unwrap().len(), 1);
}

#[test]
fn delete_unknown_resident_is_idempotent() {
    let mut st = seeded_state();
    let before = get_residents(&st).unwrap();
    assert_eq!(delete_resident(&mut st, 1234), Ok(()));
    assert_eq!(get_residents(&st).unwrap(), before);
}
