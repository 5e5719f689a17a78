use residents_core::{
    add_resident, add_specialite, connect_db, delete_resident, delete_specialite,
    generate_payments, generate_rappel, get_banques, get_paiments, get_rappels, get_resident_id,
    get_residents, get_specialites, login, modify_resident, modify_specialite, AppState,
    CommandError, Database, Date, LoginPayload, NewResident, NewSpecialite, Resident, Specialite,
};

fn date(year: i32, month: u8, day: u8) -> Date {
    Date { year, month, day }
}

fn new_resident() -> NewResident {
    NewResident {
        nom_prenom: "Amina Kaci".to_string(),
        date_debut: date(2023, 9, 1),
        id_specialite: Some(1),
        rib: "00123".to_string(),
        id_banque: Some(1),
        nombre_enfants: Some(0),
    }
}

fn full_resident() -> Resident {
    Resident {
        id_resident: 1,
        nom_prenom: "Amina Kaci".to_string(),
        date_debut: date(2023, 9, 1),
        id_specialite: Some(1),
        date_fin: None,
        rib: "00123".to_string(),
        id_banque: Some(1),
        nombre_enfants: 0,
        nom_specialite: None,
        nom_banque: None,
    }
}

#[test]
fn every_handler_fails_fast_without_a_connection() {
    let mut st = AppState::new();
    let nc = CommandError::NotConnected;
    assert_eq!(
        login(&st, &LoginPayload { username: "a".to_string(), password: "b".to_string() }),
        Err(nc.clone())
    );
    assert_eq!(get_banques(&st), Err(nc.clone()));
    assert_eq!(get_specialites(&st), Err(nc.clone()));
    assert_eq!(
        add_specialite(&mut st, NewSpecialite { nom: "Cardiologie".to_string(), nombre_annees: 5 }),
        Err(nc.clone())
    );
    assert_eq!(
        modify_specialite(
            &mut st,
            Specialite { id_specialite: 1, nom: "Cardiologie".to_string(), nombre_annees: 5 },
        ),
        Err(nc.clone())
    );
    assert_eq!(delete_specialite(&mut st, 1), Err(nc.clone()));
    assert_eq!(get_residents(&st), Err(nc.clone()));
    assert_eq!(get_resident_id(&st, "Amina Kaci".to_string()), Err(nc.clone()));
    assert_eq!(add_resident(&mut st, new_resident()), Err(nc.clone()));
    assert_eq!(modify_resident(&mut st, full_resident()), Err(nc.clone()));
    assert_eq!(delete_resident(&mut st, 1), Err(nc.clone()));
    assert_eq!(get_paiments(&st), Err(nc.clone()));
    assert_eq!(get_rappels(&st), Err(nc.clone()));
    assert_eq!(generate_payments(&st), Err(nc.clone()));
    assert_eq!(generate_rappel(&st, 1), Err(nc.clone()));
}

#[test]
fn connect_installs_a_working_handle() {
    let mut st = AppState::new();
    connect_db(&mut st, Database::new());
    assert_eq!(get_banques(&st), Ok(vec![]));
    assert_eq!(get_specialites(&st), Ok(vec![]));
    assert_eq!(get_residents(&st), Ok(vec![]));
    assert_eq!(get_paiments(&st), Ok(vec![]));
    assert_eq!(get_rappels(&st), Ok(vec![]));
}

#[test]
fn connect_replaces_the_prior_handle() {
    let mut st = AppState::new();
    let mut db1 = Database::new();
    db1.banques.push(residents_core::Banque { id_banque: 1, nom: "Une".to_string() });
    connect_db(&mut st, db1);
    assert_eq!(get_banques(&st).unwrap().len(), 1);
    connect_db(&mut st, Database::new());
    assert_eq!(get_banques(&st).unwrap().len(), 0);
}
