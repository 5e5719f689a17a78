use residents_core::{Date, NewResident, Resident, ValidationError, validate_resident};

fn date(year: i32, month: u8, day: u8) -> Date {
    Date { year, month, day }
}

fn new_resident(
    nombre_enfants: Option<i32>,
    id_specialite: Option<i32>,
    id_banque: Option<i32>,
) -> NewResident {
    NewResident {
        nom_prenom: "Amina Kaci".to_string(),
        date_debut: date(2023, 9, 1),
        id_specialite,
        rib: "00123456789".to_string(),
        id_banque,
        nombre_enfants,
    }
}

#[test]
fn date_new_accepts_valid() {
    let d = Date::new(2024, 2, 29).unwrap();
    assert_eq!(d, date(2024, 2, 29));
}

#[test]
fn date_new_rejects_out_of_range_fields() {
    assert!(Date::new(2024, 0, 10).is_none());
    assert!(Date::new(2024, 13, 10).is_none());
    assert!(Date::new(2024, 5, 0).is_none());
    assert!(Date::new(2024, 5, 32).is_none());
}

#[test]
fn date_before_is_lexicographic() {
    assert!(date(2023, 12, 31).before(&date(2024, 1, 1)));
    assert!(date(2024, 3, 10).before(&date(2024, 4, 9)));
    assert!(date(2024, 4, 9).before(&date(2024, 4, 10)));
    assert!(!date(2024, 4, 10).before(&date(2024, 4, 10)));
    assert!(!date(2024, 4, 10).before(&date(2024, 4, 9)));
}

#[test]
fn validate_reports_non_numeric_account_number_first() {
    // The account-number rule comes before every other rule.
    let mut r = new_resident(Some(-1), None, None);
    r.rib = "123-456".to_string();
    assert_eq!(validate_resident(&r), Err(ValidationError::NonNumericAccountNumber));
    r.rib = "12 34".to_string();
    assert_eq!(validate_resident(&r), Err(ValidationError::NonNumericAccountNumber));
}

#[test]
fn validate_accepts_an_empty_account_number() {
    // An empty account number holds no non-digit character.
    let mut r = new_resident(Some(0), Some(1), Some(1));
    r.rib = String::new();
    assert_eq!(validate_resident(&r), Ok(()));
}

#[test]
fn validate_reports_negative_children_first() {
    // With a numeric account number, the children rule is checked before
    // the specialty and bank rules.
    let r = new_resident(Some(-1), None, None);
    assert_eq!(validate_resident(&r), Err(ValidationError::InvalidNumberOfChildren));
}

#[test]
fn validate_reports_missing_specialty() {
    let r = new_resident(Some(0), None, Some(2));
    assert_eq!(validate_resident(&r), Err(ValidationError::EmptySpecialtyID));
    let r2 = new_resident(None, Some(0), Some(2));
    assert_eq!(validate_resident(&r2), Err(ValidationError::EmptySpecialtyID));
}

#[test]
fn validate_reports_missing_bank() {
    let r = new_resident(Some(2), Some(1), None);
    assert_eq!(validate_resident(&r), Err(ValidationError::EmptyBankID));
    let r2 = new_resident(Some(2), Some(1), Some(0));
    assert_eq!(validate_resident(&r2), Err(ValidationError::EmptyBankID));
}

#[test]
fn validate_accepts_valid_payload() {
    assert_eq!(validate_resident(&new_resident(Some(0), Some(1), Some(1))), Ok(()));
    // An absent children count is read as zero and passes.
    assert_eq!(validate_resident(&new_resident(None, Some(3), Some(2))), Ok(()));
}

#[test]
fn validate_full_resident_shape() {
    let r = Resident {
        id_resident: 7,
        nom_prenom: "Nadir Bellal".to_string(),
        date_debut: date(2022, 11, 2),
        id_specialite: Some(4),
        date_fin: None,
        rib: "99887766".to_string(),
        id_banque: None,
        nombre_enfants: 1,
        nom_specialite: None,
        nom_banque: None,
    };
    // The bank reference is absent, read as zero.
    assert_eq!(validate_resident(&r), Err(ValidationError::EmptyBankID));
}

#[test]
fn validation_messages_are_the_user_facing_strings() {
    assert_eq!(
        ValidationError::NonNumericAccountNumber.message(),
        "Le numéro de compte doit être composé uniquement de chiffres"
    );
    assert_eq!(
        ValidationError::InvalidNumberOfChildren.message(),
        "Le nombre d'enfants ne peut pas être négatif"
    );
    assert_eq!(ValidationError::EmptySpecialtyID.message(), "Veuillez sélectionner une spécialité");
    assert_eq!(ValidationError::EmptyBankID.message(), "Veuillez sélectionner une banque");
}
