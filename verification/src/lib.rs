//! Verified core of a residents' payment management backend.
//!
//! The library models the whole command layer of the application: record
//! types for residents, specialties, banks and generated payment rows, the
//! validation rules, and one handler per operation (login, listing, add,
//! modify, delete, and triggering the payment-generating stored procedures).
//! The database visible to the handlers is held as an explicit store
//! ([`Database`]) behind an optional connection handle ([`AppState`]), so
//! every handler's effect on the store is stated and proved. An embedding
//! that talks to a real SQL server issues one statement per handler with the
//! semantics written here.

mod clock;
mod dates;
mod db;
mod errors;
mod models;
mod payments;
mod resident;
mod specialty;
mod store;
mod validation;
mod auth;

pub use dates::Date;
pub use db::{connect_db, get_banques};
pub use payments::{
    generate_payments, generate_rappel, get_paiments, get_rappels, spec_denormalize_paiement,
    spec_denormalize_rappel, spec_paiements_view, spec_rappels_view,
};
pub use errors::{CommandError, MyError, ValidationError};
pub use auth::{lemma_login_log_password_free, login, login_log_event, spec_login, spec_login_log, LogEvent};
pub use resident::{
    add_resident, delete_resident, get_resident_id, get_residents,
    lemma_delete_resident_absent_noop, modify_resident, residents_on, spec_delete_resident_rows,
    spec_denormalize_resident, spec_new_resident_row, spec_resident_active,
    spec_is_residents_listing, spec_resident_id_by_name, spec_residents_view,
    spec_residents_view_opt, spec_residents_view_rows,
    spec_update_resident_rows,
};
pub use specialty::{
    add_specialite, delete_specialite, get_specialites, lemma_delete_specialite_absent_noop,
    lemma_modify_own_name_passes, modify_specialite, spec_delete_specialite_rows,
    spec_update_specialite_rows,
};
pub use validation::{
    all_ascii_digits, spec_all_ascii_digits, spec_is_ascii_digit, spec_validate,
    validate_resident, ValidatableResident,
};
pub use store::{
    find_admin, find_banque_nom, find_resident, find_specialite_nom, spec_banque_nom,
    spec_find_admin, spec_find_banque, spec_find_resident, spec_find_specialite,
    spec_specialite_nom, spec_specialite_nom_taken, spec_specialite_nom_taken_excluding,
    specialite_nom_taken, specialite_nom_taken_excluding, AppState, Database, DbView,
};
pub use models::{
    AdminAccount, Banque, DbConfig, LoginPayload, NewResident, NewSpecialite, PaiementMensuel,
    PaiementRow, ProcedureCall, RappelAnnuel, RappelRow, Resident, ResidentRow, Specialite,
};
