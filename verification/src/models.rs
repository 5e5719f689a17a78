use vstd::prelude::*;
use crate::dates::Date;

verus! {

/// Connection parameters for the database, as the configuration surface
/// hands them over.
#[derive(Debug, PartialEq, Eq)]
pub struct DbConfig {
    pub host: String,
    pub user: String,
    pub password: String,
    pub database: String,
    pub port: u16,
}

/// Credentials supplied to the login handler.
#[derive(Debug, PartialEq, Eq)]
pub struct LoginPayload {
    pub username: String,
    pub password: String,
}

/// A stored credential row of the admin table.
#[derive(Debug, PartialEq, Eq)]
pub struct AdminAccount {
    pub username: String,
    pub password: String,
}

impl Clone for AdminAccount {
    fn clone(&self) -> (r: Self)
        ensures
            r == *self,
    {
        AdminAccount { username: self.username.clone(), password: self.password.clone() }
    }
}

/// A banking institution row.
#[derive(Debug, PartialEq, Eq)]
pub struct Banque {
    pub id_banque: i32,
    pub nom: String,
}

impl Clone for Banque {
    fn clone(&self) -> (r: Self)
        ensures
            r == *self,
    {
        Banque { id_banque: self.id_banque, nom: self.nom.clone() }
    }
}

/// A stored specialty row: unique name and residency duration in years.
#[derive(Debug, PartialEq, Eq)]
pub struct Specialite {
    pub id_specialite: i32,
    pub nom: String,
    pub nombre_annees: i32,
}

impl Clone for Specialite {
    fn clone(&self) -> (r: Self)
        ensures
            r == *self,
    {
        Specialite {
            id_specialite: self.id_specialite,
            nom: self.nom.clone(),
            nombre_annees: self.nombre_annees,
        }
    }
}

/// A specialty to insert, before the server assigns its identifier.
#[derive(Debug, PartialEq, Eq)]
pub struct NewSpecialite {
    pub nom: String,
    pub nombre_annees: i32,
}

impl Clone for NewSpecialite {
    fn clone(&self) -> (r: Self)
        ensures
            r == *self,
    {
        NewSpecialite { nom: self.nom.clone(), nombre_annees: self.nombre_annees }
    }
}

/// A resident row as the residents table stores it, without the joined
/// display columns.
#[derive(Debug, PartialEq, Eq)]
pub struct ResidentRow {
    pub id_resident: i32,
    pub nom_prenom: String,
    pub date_debut: Date,
    pub id_specialite: Option<i32>,
    pub date_fin: Option<Date>,
    pub rib: String,
    pub id_banque: Option<i32>,
    pub nombre_enfants: i32,
}

impl Clone for ResidentRow {
    fn clone(&self) -> (r: Self)
        ensures
            r == *self,
    {
        ResidentRow {
            id_resident: self.id_resident,
            nom_prenom: self.nom_prenom.clone(),
            date_debut: self.date_debut,
            id_specialite: self.id_specialite,
            date_fin: self.date_fin,
            rib: self.rib.clone(),
            id_banque: self.id_banque,
            nombre_enfants: self.nombre_enfants,
        }
    }
}

/// A resident as the listing returns it: the stored row joined with the
/// names of its specialty and bank, when those references resolve.
#[derive(Debug, PartialEq, Eq)]
pub struct Resident {
    pub id_resident: i32,
    pub nom_prenom: String,
    pub date_debut: Date,
    pub id_specialite: Option<i32>,
    pub date_fin: Option<Date>,
    pub rib: String,
    pub id_banque: Option<i32>,
    pub nombre_enfants: i32,
    pub nom_specialite: Option<String>,
    pub nom_banque: Option<String>,
}

impl Clone for Resident {
    fn clone(&self) -> (r: Self)
        ensures
            r == *self,
    {
        Resident {
            id_resident: self.id_resident,
            nom_prenom: self.nom_prenom.clone(),
            date_debut: self.date_debut,
            id_specialite: self.id_specialite,
            date_fin: self.date_fin,
            rib: self.rib.clone(),
            id_banque: self.id_banque,
            nombre_enfants: self.nombre_enfants,
            nom_specialite: clone_opt_string(&self.nom_specialite),
            nom_banque: clone_opt_string(&self.nom_banque),
        }
    }
}

/// A resident to insert, before the server assigns its identifier. The end
/// date is not part of the insert statement and starts out absent.
#[derive(Debug, PartialEq, Eq)]
pub struct NewResident {
    pub nom_prenom: String,
    pub date_debut: Date,
    pub id_specialite: Option<i32>,
    pub rib: String,
    pub id_banque: Option<i32>,
    pub nombre_enfants: Option<i32>,
}

impl Clone for NewResident {
    fn clone(&self) -> (r: Self)
        ensures
            r == *self,
    {
        NewResident {
            nom_prenom: self.nom_prenom.clone(),
            date_debut: self.date_debut,
            id_specialite: self.id_specialite,
            rib: self.rib.clone(),
            id_banque: self.id_banque,
            nombre_enfants: self.nombre_enfants,
        }
    }
}

/// A monthly payment row as the payments table stores it. Amounts are in
/// the currency's smallest unit. These rows are written only by the
/// database-side stored procedure; this layer reads them.
#[derive(Debug, PartialEq, Eq)]
pub struct PaiementRow {
    pub id_paiement: i32,
    pub id_resident: Option<i32>,
    pub jours_travail: i32,
    pub allocations_familiales: Option<i64>,
    pub montant: i64,
    pub date_paiement: Date,
}

impl Clone for PaiementRow {
    fn clone(&self) -> (r: Self)
        ensures
            r == *self,
    {
        PaiementRow {
            id_paiement: self.id_paiement,
            id_resident: self.id_resident,
            jours_travail: self.jours_travail,
            allocations_familiales: self.allocations_familiales,
            montant: self.montant,
            date_paiement: self.date_paiement,
        }
    }
}

/// A monthly payment as the listing returns it: the stored row joined with
/// the resident's name, account number and bank name, when the references
/// resolve.
#[derive(Debug, PartialEq, Eq)]
pub struct PaiementMensuel {
    pub id_paiement: i32,
    pub id_resident: Option<i32>,
    pub jours_travail: i32,
    pub allocations_familiales: Option<i64>,
    pub montant: i64,
    pub date_paiement: Date,
    pub nom_resident: Option<String>,
    pub rib: Option<String>,
    pub nom_banque: Option<String>,
}

/// A yearly reminder row as the reminders table stores it. These rows are
/// written only by the database-side stored procedure; this layer reads
/// them.
#[derive(Debug, PartialEq, Eq)]
pub struct RappelRow {
    pub id_rappel: i32,
    pub id_resident: i32,
    pub exercice: i32,
    pub duree_rappel: i32,
    pub montant: i64,
    pub date_generation: Option<Date>,
}

impl Clone for RappelRow {
    fn clone(&self) -> (r: Self)
        ensures
            r == *self,
    {
        RappelRow {
            id_rappel: self.id_rappel,
            id_resident: self.id_resident,
            exercice: self.exercice,
            duree_rappel: self.duree_rappel,
            montant: self.montant,
            date_generation: self.date_generation,
        }
    }
}

/// A yearly reminder as the listing returns it, with the joined display
/// columns.
#[derive(Debug, PartialEq, Eq)]
pub struct RappelAnnuel {
    pub id_rappel: i32,
    pub id_resident: Option<i32>,
    pub exercice: i32,
    pub duree_rappel: i32,
    pub montant: i64,
    pub nom_resident: Option<String>,
    pub rib: Option<String>,
    pub nom_banque: Option<String>,
    pub date_generation: Option<Date>,
}

/// A stored-procedure invocation that a generate handler asks the database
/// to run. The embedding executes it verbatim.
#[derive(Clone, Copy, PartialEq, Eq, Structural, Debug)]
pub enum ProcedureCall {
    GenerateMonthlyPayments { date: Date },
    GenerateYearlyPayments { resident_id: i32, date: Date },
}

/// Clones an optional string, keeping its content.
pub(crate) fn clone_opt_string(s: &Option<String>) -> (r: Option<String>)
    ensures
        r == *s,
{
    match s {
        Some(x) => Some(x.clone()),
        None => None,
    }
}

} // verus!
