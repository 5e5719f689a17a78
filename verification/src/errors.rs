use vstd::prelude::*;
use vstd::string::StringExecFns;

verus! {

/// An opaque failure reported by the database driver, carried as the
/// driver's message.
#[derive(Debug, PartialEq, Eq)]
pub struct MyError {
    pub message: String,
}

impl Clone for MyError {
    fn clone(&self) -> (r: Self)
        ensures
            r == *self,
    {
        MyError { message: self.message.clone() }
    }
}

/// The rules a resident payload can break, in the order they are checked.
#[derive(Clone, Copy, PartialEq, Eq, Structural, Debug)]
pub enum ValidationError {
    NonNumericAccountNumber,
    InvalidNumberOfChildren,
    EmptySpecialtyID,
    EmptyBankID,
}

impl ValidationError {
    /// The user-facing message of each rule.
    pub fn message(&self) -> (r: &'static str)
        ensures
            *self is NonNumericAccountNumber ==> r@ == "Le numéro de compte doit être composé uniquement de chiffres"@,
            *self is InvalidNumberOfChildren ==> r@ == "Le nombre d'enfants ne peut pas être négatif"@,
            *self is EmptySpecialtyID ==> r@ == "Veuillez sélectionner une spécialité"@,
            *self is EmptyBankID ==> r@ == "Veuillez sélectionner une banque"@,
    {
        match self {
            ValidationError::NonNumericAccountNumber => "Le numéro de compte doit être composé uniquement de chiffres",
            ValidationError::InvalidNumberOfChildren => "Le nombre d'enfants ne peut pas être négatif",
            ValidationError::EmptySpecialtyID => "Veuillez sélectionner une spécialité",
            ValidationError::EmptyBankID => "Veuillez sélectionner une banque",
        }
    }
}

/// The closed error taxonomy of the command layer. Handlers return these;
/// the user-interface boundary maps them to strings.
#[derive(Debug, PartialEq, Eq)]
pub enum CommandError {
    /// No connection handle is installed.
    NotConnected,
    /// A resident payload broke a validation rule.
    Validation(ValidationError),
    /// A specialty name is already taken by another row.
    DuplicateName,
    /// A looked-up record does not exist.
    NotFound,
    /// A supplied password does not match the stored one.
    InvalidCredentials,
    /// A database-level failure, wrapped verbatim.
    Query(MyError),
}

impl Clone for CommandError {
    fn clone(&self) -> (r: Self)
        ensures
            r == *self,
    {
        match self {
            CommandError::NotConnected => CommandError::NotConnected,
            CommandError::Validation(v) => CommandError::Validation(*v),
            CommandError::DuplicateName => CommandError::DuplicateName,
            CommandError::NotFound => CommandError::NotFound,
            CommandError::InvalidCredentials => CommandError::InvalidCredentials,
            CommandError::Query(m) => CommandError::Query(m.clone()),
        }
    }
}

/// The message wrapped when the serial counter of a table is spent: the
/// one database-level failure the store itself can raise.
pub(crate) fn exhausted_message() -> (r: String)
    ensures
        r@ == "id sequence exhausted"@,
{
    String::from_str("id sequence exhausted")
}

} // verus!
