use vstd::prelude::*;
use vstd::string::StrSliceExecFns;
use crate::errors::ValidationError;
use crate::models::{NewResident, Resident};

verus! {

/// The minimal field set the validation rules read, shared by the stored
/// resident shape and the insertable one.
pub trait ValidatableResident {
    spec fn spec_rib(&self) -> Seq<char>;

    spec fn spec_nombre_enfants(&self) -> int;

    spec fn spec_id_specialite(&self) -> int;

    spec fn spec_id_banque(&self) -> int;

    fn rib(&self) -> (r: &str)
        ensures
            r@ == self.spec_rib(),
    ;

    fn nombre_enfants(&self) -> (r: i32)
        ensures
            r as int == self.spec_nombre_enfants(),
    ;

    fn id_specialite(&self) -> (r: i32)
        ensures
            r as int == self.spec_id_specialite(),
    ;

    fn id_banque(&self) -> (r: i32)
        ensures
            r as int == self.spec_id_banque(),
    ;
}

impl ValidatableResident for Resident {
    open spec fn spec_rib(&self) -> Seq<char> {
        self.rib@
    }

    open spec fn spec_nombre_enfants(&self) -> int {
        self.nombre_enfants as int
    }

    open spec fn spec_id_specialite(&self) -> int {
        match self.id_specialite {
            Some(id) => id as int,
            None => 0,
        }
    }

    open spec fn spec_id_banque(&self) -> int {
        match self.id_banque {
            Some(id) => id as int,
            None => 0,
        }
    }

    fn rib(&self) -> &str {
        self.rib.as_str()
    }

    fn nombre_enfants(&self) -> i32 {
        self.nombre_enfants
    }

    fn id_specialite(&self) -> i32 {
        self.id_specialite.unwrap_or(0)
    }

    fn id_banque(&self) -> i32 {
        self.id_banque.unwrap_or(0)
    }
}

impl ValidatableResident for NewResident {
    open spec fn spec_rib(&self) -> Seq<char> {
        self.rib@
    }

    open spec fn spec_nombre_enfants(&self) -> int {
        match self.nombre_enfants {
            Some(n) => n as int,
            None => 0,
        }
    }

    open spec fn spec_id_specialite(&self) -> int {
        match self.id_specialite {
            Some(id) => id as int,
            None => 0,
        }
    }

    open spec fn spec_id_banque(&self) -> int {
        match self.id_banque {
            Some(id) => id as int,
            None => 0,
        }
    }

    fn rib(&self) -> &str {
        self.rib.as_str()
    }

    fn nombre_enfants(&self) -> i32 {
        self.nombre_enfants.unwrap_or(0)
    }

    fn id_specialite(&self) -> i32 {
        self.id_specialite.unwrap_or(0)
    }

    fn id_banque(&self) -> i32 {
        self.id_banque.unwrap_or(0)
    }
}

/// Whether a character is one of the ten ASCII digits (the scalar values
/// of '0' through '9').
pub open spec fn spec_is_ascii_digit(c: char) -> bool {
    48 <= c as u32 <= 57
}

/// Whether a string holds ASCII digits and nothing else. The empty string
/// holds no other character, so it passes.
pub open spec fn spec_all_ascii_digits(s: Seq<char>) -> bool {
    forall|i: int| 0 <= i < s.len() ==> spec_is_ascii_digit(#[trigger] s[i])
}

/// Decides whether a string is purely numeric: every character an ASCII
/// digit.
pub fn all_ascii_digits(s: &str) -> (r: bool)
    ensures
        r == spec_all_ascii_digits(s@),
{
    let n: usize = s.unicode_len();
    let mut i: usize = 0;
    while i < n
        invariant
            i <= n,
            n == s@.len(),
            forall|j: int| 0 <= j < i ==> spec_is_ascii_digit(#[trigger] s@[j]),
        decreases n - i,
    {
        let c: char = s.get_char(i);
        let u: u32 = c as u32;
        if u < 48 || u > 57 {
            return false;
        }
        i = i + 1;
    }
    true
}

/// What validation returns on a payload: the first rule broken, in checking
/// order, or acceptance. A payload passes exactly when its account number
/// is purely numeric, its children count is non-negative and its specialty
/// and bank references are positive.
pub open spec fn spec_validate<R: ValidatableResident>(resident: &R) -> Result<
    (),
    ValidationError,
> {
    if !spec_all_ascii_digits(resident.spec_rib()) {
        Err(ValidationError::NonNumericAccountNumber)
    } else if resident.spec_nombre_enfants() < 0 {
        Err(ValidationError::InvalidNumberOfChildren)
    } else if resident.spec_id_specialite() <= 0 {
        Err(ValidationError::EmptySpecialtyID)
    } else if resident.spec_id_banque() <= 0 {
        Err(ValidationError::EmptyBankID)
    } else {
        Ok(())
    }
}

/// Checks a resident payload before an insert or update: account number
/// purely numeric, then children count non-negative, then specialty
/// reference set, then bank reference set. The first violated rule is
/// reported; none of the rules aggregates.
pub fn validate_resident<R: ValidatableResident>(resident: &R) -> (r: Result<(), ValidationError>)
    ensures
        r == spec_validate(resident),
{
    if !all_ascii_digits(resident.rib()) {
        return Err(ValidationError::NonNumericAccountNumber);
    }
    if resident.nombre_enfants() < 0 {
        return Err(ValidationError::InvalidNumberOfChildren);
    }
    if resident.id_specialite() <= 0 {
        return Err(ValidationError::EmptySpecialtyID);
    }
    if resident.id_banque() <= 0 {
        return Err(ValidationError::EmptyBankID);
    }
    Ok(())
}

} // verus!
