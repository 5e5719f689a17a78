use vstd::prelude::*;
use crate::models::{AdminAccount, Banque, PaiementRow, RappelRow, ResidentRow, Specialite};

verus! {

/// The mathematical content of the store: one sequence per table, in the
/// order the database returns rows, plus the next identifier each serial
/// column would assign.
pub struct DbView {
    pub admins: Seq<AdminAccount>,
    pub banques: Seq<Banque>,
    pub specialites: Seq<Specialite>,
    pub residents: Seq<ResidentRow>,
    pub paiements: Seq<PaiementRow>,
    pub rappels: Seq<RappelRow>,
    pub next_specialite: int,
    pub next_resident: int,
}

impl DbView {
    /// Specialty rows carry positive identifiers below the serial counter,
    /// pairwise distinct, and pairwise distinct names: the uniqueness this
    /// layer's duplicate pre-check enforces.
    pub open spec fn specialites_wf(self) -> bool {
        &&& 1 <= self.next_specialite <= i32::MAX
        &&& forall|i: int|
            0 <= i < self.specialites.len() ==> 0 < (
            #[trigger] self.specialites[i]).id_specialite < self.next_specialite
        &&& forall|i: int, j: int|
            #![trigger self.specialites[i], self.specialites[j]]
            0 <= i < j < self.specialites.len() ==> self.specialites[i].id_specialite
                != self.specialites[j].id_specialite
        &&& forall|i: int, j: int|
            #![trigger self.specialites[i], self.specialites[j]]
            0 <= i < j < self.specialites.len() ==> self.specialites[i].nom@
                != self.specialites[j].nom@
    }

    /// Resident rows carry positive identifiers below the serial counter,
    /// pairwise distinct, and a non-negative children count: the invariant
    /// the validation rules enforce on every write.
    pub open spec fn residents_wf(self) -> bool {
        &&& 1 <= self.next_resident <= i32::MAX
        &&& forall|i: int|
            0 <= i < self.residents.len() ==> 0 < (
            #[trigger] self.residents[i]).id_resident < self.next_resident
        &&& forall|i: int, j: int|
            #![trigger self.residents[i], self.residents[j]]
            0 <= i < j < self.residents.len() ==> self.residents[i].id_resident
                != self.residents[j].id_resident
        &&& forall|i: int|
            0 <= i < self.residents.len() ==> (#[trigger] self.residents[i]).nombre_enfants >= 0
    }

    /// Bank rows carry positive, pairwise distinct identifiers.
    pub open spec fn banques_wf(self) -> bool {
        &&& forall|i: int| 0 <= i < self.banques.len() ==> (#[trigger] self.banques[i]).id_banque > 0
        &&& forall|i: int, j: int|
            #![trigger self.banques[i], self.banques[j]]
            0 <= i < j < self.banques.len() ==> self.banques[i].id_banque
                != self.banques[j].id_banque
    }

    pub open spec fn wf(self) -> bool {
        self.specialites_wf() && self.residents_wf() && self.banques_wf()
    }

    /// Everything but the specialty table and its serial counter agrees
    /// with `other`.
    pub open spec fn same_except_specialites(self, other: DbView) -> bool {
        &&& other.admins == self.admins
        &&& other.banques == self.banques
        &&& other.residents == self.residents
        &&& other.paiements == self.paiements
        &&& other.rappels == self.rappels
        &&& other.next_resident == self.next_resident
    }

    /// Everything but the residents table and its serial counter agrees
    /// with `other`.
    pub open spec fn same_except_residents(self, other: DbView) -> bool {
        &&& other.admins == self.admins
        &&& other.banques == self.banques
        &&& other.specialites == self.specialites
        &&& other.paiements == self.paiements
        &&& other.rappels == self.rappels
        &&& other.next_specialite == self.next_specialite
    }
}

/// The store the command layer sees: the tables the statements touch and
/// the serial counters of the two tables this layer inserts into.
pub struct Database {
    pub admins: Vec<AdminAccount>,
    pub banques: Vec<Banque>,
    pub specialites: Vec<Specialite>,
    pub residents: Vec<ResidentRow>,
    pub paiements: Vec<PaiementRow>,
    pub rappels: Vec<RappelRow>,
    pub next_specialite: i32,
    pub next_resident: i32,
}

impl View for Database {
    type V = DbView;

    open spec fn view(&self) -> DbView {
        DbView {
            admins: self.admins@,
            banques: self.banques@,
            specialites: self.specialites@,
            residents: self.residents@,
            paiements: self.paiements@,
            rappels: self.rappels@,
            next_specialite: self.next_specialite as int,
            next_resident: self.next_resident as int,
        }
    }
}

impl Database {
    pub open spec fn wf(self) -> bool {
        self@.wf()
    }

    /// An empty store with fresh serial counters.
    pub fn new() -> (d: Database)
        ensures
            d@.admins.len() == 0,
            d@.banques.len() == 0,
            d@.specialites.len() == 0,
            d@.residents.len() == 0,
            d@.paiements.len() == 0,
            d@.rappels.len() == 0,
            d@.next_specialite == 1,
            d@.next_resident == 1,
            d.wf(),
    {
        Database {
            admins: Vec::new(),
            banques: Vec::new(),
            specialites: Vec::new(),
            residents: Vec::new(),
            paiements: Vec::new(),
            rappels: Vec::new(),
            next_specialite: 1,
            next_resident: 1,
        }
    }
}

/// The single shared resource of the layer: an optional connection handle.
/// Every handler reads it and fails fast when it is absent.
pub struct AppState {
    pub pool: Option<Database>,
}

impl View for AppState {
    type V = Option<DbView>;

    open spec fn view(&self) -> Option<DbView> {
        match self.pool {
            Some(db) => Some(db@),
            None => None,
        }
    }
}

impl AppState {
    pub open spec fn wf(self) -> bool {
        match self@ {
            Some(db) => db.wf(),
            None => true,
        }
    }

    /// A state with no connection established.
    pub fn new() -> (s: AppState)
        ensures
            s@ is None,
            s.wf(),
    {
        AppState { pool: None }
    }
}

/// The first specialty row carrying the given identifier, in table order.
pub open spec fn spec_find_specialite(s: Seq<Specialite>, id: i32) -> Option<Specialite>
    decreases s.len(),
{
    if s.len() == 0 {
        None
    } else if s[0].id_specialite == id {
        Some(s[0])
    } else {
        spec_find_specialite(s.drop_first(), id)
    }
}

/// The first bank row carrying the given identifier, in table order.
pub open spec fn spec_find_banque(s: Seq<Banque>, id: i32) -> Option<Banque>
    decreases s.len(),
{
    if s.len() == 0 {
        None
    } else if s[0].id_banque == id {
        Some(s[0])
    } else {
        spec_find_banque(s.drop_first(), id)
    }
}

/// The first resident row carrying the given identifier, in table order.
pub open spec fn spec_find_resident(s: Seq<ResidentRow>, id: i32) -> Option<ResidentRow>
    decreases s.len(),
{
    if s.len() == 0 {
        None
    } else if s[0].id_resident == id {
        Some(s[0])
    } else {
        spec_find_resident(s.drop_first(), id)
    }
}

/// The first admin row stored under the given username, in table order.
pub open spec fn spec_find_admin(s: Seq<AdminAccount>, username: Seq<char>) -> Option<AdminAccount>
    decreases s.len(),
{
    if s.len() == 0 {
        None
    } else if s[0].username@ == username {
        Some(s[0])
    } else {
        spec_find_admin(s.drop_first(), username)
    }
}

/// The name of the specialty with the given identifier, if any.
pub open spec fn spec_specialite_nom(s: Seq<Specialite>, id: i32) -> Option<String> {
    match spec_find_specialite(s, id) {
        Some(x) => Some(x.nom),
        None => None,
    }
}

/// The name of the bank with the given identifier, if any.
pub open spec fn spec_banque_nom(s: Seq<Banque>, id: i32) -> Option<String> {
    match spec_find_banque(s, id) {
        Some(x) => Some(x.nom),
        None => None,
    }
}

/// Looks up the name of the specialty with the given identifier.
pub fn find_specialite_nom(s: &Vec<Specialite>, id: i32) -> (r: Option<String>)
    ensures
        r == spec_specialite_nom(s@, id),
{
    let n: usize = s.len();
    proof {
        assert(s@.subrange(0, n as int) =~= s@);
    }
    let mut i: usize = 0;
    while i < n
        invariant
            i <= n,
            n == s@.len(),
            spec_find_specialite(s@, id) == spec_find_specialite(s@.subrange(i as int, n as int), id),
        decreases n - i,
    {
        let ghost suffix = s@.subrange(i as int, n as int);
        if s[i].id_specialite == id {
            proof {
                assert(suffix[0] == s@[i as int]);
            }
            return Some(s[i].nom.clone());
        }
        proof {
            assert(suffix[0] == s@[i as int]);
            assert(suffix.drop_first() =~= s@.subrange(i + 1, n as int));
        }
        i = i + 1;
    }
    proof {
        assert(s@.subrange(n as int, n as int).len() == 0);
    }
    None
}

/// Looks up the name of the bank with the given identifier.
pub fn find_banque_nom(s: &Vec<Banque>, id: i32) -> (r: Option<String>)
    ensures
        r == spec_banque_nom(s@, id),
{
    let n: usize = s.len();
    proof {
        assert(s@.subrange(0, n as int) =~= s@);
    }
    let mut i: usize = 0;
    while i < n
        invariant
            i <= n,
            n == s@.len(),
            spec_find_banque(s@, id) == spec_find_banque(s@.subrange(i as int, n as int), id),
        decreases n - i,
    {
        let ghost suffix = s@.subrange(i as int, n as int);
        if s[i].id_banque == id {
            proof {
                assert(suffix[0] == s@[i as int]);
            }
            return Some(s[i].nom.clone());
        }
        proof {
            assert(suffix[0] == s@[i as int]);
            assert(suffix.drop_first() =~= s@.subrange(i + 1, n as int));
        }
        i = i + 1;
    }
    proof {
        assert(s@.subrange(n as int, n as int).len() == 0);
    }
    None
}

/// Looks up the resident row with the given identifier.
pub fn find_resident(s: &Vec<ResidentRow>, id: i32) -> (r: Option<&ResidentRow>)
    ensures
        (match r {
            Some(x) => spec_find_resident(s@, id) == Some(*x),
            None => spec_find_resident(s@, id) is None,
        }),
{
    let n: usize = s.len();
    proof {
        assert(s@.subrange(0, n as int) =~= s@);
    }
    let mut i: usize = 0;
    while i < n
        invariant
            i <= n,
            n == s@.len(),
            spec_find_resident(s@, id) == spec_find_resident(s@.subrange(i as int, n as int), id),
        decreases n - i,
    {
        let ghost suffix = s@.subrange(i as int, n as int);
        if s[i].id_resident == id {
            proof {
                assert(suffix[0] == s@[i as int]);
            }
            return Some(&s[i]);
        }
        proof {
            assert(suffix[0] == s@[i as int]);
            assert(suffix.drop_first() =~= s@.subrange(i + 1, n as int));
        }
        i = i + 1;
    }
    proof {
        assert(s@.subrange(n as int, n as int).len() == 0);
    }
    None
}

/// Looks up the admin row stored under the given username.
pub fn find_admin<'a>(s: &'a Vec<AdminAccount>, username: &String) -> (r: Option<&'a AdminAccount>)
    ensures
        (match r {
            Some(x) => spec_find_admin(s@, username@) == Some(*x),
            None => spec_find_admin(s@, username@) is None,
        }),
{
    let n: usize = s.len();
    proof {
        assert(s@.subrange(0, n as int) =~= s@);
    }
    let mut i: usize = 0;
    while i < n
        invariant
            i <= n,
            n == s@.len(),
            spec_find_admin(s@, username@) == spec_find_admin(
                s@.subrange(i as int, n as int),
                username@,
            ),
        decreases n - i,
    {
        let ghost suffix = s@.subrange(i as int, n as int);
        if s[i].username == *username {
            proof {
                assert(suffix[0] == s@[i as int]);
            }
            return Some(&s[i]);
        }
        proof {
            assert(suffix[0] == s@[i as int]);
            assert(suffix.drop_first() =~= s@.subrange(i + 1, n as int));
        }
        i = i + 1;
    }
    proof {
        assert(s@.subrange(n as int, n as int).len() == 0);
    }
    None
}

/// Whether some specialty row already carries the given name.
pub open spec fn spec_specialite_nom_taken(s: Seq<Specialite>, nom: Seq<char>) -> bool {
    exists|i: int| 0 <= i < s.len() && (#[trigger] s[i]).nom@ == nom
}

/// Whether some specialty row other than the one identified carries the
/// given name.
pub open spec fn spec_specialite_nom_taken_excluding(
    s: Seq<Specialite>,
    nom: Seq<char>,
    id: i32,
) -> bool {
    exists|i: int|
        0 <= i < s.len() && (#[trigger] s[i]).nom@ == nom && s[i].id_specialite != id
}

/// The duplicate pre-check before an insert: counts rows with the name.
pub fn specialite_nom_taken(s: &Vec<Specialite>, nom: &String) -> (r: bool)
    ensures
        r == spec_specialite_nom_taken(s@, nom@),
{
    let n: usize = s.len();
    let mut i: usize = 0;
    while i < n
        invariant
            i <= n,
            n == s@.len(),
            forall|j: int| 0 <= j < i ==> (#[trigger] s@[j]).nom@ != nom@,
        decreases n - i,
    {
        if s[i].nom == *nom {
            return true;
        }
        i = i + 1;
    }
    false
}

/// The duplicate pre-check before an update: counts rows with the name,
/// the updated row itself excluded.
pub fn specialite_nom_taken_excluding(s: &Vec<Specialite>, nom: &String, id: i32) -> (r: bool)
    ensures
        r == spec_specialite_nom_taken_excluding(s@, nom@, id),
{
    let n: usize = s.len();
    let mut i: usize = 0;
    while i < n
        invariant
            i <= n,
            n == s@.len(),
            forall|j: int|
                0 <= j < i ==> !((#[trigger] s@[j]).nom@ == nom@ && s@[j].id_specialite != id),
        decreases n - i,
    {
        if s[i].nom == *nom && s[i].id_specialite != id {
            return true;
        }
        i = i + 1;
    }
    false
}

} // verus!
