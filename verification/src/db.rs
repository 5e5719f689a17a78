use vstd::prelude::*;
use crate::errors::CommandError;
use crate::models::Banque;
use crate::store::{AppState, Database};

verus! {

/// Installs a connection to the given store, replacing any prior handle.
/// The embedding builds the real pooled connection first and hands the
/// reachable store over; every later handler borrows it through the
/// state.
pub fn connect_db(state: &mut AppState, db: Database)
    ensures
        final(state)@ == Some(db@),
        db.wf() ==> final(state).wf(),
{
    state.pool = Some(db);
}

/// Lists every bank row, in table order.
pub fn get_banques(state: &AppState) -> (r: Result<Vec<Banque>, CommandError>)
    ensures
        state@ is None <==> r is Err,
        r matches Err(e) ==> e is NotConnected,
        r matches Ok(v) ==> state@ matches Some(db) && v@ == db.banques,
{
    match &state.pool {
        None => Err(CommandError::NotConnected),
        Some(db) => Ok(clone_banques(&db.banques)),
    }
}

/// Copies the bank table row by row.
fn clone_banques(s: &Vec<Banque>) -> (r: Vec<Banque>)
    ensures
        r@ == s@,
{
    let n: usize = s.len();
    let mut out: Vec<Banque> = Vec::new();
    let mut i: usize = 0;
    while i < n
        invariant
            i <= n,
            n == s@.len(),
            out@ == s@.subrange(0, i as int),
        decreases n - i,
    {
        out.push(s[i].clone());
        proof {
            assert(s@.subrange(0, i as int + 1) =~= s@.subrange(0, i as int).push(s@[i as int]));
        }
        i = i + 1;
    }
    proof {
        assert(s@.subrange(0, n as int) =~= s@);
    }
    out
}

} // verus!
