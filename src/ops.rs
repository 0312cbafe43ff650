use itertools::Itertools;
use vstd::prelude::*;
use vstd::relations::{sorted_by, total_ordering};

use crate::error::Error;

verus! {

/// The operations that a backend can be asked to perform, one per canonical
/// identifier. Each variant is named after its identifier.
#[derive(Clone, Copy, Debug, PartialEq, Eq, Structural)]
pub enum Op {
    /// Lists installed packages.
    Q,
    /// Shows the changelog of a package.
    Qc,
    /// Lists packages installed explicitly.
    Qe,
    /// Displays local package information.
    Qi,
    /// Verifies one or more packages.
    Qk,
    /// Lists the files provided by a local package.
    Ql,
    /// Lists installed packages that no source provides any more.
    Qm,
    /// Finds the package that provides a file.
    Qo,
    /// Queries a package file rather than the database.
    Qp,
    /// Searches installed packages by name or description.
    Qs,
    /// Lists packages that have an update available.
    Qu,
    /// Removes packages, leaving their dependencies.
    R,
    /// Removes packages without keeping configuration backups.
    Rn,
    /// Removes packages with unneeded dependencies and without backups.
    Rns,
    /// Removes packages with their dependencies that nothing else requires.
    Rs,
    /// Removes packages with all dependencies that nothing else requires.
    Rss,
    /// Installs packages by name.
    S,
    /// Cleans cached packages that are not installed.
    Sc,
    /// Removes every file from the cache.
    Scc,
    /// Removes the cache more thoroughly still.
    Sccc,
    /// Lists the packages of a group.
    Sg,
    /// Displays remote package information.
    Si,
    /// Displays reverse dependencies.
    Sii,
    /// Lists every available package.
    Sl,
    /// Searches remote packages.
    Ss,
    /// Upgrades outdated packages.
    Su,
    /// Refreshes the package database, then upgrades.
    Suy,
    /// Downloads packages without installing them.
    Sw,
    /// Refreshes the package database.
    Sy,
    /// Installs packages from files.
    U,
}

impl Op {
    /// The canonical identifier of the operation.
    pub open spec fn letters(self) -> Seq<char> {
        match self {
            Op::Q => seq!['q'],
            Op::Qc => seq!['q', 'c'],
            Op::Qe => seq!['q', 'e'],
            Op::Qi => seq!['q', 'i'],
            Op::Qk => seq!['q', 'k'],
            Op::Ql => seq!['q', 'l'],
            Op::Qm => seq!['q', 'm'],
            Op::Qo => seq!['q', 'o'],
            Op::Qp => seq!['q', 'p'],
            Op::Qs => seq!['q', 's'],
            Op::Qu => seq!['q', 'u'],
            Op::R => seq!['r'],
            Op::Rn => seq!['r', 'n'],
            Op::Rns => seq!['r', 'n', 's'],
            Op::Rs => seq!['r', 's'],
            Op::Rss => seq!['r', 's', 's'],
            Op::S => seq!['s'],
            Op::Sc => seq!['s', 'c'],
            Op::Scc => seq!['s', 'c', 'c'],
            Op::Sccc => seq!['s', 'c', 'c', 'c'],
            Op::Sg => seq!['s', 'g'],
            Op::Si => seq!['s', 'i'],
            Op::Sii => seq!['s', 'i', 'i'],
            Op::Sl => seq!['s', 'l'],
            Op::Ss => seq!['s', 's'],
            Op::Su => seq!['s', 'u'],
            Op::Suy => seq!['s', 'u', 'y'],
            Op::Sw => seq!['s', 'w'],
            Op::Sy => seq!['s', 'y'],
            Op::U => seq!['u'],
        }
    }

    /// The identifier's letters, lower case, operation letter first.
    pub fn name(&self) -> (r: Vec<char>)
        ensures
            r@ == self.letters(),
    {
        match self {
            Op::Q => vec!['q'],
            Op::Qc => vec!['q', 'c'],
            Op::Qe => vec!['q', 'e'],
            Op::Qi => vec!['q', 'i'],
            Op::Qk => vec!['q', 'k'],
            Op::Ql => vec!['q', 'l'],
            Op::Qm => vec!['q', 'm'],
            Op::Qo => vec!['q', 'o'],
            Op::Qp => vec!['q', 'p'],
            Op::Qs => vec!['q', 's'],
            Op::Qu => vec!['q', 'u'],
            Op::R => vec!['r'],
            Op::Rn => vec!['r', 'n'],
            Op::Rns => vec!['r', 'n', 's'],
            Op::Rs => vec!['r', 's'],
            Op::Rss => vec!['r', 's', 's'],
            Op::S => vec!['s'],
            Op::Sc => vec!['s', 'c'],
            Op::Scc => vec!['s', 'c', 'c'],
            Op::Sccc => vec!['s', 'c', 'c', 'c'],
            Op::Sg => vec!['s', 'g'],
            Op::Si => vec!['s', 'i'],
            Op::Sii => vec!['s', 'i', 'i'],
            Op::Sl => vec!['s', 'l'],
            Op::Ss => vec!['s', 's'],
            Op::Su => vec!['s', 'u'],
            Op::Suy => vec!['s', 'u', 'y'],
            Op::Sw => vec!['s', 'w'],
            Op::Sy => vec!['s', 'y'],
            Op::U => vec!['u'],
        }
    }
}

/// The operation whose identifier is `s`, if any.
pub open spec fn id_of(s: Seq<char>) -> Option<Op> {
    if s.len() == 1 {
        if s[0] == 'q' {
            Some(Op::Q)
        } else if s[0] == 'r' {
            Some(Op::R)
        } else if s[0] == 's' {
            Some(Op::S)
        } else if s[0] == 'u' {
            Some(Op::U)
        } else {
            None
        }
    } else if s.len() == 2 {
        if s[0] == 'q' && s[1] == 'c' {
            Some(Op::Qc)
        } else if s[0] == 'q' && s[1] == 'e' {
            Some(Op::Qe)
        } else if s[0] == 'q' && s[1] == 'i' {
            Some(Op::Qi)
        } else if s[0] == 'q' && s[1] == 'k' {
            Some(Op::Qk)
        } else if s[0] == 'q' && s[1] == 'l' {
            Some(Op::Ql)
        } else if s[0] == 'q' && s[1] == 'm' {
            Some(Op::Qm)
        } else if s[0] == 'q' && s[1] == 'o' {
            Some(Op::Qo)
        } else if s[0] == 'q' && s[1] == 'p' {
            Some(Op::Qp)
        } else if s[0] == 'q' && s[1] == 's' {
            Some(Op::Qs)
        } else if s[0] == 'q' && s[1] == 'u' {
            Some(Op::Qu)
        } else if s[0] == 'r' && s[1] == 'n' {
            Some(Op::Rn)
        } else if s[0] == 'r' && s[1] == 's' {
            Some(Op::Rs)
        } else if s[0] == 's' && s[1] == 'c' {
            Some(Op::Sc)
        } else if s[0] == 's' && s[1] == 'g' {
            Some(Op::Sg)
        } else if s[0] == 's' && s[1] == 'i' {
            Some(Op::Si)
        } else if s[0] == 's' && s[1] == 'l' {
            Some(Op::Sl)
        } else if s[0] == 's' && s[1] == 's' {
            Some(Op::Ss)
        } else if s[0] == 's' && s[1] == 'u' {
            Some(Op::Su)
        } else if s[0] == 's' && s[1] == 'w' {
            Some(Op::Sw)
        } else if s[0] == 's' && s[1] == 'y' {
            Some(Op::Sy)
        } else {
            None
        }
    } else if s.len() == 3 {
        if s[0] == 'r' && s[1] == 'n' && s[2] == 's' {
            Some(Op::Rns)
        } else if s[0] == 'r' && s[1] == 's' && s[2] == 's' {
            Some(Op::Rss)
        } else if s[0] == 's' && s[1] == 'c' && s[2] == 'c' {
            Some(Op::Scc)
        } else if s[0] == 's' && s[1] == 'i' && s[2] == 'i' {
            Some(Op::Sii)
        } else if s[0] == 's' && s[1] == 'u' && s[2] == 'y' {
            Some(Op::Suy)
        } else {
            None
        }
    } else if s.len() == 4 {
        if s[0] == 's' && s[1] == 'c' && s[2] == 'c' && s[3] == 'c' {
            Some(Op::Sccc)
        } else {
            None
        }
    } else {
        None
    }
}

/// Finds the operation named by a canonical identifier.
pub fn lookup(id: &Vec<char>) -> (r: Option<Op>)
    ensures
        r == id_of(id@),
{
    if id.len() == 1 {
        if id[0] == 'q' {
            Some(Op::Q)
        } else if id[0] == 'r' {
            Some(Op::R)
        } else if id[0] == 's' {
            Some(Op::S)
        } else if id[0] == 'u' {
            Some(Op::U)
        } else {
            None
        }
    } else if id.len() == 2 {
        if id[0] == 'q' && id[1] == 'c' {
            Some(Op::Qc)
        } else if id[0] == 'q' && id[1] == 'e' {
            Some(Op::Qe)
        } else if id[0] == 'q' && id[1] == 'i' {
            Some(Op::Qi)
        } else if id[0] == 'q' && id[1] == 'k' {
            Some(Op::Qk)
        } else if id[0] == 'q' && id[1] == 'l' {
            Some(Op::Ql)
        } else if id[0] == 'q' && id[1] == 'm' {
            Some(Op::Qm)
        } else if id[0] == 'q' && id[1] == 'o' {
            Some(Op::Qo)
        } else if id[0] == 'q' && id[1] == 'p' {
            Some(Op::Qp)
        } else if id[0] == 'q' && id[1] == 's' {
            Some(Op::Qs)
        } else if id[0] == 'q' && id[1] == 'u' {
            Some(Op::Qu)
        } else if id[0] == 'r' && id[1] == 'n' {
            Some(Op::Rn)
        } else if id[0] == 'r' && id[1] == 's' {
            Some(Op::Rs)
        } else if id[0] == 's' && id[1] == 'c' {
            Some(Op::Sc)
        } else if id[0] == 's' && id[1] == 'g' {
            Some(Op::Sg)
        } else if id[0] == 's' && id[1] == 'i' {
            Some(Op::Si)
        } else if id[0] == 's' && id[1] == 'l' {
            Some(Op::Sl)
        } else if id[0] == 's' && id[1] == 's' {
            Some(Op::Ss)
        } else if id[0] == 's' && id[1] == 'u' {
            Some(Op::Su)
        } else if id[0] == 's' && id[1] == 'w' {
            Some(Op::Sw)
        } else if id[0] == 's' && id[1] == 'y' {
            Some(Op::Sy)
        } else {
            None
        }
    } else if id.len() == 3 {
        if id[0] == 'r' && id[1] == 'n' && id[2] == 's' {
            Some(Op::Rns)
        } else if id[0] == 'r' && id[1] == 's' && id[2] == 's' {
            Some(Op::Rss)
        } else if id[0] == 's' && id[1] == 'c' && id[2] == 'c' {
            Some(Op::Scc)
        } else if id[0] == 's' && id[1] == 'i' && id[2] == 'i' {
            Some(Op::Sii)
        } else if id[0] == 's' && id[1] == 'u' && id[2] == 'y' {
            Some(Op::Suy)
        } else {
            None
        }
    } else if id.len() == 4 {
        if id[0] == 's' && id[1] == 'c' && id[2] == 'c' && id[3] == 'c' {
            Some(Op::Sccc)
        } else {
            None
        }
    } else {
        None
    }
}
/// Each operation is found again from its identifier.
pub proof fn lemma_id_of_letters(op: Op)
    ensures
        id_of(op.letters()) == Some(op),
{
    reveal_with_fuel(id_of, 1);
    match op {
        _ => {},
    }
}

/// The order in which identifier letters are arranged.
pub open spec fn letter_leq() -> spec_fn(char, char) -> bool {
    |a: char, b: char| a <= b
}

/// Whether the letters are in ascending order.
pub open spec fn ascending(s: Seq<char>) -> bool {
    sorted_by(s, letter_leq())
}

/// Whether `id` is the canonical identifier of an operation whose leading
/// letter is `lead` and whose flags contributed `letters`, in any order: the
/// operation letter comes first, then the flag letters in ascending order.
pub open spec fn canonical_for(lead: char, letters: Seq<char>, id: Seq<char>) -> bool {
    &&& id.len() >= 1
    &&& id[0] == lead
    &&& ascending(id.drop_first())
    &&& id.drop_first().to_multiset() == letters.to_multiset()
}

/// Whether `op` is what the flags select: `lead` and `letters` canonicalize
/// to its identifier.
pub open spec fn identifies(lead: char, letters: Seq<char>, op: Op) -> bool {
    canonical_for(lead, letters, op.letters())
}

/// Relies on itertools::Itertools::sorted_unstable: the same items, in
/// ascending order.
#[verifier::external_body]
fn sorted_letters(v: Vec<char>) -> (r: Vec<char>)
    ensures
        r@.to_multiset() == v@.to_multiset(),
        ascending(r@),
{
    v.into_iter().sorted_unstable().collect()
}

/// Builds the canonical identifier from the operation letter and the flag
/// letters, which may come in any order.
pub fn canonical_id(lead: char, letters: Vec<char>) -> (r: Vec<char>)
    ensures
        canonical_for(lead, letters@, r@),
{
    let sorted = sorted_letters(letters);
    let mut id: Vec<char> = Vec::new();
    id.push(lead);
    let mut i: usize = 0;
    while i < sorted.len()
        invariant
            0 <= i <= sorted.len(),
            id@.len() == i + 1,
            id@[0] == lead,
            id@.drop_first() =~= sorted@.subrange(0, i as int),
        decreases sorted.len() - i,
    {
        id.push(sorted[i]);
        i = i + 1;
    }
    assert(id@.drop_first() =~= sorted@);
    id
}

/// The letter order is a total order.
pub proof fn lemma_letter_order_total()
    ensures
        total_ordering(letter_leq()),
{
}

/// An identifier that names an operation is that operation's letters.
pub proof fn lemma_letters_of_id(s: Seq<char>)
    requires
        id_of(s) is Some,
    ensures
        id_of(s).unwrap().letters() == s,
{
    assert(id_of(s).unwrap().letters() =~= s);
}

/// A canonical identifier is determined by its leading letter and the
/// multiset of flag letters.
pub proof fn lemma_canonical_unique(lead: char, letters: Seq<char>, a: Seq<char>, b: Seq<char>)
    requires
        canonical_for(lead, letters, a),
        canonical_for(lead, letters, b),
    ensures
        a == b,
{
    lemma_letter_order_total();
    vstd::seq_lib::lemma_sorted_unique(a.drop_first(), b.drop_first(), letter_leq());
    assert(a =~= seq![lead] + a.drop_first());
    assert(b =~= seq![lead] + b.drop_first());
}

/// Selects the operation that the operation letter and flag letters name.
/// Fails with `UnrecognizedOperation` exactly when no operation's identifier
/// is their canonical form.
pub fn identify(lead: char, letters: Vec<char>) -> (r: Result<Op, Error>)
    ensures
        match r {
            Ok(op) => identifies(lead, letters@, op),
            Err(e) => e == Error::UnrecognizedOperation && forall|op: Op|
                !#[trigger] identifies(lead, letters@, op),
        },
{
    let ghost ls = letters@;
    let id = canonical_id(lead, letters);
    match lookup(&id) {
        Some(op) => {
            proof {
                lemma_letters_of_id(id@);
            }
            Ok(op)
        },
        None => {
            proof {
                assert forall|op: Op| !#[trigger] identifies(lead, ls, op) by {
                    if identifies(lead, ls, op) {
                        lemma_canonical_unique(lead, ls, id@, op.letters());
                        lemma_id_of_letters(op);
                    }
                }
            }
            Err(Error::UnrecognizedOperation)
        },
    }
}

/// Canonicalization does not depend on the order in which flags were given:
/// two arrangements of the same flag letters select the same operation.
pub proof fn lemma_order_independent(lead: char, a: Seq<char>, b: Seq<char>, op: Op)
    requires
        a.to_multiset() == b.to_multiset(),
    ensures
        identifies(lead, a, op) <==> identifies(lead, b, op),
{
}

/// Every identifier is in ascending order after its operation letter, and
/// strictly so unless a counted flag repeats its letter.
pub proof fn lemma_identifier_ascending(op: Op)
    ensures
        ascending(op.letters().drop_first()),
        op != Op::Rss && op != Op::Scc && op != Op::Sccc && op != Op::Sii ==> forall|i: int, j: int|
            1 <= i < j < op.letters().len() ==> op.letters()[i] < op.letters()[j],
{
    match op {
        _ => {},
    }
}

} // verus!
