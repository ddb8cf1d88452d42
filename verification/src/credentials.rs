//! Who has approved the call that is being served.

use vstd::prelude::*;

verus! {

/// The identity of a principal: an account or a contract, written as text.
pub type Address = String;

/// The credentials that a call carries: the principals that have approved it.
///
/// Every operation that is reserved to a principal asks the call's credentials
/// for that principal and refuses the call where it is missing.
pub struct Credentials {
    principals: Vec<Address>,
}

impl View for Credentials {
    type V = Set<Seq<char>>;

    /// The principals whose approval the call carries.
    closed spec fn view(&self) -> Set<Seq<char>> {
        Set::new(
            |p: Seq<char>|
                exists|i: int| 0 <= i < self.principals@.len() && self.principals@[i]@ == p,
        )
    }
}

impl Credentials {
    /// The credentials of a call that nobody has approved.
    pub fn none() -> (credentials: Self)
        ensures
            credentials@ == Set::<Seq<char>>::empty(),
    {
        let credentials = Credentials { principals: Vec::new() };
        assert(credentials@ =~= Set::<Seq<char>>::empty());
        credentials
    }

    /// The credentials of a call that `principal` alone has approved.
    pub fn of(principal: &str) -> (credentials: Self)
        ensures
            credentials@ == Set::<Seq<char>>::empty().insert(principal@),
    {
        Credentials::none().with(principal)
    }

    /// These credentials with the approval of `principal` added.
    pub fn with(self, principal: &str) -> (credentials: Self)
        ensures
            credentials@ == self@.insert(principal@),
    {
        let mut principals = self.principals;
        let ghost before = principals@;
        principals.push(principal.to_owned());
        let credentials = Credentials { principals };
        assert(credentials@ =~= self@.insert(principal@)) by {
            assert forall|p: Seq<char>|
                self@.insert(principal@).contains(p) implies credentials@.contains(p) by {
                if p == principal@ {
                    assert(credentials.principals@[before.len() as int]@ == p);
                } else {
                    let i = choose|i: int| 0 <= i < before.len() && before[i]@ == p;
                    assert(credentials.principals@[i]@ == p);
                }
            }
            assert forall|p: Seq<char>|
                credentials@.contains(p) implies self@.insert(principal@).contains(p) by {
                let i = choose|i: int|
                    0 <= i < credentials.principals@.len() && credentials.principals@[i]@ == p;
                if i < before.len() {
                    assert(before[i]@ == p);
                }
            }
        }
        credentials
    }

    /// Whether the call carries the approval of `principal`.
    pub fn carries(&self, principal: &Address) -> (found: bool)
        ensures
            found == self@.contains(principal@),
    {
        let mut i: usize = 0;
        while i < self.principals.len()
            invariant
                i <= self.principals@.len(),
                forall|k: int| 0 <= k < i ==> self.principals@[k]@ != principal@,
            decreases self.principals@.len() - i,
        {
            if self.principals[i] == *principal {
                return true;
            }
            i += 1;
        }
        false
    }
}

} // verus!
