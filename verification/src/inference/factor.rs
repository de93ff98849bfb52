use vstd::prelude::*;

verus! {

/// Identifier of a variable.
pub type KeyType = u64;

/// `std::io::Error`, the error of a key lookup. Nothing is read from it: it is only told
/// apart from a key that was found.
#[verifier::external_type_specification]
#[verifier::external_body]
pub struct ExIoError(std::io::Error);

/// A factor: a function of the variables whose keys it lists.
pub trait Factor: std::fmt::Debug {
    /// How many variables the factor touches.
    fn num_keys(&self) -> usize;

    /// The key of the variable at `index`, or an error where the factor has none there.
    fn key_at(&self, index: usize) -> Result<KeyType, std::io::Error>;
}

/// A factor of a nonlinear problem.
pub trait NonlinearFactor: Factor {
}

/// What is left of a key lookup once the error is dropped.
pub open spec fn found_key(looked_up: Result<KeyType, std::io::Error>) -> Option<KeyType> {
    match looked_up {
        Ok(k) => Some(k),
        Err(_) => None,
    }
}

/// A cursor over the keys of a factor.
pub struct KeyIterator<'a, F: Factor + ?Sized> {
    owner: &'a F,
    index: usize,
}

impl<'a, F: Factor + ?Sized> KeyIterator<'a, F> {
    /// The factor the cursor reads.
    pub closed spec fn owner(&self) -> &'a F {
        self.owner
    }

    /// The cursor's position; the key it yields is the one just before it.
    pub closed spec fn position(&self) -> nat {
        self.index as nat
    }

    /// A cursor over the keys of `owner`, at position `index`.
    pub fn new(owner: &'a F, index: usize) -> (it: Self)
        ensures
            it.owner() == owner,
            it.position() == index,
    {
        KeyIterator { owner, index }
    }

    /// Looks up the key just before the cursor and yields it, or `None` where the factor
    /// answers with an error. The cursor stays where it is.
    pub fn next(&mut self) -> (r: Option<KeyType>)
        requires
            old(self).position() >= 1,
        ensures
            *final(self) == *old(self),
            exists|looked_up: Result<KeyType, std::io::Error>|
                call_ensures(
                    F::key_at,
                    (old(self).owner(), (old(self).position() - 1) as usize),
                    looked_up,
                ) && r == found_key(looked_up),
    {
        let looked_up = self.owner.key_at(self.index - 1);
        let r = match looked_up {
            Ok(k) => Some(k),
            Err(_) => None,
        };
        assert(call_ensures(
            F::key_at,
            (old(self).owner(), (old(self).position() - 1) as usize),
            looked_up,
        ) && r == found_key(looked_up));
        r
    }
}

} // verus!
