use vstd::prelude::*;

use crate::error::EvalError;

verus! {

/// Maps import specifiers to the modules that are already compiled,
/// identified by their position in the table.
pub struct Resolver {
    known: Vec<String>,
}

/// `i` is the first position at which `name` occurs in `names`.
pub open spec fn first_position(names: Seq<Seq<char>>, name: Seq<char>, i: int) -> bool {
    &&& 0 <= i < names.len()
    &&& names[i] == name
    &&& forall|j: int| 0 <= j < i ==> names[j] != name
}

/// `name` occurs nowhere in `names`.
pub open spec fn absent(names: Seq<Seq<char>>, name: Seq<char>) -> bool {
    forall|j: int| 0 <= j < names.len() ==> names[j] != name
}

impl Resolver {
    pub closed spec fn names(&self) -> Seq<Seq<char>> {
        self.known@.map_values(|s: String| s@)
    }

    /// The resolver of this runtime: it knows no module, so only modules
    /// without imports can be linked.
    pub fn baseline() -> (r: Resolver)
        ensures
            r.names() == Seq::<Seq<char>>::empty(),
    {
        let r = Resolver { known: Vec::new() };
        assert(r.names() =~= Seq::<Seq<char>>::empty());
        r
    }

    /// Resolves one specifier to the position of the module it names.
    pub fn resolve(&self, specifier: &str) -> (r: Option<usize>)
        ensures
            match r {
                Some(i) => first_position(self.names(), specifier@, i as int),
                None => absent(self.names(), specifier@),
            },
    {
        let target = String::from_str(specifier);
        let mut i: usize = 0;
        while i < self.known.len()
            invariant
                i <= self.known@.len(),
                target@ == specifier@,
                forall|j: int| 0 <= j < i ==> self.names()[j] != specifier@,
            decreases self.known@.len() - i,
        {
            if self.known[i] == target {
                return Some(i);
            }
            i = i + 1;
        }
        None
    }

    /// Resolves every static import of a module, in order. Linking fails
    /// as soon as one specifier names no known module.
    pub fn resolve_all(&self, specifiers: &Vec<String>) -> (r: Result<Vec<usize>, EvalError>)
        ensures
            r is Ok <==> forall|k: int|
                0 <= k < specifiers@.len() ==> !absent(self.names(), specifiers@[k]@),
            r is Err ==> r == Err::<Vec<usize>, EvalError>(EvalError::InstantiationError),
            r matches Ok(v) ==> v@.len() == specifiers@.len() && forall|k: int|
                0 <= k < v@.len() ==> first_position(self.names(), specifiers@[k]@, v@[k] as int),
    {
        let mut out: Vec<usize> = Vec::new();
        let mut k: usize = 0;
        while k < specifiers.len()
            invariant
                k <= specifiers@.len(),
                out@.len() == k,
                forall|m: int|
                    0 <= m < k ==> first_position(self.names(), specifiers@[m]@, out@[m] as int),
            decreases specifiers@.len() - k,
        {
            match self.resolve(specifiers[k].as_str()) {
                Some(i) => out.push(i),
                None => {
                    return Err(EvalError::InstantiationError);
                },
            }
            k = k + 1;
        }
        assert forall|m: int| 0 <= m < specifiers@.len() implies !absent(
            self.names(),
            specifiers@[m]@,
        ) by {
            let i = out@[m] as int;
            assert(self.names()[i] == specifiers@[m]@);
        }
        Ok(out)
    }
}

} // verus!
