//! The shared, read-mostly configuration that the dispatch core consults.

use vstd::prelude::*;

verus! {

/// Configuration of the matcher registry: the nicknames that count as
/// addressing the bot by name.
pub struct MatchersConfig {
    pub nicknames: Vec<Vec<char>>,
}

/// The view of the configuration.
pub ghost struct ConfigV {
    pub nicknames: Seq<Seq<char>>,
}

impl View for MatchersConfig {
    type V = ConfigV;

    open spec fn view(&self) -> ConfigV {
        ConfigV { nicknames: self.nicknames@.map_values(|n: Vec<char>| n@) }
    }
}

impl MatchersConfig {
    /// A configuration with no nicknames.
    pub fn new() -> (r: MatchersConfig)
        ensures
            r@.nicknames.len() == 0,
    {
        MatchersConfig { nicknames: Vec::new() }
    }
}

impl Clone for MatchersConfig {
    /// A copy of the configuration with the same view.
    fn clone(&self) -> (r: Self)
        ensures
            r@ == self@,
    {
        let mut nicknames: Vec<Vec<char>> = Vec::new();
        let mut i: usize = 0;
        while i < self.nicknames.len()
            invariant
                i <= self.nicknames@.len(),
                nicknames@.len() == i,
                forall|j: int| 0 <= j < i ==> nicknames@[j]@ == self.nicknames@[j]@,
            decreases self.nicknames@.len() - i,
        {
            nicknames.push(crate::text::clone_chars(&self.nicknames[i]));
            i = i + 1;
        }
        let r = MatchersConfig { nicknames };
        proof {
            assert(r@.nicknames =~= self@.nicknames);
        }
        r
    }
}

} // verus!
