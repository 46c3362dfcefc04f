//! A pool of label values that replicas draw mutation keys and values from.
//!
//! The pool is loaded once from a list of lines (the surrounding program reads
//! the file) and is then shared read-only by every replica actor.

use vstd::prelude::*;

verus! {

/// A read-only pool of labels.
pub struct Names {
    names: Vec<String>,
}

/// Failures of the label pool.
#[derive(Debug)]
pub enum NamesError {
    /// The pool's backing store could not be read; carries the reader's
    /// message. The pool itself is built from lines already read, so only
    /// the embedding program, which does the reading, constructs this.
    LoadError(String),
    /// No labels were loaded, so nothing can be chosen.
    NodDataError,
}

impl Names {
    /// The labels the pool holds, in load order.
    pub closed spec fn labels(&self) -> Seq<Seq<char>> {
        self.names@.map_values(|s: String| s@)
    }

    /// Create a pool holding the given lines.
    pub fn new(lines: Vec<String>) -> (r: Self)
        ensures
            r.labels() == lines@.map_values(|s: String| s@),
    {
        let mut n = Names { names: Vec::new() };
        n.load(lines);
        proof {
            assert(n.labels() =~= lines@.map_values(|s: String| s@));
        }
        n
    }

    /// Draw a uniformly random label from the pool, or report that the pool
    /// holds none.
    pub fn pick(&self) -> (r: Result<String, NamesError>)
        ensures
            r is Ok <==> self.labels().len() > 0,
            r matches Ok(name) ==> self.labels().contains(name@),
            r matches Err(e) ==> e is NodDataError,
    {
        if self.names.len() == 0 {
            Err(NamesError::NodDataError)
        } else {
            let i = crate::rng::random_below(self.names.len());
            let name = self.names[i].clone();
            proof {
                assert(self.labels()[i as int] == name@);
            }
            Ok(name)
        }
    }

    /// Append the given lines to the pool.
    pub fn load(&mut self, lines: Vec<String>)
        ensures
            final(self).labels() == old(self).labels() + lines@.map_values(|s: String| s@),
    {
        let mut incoming = lines;
        self.names.append(&mut incoming);
        proof {
            assert(self.labels() =~= old(self).labels() + lines@.map_values(|s: String| s@));
        }
    }
}

impl Default for Names {
    /// An empty pool.
    fn default() -> (r: Self)
        ensures
            r.labels() == Seq::<Seq<char>>::empty(),
    {
        let n = Names { names: Vec::new() };
        proof {
            assert(n.labels() =~= Seq::<Seq<char>>::empty());
        }
        n
    }
}

} // verus!
