//! A generator that hands out the seed inputs found in a folder, one by one.
//!
//! Reading the folder is the caller's work: the generator is made from the
//! names and contents of the files in it.

use vstd::prelude::*;
use vstd::string::StringSliceAdditionalSpecFns;
use vstd::utf8::encode_utf8;
use crate::error::Error;

verus! {

/// Hands out the contents of the seed files in the order in which they were found.
#[derive(Clone, Debug)]
pub struct SeedFileGenerator {
    index: usize,
    content: Vec<Vec<u8>>,
}

/// Whether a file name, given by its bytes, ends with `.raw`.
pub open spec fn spec_is_seed_name(name: Seq<u8>) -> bool {
    name.len() >= 4 && name[name.len() - 4] == 46 && name[name.len() - 3] == 114 && name[name.len()
        - 2] == 97 && name[name.len() - 1] == 119
}

/// The contents of the first `n` files that are seed files, in their order.
/// A name counts by the bytes of its UTF-8 encoding.
pub open spec fn spec_seeds(files: Seq<(String, Vec<u8>)>, n: int) -> Seq<Seq<u8>>
    decreases n,
{
    if n <= 0 || n > files.len() {
        Seq::empty()
    } else if spec_is_seed_name(encode_utf8(files[n - 1].0@)) {
        spec_seeds(files, n - 1).push(files[n - 1].1@)
    } else {
        spec_seeds(files, n - 1)
    }
}

/// Whether a file with this name holds a seed: its name ends with `.raw`.
pub fn is_seed_name(name: &str) -> (seed: bool)
    ensures
        seed == spec_is_seed_name(name.spec_bytes()),
{
    let bytes = name.as_bytes();
    let n = bytes.len();
    n >= 4 && bytes[n - 4] == 46 && bytes[n - 3] == 114 && bytes[n - 2] == 97 && bytes[n - 1] == 119
}

impl SeedFileGenerator {
    /// The seeds that the generator holds.
    pub closed spec fn spec_content(&self) -> Seq<Seq<u8>> {
        Seq::new(self.content@.len(), |i: int| self.content@[i]@)
    }

    /// How many seeds were handed out.
    pub closed spec fn spec_index(&self) -> nat {
        self.index as nat
    }

    /// A generator for the seed files among `files`, which are given by
    /// name and content. Files whose name does not end with `.raw` are
    /// passed over.
    pub fn new(files: Vec<(String, Vec<u8>)>) -> (generator: Self)
        ensures
            generator.spec_index() == 0,
            generator.spec_content() == spec_seeds(files@, files@.len() as int),
    {
        let mut content: Vec<Vec<u8>> = Vec::new();
        let mut files = files;
        let ghost all = files@;
        let mut taken: Vec<(String, Vec<u8>)> = Vec::new();
        // Taking the files from the back keeps every content in one piece.
        while files.len() > 0
            invariant
                files@.len() + taken@.len() == all.len(),
                forall|k: int| 0 <= k < files@.len() ==> files@[k] == all[k],
                forall|k: int|
                    0 <= k < taken@.len() ==> #[trigger] taken@[k] == all[all.len() - 1 - k],
            decreases files@.len(),
        {
            let file = files.pop().unwrap();
            taken.push(file);
        }
        let ghost mut n: int = 0;
        while taken.len() > 0
            invariant
                0 <= n <= all.len(),
                taken@.len() == all.len() - n,
                forall|k: int|
                    0 <= k < taken@.len() ==> #[trigger] taken@[k] == all[all.len() - 1 - k],
                content@.len() == spec_seeds(all, n).len(),
                forall|k: int|
                    0 <= k < content@.len() ==> (#[trigger] content@[k])@ == spec_seeds(all, n)[k],
            decreases taken@.len(),
        {
            let file = taken.pop().unwrap();
            assert(file == all[n]);
            let seed = is_seed_name(file.0.as_str());
            if seed {
                content.push(file.1);
            }
            proof {
                n = n + 1;
            }
        }
        let generator = Self { index: 0, content };
        assert(generator.spec_content() =~= spec_seeds(all, all.len() as int));
        generator
    }

    /// Hands out the next seed, or says that none is left. The state of the
    /// driver plays no part.
    pub fn generate<S>(&mut self, _state: &mut S) -> (input: Result<Vec<u8>, Error>)
        ensures
            final(self).spec_content() == old(self).spec_content(),
            old(self).spec_index() < old(self).spec_content().len() ==> (input matches Ok(seed)
                && seed@ == old(self).spec_content()[old(self).spec_index() as int])
                && final(self).spec_index() == old(self).spec_index() + 1,
            old(self).spec_index() >= old(self).spec_content().len() ==> input == Err::<
                Vec<u8>,
                Error,
            >(Error::Empty) && final(self).spec_index() == old(self).spec_index(),
    {
        if self.index < self.content.len() {
            let val = self.content[self.index].clone();
            self.index = self.index + 1;
            Ok(val)
        } else {
            Err(Error::Empty)
        }
    }
}

} // verus!
