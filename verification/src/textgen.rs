//! Builders of repeated text fragments: a count paired with a
//! per-position fragment maker, concatenating the fragments in order.
//! Generators of the N-way tagging boilerplate drive these builders; the
//! builders themselves are ordinary, fully specified string logic.

use vstd::prelude::*;

verus! {

/// The views of a sequence of owned strings.
pub open spec fn str_views(parts: Seq<String>) -> Seq<Seq<char>> {
    parts.map_values(|p: String| p@)
}

/// Relies on `String::push_str`: appends a string slice onto the end of
/// the string.
#[verifier::external_body]
fn append_str(s: &mut String, piece: &str)
    ensures
        final(s)@ == old(s)@ + piece@,
{
    s.push_str(piece)
}

/// A repetition count for generated text; the count is at least one.
pub struct Generate {
    /// How many positions to generate for.
    pub count: usize,
}

impl Generate {
    /// The count is meaningful: at least one position, and small enough
    /// that every position has a number.
    pub open spec fn well_formed(&self) -> bool {
        1 <= self.count < usize::MAX
    }

    /// Concatenate the fragments made for positions one through the
    /// count, in order.
    pub fn generate_string<F>(&self, string_fn: F) -> (r: String) where F: Fn(usize) -> String
        requires
            self.well_formed(),
            forall|k: usize| 1 <= k <= self.count ==> call_requires(string_fn, (k,)),
        ensures
            exists|parts: Seq<String>|
                {
                    &&& parts.len() == self.count
                    &&& forall|k: int|
                        0 <= k < parts.len() ==> call_ensures(
                            string_fn,
                            ((k + 1) as usize,),
                            #[trigger] parts[k],
                        )
                    &&& r@ == str_views(parts).flatten()
                },
    {
        let mut out = String::new();
        let ghost mut parts: Seq<String> = Seq::empty();
        let mut i: usize = 1;
        while i <= self.count
            invariant
                self.well_formed(),
                1 <= i <= self.count + 1,
                parts.len() == i - 1,
                forall|k: usize| 1 <= k <= self.count ==> call_requires(string_fn, (k,)),
                forall|k: int|
                    0 <= k < parts.len() ==> call_ensures(
                        string_fn,
                        ((k + 1) as usize,),
                        #[trigger] parts[k],
                    ),
                out@ == str_views(parts).flatten(),
            decreases self.count + 1 - i,
        {
            let piece = string_fn(i);
            proof {
                let parts0 = parts;
                parts = parts.push(piece);
                assert(str_views(parts) =~= str_views(parts0).push(piece@));
                str_views(parts0).lemma_flatten_push(piece@);
            }
            append_str(&mut out, piece.as_str());
            i += 1;
        }
        out
    }

    /// Start from a given head fragment and append the fragments made for
    /// positions two through the count, in order.
    pub fn generate_string_with_head<F>(&self, head: String, string_fn: F) -> (r: String) where
        F: Fn(usize) -> String,

        requires
            self.well_formed(),
            forall|k: usize| 2 <= k <= self.count ==> call_requires(string_fn, (k,)),
        ensures
            exists|parts: Seq<String>|
                {
                    &&& parts.len() == self.count - 1
                    &&& forall|k: int|
                        0 <= k < parts.len() ==> call_ensures(
                            string_fn,
                            ((k + 2) as usize,),
                            #[trigger] parts[k],
                        )
                    &&& r@ == head@ + str_views(parts).flatten()
                },
    {
        let ghost head_view = head@;
        let mut out = head;
        let ghost mut parts: Seq<String> = Seq::empty();
        let mut i: usize = 2;
        while i <= self.count
            invariant
                self.well_formed(),
                2 <= i <= self.count + 1,
                parts.len() == i - 2,
                forall|k: usize| 2 <= k <= self.count ==> call_requires(string_fn, (k,)),
                forall|k: int|
                    0 <= k < parts.len() ==> call_ensures(
                        string_fn,
                        ((k + 2) as usize,),
                        #[trigger] parts[k],
                    ),
                out@ == head_view + str_views(parts).flatten(),
            decreases self.count + 1 - i,
        {
            let piece = string_fn(i);
            proof {
                let parts0 = parts;
                parts = parts.push(piece);
                assert(str_views(parts) =~= str_views(parts0).push(piece@));
                str_views(parts0).lemma_flatten_push(piece@);
            }
            append_str(&mut out, piece.as_str());
            i += 1;
        }
        out
    }
}

} // verus!
