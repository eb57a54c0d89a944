//! The pluggable definition-lookup capability: a trait with a mathematical
//! account of what each source returns, and the in-memory mock source.

use vstd::prelude::*;
use vstd::string::StrSliceExecFns;
use vstd::string::StringExecFns;

verus! {

/// Character-wise string equality, decided without trusting anything beyond
/// the string primitives.
pub fn str_eq(a: &str, b: &str) -> (r: bool)
    ensures
        r <==> a@ == b@,
{
    let la = a.unicode_len();
    let lb = b.unicode_len();
    if la != lb {
        return false;
    }
    let mut i: usize = 0;
    while i < la
        invariant
            i <= la,
            la == a@.len(),
            lb == b@.len(),
            la == lb,
            forall|k: int| 0 <= k < i ==> a@[k] == b@[k],
        decreases la - i,
    {
        let ca = a.get_char(i);
        let cb = b.get_char(i);
        if ca != cb {
            return false;
        }
        i = i + 1;
    }
    proof {
        assert(a@ =~= b@);
    }
    true
}

/// A source of candidate definitions for a word. A query may yield zero, one
/// or many definitions; their order is significant and is preserved into the
/// answer built from them.
pub trait DefinitionFetcher: Sized {
    /// The definitions this source returns for a word, as mathematical
    /// values.
    spec fn spec_definitions(&self, word: Seq<char>) -> Seq<Seq<char>>;

    /// The source's display name.
    spec fn spec_name(&self) -> Seq<char>;

    /// Makes a source under the given display name.
    fn new(name: &str) -> (r: Self)
        ensures
            r.spec_name() == name@,
    ;

    /// The source's display name.
    fn name(&self) -> (r: &str)
        ensures
            r@ == self.spec_name(),
    ;

    /// Looks the word up and returns its definitions, in order.
    fn get_definitions(&self, word: &str) -> (r: Vec<&str>)
        ensures
            r.deep_view() == self.spec_definitions(word@),
    ;
}

/// An in-memory source with a fixed three-word vocabulary.
pub struct MockDefinitionFetcher {
    name: String,
}

impl DefinitionFetcher for MockDefinitionFetcher {
    open spec fn spec_definitions(&self, word: Seq<char>) -> Seq<Seq<char>> {
        if word == "doggo"@ {
            seq!["good boy"@, "very good boy"@]
        } else if word == "pupper"@ {
            seq!["small good boy"@, "tiny good boy"@]
        } else if word == "woofer"@ {
            seq!["large good boy"@, "oversized doggo"@]
        } else {
            Seq::empty()
        }
    }

    closed spec fn spec_name(&self) -> Seq<char> {
        self.name@
    }

    fn new(name: &str) -> (r: MockDefinitionFetcher) {
        MockDefinitionFetcher { name: String::from_str(name) }
    }

    fn name(&self) -> (r: &str) {
        self.name.as_str()
    }

    fn get_definitions(&self, word: &str) -> (r: Vec<&str>) {
        let r: Vec<&str> = if str_eq(word, "doggo") {
            vec!["good boy", "very good boy"]
        } else if str_eq(word, "pupper") {
            vec!["small good boy", "tiny good boy"]
        } else if str_eq(word, "woofer") {
            vec!["large good boy", "oversized doggo"]
        } else {
            Vec::new()
        };
        proof {
            assert(r.deep_view() =~= self.spec_definitions(word@));
        }
        r
    }
}

} // verus!
