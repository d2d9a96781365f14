//! The type identity token: a plain value that identifies an enumerated type
//! as mapped by one strategy, for use as a cache or deduplication key. It is
//! built from the codec's configuration alone, so it is the same in every run.
use vstd::prelude::*;
use crate::codec::{BackendKind, Codec};
use crate::registry::strings_view;

verus! {

#[derive(Debug)]
pub struct TypeToken {
    kind: BackendKind,
    enum_name: String,
    server_type: String,
    wire_names: Vec<String>,
}

pub ghost struct TokenModel {
    pub kind: BackendKind,
    pub enum_name: Seq<char>,
    pub server_type: Seq<char>,
    pub wire_names: Seq<Seq<char>>,
}

impl View for TypeToken {
    type V = TokenModel;

    closed spec fn view(&self) -> TokenModel {
        TokenModel {
            kind: self.kind,
            enum_name: self.enum_name@,
            server_type: self.server_type@,
            wire_names: strings_view(self.wire_names@),
        }
    }
}

/// The token of a codec's configuration.
pub open spec fn token_of(c: Codec) -> TokenModel {
    TokenModel {
        kind: c.spec_kind(),
        enum_name: c.spec_registry().enum_name_view(),
        server_type: c.spec_server_type(),
        wire_names: c.names(),
    }
}

fn same_strings(a: &Vec<String>, b: &Vec<String>) -> (r: bool)
    ensures
        r == (strings_view(a@) == strings_view(b@)),
{
    if a.len() != b.len() {
        proof {
            assert(strings_view(a@).len() != strings_view(b@).len());
        }
        return false;
    }
    let mut i: usize = 0;
    while i < a.len()
        invariant
            a@.len() == b@.len(),
            i <= a@.len(),
            forall|k: int| 0 <= k < i ==> a@[k]@ == b@[k]@,
        decreases a@.len() - i,
    {
        if a[i] != b[i] {
            proof {
                assert(strings_view(a@)[i as int] != strings_view(b@)[i as int]);
            }
            return false;
        }
        i = i + 1;
    }
    proof {
        assert(strings_view(a@) =~= strings_view(b@));
    }
    true
}

impl PartialEq for TypeToken {
    fn eq(&self, o: &TypeToken) -> (r: bool) {
        self.kind == o.kind && self.enum_name == o.enum_name && self.server_type == o.server_type
            && same_strings(&self.wire_names, &o.wire_names)
    }
}

impl vstd::std_specs::cmp::PartialEqSpecImpl for TypeToken {
    open spec fn obeys_eq_spec() -> bool {
        true
    }

    open spec fn eq_spec(&self, o: &TypeToken) -> bool {
        self@ == o@
    }
}

impl Codec {
    /// The identity token of this enumerated type under this strategy.
    pub fn token(&self) -> (r: TypeToken)
        ensures
            r@ == token_of(*self),
    {
        TypeToken {
            kind: self.kind(),
            enum_name: self.registry().enum_name().to_owned(),
            server_type: self.server_type().to_owned(),
            wire_names: self.registry().wire_names(),
        }
    }
}

/// Tokens depend on the configuration alone: two codecs with the same
/// configuration have equal tokens, and codecs of differently named
/// enumerated types, or of different strategies, have different ones.
pub proof fn lemma_token_identity(a: Codec, b: Codec)
    ensures
        a.spec_kind() == b.spec_kind() && a.spec_server_type() == b.spec_server_type()
            && a.spec_registry().enum_name_view() == b.spec_registry().enum_name_view()
            && a.names() == b.names() ==> token_of(a) == token_of(b),
        a.spec_registry().enum_name_view() != b.spec_registry().enum_name_view() ==> token_of(a)
            != token_of(b),
        a.spec_kind() != b.spec_kind() ==> token_of(a) != token_of(b),
{
}

} // verus!
