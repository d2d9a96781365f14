//! Backend encoding strategies: how a variant of a registry is written to, and
//! read back from, the column representation of one database family.
use vstd::prelude::*;
use crate::registry::{position_of, lemma_position_of_distinct, Registry, LookupError};

verus! {

/// The column representation that a backend family offers for enumerated
/// values.
#[derive(Debug, Clone, Copy, PartialEq, Eq, Structural)]
pub enum BackendKind {
    /// A server-side enumerated type, declared with the registry's wire-names
    /// in the registry's order.
    NativeEnum,
    /// A string column restricted to the wire-names by the backend itself.
    StringEnum,
    /// A text column with a separately declared check constraint listing the
    /// wire-names.
    ConstrainedText,
}

/// A value as the backend stores and returns it: the representation it was
/// written in, and its label.
#[derive(Debug)]
pub struct WireValue {
    pub kind: BackendKind,
    pub label: String,
}

pub ghost struct WireModel {
    pub kind: BackendKind,
    pub label: Seq<char>,
}

impl View for WireValue {
    type V = WireModel;

    open spec fn view(&self) -> WireModel {
        WireModel { kind: self.kind, label: self.label@ }
    }
}

#[derive(Debug, PartialEq, Eq)]
pub enum DecodeError {
    /// The value was written in another representation than the strategy's.
    WrongRepresentation,
    /// The backend returned a label that names no variant of the registry:
    /// the column's declaration and the registry have drifted apart.
    UnknownWireName(String),
}

/// What the variant at position `v` is written as.
pub open spec fn encoded(names: Seq<Seq<char>>, kind: BackendKind, v: int) -> WireModel {
    WireModel { kind, label: names[v] }
}

/// The variant that a wire value reads as, if any.
pub open spec fn decoded(names: Seq<Seq<char>>, kind: BackendKind, w: WireModel) -> Option<int> {
    if w.kind == kind {
        position_of(names, w.label)
    } else {
        None
    }
}

/// The codec of one enumerated type under one backend strategy.
pub struct Codec {
    registry: Registry,
    kind: BackendKind,
    server_type: String,
}

impl Codec {
    pub closed spec fn spec_registry(&self) -> Registry {
        self.registry
    }

    pub closed spec fn spec_kind(&self) -> BackendKind {
        self.kind
    }

    /// The name of the server-side type (empty but for the native strategy).
    pub closed spec fn spec_server_type(&self) -> Seq<char> {
        self.server_type@
    }

    pub open spec fn names(&self) -> Seq<Seq<char>> {
        self.spec_registry().names()
    }

    pub open spec fn wf(&self) -> bool {
        self.spec_registry().wf()
    }

    /// The strategy for a backend with a server-side enumerated type named
    /// `server_type`.
    pub fn native_enum(registry: Registry, server_type: &str) -> (r: Codec)
        ensures
            r.spec_registry() == registry,
            r.spec_kind() == BackendKind::NativeEnum,
            r.spec_server_type() == server_type@,
    {
        Codec { registry, kind: BackendKind::NativeEnum, server_type: server_type.to_owned() }
    }

    /// The strategy for a backend with string columns restricted to a set.
    pub fn string_enum(registry: Registry) -> (r: Codec)
        ensures
            r.spec_registry() == registry,
            r.spec_kind() == BackendKind::StringEnum,
            r.spec_server_type() == Seq::<char>::empty(),
    {
        Codec { registry, kind: BackendKind::StringEnum, server_type: String::new() }
    }

    /// The strategy for a backend with text columns under a check constraint.
    pub fn constrained_text(registry: Registry) -> (r: Codec)
        ensures
            r.spec_registry() == registry,
            r.spec_kind() == BackendKind::ConstrainedText,
            r.spec_server_type() == Seq::<char>::empty(),
    {
        Codec { registry, kind: BackendKind::ConstrainedText, server_type: String::new() }
    }

    pub fn registry(&self) -> (r: &Registry)
        ensures
            *r == self.spec_registry(),
    {
        &self.registry
    }

    pub fn kind(&self) -> (r: BackendKind)
        ensures
            r == self.spec_kind(),
    {
        self.kind
    }

    pub fn server_type(&self) -> (r: &str)
        ensures
            r@ == self.spec_server_type(),
    {
        self.server_type.as_str()
    }

    /// Writes the variant at position `v`.
    pub fn encode(&self, v: usize) -> (r: WireValue)
        requires
            v < self.names().len(),
        ensures
            r@ == encoded(self.names(), self.spec_kind(), v as int),
    {
        WireValue { kind: self.kind, label: self.registry.name_of(v) }
    }

    /// Reads a value back. A label outside the registry is an error, never a
    /// variant chosen in its place.
    pub fn decode(&self, w: &WireValue) -> (r: Result<usize, DecodeError>)
        requires
            self.wf(),
        ensures
            r is Ok <==> decoded(self.names(), self.spec_kind(), w@) is Some,
            r matches Ok(v) ==> decoded(self.names(), self.spec_kind(), w@) == Some(v as int),
            r matches Err(DecodeError::WrongRepresentation) <==> w.kind != self.spec_kind(),
            r matches Err(DecodeError::UnknownWireName(s)) ==> s@ == w.label@,
            w.kind == self.spec_kind() && !self.names().contains(w.label@) ==> r matches Err(
                DecodeError::UnknownWireName(_),
            ),
    {
        if w.kind != self.kind {
            return Err(DecodeError::WrongRepresentation);
        }
        match self.registry.variant_of(w.label.as_str()) {
            Ok(v) => Ok(v),
            Err(LookupError::UnknownVariant) => {
                Err(DecodeError::UnknownWireName(w.label.clone()))
            },
        }
    }
}

/// Whatever strategy is used, reading back what was written gives the variant
/// that was written.
pub proof fn lemma_round_trip(c: &Codec, v: int)
    requires
        c.wf(),
        0 <= v < c.names().len(),
    ensures
        decoded(c.names(), c.spec_kind(), encoded(c.names(), c.spec_kind(), v)) == Some(v),
{
    lemma_position_of_distinct(c.names(), v);
}

} // verus!
