//! The nullable adapter: lifts any strategy to columns that may hold NULL.
use vstd::prelude::*;
use crate::codec::{decoded, encoded, BackendKind, Codec, DecodeError, WireModel, WireValue};

verus! {

pub open spec fn opt_int(e: Option<usize>) -> Option<int> {
    match e {
        Some(v) => Some(v as int),
        None => None,
    }
}

pub open spec fn opt_wire(w: Option<WireValue>) -> Option<WireModel> {
    match w {
        Some(x) => Some(x@),
        None => None,
    }
}

/// What an envelope is written as: NULL for absence, else the wrapped
/// strategy's value.
pub open spec fn encoded_nullable(names: Seq<Seq<char>>, kind: BackendKind, e: Option<int>) -> Option<WireModel> {
    match e {
        Some(v) => Some(encoded(names, kind, v)),
        None => None,
    }
}

/// The envelope that a column value reads as; `None` when the wrapped strategy
/// fails on it.
pub open spec fn decoded_nullable(names: Seq<Seq<char>>, kind: BackendKind, w: Option<WireModel>) -> Option<Option<int>> {
    match w {
        None => Some(None),
        Some(m) => match decoded(names, kind, m) {
            Some(v) => Some(Some(v)),
            None => None,
        },
    }
}

pub struct NullableCodec {
    inner: Codec,
}

impl NullableCodec {
    pub closed spec fn spec_inner(&self) -> Codec {
        self.inner
    }

    pub fn new(inner: Codec) -> (r: NullableCodec)
        ensures
            r.spec_inner() == inner,
    {
        NullableCodec { inner }
    }

    pub fn inner(&self) -> (r: &Codec)
        ensures
            *r == self.spec_inner(),
    {
        &self.inner
    }

    /// Writes an envelope: absence as NULL (`None`), a variant through the
    /// wrapped strategy.
    pub fn encode(&self, e: Option<usize>) -> (r: Option<WireValue>)
        requires
            e matches Some(v) ==> v < self.spec_inner().names().len(),
        ensures
            opt_wire(r) == encoded_nullable(
                self.spec_inner().names(),
                self.spec_inner().spec_kind(),
                opt_int(e),
            ),
    {
        match e {
            Some(v) => Some(self.inner.encode(v)),
            None => None,
        }
    }

    /// Reads a column value back. NULL reads as absence; a failure of the
    /// wrapped strategy is passed on as it is.
    pub fn decode(&self, w: &Option<WireValue>) -> (r: Result<Option<usize>, DecodeError>)
        requires
            self.spec_inner().wf(),
        ensures
            r is Ok <==> decoded_nullable(
                self.spec_inner().names(),
                self.spec_inner().spec_kind(),
                opt_wire(*w),
            ) is Some,
            r matches Ok(e) ==> decoded_nullable(
                self.spec_inner().names(),
                self.spec_inner().spec_kind(),
                opt_wire(*w),
            ) == Some(opt_int(e)),
            r matches Err(DecodeError::WrongRepresentation) <==> (w matches Some(x) && x.kind
                != self.spec_inner().spec_kind()),
            r matches Err(DecodeError::UnknownWireName(s)) ==> (w matches Some(x) && s@
                == x.label@),
    {
        match w {
            None => Ok(None),
            Some(x) => match self.inner.decode(x) {
                Ok(v) => Ok(Some(v)),
                Err(err) => Err(err),
            },
        }
    }
}

/// Whatever strategy is wrapped, reading back what was written gives the
/// envelope that was written, absent or present.
pub proof fn lemma_nullable_round_trip(c: &NullableCodec, e: Option<int>)
    requires
        c.spec_inner().wf(),
        e matches Some(v) ==> 0 <= v < c.spec_inner().names().len(),
    ensures
        decoded_nullable(
            c.spec_inner().names(),
            c.spec_inner().spec_kind(),
            encoded_nullable(c.spec_inner().names(), c.spec_inner().spec_kind(), e),
        ) == Some(e),
{
    if let Some(v) = e {
        crate::codec::lemma_round_trip(&c.spec_inner(), v);
    }
}

} // verus!
