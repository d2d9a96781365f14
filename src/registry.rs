//! The variant registry: the closed, ordered set of wire-names of one
//! enumerated type. A variant is identified by its position in the set.
use vstd::prelude::*;
use crate::naming::{snake_case, to_snake_case};

verus! {

/// One declared variant: its identifier, and the wire-name that replaces the
/// default rule for it, if any.
pub struct VariantDecl {
    pub name: String,
    pub rename: Option<String>,
}

pub open spec fn decl_wire_name(d: VariantDecl) -> Seq<char> {
    match d.rename {
        Some(w) => w@,
        None => snake_case(d.name@),
    }
}

pub open spec fn decl_wire_names(decls: Seq<VariantDecl>) -> Seq<Seq<char>> {
    decls.map_values(|d: VariantDecl| decl_wire_name(d))
}

/// No two entries of `names` are equal.
pub open spec fn distinct(names: Seq<Seq<char>>) -> bool {
    forall|i: int, j: int|
        0 <= i < names.len() && 0 <= j < names.len() && i != j ==> names[i] != names[j]
}

pub open spec fn strings_view(v: Seq<String>) -> Seq<Seq<char>> {
    v.map_values(|s: String| s@)
}

/// The position of `name` among `names`, if it is there.
pub open spec fn position_of(names: Seq<Seq<char>>, name: Seq<char>) -> Option<int> {
    if exists|i: int| 0 <= i < names.len() && names[i] == name {
        Some(choose|i: int| 0 <= i < names.len() && names[i] == name)
    } else {
        None
    }
}

/// In a set without repetitions, the position of an entry is where it stands.
pub proof fn lemma_position_of_distinct(names: Seq<Seq<char>>, i: int)
    requires
        distinct(names),
        0 <= i < names.len(),
    ensures
        position_of(names, names[i]) == Some(i),
{
    assert(0 <= i < names.len() && names[i] == names[i]);
}

#[derive(Debug, Clone, Copy, PartialEq, Eq, Structural)]
pub enum RegistryError {
    /// The declarations at positions `first` and `second` have one wire-name.
    DuplicateWireName { first: usize, second: usize },
}

#[derive(Debug, Clone, Copy, PartialEq, Eq, Structural)]
pub enum LookupError {
    UnknownVariant,
}

pub struct Registry {
    enum_name: String,
    wire_names: Vec<String>,
}

impl Registry {
    pub closed spec fn names(&self) -> Seq<Seq<char>> {
        strings_view(self.wire_names@)
    }

    pub closed spec fn enum_name_view(&self) -> Seq<char> {
        self.enum_name@
    }

    pub open spec fn wf(&self) -> bool {
        distinct(self.names())
    }

    /// Builds the registry of the enumerated type `enum_name` from its
    /// declarations, in order. Fails when two declarations share a wire-name.
    pub fn new(enum_name: &str, decls: &Vec<VariantDecl>) -> (r: Result<Registry, RegistryError>)
        ensures
            r is Ok <==> distinct(decl_wire_names(decls@)),
            r matches Ok(reg) ==> reg.wf() && reg.names() == decl_wire_names(decls@)
                && reg.enum_name_view() == enum_name@,
            r matches Err(RegistryError::DuplicateWireName { first, second }) ==> first < second
                < decls@.len() && decl_wire_name(decls@[first as int]) == decl_wire_name(
                decls@[second as int],
            ),
    {
        let mut names: Vec<String> = Vec::new();
        let mut i: usize = 0;
        while i < decls.len()
            invariant
                i <= decls@.len(),
                names@.len() == i,
                strings_view(names@) == decl_wire_names(decls@).subrange(0, i as int),
                distinct(strings_view(names@)),
            decreases decls@.len() - i,
        {
            let d = &decls[i];
            let w = match &d.rename {
                Some(w) => w.clone(),
                None => to_snake_case(d.name.as_str()),
            };
            assert(w@ == decl_wire_name(decls@[i as int]));
            let mut j: usize = 0;
            while j < i
                invariant
                    j <= i,
                    i < decls@.len(),
                    names@.len() == i,
                    strings_view(names@) == decl_wire_names(decls@).subrange(0, i as int),
                    w@ == decl_wire_name(decls@[i as int]),
                    forall|k: int| 0 <= k < j ==> names@[k]@ != w@,
                decreases i - j,
            {
                if names[j] == w {
                    proof {
                        let all = decl_wire_names(decls@);
                        assert(strings_view(names@)[j as int] == names@[j as int]@);
                        assert(all.subrange(0, i as int)[j as int] == all[j as int]);
                        assert(all[j as int] == all[i as int]);
                    }
                    return Err(RegistryError::DuplicateWireName { first: j, second: i });
                }
                j = j + 1;
            }
            names.push(w);
            proof {
                assert(strings_view(names@) =~= decl_wire_names(decls@).subrange(0, i + 1));
            }
            i = i + 1;
        }
        proof {
            assert(decl_wire_names(decls@).subrange(0, decls@.len() as int) =~= decl_wire_names(
                decls@,
            ));
        }
        Ok(Registry { enum_name: enum_name.to_owned(), wire_names: names })
    }

    pub fn len(&self) -> (r: usize)
        ensures
            r == self.names().len(),
    {
        self.wire_names.len()
    }

    /// The wire-name of the variant at position `v`.
    pub fn name_of(&self, v: usize) -> (r: String)
        requires
            v < self.names().len(),
        ensures
            r@ == self.names()[v as int],
    {
        self.wire_names[v].clone()
    }

    /// The position of the variant whose wire-name is `name`.
    pub fn variant_of(&self, name: &str) -> (r: Result<usize, LookupError>)
        requires
            self.wf(),
        ensures
            r is Ok <==> self.names().contains(name@),
            r matches Ok(v) ==> Some(v as int) == position_of(self.names(), name@) && v
                < self.names().len() && self.names()[v as int] == name@,
    {
        let target = name.to_owned();
        let mut i: usize = 0;
        while i < self.wire_names.len()
            invariant
                i <= self.wire_names@.len(),
                target@ == name@,
                self.wf(),
                forall|k: int| 0 <= k < i ==> self.names()[k] != name@,
            decreases self.wire_names@.len() - i,
        {
            if self.wire_names[i] == target {
                proof {
                    lemma_position_of_distinct(self.names(), i as int);
                }
                return Ok(i);
            }
            i = i + 1;
        }
        Err(LookupError::UnknownVariant)
    }

    /// The enumerated type's own name.
    pub fn enum_name(&self) -> (r: &str)
        ensures
            r@ == self.enum_name_view(),
    {
        self.enum_name.as_str()
    }

    /// The wire-names in declared order: the literal set that a column
    /// holding this type must accept.
    pub fn wire_names(&self) -> (r: Vec<String>)
        ensures
            strings_view(r@) == self.names(),
    {
        let mut r: Vec<String> = Vec::new();
        let mut i: usize = 0;
        while i < self.wire_names.len()
            invariant
                i <= self.wire_names@.len(),
                r@.len() == i,
                strings_view(r@) == self.names().subrange(0, i as int),
            decreases self.wire_names@.len() - i,
        {
            let w = self.wire_names[i].clone();
            assert(w == self.wire_names@[i as int]);
            r.push(w);
            proof {
                assert(strings_view(r@) =~= self.names().subrange(0, i + 1));
            }
            i = i + 1;
        }
        proof {
            assert(self.names().subrange(0, i as int) =~= self.names());
        }
        r
    }
}

} // verus!
