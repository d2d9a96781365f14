//! An enumerated type mapped through the codec, and a row that holds it.
use vstd::prelude::*;
use crate::naming::snake_case;
use crate::registry::{Registry, VariantDecl};

verus! {

#[derive(Debug, Clone, Copy, PartialEq, Eq, Structural)]
pub enum MyEnum {
    Foo,
    Bar,
    BazQuxx,
}

/// A row of the `simple` table.
#[derive(Debug, Clone, Copy, PartialEq, Eq, Structural)]
pub struct Simple {
    pub id: i32,
    pub some_value: MyEnum,
}

proof fn lemma_default_names()
    ensures
        snake_case("Foo"@) == "foo"@,
        snake_case("Bar"@) == "bar"@,
{
    reveal_strlit("Foo");
    reveal_strlit("Bar");
    reveal_strlit("foo");
    reveal_strlit("bar");
    assert(snake_case(Seq::<char>::empty()) == Seq::<char>::empty());
    assert(seq!['F'].drop_last() =~= Seq::<char>::empty());
    assert(snake_case(seq!['F']) =~= seq!['f']);
    assert(seq!['F', 'o'].drop_last() =~= seq!['F']);
    assert(snake_case(seq!['F', 'o']) =~= seq!['f', 'o']);
    assert(seq!['F', 'o', 'o'].drop_last() =~= seq!['F', 'o']);
    assert(snake_case(seq!['F', 'o', 'o']) =~= seq!['f', 'o', 'o']);
    assert("Foo"@ =~= seq!['F', 'o', 'o']);
    assert("foo"@ =~= seq!['f', 'o', 'o']);
    assert(seq!['B'].drop_last() =~= Seq::<char>::empty());
    assert(snake_case(seq!['B']) =~= seq!['b']);
    assert(seq!['B', 'a'].drop_last() =~= seq!['B']);
    assert(snake_case(seq!['B', 'a']) =~= seq!['b', 'a']);
    assert(seq!['B', 'a', 'r'].drop_last() =~= seq!['B', 'a']);
    assert(snake_case(seq!['B', 'a', 'r']) =~= seq!['b', 'a', 'r']);
    assert("Bar"@ =~= seq!['B', 'a', 'r']);
    assert("bar"@ =~= seq!['b', 'a', 'r']);
}

impl MyEnum {
    pub open spec fn spec_position(self) -> int {
        match self {
            MyEnum::Foo => 0,
            MyEnum::Bar => 1,
            MyEnum::BazQuxx => 2,
        }
    }

    /// The wire-names of the variants, in declared order.
    pub open spec fn wire_names() -> Seq<Seq<char>> {
        seq!["foo"@, "bar"@, "baz_quxx"@]
    }

    /// The declarations of the variants: `BazQuxx` spells its wire-name out,
    /// the others follow the default rule.
    pub fn declarations() -> (r: Vec<VariantDecl>)
        ensures
            r@.len() == 3,
            r@[0].name@ == "Foo"@ && r@[0].rename is None,
            r@[1].name@ == "Bar"@ && r@[1].rename is None,
            r@[2].name@ == "BazQuxx"@,
            r@[2].rename matches Some(w) && w@ == "baz_quxx"@,
    {
        let mut r: Vec<VariantDecl> = Vec::new();
        r.push(VariantDecl { name: "Foo".to_owned(), rename: None });
        r.push(VariantDecl { name: "Bar".to_owned(), rename: None });
        r.push(VariantDecl { name: "BazQuxx".to_owned(), rename: Some("baz_quxx".to_owned()) });
        r
    }

    /// The registry of this type.
    pub fn registry() -> (r: Registry)
        ensures
            r.wf(),
            r.names() == Self::wire_names(),
            r.enum_name_view() == "MyEnum"@,
    {
        let decls = Self::declarations();
        proof {
            lemma_default_names();
            reveal_strlit("baz_quxx");
            assert(crate::registry::decl_wire_names(decls@) =~= Self::wire_names());
            reveal_strlit("foo");
            reveal_strlit("bar");
            let n = Self::wire_names();
            assert(n[0][0] != n[1][0]);
            assert(n[0][0] != n[2][0]);
            assert(n[1][2] != n[2][2]);
        }
        Registry::new("MyEnum", &decls).unwrap()
    }

    /// The variant's position in the registry.
    pub fn position(self) -> (r: usize)
        ensures
            r as int == self.spec_position(),
    {
        match self {
            MyEnum::Foo => 0,
            MyEnum::Bar => 1,
            MyEnum::BazQuxx => 2,
        }
    }

    /// The variant at a position of the registry.
    pub fn from_position(v: usize) -> (r: Option<MyEnum>)
        ensures
            r matches Some(e) ==> e.spec_position() == v,
            r is None <==> v >= 3,
    {
        match v {
            0 => Some(MyEnum::Foo),
            1 => Some(MyEnum::Bar),
            2 => Some(MyEnum::BazQuxx),
            _ => None,
        }
    }
}

} // verus!
