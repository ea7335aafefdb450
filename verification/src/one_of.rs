//! One of a fixed number of views: a closed choice between view types that
//! keeps each alternative's static type and needs no allocation of its own.

use vstd::prelude::*;
use crate::node::Node;
use crate::node::NodeSpec;
use crate::node::Render;

verus! {

/// One of two views.
#[derive(Debug, PartialEq, Eq)]
pub enum OneOf2<A, B> {
    A(A),
    B(B),
}

impl<A, B> OneOf2<A, B> {
    /// The number of the alternative that is held, counted from 1.
    pub open spec fn tag(&self) -> nat {
        match self {
            OneOf2::A(_) => 1,
            OneOf2::B(_) => 2,
        }
    }

    /// Holds the first alternative.
    pub fn a(view: A) -> (one: Self)
        ensures
            one == OneOf2::<A, B>::A(view),
    {
        OneOf2::A(view)
    }

    /// Holds the second alternative.
    pub fn b(view: B) -> (one: Self)
        ensures
            one == OneOf2::<A, B>::B(view),
    {
        OneOf2::B(view)
    }

    /// The number of the alternative that is held, counted from 1.
    pub fn index(&self) -> (i: usize)
        ensures
            i == self.tag(),
    {
        match self {
            OneOf2::A(_) => 1,
            OneOf2::B(_) => 2,
        }
    }
}

impl<M: View, A: Render<M>, B: Render<M>> Render<M> for OneOf2<A, B> {
    open spec fn nodes(&self) -> Seq<NodeSpec<M::V>> {
        match self {
            OneOf2::A(view) => view.nodes(),
            OneOf2::B(view) => view.nodes(),
        }
    }

    fn render(self) -> (out: Vec<Node<M>>) {
        match self {
            OneOf2::A(view) => view.render(),
            OneOf2::B(view) => view.render(),
        }
    }
}

/// One of four views.
#[derive(Debug, PartialEq, Eq)]
pub enum OneOf4<A, B, C, D> {
    A(A),
    B(B),
    C(C),
    D(D),
}

impl<A, B, C, D> OneOf4<A, B, C, D> {
    /// The number of the alternative that is held, counted from 1.
    pub open spec fn tag(&self) -> nat {
        match self {
            OneOf4::A(_) => 1,
            OneOf4::B(_) => 2,
            OneOf4::C(_) => 3,
            OneOf4::D(_) => 4,
        }
    }

    /// Holds the first alternative.
    pub fn a(view: A) -> (one: Self)
        ensures
            one == OneOf4::<A, B, C, D>::A(view),
    {
        OneOf4::A(view)
    }

    /// Holds the second alternative.
    pub fn b(view: B) -> (one: Self)
        ensures
            one == OneOf4::<A, B, C, D>::B(view),
    {
        OneOf4::B(view)
    }

    /// Holds the third alternative.
    pub fn c(view: C) -> (one: Self)
        ensures
            one == OneOf4::<A, B, C, D>::C(view),
    {
        OneOf4::C(view)
    }

    /// Holds the fourth alternative.
    pub fn d(view: D) -> (one: Self)
        ensures
            one == OneOf4::<A, B, C, D>::D(view),
    {
        OneOf4::D(view)
    }

    /// The number of the alternative that is held, counted from 1.
    pub fn index(&self) -> (i: usize)
        ensures
            i == self.tag(),
    {
        match self {
            OneOf4::A(_) => 1,
            OneOf4::B(_) => 2,
            OneOf4::C(_) => 3,
            OneOf4::D(_) => 4,
        }
    }
}

impl<M: View, A: Render<M>, B: Render<M>, C: Render<M>, D: Render<M>> Render<M> for OneOf4<
    A,
    B,
    C,
    D,
> {
    open spec fn nodes(&self) -> Seq<NodeSpec<M::V>> {
        match self {
            OneOf4::A(view) => view.nodes(),
            OneOf4::B(view) => view.nodes(),
            OneOf4::C(view) => view.nodes(),
            OneOf4::D(view) => view.nodes(),
        }
    }

    fn render(self) -> (out: Vec<Node<M>>) {
        match self {
            OneOf4::A(view) => view.render(),
            OneOf4::B(view) => view.render(),
            OneOf4::C(view) => view.render(),
            OneOf4::D(view) => view.render(),
        }
    }
}

/// A choice between two views holds exactly one of them, and its tag is
/// the number of the one it holds.
pub proof fn law_one_of2_holds_exactly_one<A, B>(one: OneOf2<A, B>)
    ensures
        1 <= one.tag() <= 2,
        one is A <==> one.tag() == 1,
        one is B <==> one.tag() == 2,
        one is A <==> !(one is B),
{
}

/// A choice between four views holds exactly one of them, and its tag is
/// the number of the one it holds.
pub proof fn law_one_of4_holds_exactly_one<A, B, C, D>(one: OneOf4<A, B, C, D>)
    ensures
        1 <= one.tag() <= 4,
        one is A <==> one.tag() == 1,
        one is B <==> one.tag() == 2,
        one is C <==> one.tag() == 3,
        one is D <==> one.tag() == 4,
        one is A || one is B || one is C || one is D,
        !(one is A && one is B) && !(one is A && one is C) && !(one is A && one is D),
        !(one is B && one is C) && !(one is B && one is D) && !(one is C && one is D),
{
}

} // verus!
