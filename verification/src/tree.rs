//! The output of the reader: the tree of groups, examples and benchmarks.

use crate::token::CodeBlock;
use vstd::prelude::*;

verus! {

/// A named test case.
#[derive(Debug, PartialEq, Eq)]
pub struct Example {
    pub name: String,
    pub body: CodeBlock,
}

/// A named measurement. Inside the body the harness goes by the name
/// `binding`.
#[derive(Debug, PartialEq, Eq)]
pub struct Benchmark {
    pub name: String,
    pub binding: String,
    pub body: CodeBlock,
}

/// What a group holds besides its hooks.
#[derive(Debug, PartialEq, Eq)]
pub enum Child {
    Group(Group),
    Example(Example),
    Benchmark(Benchmark),
}

/// A named collection of clauses. The three sequences keep the order in
/// which the clauses stand in the source.
#[derive(Debug, PartialEq, Eq)]
pub struct Group {
    pub name: String,
    /// The setup hooks.
    pub before: Vec<CodeBlock>,
    /// The teardown hooks.
    pub after: Vec<CodeBlock>,
    /// Nested groups, examples and benchmarks.
    pub children: Vec<Child>,
}

/// The mathematical value of an [`Example`].
pub struct ExampleView {
    pub name: Seq<char>,
    pub body: CodeBlock,
}

/// The mathematical value of a [`Benchmark`].
pub struct BenchmarkView {
    pub name: Seq<char>,
    pub binding: Seq<char>,
    pub body: CodeBlock,
}

/// The mathematical value of a [`Child`].
pub enum ChildView {
    Group(GroupView),
    Example(ExampleView),
    Benchmark(BenchmarkView),
}

/// The mathematical value of a [`Group`].
pub struct GroupView {
    pub name: Seq<char>,
    pub before: Seq<CodeBlock>,
    pub after: Seq<CodeBlock>,
    pub children: Seq<ChildView>,
}

impl View for Example {
    type V = ExampleView;

    open spec fn view(&self) -> ExampleView {
        ExampleView { name: self.name@, body: self.body }
    }
}

impl View for Benchmark {
    type V = BenchmarkView;

    open spec fn view(&self) -> BenchmarkView {
        BenchmarkView { name: self.name@, binding: self.binding@, body: self.body }
    }
}

impl View for Child {
    type V = ChildView;

    open spec fn view(&self) -> ChildView
        decreases self,
    {
        match self {
            Child::Group(g) => ChildView::Group(g@),
            Child::Example(e) => ChildView::Example(e@),
            Child::Benchmark(b) => ChildView::Benchmark(b@),
        }
    }
}

impl View for Group {
    type V = GroupView;

    open spec fn view(&self) -> GroupView
        decreases self,
    {
        GroupView {
            name: self.name@,
            before: self.before@,
            after: self.after@,
            children: children_view(self.children@),
        }
    }
}

/// The values of a run of children, in order.
pub open spec fn children_view(children: Seq<Child>) -> Seq<ChildView>
    decreases children,
{
    // The bound on `i` serves the termination check alone.
    Seq::new(
        children.len(),
        |i: int| if 0 <= i < children.len() { children[i]@ } else { arbitrary() },
    )
}

/// The values of a run of children with one more behind it.
pub proof fn lemma_children_view_push(children: Seq<Child>, child: Child)
    ensures
        children_view(children.push(child)) == children_view(children).push(child@),
{
    assert(children_view(children.push(child)) =~= children_view(children).push(child@));
}

impl GroupView {
    /// The group of this name that holds nothing.
    pub open spec fn empty(name: Seq<char>) -> GroupView {
        GroupView { name, before: Seq::empty(), after: Seq::empty(), children: Seq::empty() }
    }

    /// Whether no block of the tree ends in an expression without
    /// terminator.
    pub open spec fn terminated(self) -> bool
        decreases self,
    {
        &&& forall|i: int| 0 <= i < self.before.len() ==> !(#[trigger] self.before[i]).trailing_expr
        &&& forall|i: int| 0 <= i < self.after.len() ==> !(#[trigger] self.after[i]).trailing_expr
        &&& forall|i: int| 0 <= i < self.children.len() ==> (#[trigger] self.children[i]).terminated()
    }
}

impl ChildView {
    /// Whether no block below this child ends in an expression without
    /// terminator.
    pub open spec fn terminated(self) -> bool
        decreases self,
    {
        match self {
            ChildView::Group(g) => g.terminated(),
            ChildView::Example(e) => !e.body.trailing_expr,
            ChildView::Benchmark(b) => !b.body.trailing_expr,
        }
    }
}

} // verus!
