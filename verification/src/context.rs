//! The render target: a drawing backend together with a ghost record of
//! every pass that was handed to it.

use crate::pass::{MeshLine, MeshPass, MeshPassView};
use vstd::prelude::*;

verus! {

/// Why a mesh could not be rendered.
#[derive(Debug, PartialEq, Eq)]
pub enum DrawError<E> {
    /// The drawing backend failed; its own error is carried unchanged.
    Backend(E),
    /// The configuration has already been rendered and holds no target.
    NoTarget,
}

impl<E> DrawError<E> {
    /// What a render reports for the outcome of a pass: success stays
    /// success, and a backend error is carried unchanged.
    pub open spec fn lifted(outcome: Result<(), E>) -> Result<(), DrawError<E>> {
        match outcome {
            Ok(_) => Ok(()),
            Err(error) => Err(DrawError::Backend(error)),
        }
    }

    /// Turns the outcome of a pass into the result of a render.
    pub fn lift(outcome: Result<(), E>) -> (result: Result<(), DrawError<E>>)
        ensures
            result == Self::lifted(outcome),
    {
        match outcome {
            Ok(_) => Ok(()),
            Err(error) => Err(DrawError::Backend(error)),
        }
    }
}

/// A drawing surface with a coordinate system, able to draw one mesh pass.
///
/// `draw_mesh` enumerates the gridlines of both axes, asks `label_text` for
/// the text of each of them, strokes the requested lines and axes, and sets
/// the labels and descriptions. Nothing is assumed of what it returns.
pub trait MeshBackend {
    /// The domain values along the X axis.
    type XValue;

    /// The domain values along the Y axis.
    type YValue;

    /// What the backend reports when drawing fails.
    type ErrorType;

    /// Draws the gridlines, axis lines, labels and descriptions that `pass`
    /// asks for, with the text that `label_text` gives for each gridline.
    /// The callback may be asked about any gridline, any number of times.
    fn draw_mesh<F>(&mut self, pass: &MeshPass, label_text: F) -> Result<(), Self::ErrorType> where
        F: Fn(&MeshLine<Self::XValue, Self::YValue>) -> Option<String>,

        requires
            forall|line: &MeshLine<Self::XValue, Self::YValue>| call_requires(label_text, (line,)),
    ;
}

/// One call of [`ChartContext::draw_mesh`], as the ghost record keeps it.
#[verifier::reject_recursive_types(X)]
#[verifier::reject_recursive_types(Y)]
pub struct DrawnPass<X, Y, E> {
    /// The arguments of the call.
    pub pass: MeshPassView,
    /// The label callback of the call, as the relation between a gridline and
    /// the texts the callback may return for it.
    pub labels: spec_fn(MeshLine<X, Y>, Option<String>) -> bool,
    /// What the backend returned.
    pub outcome: Result<(), E>,
}

impl<X, Y, E> DrawnPass<X, Y, E> {
    /// Whether the label callback of this call may return `text` for `line`.
    pub open spec fn may_label(self, line: MeshLine<X, Y>, text: Option<String>) -> bool {
        (self.labels)(line, text)
    }
}

/// The record entry of a call with these arguments and this outcome.
pub open spec fn drawn_pass<X, Y, E, F: Fn(&MeshLine<X, Y>) -> Option<String>>(
    pass: MeshPassView,
    label_text: F,
    outcome: Result<(), E>,
) -> DrawnPass<X, Y, E> {
    DrawnPass {
        pass,
        labels: |line: MeshLine<X, Y>, text: Option<String>| call_ensures(label_text, (&line,), text),
        outcome,
    }
}

/// A render target: it owns the backend and records each pass drawn on it.
#[verifier::reject_recursive_types(B)]
pub struct ChartContext<B: MeshBackend> {
    backend: B,
    drawn: Ghost<Seq<DrawnPass<B::XValue, B::YValue, B::ErrorType>>>,
}

impl<B: MeshBackend> ChartContext<B> {
    /// The backend as it stands.
    pub closed spec fn backend_view(&self) -> B {
        self.backend
    }

    /// Every pass handed to the backend so far, oldest first.
    pub closed spec fn drawn(&self) -> Seq<DrawnPass<B::XValue, B::YValue, B::ErrorType>> {
        self.drawn@
    }

    /// A target on which nothing has been drawn yet.
    pub fn new(backend: B) -> (context: Self)
        ensures
            context.backend_view() == backend,
            context.drawn() == Seq::<DrawnPass<B::XValue, B::YValue, B::ErrorType>>::empty(),
    {
        ChartContext { backend, drawn: Ghost(Seq::empty()) }
    }

    /// The backend, for reading.
    pub fn backend(&self) -> (backend: &B)
        ensures
            *backend == self.backend_view(),
    {
        &self.backend
    }

    /// Gives the backend back and ends the record.
    pub fn into_backend(self) -> (backend: B)
        ensures
            backend == self.backend_view(),
    {
        self.backend
    }

    /// Draws one pass on the backend and appends it to the record, whatever
    /// the backend returns.
    pub fn draw_mesh<F>(&mut self, pass: &MeshPass, label_text: F) -> (outcome: Result<
        (),
        B::ErrorType,
    >) where F: Fn(&MeshLine<B::XValue, B::YValue>) -> Option<String>
        requires
            forall|line: &MeshLine<B::XValue, B::YValue>| call_requires(label_text, (line,)),
        ensures
            final(self).drawn() == old(self).drawn().push(drawn_pass(pass@, label_text, outcome)),
    {
        let ghost callback = label_text;
        let outcome = self.backend.draw_mesh(pass, label_text);
        proof {
            self.drawn@ = self.drawn@.push(drawn_pass(pass@, callback, outcome));
        }
        outcome
    }
}

} // verus!
