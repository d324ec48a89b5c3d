//! The optional arguments at the end of a message.
//!
//! Seven kinds of message end in up to two values: a sequence of positional
//! arguments and, only behind it, a dictionary of keyword arguments. The
//! type has no value for keyword arguments without positional ones.

use crate::error::MessagingError;
use crate::intermediate::{lemma_array_view, views_of, Dict, Intermediate, IntermediateView};
use vstd::prelude::*;

verus! {

/// What an [`Arguments`] holds, as mathematics.
pub enum ArgumentsView {
    NoArgs,
    Args(Seq<IntermediateView>),
    KwArgs(Seq<IntermediateView>, Seq<(Seq<char>, IntermediateView)>),
}

/// The arguments of a message: none, positional ones, or positional ones
/// with keyword arguments.
#[derive(Debug, PartialEq)]
pub enum Arguments {
    NoArgs,
    Args(Vec<Intermediate>),
    KwArgs(Vec<Intermediate>, Dict),
}

impl ArgumentsView {
    /// The positional arguments, where there are any arguments.
    pub open spec fn spec_positional(self) -> Option<Seq<IntermediateView>> {
        match self {
            ArgumentsView::NoArgs => None,
            ArgumentsView::Args(args) => Some(args),
            ArgumentsView::KwArgs(args, _) => Some(args),
        }
    }

    /// The keyword arguments, where there are any.
    pub open spec fn spec_keyword(self) -> Option<Seq<(Seq<char>, IntermediateView)>> {
        match self {
            ArgumentsView::KwArgs(_, kwargs) => Some(kwargs),
            _ => None,
        }
    }

    /// The values that the arguments add to the end of a message: none, the
    /// sequence, or the sequence and the dictionary.
    pub open spec fn spec_flatten(self) -> Seq<IntermediateView> {
        match self {
            ArgumentsView::NoArgs => Seq::empty(),
            ArgumentsView::Args(args) => seq![IntermediateView::Array(args)],
            ArgumentsView::KwArgs(args, kwargs) => seq![
                IntermediateView::Array(args),
                IntermediateView::Object(kwargs),
            ],
        }
    }

    /// The arguments that the values at the end of a message stand for.
    pub open spec fn spec_unflatten(tail: Seq<IntermediateView>) -> Result<
        ArgumentsView,
        MessagingError,
    > {
        if tail.len() == 0 {
            Ok(ArgumentsView::NoArgs)
        } else if tail.len() == 1 {
            match tail[0] {
                IntermediateView::Array(args) => Ok(ArgumentsView::Args(args)),
                _ => Err(MessagingError::ArgumentShapeError),
            }
        } else if tail.len() == 2 {
            match (tail[0], tail[1]) {
                (IntermediateView::Array(args), IntermediateView::Object(kwargs)) => Ok(
                    ArgumentsView::KwArgs(args, kwargs),
                ),
                _ => Err(MessagingError::ArgumentShapeError),
            }
        } else {
            Err(MessagingError::ArgumentShapeError)
        }
    }
}

impl View for Arguments {
    type V = ArgumentsView;

    open spec fn view(&self) -> ArgumentsView {
        match self {
            Arguments::NoArgs => ArgumentsView::NoArgs,
            Arguments::Args(args) => ArgumentsView::Args(views_of(args@)),
            Arguments::KwArgs(args, kwargs) => ArgumentsView::KwArgs(
                views_of(args@),
                kwargs@,
            ),
        }
    }
}

impl Clone for Arguments {
    fn clone(&self) -> (copy: Arguments)
        ensures
            copy@ == self@,
    {
        match self {
            Arguments::NoArgs => Arguments::NoArgs,
            Arguments::Args(args) => Arguments::Args(clone_values(args)),
            Arguments::KwArgs(args, kwargs) => Arguments::KwArgs(
                clone_values(args),
                kwargs.clone(),
            ),
        }
    }
}

/// A copy of each value, in the same order.
pub fn clone_values(values: &Vec<Intermediate>) -> (copy: Vec<Intermediate>)
    ensures
        views_of(copy@) == views_of(values@),
{
    let mut copy: Vec<Intermediate> = Vec::new();
    let mut i: usize = 0;
    while i < values.len()
        invariant
            i <= values.len(),
            copy.len() == i,
            forall|j: int| 0 <= j < i ==> (#[trigger] copy[j])@ == values[j]@,
        decreases values.len() - i,
    {
        copy.push(values[i].clone());
        i += 1;
    }
    copy
}

impl Arguments {
    /// No arguments.
    pub fn no_args() -> (a: Arguments)
        ensures
            a@ == ArgumentsView::NoArgs,
    {
        Arguments::NoArgs
    }

    /// Positional arguments alone.
    pub fn with_args(positional: Vec<Intermediate>) -> (a: Arguments)
        ensures
            a@ == ArgumentsView::Args(views_of(positional@)),
    {
        Arguments::Args(positional)
    }

    /// Positional arguments and, behind them, keyword arguments.
    pub fn with_kwargs(positional: Vec<Intermediate>, keyword: Dict) -> (a: Arguments)
        ensures
            a@ == ArgumentsView::KwArgs(views_of(positional@), keyword@),
    {
        Arguments::KwArgs(positional, keyword)
    }

    /// The positional arguments, where there are any arguments.
    pub fn positional(&self) -> (args: Option<&Vec<Intermediate>>)
        ensures
            match args {
                Some(values) => self@.spec_positional() == Some(views_of(values@)),
                None => self@.spec_positional() is None,
            },
    {
        match self {
            Arguments::NoArgs => None,
            Arguments::Args(args) => Some(args),
            Arguments::KwArgs(args, _) => Some(args),
        }
    }

    /// The keyword arguments, where there are any.
    pub fn keyword(&self) -> (kwargs: Option<&Dict>)
        ensures
            match kwargs {
                Some(dict) => self@.spec_keyword() == Some(dict@),
                None => self@.spec_keyword() is None,
            },
    {
        match self {
            Arguments::KwArgs(_, kwargs) => Some(kwargs),
            _ => None,
        }
    }

    /// Checks that there are no arguments, for a reader that expects none.
    /// Arguments of any kind give `ArgumentShapeError`.
    pub fn from_arguments0(&self) -> (r: Result<(), MessagingError>)
        ensures
            r == if self@ is NoArgs {
                Ok::<(), MessagingError>(())
            } else {
                Err::<(), MessagingError>(MessagingError::ArgumentShapeError)
            },
    {
        if let Arguments::NoArgs = self {
            Ok(())
        } else {
            Err(MessagingError::ArgumentShapeError)
        }
    }

    /// The values that these arguments add to the end of a message.
    pub fn flatten(self) -> (tail: Vec<Intermediate>)
        ensures
            views_of(tail@) == self@.spec_flatten(),
    {
        let mut tail: Vec<Intermediate> = Vec::new();
        match self {
            Arguments::NoArgs => {},
            Arguments::Args(args) => {
                proof {
                    lemma_array_view(args);
                }
                tail.push(Intermediate::Array(args));
            },
            Arguments::KwArgs(args, kwargs) => {
                proof {
                    lemma_array_view(args);
                }
                tail.push(Intermediate::Array(args));
                tail.push(Intermediate::Object(kwargs));
            },
        }
        tail
    }

    /// Reads the values at the end of a message as arguments. More than two
    /// values, a first one that is no sequence, or a second one that is no
    /// dictionary give `ArgumentShapeError`.
    pub fn unflatten(tail: Vec<Intermediate>) -> (r: Result<Arguments, MessagingError>)
        ensures
            match r {
                Ok(a) => ArgumentsView::spec_unflatten(views_of(tail@)) == Ok::<
                    ArgumentsView,
                    MessagingError,
                >(a@),
                Err(e) => ArgumentsView::spec_unflatten(views_of(tail@)) == Err::<
                    ArgumentsView,
                    MessagingError,
                >(e),
            },
    {
        let mut tail = tail;
        let ghost views = views_of(tail@);
        if tail.len() > 2 {
            return Err(MessagingError::ArgumentShapeError);
        }
        let second = if tail.len() == 2 {
            tail.pop()
        } else {
            None
        };
        let first = tail.pop();
        match (first, second) {
            (None, _) => Ok(Arguments::NoArgs),
            (Some(Intermediate::Array(args)), None) => {
                proof {
                    lemma_array_view(args);
                }
                Ok(Arguments::Args(args))
            },
            (Some(Intermediate::Array(args)), Some(Intermediate::Object(kwargs))) => {
                proof {
                    lemma_array_view(args);
                }
                Ok(Arguments::KwArgs(args, kwargs))
            },
            _ => Err(MessagingError::ArgumentShapeError),
        }
    }
}

/// Keyword arguments never stand without positional ones.
pub proof fn lemma_keyword_needs_positional(a: ArgumentsView)
    ensures
        a.spec_keyword() is Some ==> a.spec_positional() is Some,
{
}

/// Arguments add at most two values, and reading those values gives the
/// arguments back.
pub proof fn lemma_unflatten_flatten(a: ArgumentsView)
    ensures
        a.spec_flatten().len() <= 2,
        ArgumentsView::spec_unflatten(a.spec_flatten()) == Ok::<ArgumentsView, MessagingError>(a),
{
}

/// Values that read as arguments are the values that those arguments add.
pub proof fn lemma_flatten_unflatten(tail: Seq<IntermediateView>, a: ArgumentsView)
    requires
        ArgumentsView::spec_unflatten(tail) == Ok::<ArgumentsView, MessagingError>(a),
    ensures
        a.spec_flatten() == tail,
{
}

} // verus!
