use std::ops::ControlFlow;
use vstd::prelude::*;

verus! {

/// The outcome of a validation step: a value or the errors that made it
/// fail, plus the warnings gathered along the way, in the order they came.
#[derive(Debug, PartialEq, Eq, PartialOrd, Ord)]
pub struct Validation<T, E, W> {
    pub warnings: Vec<W>,
    pub result: Result<T, Vec<E>>,
}

/// What a failing step hands to the enclosing computation when a chain
/// stops: its own warnings and its errors.
pub struct ValidationResidual<E, W> {
    pub warnings: Vec<W>,
    pub errors: Vec<E>,
}

/// The mathematical content of a `Validation`.
pub struct ValidationView<T, E, W> {
    pub warnings: Seq<W>,
    pub result: Result<T, Seq<E>>,
}

/// The mathematical content of a `ValidationResidual`.
pub struct ResidualView<E, W> {
    pub warnings: Seq<W>,
    pub errors: Seq<E>,
}

impl<T: Clone, E: Clone, W: Clone> Clone for Validation<T, E, W> {
    fn clone(&self) -> Self {
        let result = match &self.result {
            Ok(v) => Ok(v.clone()),
            Err(es) => Err(es.clone()),
        };
        Validation { warnings: self.warnings.clone(), result }
    }
}

impl<T, E, W> View for Validation<T, E, W> {
    type V = ValidationView<T, E, W>;

    open spec fn view(&self) -> ValidationView<T, E, W> {
        ValidationView {
            warnings: self.warnings@,
            result: match self.result {
                Ok(v) => Ok(v),
                Err(es) => Err(es@),
            },
        }
    }
}

impl<E, W> View for ValidationResidual<E, W> {
    type V = ResidualView<E, W>;

    open spec fn view(&self) -> ResidualView<E, W> {
        ResidualView { warnings: self.warnings@, errors: self.errors@ }
    }
}

impl<T, E, W> ValidationView<T, E, W> {
    /// A success holding `v`, with no warnings.
    pub open spec fn success(v: T) -> Self {
        ValidationView { warnings: Seq::empty(), result: Ok(v) }
    }

    /// A failure with the warnings and errors of `res`, taken as they are.
    pub open spec fn failure_from(res: ResidualView<E, W>) -> Self {
        ValidationView { warnings: res.warnings, result: Err(res.errors) }
    }

    /// The value of a success; nothing for a failure.
    pub open spec fn ok(self) -> Option<T> {
        match self.result {
            Ok(v) => Some(v),
            Err(_) => None,
        }
    }

    /// The same outcome with `w` added after the existing warnings.
    pub open spec fn with_warning(self, w: W) -> Self {
        ValidationView { warnings: self.warnings.push(w), result: self.result }
    }

    /// The same outcome with `ws` added, in order, after the existing warnings.
    pub open spec fn with_warnings(self, ws: Seq<W>) -> Self {
        ValidationView { warnings: self.warnings + ws, result: self.result }
    }

    /// Decomposition for short-circuit chaining: a success continues with
    /// its bare value, a failure breaks with its warnings and errors.
    pub open spec fn branch(self) -> ControlFlow<ResidualView<E, W>, T> {
        match self.result {
            Ok(v) => ControlFlow::Continue(v),
            Err(es) => ControlFlow::Break(ResidualView { warnings: self.warnings, errors: es }),
        }
    }

    /// `self` is what mapping `src` gives when `rel(v, u)` holds of each
    /// success value `v` and the value `u` it is turned into: the warnings
    /// are kept, a success stays a success related by `rel`, and a failure
    /// keeps its errors.
    pub open spec fn is_map_of<S>(
        self,
        src: ValidationView<S, E, W>,
        rel: spec_fn(S, T) -> bool,
    ) -> bool {
        &&& self.warnings == src.warnings
        &&& match src.result {
            Ok(v) => self.result is Ok && rel(v, self.result->Ok_0),
            Err(es) => self.result == Err::<T, Seq<E>>(es),
        }
    }
}

/// The mathematical content of what `Validation::branch` returns.
pub open spec fn flow_view<E, W, T>(cf: ControlFlow<ValidationResidual<E, W>, T>) -> ControlFlow<
    ResidualView<E, W>,
    T,
> {
    match cf {
        ControlFlow::Continue(v) => ControlFlow::Continue(v),
        ControlFlow::Break(res) => ControlFlow::Break(res@),
    }
}

impl<T, E, W> Validation<T, E, W> {
    /// The value of a success, or `None` for a failure; the warnings are
    /// dropped.
    pub fn ok(self) -> (r: Option<T>)
        ensures
            r == self@.ok(),
    {
        self.result.ok()
    }

    /// Turns the value of a success with `f`; a failure keeps its errors and
    /// `f` is not called. The warnings are kept either way.
    pub fn map<U, F>(self, f: F) -> (r: Validation<U, E, W>)
        where
            F: FnOnce(T) -> U,
        requires
            self.result is Ok ==> f.requires((self.result->Ok_0,)),
        ensures
            r@.is_map_of(self@, |v: T, u: U| f.ensures((v,), u)),
    {
        Validation { warnings: self.warnings, result: self.result.map(f) }
    }

    /// Adds one warning after the existing ones and hands `self` back for
    /// further calls. The success or failure is untouched.
    pub fn warn(&mut self, warning: W) -> (r: &mut Self)
        ensures
            r@ == old(self)@.with_warning(warning),
            *final(self) == *final(r),
    {
        self.warnings.push(warning);
        self
    }

    /// Adds all of `warnings`, in their order, after the existing ones and
    /// hands `self` back for further calls. The success or failure is
    /// untouched.
    pub fn warns(&mut self, warnings: Vec<W>) -> (r: &mut Self)
        ensures
            r@ == old(self)@.with_warnings(warnings@),
            *final(self) == *final(r),
    {
        let mut warnings = warnings;
        self.warnings.append(&mut warnings);
        self
    }

    /// Decomposes `self` for short-circuit chaining: a success continues
    /// with its bare value, and its warnings are dropped; a failure breaks
    /// with a residual that holds its warnings and errors.
    pub fn branch(self) -> (r: ControlFlow<ValidationResidual<E, W>, T>)
        ensures
            flow_view(r) == self@.branch(),
    {
        match self.result {
            Err(errors) => ControlFlow::Break(ValidationResidual { warnings: self.warnings, errors }),
            Ok(value) => ControlFlow::Continue(value),
        }
    }

    /// A success holding `output`, with no warnings.
    pub fn from_output(output: T) -> (r: Self)
        ensures
            r@ == ValidationView::<T, E, W>::success(output),
    {
        Validation { warnings: Vec::new(), result: Ok(output) }
    }

    /// A failure rebuilt from a residual: its warnings and errors, as they are.
    pub fn from_residual(residual: ValidationResidual<E, W>) -> (r: Self)
        ensures
            r@ == ValidationView::<T, E, W>::failure_from(residual@),
    {
        Validation { warnings: residual.warnings, result: Err(residual.errors) }
    }
}

} // verus!
