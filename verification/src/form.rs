//! The form: what the user has typed in, and the process that was started
//! from it.

use crate::stage::{MAX_STAGE, MIN_STAGE};
use vstd::prelude::*;
use vstd::string::*;

verus! {

/// The state of the form. `H` is the handle by which a started process is
/// reached; the form keeps at most one and never looks inside it.
pub struct FormState<H> {
    identifier: String,
    stage: usize,
    method: String,
    active_process: Option<H>,
}

/// What a [`FormState`] holds.
pub struct FormModel<H> {
    /// The identifier of the tower, as typed.
    pub identifier: Seq<char>,
    /// The number of bells.
    pub stage: int,
    /// The name of the method, as typed.
    pub method: Seq<char>,
    /// The process that the latest successful start has spawned.
    pub active_process: Option<H>,
}

impl<H> FormModel<H> {
    /// Whether two forms show the same to the user. The process is not
    /// shown, so it does not count.
    pub open spec fn same_fields(self, other: FormModel<H>) -> bool {
        &&& self.identifier == other.identifier
        &&& self.stage == other.stage
        &&& self.method == other.method
    }
}

/// Whether the form accepts `stage`.
pub open spec fn stage_in_range(stage: int) -> bool {
    MIN_STAGE as int <= stage <= MAX_STAGE as int
}

/// The form as it is when the window opens: a sample tower, six bells, a
/// sample method, and no process.
pub open spec fn initial_form<H>() -> FormModel<H> {
    FormModel {
        identifier: "213576498"@,
        stage: 6,
        method: "Plain Bob"@,
        active_process: None,
    }
}

impl<H> View for FormState<H> {
    type V = FormModel<H>;

    closed spec fn view(&self) -> FormModel<H> {
        FormModel {
            identifier: self.identifier@,
            stage: self.stage as int,
            method: self.method@,
            active_process: self.active_process,
        }
    }
}

impl<H: Clone> Clone for FormState<H> {
    /// A second form with the same fields. The handle is cloned along with
    /// them, so where handles are shared both forms reach the same process.
    fn clone(&self) -> (copy: Self)
        ensures
            copy@.same_fields(self@),
            self@.active_process is None ==> copy@.active_process is None,
            self@.active_process matches Some(handle) ==> copy@.active_process is Some && cloned(
                handle,
                copy@.active_process->0,
            ),
    {
        proof {
            use_type_invariant(self);
        }
        let active_process = match &self.active_process {
            Some(handle) => Some(handle.clone()),
            None => None,
        };
        FormState {
            identifier: self.identifier.clone(),
            stage: self.stage,
            method: self.method.clone(),
            active_process,
        }
    }
}

impl<H> FormState<H> {
    #[verifier::type_invariant]
    spec fn stage_is_in_range(self) -> bool {
        stage_in_range(self.stage as int)
    }

    /// The form as it is when the window opens.
    pub fn new() -> (form: Self)
        ensures
            form@ == initial_form::<H>(),
    {
        FormState {
            identifier: String::from_str("213576498"),
            stage: 6,
            method: String::from_str("Plain Bob"),
            active_process: None,
        }
    }

    /// A form with the given fields and no process. There is none for a
    /// stage that the form does not accept.
    pub fn with_fields(identifier: String, stage: usize, method: String) -> (form: Option<Self>)
        ensures
            form is Some <==> stage_in_range(stage as int),
            form matches Some(f) ==> f@ == (FormModel::<H> {
                identifier: identifier@,
                stage: stage as int,
                method: method@,
                active_process: None,
            }),
    {
        if MIN_STAGE <= stage && stage <= MAX_STAGE {
            Some(FormState { identifier, stage, method, active_process: None })
        } else {
            None
        }
    }

    /// The identifier of the tower.
    pub fn identifier(&self) -> (identifier: &str)
        ensures
            identifier@ == self@.identifier,
    {
        self.identifier.as_str()
    }

    /// The number of bells, which always lies in the range of the form.
    pub fn stage(&self) -> (stage: usize)
        ensures
            stage as int == self@.stage,
            stage_in_range(stage as int),
    {
        proof {
            use_type_invariant(self);
        }
        self.stage
    }

    /// The name of the method.
    pub fn method(&self) -> (method: &str)
        ensures
            method@ == self@.method,
    {
        self.method.as_str()
    }

    /// The handle of the process that the latest successful start has
    /// spawned, if there has been one.
    pub fn active_process(&self) -> (handle: Option<&H>)
        ensures
            handle is Some <==> self@.active_process is Some,
            handle matches Some(h) ==> self@.active_process == Some(*h),
    {
        self.active_process.as_ref()
    }

    /// Whether a process is tracked.
    pub fn has_active_process(&self) -> (present: bool)
        ensures
            present <==> self@.active_process is Some,
    {
        self.active_process.is_some()
    }

    /// Replaces the identifier of the tower.
    pub fn set_identifier(&mut self, identifier: String)
        ensures
            final(self)@ == (FormModel { identifier: identifier@, ..old(self)@ }),
    {
        proof {
            use_type_invariant(&*self);
        }
        self.identifier = identifier;
    }

    /// Replaces the name of the method.
    pub fn set_method(&mut self, method: String)
        ensures
            final(self)@ == (FormModel { method: method@, ..old(self)@ }),
    {
        proof {
            use_type_invariant(&*self);
        }
        self.method = method;
    }

    /// Sets the number of bells, if the form accepts it. Otherwise the form
    /// stays as it is, and the answer is `false`.
    pub fn set_stage(&mut self, stage: usize) -> (accepted: bool)
        ensures
            accepted <==> stage_in_range(stage as int),
            accepted ==> final(self)@ == (FormModel { stage: stage as int, ..old(self)@ }),
            !accepted ==> final(self)@ == old(self)@,
    {
        if MIN_STAGE <= stage && stage <= MAX_STAGE {
            self.stage = stage;
            true
        } else {
            false
        }
    }

    /// Whether two forms show the same to the user. The process does not
    /// count: a form that differs only in it needs no redraw.
    pub fn same_fields(&self, other: &Self) -> (same: bool)
        ensures
            same == self@.same_fields(other@),
    {
        self.identifier == other.identifier && self.stage == other.stage && self.method
            == other.method
    }

    /// Tracks `handle` in place of whatever was tracked before.
    pub(crate) fn store_process(&mut self, handle: H)
        ensures
            final(self)@ == (FormModel { active_process: Some(handle), ..old(self)@ }),
    {
        proof {
            use_type_invariant(&*self);
        }
        self.active_process = Some(handle);
    }
}

} // verus!
