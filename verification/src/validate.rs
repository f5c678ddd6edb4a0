use vstd::prelude::*;
use vstd::string::StringExecFns;

use crate::error::AppError;

verus! {

/// Mathematical shape of one field failure: a composed field path, a rule
/// code, and an optional human-readable message.
pub ghost struct ErrView {
    pub field: Seq<char>,
    pub code: Seq<char>,
    pub message: Option<Seq<char>>,
}

/// One field failure: `(field_path, code, message)`. Field paths compose
/// parent and child names with `": "` for nested or list-valued fields.
#[derive(Debug)]
pub struct ValidationError {
    pub field: String,
    pub code: String,
    pub message: Option<String>,
}

impl View for ValidationError {
    type V = ErrView;

    open spec fn view(&self) -> ErrView {
        ErrView {
            field: self.field@,
            code: self.code@,
            message: match self.message {
                Some(m) => Some(m@),
                None => None,
            },
        }
    }
}

impl DeepView for ValidationError {
    type V = ErrView;

    open spec fn deep_view(&self) -> ErrView {
        self.view()
    }
}

impl ValidationError {
    /// A failure that renders through its code alone.
    pub fn new(field: &str, code: &str) -> (r: ValidationError)
        ensures
            r@.field == field@,
            r@.code == code@,
            r@.message is None,
    {
        ValidationError { field: field.to_owned(), code: code.to_owned(), message: None }
    }

    /// A failure carrying a human-readable message beside its code.
    pub fn with_message(field: &str, code: &str, message: &str) -> (r: ValidationError)
        ensures
            r@.field == field@,
            r@.code == code@,
            r@.message == Some(message@),
    {
        ValidationError {
            field: field.to_owned(),
            code: code.to_owned(),
            message: Some(message.to_owned()),
        }
    }
}

/// What one failure renders as: its message when it has one, its code
/// otherwise.
pub open spec fn spec_error_text(e: ErrView) -> Seq<char> {
    match e.message {
        Some(m) => m,
        None => e.code,
    }
}

/// The rendered line of one failure: `"field: text"`.
pub open spec fn spec_error_line(e: ErrView) -> Seq<char> {
    e.field + ": "@ + spec_error_text(e)
}

/// Renders every collected failure as a `"field: text"` line, in order.
pub fn format_errors(errors: &Vec<ValidationError>) -> (r: Vec<String>)
    ensures
        r.deep_view().len() == errors.deep_view().len(),
        forall|i: int|
            0 <= i < r.deep_view().len() ==> r.deep_view()[i] == spec_error_line(
                errors.deep_view()[i],
            ),
{
    let mut r: Vec<String> = Vec::new();
    let n = errors.len();
    for i in 0..n
        invariant
            n == errors.deep_view().len(),
            r.deep_view().len() == i,
            forall|j: int|
                0 <= j < i ==> r.deep_view()[j] == spec_error_line(errors.deep_view()[j]),
    {
        let mut line = errors[i].field.clone();
        line.append(": ");
        match &errors[i].message {
            Some(m) => line.append(m.as_str()),
            None => line.append(errors[i].code.as_str()),
        }
        let ghost prev = r.deep_view();
        proof {
            assert(line@ == spec_error_line(errors.deep_view()[i as int]));
        }
        r.push(line);
        proof {
            assert(r.deep_view() =~= prev.push(line@));
        }
    }
    r
}

/// Prefixes every failure of a composite (nested or list-valued) field with
/// the parent field name, composing the paths with `": "`.
pub fn prefix_errors(parent: &str, errors: &Vec<ValidationError>) -> (r: Vec<ValidationError>)
    ensures
        r.deep_view().len() == errors.deep_view().len(),
        forall|i: int|
            0 <= i < r.deep_view().len() ==> {
                let e = errors.deep_view()[i];
                #[trigger] r.deep_view()[i] == (ErrView {
                    field: parent@ + ": "@ + e.field,
                    code: e.code,
                    message: e.message,
                })
            },
{
    let mut r: Vec<ValidationError> = Vec::new();
    let n = errors.len();
    for i in 0..n
        invariant
            n == errors.deep_view().len(),
            r.deep_view().len() == i,
            forall|j: int|
                0 <= j < i ==> {
                    let e = errors.deep_view()[j];
                    #[trigger] r.deep_view()[j] == (ErrView {
                        field: parent@ + ": "@ + e.field,
                        code: e.code,
                        message: e.message,
                    })
                },
    {
        let e = &errors[i];
        let mut field = parent.to_owned();
        field.append(": ");
        field.append(e.field.as_str());
        let message = match &e.message {
            Some(m) => Some(m.clone()),
            None => None,
        };
        let ghost prev = r.deep_view();
        let next = ValidationError { field, code: e.code.clone(), message };
        proof {
            assert(next@ == (ErrView {
                field: parent@ + ": "@ + errors.deep_view()[i as int].field,
                code: errors.deep_view()[i as int].code,
                message: errors.deep_view()[i as int].message,
            }));
        }
        r.push(next);
        proof {
            assert(r.deep_view() =~= prev.push(r@[prev.len() as int]@));
        }
    }
    r
}

/// A typed request payload with declared per-field rules. `validate` runs
/// every rule and collects every failure, in field-declaration order; it
/// never stops at the first.
pub trait ValidatePayload: Sized {
    /// All failures of this value, in field-declaration order.
    spec fn spec_errors(&self) -> Seq<ErrView>;

    fn validate(&self) -> (r: Result<(), Vec<ValidationError>>)
        ensures
            match r {
                Ok(()) => self.spec_errors().len() == 0,
                Err(v) => v.deep_view() == self.spec_errors() && v.deep_view().len() > 0,
            },
    ;
}

/// Outcome of decoding a raw body or query string and then validating it:
/// a failed decode is `MalformedInput`; a decoded value whose rules fail is
/// `ValidationFailed` with every failure collected.
pub fn decode_and_validate<T: ValidatePayload>(parsed: Option<T>) -> (r: Result<T, AppError>)
    ensures
        parsed is None ==> (r matches Err(e) && e@ == crate::error::AppErrorView::MalformedInput),
        parsed matches Some(v) ==> {
            &&& v.spec_errors().len() == 0 ==> r == Ok::<T, AppError>(v)
            &&& v.spec_errors().len() > 0 ==> (r matches Err(e) && e@
                == crate::error::AppErrorView::ValidationFailed(v.spec_errors()))
        },
{
    match parsed {
        None => Err(AppError::MalformedInput),
        Some(v) => match v.validate() {
            Ok(()) => Ok(v),
            Err(errors) => Err(AppError::ValidationFailed(errors)),
        },
    }
}

/// A request body decoded from JSON and validated before handler logic runs.
pub struct ValidateJson<T>(pub T);

impl<T: ValidatePayload> ValidateJson<T> {
    /// Accepts the decoded body only if every declared rule passes.
    pub fn from_parsed(parsed: Option<T>) -> (r: Result<ValidateJson<T>, AppError>)
        ensures
            parsed is None ==> (r matches Err(e) && e@
                == crate::error::AppErrorView::MalformedInput),
            parsed matches Some(v) ==> {
                &&& v.spec_errors().len() == 0 ==> (r matches Ok(out) && out.0 == v)
                &&& v.spec_errors().len() > 0 ==> (r matches Err(e) && e@
                    == crate::error::AppErrorView::ValidationFailed(v.spec_errors()))
            },
    {
        match decode_and_validate(parsed) {
            Ok(v) => Ok(ValidateJson(v)),
            Err(e) => Err(e),
        }
    }
}

/// Flat query parameters decoded and validated before handler logic runs.
pub struct ValidateQuery<T>(pub T);

impl<T: ValidatePayload> ValidateQuery<T> {
    /// Accepts the decoded query only if every declared rule passes.
    pub fn from_parsed(parsed: Option<T>) -> (r: Result<ValidateQuery<T>, AppError>)
        ensures
            parsed is None ==> (r matches Err(e) && e@
                == crate::error::AppErrorView::MalformedInput),
            parsed matches Some(v) ==> {
                &&& v.spec_errors().len() == 0 ==> (r matches Ok(out) && out.0 == v)
                &&& v.spec_errors().len() > 0 ==> (r matches Err(e) && e@
                    == crate::error::AppErrorView::ValidationFailed(v.spec_errors()))
            },
    {
        match decode_and_validate(parsed) {
            Ok(v) => Ok(ValidateQuery(v)),
            Err(e) => Err(e),
        }
    }
}

} // verus!
