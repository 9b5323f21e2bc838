//! The error taxonomy of the service and the text and status of each kind.

use vstd::prelude::*;

verus! {

/// One failed rule on one field of a request.
#[derive(Debug, Clone, PartialEq, Eq)]
pub struct FieldError {
    pub field: String,
    pub code: String,
    pub message: String,
}

pub struct FieldErrorView {
    pub field: Seq<char>,
    pub code: Seq<char>,
    pub message: Seq<char>,
}

impl View for FieldError {
    type V = FieldErrorView;

    open spec fn view(&self) -> FieldErrorView {
        FieldErrorView { field: self.field@, code: self.code@, message: self.message@ }
    }
}

/// The failed rules of one request, in the order in which they were checked.
#[derive(Debug, Clone, PartialEq, Eq)]
pub struct ValidationErrors {
    pub errors: Vec<FieldError>,
}

impl View for ValidationErrors {
    type V = Seq<FieldErrorView>;

    open spec fn view(&self) -> Seq<FieldErrorView> {
        self.errors@.map_values(|e: FieldError| e@)
    }
}

/// The line that reports one failed rule: the field, a colon, the message.
pub open spec fn field_line(e: FieldErrorView) -> Seq<char> {
    e.field + ": "@ + e.message
}

/// The lines of all failed rules, separated by line feeds.
pub open spec fn field_lines(errors: Seq<FieldErrorView>) -> Seq<char>
    decreases errors.len(),
{
    if errors.len() == 0 {
        Seq::empty()
    } else if errors.len() == 1 {
        field_line(errors[0])
    } else {
        field_lines(errors.drop_last()) + "\n"@ + field_line(errors.last())
    }
}

impl ValidationErrors {
    pub fn new() -> (v: ValidationErrors)
        ensures
            v@ == Seq::<FieldErrorView>::empty(),
    {
        let v = ValidationErrors { errors: Vec::new() };
        assert(v@ =~= Seq::<FieldErrorView>::empty());
        v
    }

    pub fn is_empty(&self) -> (b: bool)
        ensures
            b == (self@.len() == 0),
    {
        self.errors.len() == 0
    }

    /// Records that `field` broke the rule `code`.
    pub fn add(&mut self, field: &str, code: &str, message: &str)
        ensures
            final(self)@ == old(self)@.push(
                FieldErrorView { field: field@, code: code@, message: message@ },
            ),
    {
        let e = FieldError {
            field: String::from_str(field),
            code: String::from_str(code),
            message: String::from_str(message),
        };
        self.errors.push(e);
        assert(self@ =~= old(self)@.push(e@));
    }

    /// One line for each failed rule.
    pub fn to_string(&self) -> (text: String)
        ensures
            text@ == field_lines(self@),
    {
        let mut text = String::new();
        let mut i: usize = 0;
        while i < self.errors.len()
            invariant
                i <= self.errors.len(),
                text@ == field_lines(self@.take(i as int)),
            decreases self.errors.len() - i,
        {
            let ghost before = self@.take(i as int);
            let ghost after = self@.take(i + 1);
            assert(after.drop_last() =~= before);
            assert(after.last() == self.errors[i as int]@);
            if i > 0 {
                text.append("\n");
            }
            text.append(self.errors[i].field.as_str());
            text.append(": ");
            text.append(self.errors[i].message.as_str());
            assert(text@ =~= field_lines(after)) by {
                if i == 0 {
                    assert(before.len() == 0);
                    assert(after[0] == after.last());
                }
            }
            i += 1;
        }
        assert(self@.take(i as int) =~= self@);
        text
    }
}

/// What went wrong, as the service reports it.
#[derive(Debug, Clone, PartialEq, Eq)]
pub enum AppError {
    ValidationError(ValidationErrors),
    NotFound(String),
    Unauthorized(String),
    Forbidden(String),
    InternalError,
    DatabaseError(String),
    Conflict(String),
}

pub enum AppErrorView {
    ValidationError(Seq<FieldErrorView>),
    NotFound(Seq<char>),
    Unauthorized(Seq<char>),
    Forbidden(Seq<char>),
    InternalError,
    DatabaseError(Seq<char>),
    Conflict(Seq<char>),
}

impl View for AppError {
    type V = AppErrorView;

    open spec fn view(&self) -> AppErrorView {
        match self {
            AppError::ValidationError(v) => AppErrorView::ValidationError(v@),
            AppError::NotFound(m) => AppErrorView::NotFound(m@),
            AppError::Unauthorized(m) => AppErrorView::Unauthorized(m@),
            AppError::Forbidden(m) => AppErrorView::Forbidden(m@),
            AppError::InternalError => AppErrorView::InternalError,
            AppError::DatabaseError(m) => AppErrorView::DatabaseError(m@),
            AppError::Conflict(m) => AppErrorView::Conflict(m@),
        }
    }
}

impl AppErrorView {
    /// A failure of the store, of hashing or of signing: nothing that the
    /// caller did wrong.
    pub open spec fn is_fault(self) -> bool {
        self is InternalError || self is DatabaseError
    }

    /// The HTTP status that reports this kind of error.
    pub open spec fn status_code(self) -> u16 {
        match self {
            AppErrorView::ValidationError(_) => 400,
            AppErrorView::NotFound(_) => 404,
            AppErrorView::Unauthorized(_) => 401,
            AppErrorView::Forbidden(_) => 403,
            AppErrorView::Conflict(_) => 409,
            AppErrorView::DatabaseError(_) => 500,
            AppErrorView::InternalError => 500,
        }
    }

    /// The text shown for this error. Faults show no detail.
    pub open spec fn message(self) -> Seq<char> {
        match self {
            AppErrorView::ValidationError(v) => "Validation error: "@ + field_lines(v),
            AppErrorView::NotFound(m) => "Resource not found: "@ + m,
            AppErrorView::Unauthorized(m) => "Unauthorized: "@ + m,
            AppErrorView::Forbidden(m) => "Forbidden: "@ + m,
            AppErrorView::InternalError => "Internal Server Error"@,
            AppErrorView::DatabaseError(_) => "Database error"@,
            AppErrorView::Conflict(m) => "Conflict: "@ + m,
        }
    }
}

impl AppError {
    pub fn not_found(message: &str) -> (e: AppError)
        ensures
            e@ == AppErrorView::NotFound(message@),
    {
        AppError::NotFound(String::from_str(message))
    }

    pub fn unauthorized(message: &str) -> (e: AppError)
        ensures
            e@ == AppErrorView::Unauthorized(message@),
    {
        AppError::Unauthorized(String::from_str(message))
    }

    pub fn forbidden(message: &str) -> (e: AppError)
        ensures
            e@ == AppErrorView::Forbidden(message@),
    {
        AppError::Forbidden(String::from_str(message))
    }

    pub fn conflict(message: &str) -> (e: AppError)
        ensures
            e@ == AppErrorView::Conflict(message@),
    {
        AppError::Conflict(String::from_str(message))
    }

    /// Whether this is a failure of the store, of hashing or of signing.
    pub fn is_fault(&self) -> (b: bool)
        ensures
            b == self@.is_fault(),
    {
        match self {
            AppError::InternalError => true,
            AppError::DatabaseError(_) => true,
            _ => false,
        }
    }

    /// The HTTP status that reports this error.
    pub fn status_code(&self) -> (code: u16)
        ensures
            code == self@.status_code(),
    {
        match self {
            AppError::ValidationError(_) => 400,
            AppError::NotFound(_) => 404,
            AppError::Unauthorized(_) => 401,
            AppError::Forbidden(_) => 403,
            AppError::Conflict(_) => 409,
            AppError::DatabaseError(_) => 500,
            AppError::InternalError => 500,
        }
    }

    /// The text shown for this error.
    pub fn to_string(&self) -> (text: String)
        ensures
            text@ == self@.message(),
    {
        match self {
            AppError::ValidationError(v) => {
                let lines = v.to_string();
                String::from_str("Validation error: ").concat(lines.as_str())
            },
            AppError::NotFound(m) => String::from_str("Resource not found: ").concat(m.as_str()),
            AppError::Unauthorized(m) => String::from_str("Unauthorized: ").concat(m.as_str()),
            AppError::Forbidden(m) => String::from_str("Forbidden: ").concat(m.as_str()),
            AppError::InternalError => String::from_str("Internal Server Error"),
            AppError::DatabaseError(_) => String::from_str("Database error"),
            AppError::Conflict(m) => String::from_str("Conflict: ").concat(m.as_str()),
        }
    }
}

} // verus!
