//! The closed set of failures a store operation can report, and the
//! status and body each of them is answered with.

use crate::status::status_line;
use crate::status::status_text;
use crate::status::STATUS_INTERNAL_SERVER_ERROR;
use crate::status::STATUS_NOT_FOUND;
use crate::status::STATUS_UNPROCESSABLE_ENTITY;
use vstd::prelude::*;

verus! {

/// The mapping that a sequence of `(field, reason)` pairs stands for: a
/// later pair replaces an earlier one for the same field.
pub open spec fn collect(pairs: Seq<(Seq<char>, Seq<char>)>) -> Map<Seq<char>, Seq<char>>
    decreases pairs.len(),
{
    if pairs.len() == 0 {
        Map::empty()
    } else {
        collect(pairs.drop_last()).insert(pairs.last().0, pairs.last().1)
    }
}

/// The characters of each pair of strings.
pub open spec fn pair_views(pairs: Seq<(&'static str, &'static str)>) -> Seq<
    (Seq<char>, Seq<char>),
> {
    pairs.map_values(|p: (&'static str, &'static str)| (p.0@, p.1@))
}

/// Whether no pair after position `i` names `field`.
pub open spec fn unnamed_after(
    pairs: Seq<(Seq<char>, Seq<char>)>,
    field: Seq<char>,
    i: int,
) -> bool {
    forall|j: int| i < j < pairs.len() ==> (#[trigger] pairs[j]).0 != field
}

/// A field that no pair names is not in the collected mapping.
pub proof fn lemma_collect_unnamed(pairs: Seq<(Seq<char>, Seq<char>)>, field: Seq<char>)
    requires
        unnamed_after(pairs, field, -1),
    ensures
        !collect(pairs).contains_key(field),
    decreases pairs.len(),
{
    if pairs.len() > 0 {
        let front = pairs.drop_last();
        lemma_collect_unnamed(front, field);
    }
}

/// The collected mapping sends a field to the reason of the last pair
/// that names it.
pub proof fn lemma_collect_last_wins(pairs: Seq<(Seq<char>, Seq<char>)>, i: int)
    requires
        0 <= i < pairs.len(),
        unnamed_after(pairs, pairs[i].0, i),
    ensures
        collect(pairs).contains_key(pairs[i].0),
        collect(pairs)[pairs[i].0] == pairs[i].1,
    decreases pairs.len(),
{
    if i < pairs.len() - 1 {
        let front = pairs.drop_last();
        lemma_collect_last_wins(front, i);
    }
}

/// The field-level problems of a rejected request: a mapping from field
/// name to a human-readable reason, made from at least one pair.
#[derive(Debug)]
pub struct UnprocessableEntityBody {
    errors: Vec<(&'static str, &'static str)>,
}

impl View for UnprocessableEntityBody {
    type V = Map<Seq<char>, Seq<char>>;

    closed spec fn view(&self) -> Map<Seq<char>, Seq<char>> {
        collect(pair_views(self.errors@))
    }
}

impl UnprocessableEntityBody {
    #[verifier::type_invariant]
    spec fn inv(&self) -> bool {
        self.errors@.len() > 0
    }

    /// The reason recorded for `field`, if the field is named at all.
    pub fn get(&self, field: &str) -> (reason: Option<&'static str>)
        ensures
            match reason {
                Some(text) => self@.contains_key(field@) && self@[field@] == text@,
                None => !self@.contains_key(field@),
            },
    {
        let ghost pairs = pair_views(self.errors@);
        let wanted = String::from_str(field);
        let mut i: usize = self.errors.len();
        while i > 0
            invariant
                i <= self.errors.len(),
                wanted@ == field@,
                pairs == pair_views(self.errors@),
                unnamed_after(pairs, field@, i - 1),
            decreases i,
        {
            i = i - 1;
            let name = String::from_str(self.errors[i].0);
            if name == wanted {
                proof {
                    lemma_collect_last_wins(pairs, i as int);
                }
                return Some(self.errors[i].1);
            }
        }
        proof {
            lemma_collect_unnamed(pairs, field@);
        }
        None
    }

    /// The `(field, reason)` pairs the body was made from, in the order
    /// they were given. There is at least one.
    pub fn entries(&self) -> (pairs: &Vec<(&'static str, &'static str)>)
        ensures
            pairs@.len() > 0,
            collect(pair_views(pairs@)) == self@,
    {
        proof {
            use_type_invariant(self);
        }
        &self.errors
    }
}

/// What a request is refused with.
#[derive(Debug)]
pub enum AppError {
    /// The requested identifier does not exist.
    NotFound,
    /// One or more rules on the request's fields are broken.
    UnprocessableEntity(UnprocessableEntityBody),
    /// The storage could not complete the operation; the text is the
    /// diagnostic detail, meant for the log and never for the caller.
    Database(String),
}

impl AppError {
    /// The rejection that names every field of `errors` with its reason.
    /// A rejection names at least one field.
    pub fn unprocessable_entity(errors: Vec<(&'static str, &'static str)>) -> (error: AppError)
        requires
            errors@.len() > 0,
        ensures
            error matches AppError::UnprocessableEntity(body) && {
                &&& body@ == collect(pair_views(errors@))
                &&& body@.contains_key(errors@.last().0@)
            },
    {
        AppError::UnprocessableEntity(UnprocessableEntityBody { errors })
    }

    /// The status each kind of failure is answered with.
    pub open spec fn spec_status_code(&self) -> u16 {
        match self {
            AppError::NotFound => STATUS_NOT_FOUND,
            AppError::UnprocessableEntity(_) => STATUS_UNPROCESSABLE_ENTITY,
            AppError::Database(_) => STATUS_INTERNAL_SERVER_ERROR,
        }
    }

    /// 404 for a missing identifier, 422 for broken rules, 500 for a
    /// storage failure.
    #[verifier::when_used_as_spec(spec_status_code)]
    pub fn status_code(&self) -> (code: u16)
        ensures
            code == self.spec_status_code(),
    {
        match self {
            AppError::NotFound => STATUS_NOT_FOUND,
            AppError::UnprocessableEntity(_) => STATUS_UNPROCESSABLE_ENTITY,
            AppError::Database(_) => STATUS_INTERNAL_SERVER_ERROR,
        }
    }

    /// Decides how the failure is answered, given the generic body of
    /// its status: the status, the body, and what goes to the log.
    /// Broken rules are reported field by field, and the generic body is
    /// left aside. A missing identifier and a storage failure are
    /// answered with the generic body; the cause of a storage failure
    /// goes to the log only.
    pub fn respond(self, generic: GenericErrorBody) -> (response: ErrorResponse)
        ensures
            response.status == self.spec_status_code(),
            match self {
                AppError::NotFound => {
                    &&& response.body matches ErrorBody::Generic(body)
                    &&& body == generic
                    &&& response.log is None
                },
                AppError::UnprocessableEntity(fields) => {
                    &&& response.body matches ErrorBody::Fields(body)
                    &&& body@ == fields@
                    &&& response.log is None
                },
                AppError::Database(cause) => {
                    &&& response.body matches ErrorBody::Generic(body)
                    &&& body == generic
                    &&& response.log matches Some(line)
                    &&& line@ == cause@
                },
            },
    {
        let status = self.status_code();
        match self {
            AppError::UnprocessableEntity(errors) => ErrorResponse {
                status,
                body: ErrorBody::Fields(errors),
                log: None,
            },
            AppError::Database(cause) => ErrorResponse {
                status,
                body: ErrorBody::Generic(generic),
                log: Some(cause),
            },
            AppError::NotFound => ErrorResponse {
                status,
                body: ErrorBody::Generic(generic),
                log: None,
            },
        }
    }

    /// Decides how the failure is answered, with the text of its status
    /// as the generic body. Nothing of the cause of a storage failure
    /// gets into the body.
    pub fn into_response(self) -> (response: ErrorResponse)
        ensures
            response.status == self.spec_status_code(),
            match self {
                AppError::NotFound => {
                    &&& response.body matches ErrorBody::Generic(body)
                    &&& body.error@ == "404 Not Found"@
                    &&& response.log is None
                },
                AppError::UnprocessableEntity(fields) => {
                    &&& response.body matches ErrorBody::Fields(body)
                    &&& body@ == fields@
                    &&& response.log is None
                },
                AppError::Database(cause) => {
                    &&& response.body matches ErrorBody::Generic(body)
                    &&& body.error@ == "500 Internal Server Error"@
                    &&& response.log matches Some(line)
                    &&& line@ == cause@
                },
            },
    {
        let generic = GenericErrorBody::from_status(self.status_code()).unwrap();
        self.respond(generic)
    }
}

/// The body of a failure that gives no detail beyond its status.
#[derive(Debug, PartialEq, Eq)]
pub struct GenericErrorBody {
    pub error: String,
}

impl GenericErrorBody {
    /// The generic body for `status`, or nothing if `status` is no
    /// three-digit status code. The body holds the line of the status.
    pub fn from_status(status: u16) -> (body: Option<GenericErrorBody>)
        ensures
            body is Some <==> 100 <= status <= 999,
            body matches Some(generic) ==> generic.error@ == status_line(status),
            body matches Some(generic) ==> (status == STATUS_NOT_FOUND ==> generic.error@
                == "404 Not Found"@),
            body matches Some(generic) ==> (status == STATUS_INTERNAL_SERVER_ERROR
                ==> generic.error@ == "500 Internal Server Error"@),
    {
        match status_text(status) {
            Some(error) => Some(GenericErrorBody { error }),
            None => None,
        }
    }
}

/// The two shapes a failure's body can take.
#[derive(Debug)]
pub enum ErrorBody {
    Generic(GenericErrorBody),
    Fields(UnprocessableEntityBody),
}

/// A failure as the boundary answers it.
#[derive(Debug)]
pub struct ErrorResponse {
    /// The status code of the answer.
    pub status: u16,
    /// The body of the answer.
    pub body: ErrorBody,
    /// Diagnostic detail for the log; never part of the answer.
    pub log: Option<String>,
}

} // verus!
