//! What an answer of the remote service amounts to once it has arrived:
//! its payload, or the reason why there is none.

use vstd::prelude::*;
use vstd::string::*;
use crate::api::types::{GraphQLError, GraphQLResponse};
use crate::text::{join, join_strings, texts};

verus! {

/// Why an answer carries no payload, as mathematics.
pub enum QueryFailure {
    Rejected { message: Seq<char> },
    NoData,
}

/// Why an answer carries no payload.
#[derive(Debug)]
pub enum QueryError {
    /// The service reported errors; the message lists them.
    Rejected { message: String },
    /// The service reported no error and sent no data.
    NoData,
}

impl View for QueryError {
    type V = QueryFailure;

    open spec fn view(&self) -> QueryFailure {
        match *self {
            QueryError::Rejected { message } => QueryFailure::Rejected { message: message@ },
            QueryError::NoData => QueryFailure::NoData,
        }
    }
}

/// The messages of some errors, in order.
pub open spec fn error_messages(errors: Seq<GraphQLError>) -> Seq<Seq<char>> {
    errors.map_values(|e: GraphQLError| e.message@)
}

/// The text that reports a list of errors: their messages, separated by
/// semicolons.
pub open spec fn rejection_message(errors: Seq<GraphQLError>) -> Seq<char> {
    "GraphQL errors: "@ + join(error_messages(errors), "; "@)
}

/// An answer with one error or more is a rejection, whatever data came
/// with it; one without errors yields its data, or the lack of it.
pub open spec fn payload_of<T>(response: GraphQLResponse<T>) -> Result<T, QueryFailure> {
    match response.errors {
        Some(errors) => if errors@.len() > 0 {
            Err(QueryFailure::Rejected { message: rejection_message(errors@) })
        } else {
            match response.data {
                Some(data) => Ok(data),
                None => Err(QueryFailure::NoData),
            }
        },
        None => match response.data {
            Some(data) => Ok(data),
            None => Err(QueryFailure::NoData),
        },
    }
}

/// The mathematical content of a payload or its failure.
pub open spec fn payload_view<T>(r: Result<T, QueryError>) -> Result<T, QueryFailure> {
    match r {
        Ok(data) => Ok(data),
        Err(e) => Err(e@),
    }
}

impl QueryError {
    /// The text to show the user.
    pub fn message(&self) -> (r: String)
        ensures
            r@ == match self@ {
                QueryFailure::Rejected { message } => message,
                QueryFailure::NoData => "No data in GraphQL response"@,
            },
    {
        match self {
            QueryError::Rejected { message } => message.clone(),
            QueryError::NoData => String::from_str("No data in GraphQL response"),
        }
    }
}

fn rejection(errors: &Vec<GraphQLError>) -> (r: String)
    ensures
        r@ == rejection_message(errors@),
{
    let mut messages: Vec<String> = Vec::new();
    let mut i: usize = 0;
    proof {
        assert(texts(messages@) =~= error_messages(errors@.take(0)));
    }
    while i < errors.len()
        invariant
            i <= errors.len(),
            texts(messages@) == error_messages(errors@.take(i as int)),
        decreases errors.len() - i,
    {
        let message = errors[i].message.clone();
        proof {
            assert(errors@.take(i + 1) == errors@.take(i as int).push(errors@[i as int]));
            assert(texts(messages@.push(message)) =~= texts(messages@).push(message@));
            assert(error_messages(errors@.take(i as int).push(errors@[i as int])) =~= error_messages(
                errors@.take(i as int),
            ).push(message@));
        }
        messages.push(message);
        i += 1;
    }
    proof {
        assert(errors@.take(errors@.len() as int) == errors@);
    }
    let mut out = String::from_str("GraphQL errors: ");
    let listed = join_strings(&messages, "; ");
    out.append(listed.as_str());
    out
}

/// Takes the payload out of an answer.
pub fn payload<T>(response: GraphQLResponse<T>) -> (r: Result<T, QueryError>)
    ensures
        payload_view(r) == payload_of(response),
{
    match &response.errors {
        Some(errors) => {
            if errors.len() > 0 {
                return Err(QueryError::Rejected { message: rejection(errors) });
            }
        },
        None => {},
    }
    match response.data {
        Some(data) => Ok(data),
        None => Err(QueryError::NoData),
    }
}

} // verus!
