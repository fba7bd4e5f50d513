//! What a request to store a message must hold.
use vstd::prelude::*;
use crate::model::{AddMessageRequest, RequestView};

verus! {

/// The body of a request as it was decoded: each of the three texts is there
/// or is not.
#[derive(Clone, Debug, PartialEq, Eq)]
pub struct MessagePayload {
    pub customer_name: Option<String>,
    pub email: Option<String>,
    pub message: Option<String>,
}

/// Why a payload is no request: the first text that it lacks.
#[derive(Clone, Copy, Debug, PartialEq, Eq, Structural)]
pub enum ValidationError {
    MissingCustomerName,
    MissingEmail,
    MissingMessage,
}

impl MessagePayload {
    /// Whether all three texts are there.
    pub open spec fn is_complete(&self) -> bool {
        self.customer_name is Some && self.email is Some && self.message is Some
    }

    /// The request that a complete payload holds.
    pub open spec fn request(&self) -> RequestView
        recommends
            self.is_complete(),
    {
        RequestView {
            customer_name: self.customer_name->Some_0@,
            email: self.email->Some_0@,
            message: self.message->Some_0@,
        }
    }

    /// The first text that an incomplete payload lacks.
    pub open spec fn first_missing(&self) -> ValidationError
        recommends
            !self.is_complete(),
    {
        if self.customer_name is None {
            ValidationError::MissingCustomerName
        } else if self.email is None {
            ValidationError::MissingEmail
        } else {
            ValidationError::MissingMessage
        }
    }
}

impl ValidationError {
    /// The name of the field that is missing.
    pub open spec fn field_name(self) -> Seq<char> {
        match self {
            ValidationError::MissingCustomerName => "customer_name"@,
            ValidationError::MissingEmail => "email"@,
            ValidationError::MissingMessage => "message"@,
        }
    }

    /// The name of the field that is missing.
    pub fn field(&self) -> (name: &'static str)
        ensures
            name@ == self.field_name(),
    {
        match self {
            ValidationError::MissingCustomerName => "customer_name",
            ValidationError::MissingEmail => "email",
            ValidationError::MissingMessage => "message",
        }
    }
}

/// Accepts a payload that holds all three texts, whatever they are, and
/// names the first missing one otherwise.
pub fn validate(payload: MessagePayload) -> (outcome: Result<AddMessageRequest, ValidationError>)
    ensures
        outcome is Ok <==> payload.is_complete(),
        outcome is Ok ==> outcome->Ok_0@ == payload.request(),
        outcome is Err ==> outcome->Err_0 == payload.first_missing(),
{
    let customer_name = match payload.customer_name {
        Some(text) => text,
        None => {
            return Err(ValidationError::MissingCustomerName);
        },
    };
    let email = match payload.email {
        Some(text) => text,
        None => {
            return Err(ValidationError::MissingEmail);
        },
    };
    let message = match payload.message {
        Some(text) => text,
        None => {
            return Err(ValidationError::MissingMessage);
        },
    };
    Ok(AddMessageRequest { customer_name, email, message })
}

} // verus!
