use vstd::prelude::*;

use crate::subscriber_email::{is_valid_email, Email};
use crate::subscriber_name::{is_valid_name, SubscriberName};
use crate::subscriptions::SubscribeFormBody;

verus! {

/// A subscriber whose name and e-mail address have both been validated.
#[derive(Debug)]
pub struct NewSubscriber {
    pub name: SubscriberName,
    pub email: Email,
}

impl TryFrom<SubscribeFormBody> for NewSubscriber {
    type Error = String;

    /// Validates the name first, then the address; the first refusal is the error.
    fn try_from(value: SubscribeFormBody) -> (r: Result<Self, Self::Error>)
        ensures
            r is Ok <==> is_valid_name(value.name@) && is_valid_email(value.email@),
            r matches Ok(s) ==> s.name@ == value.name@ && s.email@ == value.email@,
            !is_valid_name(value.name@) ==> (r matches Err(m) && m@ == value.name@
                + " is not a valid subscriber name"@),
            is_valid_name(value.name@) && !is_valid_email(value.email@) ==> (r matches Err(m)
                && m@ == value.email@ + " is not a valid email"@),
    {
        let name = match SubscriberName::parse(value.name) {
            Ok(n) => n,
            Err(e) => return Err(e),
        };
        let email = match Email::parse(value.email) {
            Ok(e) => e,
            Err(e) => return Err(e),
        };
        Ok(NewSubscriber { name, email })
    }
}

impl vstd::std_specs::convert::TryFromSpecImpl<SubscribeFormBody> for NewSubscriber {
    open spec fn obeys_try_from_spec() -> bool {
        false
    }

    open spec fn try_from_spec(v: SubscribeFormBody) -> Result<Self, String> {
        arbitrary()
    }
}

} // verus!
