//! Marker traits tying each request body to its canonical response body.
use vstd::prelude::*;

verus! {

/// A request body; `Response` is the body the sensor answers it with.
pub trait Request {
    type Response;
}

/// A response body.
pub trait Response {

}

/// An unsolicited message body.
pub trait Message {

}

} // verus!
