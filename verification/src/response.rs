use vstd::prelude::*;

verus! {

/// Standardized response wrapper for query operations.
///
/// A `Response` holds a tri-state outcome in three named fields: a success
/// flag, an optional payload, and an optional numeric error code. The flag
/// is deliberately redundant with which optional is populated, so consumers
/// can test the outcome without inspecting the optionals. A well-formed
/// envelope has exactly one of `data` / `error` present.
#[derive(Clone, Debug, PartialEq, Eq)]
pub struct Response<T: Clone> {
    pub success: bool,
    pub data: Option<T>,
    pub error: Option<u32>,
}

impl<T: Clone> Response<T> {
    /// A well-formed envelope: the success flag agrees with which of the
    /// two optional fields is populated, so exactly one of them is present.
    pub open spec fn wf(self) -> bool {
        &&& self.success == (self.data is Some)
        &&& self.success == (self.error is None)
    }

    /// The envelope that `ok` constructs.
    pub open spec fn spec_ok(data: T) -> Response<T> {
        Response { success: true, data: Some(data), error: None }
    }

    /// The envelope that `err` constructs.
    pub open spec fn spec_err(error_code: u32) -> Response<T> {
        Response { success: false, data: None, error: Some(error_code) }
    }

    /// Wraps a successful outcome: the payload is carried and no error
    /// code is present.
    pub fn ok(data: T) -> (r: Self)
        ensures
            r == Self::spec_ok(data),
            r.success == true,
            r.data == Some(data),
            r.error is None,
            r.wf(),
    {
        Response {
            success: true,
            data: Some(data),
            error: None,
        }
    }

    /// Wraps a failed outcome: the caller-supplied error code is carried
    /// verbatim and no payload is present.
    pub fn err(error_code: u32) -> (r: Self)
        ensures
            r == Self::spec_err(error_code),
            r.success == false,
            r.data is None,
            r.error == Some(error_code),
            r.wf(),
    {
        Response {
            success: false,
            data: None,
            error: Some(error_code),
        }
    }

    /// Field values that a decoder may accept: the success flag agrees with
    /// which optional is populated, so exactly one of the two is present.
    pub open spec fn fields_consistent(success: bool, data: Option<T>, error: Option<u32>) -> bool {
        &&& success == (data is Some)
        &&& success == (error is None)
    }

    /// The envelope that `from_fields` reconstructs, or `None` where the
    /// field values are inconsistent.
    pub open spec fn spec_from_fields(success: bool, data: Option<T>, error: Option<u32>) -> Option<Response<T>> {
        if Self::fields_consistent(success, data, error) {
            Some(Response { success, data, error })
        } else {
            None
        }
    }

    /// Encodes the envelope into its structured record form: the three named
    /// field values, with the presence or absence of each optional preserved
    /// exactly.
    pub fn into_fields(self) -> (fields: (bool, Option<T>, Option<u32>))
        ensures
            fields.0 == self.success,
            fields.1 == self.data,
            fields.2 == self.error,
    {
        (self.success, self.data, self.error)
    }

    /// Decodes an envelope from its structured record form. Field values in
    /// which the success flag disagrees with which optional is populated do
    /// not describe any constructible envelope and are rejected.
    pub fn from_fields(success: bool, data: Option<T>, error: Option<u32>) -> (r: Option<Response<T>>)
        ensures
            r == Self::spec_from_fields(success, data, error),
            r matches Some(resp) ==> resp.wf(),
            Self::fields_consistent(success, data, error) <==> r is Some,
    {
        let consistent = if success {
            data.is_some() && error.is_none()
        } else {
            data.is_none() && error.is_some()
        };
        if consistent {
            Some(Response { success, data, error })
        } else {
            None
        }
    }

    /// Mutual exclusivity: a well-formed envelope has exactly one of its two
    /// optional fields populated — never both, never neither.
    pub proof fn lemma_mutual_exclusivity(r: Response<T>)
        requires
            r.wf(),
        ensures
            (r.data is Some) != (r.error is Some),
    {
    }

    /// Structural equality of constructed envelopes: `ok` applied to equal
    /// payloads gives equal envelopes, `err` applied to equal codes gives
    /// equal envelopes, and an `ok` envelope never equals an `err` envelope.
    pub proof fn lemma_constructor_equality(v1: T, v2: T, c1: u32, c2: u32)
        ensures
            v1 == v2 ==> Self::spec_ok(v1) == Self::spec_ok(v2),
            c1 == c2 ==> Self::spec_err(c1) == Self::spec_err(c2),
            Self::spec_ok(v1) != Self::spec_err(c1),
    {
    }

    /// Round trip: encoding a well-formed envelope into its structured record
    /// form and decoding that form yields the original envelope, and every
    /// envelope that decoding accepts carries the decoded field values
    /// unchanged, so decoding an accepted form and re-encoding gives the
    /// form back.
    pub proof fn lemma_fields_round_trip(r: Response<T>, success: bool, data: Option<T>, error: Option<u32>)
        requires
            r.wf(),
        ensures
            Self::spec_from_fields(r.success, r.data, r.error) == Some(r),
            Self::spec_from_fields(success, data, error) matches Some(resp)
                ==> resp.success == success && resp.data == data && resp.error == error,
    {
    }
}

} // verus!
