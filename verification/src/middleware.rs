//! Interceptors: values that wrap a handler into another handler.

use crate::endpoint::Endpoint;
use crate::error::{Error, SizedLimitError};
use crate::request::Request;
use vstd::prelude::*;

verus! {

/// An interceptor: given any handler, it makes a handler around it.
///
/// An interceptor says in `wraps` what it makes of a handler; one that says
/// nothing may make anything. Since the result is a handler again,
/// interceptors stack to any depth.
pub trait Middleware<E: Endpoint> {
    /// The handler that wrapping gives.
    type Output: Endpoint;

    /// Whether `out` is what this interceptor makes around `ep`.
    open spec fn wraps(&self, ep: E, out: Self::Output) -> bool {
        true
    }

    /// Wraps `ep`.
    fn transform(&self, ep: E) -> (out: Self::Output)
        ensures
            self.wraps(ep, out),
    ;
}

/// What the guard decides for a request that declares `declared` as its body
/// length, under the ceiling `max_size`.
///
/// A request without a declared length is turned away first, whatever the
/// ceiling. One that declares more than the ceiling is turned away as too
/// large. Every other request passes: the ceiling itself is still allowed.
pub open spec fn admission(max_size: usize, declared: Option<u64>) -> Result<(), SizedLimitError> {
    match declared {
        None => Err(SizedLimitError::MissingContentLength),
        Some(len) => if len > max_size {
            Err(SizedLimitError::PayloadTooLarge)
        } else {
            Ok(())
        },
    }
}

/// The size policy: the largest body length, in bytes, that a request may
/// declare. It is fixed when the policy is made.
pub struct SizeLimit {
    max_size: usize,
}

impl SizeLimit {
    /// The ceiling of this policy.
    pub closed spec fn max_size(&self) -> usize {
        self.max_size
    }

    /// A policy with the ceiling `max_size`. Every value is taken: with a
    /// ceiling of zero only requests that declare a length of zero pass.
    pub fn new(max_size: usize) -> (limit: SizeLimit)
        ensures
            limit.max_size() == max_size,
    {
        SizeLimit { max_size }
    }

    /// Puts the guard around `ep`, which may be anything: the guard holds
    /// it and a copy of the ceiling.
    pub fn wrap<E>(&self, ep: E) -> (guarded: SizeLimitEndpoint<E>)
        ensures
            guarded.inner() == ep,
            guarded.max_size() == self.max_size(),
    {
        SizeLimitEndpoint { inner: ep, max_size: self.max_size }
    }
}

impl<E: Endpoint> Middleware<E> for SizeLimit {
    type Output = SizeLimitEndpoint<E>;

    /// The guard that holds `ep` and this policy's ceiling, and no other.
    open spec fn wraps(&self, ep: E, out: SizeLimitEndpoint<E>) -> bool {
        out.inner() == ep && out.max_size() == self.max_size()
    }

    fn transform(&self, ep: E) -> (out: SizeLimitEndpoint<E>) {
        self.wrap(ep)
    }
}

/// A handler behind the size guard.
pub struct SizeLimitEndpoint<E> {
    inner: E,
    max_size: usize,
}

impl<E> SizeLimitEndpoint<E> {
    /// The handler that the guard stands in front of.
    pub closed spec fn inner(&self) -> E {
        self.inner
    }

    /// The ceiling that the guard enforces.
    pub closed spec fn max_size(&self) -> usize {
        self.max_size
    }

    /// The handler that the guard stands in front of.
    pub fn get_ref(&self) -> (inner: &E)
        ensures
            *inner == self.inner(),
    {
        &self.inner
    }

    /// Decides on a declared length, as `admission` says.
    pub fn decide(&self, declared: Option<u64>) -> (verdict: Result<(), SizedLimitError>)
        ensures
            verdict == admission(self.max_size(), declared),
    {
        match declared {
            None => Err(SizedLimitError::MissingContentLength),
            Some(len) => {
                if len > self.max_size as u64 {
                    Err(SizedLimitError::PayloadTooLarge)
                } else {
                    Ok(())
                }
            },
        }
    }

    /// Decides on a request by the length that its headers declare. The
    /// body is not looked at. A request without the header is turned away
    /// as declaring no length.
    pub fn check(&self, req: &Request) -> (verdict: Result<(), SizedLimitError>)
        ensures
            verdict == admission(self.max_size(), req.declared_length()),
            req.length_values().len() == 0 ==> verdict == Err::<(), SizedLimitError>(
                SizedLimitError::MissingContentLength,
            ),
    {
        self.decide(req.content_length())
    }
}

impl<E: Endpoint> Endpoint for SizeLimitEndpoint<E> {
    type Output = E::Output;

    /// A request that the guard turns away gets that rejection and nothing
    /// else. One that passes gets whatever the inner handler may answer to
    /// the very same request.
    open spec fn answers(&self, req: Request, res: Result<E::Output, Error>) -> bool {
        match admission(self.max_size(), req.declared_length()) {
            Err(kind) => res == Err::<E::Output, Error>(Error::SizedLimit(kind)),
            Ok(_) => self.inner().answers(req, res),
        }
    }

    /// Decides on the request and, if it passes, hands it to the inner
    /// handler and returns what that handler gave.
    fn call(&self, req: Request) -> (res: Result<E::Output, Error>)
        ensures
            req.declared_length() is None ==> res == Err::<E::Output, Error>(
                Error::SizedLimit(SizedLimitError::MissingContentLength),
            ),
            (req.declared_length() matches Some(len) && len > self.max_size()) ==> res == Err::<
                E::Output,
                Error,
            >(Error::SizedLimit(SizedLimitError::PayloadTooLarge)),
            (req.declared_length() matches Some(len) && len <= self.max_size())
                ==> self.inner().answers(req, res),
            req.length_values().len() == 0 ==> res == Err::<E::Output, Error>(
                Error::SizedLimit(SizedLimitError::MissingContentLength),
            ),
    {
        match self.check(&req) {
            Err(kind) => Err(Error::from(kind)),
            Ok(_) => self.inner.call(req),
        }
    }
}

/// A declared length passes if and only if it is there and not above the
/// ceiling. Otherwise the rejection names what was wrong: a length that is
/// not there is missing, one above the ceiling is too large.
pub proof fn lemma_admission_cases(max_size: usize, declared: Option<u64>)
    ensures
        admission(max_size, declared) is Ok <==> (declared matches Some(len) && len <= max_size),
        admission(max_size, declared) == Err::<(), SizedLimitError>(
            SizedLimitError::MissingContentLength,
        ) <==> declared is None,
        admission(max_size, declared) == Err::<(), SizedLimitError>(
            SizedLimitError::PayloadTooLarge,
        ) <==> (declared matches Some(len) && len > max_size),
{
}

/// The ceiling is inclusive: a declared length equal to it passes, and the
/// next length up is turned away as too large.
pub proof fn lemma_ceiling_is_inclusive(max_size: usize, declared: u64)
    ensures
        declared == max_size ==> admission(max_size, Some(declared)) is Ok,
        declared == max_size + 1 ==> admission(max_size, Some(declared)) == Err::<
            (),
            SizedLimitError,
        >(SizedLimitError::PayloadTooLarge),
{
}

/// A guarded handler forwards a request if and only if the request declares
/// a length that is not above the ceiling: its answers are then those of the
/// inner handler to that request. To every other request its one answer is
/// the rejection that the declared length calls for.
pub proof fn lemma_forwards_iff_within_ceiling<E: Endpoint>(
    guard: SizeLimitEndpoint<E>,
    req: Request,
    res: Result<E::Output, Error>,
)
    ensures
        (req.declared_length() matches Some(len) && len <= guard.max_size()) ==> (guard.answers(
            req,
            res,
        ) <==> guard.inner().answers(req, res)),
        (req.declared_length() matches Some(len) && len > guard.max_size()) ==> (guard.answers(
            req,
            res,
        ) <==> res == Err::<E::Output, Error>(
            Error::SizedLimit(SizedLimitError::PayloadTooLarge),
        )),
        req.declared_length() is None ==> (guard.answers(req, res) <==> res == Err::<
            E::Output,
            Error,
        >(Error::SizedLimit(SizedLimitError::MissingContentLength))),
{
}

/// A request that declares no length is answered with
/// `MissingContentLength`, whatever its body holds, whatever the ceiling is
/// and whatever handler stands behind the guard.
pub proof fn lemma_missing_length_is_rejected<E: Endpoint>(
    guard: SizeLimitEndpoint<E>,
    req: Request,
    res: Result<E::Output, Error>,
)
    ensures
        req.declared_length() is None ==> admission(guard.max_size(), req.declared_length())
            == Err::<(), SizedLimitError>(SizedLimitError::MissingContentLength),
        req.declared_length() is None ==> (guard.answers(req, res) <==> res == Err::<
            E::Output,
            Error,
        >(Error::SizedLimit(SizedLimitError::MissingContentLength))),
{
}

/// The answer to a request that is turned away owes nothing to the inner
/// handler: two guards with the same ceiling give it the same answers,
/// whatever handlers they hold. Only a request that passes gets an answer
/// from the inner handler, and then it is an answer of that handler to this
/// one request.
pub proof fn lemma_inner_answers_only_when_passed<E: Endpoint>(
    guard: SizeLimitEndpoint<E>,
    other: SizeLimitEndpoint<E>,
    req: Request,
    res: Result<E::Output, Error>,
)
    requires
        guard.max_size() == other.max_size(),
    ensures
        admission(guard.max_size(), req.declared_length()) is Err ==> (guard.answers(req, res)
            <==> other.answers(req, res)),
        admission(guard.max_size(), req.declared_length()) is Ok ==> (guard.answers(req, res)
            <==> guard.inner().answers(req, res)),
{
}

/// The decision looks at the declared metadata alone: two requests with
/// the same `Content-Length` values get the same decision, however their
/// bodies and their other headers differ, and where that decision is a
/// rejection they get the same answers.
pub proof fn lemma_decision_ignores_body<E: Endpoint>(
    guard: SizeLimitEndpoint<E>,
    req: Request,
    other: Request,
    res: Result<E::Output, Error>,
)
    ensures
        req.length_values() == other.length_values() ==> admission(
            guard.max_size(),
            req.declared_length(),
        ) == admission(guard.max_size(), other.declared_length()),
        req.length_values() == other.length_values() && admission(
            guard.max_size(),
            req.declared_length(),
        ) is Err ==> (guard.answers(req, res) <==> guard.answers(other, res)),
{
}

} // verus!
